use partial_const::const_u64::Const;
use partial_const::ConstU64;
use partial_const::Equals;
use partial_const::Geq;
use partial_const::Gt;
use partial_const::Leq;
use partial_const::Lt;
use partial_const::MayBeConst;
use partial_const::MayBeConstAT;

fn u64_bound_lt<A: MayBeConst<u64>, B: MayBeConst<u64>>()
where
    A: Lt<B>,
{
}

fn u64_bound_gt<A: MayBeConst<u64>, B: MayBeConst<u64>>()
where
    A: Gt<B>,
{
}

fn u64_bound_leq<A: MayBeConst<u64>, B: MayBeConst<u64>>()
where
    A: Leq<B>,
{
}

fn u64_bound_geq<A: MayBeConst<u64>, B: MayBeConst<u64>>()
where
    A: Geq<B>,
{
}

fn u64_bound_equals<A: MayBeConst<u64>, B: MayBeConst<u64>>()
where
    A: Equals<B>,
{
}

fn u64_const_side_is_const<A: MayBeConst<u64>, B: MayBeConst<u64>>() -> bool
where
    A: Equals<B>,
{
    <<A as Equals<B>>::ConstSide as MayBeConstAT>::is_const()
}

#[test]
fn u64_ordering_bounds_with_a_runtime_side() {
    u64_bound_lt::<Const<1>, u64>();
    u64_bound_lt::<u64, Const<1>>();
    u64_bound_lt::<u64, u64>();
    u64_bound_gt::<Const<1>, u64>();
    u64_bound_gt::<u64, Const<1>>();
    u64_bound_gt::<u64, u64>();
    u64_bound_leq::<Const<1>, Const<1>>();
    u64_bound_leq::<Const<1>, u64>();
    u64_bound_leq::<u64, Const<1>>();
    u64_bound_leq::<u64, u64>();
    u64_bound_geq::<Const<1>, Const<1>>();
    u64_bound_geq::<Const<1>, u64>();
    u64_bound_geq::<u64, Const<1>>();
    u64_bound_geq::<u64, u64>();
}

#[test]
fn u64_equals_bounds_around_literal_one() {
    u64_bound_equals::<Const<1>, Const<1>>();
    u64_bound_equals::<Const<1>, u64>();
    u64_bound_equals::<u64, Const<1>>();
    u64_bound_equals::<u64, u64>();
}

#[test]
fn u64_get_const_side_round_trip() {
    assert_eq!(
        Const::<1>::new().get_const_side(&Const::<1>::new()),
        Some(Const::<1>::new())
    );
    assert_eq!(Const::<1>::new().get_const_side(&1u64), Some(Const::<1>::new()));
    assert_eq!(1u64.get_const_side(&Const::<1>::new()), Some(Const::<1>::new()));
    assert_eq!(1u64.get_const_side(&1u64), Some(1u64));

    assert_eq!(Const::<1>::new().get_const_side(&2u64), None);
    assert_eq!(2u64.get_const_side(&Const::<1>::new()), None);
    assert_eq!(1u64.get_const_side(&2u64), None);
    assert_eq!(Const::<1>::new().get_const_side(&Const::<2>::new()), None);

    assert_eq!(
        Const::<{ u64::MAX }>::new().get_const_side(&u64::MAX),
        Some(Const::<{ u64::MAX }>::new())
    );
    assert_eq!(Const::<{ u64::MAX }>::new().get_const_side(&0u64), None);
}

#[test]
fn u64_const_side_selection() {
    assert!(u64_const_side_is_const::<Const<7>, Const<7>>());
    assert!(u64_const_side_is_const::<Const<7>, u64>());
    assert!(u64_const_side_is_const::<u64, Const<7>>());
    assert!(!u64_const_side_is_const::<u64, u64>());
}

#[test]
fn u64_is_const_flags() {
    assert!(<Const<42> as MayBeConstAT>::is_const());
    assert!(!<u64 as MayBeConstAT>::is_const());
}

#[test]
fn u64_value_returns_the_wrapped_literal() {
    let const_value = ConstU64::<42>::new();
    assert_eq!(const_value.value(), 42);
    assert_eq!(7u64.value(), 7);
}

#[test]
fn u64_partial_eq_and_ord() {
    assert!(Const::<3>::new().eq(&Const::<3>::new()));
    assert!(Const::<3>::new().eq(&3u64));
    assert!(3u64.eq(&Const::<3>::new()));
    assert!(!Const::<4>::new().eq(&Const::<3>::new()));
    assert!(!Const::<4>::new().eq(&3u64));
    assert!(!4u64.eq(&Const::<3>::new()));

    assert_eq!(
        Const::<3>::new().partial_cmp(&Const::<4>::new()),
        Some(core::cmp::Ordering::Less)
    );
    assert_eq!(
        Const::<4>::new().partial_cmp(&Const::<4>::new()),
        Some(core::cmp::Ordering::Equal)
    );
    assert_eq!(
        Const::<5>::new().partial_cmp(&Const::<4>::new()),
        Some(core::cmp::Ordering::Greater)
    );
    assert_eq!(Const::<3>::new().partial_cmp(&4u64), Some(core::cmp::Ordering::Less));
    assert_eq!(4u64.partial_cmp(&Const::<3>::new()), Some(core::cmp::Ordering::Greater));
}

#[test]
fn u64_clone_and_default_keep_the_literal() {
    let const_value = Const::<9>::new();
    assert_eq!(const_value.clone().value(), 9);
    assert_eq!(Const::<9>::default().value(), 9);
}
