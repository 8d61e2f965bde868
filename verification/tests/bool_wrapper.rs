use partial_const::const_bool::Const;
use partial_const::Equals;
use partial_const::Geq;
use partial_const::Gt;
use partial_const::Leq;
use partial_const::Lt;
use partial_const::MayBeConst;
use partial_const::MayBeConstAT;

fn bound_lt<A: MayBeConst<bool>, B: MayBeConst<bool>>()
where
    A: Lt<B>,
{
}

fn bound_gt<A: MayBeConst<bool>, B: MayBeConst<bool>>()
where
    A: Gt<B>,
{
}

fn bound_leq<A: MayBeConst<bool>, B: MayBeConst<bool>>()
where
    A: Leq<B>,
{
}

fn bound_geq<A: MayBeConst<bool>, B: MayBeConst<bool>>()
where
    A: Geq<B>,
{
}

fn bound_equals<A: MayBeConst<bool>, B: MayBeConst<bool>>()
where
    A: Equals<B>,
{
}

fn const_side_is_const<A: MayBeConst<bool>, B: MayBeConst<bool>>() -> bool
where
    A: Equals<B>,
{
    <<A as Equals<B>>::ConstSide as MayBeConstAT>::is_const()
}

#[test]
fn test_lt() {
    bound_lt::<Const<false>, Const<true>>();
    bound_lt::<Const<false>, bool>();
    bound_lt::<bool, Const<false>>();
    bound_lt::<bool, bool>();
    // bound_lt::<Const<false>, Const<false>>(); // <- Compile Error!
    // bound_lt::<Const<true>, Const<false>>(); // <- Compile Error!
}

#[test]
fn test_gt() {
    bound_gt::<Const<true>, Const<false>>();
    bound_gt::<Const<false>, bool>();
    bound_gt::<bool, Const<false>>();
    bound_gt::<bool, bool>();
    // bound_gt::<Const<false>, Const<false>>(); // <- Compile Error!
    // bound_gt::<Const<false>, Const<true>>(); // <- Compile Error!
}

#[test]
fn test_leq() {
    bound_leq::<Const<false>, Const<false>>();
    bound_leq::<Const<false>, Const<true>>();
    bound_leq::<Const<false>, bool>();
    bound_leq::<bool, Const<false>>();
    bound_leq::<bool, bool>();
    // bound_leq::<Const<true>, Const<false>>(); // <- Compile Error!
}

#[test]
fn test_geq() {
    bound_geq::<Const<false>, Const<false>>();
    bound_geq::<Const<true>, Const<false>>();
    bound_geq::<Const<false>, bool>();
    bound_geq::<bool, Const<false>>();
    bound_geq::<bool, bool>();
    // bound_geq::<Const<false>, Const<true>>(); // <- Compile Error!
}

#[test]
fn min_test_equals() {
    bound_equals::<Const<false>, Const<false>>();
    bound_equals::<Const<false>, bool>();
    bound_equals::<bool, Const<false>>();
}

#[test]
fn test_equals_result_const() {
    assert!(const_side_is_const::<Const<false>, Const<false>>());
    assert!(const_side_is_const::<Const<false>, bool>());
    assert!(const_side_is_const::<bool, Const<false>>());

    assert_eq!(
        Const::<false>::new().get_const_side(&Const::<false>::new()),
        Some(Const::<false>::new())
    );
    assert_eq!(
        Const::<false>::new().get_const_side(&false),
        Some(Const::<false>::new())
    );
    assert_eq!(
        false.get_const_side(&Const::<false>::new()),
        Some(Const::<false>::new())
    );
    assert_eq!(false.get_const_side(&false), Some(false));

    assert_eq!(Const::<true>::new().get_const_side(&false), None);
    assert_eq!(true.get_const_side(&Const::<false>::new()), None);
    assert_eq!(true.get_const_side(&false), None);
}

#[test]
fn min_test_is_const() {
    assert!(<Const<false> as MayBeConstAT>::is_const());
}

#[test]
fn test_partial_eq() {
    assert!(Const::<false>::new().eq(&Const::<false>::new()));
    assert!(Const::<false>::new().eq(&false));
    assert!(false.eq(&Const::<false>::new()));
    assert!(false.eq(&false));

    assert!(!Const::<true>::new().eq(&Const::<false>::new()));
    assert!(!Const::<true>::new().eq(&false));
    assert!(!true.eq(&Const::<false>::new()));
    assert!(!true.eq(&false));
}

#[test]
fn test_partial_ord() {
    assert_eq!(
        Const::<true>::new().partial_cmp(&Const::<true>::new()),
        Some(core::cmp::Ordering::Equal)
    );
    assert_eq!(
        Const::<true>::new().partial_cmp(&true),
        Some(core::cmp::Ordering::Equal)
    );
    assert_eq!(
        true.partial_cmp(&Const::<true>::new()),
        Some(core::cmp::Ordering::Equal)
    );
    assert_eq!(true.partial_cmp(&true), Some(core::cmp::Ordering::Equal));

    assert_eq!(
        Const::<true>::new().partial_cmp(&Const::<false>::new()),
        Some(core::cmp::Ordering::Greater)
    );
    assert_eq!(
        Const::<true>::new().partial_cmp(&false),
        Some(core::cmp::Ordering::Greater)
    );
    assert_eq!(
        true.partial_cmp(&Const::<false>::new()),
        Some(core::cmp::Ordering::Greater)
    );
    assert_eq!(true.partial_cmp(&false), Some(core::cmp::Ordering::Greater));

    assert_eq!(
        Const::<false>::new().partial_cmp(&Const::<true>::new()),
        Some(core::cmp::Ordering::Less)
    );
    assert_eq!(
        Const::<false>::new().partial_cmp(&true),
        Some(core::cmp::Ordering::Less)
    );
    assert_eq!(
        false.partial_cmp(&Const::<true>::new()),
        Some(core::cmp::Ordering::Less)
    );
    assert_eq!(false.partial_cmp(&true), Some(core::cmp::Ordering::Less));
}

#[test]
fn stable_test_equals() {
    bound_equals::<bool, bool>();
}

#[test]
fn stable_test_is_const() {
    assert!(!<bool as MayBeConstAT>::is_const());
}

#[test]
fn equals_between_unequal_constants_is_absent() {
    bound_equals::<Const<true>, Const<false>>();
    assert_eq!(Const::<true>::new().get_const_side(&Const::<false>::new()), None);
    assert_eq!(Const::<false>::new().get_const_side(&Const::<true>::new()), None);
}

#[test]
fn raw_pair_const_side_stays_raw() {
    assert!(!const_side_is_const::<bool, bool>());
}

#[test]
fn value_returns_the_wrapped_literal() {
    assert_eq!(Const::<true>::new().value(), true);
    assert_eq!(Const::<false>::new().value(), false);
    assert_eq!(true.value(), true);
    assert_eq!(false.value(), false);
}
