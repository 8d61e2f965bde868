use partial_const::ConstU128;
use partial_const::ConstU16;
use partial_const::ConstU32;
use partial_const::ConstU8;
use partial_const::ConstUsize;
use partial_const::Equals;
use partial_const::MayBeConst;
use partial_const::MayBeConstAT;

fn u8_bound_equals<A: MayBeConst<u8>, B: MayBeConst<u8>>()
where
    A: Equals<B>,
{
}

#[test]
fn u8_wrapper_basics() {
    u8_bound_equals::<ConstU8<1>, ConstU8<1>>();
    u8_bound_equals::<ConstU8<1>, u8>();
    u8_bound_equals::<u8, ConstU8<1>>();
    let const_value = ConstU8::<42>::new();
    assert_eq!(core::mem::size_of::<ConstU8<42>>(), 0);
    assert_eq!(const_value.value(), 42);
    assert_eq!(ConstU8::<1>::new().get_const_side(&2u8), None);
    assert_eq!(ConstU8::<1>::new().get_const_side(&1u8), Some(ConstU8::<1>::new()));
}

#[test]
fn u16_wrapper_basics() {
    let const_value = ConstU16::<42>::new();
    assert_eq!(core::mem::size_of::<ConstU16<42>>(), 0);
    assert_eq!(const_value.value(), 42);
    assert_eq!(
        <ConstU16<0> as Equals<ConstU16<0>>>::ConstSide::default(),
        ConstU16::<0>::new()
    );
    assert_eq!(<ConstU16<0> as Equals<u16>>::ConstSide::default(), ConstU16::<0>::new());
    assert_eq!(<u16 as Equals<ConstU16<0>>>::ConstSide::default(), ConstU16::<0>::new());
    assert_eq!(<u16 as Equals<u16>>::ConstSide::default(), 0u16);
}

#[test]
fn u32_wrapper_basics() {
    let const_value = ConstU32::<42>::new();
    assert_eq!(core::mem::size_of::<ConstU32<42>>(), 0);
    assert_eq!(const_value.value(), 42);
    assert_eq!(ConstU32::<0>::new().get_const_side(&ConstU32::<0>::new()), Some(ConstU32::<0>::new()));
    assert_eq!(ConstU32::<0>::new().get_const_side(&0u32), Some(ConstU32::<0>::new()));
    assert_eq!(0u32.get_const_side(&ConstU32::<0>::new()), Some(ConstU32::<0>::new()));
    assert_eq!(0u32.get_const_side(&0u32), Some(0u32));
    assert_eq!(ConstU32::<0>::new().get_const_side(&1u32), None);
    assert_eq!(1u32.get_const_side(&ConstU32::<0>::new()), None);
    assert_eq!(0u32.get_const_side(&1u32), None);
}

#[test]
fn u128_wrapper_basics() {
    let const_value = ConstU128::<42>::new();
    assert_eq!(core::mem::size_of::<ConstU128<42>>(), 0);
    assert_eq!(const_value.value(), 42);
    assert!(<ConstU128<42> as MayBeConstAT>::is_const());
    assert!(!<u128 as MayBeConstAT>::is_const());
}

#[test]
fn usize_wrapper_basics() {
    let const_value = ConstUsize::<42>::new();
    assert_eq!(core::mem::size_of::<ConstUsize<42>>(), 0);
    assert_eq!(const_value.value(), 42);
    assert!(ConstUsize::<3>::new().eq(&3usize));
    assert_eq!(
        ConstUsize::<3>::new().partial_cmp(&4usize),
        Some(core::cmp::Ordering::Less)
    );
}
