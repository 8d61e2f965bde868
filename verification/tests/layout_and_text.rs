use partial_const::ConstBool;
use partial_const::ConstU64;
use partial_const::MayBeConstAT;

#[test]
fn wrappers_occupy_no_storage() {
    assert_eq!(core::mem::size_of::<ConstBool<false>>(), 0);
    assert_eq!(core::mem::size_of::<ConstBool<true>>(), 0);
    assert_eq!(core::mem::size_of::<ConstU64<0>>(), 0);
    assert_eq!(core::mem::size_of::<ConstU64<42>>(), 0);
    assert_eq!(core::mem::size_of::<ConstU64<{ u64::MAX }>>(), 0);
}

#[test]
fn render_matches_the_literal_text() {
    assert_eq!(ConstBool::<true>::new().render(), "true");
    assert_eq!(ConstBool::<false>::new().render(), "false");
    assert_eq!(ConstBool::<true>::new().render(), format!("{}", true));
    assert_eq!(ConstBool::<false>::new().render(), format!("{}", false));
}

#[test]
fn render_matches_the_literal_text_for_integers() {
    assert_eq!(ConstU64::<0>::new().render(), "0");
    assert_eq!(ConstU64::<7>::new().render(), "7");
    assert_eq!(ConstU64::<42>::new().render(), "42");
    assert_eq!(ConstU64::<1000>::new().render(), "1000");
    assert_eq!(ConstU64::<10203>::new().render(), format!("{}", 10203u64));
    assert_eq!(
        ConstU64::<{ u64::MAX }>::new().render(),
        format!("{}", u64::MAX)
    );
    assert_eq!(
        partial_const::ConstU128::<{ u128::MAX }>::new().render(),
        format!("{}", u128::MAX)
    );
    assert_eq!(partial_const::ConstU8::<255>::new().render(), "255");
}

#[test]
fn bool_clone_and_default_keep_the_literal() {
    let const_value = ConstBool::<true>::new();
    assert_eq!(const_value.clone().value(), true);
    assert_eq!(ConstBool::<true>::default().value(), true);
    assert_eq!(ConstBool::<false>::default().value(), false);
}
