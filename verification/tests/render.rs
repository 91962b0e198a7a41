use id_derive::numeral::{render_binary, render_decimal};
use id_derive::wrapper::Wrapper;

#[test]
fn decimal_rendering_matches_std() {
    assert_eq!(render_decimal(0), "0");
    assert_eq!(render_decimal(9), "9");
    assert_eq!(render_decimal(10), "10");
    assert_eq!(render_decimal(155), "155");
    assert_eq!(render_decimal(usize::MAX), format!("{}", usize::MAX));
}

#[test]
fn binary_rendering_matches_std() {
    assert_eq!(render_binary(0, false), "0");
    assert_eq!(render_binary(1, false), "1");
    assert_eq!(render_binary(2, false), "10");
    assert_eq!(render_binary(12, false), format!("{:b}", 12usize));
    assert_eq!(render_binary(12, true), format!("{:#b}", 12usize));
    assert_eq!(render_binary(usize::MAX, false), format!("{:b}", usize::MAX));
    assert_eq!(render_binary(usize::MAX, true), format!("{:#b}", usize::MAX));
}

#[test]
fn binary_alternate_adds_prefix_only() {
    assert_eq!(
        render_binary(155, true),
        format!("0b{}", render_binary(155, false))
    );
}

#[test]
fn mutating_variants_match_value_variants() {
    let mut w = Wrapper(12);
    w.add_assign_self(Wrapper(14));
    assert_eq!(w, Wrapper(12).add_self(Wrapper(14)));

    let mut w = Wrapper(12);
    w.add_assign_inner(14);
    assert_eq!(w, Wrapper(12).add_inner(14));

    let mut w = Wrapper(14);
    w.sub_assign_self(Wrapper(3));
    assert_eq!(w, Wrapper(14).sub_self(Wrapper(3)));

    let mut w = Wrapper(14);
    w.sub_assign_inner(3);
    assert_eq!(w, Wrapper(14).sub_inner(3));

    let mut w = Wrapper(12);
    w.mul_assign_self(Wrapper(12));
    assert_eq!(w, Wrapper(12).mul_self(Wrapper(12)));

    let mut w = Wrapper(12);
    w.mul_assign_inner(12);
    assert_eq!(w, Wrapper(12).mul_inner(12));

    let mut w = Wrapper(12);
    w.div_assign_self(Wrapper(3));
    assert_eq!(w, Wrapper(12).div_self(Wrapper(3)));

    let mut w = Wrapper(12);
    w.div_assign_inner(3);
    assert_eq!(w, Wrapper(12).div_inner(3));
}

#[test]
fn bundle_example_behaves_as_documented() {
    assert_eq!(Wrapper(12).add_self(Wrapper(14)), Wrapper(26));
    assert_eq!(Wrapper(12).sub_self(Wrapper(12)), Wrapper(0));
    assert_eq!(Wrapper(12).display(), "12");
    assert_eq!(Wrapper(12).binary(true), "0b1100");
}
