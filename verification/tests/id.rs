use id_derive::numeral::{render_binary, render_decimal};
use id_derive::wrapper::Wrapper;

#[test]
fn test_value_is_valid() {
    assert_eq!(Wrapper(12).0, 12);
}

#[test]
fn test_print() {
    assert_eq!(Wrapper(12).display(), "12");
    assert_eq!(Wrapper(12).binary(false), "1100");
    assert_eq!(Wrapper(12).binary(true), "0b1100");
    assert_eq!(render_decimal(12), "12");
    assert_eq!(render_binary(12, false), "1100");
    assert_eq!(render_binary(12, true), "0b1100");
}

#[test]
fn test_add() {
    assert_eq!(Wrapper(12).add_self(Wrapper(14)), Wrapper(26));
    assert_eq!(Wrapper(12).add_self(Wrapper(14)).0, 26);
}

#[test]
fn test_add_inner() {
    assert_eq!(Wrapper(12).add_inner(14), Wrapper(26));
    assert_eq!(Wrapper(12).add_inner(14).0, 26);
}

#[test]
fn test_sub() {
    assert_eq!(Wrapper(14).sub_self(Wrapper(14)), Wrapper(0));
    assert_eq!(Wrapper(14).sub_self(Wrapper(14)).0, 0);
}

#[test]
fn test_sub_inner() {
    assert_eq!(Wrapper(14).sub_inner(14), Wrapper(0));
    assert_eq!(Wrapper(14).sub_inner(14).0, 0);
}

#[test]
fn test_mul() {
    assert_eq!(Wrapper(12).mul_self(Wrapper(12)), Wrapper(144));
    assert_eq!(Wrapper(12).mul_self(Wrapper(12)).0, 144);
}

#[test]
fn test_mul_inner() {
    assert_eq!(Wrapper(12).mul_inner(12), Wrapper(144));
    assert_eq!(Wrapper(12).mul_inner(12).0, 144);
}

#[test]
fn test_div() {
    assert_eq!(Wrapper(12).div_self(Wrapper(3)), Wrapper(4));
    assert_eq!(Wrapper(12).div_self(Wrapper(3)).0, 4);
}

#[test]
fn test_div_inner() {
    assert_eq!(Wrapper(12).div_inner(3), Wrapper(4));
    assert_eq!(Wrapper(12).div_inner(3).0, 4);
}

#[test]
fn test_from_inner() {
    assert_eq!(Wrapper::from_inner(155), Wrapper(155));
    assert_eq!(Wrapper::from_inner(155).0, 155);
    assert_eq!(Wrapper::from_inner(155).into_inner(), 155);
}

#[test]
fn test_into_inner() {
    assert_eq!(155, Wrapper(155).into_inner());
    assert_eq!(155, Wrapper::from_inner(155).into_inner());
    assert_eq!(155, Wrapper(155).0);
}
