use id_derive::decl::{Data, Declaration, Fields};
use id_derive::operation;

fn tuple_struct(name: &str, field_types: &[&str]) -> Declaration {
    Declaration {
        name: name.to_string(),
        data: Data::Struct(Fields::Unnamed(
            field_types.iter().map(|t| t.to_string()).collect(),
        )),
    }
}

fn wrapper(name: &str, inner: &str) -> Declaration {
    tuple_struct(name, &[inner])
}

#[test]
fn from_inner_text_is_exact() {
    let out = id_derive::from_inner(&wrapper("Id", "usize")).unwrap();
    assert_eq!(
        out,
        "impl ::std::convert::From<usize> for Id {\n    fn from(inner: usize) -> Self {\n        Self(inner)\n    }\n}\n"
    );
}

#[test]
fn into_inner_text_is_exact() {
    let out = id_derive::into_inner(&wrapper("Id", "usize")).unwrap();
    assert_eq!(
        out,
        "impl ::std::convert::From<Id> for usize {\n    fn from(inner: Id) -> Self {\n        inner.0\n    }\n}\n"
    );
}

#[test]
fn add_self_text_is_exact() {
    let out = id_derive::add_self(&wrapper("Id", "usize")).unwrap();
    assert_eq!(
        out,
        "impl ::std::ops::Add for Id {\n    type Output = Self;\n    fn add(self, rhs: Self) -> Self::Output {\n        Self(self.0 + rhs.0)\n    }\n}\n"
    );
}

#[test]
fn add_inner_text_is_exact() {
    let out = id_derive::add_inner(&wrapper("Id", "usize")).unwrap();
    assert_eq!(
        out,
        "impl ::std::ops::Add<usize> for Id {\n    type Output = Self;\n    fn add(self, rhs: usize) -> Self::Output {\n        Self(self.0 + rhs)\n    }\n}\n"
    );
}

#[test]
fn sub_assign_self_text_is_exact() {
    let out = id_derive::sub_assign_self(&wrapper("Id", "usize")).unwrap();
    assert_eq!(
        out,
        "impl ::std::ops::SubAssign for Id {\n    fn sub_assign(&mut self, rhs: Self) {\n        self.0 -= rhs.0;\n    }\n}\n"
    );
}

#[test]
fn mul_assign_inner_text_is_exact() {
    let out = id_derive::mul_assign_inner(&wrapper("Id", "usize")).unwrap();
    assert_eq!(
        out,
        "impl ::std::ops::MulAssign<usize> for Id {\n    fn mul_assign(&mut self, rhs: usize) {\n        self.0 *= rhs;\n    }\n}\n"
    );
}

#[test]
fn display_text_is_exact() {
    let out = id_derive::display(&wrapper("Id", "usize")).unwrap();
    assert_eq!(
        out,
        "impl ::std::fmt::Display for Id {\n    fn fmt(&self, f: &mut ::std::fmt::Formatter<'_>) -> ::std::fmt::Result {\n        ::std::fmt::Display::fmt(&self.0, f)\n    }\n}\nimpl ::std::fmt::Binary for Id {\n    fn fmt(&self, f: &mut ::std::fmt::Formatter<'_>) -> ::std::fmt::Result {\n        ::std::fmt::Binary::fmt(&self.0, f)\n    }\n}\n"
    );
}

#[test]
fn convert_concatenates_both_conversions() {
    let d = wrapper("Id", "usize");
    let both = id_derive::convert(&d).unwrap();
    let from = operation::from_inner("Convert", &d).unwrap();
    let into = operation::into_inner("Convert", &d).unwrap();
    assert_eq!(both, format!("{}{}", from, into));
}

#[test]
fn id_concatenates_every_fragment_in_order() {
    let d = wrapper("Id", "usize");
    let bundle = id_derive::id(&d).unwrap();
    let parts = [
        operation::from_inner("Id", &d).unwrap(),
        operation::into_inner("Id", &d).unwrap(),
        operation::add_self("Id", &d).unwrap(),
        operation::add_inner("Id", &d).unwrap(),
        operation::add_assign_self("Id", &d).unwrap(),
        operation::add_assign_inner("Id", &d).unwrap(),
        operation::sub_self("Id", &d).unwrap(),
        operation::sub_inner("Id", &d).unwrap(),
        operation::sub_assign_self("Id", &d).unwrap(),
        operation::sub_assign_inner("Id", &d).unwrap(),
        operation::mul_self("Id", &d).unwrap(),
        operation::mul_inner("Id", &d).unwrap(),
        operation::mul_assign_self("Id", &d).unwrap(),
        operation::mul_assign_inner("Id", &d).unwrap(),
        operation::div_self("Id", &d).unwrap(),
        operation::div_inner("Id", &d).unwrap(),
        operation::div_assign_self("Id", &d).unwrap(),
        operation::div_assign_inner("Id", &d).unwrap(),
        operation::display("Id", &d).unwrap(),
    ];
    assert_eq!(bundle, parts.concat());
}

#[test]
fn generated_bundle_parses_as_rust_source() {
    let bundle = id_derive::id(&wrapper("Id", "usize")).unwrap();
    assert!(syn::parse_file(&bundle).is_ok());
}

#[test]
fn multi_field_tuple_yields_diagnostic_fragment() {
    let d = tuple_struct("Pair", &["usize", "usize"]);
    let out = id_derive::add_self(&d).unwrap();
    assert_eq!(
        out,
        "compile_error!(\"Only single-field structs supported at the moment\");\n"
    );
    assert!(!out.contains("impl "));
}

#[test]
fn multi_field_tuple_bundle_has_no_partial_generation() {
    let d = tuple_struct("Pair", &["usize", "usize"]);
    let bundle = id_derive::id(&d).unwrap();
    assert!(!bundle.contains("impl "));
    assert_eq!(
        bundle,
        "compile_error!(\"Only single-field structs supported at the moment\");\n".repeat(19)
    );
}

#[test]
fn zero_field_tuple_yields_diagnostic_fragment() {
    let d = tuple_struct("Empty", &[]);
    let out = id_derive::display(&d).unwrap();
    assert_eq!(
        out,
        "compile_error!(\"Only single-field structs supported at the moment\");\n"
    );
}

#[test]
fn unit_struct_is_refused() {
    let d = Declaration {
        name: "Unit".to_string(),
        data: Data::Struct(Fields::Unit),
    };
    let diag = id_derive::add_self(&d).unwrap_err();
    assert_eq!(diag.message, "Unit struct cannot derive Add");
}

#[test]
fn named_fields_are_refused() {
    let d = Declaration {
        name: "Named".to_string(),
        data: Data::Struct(Fields::Named),
    };
    let diag = id_derive::sub_inner(&d).unwrap_err();
    assert_eq!(
        diag.message,
        "Deriving from SubInner by a struct with named fields is not yet implemented"
    );
}

#[test]
fn enum_is_refused() {
    let d = Declaration {
        name: "Choice".to_string(),
        data: Data::Enum,
    };
    let diag = id_derive::id(&d).unwrap_err();
    assert_eq!(diag.message, "Cannot derive Id for enum, expected struct.");
}

#[test]
fn union_is_refused() {
    let d = Declaration {
        name: "Raw".to_string(),
        data: Data::Union,
    };
    let diag = id_derive::convert(&d).unwrap_err();
    assert_eq!(
        diag.message,
        "Cannot derive Convert for union, expected struct."
    );
}

#[test]
fn assign_directives_use_value_directive_names() {
    let d = Declaration {
        name: "Unit".to_string(),
        data: Data::Struct(Fields::Unit),
    };
    let diag = id_derive::add_assign_self(&d).unwrap_err();
    assert_eq!(diag.message, "Unit struct cannot derive Add");
    let diag = id_derive::mul_assign_self(&d).unwrap_err();
    assert_eq!(diag.message, "Unit struct cannot derive MulAssign");
}
