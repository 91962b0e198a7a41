use vstd::prelude::*;
use vstd::string::StringExecFns;

use crate::decl::{Data, Declaration, Diagnostic, Fields};

verus! {

/// The trait-implementation fragment families a directive can ask for.
#[derive(Clone, Copy, Debug)]
pub enum FragmentKind {
    /// `From<Inner> for Wrapper`.
    FromInner,
    /// `From<Wrapper> for Inner`.
    IntoInner,
    /// `Add<Wrapper>`.
    AddSelf,
    /// `Add<Inner>`.
    AddInner,
    /// `AddAssign<Wrapper>`.
    AddAssignSelf,
    /// `AddAssign<Inner>`.
    AddAssignInner,
    /// `Sub<Wrapper>`.
    SubSelf,
    /// `Sub<Inner>`.
    SubInner,
    /// `SubAssign<Wrapper>`.
    SubAssignSelf,
    /// `SubAssign<Inner>`.
    SubAssignInner,
    /// `Mul<Wrapper>`.
    MulSelf,
    /// `Mul<Inner>`.
    MulInner,
    /// `MulAssign<Wrapper>`.
    MulAssignSelf,
    /// `MulAssign<Inner>`.
    MulAssignInner,
    /// `Div<Wrapper>`.
    DivSelf,
    /// `Div<Inner>`.
    DivInner,
    /// `DivAssign<Wrapper>`.
    DivAssignSelf,
    /// `DivAssign<Inner>`.
    DivAssignInner,
    /// `Display` and `Binary`.
    Display,
}

// ---------------------------------------------------------------------------
// The source text of each fragment family, as a function of the wrapper's
// name and its inner type's source text.
// ---------------------------------------------------------------------------

/// Text of a value-returning operator between two wrapper values.
pub open spec fn binary_self_text(
    op_trait: Seq<char>,
    method: Seq<char>,
    op_token: Seq<char>,
    name: Seq<char>,
) -> Seq<char> {
    "impl ::std::ops::"@ + op_trait + " for "@ + name
        + " {\n    type Output = Self;\n    fn "@ + method
        + "(self, rhs: Self) -> Self::Output {\n        Self(self.0 "@ + op_token
        + " rhs.0)\n    }\n}\n"@
}

/// Text of a value-returning operator between a wrapper and a raw inner value.
pub open spec fn binary_inner_text(
    op_trait: Seq<char>,
    method: Seq<char>,
    op_token: Seq<char>,
    name: Seq<char>,
    inner: Seq<char>,
) -> Seq<char> {
    "impl ::std::ops::"@ + op_trait + "<"@ + inner + "> for "@ + name
        + " {\n    type Output = Self;\n    fn "@ + method
        + "(self, rhs: "@ + inner + ") -> Self::Output {\n        Self(self.0 "@ + op_token
        + " rhs)\n    }\n}\n"@
}

/// Text of an in-place operator between two wrapper values.
pub open spec fn assign_self_text(
    op_trait: Seq<char>,
    method: Seq<char>,
    op_token: Seq<char>,
    name: Seq<char>,
) -> Seq<char> {
    "impl ::std::ops::"@ + op_trait + " for "@ + name
        + " {\n    fn "@ + method
        + "(&mut self, rhs: Self) {\n        self.0 "@ + op_token
        + " rhs.0;\n    }\n}\n"@
}

/// Text of an in-place operator between a wrapper and a raw inner value.
pub open spec fn assign_inner_text(
    op_trait: Seq<char>,
    method: Seq<char>,
    op_token: Seq<char>,
    name: Seq<char>,
    inner: Seq<char>,
) -> Seq<char> {
    "impl ::std::ops::"@ + op_trait + "<"@ + inner + "> for "@ + name
        + " {\n    fn "@ + method
        + "(&mut self, rhs: "@ + inner + ") {\n        self.0 "@ + op_token
        + " rhs;\n    }\n}\n"@
}

/// Text of the conversion into the wrapper from its inner type.
pub open spec fn from_inner_text(name: Seq<char>, inner: Seq<char>) -> Seq<char> {
    "impl ::std::convert::From<"@ + inner + "> for "@ + name
        + " {\n    fn from(inner: "@ + inner
        + ") -> Self {\n        Self(inner)\n    }\n}\n"@
}

/// Text of the conversion out of the wrapper to its inner type.
pub open spec fn into_inner_text(name: Seq<char>, inner: Seq<char>) -> Seq<char> {
    "impl ::std::convert::From<"@ + name + "> for "@ + inner
        + " {\n    fn from(inner: "@ + name
        + ") -> Self {\n        inner.0\n    }\n}\n"@
}

/// Text of the display fragment: decimal and binary rendering, each
/// delegating directly to the inner value's own rendering.
pub open spec fn display_text(name: Seq<char>) -> Seq<char> {
    "impl ::std::fmt::Display for "@ + name
        + " {\n    fn fmt(&self, f: &mut ::std::fmt::Formatter<'_>) -> ::std::fmt::Result {\n        ::std::fmt::Display::fmt(&self.0, f)\n    }\n}\nimpl ::std::fmt::Binary for "@ + name
        + " {\n    fn fmt(&self, f: &mut ::std::fmt::Formatter<'_>) -> ::std::fmt::Result {\n        ::std::fmt::Binary::fmt(&self.0, f)\n    }\n}\n"@
}

/// The diagnostic fragment emitted in place of any implementation when the
/// tuple struct does not have exactly one field.
pub open spec fn multi_field_text() -> Seq<char> {
    "compile_error!(\"Only single-field structs supported at the moment\");\n"@
}

/// The source text of one fragment family for a given wrapper.
pub open spec fn fragment_text(kind: FragmentKind, name: Seq<char>, inner: Seq<char>) -> Seq<char> {
    match kind {
        FragmentKind::FromInner => from_inner_text(name, inner),
        FragmentKind::IntoInner => into_inner_text(name, inner),
        FragmentKind::AddSelf => binary_self_text("Add"@, "add"@, "+"@, name),
        FragmentKind::AddInner => binary_inner_text("Add"@, "add"@, "+"@, name, inner),
        FragmentKind::AddAssignSelf => assign_self_text("AddAssign"@, "add_assign"@, "+="@, name),
        FragmentKind::AddAssignInner => assign_inner_text(
            "AddAssign"@, "add_assign"@, "+="@, name, inner),
        FragmentKind::SubSelf => binary_self_text("Sub"@, "sub"@, "-"@, name),
        FragmentKind::SubInner => binary_inner_text("Sub"@, "sub"@, "-"@, name, inner),
        FragmentKind::SubAssignSelf => assign_self_text("SubAssign"@, "sub_assign"@, "-="@, name),
        FragmentKind::SubAssignInner => assign_inner_text(
            "SubAssign"@, "sub_assign"@, "-="@, name, inner),
        FragmentKind::MulSelf => binary_self_text("Mul"@, "mul"@, "*"@, name),
        FragmentKind::MulInner => binary_inner_text("Mul"@, "mul"@, "*"@, name, inner),
        FragmentKind::MulAssignSelf => assign_self_text("MulAssign"@, "mul_assign"@, "*="@, name),
        FragmentKind::MulAssignInner => assign_inner_text(
            "MulAssign"@, "mul_assign"@, "*="@, name, inner),
        FragmentKind::DivSelf => binary_self_text("Div"@, "div"@, "/"@, name),
        FragmentKind::DivInner => binary_inner_text("Div"@, "div"@, "/"@, name, inner),
        FragmentKind::DivAssignSelf => assign_self_text("DivAssign"@, "div_assign"@, "/="@, name),
        FragmentKind::DivAssignInner => assign_inner_text(
            "DivAssign"@, "div_assign"@, "/="@, name, inner),
        FragmentKind::Display => display_text(name),
    }
}

/// What a fragment family yields for a tuple struct: its implementation text
/// when the struct has exactly one field, the diagnostic fragment otherwise.
pub open spec fn kind_output(kind: FragmentKind, name: Seq<char>, tys: Seq<Seq<char>>) -> Seq<char> {
    if tys.len() == 1 {
        fragment_text(kind, name, tys[0])
    } else {
        multi_field_text()
    }
}

// ---------------------------------------------------------------------------
// Diagnostics for shapes no directive generates for.
// ---------------------------------------------------------------------------

/// Message refusing a unit struct.
pub open spec fn unit_struct_message(directive: Seq<char>) -> Seq<char> {
    "Unit struct cannot derive "@ + directive
}

/// Message refusing a struct with named fields.
pub open spec fn named_fields_message(directive: Seq<char>) -> Seq<char> {
    "Deriving from "@ + directive + " by a struct with named fields is not yet implemented"@
}

/// Message refusing an enum.
pub open spec fn enum_message(directive: Seq<char>) -> Seq<char> {
    "Cannot derive "@ + directive + " for enum, expected struct."@
}

/// Message refusing a union.
pub open spec fn union_message(directive: Seq<char>) -> Seq<char> {
    "Cannot derive "@ + directive + " for union, expected struct."@
}

/// The message a declaration of a non-generating shape is refused with.
pub open spec fn shape_message(directive: Seq<char>, d: Declaration) -> Seq<char>
    recommends
        !d.generates(),
{
    match d.data {
        Data::Struct(Fields::Unnamed(_)) => Seq::empty(),
        Data::Struct(Fields::Named) => named_fields_message(directive),
        Data::Struct(Fields::Unit) => unit_struct_message(directive),
        Data::Enum => enum_message(directive),
        Data::Union => union_message(directive),
    }
}

/// What one directive's generator returns for a declaration: the fragment
/// family's output for a tuple struct, and the shape diagnostic otherwise.
pub open spec fn operation_spec(
    directive: Seq<char>,
    d: Declaration,
    kind: FragmentKind,
) -> Result<Seq<char>, Seq<char>> {
    if d.generates() {
        Ok(kind_output(kind, d.name@, d.field_types()))
    } else {
        Err(shape_message(directive, d))
    }
}

/// For a single-field wrapper, every directive generates exactly its
/// fragment family's implementation text for the wrapper's name and its
/// inner type.
pub proof fn lemma_single_field_generates(
    directive: Seq<char>,
    d: Declaration,
    kind: FragmentKind,
)
    requires
        d.is_single_field(),
    ensures
        operation_spec(directive, d, kind) == Ok::<Seq<char>, Seq<char>>(
            fragment_text(kind, d.name@, d.inner_type()),
        ),
{
}

/// A tuple struct without exactly one field yields only the diagnostic
/// fragment, for every directive: there is no partial generation.
pub proof fn lemma_multi_field_no_partial(
    directive: Seq<char>,
    d: Declaration,
    kind: FragmentKind,
)
    requires
        d.generates(),
        !d.is_single_field(),
    ensures
        operation_spec(directive, d, kind) == Ok::<Seq<char>, Seq<char>>(multi_field_text()),
{
}

/// Whether an executable result carries exactly the expected text.
pub open spec fn result_matches(
    r: Result<String, Diagnostic>,
    expected: Result<Seq<char>, Seq<char>>,
) -> bool {
    match (r, expected) {
        (Ok(text), Ok(e)) => text@ == e,
        (Err(diag), Err(m)) => diag.message@ == m,
        _ => false,
    }
}

// ---------------------------------------------------------------------------
// Renderers: executable construction of the fragment texts.
// ---------------------------------------------------------------------------

fn render_binary_self(op_trait: &str, method: &str, op_token: &str, name: &str) -> (r: String)
    ensures
        r@ == binary_self_text(op_trait@, method@, op_token@, name@),
{
    let mut s = String::new();
    s.append("impl ::std::ops::");
    s.append(op_trait);
    s.append(" for ");
    s.append(name);
    s.append(" {\n    type Output = Self;\n    fn ");
    s.append(method);
    s.append("(self, rhs: Self) -> Self::Output {\n        Self(self.0 ");
    s.append(op_token);
    s.append(" rhs.0)\n    }\n}\n");
    s
}

fn render_binary_inner(
    op_trait: &str,
    method: &str,
    op_token: &str,
    name: &str,
    inner: &str,
) -> (r: String)
    ensures
        r@ == binary_inner_text(op_trait@, method@, op_token@, name@, inner@),
{
    let mut s = String::new();
    s.append("impl ::std::ops::");
    s.append(op_trait);
    s.append("<");
    s.append(inner);
    s.append("> for ");
    s.append(name);
    s.append(" {\n    type Output = Self;\n    fn ");
    s.append(method);
    s.append("(self, rhs: ");
    s.append(inner);
    s.append(") -> Self::Output {\n        Self(self.0 ");
    s.append(op_token);
    s.append(" rhs)\n    }\n}\n");
    s
}

fn render_assign_self(op_trait: &str, method: &str, op_token: &str, name: &str) -> (r: String)
    ensures
        r@ == assign_self_text(op_trait@, method@, op_token@, name@),
{
    let mut s = String::new();
    s.append("impl ::std::ops::");
    s.append(op_trait);
    s.append(" for ");
    s.append(name);
    s.append(" {\n    fn ");
    s.append(method);
    s.append("(&mut self, rhs: Self) {\n        self.0 ");
    s.append(op_token);
    s.append(" rhs.0;\n    }\n}\n");
    s
}

fn render_assign_inner(
    op_trait: &str,
    method: &str,
    op_token: &str,
    name: &str,
    inner: &str,
) -> (r: String)
    ensures
        r@ == assign_inner_text(op_trait@, method@, op_token@, name@, inner@),
{
    let mut s = String::new();
    s.append("impl ::std::ops::");
    s.append(op_trait);
    s.append("<");
    s.append(inner);
    s.append("> for ");
    s.append(name);
    s.append(" {\n    fn ");
    s.append(method);
    s.append("(&mut self, rhs: ");
    s.append(inner);
    s.append(") {\n        self.0 ");
    s.append(op_token);
    s.append(" rhs;\n    }\n}\n");
    s
}

fn render_from_inner(name: &str, inner: &str) -> (r: String)
    ensures
        r@ == from_inner_text(name@, inner@),
{
    let mut s = String::new();
    s.append("impl ::std::convert::From<");
    s.append(inner);
    s.append("> for ");
    s.append(name);
    s.append(" {\n    fn from(inner: ");
    s.append(inner);
    s.append(") -> Self {\n        Self(inner)\n    }\n}\n");
    s
}

fn render_into_inner(name: &str, inner: &str) -> (r: String)
    ensures
        r@ == into_inner_text(name@, inner@),
{
    let mut s = String::new();
    s.append("impl ::std::convert::From<");
    s.append(name);
    s.append("> for ");
    s.append(inner);
    s.append(" {\n    fn from(inner: ");
    s.append(name);
    s.append(") -> Self {\n        inner.0\n    }\n}\n");
    s
}

fn render_display(name: &str) -> (r: String)
    ensures
        r@ == display_text(name@),
{
    let mut s = String::new();
    s.append("impl ::std::fmt::Display for ");
    s.append(name);
    s.append(" {\n    fn fmt(&self, f: &mut ::std::fmt::Formatter<'_>) -> ::std::fmt::Result {\n        ::std::fmt::Display::fmt(&self.0, f)\n    }\n}\nimpl ::std::fmt::Binary for ");
    s.append(name);
    s.append(" {\n    fn fmt(&self, f: &mut ::std::fmt::Formatter<'_>) -> ::std::fmt::Result {\n        ::std::fmt::Binary::fmt(&self.0, f)\n    }\n}\n");
    s
}

fn render_multi_field_error() -> (r: String)
    ensures
        r@ == multi_field_text(),
{
    let mut s = String::new();
    s.append("compile_error!(\"Only single-field structs supported at the moment\");\n");
    s
}

/// Renders one fragment family for a wrapper with the given name and inner type.
pub fn render_fragment(kind: FragmentKind, name: &str, inner: &str) -> (r: String)
    ensures
        r@ == fragment_text(kind, name@, inner@),
{
    match kind {
        FragmentKind::FromInner => render_from_inner(name, inner),
        FragmentKind::IntoInner => render_into_inner(name, inner),
        FragmentKind::AddSelf => render_binary_self("Add", "add", "+", name),
        FragmentKind::AddInner => render_binary_inner("Add", "add", "+", name, inner),
        FragmentKind::AddAssignSelf => render_assign_self("AddAssign", "add_assign", "+=", name),
        FragmentKind::AddAssignInner => render_assign_inner(
            "AddAssign", "add_assign", "+=", name, inner),
        FragmentKind::SubSelf => render_binary_self("Sub", "sub", "-", name),
        FragmentKind::SubInner => render_binary_inner("Sub", "sub", "-", name, inner),
        FragmentKind::SubAssignSelf => render_assign_self("SubAssign", "sub_assign", "-=", name),
        FragmentKind::SubAssignInner => render_assign_inner(
            "SubAssign", "sub_assign", "-=", name, inner),
        FragmentKind::MulSelf => render_binary_self("Mul", "mul", "*", name),
        FragmentKind::MulInner => render_binary_inner("Mul", "mul", "*", name, inner),
        FragmentKind::MulAssignSelf => render_assign_self("MulAssign", "mul_assign", "*=", name),
        FragmentKind::MulAssignInner => render_assign_inner(
            "MulAssign", "mul_assign", "*=", name, inner),
        FragmentKind::DivSelf => render_binary_self("Div", "div", "/", name),
        FragmentKind::DivInner => render_binary_inner("Div", "div", "/", name, inner),
        FragmentKind::DivAssignSelf => render_assign_self("DivAssign", "div_assign", "/=", name),
        FragmentKind::DivAssignInner => render_assign_inner(
            "DivAssign", "div_assign", "/=", name, inner),
        FragmentKind::Display => render_display(name),
    }
}

// ---------------------------------------------------------------------------
// Shape validation and per-directive generation.
// ---------------------------------------------------------------------------

fn concat2(prefix: &str, directive: &str) -> (r: String)
    ensures
        r@ == prefix@ + directive@,
{
    let mut s = String::new();
    s.append(prefix);
    s.append(directive);
    s
}

fn concat3(prefix: &str, directive: &str, suffix: &str) -> (r: String)
    ensures
        r@ == prefix@ + directive@ + suffix@,
{
    let mut s = String::new();
    s.append(prefix);
    s.append(directive);
    s.append(suffix);
    s
}

/// Emits one fragment family for a tuple struct: the implementation text when
/// there is exactly one field, the diagnostic fragment otherwise.
pub fn implement_operation(name: &String, fields: &Vec<String>, kind: FragmentKind) -> (r: String)
    ensures
        r@ == kind_output(kind, name@, fields.deep_view()),
{
    if fields.len() != 1 {
        render_multi_field_error()
    } else {
        render_fragment(kind, name.as_str(), fields[0].as_str())
    }
}

/// Validates the declaration's shape for one directive and emits the
/// directive's fragment family, or the diagnostic naming the directive and
/// the offending shape.
pub fn single_derive(derive_name: &str, input: &Declaration, kind: FragmentKind) -> (r: Result<
    String,
    Diagnostic,
>)
    ensures
        result_matches(r, operation_spec(derive_name@, *input, kind)),
{
    match &input.data {
        Data::Struct(fields) => match fields {
            Fields::Unnamed(tys) => Ok(implement_operation(&input.name, tys, kind)),
            Fields::Unit => Err(
                Diagnostic { message: concat2("Unit struct cannot derive ", derive_name) },
            ),
            Fields::Named => Err(
                Diagnostic {
                    message: concat3(
                        "Deriving from ",
                        derive_name,
                        " by a struct with named fields is not yet implemented",
                    ),
                },
            ),
        },
        Data::Enum => Err(
            Diagnostic { message: concat3("Cannot derive ", derive_name, " for enum, expected struct.") },
        ),
        Data::Union => Err(
            Diagnostic {
                message: concat3("Cannot derive ", derive_name, " for union, expected struct."),
            },
        ),
    }
}

/// Generates the conversion into the wrapper from its inner type.
pub fn from_inner(derive_name: &str, input: &Declaration) -> (r: Result<String, Diagnostic>)
    ensures
        result_matches(r, operation_spec(derive_name@, *input, FragmentKind::FromInner)),
{
    single_derive(derive_name, input, FragmentKind::FromInner)
}

/// Generates the conversion out of the wrapper to its inner type.
pub fn into_inner(derive_name: &str, input: &Declaration) -> (r: Result<String, Diagnostic>)
    ensures
        result_matches(r, operation_spec(derive_name@, *input, FragmentKind::IntoInner)),
{
    single_derive(derive_name, input, FragmentKind::IntoInner)
}

/// Generates addition between two wrapper values.
pub fn add_self(derive_name: &str, input: &Declaration) -> (r: Result<String, Diagnostic>)
    ensures
        result_matches(r, operation_spec(derive_name@, *input, FragmentKind::AddSelf)),
{
    single_derive(derive_name, input, FragmentKind::AddSelf)
}

/// Generates addition between a wrapper and a raw inner value.
pub fn add_inner(derive_name: &str, input: &Declaration) -> (r: Result<String, Diagnostic>)
    ensures
        result_matches(r, operation_spec(derive_name@, *input, FragmentKind::AddInner)),
{
    single_derive(derive_name, input, FragmentKind::AddInner)
}

/// Generates in-place addition of another wrapper value.
pub fn add_assign_self(derive_name: &str, input: &Declaration) -> (r: Result<String, Diagnostic>)
    ensures
        result_matches(r, operation_spec(derive_name@, *input, FragmentKind::AddAssignSelf)),
{
    single_derive(derive_name, input, FragmentKind::AddAssignSelf)
}

/// Generates in-place addition of a raw inner value.
pub fn add_assign_inner(derive_name: &str, input: &Declaration) -> (r: Result<String, Diagnostic>)
    ensures
        result_matches(r, operation_spec(derive_name@, *input, FragmentKind::AddAssignInner)),
{
    single_derive(derive_name, input, FragmentKind::AddAssignInner)
}

/// Generates subtraction between two wrapper values.
pub fn sub_self(derive_name: &str, input: &Declaration) -> (r: Result<String, Diagnostic>)
    ensures
        result_matches(r, operation_spec(derive_name@, *input, FragmentKind::SubSelf)),
{
    single_derive(derive_name, input, FragmentKind::SubSelf)
}

/// Generates subtraction of a raw inner value from a wrapper.
pub fn sub_inner(derive_name: &str, input: &Declaration) -> (r: Result<String, Diagnostic>)
    ensures
        result_matches(r, operation_spec(derive_name@, *input, FragmentKind::SubInner)),
{
    single_derive(derive_name, input, FragmentKind::SubInner)
}

/// Generates in-place subtraction of another wrapper value.
pub fn sub_assign_self(derive_name: &str, input: &Declaration) -> (r: Result<String, Diagnostic>)
    ensures
        result_matches(r, operation_spec(derive_name@, *input, FragmentKind::SubAssignSelf)),
{
    single_derive(derive_name, input, FragmentKind::SubAssignSelf)
}

/// Generates in-place subtraction of a raw inner value.
pub fn sub_assign_inner(derive_name: &str, input: &Declaration) -> (r: Result<String, Diagnostic>)
    ensures
        result_matches(r, operation_spec(derive_name@, *input, FragmentKind::SubAssignInner)),
{
    single_derive(derive_name, input, FragmentKind::SubAssignInner)
}

/// Generates multiplication between two wrapper values.
pub fn mul_self(derive_name: &str, input: &Declaration) -> (r: Result<String, Diagnostic>)
    ensures
        result_matches(r, operation_spec(derive_name@, *input, FragmentKind::MulSelf)),
{
    single_derive(derive_name, input, FragmentKind::MulSelf)
}

/// Generates multiplication of a wrapper by a raw inner value.
pub fn mul_inner(derive_name: &str, input: &Declaration) -> (r: Result<String, Diagnostic>)
    ensures
        result_matches(r, operation_spec(derive_name@, *input, FragmentKind::MulInner)),
{
    single_derive(derive_name, input, FragmentKind::MulInner)
}

/// Generates in-place multiplication by another wrapper value.
pub fn mul_assign_self(derive_name: &str, input: &Declaration) -> (r: Result<String, Diagnostic>)
    ensures
        result_matches(r, operation_spec(derive_name@, *input, FragmentKind::MulAssignSelf)),
{
    single_derive(derive_name, input, FragmentKind::MulAssignSelf)
}

/// Generates in-place multiplication by a raw inner value.
pub fn mul_assign_inner(derive_name: &str, input: &Declaration) -> (r: Result<String, Diagnostic>)
    ensures
        result_matches(r, operation_spec(derive_name@, *input, FragmentKind::MulAssignInner)),
{
    single_derive(derive_name, input, FragmentKind::MulAssignInner)
}

/// Generates division between two wrapper values.
pub fn div_self(derive_name: &str, input: &Declaration) -> (r: Result<String, Diagnostic>)
    ensures
        result_matches(r, operation_spec(derive_name@, *input, FragmentKind::DivSelf)),
{
    single_derive(derive_name, input, FragmentKind::DivSelf)
}

/// Generates division of a wrapper by a raw inner value.
pub fn div_inner(derive_name: &str, input: &Declaration) -> (r: Result<String, Diagnostic>)
    ensures
        result_matches(r, operation_spec(derive_name@, *input, FragmentKind::DivInner)),
{
    single_derive(derive_name, input, FragmentKind::DivInner)
}

/// Generates in-place division by another wrapper value.
pub fn div_assign_self(derive_name: &str, input: &Declaration) -> (r: Result<String, Diagnostic>)
    ensures
        result_matches(r, operation_spec(derive_name@, *input, FragmentKind::DivAssignSelf)),
{
    single_derive(derive_name, input, FragmentKind::DivAssignSelf)
}

/// Generates in-place division by a raw inner value.
pub fn div_assign_inner(derive_name: &str, input: &Declaration) -> (r: Result<String, Diagnostic>)
    ensures
        result_matches(r, operation_spec(derive_name@, *input, FragmentKind::DivAssignInner)),
{
    single_derive(derive_name, input, FragmentKind::DivAssignInner)
}

/// Generates decimal and binary display for the wrapper, delegating to the
/// inner value's own rendering.
pub fn display(derive_name: &str, input: &Declaration) -> (r: Result<String, Diagnostic>)
    ensures
        result_matches(r, operation_spec(derive_name@, *input, FragmentKind::Display)),
{
    single_derive(derive_name, input, FragmentKind::Display)
}

} // verus!
