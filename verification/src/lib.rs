//! Code generation for single-field wrapper ("newtype") declarations.
//!
//! A consumer applies a named directive to a declaration; the library
//! validates the declaration's shape (a struct with exactly one unnamed
//! field) and produces the source text of the trait implementations that
//! the directive asks for: conversions to and from the inner type,
//! arithmetic between wrappers and against the inner type (value and
//! mutating forms), and decimal and binary display. Invalid shapes yield
//! a diagnostic instead of a fragment.
//!
//! The declaration itself is held as plain data ([`decl::Declaration`]);
//! parsing a token stream into that form, and splicing the produced
//! source text back into a compilation unit, are the caller's concern.
//!
//! The runtime meaning of the generated implementations is modelled and
//! proved in [`wrapper`], and the number rendering their display delegates
//! to is specified in [`numeral`].

use vstd::prelude::*;
use vstd::string::StringExecFns;

pub mod decl;
pub mod numeral;
pub mod operation;
pub mod wrapper;

use crate::decl::{Declaration, Diagnostic};
use crate::operation::{kind_output, operation_spec, result_matches, shape_message, FragmentKind};

verus! {

/// The source text the two-way conversion directive produces for a tuple
/// struct: conversion in, then conversion out.
pub open spec fn convert_text(name: Seq<char>, tys: Seq<Seq<char>>) -> Seq<char> {
    kind_output(FragmentKind::FromInner, name, tys)
        + kind_output(FragmentKind::IntoInner, name, tys)
}

/// What the two-way conversion directive returns for a declaration.
pub open spec fn convert_spec(d: Declaration) -> Result<Seq<char>, Seq<char>> {
    if d.generates() {
        Ok(convert_text(d.name@, d.field_types()))
    } else {
        Err(shape_message("Convert"@, d))
    }
}

/// The source text the all-in-one directive produces for a tuple struct:
/// both conversions, all arithmetic families, then display.
pub open spec fn bundle_text(name: Seq<char>, tys: Seq<Seq<char>>) -> Seq<char> {
    kind_output(FragmentKind::FromInner, name, tys)
        + kind_output(FragmentKind::IntoInner, name, tys)
        + kind_output(FragmentKind::AddSelf, name, tys)
        + kind_output(FragmentKind::AddInner, name, tys)
        + kind_output(FragmentKind::AddAssignSelf, name, tys)
        + kind_output(FragmentKind::AddAssignInner, name, tys)
        + kind_output(FragmentKind::SubSelf, name, tys)
        + kind_output(FragmentKind::SubInner, name, tys)
        + kind_output(FragmentKind::SubAssignSelf, name, tys)
        + kind_output(FragmentKind::SubAssignInner, name, tys)
        + kind_output(FragmentKind::MulSelf, name, tys)
        + kind_output(FragmentKind::MulInner, name, tys)
        + kind_output(FragmentKind::MulAssignSelf, name, tys)
        + kind_output(FragmentKind::MulAssignInner, name, tys)
        + kind_output(FragmentKind::DivSelf, name, tys)
        + kind_output(FragmentKind::DivInner, name, tys)
        + kind_output(FragmentKind::DivAssignSelf, name, tys)
        + kind_output(FragmentKind::DivAssignInner, name, tys)
        + kind_output(FragmentKind::Display, name, tys)
}

/// What the all-in-one directive returns for a declaration.
pub open spec fn id_spec(d: Declaration) -> Result<Seq<char>, Seq<char>> {
    if d.generates() {
        Ok(bundle_text(d.name@, d.field_types()))
    } else {
        Err(shape_message("Id"@, d))
    }
}

/// Directive `Display`: decimal and binary display for the wrapper.
pub fn display(input: &Declaration) -> (r: Result<String, Diagnostic>)
    ensures
        result_matches(r, operation_spec("Display"@, *input, FragmentKind::Display)),
{
    operation::display("Display", input)
}

/// Directive `Add`: addition between two wrapper values.
pub fn add_self(input: &Declaration) -> (r: Result<String, Diagnostic>)
    ensures
        result_matches(r, operation_spec("Add"@, *input, FragmentKind::AddSelf)),
{
    operation::add_self("Add", input)
}

/// Directive `AddInner`: addition of a raw inner value to a wrapper.
pub fn add_inner(input: &Declaration) -> (r: Result<String, Diagnostic>)
    ensures
        result_matches(r, operation_spec("AddInner"@, *input, FragmentKind::AddInner)),
{
    operation::add_inner("AddInner", input)
}

/// Directive `AddAssign`: in-place addition of another wrapper value.
pub fn add_assign_self(input: &Declaration) -> (r: Result<String, Diagnostic>)
    ensures
        result_matches(r, operation_spec("Add"@, *input, FragmentKind::AddAssignSelf)),
{
    operation::add_assign_self("Add", input)
}

/// Directive `AddAssignInner`: in-place addition of a raw inner value.
pub fn add_assign_inner(input: &Declaration) -> (r: Result<String, Diagnostic>)
    ensures
        result_matches(r, operation_spec("AddInner"@, *input, FragmentKind::AddAssignInner)),
{
    operation::add_assign_inner("AddInner", input)
}

/// Directive `Sub`: subtraction between two wrapper values.
pub fn sub_self(input: &Declaration) -> (r: Result<String, Diagnostic>)
    ensures
        result_matches(r, operation_spec("Sub"@, *input, FragmentKind::SubSelf)),
{
    operation::sub_self("Sub", input)
}

/// Directive `SubInner`: subtraction of a raw inner value from a wrapper.
pub fn sub_inner(input: &Declaration) -> (r: Result<String, Diagnostic>)
    ensures
        result_matches(r, operation_spec("SubInner"@, *input, FragmentKind::SubInner)),
{
    operation::sub_inner("SubInner", input)
}

/// Directive `SubAssign`: in-place subtraction of another wrapper value.
pub fn sub_assign_self(input: &Declaration) -> (r: Result<String, Diagnostic>)
    ensures
        result_matches(r, operation_spec("Sub"@, *input, FragmentKind::SubAssignSelf)),
{
    operation::sub_assign_self("Sub", input)
}

/// Directive `SubAssignInner`: in-place subtraction of a raw inner value.
pub fn sub_assign_inner(input: &Declaration) -> (r: Result<String, Diagnostic>)
    ensures
        result_matches(r, operation_spec("SubInner"@, *input, FragmentKind::SubAssignInner)),
{
    operation::sub_assign_inner("SubInner", input)
}

/// Directive `Mul`: multiplication between two wrapper values.
pub fn mul_self(input: &Declaration) -> (r: Result<String, Diagnostic>)
    ensures
        result_matches(r, operation_spec("Mul"@, *input, FragmentKind::MulSelf)),
{
    operation::mul_self("Mul", input)
}

/// Directive `MulInner`: multiplication of a wrapper by a raw inner value.
pub fn mul_inner(input: &Declaration) -> (r: Result<String, Diagnostic>)
    ensures
        result_matches(r, operation_spec("MulInner"@, *input, FragmentKind::MulInner)),
{
    operation::mul_inner("MulInner", input)
}

/// Directive `MulAssign`: in-place multiplication by another wrapper value.
pub fn mul_assign_self(input: &Declaration) -> (r: Result<String, Diagnostic>)
    ensures
        result_matches(r, operation_spec("MulAssign"@, *input, FragmentKind::MulAssignSelf)),
{
    operation::mul_assign_self("MulAssign", input)
}

/// Directive `MulAssignInner`: in-place multiplication by a raw inner value.
pub fn mul_assign_inner(input: &Declaration) -> (r: Result<String, Diagnostic>)
    ensures
        result_matches(
            r,
            operation_spec("MulAssignInner"@, *input, FragmentKind::MulAssignInner),
        ),
{
    operation::mul_assign_inner("MulAssignInner", input)
}

/// Directive `Div`: division between two wrapper values.
pub fn div_self(input: &Declaration) -> (r: Result<String, Diagnostic>)
    ensures
        result_matches(r, operation_spec("Div"@, *input, FragmentKind::DivSelf)),
{
    operation::div_self("Div", input)
}

/// Directive `DivInner`: division of a wrapper by a raw inner value.
pub fn div_inner(input: &Declaration) -> (r: Result<String, Diagnostic>)
    ensures
        result_matches(r, operation_spec("DivInner"@, *input, FragmentKind::DivInner)),
{
    operation::div_inner("DivInner", input)
}

/// Directive `DivAssign`: in-place division by another wrapper value.
pub fn div_assign_self(input: &Declaration) -> (r: Result<String, Diagnostic>)
    ensures
        result_matches(r, operation_spec("DivAssign"@, *input, FragmentKind::DivAssignSelf)),
{
    operation::div_assign_self("DivAssign", input)
}

/// Directive `DivAssignInner`: in-place division by a raw inner value.
pub fn div_assign_inner(input: &Declaration) -> (r: Result<String, Diagnostic>)
    ensures
        result_matches(
            r,
            operation_spec("DivAssignInner"@, *input, FragmentKind::DivAssignInner),
        ),
{
    operation::div_assign_inner("DivAssignInner", input)
}

/// Directive `FromInner`: conversion into the wrapper from its inner type.
pub fn from_inner(input: &Declaration) -> (r: Result<String, Diagnostic>)
    ensures
        result_matches(r, operation_spec("FromInner"@, *input, FragmentKind::FromInner)),
{
    operation::from_inner("FromInner", input)
}

/// Directive `IntoInner`: conversion out of the wrapper to its inner type.
pub fn into_inner(input: &Declaration) -> (r: Result<String, Diagnostic>)
    ensures
        result_matches(r, operation_spec("IntoInner"@, *input, FragmentKind::IntoInner)),
{
    operation::into_inner("IntoInner", input)
}

/// Directive `Convert`: both conversions at once.
pub fn convert(input: &Declaration) -> (r: Result<String, Diagnostic>)
    ensures
        result_matches(r, convert_spec(*input)),
{
    let from = operation::from_inner("Convert", input);
    let into = operation::into_inner("Convert", input);
    match from {
        Ok(mut text) => match into {
            Ok(text2) => {
                text.append(text2.as_str());
                Ok(text)
            },
            Err(diag) => Err(diag),
        },
        Err(diag) => Err(diag),
    }
}

/// Directive `Id`: every fragment family at once — both conversions, the
/// four arithmetic families in value and mutating, self and inner forms,
/// and display.
pub fn id(input: &Declaration) -> (r: Result<String, Diagnostic>)
    ensures
        result_matches(r, id_spec(*input)),
{
    let mut out = String::new();
    match operation::from_inner("Id", input) {
        Ok(t) => out.append(t.as_str()),
        Err(diag) => {
            return Err(diag);
        },
    }
    match operation::into_inner("Id", input) {
        Ok(t) => out.append(t.as_str()),
        Err(diag) => {
            return Err(diag);
        },
    }
    match operation::add_self("Id", input) {
        Ok(t) => out.append(t.as_str()),
        Err(diag) => {
            return Err(diag);
        },
    }
    match operation::add_inner("Id", input) {
        Ok(t) => out.append(t.as_str()),
        Err(diag) => {
            return Err(diag);
        },
    }
    match operation::add_assign_self("Id", input) {
        Ok(t) => out.append(t.as_str()),
        Err(diag) => {
            return Err(diag);
        },
    }
    match operation::add_assign_inner("Id", input) {
        Ok(t) => out.append(t.as_str()),
        Err(diag) => {
            return Err(diag);
        },
    }
    match operation::sub_self("Id", input) {
        Ok(t) => out.append(t.as_str()),
        Err(diag) => {
            return Err(diag);
        },
    }
    match operation::sub_inner("Id", input) {
        Ok(t) => out.append(t.as_str()),
        Err(diag) => {
            return Err(diag);
        },
    }
    match operation::sub_assign_self("Id", input) {
        Ok(t) => out.append(t.as_str()),
        Err(diag) => {
            return Err(diag);
        },
    }
    match operation::sub_assign_inner("Id", input) {
        Ok(t) => out.append(t.as_str()),
        Err(diag) => {
            return Err(diag);
        },
    }
    match operation::mul_self("Id", input) {
        Ok(t) => out.append(t.as_str()),
        Err(diag) => {
            return Err(diag);
        },
    }
    match operation::mul_inner("Id", input) {
        Ok(t) => out.append(t.as_str()),
        Err(diag) => {
            return Err(diag);
        },
    }
    match operation::mul_assign_self("Id", input) {
        Ok(t) => out.append(t.as_str()),
        Err(diag) => {
            return Err(diag);
        },
    }
    match operation::mul_assign_inner("Id", input) {
        Ok(t) => out.append(t.as_str()),
        Err(diag) => {
            return Err(diag);
        },
    }
    match operation::div_self("Id", input) {
        Ok(t) => out.append(t.as_str()),
        Err(diag) => {
            return Err(diag);
        },
    }
    match operation::div_inner("Id", input) {
        Ok(t) => out.append(t.as_str()),
        Err(diag) => {
            return Err(diag);
        },
    }
    match operation::div_assign_self("Id", input) {
        Ok(t) => out.append(t.as_str()),
        Err(diag) => {
            return Err(diag);
        },
    }
    match operation::div_assign_inner("Id", input) {
        Ok(t) => out.append(t.as_str()),
        Err(diag) => {
            return Err(diag);
        },
    }
    match operation::display("Id", input) {
        Ok(t) => out.append(t.as_str()),
        Err(diag) => {
            return Err(diag);
        },
    }
    proof {
        assert(out@ =~= bundle_text(input.name@, input.field_types()));
    }
    Ok(out)
}

} // verus!
