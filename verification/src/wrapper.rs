use vstd::prelude::*;

use crate::numeral::{bin_chars, bin_text, dec_chars, render_binary, render_decimal};

verus! {

/// The runtime meaning of the generated implementations, for a wrapper
/// over `usize`: each method below behaves exactly as the corresponding
/// generated implementation does on the wrapped value.
#[derive(Clone, Copy, Debug, PartialEq, Eq, Structural)]
pub struct Wrapper(pub usize);

/// Conversion in: wrapping an inner value.
pub open spec fn wrap(inner: usize) -> Wrapper {
    Wrapper(inner)
}

/// Conversion out: the inner value of a wrapper.
pub open spec fn inner_of(w: Wrapper) -> usize {
    w.0
}

/// The four arithmetic families the directives generate.
#[derive(Clone, Copy, Debug)]
pub enum OpKind {
    /// Addition.
    Add,
    /// Subtraction.
    Sub,
    /// Multiplication.
    Mul,
    /// Division.
    Div,
}

/// Whether the inner type's own operation is defined on these operands:
/// no overflow, no underflow, no division by zero.
pub open spec fn op_allowed(op: OpKind, a: usize, b: usize) -> bool {
    match op {
        OpKind::Add => a + b <= usize::MAX,
        OpKind::Sub => b <= a,
        OpKind::Mul => a * b <= usize::MAX,
        OpKind::Div => b != 0,
    }
}

/// The inner type's own arithmetic on plain values.
pub open spec fn op_value(op: OpKind, a: usize, b: usize) -> usize
    recommends
        op_allowed(op, a, b),
{
    match op {
        OpKind::Add => (a + b) as usize,
        OpKind::Sub => (a - b) as usize,
        OpKind::Mul => (a * b) as usize,
        OpKind::Div => ((a as int) / (b as int)) as usize,
    }
}

/// What the generated value-returning operator between two wrappers yields.
pub open spec fn op_self(op: OpKind, a: Wrapper, b: Wrapper) -> Wrapper {
    wrap(op_value(op, a.0, b.0))
}

/// What the generated value-returning operator against a raw inner value yields.
pub open spec fn op_inner(op: OpKind, a: Wrapper, b: usize) -> Wrapper {
    wrap(op_value(op, a.0, b))
}

/// The wrapper's value after the generated mutating operator against
/// another wrapper.
pub open spec fn op_assign_self(op: OpKind, a: Wrapper, b: Wrapper) -> Wrapper {
    Wrapper(op_value(op, a.0, b.0))
}

/// The wrapper's value after the generated mutating operator against a
/// raw inner value.
pub open spec fn op_assign_inner(op: OpKind, a: Wrapper, b: usize) -> Wrapper {
    Wrapper(op_value(op, a.0, b))
}

/// What the generated decimal display renders.
pub open spec fn display_of(w: Wrapper) -> Seq<char> {
    dec_chars(w.0 as int)
}

/// What the generated binary display renders, with or without the prefix.
pub open spec fn binary_of(w: Wrapper, alternate: bool) -> Seq<char> {
    bin_text(w.0 as int, alternate)
}

impl Wrapper {
    /// As generated for `From<Inner>`: constructs the wrapper from its inner value.
    pub fn from_inner(inner: usize) -> (r: Wrapper)
        ensures
            r == wrap(inner),
    {
        Wrapper(inner)
    }

    /// As generated for `From<Wrapper>` on the inner type: yields the inner value.
    pub fn into_inner(self) -> (r: usize)
        ensures
            r == inner_of(self),
    {
        self.0
    }

    /// As generated for `Add<Wrapper>`.
    pub fn add_self(self, rhs: Wrapper) -> (r: Wrapper)
        requires
            op_allowed(OpKind::Add, self.0, rhs.0),
        ensures
            r == op_self(OpKind::Add, self, rhs),
            r.0 == self.0 + rhs.0,
    {
        Wrapper(self.0 + rhs.0)
    }

    /// As generated for `Add<Inner>`.
    pub fn add_inner(self, rhs: usize) -> (r: Wrapper)
        requires
            op_allowed(OpKind::Add, self.0, rhs),
        ensures
            r == op_inner(OpKind::Add, self, rhs),
            r.0 == self.0 + rhs,
    {
        Wrapper(self.0 + rhs)
    }

    /// As generated for `AddAssign<Wrapper>`.
    pub fn add_assign_self(&mut self, rhs: Wrapper)
        requires
            op_allowed(OpKind::Add, old(self).0, rhs.0),
        ensures
            *final(self) == op_assign_self(OpKind::Add, *old(self), rhs),
    {
        self.0 = self.0 + rhs.0;
    }

    /// As generated for `AddAssign<Inner>`.
    pub fn add_assign_inner(&mut self, rhs: usize)
        requires
            op_allowed(OpKind::Add, old(self).0, rhs),
        ensures
            *final(self) == op_assign_inner(OpKind::Add, *old(self), rhs),
    {
        self.0 = self.0 + rhs;
    }

    /// As generated for `Sub<Wrapper>`.
    pub fn sub_self(self, rhs: Wrapper) -> (r: Wrapper)
        requires
            op_allowed(OpKind::Sub, self.0, rhs.0),
        ensures
            r == op_self(OpKind::Sub, self, rhs),
            r.0 == self.0 - rhs.0,
    {
        Wrapper(self.0 - rhs.0)
    }

    /// As generated for `Sub<Inner>`.
    pub fn sub_inner(self, rhs: usize) -> (r: Wrapper)
        requires
            op_allowed(OpKind::Sub, self.0, rhs),
        ensures
            r == op_inner(OpKind::Sub, self, rhs),
            r.0 == self.0 - rhs,
    {
        Wrapper(self.0 - rhs)
    }

    /// As generated for `SubAssign<Wrapper>`.
    pub fn sub_assign_self(&mut self, rhs: Wrapper)
        requires
            op_allowed(OpKind::Sub, old(self).0, rhs.0),
        ensures
            *final(self) == op_assign_self(OpKind::Sub, *old(self), rhs),
    {
        self.0 = self.0 - rhs.0;
    }

    /// As generated for `SubAssign<Inner>`.
    pub fn sub_assign_inner(&mut self, rhs: usize)
        requires
            op_allowed(OpKind::Sub, old(self).0, rhs),
        ensures
            *final(self) == op_assign_inner(OpKind::Sub, *old(self), rhs),
    {
        self.0 = self.0 - rhs;
    }

    /// As generated for `Mul<Wrapper>`.
    pub fn mul_self(self, rhs: Wrapper) -> (r: Wrapper)
        requires
            op_allowed(OpKind::Mul, self.0, rhs.0),
        ensures
            r == op_self(OpKind::Mul, self, rhs),
            r.0 == self.0 * rhs.0,
    {
        Wrapper(self.0 * rhs.0)
    }

    /// As generated for `Mul<Inner>`.
    pub fn mul_inner(self, rhs: usize) -> (r: Wrapper)
        requires
            op_allowed(OpKind::Mul, self.0, rhs),
        ensures
            r == op_inner(OpKind::Mul, self, rhs),
            r.0 == self.0 * rhs,
    {
        Wrapper(self.0 * rhs)
    }

    /// As generated for `MulAssign<Wrapper>`.
    pub fn mul_assign_self(&mut self, rhs: Wrapper)
        requires
            op_allowed(OpKind::Mul, old(self).0, rhs.0),
        ensures
            *final(self) == op_assign_self(OpKind::Mul, *old(self), rhs),
    {
        self.0 = self.0 * rhs.0;
    }

    /// As generated for `MulAssign<Inner>`.
    pub fn mul_assign_inner(&mut self, rhs: usize)
        requires
            op_allowed(OpKind::Mul, old(self).0, rhs),
        ensures
            *final(self) == op_assign_inner(OpKind::Mul, *old(self), rhs),
    {
        self.0 = self.0 * rhs;
    }

    /// As generated for `Div<Wrapper>`.
    pub fn div_self(self, rhs: Wrapper) -> (r: Wrapper)
        requires
            op_allowed(OpKind::Div, self.0, rhs.0),
        ensures
            r == op_self(OpKind::Div, self, rhs),
            r.0 == self.0 as int / rhs.0 as int,
    {
        Wrapper(self.0 / rhs.0)
    }

    /// As generated for `Div<Inner>`.
    pub fn div_inner(self, rhs: usize) -> (r: Wrapper)
        requires
            op_allowed(OpKind::Div, self.0, rhs),
        ensures
            r == op_inner(OpKind::Div, self, rhs),
            r.0 == self.0 as int / rhs as int,
    {
        Wrapper(self.0 / rhs)
    }

    /// As generated for `DivAssign<Wrapper>`.
    pub fn div_assign_self(&mut self, rhs: Wrapper)
        requires
            op_allowed(OpKind::Div, old(self).0, rhs.0),
        ensures
            *final(self) == op_assign_self(OpKind::Div, *old(self), rhs),
    {
        self.0 = self.0 / rhs.0;
    }

    /// As generated for `DivAssign<Inner>`.
    pub fn div_assign_inner(&mut self, rhs: usize)
        requires
            op_allowed(OpKind::Div, old(self).0, rhs),
        ensures
            *final(self) == op_assign_inner(OpKind::Div, *old(self), rhs),
    {
        self.0 = self.0 / rhs;
    }

    /// As generated for `Display`: the decimal rendering of the inner value.
    pub fn display(&self) -> (r: String)
        ensures
            r@ == display_of(*self),
    {
        render_decimal(self.0)
    }

    /// As generated for `Binary`: the binary rendering of the inner value,
    /// with the `0b` prefix marker in the alternate form.
    pub fn binary(&self, alternate: bool) -> (r: String)
        ensures
            r@ == binary_of(*self, alternate),
    {
        render_binary(self.0, alternate)
    }
}

/// Converting an inner value in and then out returns the original value.
pub proof fn lemma_conversion_round_trip(inner: usize)
    ensures
        inner_of(wrap(inner)) == inner,
{
}

/// Arithmetic on wrappers agrees with the inner type's own arithmetic:
/// combining two wrapped values — or a wrapped value with a raw inner
/// value — wraps the combination of the inner values.
pub proof fn lemma_arithmetic_matches_inner(op: OpKind, a: usize, b: usize)
    requires
        op_allowed(op, a, b),
    ensures
        op_self(op, wrap(a), wrap(b)) == wrap(op_value(op, a, b)),
        op_inner(op, wrap(a), b) == wrap(op_value(op, a, b)),
{
}

/// A mutating operator leaves the wrapper exactly where the value-returning
/// operator, applied and then reassigned, would put it.
pub proof fn lemma_mutation_matches_value(op: OpKind, a: Wrapper, b: Wrapper)
    ensures
        op_assign_self(op, a, b) == op_self(op, a, b),
        op_assign_inner(op, a, b.0) == op_inner(op, a, b.0),
{
}

/// The wrapper displays exactly as its inner value does: decimal display
/// is the inner value's decimal rendering, binary display is the inner
/// value's binary rendering, and the alternate binary form is the plain
/// form behind the `0b` prefix marker.
pub proof fn lemma_display_matches_inner(w: Wrapper)
    ensures
        display_of(w) == dec_chars(w.0 as int),
        binary_of(w, false) == bin_chars(w.0 as int),
        binary_of(w, true) == "0b"@ + binary_of(w, false),
{
}

} // verus!
