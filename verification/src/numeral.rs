use vstd::prelude::*;
use vstd::string::StringExecFns;

verus! {

/// The character of one decimal digit.
pub open spec fn dec_digit(d: int) -> char
    recommends
        0 <= d < 10,
{
    if d == 0 {
        '0'
    } else if d == 1 {
        '1'
    } else if d == 2 {
        '2'
    } else if d == 3 {
        '3'
    } else if d == 4 {
        '4'
    } else if d == 5 {
        '5'
    } else if d == 6 {
        '6'
    } else if d == 7 {
        '7'
    } else if d == 8 {
        '8'
    } else {
        '9'
    }
}

/// The decimal rendering of a number, most significant digit first,
/// as the inner type's own decimal formatting produces it.
pub open spec fn dec_chars(n: int) -> Seq<char>
    recommends
        n >= 0,
    decreases n,
{
    if n < 10 {
        seq![dec_digit(n)]
    } else {
        dec_chars(n / 10) + seq![dec_digit(n % 10)]
    }
}

/// The character of one binary digit.
pub open spec fn bin_digit(d: int) -> char
    recommends
        0 <= d < 2,
{
    if d == 0 {
        '0'
    } else {
        '1'
    }
}

/// The binary rendering of a number without a prefix, most significant
/// digit first, as the inner type's own binary formatting produces it.
pub open spec fn bin_chars(n: int) -> Seq<char>
    recommends
        n >= 0,
    decreases n,
{
    if n < 2 {
        seq![bin_digit(n)]
    } else {
        bin_chars(n / 2) + seq![bin_digit(n % 2)]
    }
}

/// The binary rendering of a number; the alternate form carries the
/// `0b` prefix marker.
pub open spec fn bin_text(n: int, alternate: bool) -> Seq<char>
    recommends
        n >= 0,
{
    if alternate {
        "0b"@ + bin_chars(n)
    } else {
        bin_chars(n)
    }
}

fn push_dec_digit(s: &mut String, d: usize)
    requires
        d < 10,
    ensures
        final(s)@ == old(s)@ + seq![dec_digit(d as int)],
{
    proof {
        reveal_strlit("0");
        reveal_strlit("1");
        reveal_strlit("2");
        reveal_strlit("3");
        reveal_strlit("4");
        reveal_strlit("5");
        reveal_strlit("6");
        reveal_strlit("7");
        reveal_strlit("8");
        reveal_strlit("9");
    }
    if d == 0 {
        s.append("0");
    } else if d == 1 {
        s.append("1");
    } else if d == 2 {
        s.append("2");
    } else if d == 3 {
        s.append("3");
    } else if d == 4 {
        s.append("4");
    } else if d == 5 {
        s.append("5");
    } else if d == 6 {
        s.append("6");
    } else if d == 7 {
        s.append("7");
    } else if d == 8 {
        s.append("8");
    } else {
        s.append("9");
    }
}

fn push_decimal(s: &mut String, n: usize)
    ensures
        final(s)@ == old(s)@ + dec_chars(n as int),
    decreases n,
{
    let ghost s0 = s@;
    if n < 10 {
        push_dec_digit(s, n);
    } else {
        push_decimal(s, n / 10);
        push_dec_digit(s, n % 10);
        proof {
            assert(s@ =~= s0 + dec_chars(n as int));
        }
    }
}

/// Renders a number in decimal, exactly as `dec_chars` specifies.
pub fn render_decimal(n: usize) -> (r: String)
    ensures
        r@ == dec_chars(n as int),
{
    let mut s = String::new();
    push_decimal(&mut s, n);
    proof {
        assert(s@ =~= dec_chars(n as int));
    }
    s
}

fn push_bin_digit(s: &mut String, d: usize)
    requires
        d < 2,
    ensures
        final(s)@ == old(s)@ + seq![bin_digit(d as int)],
{
    proof {
        reveal_strlit("0");
        reveal_strlit("1");
    }
    if d == 0 {
        s.append("0");
    } else {
        s.append("1");
    }
}

fn push_binary(s: &mut String, n: usize)
    ensures
        final(s)@ == old(s)@ + bin_chars(n as int),
    decreases n,
{
    let ghost s0 = s@;
    if n < 2 {
        push_bin_digit(s, n);
    } else {
        push_binary(s, n / 2);
        push_bin_digit(s, n % 2);
        proof {
            assert(s@ =~= s0 + bin_chars(n as int));
        }
    }
}

/// Renders a number in binary, with the `0b` prefix marker in the
/// alternate form, exactly as `bin_text` specifies.
pub fn render_binary(n: usize, alternate: bool) -> (r: String)
    ensures
        r@ == bin_text(n as int, alternate),
{
    let mut s = String::new();
    if alternate {
        s.append("0b");
    }
    push_binary(&mut s, n);
    proof {
        assert(s@ =~= bin_text(n as int, alternate));
    }
    s
}

} // verus!
