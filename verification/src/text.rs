//! Rendering of plain values as text: decimal digits and zero-padding.

use vstd::prelude::*;

verus! {

/// The view of an optional owned string.
pub open spec fn opt_text(o: Option<String>) -> Option<Seq<char>> {
    match o {
        None => None,
        Some(s) => Some(s@),
    }
}

/// The decimal digit character for a value below ten.
pub open spec fn spec_digit(d: nat) -> char {
    if d == 0 {
        '0'
    } else if d == 1 {
        '1'
    } else if d == 2 {
        '2'
    } else if d == 3 {
        '3'
    } else if d == 4 {
        '4'
    } else if d == 5 {
        '5'
    } else if d == 6 {
        '6'
    } else if d == 7 {
        '7'
    } else if d == 8 {
        '8'
    } else {
        '9'
    }
}

/// The decimal rendering of a natural number, most significant digit first.
pub open spec fn spec_udec(n: nat) -> Seq<char>
    decreases n,
{
    if n < 10 {
        seq![spec_digit(n)]
    } else {
        spec_udec(n / 10).push(spec_digit(n % 10))
    }
}

/// The decimal rendering of an integer: a minus sign before the digits when negative.
pub open spec fn spec_sdec(v: int) -> Seq<char> {
    if v < 0 {
        seq!['-'] + spec_udec((-v) as nat)
    } else {
        spec_udec(v as nat)
    }
}

/// A run of zero characters.
pub open spec fn spec_zeros(k: nat) -> Seq<char> {
    Seq::new(k, |i: int| '0')
}

/// The decimal rendering of a natural number, left-filled with zeros up to `width`.
pub open spec fn spec_padded(n: nat, width: nat) -> Seq<char> {
    if spec_udec(n).len() >= width {
        spec_udec(n)
    } else {
        spec_zeros((width - spec_udec(n).len()) as nat) + spec_udec(n)
    }
}

/// The one-character string for a decimal digit.
fn digit_str(d: u8) -> (s: &'static str)
    requires
        d < 10,
    ensures
        s@ == seq![spec_digit(d as nat)],
{
    let s: &'static str = match d {
        0 => "0",
        1 => "1",
        2 => "2",
        3 => "3",
        4 => "4",
        5 => "5",
        6 => "6",
        7 => "7",
        8 => "8",
        _ => "9",
    };
    proof {
        reveal_strlit("0");
        reveal_strlit("1");
        reveal_strlit("2");
        reveal_strlit("3");
        reveal_strlit("4");
        reveal_strlit("5");
        reveal_strlit("6");
        reveal_strlit("7");
        reveal_strlit("8");
        reveal_strlit("9");
        assert(s@ =~= seq![spec_digit(d as nat)]);
    }
    s
}

/// Appends the decimal rendering of `n` to `out`.
pub fn push_unsigned(out: &mut String, n: u64)
    ensures
        final(out)@ == old(out)@ + spec_udec(n as nat),
    decreases n,
{
    if n >= 10 {
        push_unsigned(out, n / 10);
    }
    out.append(digit_str((n % 10) as u8));
    proof {
        assert(out@ =~= old(out)@ + spec_udec(n as nat));
    }
}

/// Appends the decimal rendering of `v`, minus sign included when negative.
pub fn push_signed(out: &mut String, v: i64)
    requires
        v > i64::MIN,
    ensures
        final(out)@ == old(out)@ + spec_sdec(v as int),
{
    if v < 0 {
        out.append("-");
        push_unsigned(out, (-v) as u64);
        proof {
            reveal_strlit("-");
            assert(out@ =~= old(out)@ + spec_sdec(v as int));
        }
    } else {
        push_unsigned(out, v as u64);
    }
}

/// Appends the decimal rendering of `n`, left-filled with zeros up to `width`.
pub fn push_padded(out: &mut String, n: u64, width: usize)
    ensures
        final(out)@ == old(out)@ + spec_padded(n as nat, width as nat),
{
    let mut digits = String::new();
    push_unsigned(&mut digits, n);
    let mut len: usize = digits.as_str().unicode_len();
    while len < width
        invariant
            len >= spec_udec(n as nat).len(),
            len == spec_udec(n as nat).len() || len <= width,
            out@ == old(out)@ + spec_zeros((len - spec_udec(n as nat).len()) as nat),
        decreases width - len,
    {
        out.append("0");
        len = len + 1;
        proof {
            reveal_strlit("0");
            assert(out@ =~= old(out)@ + spec_zeros((len - spec_udec(n as nat).len()) as nat));
        }
    }
    out.append(digits.as_str());
    proof {
        assert(out@ =~= old(out)@ + spec_padded(n as nat, width as nat));
    }
}

} // verus!
