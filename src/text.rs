//! Text pieces of the output: indentation and decimal numerals.

use vstd::prelude::*;
use vstd::string::*;

verus! {

/// The text of one level of indentation: four spaces.
pub open spec fn indent_unit() -> Seq<char> {
    seq![' ', ' ', ' ', ' ']
}

/// The indentation prefix of a line at nesting depth `d`.
pub open spec fn indent_of(d: nat) -> Seq<char>
    decreases d,
{
    if d == 0 {
        Seq::empty()
    } else {
        indent_of((d - 1) as nat) + indent_unit()
    }
}

/// Relies on aleph_syntax_tree::comp_indent, which appends four spaces once
/// for each level of `depth`.
#[verifier::external_body]
pub(crate) fn comp_indent(depth: i64) -> (r: String)
    requires
        0 <= depth,
    ensures
        r@ == indent_of(depth as nat),
{
    aleph_syntax_tree::comp_indent(depth)
}


/// The ten decimal digits, in order of their value.
pub open spec fn digits() -> Seq<char> {
    "0123456789"@
}

/// The one-character text of the digit of value `d`.
pub open spec fn digit(d: nat) -> Seq<char> {
    digits().subrange(d as int, d as int + 1)
}

/// The decimal numeral of `n`, most significant digit first, without
/// leading zeros.
pub open spec fn decimal(n: nat) -> Seq<char>
    decreases n,
{
    if n < 10 {
        digit(n)
    } else {
        decimal(n / 10) + digit(n % 10)
    }
}

/// Appends the digit of value `d` to `s`.
fn push_digit(s: &mut String, d: u8)
    requires
        d < 10,
    ensures
        final(s)@ == old(s)@ + digit(d as nat),
{
    proof {
        reveal_strlit("0123456789");
    }
    let all: &str = "0123456789";
    let one = all.substring_char(d as usize, (d + 1) as usize);
    s.append(one);
}

/// Appends the decimal numeral of `b` to `s`.
pub fn push_decimal(s: &mut String, b: u8)
    ensures
        final(s)@ == old(s)@ + decimal(b as nat),
{
    let ghost s0 = s@;
    let ghost n = b as nat;
    if b >= 100 {
        push_digit(s, b / 100);
        push_digit(s, (b / 10) % 10);
        push_digit(s, b % 10);
        assert(n / 10 / 10 == n / 100);
        assert(decimal(n / 100) == digit(n / 100));
        assert(decimal(n / 10) == decimal(n / 100) + digit((n / 10) % 10));
        assert(decimal(n) == decimal(n / 10) + digit(n % 10));
        assert(s@ == s0 + digit(n / 100) + digit((n / 10) % 10) + digit(n % 10));
    } else if b >= 10 {
        push_digit(s, b / 10);
        push_digit(s, b % 10);
        assert(decimal(n / 10) == digit(n / 10));
        assert(decimal(n) == decimal(n / 10) + digit(n % 10));
        assert(s@ == s0 + digit(n / 10) + digit(n % 10));
    } else {
        push_digit(s, b);
        assert(decimal(n) == digit(n));
    }
    assert(s@ == s0 + decimal(n));
}

} // verus!
