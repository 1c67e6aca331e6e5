//! The pieces of text that the renderings are made of: shared names, decimal
//! numbers and quoted strings.

use std::sync::Arc;
use vstd::prelude::*;

verus! {

/// The characters of a shared name.
pub open spec fn text(name: &Arc<str>) -> Seq<char> {
    (**name)@
}

/// The characters of a shared name, borrowed from it. This is
/// `Deref::deref` of `Arc<str>`, which hands out the string that the
/// pointer shares.
#[verifier::external_body]
pub(crate) fn name_text(name: &Arc<str>) -> (r: &str)
    ensures
        r@ == text(name),
{
    std::ops::Deref::deref(name)
}

/// One more handle on a shared name. This is `Clone::clone` of `Arc<str>`,
/// which copies the pointer and leaves the string where it is.
#[verifier::external_body]
pub(crate) fn share(name: &Arc<str>) -> (r: Arc<str>)
    ensures
        text(&r) == text(name),
{
    Arc::clone(name)
}

/// Whether two strings hold the same characters. This is `PartialEq::eq` of
/// `str`, which compares the two strings byte by byte.
#[verifier::external_body]
pub(crate) fn same_text(a: &str, b: &str) -> (r: bool)
    ensures
        r == (a@ == b@),
{
    a.eq(b)
}

/// Whether two shared names hold the same characters.
pub fn same_name(a: &Arc<str>, b: &Arc<str>) -> (r: bool)
    ensures
        r == (text(a) == text(b)),
{
    same_text(name_text(a), name_text(b))
}

/// A string as `Debug` shows it: between double quotes, with the escapes of
/// `char::escape_debug` for the characters that need one.
pub uninterp spec fn quoted(text: Seq<char>) -> Seq<char>;

/// The `Debug` form of a string, from `format!` with `{:?}`. The contract
/// gives the result its name and claims nothing else of it.
#[verifier::external_body]
pub(crate) fn quote(s: &str) -> (r: String)
    ensures
        r@ == quoted(s@),
{
    format!("{:?}", s)
}

/// The character of a decimal digit.
pub open spec fn digit(d: nat) -> char {
    if d == 0 {
        '0'
    } else if d == 1 {
        '1'
    } else if d == 2 {
        '2'
    } else if d == 3 {
        '3'
    } else if d == 4 {
        '4'
    } else if d == 5 {
        '5'
    } else if d == 6 {
        '6'
    } else if d == 7 {
        '7'
    } else if d == 8 {
        '8'
    } else {
        '9'
    }
}

/// A natural number in decimal, without leading zeros.
pub open spec fn decimal(n: nat) -> Seq<char>
    decreases n,
{
    if n < 10 {
        seq![digit(n)]
    } else {
        decimal(n / 10).push(digit(n % 10))
    }
}

/// An integer in decimal, with `-` in front of a negative one.
pub open spec fn signed_decimal(i: int) -> Seq<char> {
    if i < 0 {
        seq!['-'] + decimal((-i) as nat)
    } else {
        decimal(i as nat)
    }
}

fn digit_text(d: u64) -> (r: &'static str)
    requires
        d < 10,
    ensures
        r@ == seq![digit(d as nat)],
{
    proof {
        reveal_strlit("0");
        reveal_strlit("1");
        reveal_strlit("2");
        reveal_strlit("3");
        reveal_strlit("4");
        reveal_strlit("5");
        reveal_strlit("6");
        reveal_strlit("7");
        reveal_strlit("8");
        reveal_strlit("9");
    }
    let r = if d == 0 {
        "0"
    } else if d == 1 {
        "1"
    } else if d == 2 {
        "2"
    } else if d == 3 {
        "3"
    } else if d == 4 {
        "4"
    } else if d == 5 {
        "5"
    } else if d == 6 {
        "6"
    } else if d == 7 {
        "7"
    } else if d == 8 {
        "8"
    } else {
        "9"
    };
    assert(r@ =~= seq![digit(d as nat)]);
    r
}

/// Appends `n` in decimal to `out`.
pub fn push_decimal(out: &mut String, n: u64)
    ensures
        final(out)@ == old(out)@ + decimal(n as nat),
    decreases n,
{
    if n >= 10 {
        push_decimal(out, n / 10);
    }
    out.append(digit_text(n % 10));
    assert(out@ =~= old(out)@ + decimal(n as nat));
}

/// Appends `i` in decimal to `out`, with `-` in front of a negative one.
pub fn push_signed_decimal(out: &mut String, i: i64)
    ensures
        final(out)@ == old(out)@ + signed_decimal(i as int),
{
    if i < 0 {
        proof {
            reveal_strlit("-");
        }
        out.append("-");
        let magnitude: u64 = if i == i64::MIN {
            0x8000_0000_0000_0000u64
        } else {
            (-i) as u64
        };
        push_decimal(out, magnitude);
        assert(out@ =~= old(out)@ + signed_decimal(i as int));
    } else {
        push_decimal(out, i as u64);
    }
}

} // verus!
