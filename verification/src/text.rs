//! Small verified text-assembly helpers: decimal rendering of port
//! numbers, suffix tests, and appending a computed character to a
//! `String`.

use vstd::prelude::*;

verus! {

/// The decimal digit character for a value below ten.
pub open spec fn digit_char(d: int) -> char
    recommends
        0 <= d < 10,
{
    (48 + d) as char
}

/// The decimal rendering of a non-negative integer, most significant
/// digit first, with no leading zeros (a lone zero for zero).
pub open spec fn spec_dec(n: int) -> Seq<char>
    recommends
        n >= 0,
    decreases n,
{
    if n < 10 {
        seq![digit_char(n)]
    } else {
        spec_dec(n / 10) + seq![digit_char(n % 10)]
    }
}

/// `s` ends with `suffix`.
pub open spec fn spec_ends_with(s: Seq<char>, suffix: Seq<char>) -> bool {
    s.len() >= suffix.len() && s.skip(s.len() - suffix.len()) == suffix
}

/// Relies on `String::push`: appends exactly the given character.
#[verifier::external_body]
pub fn push_char(s: &mut String, c: char)
    ensures
        final(s)@ == old(s)@ + seq![c],
{
    s.push(c)
}

/// Appends the decimal rendering of `n` to `s`.
pub fn push_dec_u16(s: &mut String, n: u16)
    ensures
        final(s)@ == old(s)@ + spec_dec(n as int),
    decreases n,
{
    if n < 10 {
        let d: u8 = (n as u8) + 48;
        push_char(s, d as char);
        assert(d as char == digit_char(n as int));
    } else {
        push_dec_u16(s, n / 10);
        let d: u8 = ((n % 10) as u8) + 48;
        push_char(s, d as char);
        assert(d as char == digit_char((n as int) % 10));
        assert(s@ =~= old(s)@ + spec_dec(n as int));
    }
}

/// Copies a string.
pub fn copy_string(s: &String) -> (r: String)
    ensures
        r@ == s@,
{
    let mut r = String::new();
    r.append(s.as_str());
    proof {
        assert(r@ =~= s@);
    }
    r
}

/// The decimal rendering of a port number as a fresh `String`.
pub fn dec_u16(n: u16) -> (r: String)
    ensures
        r@ == spec_dec(n as int),
{
    let mut s = String::new();
    push_dec_u16(&mut s, n);
    proof {
        assert(s@ =~= spec_dec(n as int));
    }
    s
}

} // verus!
