//! Character-level text utilities shared by the URL builders, the link-header
//! parser and the log line decoder.

use vstd::prelude::*;
use vstd::string::*;

verus! {

/// Relies on std's `String::push`: appends exactly the one character.
#[verifier::external_body]
pub(crate) fn push_char(s: &mut String, c: char)
    ensures
        final(s)@ == old(s)@.push(c),
{
    s.push(c);
}

/// The characters of `s`, as a vector.
pub fn chars_of(s: &str) -> (r: Vec<char>)
    ensures
        r@ == s@,
{
    let len = s.unicode_len();
    let mut r: Vec<char> = Vec::new();
    let mut i: usize = 0;
    while i < len
        invariant
            i <= len,
            len == s@.len(),
            r@ == s@.take(i as int),
        decreases len - i,
    {
        r.push(s.get_char(i));
        i = i + 1;
        assert(r@ =~= s@.take(i as int));
    }
    assert(r@ =~= s@);
    r
}

/// The string holding exactly the characters of `cs`.
pub fn string_of_chars(cs: &[char]) -> (r: String)
    ensures
        r@ == cs@,
{
    let mut r = String::new();
    let mut i: usize = 0;
    while i < cs.len()
        invariant
            i <= cs@.len(),
            r@ == cs@.take(i as int),
        decreases cs@.len() - i,
    {
        push_char(&mut r, cs[i]);
        i = i + 1;
        assert(r@ =~= cs@.take(i as int));
    }
    assert(r@ =~= cs@);
    r
}

/// The decimal digit character for a value below ten.
pub open spec fn dec_char(d: nat) -> char
    recommends
        d < 10,
{
    ((d + 48) as u8) as char
}

/// The decimal numeral of `n`, as characters, without a sign and without
/// leading zeros (the numeral of zero is the single digit zero).
pub open spec fn dec_digits(n: nat) -> Seq<char>
    decreases n,
{
    if n < 10 {
        seq![dec_char(n)]
    } else {
        dec_digits(n / 10).push(dec_char(n % 10))
    }
}

/// Renders `n` as its decimal numeral.
pub fn u64_to_string(n: u64) -> (r: String)
    ensures
        r@ == dec_digits(n as nat),
{
    let mut rev: Vec<char> = Vec::new();
    let mut m: u64 = n;
    proof {
        assert(dec_digits(n as nat) =~= dec_digits(n as nat) + rev@.reverse());
    }
    while m >= 10
        invariant
            dec_digits(n as nat) == dec_digits(m as nat) + rev@.reverse(),
        decreases m,
    {
        let d: u64 = m % 10;
        let ghost prev_m = m as nat;
        let ghost prev_rev = rev@;
        rev.push(((d + 48) as u8) as char);
        m = m / 10;
        proof {
            assert(rev@.reverse() =~= seq![dec_char(prev_m % 10)] + prev_rev.reverse());
            assert(dec_digits(prev_m) == dec_digits(prev_m / 10).push(dec_char(prev_m % 10)));
            assert(dec_digits(m as nat) + rev@.reverse() =~= dec_digits(prev_m)
                + prev_rev.reverse());
        }
    }
    let ghost last_rev = rev@;
    rev.push(((m + 48) as u8) as char);
    proof {
        assert(rev@.reverse() =~= seq![dec_char(m as nat)] + last_rev.reverse());
        assert(dec_digits(m as nat) == seq![dec_char(m as nat)]);
        assert(rev@.reverse() =~= dec_digits(n as nat));
    }
    let mut r = String::new();
    let mut i: usize = rev.len();
    while i > 0
        invariant
            i <= rev@.len(),
            r@ == rev@.reverse().take(rev@.len() - i),
        decreases i,
    {
        i = i - 1;
        push_char(&mut r, rev[i]);
        assert(r@ =~= rev@.reverse().take(rev@.len() - i));
    }
    assert(r@ =~= rev@.reverse());
    r
}

} // verus!
