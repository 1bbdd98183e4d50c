//! Small text helpers: rendering an unsigned number in decimal, and turning a
//! character vector into a `String`.

use vstd::prelude::*;

verus! {

/// The decimal digit character for `d`, meaningful for `0 <= d < 10`.
pub open spec fn dec_digit(d: int) -> char {
    ((48 + d) as u8) as char
}

/// The decimal numeral of `n`, most significant digit first, no leading zeros
/// (a single `'0'` for zero).
pub open spec fn dec_rep(n: nat) -> Seq<char>
    decreases n,
{
    if n < 10 {
        seq![dec_digit(n as int)]
    } else {
        dec_rep(n / 10).push(dec_digit((n % 10) as int))
    }
}

/// Relies on `String`'s `FromIterator<char>` impl: collecting characters
/// yields the string holding exactly those characters in order.
#[verifier::external_body]
pub(crate) fn chars_to_string(v: &Vec<char>) -> (s: String)
    ensures
        s@ == v@,
{
    v.iter().collect()
}

/// The decimal numeral of `n` as a string.
pub fn u32_to_string(n: u32) -> (s: String)
    ensures
        s@ == dec_rep(n as nat),
{
    let mut out: Vec<char> = Vec::new();
    let d0: u8 = (n % 10) as u8 + 48;
    out.insert(0, d0 as char);
    let mut m: u32 = n / 10;
    proof {
        assert(out@ =~= seq![dec_digit((n % 10) as int)]);
        if n >= 10 {
            assert(dec_rep(n as nat) == dec_rep((n / 10) as nat).push(dec_digit((n % 10) as int)));
            assert(dec_rep(n as nat) =~= dec_rep(m as nat) + out@);
        } else {
            assert(dec_rep(n as nat) =~= out@);
        }
    }
    while m > 0
        invariant
            m > 0 ==> dec_rep(n as nat) == dec_rep(m as nat) + out@,
            m == 0 ==> dec_rep(n as nat) == out@,
        decreases m,
    {
        let ghost prev_out: Seq<char> = out@;
        let ghost prev: u32 = m;
        let d: u8 = (m % 10) as u8 + 48;
        out.insert(0, d as char);
        m = m / 10;
        proof {
            assert(out@ =~= seq![dec_digit((prev % 10) as int)] + prev_out);
            if prev >= 10 {
                assert(dec_rep(prev as nat) == dec_rep((prev / 10) as nat).push(
                    dec_digit((prev % 10) as int),
                ));
                assert(dec_rep(n as nat) =~= dec_rep(m as nat) + out@);
            } else {
                assert(dec_rep(prev as nat) =~= seq![dec_digit((prev % 10) as int)]);
                assert(dec_rep(n as nat) =~= out@);
            }
        }
    }
    chars_to_string(&out)
}

} // verus!
