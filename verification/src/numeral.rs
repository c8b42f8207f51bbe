//! Decimal numerals: amounts cross the quote service's interface as strings.

use vstd::prelude::*;
use vstd::string::StrSliceExecFns;
use vstd::string::StringExecFns;
use crate::types::ArbError;

verus! {

pub open spec fn is_dec_digit(c: char) -> bool {
    '0' <= c && c <= '9'
}

pub open spec fn dec_digit_val(c: char) -> nat {
    (c as nat - '0' as nat) as nat
}

/// A non-empty string of decimal digits.
pub open spec fn is_numeral(s: Seq<char>) -> bool {
    s.len() > 0 && forall|i: int| 0 <= i < s.len() ==> is_dec_digit(#[trigger] s[i])
}

/// The value a digit string denotes, most significant digit first.
pub open spec fn numeral_value(s: Seq<char>) -> nat
    decreases s.len(),
{
    if s.len() == 0 {
        0
    } else {
        numeral_value(s.drop_last()) * 10 + dec_digit_val(s.last())
    }
}

pub open spec fn dec_digit_char(d: nat) -> char {
    if d == 0 {
        '0'
    } else if d == 1 {
        '1'
    } else if d == 2 {
        '2'
    } else if d == 3 {
        '3'
    } else if d == 4 {
        '4'
    } else if d == 5 {
        '5'
    } else if d == 6 {
        '6'
    } else if d == 7 {
        '7'
    } else if d == 8 {
        '8'
    } else {
        '9'
    }
}

/// The canonical decimal numeral of a number: no leading zeros except for 0 itself.
pub open spec fn dec_numeral(n: nat) -> Seq<char>
    decreases n,
{
    if n < 10 {
        seq![dec_digit_char(n)]
    } else {
        dec_numeral(n / 10).push(dec_digit_char(n % 10))
    }
}

/// Parses a decimal numeral into a `u64`.
///
/// Succeeds exactly on non-empty all-digit strings whose value fits in a
/// `u64`; anything else is the quote service handing back an unusable amount.
pub fn parse_amount(s: &str) -> (r: Result<u64, ArbError>)
    ensures
        r is Ok <==> is_numeral(s@) && numeral_value(s@) <= u64::MAX,
        r is Ok ==> r.unwrap() == numeral_value(s@),
        r is Err ==> r.unwrap_err() == ArbError::QuoteServiceError,
{
    let n = s.unicode_len();
    if n == 0 {
        return Err(ArbError::QuoteServiceError);
    }
    let mut acc: u64 = 0;
    let mut i: usize = 0;
    while i < n
        invariant
            n == s@.len(),
            0 <= i <= n,
            forall|j: int| 0 <= j < i ==> is_dec_digit(#[trigger] s@[j]),
            acc == numeral_value(s@.take(i as int)),
        decreases n - i,
    {
        let c = s.get_char(i);
        let cv = c as u32;
        if cv < 48 || cv > 57 {
            assert(!is_dec_digit(s@[i as int]));
            return Err(ArbError::QuoteServiceError);
        }
        let d = (cv - 48) as u64;
        assert(is_dec_digit(s@[i as int]) && d == dec_digit_val(s@[i as int]));
        if acc > (u64::MAX - d) / 10 {
            proof {
                assert(acc * 10 + d > u64::MAX) by (nonlinear_arith)
                    requires
                        acc > (u64::MAX - d) / 10,
                        d <= 9,
                        acc <= u64::MAX,
                ;
                assert(s@.take(i + 1 as int).drop_last() =~= s@.take(i as int));
                assert(numeral_value(s@.take(i + 1 as int)) == acc * 10 + d);
                if is_numeral(s@) {
                    lemma_numeral_prefix_le(s@, i + 1 as int);
                }
            }
            return Err(ArbError::QuoteServiceError);
        }
        proof {
            assert(acc * 10 + d <= u64::MAX) by (nonlinear_arith)
                requires
                    acc <= (u64::MAX - d) / 10,
                    d <= 9,
            ;
            assert(s@.take(i + 1 as int).drop_last() =~= s@.take(i as int));
        }
        acc = acc * 10 + d;
        i += 1;
    }
    proof {
        assert(s@.take(n as int) =~= s@);
    }
    Ok(acc)
}

/// A digit string extends, so its value only grows: the value of a prefix is
/// at most the value of the whole, once every later character is a digit.
proof fn lemma_numeral_prefix_le(s: Seq<char>, k: int)
    requires
        0 <= k <= s.len(),
        forall|j: int| 0 <= j < s.len() ==> is_dec_digit(#[trigger] s[j]),
    ensures
        numeral_value(s.take(k)) <= numeral_value(s),
    decreases s.len() - k,
{
    if k < s.len() {
        lemma_numeral_prefix_le(s, k + 1);
        assert(s.take(k + 1).drop_last() =~= s.take(k));
        assert(numeral_value(s.take(k + 1)) == numeral_value(s.take(k)) * 10 + dec_digit_val(
            s.take(k + 1).last(),
        ));
        assert(numeral_value(s.take(k)) <= numeral_value(s.take(k)) * 10) by (nonlinear_arith);
    } else {
        assert(s.take(k) =~= s);
    }
}

fn digit_str(d: u64) -> (r: &'static str)
    requires
        d < 10,
    ensures
        r@ =~= seq![dec_digit_char(d as nat)],
{
    if d == 0 {
        proof { reveal_strlit("0"); }
        "0"
    } else if d == 1 {
        proof { reveal_strlit("1"); }
        "1"
    } else if d == 2 {
        proof { reveal_strlit("2"); }
        "2"
    } else if d == 3 {
        proof { reveal_strlit("3"); }
        "3"
    } else if d == 4 {
        proof { reveal_strlit("4"); }
        "4"
    } else if d == 5 {
        proof { reveal_strlit("5"); }
        "5"
    } else if d == 6 {
        proof { reveal_strlit("6"); }
        "6"
    } else if d == 7 {
        proof { reveal_strlit("7"); }
        "7"
    } else if d == 8 {
        proof { reveal_strlit("8"); }
        "8"
    } else {
        proof { reveal_strlit("9"); }
        "9"
    }
}

/// Formats a `u64` as its canonical decimal numeral.
pub fn amount_string(n: u64) -> (r: String)
    ensures
        r@ == dec_numeral(n as nat),
    decreases n,
{
    if n < 10 {
        let s = digit_str(n);
        let r = s.to_owned();
        proof {
            assert(r@ =~= dec_numeral(n as nat));
        }
        r
    } else {
        let mut r = amount_string(n / 10);
        r.append(digit_str(n % 10));
        proof {
            assert(r@ =~= dec_numeral(n as nat));
        }
        r
    }
}

proof fn lemma_digit_char_val(d: nat)
    requires
        d < 10,
    ensures
        dec_digit_val(dec_digit_char(d)) == d,
        is_dec_digit(dec_digit_char(d)),
{
}

/// Law: formatting then parsing gives the number back — the canonical
/// numeral of `n` is a numeral and denotes `n`.
pub proof fn lemma_numeral_round_trip(n: nat)
    ensures
        is_numeral(dec_numeral(n)),
        numeral_value(dec_numeral(n)) == n,
    decreases n,
{
    if n < 10 {
        lemma_digit_char_val(n);
        assert(dec_numeral(n) =~= seq![dec_digit_char(n)]);
        assert(dec_numeral(n).drop_last() =~= Seq::<char>::empty());
        assert(numeral_value(dec_numeral(n)) == numeral_value(Seq::<char>::empty()) * 10
            + dec_digit_val(dec_digit_char(n)));
    } else {
        lemma_digit_char_val(n % 10);
        lemma_numeral_round_trip(n / 10);
        assert(dec_numeral(n).drop_last() =~= dec_numeral(n / 10));
        assert(numeral_value(dec_numeral(n)) == (n / 10) * 10 + n % 10);
        assert((n / 10) * 10 + n % 10 == n) by (nonlinear_arith);
    }
}

} // verus!
