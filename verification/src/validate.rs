//! Validation and parsing of the retry-count argument.
//!
//! A retry count is given on the command line as a decimal numeral with an
//! optional leading sign. [`parse_i32`] parses such a numeral, rejecting
//! anything malformed or out of `i32` range, and [`validate_i32`] wraps the
//! same check as a validator that reports an error message.

use vstd::prelude::*;
use vstd::string::StrSliceExecFns;
use vstd::string::StringExecFns;

verus! {

/// Whether `c` is a decimal digit.
pub open spec fn is_ascii_digit(c: char) -> bool {
    '0' as u32 <= c as u32 && c as u32 <= '9' as u32
}

/// The numeric value of a decimal digit.
pub open spec fn digit_value(c: char) -> int {
    c as u32 - '0' as u32
}

/// Whether every character of `s` is a decimal digit.
pub open spec fn all_digits(s: Seq<char>) -> bool {
    forall|i: int| 0 <= i < s.len() ==> is_ascii_digit(#[trigger] s[i])
}

/// The value of a sequence of decimal digits, most significant first.
pub open spec fn digits_value(s: Seq<char>) -> int
    decreases s.len(),
{
    if s.len() == 0 {
        0
    } else {
        digits_value(s.drop_last()) * 10 + digit_value(s.last())
    }
}

/// The digits of a numeral: everything after the optional leading sign.
pub open spec fn numeral_body(s: Seq<char>) -> Seq<char> {
    if s.len() > 0 && (s[0] == '+' || s[0] == '-') {
        s.drop_first()
    } else {
        s
    }
}

/// The sign of a numeral: `-1` under a leading minus, else `1`.
pub open spec fn numeral_sign(s: Seq<char>) -> int {
    if s.len() > 0 && s[0] == '-' {
        -1
    } else {
        1
    }
}

/// The integer a well-formed numeral denotes.
pub open spec fn numeral_value(s: Seq<char>) -> int {
    numeral_sign(s) * digits_value(numeral_body(s))
}

/// Whether `s` is a decimal numeral that fits in an `i32`: an optional
/// leading `+` or `-`, then one or more decimal digits, denoting a value
/// between `i32::MIN` and `i32::MAX`.
pub open spec fn is_i32_numeral(s: Seq<char>) -> bool {
    &&& numeral_body(s).len() > 0
    &&& all_digits(numeral_body(s))
    &&& i32::MIN <= numeral_value(s) <= i32::MAX
}

/// The value of a digit sequence is never negative.
proof fn lemma_digits_value_nonneg(s: Seq<char>)
    requires
        all_digits(s),
    ensures
        digits_value(s) >= 0,
    decreases s.len(),
{
    if s.len() > 0 {
        assert forall|i: int| 0 <= i < s.drop_last().len() implies is_ascii_digit(
            #[trigger] s.drop_last()[i],
        ) by {
            assert(s.drop_last()[i] == s[i]);
        }
        lemma_digits_value_nonneg(s.drop_last());
    }
}

/// Appending digits never shrinks the value: any prefix of a digit sequence
/// denotes at most the value of the whole sequence.
proof fn lemma_digits_value_prefix(s: Seq<char>, k: int)
    requires
        all_digits(s),
        0 <= k <= s.len(),
    ensures
        digits_value(s.take(k)) <= digits_value(s),
    decreases s.len(),
{
    if k < s.len() {
        assert forall|i: int| 0 <= i < s.drop_last().len() implies is_ascii_digit(
            #[trigger] s.drop_last()[i],
        ) by {
            assert(s.drop_last()[i] == s[i]);
        }
        assert(s.drop_last().take(k) =~= s.take(k));
        lemma_digits_value_prefix(s.drop_last(), k);
        lemma_digits_value_nonneg(s.drop_last());
    } else {
        assert(s.take(k) =~= s);
    }
}

/// Parses `s` as a decimal `i32` numeral: an optional leading `+` or `-`,
/// then one or more decimal digits. Returns `None` when `s` is not of that
/// shape or the value does not fit in an `i32`.
pub fn parse_i32(s: &str) -> (r: Option<i32>)
    ensures
        r is Some <==> is_i32_numeral(s@),
        (r matches Some(v) ==> v as int == numeral_value(s@)),
{
    let len = s.unicode_len();
    let mut offset: usize = 0;
    let mut negative = false;
    if len > 0 {
        let first = s.get_char(0);
        if first == '+' {
            offset = 1;
        } else if first == '-' {
            offset = 1;
            negative = true;
        }
    }
    let ghost body = numeral_body(s@);
    proof {
        assert(body =~= s@.skip(offset as int));
    }
    if offset >= len {
        return None;
    }
    let mut mag: u64 = 0;
    let mut i: usize = offset;
    while i < len
        invariant
            offset <= i <= len,
            len == s@.len(),
            offset == 1 <==> s@.len() > 0 && (s@[0] == '+' || s@[0] == '-'),
            offset <= 1,
            negative <==> s@.len() > 0 && s@[0] == '-',
            body == numeral_body(s@),
            body == s@.skip(offset as int),
            all_digits(body.take(i - offset)),
            mag == digits_value(body.take(i - offset)),
            mag <= 0x8000_0000u64,
        decreases len - i,
    {
        let c = s.get_char(i);
        let u: u32 = c as u32;
        proof {
            assert(body[i - offset] == s@[i as int]);
        }
        if u < 48 || u > 57 {
            assert(!is_ascii_digit(s@[i as int]));
            return None;
        }
        let d: u64 = (u - 48) as u64;
        let next: u64 = mag * 10 + d;
        proof {
            assert(body.take(i - offset + 1).drop_last() =~= body.take(i - offset));
            assert(body.take(i - offset + 1).last() == body[i - offset]);
        }
        if next > 0x8000_0000u64 {
            proof {
                if all_digits(body) {
                    lemma_digits_value_prefix(body, i - offset + 1);
                }
            }
            return None;
        }
        mag = next;
        i = i + 1;
    }
    proof {
        assert(body.take(i - offset) =~= body);
    }
    if negative {
        if mag == 0x8000_0000u64 {
            Some(i32::MIN)
        } else {
            Some(-(mag as i32))
        }
    } else {
        if mag > 0x7FFF_FFFFu64 {
            return None;
        }
        Some(mag as i32)
    }
}

/// Checks that `arg` is a decimal numeral that fits in an `i32`, as a
/// command-line argument validator: `Ok` exactly when it is, and otherwise
/// an error whose message names the offending argument.
pub fn validate_i32(arg: String) -> (r: Result<(), String>)
    ensures
        r is Ok <==> is_i32_numeral(arg@),
        (r matches Err(m) ==> m@ == "cannot parse "@ + arg@ + " to i32"@),
{
    match parse_i32(arg.as_str()) {
        Some(_) => Ok(()),
        None => {
            let mut msg = String::from_str("cannot parse ");
            msg.append(arg.as_str());
            msg.append(" to i32");
            Err(msg)
        },
    }
}

} // verus!
