//! Decimal parsing for connection arguments.
//!
//! The standalone connection mode receives its flags as strings; each one must
//! parse into an unsigned integer, and a string that does not is a local
//! validation failure.
use vstd::prelude::*;
use vstd::string::StrSliceExecFns;

verus! {

/// Whether a character is a decimal digit.
pub open spec fn spec_is_digit(c: char) -> bool {
    48 <= c as u32 && c as u32 <= 57
}

/// The numeric value of a decimal digit character.
pub open spec fn spec_digit_val(c: char) -> int {
    c as u32 - 48
}

/// Whether every character of a string is a decimal digit.
pub open spec fn spec_all_digits(s: Seq<char>) -> bool {
    forall|i: int| 0 <= i < s.len() ==> spec_is_digit(s[i])
}

/// The value of a string of decimal digits, most significant first.
pub open spec fn spec_dec_value(s: Seq<char>) -> int
    decreases s.len(),
{
    if s.len() == 0 {
        0
    } else {
        spec_dec_value(s.drop_last()) * 10 + spec_digit_val(s.last())
    }
}

/// Whether a string is a well-formed decimal rendering of a `u32`: non-empty,
/// all digits, and within range.
pub open spec fn spec_parse_u32_ok(s: Seq<char>) -> bool {
    s.len() > 0 && spec_all_digits(s) && spec_dec_value(s) <= u32::MAX
}

/// A string of digits has a non-negative value.
proof fn lemma_dec_value_nonneg(s: Seq<char>)
    requires
        spec_all_digits(s),
    ensures
        spec_dec_value(s) >= 0,
    decreases s.len(),
{
    if s.len() > 0 {
        assert(spec_all_digits(s.drop_last()));
        lemma_dec_value_nonneg(s.drop_last());
    }
}

/// Parses a string as an unsigned decimal integer.  Returns `Some` exactly on
/// non-empty all-digit strings whose value fits in a `u32`.
pub fn parse_u32(s: &str) -> (r: Option<u32>)
    ensures
        r is Some <==> spec_parse_u32_ok(s@),
        r matches Some(v) ==> v == spec_dec_value(s@),
{
    let len = s.unicode_len();
    if len == 0 {
        return None;
    }
    let mut value: u32 = 0;
    let mut overflowed = false;
    let mut i: usize = 0;
    while i < len
        invariant
            0 <= i <= len,
            len == s@.len(),
            spec_all_digits(s@.take(i as int)),
            !overflowed ==> value == spec_dec_value(s@.take(i as int)),
            overflowed ==> spec_dec_value(s@.take(i as int)) > u32::MAX,
        decreases len - i,
    {
        let c = s.get_char(i);
        let cv = c as u32;
        if cv < 48 || cv > 57 {
            proof {
                assert(!spec_is_digit(s@[i as int]));
            }
            return None;
        }
        let d = cv - 48;
        proof {
            assert(s@.take(i as int + 1).drop_last() =~= s@.take(i as int));
            assert(s@.take(i as int + 1).last() == s@[i as int]);
            if overflowed {
                lemma_dec_value_nonneg(s@.take(i as int));
            }
        }
        if !overflowed {
            let wide: u64 = (value as u64) * 10 + (d as u64);
            if wide > 0xFFFF_FFFFu64 {
                overflowed = true;
            } else {
                value = wide as u32;
            }
        }
        i = i + 1;
    }
    proof {
        assert(s@.take(len as int) =~= s@);
    }
    if overflowed {
        None
    } else {
        Some(value)
    }
}

} // verus!
