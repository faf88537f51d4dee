//! Typed errors and translation of native status codes.
//!
//! Every native call returns an integer status.  The success value maps to
//! `Ok`; any other value becomes a [`DCGMError`] whose message is the string
//! the native library reports for that code, or a synthetic
//! `"Unknown DCGM error <code>"` fallback when the library reports none.
use vstd::prelude::*;
use vstd::string::StringExecFns;

verus! {

/// Status code the native library returns on success.
pub const DCGM_ST_OK: i32 = 0;

/// Status code the native library returns for a query it does not support.
pub const DCGM_ST_NOT_SUPPORTED: i32 = -6;

/// Status code the native library returns for a field that is not watched.
pub const DCGM_ST_NOT_WATCHED: i32 = -16;

/// An error of the session layer: a human-readable message, built either from
/// a native status code or from a static description of a local validation
/// failure.  Errors are terminal for the operation that raised them.
#[derive(Clone, Debug)]
pub struct DCGMError {
    pub message: String,
}

impl DCGMError {
    /// A local validation error with a static description.
    pub fn from_text(text: &str) -> (r: DCGMError)
        ensures
            r.message@ == text@,
    {
        DCGMError { message: text.to_owned() }
    }

    /// The human-readable message carried by this error.
    pub fn message(&self) -> (r: &String)
        ensures
            r@ == self.message@,
    {
        &self.message
    }
}

/// The character for one decimal digit.
pub open spec fn spec_digit_char(d: int) -> char {
    if d == 0 {
        '0'
    } else if d == 1 {
        '1'
    } else if d == 2 {
        '2'
    } else if d == 3 {
        '3'
    } else if d == 4 {
        '4'
    } else if d == 5 {
        '5'
    } else if d == 6 {
        '6'
    } else if d == 7 {
        '7'
    } else if d == 8 {
        '8'
    } else {
        '9'
    }
}

/// The decimal rendering of a non-negative integer, without sign or padding.
pub open spec fn spec_udecimal(n: nat) -> Seq<char>
    decreases n,
{
    if n < 10 {
        seq![spec_digit_char(n as int)]
    } else {
        spec_udecimal(n / 10).push(spec_digit_char((n % 10) as int))
    }
}

/// The decimal rendering of an integer, with a leading minus when negative.
pub open spec fn spec_idecimal(n: int) -> Seq<char> {
    if n < 0 {
        seq!['-'] + spec_udecimal((-n) as nat)
    } else {
        spec_udecimal(n as nat)
    }
}

/// One decimal digit as a string slice.
fn digit_str(d: u32) -> (r: &'static str)
    requires
        d < 10,
    ensures
        r@ == seq![spec_digit_char(d as int)],
{
    let r = match d {
        0 => "0",
        1 => "1",
        2 => "2",
        3 => "3",
        4 => "4",
        5 => "5",
        6 => "6",
        7 => "7",
        8 => "8",
        _ => "9",
    };
    proof {
        reveal_strlit("0");
        reveal_strlit("1");
        reveal_strlit("2");
        reveal_strlit("3");
        reveal_strlit("4");
        reveal_strlit("5");
        reveal_strlit("6");
        reveal_strlit("7");
        reveal_strlit("8");
        reveal_strlit("9");
        assert(r@ =~= seq![spec_digit_char(d as int)]);
    }
    r
}

/// Renders an unsigned integer in decimal.
pub fn u32_decimal(n: u32) -> (r: String)
    ensures
        r@ == spec_udecimal(n as nat),
    decreases n,
{
    if n < 10 {
        digit_str(n).to_owned()
    } else {
        let prefix = u32_decimal(n / 10);
        let r = prefix.concat(digit_str(n % 10));
        proof {
            assert(r@ =~= spec_udecimal(n as nat));
        }
        r
    }
}

/// Renders a signed integer in decimal.
pub fn i32_decimal(n: i32) -> (r: String)
    ensures
        r@ == spec_idecimal(n as int),
{
    if n >= 0 {
        u32_decimal(n as u32)
    } else {
        let magnitude: u32 = if n == i32::MIN {
            0x8000_0000u32
        } else {
            (-n) as u32
        };
        let digits = u32_decimal(magnitude);
        let r = "-".to_owned().concat(digits.as_str());
        proof {
            reveal_strlit("-");
            assert(r@ =~= spec_idecimal(n as int));
        }
        r
    }
}

/// The message for a failed native status: the native library's own string
/// when it reported one, else the synthetic fallback naming the code.
pub open spec fn spec_error_message(code: int, native: Option<Seq<char>>) -> Seq<char> {
    match native {
        Option::Some(s) => s,
        Option::None => "Unknown DCGM error "@ + spec_idecimal(code),
    }
}

/// Builds the message for a status code from the string the native library's
/// lookup call returned for it, if any.
pub fn get_error_msg(code: i32, native: Option<String>) -> (r: String)
    ensures
        r@ == spec_error_message(code as int, native.deep_view()),
{
    match native {
        Option::Some(s) => s,
        Option::None => {
            let digits = i32_decimal(code);
            "Unknown DCGM error ".to_owned().concat(digits.as_str())
        },
    }
}

/// Translates a native status into a typed result: the success code maps to
/// `Ok`, every other code to an error carrying the translated message.
pub fn check_status(code: i32, native: Option<String>) -> (r: Result<(), DCGMError>)
    ensures
        r is Ok <==> code == DCGM_ST_OK,
        r matches Err(e) ==> e.message@ == spec_error_message(code as int, native.deep_view()),
{
    if code == DCGM_ST_OK {
        Ok(())
    } else {
        Err(DCGMError { message: get_error_msg(code, native) })
    }
}

} // verus!
