//! Declarations and wrappers for the few std items this library needs and
//! Verus has no specification for: UTF-8 decoding into an owned string, and
//! the error values that transport and decoding failures carry.

use vstd::prelude::*;
use vstd::utf8::decode_utf8;
use vstd::utf8::valid_utf8;

verus! {

/// `std::io::Error`, declared so that transport failures can be carried
/// through the library's error types; the library never inspects one.
#[verifier::external_type_specification]
#[verifier::external_body]
pub struct ExIoError(std::io::Error);

/// `std::string::FromUtf8Error`, declared so that a failed UTF-8 decoding
/// can be reported with the error the decoder produced.
#[verifier::external_type_specification]
#[verifier::external_body]
pub struct ExFromUtf8Error(std::string::FromUtf8Error);

/// Relies on `String::from_utf8`: it succeeds exactly on valid UTF-8 input
/// and returns the string those bytes encode.
#[verifier::external_body]
pub(crate) fn vec_to_string(bytes: Vec<u8>) -> (r: Result<String, std::string::FromUtf8Error>)
    ensures
        valid_utf8(bytes@) <==> r is Ok,
        r matches Ok(s) ==> s@ == decode_utf8(bytes@),
{
    String::from_utf8(bytes)
}

/// Relies on the `Display` impl of `std::io::Error`, for diagnostics text
/// only; nothing is assumed of the result.
#[verifier::external_body]
pub(crate) fn io_error_message(e: &std::io::Error) -> String {
    format!("{}", e)
}

/// Relies on the `Display` impl of `std::string::FromUtf8Error`, for
/// diagnostics text only; nothing is assumed of the result.
#[verifier::external_body]
pub(crate) fn utf8_error_message(e: &std::string::FromUtf8Error) -> String {
    format!("{}", e)
}

} // verus!
