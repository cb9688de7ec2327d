//! Base64 decoding of proposal call data. Decoding happens before any
//! instruction is planned, so invalid call data fails an invocation
//! before anything else is attempted.

use vstd::prelude::*;
use base64::Engine;
use crate::errors::GovernanceError;

verus! {

#[verifier::external_type_specification]
#[verifier::external_body]
pub struct ExDecodeError(base64::DecodeError);

/// The bytes a string denotes in standard base64 with padding, when it
/// denotes any: a function of the string alone.
pub uninterp spec fn base64_decoded(s: Seq<char>) -> Option<Seq<u8>>;

/// Relies on base64's STANDARD engine: decoding succeeds exactly on the
/// strings of the standard alphabet with canonical padding, returns the
/// bytes they denote, and turns the empty string into no bytes.
#[verifier::external_body]
fn decode_standard_base64(s: &str) -> (r: Result<Vec<u8>, base64::DecodeError>)
    ensures
        r is Ok <==> base64_decoded(s@) is Some,
        r is Ok ==> Some(r->Ok_0@) == base64_decoded(s@),
        s@.len() == 0 ==> r is Ok && r->Ok_0@ == Seq::<u8>::empty(),
{
    base64::engine::general_purpose::STANDARD.decode(s)
}

/// Decode a proposal's call data. Succeeds exactly when the text is
/// valid standard base64, and then returns the bytes it denotes.
pub fn decode_call_data(calldata: &str) -> (r: Result<Vec<u8>, GovernanceError>)
    ensures
        r is Ok <==> base64_decoded(calldata@) is Some,
        r is Ok ==> Some(r->Ok_0@) == base64_decoded(calldata@),
        r is Err ==> r->Err_0 == GovernanceError::InvalidCallData,
{
    match decode_standard_base64(calldata) {
        Ok(bytes) => Ok(bytes),
        Err(_) => Err(GovernanceError::InvalidCallData),
    }
}

} // verus!
