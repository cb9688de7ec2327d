//! The errors this library reports. Every failure of a verified function
//! is one of these variants; none of the verified functions panic.

use vstd::prelude::*;
use vstd::string::*;

verus! {

/// Why an invocation failed before any transaction could be prepared.
#[derive(Clone, Copy, Debug, PartialEq, Eq, Structural)]
pub enum GovernanceError {
    /// The RPC URL matches none of the recognised network patterns.
    UnrecognizedNetworkUrl,
    /// The proposal call data is not valid base64.
    InvalidCallData,
    /// An account permission is not of the form `pubkey:is_signer:is_writable`.
    AccountPermissionFormat,
    /// An account permission's signer or writable field is not `true` or `false`.
    AccountPermissionFlag,
    /// An account permission's address is not a valid base58 public key.
    AccountPermissionAddress,
    /// An instruction holds more account keys than one message can index.
    TooManyInstructionAccounts,
}

impl GovernanceError {
    /// A human-readable description, in place of `Display`.
    pub fn message(&self) -> String {
        match self {
            GovernanceError::UnrecognizedNetworkUrl => String::from_str(
                "the RPC URL matches no recognized network pattern",
            ),
            GovernanceError::InvalidCallData => String::from_str(
                "the proposal call data is not valid base64",
            ),
            GovernanceError::AccountPermissionFormat => String::from_str(
                "an account permission is not of the form pubkey:is_signer:is_writable",
            ),
            GovernanceError::AccountPermissionFlag => String::from_str(
                "an account permission flag is not true or false",
            ),
            GovernanceError::AccountPermissionAddress => String::from_str(
                "an account permission address is not a valid base58 public key",
            ),
            GovernanceError::TooManyInstructionAccounts => String::from_str(
                "an instruction holds more account keys than one message can index",
            ),
        }
    }
}

} // verus!
