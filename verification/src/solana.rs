//! The boundary to solana-sdk: the declarations of its types that flow
//! through the library, and the few calls the logic makes into it. Each
//! item's doc comment names the outside function it relies on.

use vstd::prelude::*;
use solana_sdk::instruction::Instruction;
use solana_sdk::message::Message;
use solana_sdk::pubkey::{ParsePubkeyError, Pubkey};
use solana_sdk::transaction::Transaction;
use core::str::FromStr;

verus! {

#[verifier::external_type_specification]
#[verifier::external_body]
pub struct ExPubkey(Pubkey);

#[verifier::external_type_specification]
#[verifier::external_body]
pub struct ExParsePubkeyError(ParsePubkeyError);

#[verifier::external_type_specification]
#[verifier::external_body]
pub struct ExHash(solana_sdk::hash::Hash);

#[verifier::external_type_specification]
#[verifier::external_body]
pub struct ExInstruction(Instruction);

#[verifier::external_type_specification]
#[verifier::external_body]
pub struct ExMessage(Message);

#[verifier::external_type_specification]
#[verifier::external_body]
pub struct ExTransaction(Transaction);

/// The Keccak-256 digest of a byte string: a function of the bytes alone.
pub uninterp spec fn keccak256_of(data: Seq<u8>) -> Seq<u8>;

/// Relies on solana_sdk::keccak::hashv: the Keccak-256 digest of the
/// given bytes, 32 bytes long, depending on the input bytes alone.
#[verifier::external_body]
pub(crate) fn keccak256(data: &[u8]) -> (r: [u8; 32])
    ensures
        r@ == keccak256_of(data@),
{
    solana_sdk::keccak::hashv(&[data]).0
}

/// The 32 bytes a string denotes in base58, when it denotes exactly 32.
pub uninterp spec fn base58_decoded_32(s: Seq<char>) -> Option<Seq<u8>>;

/// Relies on Pubkey::from_str: it returns a key exactly when the string
/// is the base58 form of a 32-byte value, and errs on every other string.
#[verifier::external_body]
pub(crate) fn parse_pubkey(s: &str) -> (r: Result<Pubkey, ParsePubkeyError>)
    ensures
        r is Ok <==> base58_decoded_32(s@) is Some,
{
    Pubkey::from_str(s)
}

/// Relies on Pubkey's Display impl: the base58 form of the key. Nothing
/// is claimed of the text; callers only carry it along.
#[verifier::external_body]
pub(crate) fn pubkey_to_string(p: &Pubkey) -> String {
    p.to_string()
}

/// Relies on Hash's Display impl: the base58 form of the hash. Nothing
/// is claimed of the text; callers only carry it along.
#[verifier::external_body]
pub(crate) fn hash_to_string(h: &solana_sdk::hash::Hash) -> String {
    h.to_string()
}

/// The account keys an instruction holds, one per account meta, in order.
pub uninterp spec fn instruction_accounts(ix: Instruction) -> Seq<Seq<u8>>;

/// Relies on the public `accounts` field of Instruction and Vec::len:
/// how many account metas the instruction holds.
#[verifier::external_body]
pub(crate) fn instruction_account_count(ix: &Instruction) -> (n: usize)
    ensures
        n == instruction_accounts(*ix).len(),
{
    ix.accounts.len()
}

/// Relies on Message::new_with_blockhash: compiles one instruction, the
/// fee payer and a recent blockhash into a legacy message. It panics only
/// when the distinct account keys cannot be counted in the message
/// header's u8 fields, which 253 account metas plus the payer and the
/// program id never reach.
#[verifier::external_body]
pub(crate) fn compile_message(ix: &Instruction, payer: &Pubkey, blockhash: &solana_sdk::hash::Hash) -> (m: Message)
    requires
        instruction_accounts(*ix).len() <= 253,
{
    Message::new_with_blockhash(core::slice::from_ref(ix), Some(payer), blockhash)
}

/// Relies on Transaction::new_unsigned: wraps a message in a transaction
/// with one empty signature slot per required signer.
#[verifier::external_body]
pub(crate) fn unsigned_transaction(message: Message) -> (t: Transaction) {
    Transaction::new_unsigned(message)
}

} // verus!
