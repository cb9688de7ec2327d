//! Assembly of unsigned transaction descriptors: one transaction per
//! instruction, every descriptor carrying the same fee payer and the
//! same freshly fetched blockhash.

use vstd::prelude::*;
use vstd::string::*;
use solana_sdk::instruction::Instruction;
use solana_sdk::pubkey::Pubkey;
use crate::errors::GovernanceError;
use crate::solana::{
    compile_message, hash_to_string, instruction_account_count, instruction_accounts,
    pubkey_to_string, unsigned_transaction,
};

verus! {

/// What a later signing step needs to know about one transaction.
#[derive(Debug)]
pub struct SolanaTransactionParams {
    /// The fee payer, in base58.
    pub fee_payer: String,
    /// The blockhash the transaction was built with, in base58.
    pub recent_blockhash: Option<String>,
    /// A durable-nonce account, when one is used. Never set here: nonce
    /// handling is a later step's concern.
    pub nonce_account: Option<String>,
    /// The nonce account's authority, when one is used. Never set here.
    pub nonce_authority: Option<String>,
    /// The blockhash compiled into the message, in base58.
    pub blockhash_for_message: String,
}

/// An unsigned transaction together with its signing parameters.
#[derive(Debug)]
pub struct SerializableSolanaTransaction {
    /// The unsigned transaction.
    pub transaction: solana_sdk::transaction::Transaction,
    /// What signing it later will need.
    pub params: SolanaTransactionParams,
}

impl SerializableSolanaTransaction {
    /// Pair a transaction with its signing parameters.
    pub fn new(
        transaction: solana_sdk::transaction::Transaction,
        params: SolanaTransactionParams,
    ) -> (r: SerializableSolanaTransaction)
        ensures
            r.params == params,
    {
        SerializableSolanaTransaction { transaction, params }
    }
}

/// The parameters every descriptor of one batch shares: the same fee
/// payer, the same blockhash — repeated as the message blockhash — and
/// no nonce fields.
pub open spec fn spec_shared_params(
    params: SolanaTransactionParams,
    fee_payer: Seq<char>,
    blockhash: Seq<char>,
) -> bool {
    &&& params.fee_payer@ == fee_payer
    &&& params.recent_blockhash matches Some(b) && b@ == blockhash
    &&& params.nonce_account is None
    &&& params.nonce_authority is None
    &&& params.blockhash_for_message@ == blockhash
}

/// Each descriptor on its own: no nonce fields are set, and the
/// recorded recent blockhash is the one compiled into the message.
pub open spec fn spec_descriptor_params(params: SolanaTransactionParams) -> bool {
    &&& params.recent_blockhash matches Some(b) && b@ == params.blockhash_for_message@
    &&& params.nonce_account is None
    &&& params.nonce_authority is None
}

/// Wrap each instruction in an unsigned transaction of its own, all of
/// them carrying the given fee payer and blockhash. Returns exactly one
/// descriptor per instruction, in the instructions' order, and fails
/// exactly when some instruction holds more account metas than one
/// message can count. Any two descriptors of the batch carry the same
/// fee payer and the same blockhash.
pub fn build_transactions(
    fee_payer: &Pubkey,
    instructions: Vec<Instruction>,
    blockhash: &solana_sdk::hash::Hash,
) -> (r: Result<Vec<SerializableSolanaTransaction>, GovernanceError>)
    ensures
        r is Ok <==> (forall|i: int|
            0 <= i < instructions@.len() ==> #[trigger] instruction_accounts(
                instructions@[i],
            ).len() <= 253),
        r is Err ==> r->Err_0 == GovernanceError::TooManyInstructionAccounts,
        r matches Ok(txs) ==> ({
            &&& txs@.len() == instructions@.len()
            &&& forall|i: int|
                0 <= i < txs@.len() ==> spec_descriptor_params(#[trigger] txs@[i].params)
            &&& forall|i: int, j: int|
                #![trigger txs@[i].params, txs@[j].params]
                0 <= i < txs@.len() && 0 <= j < txs@.len() ==> txs@[i].params.fee_payer@
                    == txs@[j].params.fee_payer@ && txs@[i].params.blockhash_for_message@
                    == txs@[j].params.blockhash_for_message@
        }),
{
    let n: usize = instructions.len();
    let mut idx: usize = 0;
    while idx < n
        invariant
            n == instructions@.len(),
            0 <= idx <= n,
            forall|i: int|
                0 <= i < idx ==> #[trigger] instruction_accounts(instructions@[i]).len() <= 253,
        decreases n - idx,
    {
        if instruction_account_count(&instructions[idx]) > 253 {
            return Err(GovernanceError::TooManyInstructionAccounts);
        }
        idx += 1;
    }
    let fee_payer_str = pubkey_to_string(fee_payer);
    let blockhash_str = hash_to_string(blockhash);
    let mut txs: Vec<SerializableSolanaTransaction> = Vec::new();
    let mut k: usize = 0;
    while k < n
        invariant
            n == instructions@.len(),
            0 <= k <= n,
            txs@.len() == k,
            forall|i: int|
                0 <= i < n ==> #[trigger] instruction_accounts(instructions@[i]).len() <= 253,
            forall|i: int|
                0 <= i < k ==> spec_shared_params(
                    #[trigger] txs@[i].params,
                    fee_payer_str@,
                    blockhash_str@,
                ),
        decreases n - k,
    {
        let message = compile_message(&instructions[k], fee_payer, blockhash);
        let transaction = unsigned_transaction(message);
        let params = SolanaTransactionParams {
            fee_payer: fee_payer_str.clone(),
            recent_blockhash: Some(blockhash_str.clone()),
            nonce_account: None,
            nonce_authority: None,
            blockhash_for_message: blockhash_str.clone(),
        };
        txs.push(SerializableSolanaTransaction::new(transaction, params));
        k += 1;
    }
    Ok(txs)
}

} // verus!
