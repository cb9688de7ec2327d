use solana_governance_cli::errors::GovernanceError;
use solana_governance_cli::transactions::build_transactions;
use solana_sdk::instruction::{AccountMeta, Instruction};
use solana_sdk::pubkey::Pubkey;

fn simple_instruction() -> Instruction {
    Instruction {
        program_id: Pubkey::new_unique(),
        accounts: vec![AccountMeta::new(Pubkey::new_unique(), false)],
        data: vec![1, 2, 3],
    }
}

#[test]
fn one_descriptor_per_instruction() {
    let fee_payer = Pubkey::new_unique();
    let blockhash = solana_sdk::hash::Hash::new_unique();
    let instructions = vec![simple_instruction(), simple_instruction(), simple_instruction()];
    let txs = build_transactions(&fee_payer, instructions, &blockhash).unwrap();
    assert_eq!(txs.len(), 3);
}

#[test]
fn descriptors_share_fee_payer_and_blockhash() {
    let fee_payer = Pubkey::new_unique();
    let blockhash = solana_sdk::hash::Hash::new_unique();
    let instructions = vec![simple_instruction(), simple_instruction()];
    let txs = build_transactions(&fee_payer, instructions, &blockhash).unwrap();
    for tx in &txs {
        assert_eq!(tx.params.fee_payer, fee_payer.to_string());
        assert_eq!(tx.params.blockhash_for_message, blockhash.to_string());
        assert_eq!(tx.params.recent_blockhash.as_deref(), Some(blockhash.to_string().as_str()));
        assert!(tx.params.nonce_account.is_none());
        assert!(tx.params.nonce_authority.is_none());
    }
}

#[test]
fn transactions_carry_the_message_blockhash() {
    let fee_payer = Pubkey::new_unique();
    let blockhash = solana_sdk::hash::Hash::new_unique();
    let instructions = vec![simple_instruction()];
    let txs = build_transactions(&fee_payer, instructions, &blockhash).unwrap();
    assert_eq!(txs[0].transaction.message.recent_blockhash, blockhash);
    assert_eq!(txs[0].transaction.message.account_keys[0], fee_payer);
    assert!(txs[0].transaction.signatures.iter().all(|s| *s == Default::default()));
}

#[test]
fn empty_batch_yields_no_descriptors() {
    let fee_payer = Pubkey::new_unique();
    let blockhash = solana_sdk::hash::Hash::new_unique();
    let txs = build_transactions(&fee_payer, Vec::new(), &blockhash).unwrap();
    assert!(txs.is_empty());
}

#[test]
fn oversized_instruction_is_rejected() {
    let fee_payer = Pubkey::new_unique();
    let blockhash = solana_sdk::hash::Hash::new_unique();
    let mut accounts = Vec::new();
    for _ in 0..254 {
        accounts.push(AccountMeta::new(Pubkey::new_unique(), false));
    }
    let oversized = Instruction { program_id: Pubkey::new_unique(), accounts, data: vec![] };
    let r = build_transactions(&fee_payer, vec![simple_instruction(), oversized], &blockhash);
    assert_eq!(r.unwrap_err(), GovernanceError::TooManyInstructionAccounts);
}
