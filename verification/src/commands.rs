//! The three subcommands and the instruction plans they are turned
//! into. A plan holds every value the governance instruction builder
//! needs, already validated and decoded; performing the plan — deriving
//! addresses and encoding the instruction — is the builder's own work.

use vstd::prelude::*;
use vstd::string::*;
use vstd::utf8::encode_utf8;
use crate::accounts::AccountPermission;
use crate::calldata::{base64_decoded, decode_call_data};
use crate::config::Config;
use crate::errors::GovernanceError;
use crate::solana::{keccak256, keccak256_of};

verus! {

/// Arguments of the initialisation subcommand.
#[derive(Debug)]
pub struct InitArgs {
    /// The name of the chain in charge of the governance.
    pub governance_chain: String,
    /// The address of the governance contract on the governance chain.
    pub governance_address: String,
    /// Minimum value, in seconds, for a proposal ETA.
    pub minimum_proposal_eta_delay: u32,
    /// The account to receive the operator role, in base58.
    pub operator: String,
}

/// Arguments shared by both proposal-execution subcommands.
#[derive(Debug)]
pub struct ProposalExecutionBaseArgs {
    /// Target program id for the proposal's instruction, in base58.
    pub target: String,
    /// The amount of native value (lamports) to move with the proposal.
    pub native_value: u64,
    /// Call data for the target program instruction, in base64.
    pub calldata: String,
    /// Account metas required by the target program instruction.
    pub target_accounts: Vec<AccountPermission>,
    /// Optional receiver of the proposal's native value, in base58.
    pub native_value_receiver: Option<String>,
}

/// Arguments of the scheduled-proposal execution subcommand.
#[derive(Debug)]
pub struct ExecuteProposalArgs {
    pub base: ProposalExecutionBaseArgs,
}

/// Arguments of the operator-approved execution subcommand.
#[derive(Debug)]
pub struct ExecuteOperatorProposalArgs {
    pub base: ProposalExecutionBaseArgs,
    /// Operator account, which must sign the transaction, in base58.
    pub operator: String,
}

/// The subcommands an invocation dispatches over.
#[derive(Debug)]
pub enum Commands {
    /// Initialise the interchain-governance program's configuration.
    Init(InitArgs),
    /// Execute a scheduled proposal after its ETA has elapsed.
    ExecuteProposal(ExecuteProposalArgs),
    /// Execute an operator-approved proposal, bypassing the ETA.
    ExecuteOperatorProposal(ExecuteOperatorProposalArgs),
}

/// Everything the initialisation instruction is built from, plus what
/// the chain-metadata update needs.
#[derive(Debug)]
pub struct InitPlan {
    /// Keccak-256 of the governance chain's name.
    pub chain_name_hash: [u8; 32],
    /// Keccak-256 of the governance contract's address text.
    pub address_hash: [u8; 32],
    /// Minimum value, in seconds, for a proposal ETA.
    pub minimum_proposal_eta_delay: u32,
    /// The operator account, in base58.
    pub operator: String,
    /// The governance chain's name, as given.
    pub governance_chain: String,
    /// The governance contract's address, as given.
    pub governance_address: String,
    /// The chain id whose metadata entry the invocation updates.
    pub chain_id: String,
}

/// Everything one proposal-execution instruction is built from.
#[derive(Debug)]
pub struct ProposalPlan {
    /// Target program id, in base58.
    pub target: String,
    /// The amount of native value (lamports) to move.
    pub native_value: u64,
    /// The decoded call data.
    pub call_data: Vec<u8>,
    /// The target instruction's accounts with their permissions.
    pub target_accounts: Vec<AccountPermission>,
    /// Optional receiver of the native value, in base58.
    pub native_value_receiver: Option<String>,
    /// The ETA handed to the instruction builder. Execution never
    /// re-states the original scheduling delay, so it is always zero;
    /// only the builder's interface asks for a value.
    pub eta: u64,
}

/// The instruction a subcommand asks for, fully decided and decoded.
#[derive(Debug)]
pub enum InstructionPlan {
    Init(InitPlan),
    ExecuteProposal(ProposalPlan),
    ExecuteOperatorProposal(ProposalPlan, String),
}

/// The Keccak-256 digest of a text's UTF-8 bytes.
pub open spec fn spec_text_hash(s: Seq<char>) -> Seq<u8> {
    keccak256_of(encode_utf8(s))
}

/// The plan a proposal-execution subcommand decodes to, when its call
/// data is valid base64.
pub open spec fn spec_proposal_plan(args: ProposalExecutionBaseArgs, plan: ProposalPlan) -> bool {
    &&& plan.target == args.target
    &&& plan.native_value == args.native_value
    &&& Some(plan.call_data@) == base64_decoded(args.calldata@)
    &&& plan.target_accounts == args.target_accounts
    &&& plan.native_value_receiver == args.native_value_receiver
    &&& plan.eta == 0
}

/// Decide what instruction a subcommand asks for. Initialisation always
/// yields a plan; the execution subcommands yield one exactly when their
/// call data is valid base64, and fail before anything else is looked
/// at. Exactly one instruction is planned per invocation.
pub fn build_instruction_plan(command: Commands, config: &Config) -> (r: Result<
    InstructionPlan,
    GovernanceError,
>)
    ensures
        command matches Commands::Init(a) ==> r is Ok && (r->Ok_0 matches InstructionPlan::Init(p)
            && p.chain_name_hash@ == spec_text_hash(a.governance_chain@) && p.address_hash@
            == spec_text_hash(a.governance_address@) && p.minimum_proposal_eta_delay
            == a.minimum_proposal_eta_delay && p.operator == a.operator && p.governance_chain
            == a.governance_chain && p.governance_address == a.governance_address && p.chain_id
            == config.chain_id),
        command matches Commands::ExecuteProposal(a) ==> (r is Ok <==> base64_decoded(
            a.base.calldata@,
        ) is Some) && (r matches Ok(plan) ==> plan matches InstructionPlan::ExecuteProposal(p)
            && spec_proposal_plan(a.base, p)),
        command matches Commands::ExecuteOperatorProposal(a) ==> (r is Ok <==> base64_decoded(
            a.base.calldata@,
        ) is Some) && (r matches Ok(plan) ==> plan
            matches InstructionPlan::ExecuteOperatorProposal(p, op) && spec_proposal_plan(
            a.base,
            p,
        ) && op == a.operator),
        r is Err ==> r->Err_0 == GovernanceError::InvalidCallData,
{
    match command {
        Commands::Init(args) => {
            let chain_name_hash = keccak256(args.governance_chain.as_str().as_bytes());
            let address_hash = keccak256(args.governance_address.as_str().as_bytes());
            Ok(
                InstructionPlan::Init(
                    InitPlan {
                        chain_name_hash,
                        address_hash,
                        minimum_proposal_eta_delay: args.minimum_proposal_eta_delay,
                        operator: args.operator,
                        governance_chain: args.governance_chain,
                        governance_address: args.governance_address,
                        chain_id: config.chain_id.clone(),
                    },
                ),
            )
        },
        Commands::ExecuteProposal(args) => {
            let call_data = decode_call_data(args.base.calldata.as_str())?;
            Ok(
                InstructionPlan::ExecuteProposal(
                    ProposalPlan {
                        target: args.base.target,
                        native_value: args.base.native_value,
                        call_data,
                        target_accounts: args.base.target_accounts,
                        native_value_receiver: args.base.native_value_receiver,
                        eta: 0u64,
                    },
                ),
            )
        },
        Commands::ExecuteOperatorProposal(args) => {
            let call_data = decode_call_data(args.base.calldata.as_str())?;
            Ok(
                InstructionPlan::ExecuteOperatorProposal(
                    ProposalPlan {
                        target: args.base.target,
                        native_value: args.base.native_value,
                        call_data,
                        target_accounts: args.base.target_accounts,
                        native_value_receiver: args.base.native_value_receiver,
                        eta: 0u64,
                    },
                    args.operator,
                ),
            )
        },
    }
}

} // verus!
