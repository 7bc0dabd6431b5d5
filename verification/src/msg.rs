//! The message shapes of the contract's external interface: inbound
//! commands and queries, query responses, and the answers the host gathers
//! from collaborators before dispatching a command.

use vstd::prelude::*;
use crate::policy::PreProposeSubmissionPolicy;
use crate::state::Config;
use crate::types::{
    CheckedDepositInfo, ContractVersion, Status, UncheckedDenom, UncheckedDepositInfo,
};

verus! {

/// An inbound command, from the proposal module, the DAO, or a proposer.
#[derive(Debug, PartialEq, Eq)]
pub enum ExecuteMsg {
    /// Submit a proposal; the payload is the serialized proposal message,
    /// forwarded opaquely to the proposal module.
    Propose { msg: Vec<u8> },
    /// Replace the configuration singleton.
    UpdateConfig {
        deposit_info: Option<UncheckedDepositInfo>,
        submission_policy: Option<PreProposeSubmissionPolicy>,
    },
    /// Update the submission policy in place.
    UpdateSubmissionPolicy {
        denylist_add: Option<Vec<String>>,
        denylist_remove: Option<Vec<String>>,
        set_dao_members: Option<bool>,
        allowlist_add: Option<Vec<String>>,
        allowlist_remove: Option<Vec<String>>,
    },
    /// Drain the contract's balance of a denomination to the DAO.
    Withdraw { denom: Option<UncheckedDenom> },
    /// Register a hook subscriber.
    AddProposalSubmittedHook { address: String },
    /// Deregister a hook subscriber.
    RemoveProposalSubmittedHook { address: String },
    /// The proposal module reports a proposal as completed.
    ProposalCompletedHook { proposal_id: u64, new_status: Status },
    /// The closed extension point of this deployment; nothing to do.
    Extension {},
}

/// An inbound query.
#[derive(Debug, PartialEq, Eq)]
pub enum QueryMsg {
    /// The address of the proposal module this contract gates.
    ProposalModule {},
    /// The address of the DAO.
    Dao {},
    /// The stored contract name and version.
    Info {},
    /// The configuration singleton.
    Config {},
    /// The deposit recorded under a proposal id.
    DepositInfo { proposal_id: u64 },
    /// Whether an address may submit a proposal now.
    CanPropose { address: String },
    /// The registered hook subscribers, in registration order.
    ProposalSubmittedHooks {},
    /// The closed extension point of this deployment; answered empty.
    QueryExtension {},
}

/// The deposit recorded under a proposal id, and who deposited it.
#[derive(Debug, PartialEq, Eq)]
pub struct DepositInfoResponse {
    /// The deposit snapshot taken at submission time, if any.
    pub deposit_info: Option<CheckedDepositInfo>,
    /// The address that submitted the proposal.
    pub proposer: String,
}

/// The answer to a query.
#[derive(Debug, PartialEq, Eq)]
pub enum QueryResponse {
    /// The proposal module's address.
    ProposalModule(String),
    /// The DAO's address.
    Dao(String),
    /// The stored contract name and version.
    Info(ContractVersion),
    /// The configuration singleton.
    Config(Config),
    /// A ledger entry.
    DepositInfo(DepositInfoResponse),
    /// Whether the asked-about address may submit now.
    CanPropose(bool),
    /// The hook subscribers, in registration order.
    ProposalSubmittedHooks(Vec<String>),
    /// The empty answer of the extension point.
    Extension {},
}

/// A migration request.
#[derive(Debug, PartialEq, Eq)]
pub enum MigrateMsg {
    /// Migrate from a release below 2.5.0, optionally replacing the
    /// converted submission policy; the legacy configuration itself is
    /// read from storage by the host.
    FromUnderV250 { policy: Option<PreProposeSubmissionPolicy> },
    /// The closed extension point of this deployment; not implemented.
    Extension {},
}

/// The read-only answers the host gathers from collaborators before
/// dispatching a command: each is consulted only by the commands that need
/// it.
#[derive(Debug, PartialEq, Eq)]
pub struct HostAnswers {
    /// This contract's own address.
    pub self_addr: String,
    /// The voting-power oracle's answer for the sender.
    pub voting_power: u128,
    /// The proposal module's next proposal id.
    pub next_proposal_id: u64,
    /// Whether a given contract-token denomination checked out.
    pub cw20_token_ok: bool,
    /// The contract's balance of the denomination to withdraw.
    pub balance: u128,
}

} // verus!
