//! The gating contract orchestrator: submission, configuration, hook
//! lifecycle, deposit resolution and withdrawal, composed over the policy
//! engine and the deposit ledger.
//!
//! Every operation is a pure state transition. Read-only answers that the
//! host obtains from collaborators before the call (the DAO address, a
//! voting power, a token check, the next proposal id, a balance) are passed
//! in as arguments; outbound side effects are returned as [`OutboundMsg`]
//! values in the exact order they must be emitted.

use vstd::prelude::*;
use crate::error::{DenomError, PreProposeError, PreProposeSubmissionPolicyError};
use crate::policy::{
    add_all, apply_add_remove, apply_add_remove_spec, contains_addr, lemma_valid_views,
    list_contains, new_dao_members, opt_views, spec_valid_views, views_of,
    PreProposeSubmissionPolicy,
};
use crate::state::{
    clone_addrs, deposit_resolution_exactly_once, find_deposit, lemma_find_deposit_some,
    lemma_find_deposit_unique, spec_resolve_deposits, unique_ids, Config, DepositEntry,
    PreProposeContract,
};
use crate::types::{
    checked_matches, deposit_checks_out, refund_to_proposer, spec_check_native_deposit_paid,
    spec_native_denom_err, valid_native_denom, CheckedDenom, CheckedDepositInfo, Coin,
    ContractVersion, DepositRefundPolicy, OutboundMsg, Status, UncheckedDenom,
    UncheckedDepositInfo,
};
use crate::error::DepositError;
use crate::msg::{DepositInfoResponse, ExecuteMsg, HostAnswers, QueryMsg, QueryResponse};
use crate::state::policy_eq_views;

verus! {

/// The stored contract name.
pub fn contract_name() -> (s: String)
    ensures
        s@ == "crates.io::dao-pre-propose-base"@,
{
    String::from_str("crates.io::dao-pre-propose-base")
}

/// The version stored for this contract by instantiation and migration.
pub fn contract_version() -> (s: String)
    ensures
        s@ == "2.7.0"@,
{
    String::from_str("2.7.0")
}

/// Clone a byte payload, keeping its contents.
pub fn clone_bytes(v: &Vec<u8>) -> (r: Vec<u8>)
    ensures
        r@ == v@,
{
    let r = v.clone();
    proof {
        assert(r@ =~= v@);
    }
    r
}

/// The denomination a withdrawal resolves to: the given one after checking,
/// or, where none is given, the denomination of the configured deposit;
/// with no deposit configured either, no denomination can be determined.
pub open spec fn spec_withdrawal_denom(
    config: Config,
    denom: Option<UncheckedDenom>,
    cw20_token_ok: bool,
) -> Result<CheckedDenom, PreProposeError> {
    match denom {
        Some(UncheckedDenom::Native(n)) => if valid_native_denom(n@) {
            Ok(CheckedDenom::Native(n))
        } else {
            Err(PreProposeError::Denom(spec_native_denom_err(n@)))
        },
        Some(UncheckedDenom::Cw20(a)) => if cw20_token_ok {
            Ok(CheckedDenom::Cw20(a))
        } else {
            Err(PreProposeError::Denom(DenomError::InvalidCw20))
        },
        None => match config.deposit_info {
            Some(di) => Ok(di.denom),
            None => Err(PreProposeError::NoWithdrawalDenom),
        },
    }
}

/// Whether an optional deposit configuration passes checking.
pub open spec fn opt_deposit_checks_out(d: Option<UncheckedDepositInfo>, cw20_token_ok: bool) -> bool {
    match d {
        None => true,
        Some(di) => deposit_checks_out(di, cw20_token_ok),
    }
}

/// Whether an optional checked deposit is the image of an optional
/// unchecked one.
pub open spec fn opt_checked_matches(
    d: Option<UncheckedDepositInfo>,
    c: Option<CheckedDepositInfo>,
) -> bool {
    match (d, c) {
        (None, None) => true,
        (Some(di), Some(ci)) => checked_matches(di, ci) && ci.wf(),
        _ => false,
    }
}

/// Whether a submission by `sender` with the given funds and voting power
/// goes through: the policy authorizes the sender and a required native
/// deposit is exactly paid.
pub open spec fn spec_propose_ok(
    pre: PreProposeContract,
    sender: Seq<char>,
    power: u128,
    funds: Seq<Coin>,
) -> bool {
    &&& pre.config.submission_policy.spec_authorized(sender, power)
    &&& match pre.config.deposit_info {
        None => true,
        Some(di) => spec_check_native_deposit_paid(di, funds) is Ok,
    }
}

/// The state after a successful submission: the deposit configuration is
/// snapshotted into the ledger under the pre-bound proposal id, with the
/// sender as proposer; nothing else changes.
pub open spec fn spec_propose_post(
    pre: PreProposeContract,
    post: PreProposeContract,
    sender: String,
    next_proposal_id: u64,
) -> bool {
    &&& post.deposits@ == pre.deposits@.push(DepositEntry {
        proposal_id: next_proposal_id,
        deposit_info: pre.config.deposit_info,
        proposer: sender,
    })
    &&& post.proposal_module == pre.proposal_module
    &&& post.dao == pre.dao
    &&& post.config == pre.config
    &&& post.hooks == pre.hooks
    &&& post.version == pre.version
}

/// The outbound messages of a successful submission, in their mandatory
/// order: the proposal forwarded to the proposal module first, then one
/// notification per hook subscriber in registration order, each wrapping
/// the same payload, then the pull transfer collecting a contract-token
/// deposit where one is configured.
pub open spec fn spec_propose_msgs(
    pre: PreProposeContract,
    sender: Seq<char>,
    self_addr: Seq<char>,
    payload: Seq<u8>,
    msgs: Seq<OutboundMsg>,
) -> bool {
    let take = if pre.config.deposit_info matches Some(di) && di.denom is Cw20 {
        1int
    } else {
        0int
    };
    let nh = pre.hooks@.len() as int;
    &&& msgs.len() == 1 + nh + take
    &&& (msgs[0] matches OutboundMsg::Propose { contract_addr, payload: pl } && contract_addr@
        == pre.proposal_module@ && pl@ == payload)
    &&& forall|k: int| 0 <= k < nh ==> (#[trigger] msgs[1 + k] matches OutboundMsg::Notify {
        contract_addr,
        payload: pl,
    } && contract_addr@ == pre.hooks@[k]@ && pl@ == payload)
    &&& take == 1 ==> (msgs[1 + nh] matches OutboundMsg::TransferFrom {
        token,
        owner,
        recipient,
        amount,
    } && Some(token) == pre.config.deposit_info->Some_0.denom.cw20_addr() && owner@ == sender
        && recipient@ == self_addr && amount == pre.config.deposit_info->Some_0.amount)
}

/// Whether a submission-policy update applies cleanly to the active
/// policy: no field of the other variant is given, and no added address is
/// already on its list; for `Specific` the updated policy must also
/// re-validate.
pub open spec fn spec_update_policy_ok(
    p: PreProposeSubmissionPolicy,
    denylist_add: Option<Vec<String>>,
    denylist_remove: Option<Vec<String>>,
    set_dao_members: Option<bool>,
    allowlist_add: Option<Vec<String>>,
    allowlist_remove: Option<Vec<String>>,
) -> bool {
    match p {
        PreProposeSubmissionPolicy::Anyone { denylist } => {
            &&& set_dao_members is None
            &&& allowlist_add is None
            &&& allowlist_remove is None
            &&& add_all(views_of(denylist@), opt_views(denylist_add)) is Some
        },
        PreProposeSubmissionPolicy::Specific { dao_members, allowlist, denylist } => {
            &&& add_all(views_of(allowlist@), opt_views(allowlist_add)) is Some
            &&& add_all(views_of(denylist@), opt_views(denylist_add)) is Some
            &&& spec_valid_views(
                new_dao_members(set_dao_members, dao_members),
                apply_add_remove_spec(
                    views_of(allowlist@),
                    opt_views(allowlist_add),
                    opt_views(allowlist_remove),
                )->Some_0,
                apply_add_remove_spec(
                    views_of(denylist@),
                    opt_views(denylist_add),
                    opt_views(denylist_remove),
                )->Some_0,
            )
        },
    }
}

/// The policy after a successful submission-policy update: the same
/// variant, with the additions and removals applied to its lists and, for
/// `Specific`, the possibly replaced `dao_members` flag.
pub open spec fn spec_update_policy_post(
    p_old: PreProposeSubmissionPolicy,
    p_new: PreProposeSubmissionPolicy,
    denylist_add: Option<Vec<String>>,
    denylist_remove: Option<Vec<String>>,
    set_dao_members: Option<bool>,
    allowlist_add: Option<Vec<String>>,
    allowlist_remove: Option<Vec<String>>,
) -> bool {
    match p_old {
        PreProposeSubmissionPolicy::Anyone { denylist } => {
            &&& p_new is Anyone
            &&& Some(views_of(p_new->Anyone_denylist@)) == apply_add_remove_spec(
                views_of(denylist@),
                opt_views(denylist_add),
                opt_views(denylist_remove),
            )
        },
        PreProposeSubmissionPolicy::Specific { dao_members, allowlist, denylist } => {
            &&& p_new is Specific
            &&& p_new->Specific_dao_members == new_dao_members(set_dao_members, dao_members)
            &&& Some(views_of(p_new->Specific_allowlist@)) == apply_add_remove_spec(
                views_of(allowlist@),
                opt_views(allowlist_add),
                opt_views(allowlist_remove),
            )
            &&& Some(views_of(p_new->Specific_denylist@)) == apply_add_remove_spec(
                views_of(denylist@),
                opt_views(denylist_add),
                opt_views(denylist_remove),
            )
        },
    }
}

/// Which error a failing submission-policy update reports, given that the
/// sender is the DAO: cross-variant fields on `Anyone` first, then a
/// rejected duplicate addition (allowlist before denylist), then a policy
/// that no longer validates.
pub open spec fn spec_update_policy_err(
    p: PreProposeSubmissionPolicy,
    e: PreProposeError,
    denylist_add: Option<Vec<String>>,
    denylist_remove: Option<Vec<String>>,
    set_dao_members: Option<bool>,
    allowlist_add: Option<Vec<String>>,
    allowlist_remove: Option<Vec<String>>,
) -> bool {
    match e {
        PreProposeError::SubmissionPolicy(
            PreProposeSubmissionPolicyError::AnyoneInvalidUpdateFields,
        ) => {
            &&& p is Anyone
            &&& (set_dao_members is Some || allowlist_add is Some || allowlist_remove is Some)
        },
        PreProposeError::AlreadyInList => match p {
            PreProposeSubmissionPolicy::Anyone { denylist } => {
                &&& set_dao_members is None
                &&& allowlist_add is None
                &&& allowlist_remove is None
                &&& add_all(views_of(denylist@), opt_views(denylist_add)) is None
            },
            PreProposeSubmissionPolicy::Specific { allowlist, denylist, .. } => {
                add_all(views_of(allowlist@), opt_views(allowlist_add)) is None || (add_all(
                    views_of(allowlist@),
                    opt_views(allowlist_add),
                ) is Some && add_all(views_of(denylist@), opt_views(denylist_add)) is None)
            },
        },
        PreProposeError::SubmissionPolicy(_) => match p {
            PreProposeSubmissionPolicy::Anyone { .. } => false,
            PreProposeSubmissionPolicy::Specific { dao_members, allowlist, denylist } => {
                &&& add_all(views_of(allowlist@), opt_views(allowlist_add)) is Some
                &&& add_all(views_of(denylist@), opt_views(denylist_add)) is Some
                &&& !spec_valid_views(
                    new_dao_members(set_dao_members, dao_members),
                    apply_add_remove_spec(
                        views_of(allowlist@),
                        opt_views(allowlist_add),
                        opt_views(allowlist_remove),
                    )->Some_0,
                    apply_add_remove_spec(
                        views_of(denylist@),
                        opt_views(denylist_add),
                        opt_views(denylist_remove),
                    )->Some_0,
                )
            },
        },
        _ => false,
    }
}

/// The read-only `CanPropose` probe and the submission gate agree: for
/// one state, address and voting power, any answer of `can_propose` and
/// any outcome of `check_can_submit` are consistent — the probe answers
/// true exactly when the submission check passes.
pub proof fn query_and_submission_agree(
    c: &PreProposeContract,
    who: &String,
    power: u128,
    probe: bool,
    gate: Result<(), PreProposeError>,
)
    requires
        call_ensures(PreProposeContract::can_propose, (c, who, power), probe),
        call_ensures(PreProposeContract::check_can_submit, (c, who, power), gate),
    ensures
        probe == (gate is Ok),
{
}

impl PreProposeContract {
    /// Create the contract state at instantiation time. Whoever instantiates
    /// the contract is permanently recorded as the proposal module; the DAO
    /// address is the proposal module's answer to the host's query, resolved
    /// before this call. The deposit configuration is checked and the
    /// submission policy validated before anything is stored.
    pub fn instantiate(
        proposal_module: String,
        dao: String,
        deposit_info: Option<UncheckedDepositInfo>,
        cw20_token_ok: bool,
        submission_policy: PreProposeSubmissionPolicy,
    ) -> (r: Result<PreProposeContract, PreProposeError>)
        ensures
            r is Ok <==> opt_deposit_checks_out(deposit_info, cw20_token_ok)
                && submission_policy.spec_valid(),
            r matches Ok(c) ==> {
                &&& c.wf()
                &&& c.proposal_module == proposal_module
                &&& c.dao == dao
                &&& opt_checked_matches(deposit_info, c.config.deposit_info)
                &&& c.config.submission_policy == submission_policy
                &&& c.deposits@.len() == 0
                &&& c.hooks@.len() == 0
                &&& c.version.contract@ == "crates.io::dao-pre-propose-base"@
                &&& c.version.version@ == "2.7.0"@
            },
            r matches Err(e) ==> match e {
                PreProposeError::Deposit(_) => !opt_deposit_checks_out(deposit_info, cw20_token_ok),
                PreProposeError::SubmissionPolicy(_) => opt_deposit_checks_out(
                    deposit_info,
                    cw20_token_ok,
                ) && !submission_policy.spec_valid(),
                _ => false,
            },
    {
        let checked = match deposit_info {
            None => None,
            Some(di) => match di.into_checked(cw20_token_ok) {
                Ok(c) => Some(c),
                Err(e) => {
                    return Err(PreProposeError::Deposit(e));
                },
            },
        };
        if let Err(e) = submission_policy.validate() {
            return Err(PreProposeError::SubmissionPolicy(e));
        }
        Ok(PreProposeContract {
            proposal_module,
            dao,
            config: Config { deposit_info: checked, submission_policy },
            deposits: Vec::new(),
            hooks: Vec::new(),
            version: ContractVersion { contract: contract_name(), version: contract_version() },
        })
    }

    /// Decide whether `who` may submit a proposal under the stored policy.
    /// `power` is the voting-power oracle's answer for `who` at the current
    /// height; it is consulted only where the policy requires it.
    pub fn check_can_submit(&self, who: &String, power: u128) -> (r: Result<(), PreProposeError>)
        ensures
            r is Ok <==> self.config.submission_policy.spec_authorized(who@, power),
            r is Err ==> r == Err::<(), PreProposeError>(
                PreProposeError::SubmissionPolicy(PreProposeSubmissionPolicyError::Unauthorized),
            ),
    {
        self.config.submission_policy.authorize(who, power)
    }

    /// Answer the read-only `CanPropose` probe: the same decision as
    /// [`Self::check_can_submit`], with the policy's rejection downgraded to
    /// `false` instead of an error.
    pub fn can_propose(&self, address: &String, power: u128) -> (r: bool)
        ensures
            r == self.config.submission_policy.spec_authorized(address@, power),
    {
        match self.check_can_submit(address, power) {
            Ok(()) => true,
            Err(_) => false,
        }
    }

    /// Update the configuration singleton; only the DAO may do so. A given
    /// deposit configuration replaces the old one (also when absent: giving
    /// none clears it); a given submission policy replaces the old one,
    /// while an absent one keeps it.
    pub fn execute_update_config(
        &mut self,
        sender: &String,
        deposit_info: Option<UncheckedDepositInfo>,
        cw20_token_ok: bool,
        submission_policy: Option<PreProposeSubmissionPolicy>,
    ) -> (r: Result<(), PreProposeError>)
        requires
            old(self).wf(),
        ensures
            final(self).wf(),
            r is Err ==> *final(self) == *old(self),
            r is Ok <==> sender@ == old(self).dao@ && opt_deposit_checks_out(
                deposit_info,
                cw20_token_ok,
            ) && (match submission_policy {
                Some(p) => p.spec_valid(),
                None => true,
            }),
            r matches Err(e) ==> match e {
                PreProposeError::NotDao => sender@ != old(self).dao@,
                PreProposeError::Deposit(_) => sender@ == old(self).dao@
                    && !opt_deposit_checks_out(deposit_info, cw20_token_ok),
                PreProposeError::SubmissionPolicy(_) => sender@ == old(self).dao@
                    && opt_deposit_checks_out(deposit_info, cw20_token_ok) && (match submission_policy {
                    Some(p) => !p.spec_valid(),
                    None => false,
                }),
                _ => false,
            },
            r is Ok ==> {
                &&& opt_checked_matches(deposit_info, final(self).config.deposit_info)
                &&& match submission_policy {
                    Some(p) => final(self).config.submission_policy == p,
                    None => final(self).config.submission_policy == old(
                        self,
                    ).config.submission_policy,
                }
                &&& final(self).proposal_module == old(self).proposal_module
                &&& final(self).dao == old(self).dao
                &&& final(self).deposits == old(self).deposits
                &&& final(self).hooks == old(self).hooks
                &&& final(self).version == old(self).version
            },
    {
        if !sender.eq(&self.dao) {
            return Err(PreProposeError::NotDao);
        }
        let checked = match deposit_info {
            None => None,
            Some(di) => match di.into_checked(cw20_token_ok) {
                Ok(c) => Some(c),
                Err(e) => {
                    return Err(PreProposeError::Deposit(e));
                },
            },
        };
        if let Some(p) = &submission_policy {
            if let Err(e) = p.validate() {
                return Err(PreProposeError::SubmissionPolicy(e));
            }
        }
        self.config.deposit_info = checked;
        if let Some(p) = submission_policy {
            self.config.submission_policy = p;
        }
        Ok(())
    }

    /// Update the submission policy in place; only the DAO may do so. The
    /// given additions and removals are applied to the lists of the active
    /// policy variant; fields that only exist on the other variant are
    /// rejected. The updated policy must re-validate before it is stored.
    pub fn execute_update_submission_policy(
        &mut self,
        sender: &String,
        denylist_add: Option<Vec<String>>,
        denylist_remove: Option<Vec<String>>,
        set_dao_members: Option<bool>,
        allowlist_add: Option<Vec<String>>,
        allowlist_remove: Option<Vec<String>>,
    ) -> (r: Result<(), PreProposeError>)
        requires
            old(self).wf(),
        ensures
            final(self).wf(),
            r is Err ==> *final(self) == *old(self),
            r is Ok <==> sender@ == old(self).dao@ && spec_update_policy_ok(
                old(self).config.submission_policy,
                denylist_add,
                denylist_remove,
                set_dao_members,
                allowlist_add,
                allowlist_remove,
            ),
            sender@ != old(self).dao@ ==> r == Err::<(), PreProposeError>(PreProposeError::NotDao),
            r matches Err(e) ==> if e is NotDao {
                sender@ != old(self).dao@
            } else {
                sender@ == old(self).dao@ && spec_update_policy_err(
                    old(self).config.submission_policy,
                    e,
                    denylist_add,
                    denylist_remove,
                    set_dao_members,
                    allowlist_add,
                    allowlist_remove,
                )
            },
            r is Ok ==> {
                &&& final(self).proposal_module == old(self).proposal_module
                &&& final(self).dao == old(self).dao
                &&& final(self).config.deposit_info == old(self).config.deposit_info
                &&& final(self).deposits == old(self).deposits
                &&& final(self).hooks == old(self).hooks
                &&& final(self).version == old(self).version
                &&& spec_update_policy_post(
                    old(self).config.submission_policy,
                    final(self).config.submission_policy,
                    denylist_add,
                    denylist_remove,
                    set_dao_members,
                    allowlist_add,
                    allowlist_remove,
                )
            },
    {
        if !sender.eq(&self.dao) {
            return Err(PreProposeError::NotDao);
        }
        let candidate = match &self.config.submission_policy {
            PreProposeSubmissionPolicy::Anyone { denylist } => {
                if set_dao_members.is_some() || allowlist_add.is_some()
                    || allowlist_remove.is_some() {
                    return Err(PreProposeError::SubmissionPolicy(
                        PreProposeSubmissionPolicyError::AnyoneInvalidUpdateFields,
                    ));
                }
                let new_denylist = match apply_add_remove(
                    clone_addrs(denylist),
                    &denylist_add,
                    &denylist_remove,
                ) {
                    Ok(l) => l,
                    Err(e) => {
                        return Err(e);
                    },
                };
                PreProposeSubmissionPolicy::Anyone { denylist: new_denylist }
            },
            PreProposeSubmissionPolicy::Specific { dao_members, allowlist, denylist } => {
                let dm = match set_dao_members {
                    Some(b) => b,
                    None => *dao_members,
                };
                let new_allowlist = match apply_add_remove(
                    clone_addrs(allowlist),
                    &allowlist_add,
                    &allowlist_remove,
                ) {
                    Ok(l) => l,
                    Err(e) => {
                        return Err(e);
                    },
                };
                let new_denylist = match apply_add_remove(
                    clone_addrs(denylist),
                    &denylist_add,
                    &denylist_remove,
                ) {
                    Ok(l) => l,
                    Err(e) => {
                        return Err(e);
                    },
                };
                PreProposeSubmissionPolicy::Specific {
                    dao_members: dm,
                    allowlist: new_allowlist,
                    denylist: new_denylist,
                }
            },
        };
        proof {
            lemma_valid_views(candidate);
        }
        if let Err(e) = candidate.validate() {
            return Err(PreProposeError::SubmissionPolicy(e));
        }
        self.config.submission_policy = candidate;
        Ok(())
    }

    /// Gate a proposal submission. The sender must be authorized by the
    /// submission policy (`power` being the voting-power oracle's answer
    /// for the sender); a required native deposit must be exactly paid by
    /// the funds sent. On success the deposit is recorded in the ledger
    /// under `next_proposal_id`, the id the proposal module will assign
    /// next, and the outbound messages are returned in their mandatory
    /// order: first the proposal forwarded to the proposal module — before
    /// any hook message, so that no hook subscriber can slip a proposal in
    /// between and desynchronize the pre-bound id — then one notification
    /// per hook subscriber in registration order, then the pull transfer
    /// collecting a contract-token deposit, if one is configured.
    #[verifier::loop_isolation(false)]
    pub fn execute_propose(
        &mut self,
        sender: &String,
        funds: &Vec<Coin>,
        power: u128,
        next_proposal_id: u64,
        self_addr: &String,
        payload: &Vec<u8>,
    ) -> (r: Result<Vec<OutboundMsg>, PreProposeError>)
        requires
            old(self).wf(),
            !old(self).spec_has_deposit(next_proposal_id),
        ensures
            final(self).wf(),
            r is Err ==> *final(self) == *old(self),
            r is Ok <==> spec_propose_ok(*old(self), sender@, power, funds@),
            r matches Err(e) ==> match e {
                PreProposeError::SubmissionPolicy(
                    PreProposeSubmissionPolicyError::Unauthorized,
                ) => !old(self).config.submission_policy.spec_authorized(sender@, power),
                PreProposeError::Deposit(de) => {
                    &&& old(self).config.submission_policy.spec_authorized(sender@, power)
                    &&& old(self).config.deposit_info matches Some(di)
                        && spec_check_native_deposit_paid(di, funds@) == Err::<(), DepositError>(de)
                },
                _ => false,
            },
            r is Ok ==> spec_propose_post(*old(self), *final(self), *sender, next_proposal_id),
            r matches Ok(msgs) ==> spec_propose_msgs(
                *old(self),
                sender@,
                self_addr@,
                payload@,
                msgs@,
            ),
    {
        if let Err(e) = self.check_can_submit(sender, power) {
            return Err(e);
        }
        let take_msg: Option<OutboundMsg> = match &self.config.deposit_info {
            None => None,
            Some(di) => {
                if let Err(e) = di.check_native_deposit_paid(funds) {
                    return Err(PreProposeError::Deposit(e));
                }
                match &di.denom {
                    CheckedDenom::Native(_) => None,
                    CheckedDenom::Cw20(token) => Some(OutboundMsg::TransferFrom {
                        token: token.clone(),
                        owner: sender.clone(),
                        recipient: self_addr.clone(),
                        amount: di.amount,
                    }),
                }
            },
        };
        let snapshot = match &self.config.deposit_info {
            None => None,
            Some(di) => Some(di.clone()),
        };
        proof {
            lemma_find_deposit_some(self.deposits@, next_proposal_id);
        }
        self.deposits.push(DepositEntry {
            proposal_id: next_proposal_id,
            deposit_info: snapshot,
            proposer: sender.clone(),
        });
        let mut msgs: Vec<OutboundMsg> = Vec::new();
        msgs.push(OutboundMsg::Propose {
            contract_addr: self.proposal_module.clone(),
            payload: clone_bytes(payload),
        });
        let mut k: usize = 0;
        while k < self.hooks.len()
            invariant
                0 <= k <= self.hooks@.len(),
                msgs@.len() == 1 + k,
                (msgs@[0] matches OutboundMsg::Propose { contract_addr, payload: pl }
                    && contract_addr@ == old(self).proposal_module@ && pl@ == payload@),
                forall|j: int| 0 <= j < k ==> (#[trigger] msgs@[1 + j]
                    matches OutboundMsg::Notify { contract_addr, payload: pl }
                    && contract_addr@ == old(self).hooks@[j]@ && pl@ == payload@),
            decreases self.hooks@.len() - k,
        {
            msgs.push(OutboundMsg::Notify {
                contract_addr: self.hooks[k].clone(),
                payload: clone_bytes(payload),
            });
            k = k + 1;
        }
        if let Some(m) = take_msg {
            msgs.push(m);
        }
        proof {
            assert(unique_ids(self.deposits@)) by {
                assert(forall|a: int| 0 <= a < old(self).deposits@.len()
                    ==> #[trigger] self.deposits@[a] == old(self).deposits@[a]);
                assert(forall|a: int| 0 <= a < old(self).deposits@.len()
                    ==> (#[trigger] old(self).deposits@[a]).proposal_id != next_proposal_id);
            }
        }
        Ok(msgs)
    }

    /// Resolve the deposit of a completed proposal. Only the proposal
    /// module may report completion, and only with a terminal status;
    /// anything else is a protocol violation. The ledger entry recorded
    /// under the id is removed, and the deposited amount is sent to the
    /// recipient the refund table decides: the proposer where the policy
    /// refunds, the DAO otherwise. An id with no record is a benign no-op,
    /// which also makes a second resolution of the same id emit nothing.
    #[verifier::loop_isolation(false)]
    pub fn execute_proposal_completed_hook(
        &mut self,
        sender: &String,
        id: u64,
        new_status: Status,
    ) -> (r: Result<Vec<OutboundMsg>, PreProposeError>)
        requires
            old(self).wf(),
        ensures
            final(self).wf(),
            r is Err ==> *final(self) == *old(self),
            r is Ok <==> sender@ == old(self).proposal_module@ && new_status.spec_is_terminal(),
            r matches Err(e) ==> match e {
                PreProposeError::NotModule => sender@ != old(self).proposal_module@,
                PreProposeError::NotCompleted { status } => sender@ == old(
                    self,
                ).proposal_module@ && !new_status.spec_is_terminal() && status == new_status,
                _ => false,
            },
            r matches Ok(msgs) ==> {
                &&& final(self).deposits@ == spec_resolve_deposits(old(self).deposits@, id)
                &&& final(self).proposal_module == old(self).proposal_module
                &&& final(self).dao == old(self).dao
                &&& final(self).config == old(self).config
                &&& final(self).hooks == old(self).hooks
                &&& final(self).version == old(self).version
                &&& match find_deposit(old(self).deposits@, id) {
                    None => msgs@.len() == 0,
                    Some(entry) => match entry.deposit_info {
                        None => msgs@.len() == 0,
                        Some(di) => msgs@.len() == 1 && (msgs@[0] matches OutboundMsg::Transfer {
                            denom,
                            recipient,
                            amount,
                        } && denom == di.denom && amount == di.amount && recipient@ == (
                        if refund_to_proposer(di.refund_policy, new_status) {
                            entry.proposer@
                        } else {
                            old(self).dao@
                        })),
                    },
                }
            },
    {
        if !sender.eq(&self.proposal_module) {
            return Err(PreProposeError::NotModule);
        }
        if !new_status.is_terminal() {
            return Err(PreProposeError::NotCompleted { status: new_status });
        }
        let mut i: usize = 0;
        while i < self.deposits.len()
            invariant
                *self == *old(self),
                0 <= i <= self.deposits@.len(),
                forall|j: int| 0 <= j < i ==> (#[trigger] self.deposits@[j]).proposal_id != id,
            decreases self.deposits@.len() - i,
        {
            if self.deposits[i].proposal_id == id {
                proof {
                    lemma_find_deposit_unique(self.deposits@, i as int, id);
                    deposit_resolution_exactly_once(self.deposits@, id);
                }
                let entry = self.deposits.remove(i);
                proof {
                    assert(forall|a: int| 0 <= a < self.deposits@.len()
                        ==> #[trigger] self.deposits@[a] == (if a < i as int {
                        old(self).deposits@[a]
                    } else {
                        old(self).deposits@[a + 1]
                    }));
                }
                match entry.deposit_info {
                    None => {
                        return Ok(Vec::new());
                    },
                    Some(di) => {
                        let to_proposer = match (new_status, di.refund_policy) {
                            (Status::Executed, DepositRefundPolicy::OnlyPassed) => true,
                            (_, DepositRefundPolicy::OnlyPassed) => false,
                            (_, DepositRefundPolicy::Always) => true,
                            (_, DepositRefundPolicy::Never) => false,
                        };
                        let recipient = if to_proposer {
                            entry.proposer
                        } else {
                            self.dao.clone()
                        };
                        let mut msgs: Vec<OutboundMsg> = Vec::new();
                        msgs.push(OutboundMsg::Transfer {
                            denom: di.denom,
                            recipient,
                            amount: di.amount,
                        });
                        return Ok(msgs);
                    },
                }
            }
            i = i + 1;
        }
        proof {
            lemma_find_deposit_some(self.deposits@, id);
        }
        Ok(Vec::new())
    }

    /// The denomination a withdrawal drains: the given one, checked, or the
    /// configured deposit denomination where none is given.
    pub fn withdrawal_denom(&self, denom: Option<UncheckedDenom>, cw20_token_ok: bool) -> (r:
        Result<CheckedDenom, PreProposeError>)
        ensures
            r == spec_withdrawal_denom(self.config, denom, cw20_token_ok),
    {
        match denom {
            Some(UncheckedDenom::Native(n)) => match crate::types::validate_native_denom(n) {
                Ok(d) => Ok(d),
                Err(e) => Err(PreProposeError::Denom(e)),
            },
            Some(UncheckedDenom::Cw20(a)) => {
                if cw20_token_ok {
                    Ok(CheckedDenom::Cw20(a))
                } else {
                    Err(PreProposeError::Denom(crate::error::DenomError::InvalidCw20))
                }
            },
            None => match &self.config.deposit_info {
                Some(di) => Ok(di.denom.clone()),
                None => Err(PreProposeError::NoWithdrawalDenom),
            },
        }
    }

    /// Drain the contract's full balance of a denomination to the DAO; only
    /// the DAO may do so. `balance` is the host's answer to the balance
    /// query for the resolved denomination; a zero balance means there is
    /// nothing to withdraw.
    pub fn execute_withdraw(
        &self,
        sender: &String,
        denom: Option<UncheckedDenom>,
        cw20_token_ok: bool,
        balance: u128,
    ) -> (r: Result<OutboundMsg, PreProposeError>)
        requires
            self.wf(),
        ensures
            (sender@ != self.dao@) <==> r == Err::<OutboundMsg, PreProposeError>(
                PreProposeError::NotDao,
            ),
            sender@ == self.dao@ ==> match spec_withdrawal_denom(
                self.config,
                denom,
                cw20_token_ok,
            ) {
                Err(e) => r == Err::<OutboundMsg, PreProposeError>(e),
                Ok(d) => if balance == 0 {
                    r == Err::<OutboundMsg, PreProposeError>(PreProposeError::NothingToWithdraw)
                } else {
                    r matches Ok(m) && (m matches OutboundMsg::Transfer {
                        denom: md,
                        recipient,
                        amount,
                    } && md == d && recipient@ == self.dao@ && amount == balance)
                },
            },
    {
        if !sender.eq(&self.dao) {
            return Err(PreProposeError::NotDao);
        }
        let d = match self.withdrawal_denom(denom, cw20_token_ok) {
            Ok(d) => d,
            Err(e) => {
                return Err(e);
            },
        };
        if balance == 0 {
            return Err(PreProposeError::NothingToWithdraw);
        }
        Ok(OutboundMsg::Transfer { denom: d, recipient: self.dao.clone(), amount: balance })
    }

    /// Dispatch an inbound command to the corresponding operation. `host`
    /// carries the read-only collaborator answers the command may consult;
    /// the returned messages are the command's outbound side effects, in
    /// the order they must be emitted.
    pub fn execute(
        &mut self,
        sender: &String,
        funds: &Vec<Coin>,
        msg: ExecuteMsg,
        host: &HostAnswers,
    ) -> (r: Result<Vec<OutboundMsg>, PreProposeError>)
        requires
            old(self).wf(),
            msg is Propose ==> !old(self).spec_has_deposit(host.next_proposal_id),
        ensures
            final(self).wf(),
            r is Err ==> *final(self) == *old(self),
            msg matches ExecuteMsg::Propose { msg: payload } ==> {
                &&& (r is Ok <==> spec_propose_ok(*old(self), sender@, host.voting_power, funds@))
                &&& (r is Ok ==> spec_propose_post(
                    *old(self),
                    *final(self),
                    *sender,
                    host.next_proposal_id,
                ))
                &&& (r matches Ok(msgs) ==> spec_propose_msgs(
                    *old(self),
                    sender@,
                    host.self_addr@,
                    payload@,
                    msgs@,
                ))
                &&& (r matches Err(e) ==> match e {
                    PreProposeError::SubmissionPolicy(
                        PreProposeSubmissionPolicyError::Unauthorized,
                    ) => !old(self).config.submission_policy.spec_authorized(
                        sender@,
                        host.voting_power,
                    ),
                    PreProposeError::Deposit(de) => {
                        &&& old(self).config.submission_policy.spec_authorized(
                            sender@,
                            host.voting_power,
                        )
                        &&& old(self).config.deposit_info matches Some(di)
                            && spec_check_native_deposit_paid(di, funds@) == Err::<(),
                            DepositError,
                        >(de)
                    },
                    _ => false,
                })
            },
            msg matches ExecuteMsg::UpdateConfig { deposit_info, submission_policy } ==> {
                &&& (r is Ok <==> sender@ == old(self).dao@ && opt_deposit_checks_out(
                    deposit_info,
                    host.cw20_token_ok,
                ) && (match submission_policy {
                    Some(p) => p.spec_valid(),
                    None => true,
                }))
                &&& (r is Ok ==> opt_checked_matches(deposit_info, final(self).config.deposit_info)
                    && (match submission_policy {
                    Some(p) => final(self).config.submission_policy == p,
                    None => final(self).config.submission_policy == old(
                        self,
                    ).config.submission_policy,
                }) && final(self).deposits == old(self).deposits && final(self).hooks == old(
                    self,
                ).hooks)
                &&& (r matches Ok(msgs) ==> msgs@.len() == 0)
                &&& (r matches Err(e) ==> match e {
                    PreProposeError::NotDao => sender@ != old(self).dao@,
                    PreProposeError::Deposit(_) => sender@ == old(self).dao@
                        && !opt_deposit_checks_out(deposit_info, host.cw20_token_ok),
                    PreProposeError::SubmissionPolicy(_) => sender@ == old(self).dao@
                        && opt_deposit_checks_out(deposit_info, host.cw20_token_ok) && (match submission_policy {
                        Some(p) => !p.spec_valid(),
                        None => false,
                    }),
                    _ => false,
                })
            },
            msg matches ExecuteMsg::UpdateSubmissionPolicy {
                denylist_add,
                denylist_remove,
                set_dao_members,
                allowlist_add,
                allowlist_remove,
            } ==> {
                &&& (r is Ok <==> sender@ == old(self).dao@ && spec_update_policy_ok(
                    old(self).config.submission_policy,
                    denylist_add,
                    denylist_remove,
                    set_dao_members,
                    allowlist_add,
                    allowlist_remove,
                ))
                &&& (r is Ok ==> spec_update_policy_post(
                    old(self).config.submission_policy,
                    final(self).config.submission_policy,
                    denylist_add,
                    denylist_remove,
                    set_dao_members,
                    allowlist_add,
                    allowlist_remove,
                ) && final(self).config.deposit_info == old(self).config.deposit_info && final(self).deposits == old(self).deposits && final(self).hooks == old(self).hooks)
                &&& (r matches Ok(msgs) ==> msgs@.len() == 0)
                &&& (sender@ != old(self).dao@ ==> r == Err::<Vec<OutboundMsg>, PreProposeError>(
                    PreProposeError::NotDao,
                ))
                &&& (r matches Err(e) ==> if e is NotDao {
                    sender@ != old(self).dao@
                } else {
                    sender@ == old(self).dao@ && spec_update_policy_err(
                        old(self).config.submission_policy,
                        e,
                        denylist_add,
                        denylist_remove,
                        set_dao_members,
                        allowlist_add,
                        allowlist_remove,
                    )
                })
            },
            msg matches ExecuteMsg::Withdraw { denom } ==> {
                &&& *final(self) == *old(self)
                &&& ((sender@ != old(self).dao@) <==> r == Err::<Vec<OutboundMsg>,
                    PreProposeError,
                >(PreProposeError::NotDao))
                &&& (sender@ == old(self).dao@ ==> match spec_withdrawal_denom(
                    old(self).config,
                    denom,
                    host.cw20_token_ok,
                ) {
                    Err(e) => r == Err::<Vec<OutboundMsg>, PreProposeError>(e),
                    Ok(d) => if host.balance == 0 {
                        r == Err::<Vec<OutboundMsg>, PreProposeError>(
                            PreProposeError::NothingToWithdraw,
                        )
                    } else {
                        r matches Ok(msgs) && msgs@.len() == 1 && (msgs@[0]
                            matches OutboundMsg::Transfer { denom: md, recipient, amount } && md
                            == d && recipient@ == old(self).dao@ && amount == host.balance)
                    },
                })
            },
            msg matches ExecuteMsg::AddProposalSubmittedHook { address } ==> {
                &&& (r is Ok <==> sender@ == old(self).dao@ && !contains_addr(
                    old(self).hooks@,
                    address@,
                ))
                &&& (r is Ok ==> final(self).hooks@ == old(self).hooks@.push(address) && final(self).config == old(self).config && final(self).deposits == old(self).deposits)
                &&& (r matches Ok(msgs) ==> msgs@.len() == 0)
                &&& (r matches Err(e) ==> match e {
                    PreProposeError::NotDao => sender@ != old(self).dao@,
                    PreProposeError::HookAlreadyRegistered => sender@ == old(self).dao@
                        && contains_addr(old(self).hooks@, address@),
                    _ => false,
                })
            },
            msg matches ExecuteMsg::RemoveProposalSubmittedHook { address } ==> {
                &&& (r is Ok <==> sender@ == old(self).dao@)
                &&& (r is Ok ==> !contains_addr(final(self).hooks@, address@) && final(self).config
                    == old(self).config && final(self).deposits == old(self).deposits)
                &&& (r matches Ok(msgs) ==> msgs@.len() == 0)
                &&& (r is Err ==> r == Err::<Vec<OutboundMsg>, PreProposeError>(
                    PreProposeError::NotDao,
                ))
            },
            msg matches ExecuteMsg::ProposalCompletedHook { proposal_id, new_status } ==> {
                &&& (r is Ok <==> sender@ == old(self).proposal_module@
                    && new_status.spec_is_terminal())
                &&& (r is Ok ==> final(self).deposits@ == spec_resolve_deposits(
                    old(self).deposits@,
                    proposal_id,
                ) && final(self).config == old(self).config && final(self).hooks == old(
                    self,
                ).hooks)
                &&& (r matches Ok(msgs) ==> match find_deposit(old(self).deposits@, proposal_id) {
                    None => msgs@.len() == 0,
                    Some(entry) => match entry.deposit_info {
                        None => msgs@.len() == 0,
                        Some(di) => msgs@.len() == 1 && (msgs@[0] matches OutboundMsg::Transfer {
                            denom,
                            recipient,
                            amount,
                        } && denom == di.denom && amount == di.amount && recipient@ == (
                        if refund_to_proposer(di.refund_policy, new_status) {
                            entry.proposer@
                        } else {
                            old(self).dao@
                        })),
                    },
                })
                &&& (r matches Err(e) ==> match e {
                    PreProposeError::NotModule => sender@ != old(self).proposal_module@,
                    PreProposeError::NotCompleted { status } => sender@ == old(
                        self,
                    ).proposal_module@ && !new_status.spec_is_terminal() && status == new_status,
                    _ => false,
                })
            },
            msg is Extension ==> (r matches Ok(msgs) && msgs@.len() == 0 && *final(self) == *old(
                self,
            )),
    {
        match msg {
            ExecuteMsg::Propose { msg: payload } => self.execute_propose(
                sender,
                funds,
                host.voting_power,
                host.next_proposal_id,
                &host.self_addr,
                &payload,
            ),
            ExecuteMsg::UpdateConfig { deposit_info, submission_policy } => {
                match self.execute_update_config(
                    sender,
                    deposit_info,
                    host.cw20_token_ok,
                    submission_policy,
                ) {
                    Ok(()) => Ok(Vec::new()),
                    Err(e) => Err(e),
                }
            },
            ExecuteMsg::UpdateSubmissionPolicy {
                denylist_add,
                denylist_remove,
                set_dao_members,
                allowlist_add,
                allowlist_remove,
            } => {
                match self.execute_update_submission_policy(
                    sender,
                    denylist_add,
                    denylist_remove,
                    set_dao_members,
                    allowlist_add,
                    allowlist_remove,
                ) {
                    Ok(()) => Ok(Vec::new()),
                    Err(e) => Err(e),
                }
            },
            ExecuteMsg::Withdraw { denom } => {
                match self.execute_withdraw(sender, denom, host.cw20_token_ok, host.balance) {
                    Ok(m) => {
                        let mut msgs: Vec<OutboundMsg> = Vec::new();
                        msgs.push(m);
                        Ok(msgs)
                    },
                    Err(e) => Err(e),
                }
            },
            ExecuteMsg::AddProposalSubmittedHook { address } => {
                match self.execute_add_proposal_submitted_hook(sender, address) {
                    Ok(()) => Ok(Vec::new()),
                    Err(e) => Err(e),
                }
            },
            ExecuteMsg::RemoveProposalSubmittedHook { address } => {
                match self.execute_remove_proposal_submitted_hook(sender, &address) {
                    Ok(()) => Ok(Vec::new()),
                    Err(e) => Err(e),
                }
            },
            ExecuteMsg::ProposalCompletedHook { proposal_id, new_status } => self
                .execute_proposal_completed_hook(sender, proposal_id, new_status),
            ExecuteMsg::Extension {  } => Ok(Vec::new()),
        }
    }

    /// Answer an inbound query against the current state. `voting_power`
    /// is the oracle's answer for the asked-about address, consulted only
    /// by the `CanPropose` probe. The only failing query is `DepositInfo`
    /// for a proposal id with no record.
    #[verifier::loop_isolation(false)]
    pub fn query(&self, msg: QueryMsg, voting_power: u128) -> (r: Result<
        QueryResponse,
        PreProposeError,
    >)
        requires
            self.wf(),
        ensures
            msg is ProposalModule ==> (r matches Ok(QueryResponse::ProposalModule(a)) && a@
                == self.proposal_module@),
            msg is Dao ==> (r matches Ok(QueryResponse::Dao(a)) && a@ == self.dao@),
            msg is Info ==> (r matches Ok(QueryResponse::Info(v)) && v == self.version),
            msg is Config ==> (r matches Ok(QueryResponse::Config(c)) && c.deposit_info
                == self.config.deposit_info && policy_eq_views(
                c.submission_policy,
                self.config.submission_policy,
            )),
            msg matches QueryMsg::DepositInfo { proposal_id } ==> match find_deposit(
                self.deposits@,
                proposal_id,
            ) {
                Some(e) => r matches Ok(QueryResponse::DepositInfo(resp)) && resp.deposit_info
                    == e.deposit_info && resp.proposer@ == e.proposer@,
                None => r == Err::<QueryResponse, PreProposeError>(
                    PreProposeError::NoSuchDeposit { proposal_id },
                ),
            },
            msg matches QueryMsg::CanPropose { address } ==> r matches Ok(
                QueryResponse::CanPropose(b),
            ) && b == self.config.submission_policy.spec_authorized(address@, voting_power),
            msg is ProposalSubmittedHooks ==> (r matches Ok(
                QueryResponse::ProposalSubmittedHooks(h),
            ) && h@ == self.hooks@),
            msg is QueryExtension ==> r == Ok::<QueryResponse, PreProposeError>(
                QueryResponse::Extension {  },
            ),
    {
        match msg {
            QueryMsg::ProposalModule {  } => Ok(
                QueryResponse::ProposalModule(self.proposal_module.clone()),
            ),
            QueryMsg::Dao {  } => Ok(QueryResponse::Dao(self.dao.clone())),
            QueryMsg::Info {  } => Ok(QueryResponse::Info(self.version.clone())),
            QueryMsg::Config {  } => Ok(
                QueryResponse::Config(
                    Config {
                        deposit_info: match &self.config.deposit_info {
                            Some(di) => Some(di.clone()),
                            None => None,
                        },
                        submission_policy: self.config.submission_policy.duplicate(),
                    },
                ),
            ),
            QueryMsg::DepositInfo { proposal_id } => {
                let mut i: usize = 0;
                while i < self.deposits.len()
                    invariant
                        self.wf(),
                        0 <= i <= self.deposits@.len(),
                        forall|j: int| 0 <= j < i ==> (#[trigger] self.deposits@[j]).proposal_id
                            != proposal_id,
                    decreases self.deposits@.len() - i,
                {
                    if self.deposits[i].proposal_id == proposal_id {
                        proof {
                            lemma_find_deposit_unique(self.deposits@, i as int, proposal_id);
                        }
                        return Ok(QueryResponse::DepositInfo(DepositInfoResponse {
                            deposit_info: match &self.deposits[i].deposit_info {
                                Some(di) => Some(di.clone()),
                                None => None,
                            },
                            proposer: self.deposits[i].proposer.clone(),
                        }));
                    }
                    i = i + 1;
                }
                proof {
                    lemma_find_deposit_some(self.deposits@, proposal_id);
                }
                Err(PreProposeError::NoSuchDeposit { proposal_id })
            },
            QueryMsg::CanPropose { address } => Ok(
                QueryResponse::CanPropose(self.can_propose(&address, voting_power)),
            ),
            QueryMsg::ProposalSubmittedHooks {  } => Ok(
                QueryResponse::ProposalSubmittedHooks(clone_addrs(&self.hooks)),
            ),
            QueryMsg::QueryExtension {  } => Ok(QueryResponse::Extension {  }),
        }
    }

    /// Register a hook subscriber; only the DAO may do so. Adding an address
    /// that is already registered is rejected.
    pub fn execute_add_proposal_submitted_hook(
        &mut self,
        sender: &String,
        address: String,
    ) -> (r: Result<(), PreProposeError>)
        requires
            old(self).wf(),
        ensures
            final(self).wf(),
            r is Err ==> *final(self) == *old(self),
            r is Ok <==> sender@ == old(self).dao@ && !contains_addr(old(self).hooks@, address@),
            r matches Err(e) ==> match e {
                PreProposeError::NotDao => sender@ != old(self).dao@,
                PreProposeError::HookAlreadyRegistered => sender@ == old(self).dao@
                    && contains_addr(old(self).hooks@, address@),
                _ => false,
            },
            r is Ok ==> final(self).hooks@ == old(self).hooks@.push(address)
                && final(self).proposal_module == old(self).proposal_module
                && final(self).dao == old(self).dao
                && final(self).config == old(self).config
                && final(self).deposits == old(self).deposits
                && final(self).version == old(self).version,
    {
        if !sender.eq(&self.dao) {
            return Err(PreProposeError::NotDao);
        }
        if list_contains(&self.hooks, &address) {
            return Err(PreProposeError::HookAlreadyRegistered);
        }
        self.hooks.push(address);
        Ok(())
    }

    /// Deregister a hook subscriber; only the DAO may do so. Removing an
    /// address that is not registered changes nothing.
    pub fn execute_remove_proposal_submitted_hook(
        &mut self,
        sender: &String,
        address: &String,
    ) -> (r: Result<(), PreProposeError>)
        requires
            old(self).wf(),
        ensures
            final(self).wf(),
            r is Err ==> *final(self) == *old(self),
            r is Ok <==> sender@ == old(self).dao@,
            r is Err ==> r == Err::<(), PreProposeError>(PreProposeError::NotDao),
            r is Ok ==> {
                &&& !contains_addr(final(self).hooks@, address@)
                &&& (if contains_addr(old(self).hooks@, address@) {
                    exists|k: int|
                        0 <= k < old(self).hooks@.len() && (#[trigger] old(self).hooks@[k])@
                            == address@ && final(self).hooks@ == old(self).hooks@.remove(k)
                } else {
                    final(self).hooks == old(self).hooks
                })
                &&& final(self).proposal_module == old(self).proposal_module
                &&& final(self).dao == old(self).dao
                &&& final(self).config == old(self).config
                &&& final(self).deposits == old(self).deposits
                &&& final(self).version == old(self).version
            },
    {
        if !sender.eq(&self.dao) {
            return Err(PreProposeError::NotDao);
        }
        let mut i: usize = 0;
        while i < self.hooks.len()
            invariant
                old(self).wf(),
                *self == *old(self),
                sender@ == old(self).dao@,
                0 <= i <= self.hooks@.len(),
                forall|j: int| 0 <= j < i ==> (#[trigger] self.hooks@[j])@ != address@,
            decreases self.hooks@.len() - i,
        {
            if self.hooks[i].eq(address) {
                let ghost k = i as int;
                self.hooks.remove(i);
                proof {
                    assert(forall|a: int|
                        0 <= a < self.hooks@.len() ==> #[trigger] self.hooks@[a] == (if a < k {
                            old(self).hooks@[a]
                        } else {
                            old(self).hooks@[a + 1]
                        }));
                    assert(forall|a: int, b: int|
                        0 <= a < b < self.hooks@.len() ==> (#[trigger] self.hooks@[a])@
                            != (#[trigger] self.hooks@[b])@);
                    assert(forall|a: int|
                        0 <= a < self.hooks@.len() ==> (#[trigger] self.hooks@[a])@ != address@);
                }
                return Ok(());
            }
            i = i + 1;
        }
        Ok(())
    }
}

} // verus!
