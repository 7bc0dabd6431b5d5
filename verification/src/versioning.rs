//! Versioned migration: a semantic-version gate over the stored contract
//! version, and the conversion of the legacy configuration shape — a
//! single "open submission" flag and an older checked-denomination
//! representation — into the current policy and denomination shapes.

use vstd::prelude::*;
use crate::error::{PreProposeError, PreProposeSubmissionPolicyError};
use crate::policy::PreProposeSubmissionPolicy;
use crate::state::Config;
use crate::types::{
    valid_native_denom, CheckedDenom, CheckedDepositInfo, ContractVersion, DepositRefundPolicy,
};
use crate::execute::{contract_name, contract_version};
use crate::msg::MigrateMsg;

verus! {

/// What `semver::Version::parse` extracts from a version string: the
/// major, minor and patch numbers and whether the pre-release component is
/// empty; or nothing, for a string that is not a valid semantic version.
pub uninterp spec fn parsed_version(s: Seq<char>) -> Option<(u64, u64, u64, bool)>;

/// Relies on `semver::Version::parse`: the result is a function of the
/// string alone. The triple is the parsed major, minor and patch numbers;
/// the flag reports an empty pre-release component.
#[verifier::external_body]
fn parse_version(s: &str) -> (r: Option<(u64, u64, u64, bool)>)
    ensures
        r == parsed_version(s@),
{
    match semver::Version::parse(s) {
        Ok(v) => Some((v.major, v.minor, v.patch, v.pre.is_empty())),
        Err(_) => None,
    }
}

/// The supported migration source range: releases from 2.4.1 inclusive up
/// to 2.5.0 exclusive. A pre-release version satisfies neither plain
/// comparator and is outside the range.
pub open spec fn spec_version_in_migration_range(v: (u64, u64, u64, bool)) -> bool {
    &&& v.3
    &&& (v.0 > 2 || (v.0 == 2 && (v.1 > 4 || (v.1 == 4 && v.2 >= 1))))
    &&& (v.0 < 2 || (v.0 == 2 && v.1 < 5))
}

/// Whether a parsed version lies in the supported migration source range.
pub fn version_in_migration_range(v: (u64, u64, u64, bool)) -> (r: bool)
    ensures
        r == spec_version_in_migration_range(v),
{
    v.3 && (v.0 > 2 || (v.0 == 2 && (v.1 > 4 || (v.1 == 4 && v.2 >= 1)))) && (v.0 < 2 || (v.0 == 2
        && v.1 < 5))
}

/// The legacy checked denomination shape.
#[derive(Debug, PartialEq, Eq)]
pub enum CheckedDenomV241 {
    /// A native (bank module) asset.
    Native(String),
    /// A contract-token asset.
    Cw20(String),
}

/// The legacy refund policy shape.
#[derive(Clone, Copy, Debug, PartialEq, Eq)]
pub enum DepositRefundPolicyV241 {
    /// Deposits are always refunded.
    Always,
    /// Deposits are refunded only for passed proposals.
    OnlyPassed,
    /// Deposits are never refunded.
    Never,
}

/// The legacy checked deposit configuration shape.
#[derive(Debug, PartialEq, Eq)]
pub struct CheckedDepositInfoV241 {
    /// The asset deposits were collected in.
    pub denom: CheckedDenomV241,
    /// The required deposit amount; positive by the legacy invariant.
    pub amount: u128,
    /// What happened to deposits on resolution.
    pub refund_policy: DepositRefundPolicyV241,
}

/// The legacy configuration singleton, as stored under its key by releases
/// in the supported range: a deposit and a single boolean "open proposal
/// submission" flag in place of a submission policy.
#[derive(Debug, PartialEq, Eq)]
pub struct ConfigV241 {
    /// The deposit required to submit a proposal, if any.
    pub deposit_info: Option<CheckedDepositInfoV241>,
    /// Whether any address might submit (otherwise: DAO members only).
    pub open_proposal_submission: bool,
}

impl CheckedDepositInfoV241 {
    /// The legacy invariant: a positive amount and a valid denomination,
    /// established by the legacy checking on the way into storage.
    pub open spec fn wf(self) -> bool {
        &&& self.amount > 0
        &&& match self.denom {
            CheckedDenomV241::Native(d) => valid_native_denom(d@),
            CheckedDenomV241::Cw20(_) => true,
        }
    }
}

impl ConfigV241 {
    /// The legacy invariant on the whole configuration.
    pub open spec fn wf(self) -> bool {
        match self.deposit_info {
            Some(d) => d.wf(),
            None => true,
        }
    }
}

/// The current image of a legacy denomination.
pub open spec fn spec_convert_denom(d: CheckedDenomV241) -> CheckedDenom {
    match d {
        CheckedDenomV241::Native(n) => CheckedDenom::Native(n),
        CheckedDenomV241::Cw20(a) => CheckedDenom::Cw20(a),
    }
}

/// The current image of a legacy refund policy.
pub open spec fn spec_convert_refund_policy(p: DepositRefundPolicyV241) -> DepositRefundPolicy {
    match p {
        DepositRefundPolicyV241::Always => DepositRefundPolicy::Always,
        DepositRefundPolicyV241::OnlyPassed => DepositRefundPolicy::OnlyPassed,
        DepositRefundPolicyV241::Never => DepositRefundPolicy::Never,
    }
}

/// The current image of a legacy deposit configuration.
pub open spec fn spec_convert_deposit(d: CheckedDepositInfoV241) -> CheckedDepositInfo {
    CheckedDepositInfo {
        denom: spec_convert_denom(d.denom),
        amount: d.amount,
        refund_policy: spec_convert_refund_policy(d.refund_policy),
    }
}

/// The submission policy a legacy "open proposal submission" flag converts
/// to: everyone, or DAO members only, in each case with empty lists.
pub open spec fn spec_policy_of_flag(
    open_proposal_submission: bool,
    p: PreProposeSubmissionPolicy,
) -> bool {
    if open_proposal_submission {
        p matches PreProposeSubmissionPolicy::Anyone { denylist } && denylist@.len() == 0
    } else {
        p matches PreProposeSubmissionPolicy::Specific { dao_members, allowlist, denylist }
            && dao_members == true && allowlist@.len() == 0 && denylist@.len() == 0
    }
}

/// The full contract of a migration from a release below 2.5.0, relating
/// the stored version, the legacy configuration and the optional
/// replacement policy to the outcome.
pub open spec fn spec_migrate_conditions(
    stored_version: ContractVersion,
    old_config: ConfigV241,
    policy: Option<PreProposeSubmissionPolicy>,
    r: Result<(Config, ContractVersion), PreProposeError>,
) -> bool {
    &&& (r is Ok <==> (parsed_version(stored_version.version@) matches Some(v)
        && spec_version_in_migration_range(v)) && (match policy {
        Some(p) => p.spec_valid(),
        None => true,
    }))
    &&& (r matches Err(e) ==> match e {
        PreProposeError::CannotMigrateVersion { required, actual } => {
            &&& !(parsed_version(stored_version.version@) matches Some(v)
                && spec_version_in_migration_range(v))
            &&& required@ == ">=2.4.1, <2.5.0"@
            &&& actual@ == stored_version.version@
        },
        PreProposeError::SubmissionPolicy(pe) => {
            &&& (parsed_version(stored_version.version@) matches Some(v)
                && spec_version_in_migration_range(v))
            &&& policy matches Some(p) && !p.spec_valid()
            &&& pe != PreProposeSubmissionPolicyError::Unauthorized
        },
        _ => false,
    })
    &&& (r matches Ok((config, version)) ==> {
        &&& config.wf()
        &&& (match (old_config.deposit_info, config.deposit_info) {
            (None, None) => true,
            (Some(od), Some(nd)) => nd == spec_convert_deposit(od),
            _ => false,
        })
        &&& (match policy {
            Some(p) => config.submission_policy == p,
            None => spec_policy_of_flag(
                old_config.open_proposal_submission,
                config.submission_policy,
            ),
        })
        &&& version.contract@ == "crates.io::dao-pre-propose-base"@
        &&& version.version@ == "2.7.0"@
    })
}

impl crate::state::PreProposeContract {
    /// Handle a migration request. The extension variant is not
    /// implemented; the versioned variant is delegated to
    /// [`Self::migrate_from_under_v250`].
    pub fn migrate(
        stored_version: &ContractVersion,
        old_config: ConfigV241,
        msg: MigrateMsg,
    ) -> (r: Result<(Config, ContractVersion), PreProposeError>)
        requires
            old_config.wf(),
        ensures
            msg is Extension ==> r == Err::<(Config, ContractVersion), PreProposeError>(
                PreProposeError::Unimplemented,
            ),
            msg matches MigrateMsg::FromUnderV250 { policy } ==> spec_migrate_conditions(
                *stored_version,
                old_config,
                policy,
                r,
            ),
    {
        let policy = match msg {
            MigrateMsg::Extension {  } => {
                return Err(PreProposeError::Unimplemented);
            },
            MigrateMsg::FromUnderV250 { policy } => policy,
        };
        Self::migrate_from_under_v250(stored_version, old_config, policy)
    }

    /// Migrate a legacy configuration to the current shape. The stored
    /// contract version must parse as a semantic version inside the
    /// supported source range. Where a replacement policy is given it is
    /// validated and used; otherwise the legacy flag converts to "anyone
    /// may submit" when open, and to "DAO members may submit" when not.
    /// Returns the configuration and the contract version to store.
    pub fn migrate_from_under_v250(
        stored_version: &ContractVersion,
        old_config: ConfigV241,
        policy: Option<PreProposeSubmissionPolicy>,
    ) -> (r: Result<(Config, ContractVersion), PreProposeError>)
        requires
            old_config.wf(),
        ensures
            spec_migrate_conditions(*stored_version, old_config, policy, r),
    {
        let in_range = match parse_version(stored_version.version.as_str()) {
            Some(v) => version_in_migration_range(v),
            None => false,
        };
        if !in_range {
            return Err(PreProposeError::CannotMigrateVersion {
                required: String::from_str(">=2.4.1, <2.5.0"),
                actual: stored_version.version.clone(),
            });
        }
        let submission_policy = match policy {
            Some(p) => {
                if let Err(e) = p.validate() {
                    return Err(PreProposeError::SubmissionPolicy(e));
                }
                p
            },
            None => {
                if old_config.open_proposal_submission {
                    PreProposeSubmissionPolicy::Anyone { denylist: Vec::new() }
                } else {
                    PreProposeSubmissionPolicy::Specific {
                        dao_members: true,
                        allowlist: Vec::new(),
                        denylist: Vec::new(),
                    }
                }
            },
        };
        let deposit_info = match old_config.deposit_info {
            None => None,
            Some(od) => Some(CheckedDepositInfo {
                denom: match od.denom {
                    CheckedDenomV241::Native(n) => CheckedDenom::Native(n),
                    CheckedDenomV241::Cw20(a) => CheckedDenom::Cw20(a),
                },
                amount: od.amount,
                refund_policy: match od.refund_policy {
                    DepositRefundPolicyV241::Always => DepositRefundPolicy::Always,
                    DepositRefundPolicyV241::OnlyPassed => DepositRefundPolicy::OnlyPassed,
                    DepositRefundPolicyV241::Never => DepositRefundPolicy::Never,
                },
            }),
        };
        Ok((
            Config { deposit_info, submission_policy },
            ContractVersion { contract: contract_name(), version: contract_version() },
        ))
    }
}

} // verus!
