//! Submission gating: policy evaluation, policy updates, hooks, and the
//! ordering of the messages a submission emits.

use dao_pre_propose_base::error::{
    DenomError, DepositError, PaymentError, PreProposeError, PreProposeSubmissionPolicyError,
};
use dao_pre_propose_base::msg::{ExecuteMsg, HostAnswers, QueryMsg, QueryResponse};
use dao_pre_propose_base::policy::PreProposeSubmissionPolicy;
use dao_pre_propose_base::state::{Config, PreProposeContract};
use dao_pre_propose_base::types::{
    CheckedDenom, Coin, ContractVersion, OutboundMsg, UncheckedDenom, UncheckedDepositInfo,
};

fn s(v: &str) -> String {
    v.to_string()
}

fn base_contract(policy: PreProposeSubmissionPolicy) -> PreProposeContract {
    PreProposeContract {
        proposal_module: s("proposal_module"),
        dao: s("dao"),
        config: Config { deposit_info: None, submission_policy: policy },
        deposits: vec![],
        hooks: vec![],
        version: ContractVersion { contract: s("crates.io::dao-pre-propose-base"), version: s("2.7.0") },
    }
}

#[test]
fn anyone_policy_authorizes_all_but_denylist() {
    let c = base_contract(PreProposeSubmissionPolicy::Anyone { denylist: vec![s("blocked")] });
    assert!(c.can_propose(&s("ekez"), 0));
    assert!(!c.can_propose(&s("blocked"), 0));
    assert_eq!(
        c.check_can_submit(&s("blocked"), 1_000_000),
        Err(PreProposeError::SubmissionPolicy(PreProposeSubmissionPolicyError::Unauthorized))
    );
}

#[test]
fn denylist_overrides_allowlist_and_power() {
    let c = base_contract(PreProposeSubmissionPolicy::Specific {
        dao_members: true,
        allowlist: vec![],
        denylist: vec![s("pariah")],
    });
    // Even with voting power, the denylisted address stays out.
    assert!(!c.can_propose(&s("pariah"), 1_000_000));
    assert!(c.can_propose(&s("member"), 1));
}

#[test]
fn dao_members_need_voting_power() {
    let c = base_contract(PreProposeSubmissionPolicy::Specific {
        dao_members: true,
        allowlist: vec![],
        denylist: vec![],
    });
    // No power: refused. After power is granted: allowed.
    assert!(!c.can_propose(&s("addr_a"), 0));
    assert!(c.check_can_submit(&s("addr_a"), 0).is_err());
    assert!(c.can_propose(&s("addr_a"), 7));
    assert!(c.check_can_submit(&s("addr_a"), 7).is_ok());
}

#[test]
fn allowlist_works_without_power() {
    let c = base_contract(PreProposeSubmissionPolicy::Specific {
        dao_members: false,
        allowlist: vec![s("vip")],
        denylist: vec![],
    });
    assert!(c.can_propose(&s("vip"), 0));
    assert!(!c.can_propose(&s("other"), 0));
}

#[test]
fn policy_validation() {
    let overlap = PreProposeSubmissionPolicy::Specific {
        dao_members: true,
        allowlist: vec![s("both")],
        denylist: vec![s("both")],
    };
    assert_eq!(
        overlap.validate(),
        Err(PreProposeSubmissionPolicyError::DenylistAllowlistOverlap)
    );
    let nobody = PreProposeSubmissionPolicy::Specific {
        dao_members: false,
        allowlist: vec![],
        denylist: vec![],
    };
    assert_eq!(nobody.validate(), Err(PreProposeSubmissionPolicyError::NoOneAllowed));
    let anyone = PreProposeSubmissionPolicy::Anyone { denylist: vec![] };
    assert!(anyone.validate().is_ok());
}

#[test]
fn update_policy_rejects_cross_variant_fields() {
    let mut c = base_contract(PreProposeSubmissionPolicy::Anyone { denylist: vec![] });
    let r = c.execute_update_submission_policy(
        &s("dao"),
        None,
        None,
        Some(true),
        None,
        None,
    );
    assert_eq!(
        r,
        Err(PreProposeError::SubmissionPolicy(
            PreProposeSubmissionPolicyError::AnyoneInvalidUpdateFields
        ))
    );
    // State unchanged: the policy is still `Anyone` with an empty denylist.
    assert_eq!(
        c.config.submission_policy,
        PreProposeSubmissionPolicy::Anyone { denylist: vec![] }
    );
}

#[test]
fn update_policy_applies_adds_and_removes() {
    let mut c = base_contract(PreProposeSubmissionPolicy::Specific {
        dao_members: false,
        allowlist: vec![s("alice")],
        denylist: vec![s("mallory")],
    });
    let r = c.execute_update_submission_policy(
        &s("dao"),
        Some(vec![s("trudy")]),
        Some(vec![s("mallory")]),
        Some(true),
        Some(vec![s("bob")]),
        Some(vec![s("alice")]),
    );
    assert!(r.is_ok());
    assert_eq!(
        c.config.submission_policy,
        PreProposeSubmissionPolicy::Specific {
            dao_members: true,
            allowlist: vec![s("bob")],
            denylist: vec![s("trudy")],
        }
    );
}

#[test]
fn update_policy_rejects_duplicate_add() {
    let mut c = base_contract(PreProposeSubmissionPolicy::Anyone { denylist: vec![s("x1")] });
    let r = c.execute_update_submission_policy(
        &s("dao"),
        Some(vec![s("x1")]),
        None,
        None,
        None,
        None,
    );
    assert_eq!(r, Err(PreProposeError::AlreadyInList));
}

#[test]
fn update_policy_dao_only() {
    let mut c = base_contract(PreProposeSubmissionPolicy::Anyone { denylist: vec![] });
    let r = c.execute_update_submission_policy(&s("mallory"), None, None, None, None, None);
    assert_eq!(r, Err(PreProposeError::NotDao));
}

#[test]
fn hooks_add_remove() {
    let mut c = base_contract(PreProposeSubmissionPolicy::Anyone { denylist: vec![] });
    assert_eq!(
        c.execute_add_proposal_submitted_hook(&s("mallory"), s("h1")),
        Err(PreProposeError::NotDao)
    );
    assert!(c.execute_add_proposal_submitted_hook(&s("dao"), s("h1")).is_ok());
    assert_eq!(
        c.execute_add_proposal_submitted_hook(&s("dao"), s("h1")),
        Err(PreProposeError::HookAlreadyRegistered)
    );
    assert!(c.execute_add_proposal_submitted_hook(&s("dao"), s("h2")).is_ok());
    assert_eq!(c.hooks, vec![s("h1"), s("h2")]);
    // Removing an absent hook is a no-op.
    assert!(c.execute_remove_proposal_submitted_hook(&s("dao"), &s("h3")).is_ok());
    assert_eq!(c.hooks, vec![s("h1"), s("h2")]);
    assert!(c.execute_remove_proposal_submitted_hook(&s("dao"), &s("h1")).is_ok());
    assert_eq!(c.hooks, vec![s("h2")]);
}

#[test]
fn propose_message_ordering_with_cw20_deposit() {
    let mut c = base_contract(PreProposeSubmissionPolicy::Anyone { denylist: vec![] });
    c.config.deposit_info = Some(
        UncheckedDepositInfo {
            denom: UncheckedDenom::Cw20(s("token")),
            amount: 25,
            refund_policy: dao_pre_propose_base::types::DepositRefundPolicy::Always,
        }
        .into_checked(true)
        .unwrap(),
    );
    c.hooks = vec![s("h1"), s("h2")];
    let msgs = c
        .execute_propose(&s("ekez"), &vec![], 0, 10, &s("pre_propose"), &vec![1, 2, 3])
        .unwrap();
    assert_eq!(msgs.len(), 4);
    assert_eq!(
        msgs[0],
        OutboundMsg::Propose { contract_addr: s("proposal_module"), payload: vec![1, 2, 3] }
    );
    assert_eq!(
        msgs[1],
        OutboundMsg::Notify { contract_addr: s("h1"), payload: vec![1, 2, 3] }
    );
    assert_eq!(
        msgs[2],
        OutboundMsg::Notify { contract_addr: s("h2"), payload: vec![1, 2, 3] }
    );
    assert_eq!(
        msgs[3],
        OutboundMsg::TransferFrom {
            token: s("token"),
            owner: s("ekez"),
            recipient: s("pre_propose"),
            amount: 25,
        }
    );
    // The deposit was recorded under the pre-bound id.
    assert_eq!(c.deposits.len(), 1);
    assert_eq!(c.deposits[0].proposal_id, 10);
    assert_eq!(c.deposits[0].proposer, s("ekez"));
}

#[test]
fn propose_requires_exact_native_deposit() {
    let mut c = base_contract(PreProposeSubmissionPolicy::Anyone { denylist: vec![] });
    c.config.deposit_info = Some(
        UncheckedDepositInfo {
            denom: UncheckedDenom::Native(s("ujuno")),
            amount: 100,
            refund_policy: dao_pre_propose_base::types::DepositRefundPolicy::Always,
        }
        .into_checked(false)
        .unwrap(),
    );
    // No funds at all.
    let r = c.execute_propose(&s("ekez"), &vec![], 0, 1, &s("me"), &vec![]);
    assert_eq!(
        r,
        Err(PreProposeError::Deposit(DepositError::Payment(PaymentError::NoFunds)))
    );
    // Wrong amount.
    let funds = vec![Coin { denom: s("ujuno"), amount: 99 }];
    let r = c.execute_propose(&s("ekez"), &funds, 0, 1, &s("me"), &vec![]);
    assert_eq!(
        r,
        Err(PreProposeError::Deposit(DepositError::InvalidDeposit { actual: 99, expected: 100 }))
    );
    // Wrong denomination.
    let funds = vec![Coin { denom: s("uatom"), amount: 100 }];
    let r = c.execute_propose(&s("ekez"), &funds, 0, 1, &s("me"), &vec![]);
    assert_eq!(
        r,
        Err(PreProposeError::Deposit(DepositError::Payment(PaymentError::MissingDenom)))
    );
    // Two denominations.
    let funds = vec![
        Coin { denom: s("ujuno"), amount: 100 },
        Coin { denom: s("uatom"), amount: 1 },
    ];
    let r = c.execute_propose(&s("ekez"), &funds, 0, 1, &s("me"), &vec![]);
    assert_eq!(
        r,
        Err(PreProposeError::Deposit(DepositError::Payment(PaymentError::MultipleDenoms)))
    );
    // Exact payment goes through; a native deposit is pushed, not pulled.
    let funds = vec![Coin { denom: s("ujuno"), amount: 100 }];
    let msgs = c.execute_propose(&s("ekez"), &funds, 0, 1, &s("me"), &vec![]).unwrap();
    assert_eq!(msgs.len(), 1);
    assert!(matches!(msgs[0], OutboundMsg::Propose { .. }));
}

#[test]
fn propose_unauthorized() {
    let mut c = base_contract(PreProposeSubmissionPolicy::Anyone { denylist: vec![s("bad")] });
    let r = c.execute_propose(&s("bad"), &vec![], 0, 1, &s("me"), &vec![]);
    assert_eq!(
        r,
        Err(PreProposeError::SubmissionPolicy(PreProposeSubmissionPolicyError::Unauthorized))
    );
    assert!(c.deposits.is_empty());
}

#[test]
fn instantiate_validates_and_binds() {
    let c = PreProposeContract::instantiate(
        s("proposal_module"),
        s("dao"),
        Some(UncheckedDepositInfo {
            denom: UncheckedDenom::Native(s("ujuno")),
            amount: 10,
            refund_policy: dao_pre_propose_base::types::DepositRefundPolicy::OnlyPassed,
        }),
        false,
        PreProposeSubmissionPolicy::Anyone { denylist: vec![] },
    )
    .unwrap();
    assert_eq!(c.proposal_module, s("proposal_module"));
    assert_eq!(c.dao, s("dao"));
    assert_eq!(c.version.version, s("2.7.0"));
    assert_eq!(c.version.contract, s("crates.io::dao-pre-propose-base"));
    let bad = PreProposeContract::instantiate(
        s("pm"),
        s("dao"),
        None,
        false,
        PreProposeSubmissionPolicy::Specific {
            dao_members: false,
            allowlist: vec![],
            denylist: vec![],
        },
    );
    assert_eq!(
        bad.unwrap_err(),
        PreProposeError::SubmissionPolicy(PreProposeSubmissionPolicyError::NoOneAllowed)
    );
}

#[test]
fn query_answers() {
    let mut c = base_contract(PreProposeSubmissionPolicy::Anyone { denylist: vec![] });
    c.hooks = vec![s("h1")];
    match c.query(QueryMsg::ProposalModule {}, 0).unwrap() {
        QueryResponse::ProposalModule(a) => assert_eq!(a, s("proposal_module")),
        other => panic!("unexpected response: {:?}", other),
    }
    match c.query(QueryMsg::Dao {}, 0).unwrap() {
        QueryResponse::Dao(a) => assert_eq!(a, s("dao")),
        other => panic!("unexpected response: {:?}", other),
    }
    match c.query(QueryMsg::Info {}, 0).unwrap() {
        QueryResponse::Info(v) => assert_eq!(v.version, s("2.7.0")),
        other => panic!("unexpected response: {:?}", other),
    }
    match c.query(QueryMsg::CanPropose { address: s("anyone") }, 0).unwrap() {
        QueryResponse::CanPropose(b) => assert!(b),
        other => panic!("unexpected response: {:?}", other),
    }
    match c.query(QueryMsg::ProposalSubmittedHooks {}, 0).unwrap() {
        QueryResponse::ProposalSubmittedHooks(h) => assert_eq!(h, vec![s("h1")]),
        other => panic!("unexpected response: {:?}", other),
    }
    assert_eq!(
        c.query(QueryMsg::DepositInfo { proposal_id: 9 }, 0),
        Err(PreProposeError::NoSuchDeposit { proposal_id: 9 })
    );
}

#[test]
fn execute_dispatch() {
    let mut c = base_contract(PreProposeSubmissionPolicy::Anyone { denylist: vec![] });
    let host = HostAnswers {
        self_addr: s("me"),
        voting_power: 0,
        next_proposal_id: 1,
        cw20_token_ok: false,
        balance: 0,
    };
    let msgs = c
        .execute(&s("ekez"), &vec![], ExecuteMsg::Extension {}, &host)
        .unwrap();
    assert!(msgs.is_empty());
    let msgs = c
        .execute(&s("ekez"), &vec![], ExecuteMsg::Propose { msg: vec![7] }, &host)
        .unwrap();
    assert_eq!(
        msgs[0],
        OutboundMsg::Propose { contract_addr: s("proposal_module"), payload: vec![7] }
    );
    let r = c.execute(
        &s("ekez"),
        &vec![],
        ExecuteMsg::Withdraw { denom: None },
        &host,
    );
    assert_eq!(r, Err(PreProposeError::NotDao));
    // The dispatcher hands back exactly the handler's error.
    let r = c.execute(
        &s("ekez"),
        &vec![],
        ExecuteMsg::ProposalCompletedHook {
            proposal_id: 1,
            new_status: dao_pre_propose_base::types::Status::Closed,
        },
        &host,
    );
    assert_eq!(r, Err(PreProposeError::NotModule));
    let r = c.execute(
        &s("ekez"),
        &vec![],
        ExecuteMsg::UpdateConfig { deposit_info: None, submission_policy: None },
        &host,
    );
    assert_eq!(r, Err(PreProposeError::NotDao));
}

#[test]
fn withdraw_drains_to_dao() {
    let c = base_contract(PreProposeSubmissionPolicy::Anyone { denylist: vec![] });
    // No denomination given and none configured.
    assert_eq!(
        c.execute_withdraw(&s("dao"), None, false, 0),
        Err(PreProposeError::NoWithdrawalDenom)
    );
    // Zero balance: nothing to withdraw.
    assert_eq!(
        c.execute_withdraw(&s("dao"), Some(UncheckedDenom::Native(s("ujuno"))), false, 0),
        Err(PreProposeError::NothingToWithdraw)
    );
    // A balance arrives: the full amount drains to the DAO.
    let m = c
        .execute_withdraw(&s("dao"), Some(UncheckedDenom::Native(s("ujuno"))), false, 350)
        .unwrap();
    assert_eq!(
        m,
        OutboundMsg::Transfer {
            denom: CheckedDenom::Native(s("ujuno")),
            recipient: s("dao"),
            amount: 350,
        }
    );
    // Not the DAO: refused.
    assert_eq!(
        c.execute_withdraw(&s("mallory"), Some(UncheckedDenom::Native(s("ujuno"))), false, 350),
        Err(PreProposeError::NotDao)
    );
    // A malformed native denomination is rejected before the balance counts.
    assert_eq!(
        c.execute_withdraw(&s("dao"), Some(UncheckedDenom::Native(s("no"))), false, 350),
        Err(PreProposeError::Denom(DenomError::NativeDenomLength { len: 2 }))
    );
    // A contract token that did not check out is rejected too.
    assert_eq!(
        c.execute_withdraw(&s("dao"), Some(UncheckedDenom::Cw20(s("token"))), false, 350),
        Err(PreProposeError::Denom(DenomError::InvalidCw20))
    );
    // With a deposit configured, its denomination is the default.
    let mut c = c;
    c.config.deposit_info = Some(
        UncheckedDepositInfo {
            denom: UncheckedDenom::Native(s("ujuno")),
            amount: 10,
            refund_policy: dao_pre_propose_base::types::DepositRefundPolicy::Always,
        }
        .into_checked(false)
        .unwrap(),
    );
    let m = c.execute_withdraw(&s("dao"), None, false, 5).unwrap();
    assert_eq!(
        m,
        OutboundMsg::Transfer {
            denom: CheckedDenom::Native(s("ujuno")),
            recipient: s("dao"),
            amount: 5,
        }
    );
}
