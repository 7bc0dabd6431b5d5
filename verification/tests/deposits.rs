//! The deposit ledger: checking deposit configurations, the refund
//! decision table for every policy and terminal status, and exactly-once
//! resolution.

use dao_pre_propose_base::error::{DenomError, DepositError, PreProposeError};
use dao_pre_propose_base::policy::PreProposeSubmissionPolicy;
use dao_pre_propose_base::state::{Config, DepositEntry, PreProposeContract};
use dao_pre_propose_base::types::{
    validate_native_denom, CheckedDenom, CheckedDepositInfo, ContractVersion, DepositRefundPolicy,
    OutboundMsg, Status, UncheckedDenom, UncheckedDepositInfo,
};

fn s(v: &str) -> String {
    v.to_string()
}

fn deposit(policy: DepositRefundPolicy) -> CheckedDepositInfo {
    // Built literally, as a snapshot already in the ledger; resolution does
    // not re-validate the denomination.
    CheckedDepositInfo { denom: CheckedDenom::Native(s("x")), amount: 100, refund_policy: policy }
}

fn contract_with_deposit(policy: DepositRefundPolicy, id: u64) -> PreProposeContract {
    PreProposeContract {
        proposal_module: s("proposal_module"),
        dao: s("dao"),
        config: Config {
            deposit_info: None,
            submission_policy: PreProposeSubmissionPolicy::Anyone { denylist: vec![] },
        },
        deposits: vec![DepositEntry {
            proposal_id: id,
            deposit_info: Some(deposit(policy)),
            proposer: s("proposer"),
        }],
        hooks: vec![],
        version: ContractVersion { contract: s("crates.io::dao-pre-propose-base"), version: s("2.7.0") },
    }
}

fn refund_recipient(policy: DepositRefundPolicy, status: Status) -> String {
    let mut c = contract_with_deposit(policy, 1);
    let msgs = c
        .execute_proposal_completed_hook(&s("proposal_module"), 1, status)
        .unwrap();
    assert_eq!(msgs.len(), 1);
    match &msgs[0] {
        OutboundMsg::Transfer { denom, recipient, amount } => {
            assert_eq!(*denom, CheckedDenom::Native(s("x")));
            assert_eq!(*amount, 100);
            recipient.clone()
        }
        other => panic!("unexpected message: {:?}", other),
    }
}

#[test]
fn refund_table_always() {
    assert_eq!(refund_recipient(DepositRefundPolicy::Always, Status::Executed), s("proposer"));
    assert_eq!(refund_recipient(DepositRefundPolicy::Always, Status::Closed), s("proposer"));
    assert_eq!(refund_recipient(DepositRefundPolicy::Always, Status::Vetoed), s("proposer"));
}

#[test]
fn refund_table_only_passed() {
    assert_eq!(
        refund_recipient(DepositRefundPolicy::OnlyPassed, Status::Executed),
        s("proposer")
    );
    assert_eq!(refund_recipient(DepositRefundPolicy::OnlyPassed, Status::Closed), s("dao"));
    assert_eq!(refund_recipient(DepositRefundPolicy::OnlyPassed, Status::Vetoed), s("dao"));
}

#[test]
fn refund_table_never() {
    assert_eq!(refund_recipient(DepositRefundPolicy::Never, Status::Executed), s("dao"));
    assert_eq!(refund_recipient(DepositRefundPolicy::Never, Status::Closed), s("dao"));
    assert_eq!(refund_recipient(DepositRefundPolicy::Never, Status::Vetoed), s("dao"));
}

#[test]
fn completion_requires_module_and_terminal_status() {
    let mut c = contract_with_deposit(DepositRefundPolicy::Always, 1);
    assert_eq!(
        c.execute_proposal_completed_hook(&s("mallory"), 1, Status::Closed),
        Err(PreProposeError::NotModule)
    );
    assert_eq!(
        c.execute_proposal_completed_hook(&s("proposal_module"), 1, Status::Open),
        Err(PreProposeError::NotCompleted { status: Status::Open })
    );
    assert_eq!(
        c.execute_proposal_completed_hook(&s("proposal_module"), 1, Status::Passed),
        Err(PreProposeError::NotCompleted { status: Status::Passed })
    );
    // The failed attempts changed nothing; the record is still there.
    assert_eq!(c.deposits.len(), 1);
}

#[test]
fn resolution_is_exactly_once() {
    let mut c = contract_with_deposit(DepositRefundPolicy::OnlyPassed, 7);
    let msgs = c
        .execute_proposal_completed_hook(&s("proposal_module"), 7, Status::Executed)
        .unwrap();
    assert_eq!(msgs.len(), 1);
    assert!(c.deposits.is_empty());
    // A second resolution of the same id transfers nothing.
    let msgs = c
        .execute_proposal_completed_hook(&s("proposal_module"), 7, Status::Executed)
        .unwrap();
    assert!(msgs.is_empty());
}

#[test]
fn resolving_unknown_id_is_a_no_op() {
    let mut c = contract_with_deposit(DepositRefundPolicy::Always, 1);
    let msgs = c
        .execute_proposal_completed_hook(&s("proposal_module"), 99, Status::Closed)
        .unwrap();
    assert!(msgs.is_empty());
    assert_eq!(c.deposits.len(), 1);
}

#[test]
fn record_without_deposit_resolves_without_transfer() {
    let mut c = contract_with_deposit(DepositRefundPolicy::Always, 1);
    c.deposits = vec![DepositEntry { proposal_id: 1, deposit_info: None, proposer: s("p") }];
    let msgs = c
        .execute_proposal_completed_hook(&s("proposal_module"), 1, Status::Vetoed)
        .unwrap();
    assert!(msgs.is_empty());
    assert!(c.deposits.is_empty());
}

#[test]
fn deposit_checking() {
    let zero = UncheckedDepositInfo {
        denom: UncheckedDenom::Native(s("ujuno")),
        amount: 0,
        refund_policy: DepositRefundPolicy::Always,
    };
    assert_eq!(zero.into_checked(true), Err(DepositError::ZeroDeposit));
    let bad_cw20 = UncheckedDepositInfo {
        denom: UncheckedDenom::Cw20(s("token")),
        amount: 5,
        refund_policy: DepositRefundPolicy::Always,
    };
    assert_eq!(
        bad_cw20.into_checked(false),
        Err(DepositError::Denom(DenomError::InvalidCw20))
    );
    let good_cw20 = UncheckedDepositInfo {
        denom: UncheckedDenom::Cw20(s("token")),
        amount: 5,
        refund_policy: DepositRefundPolicy::Never,
    };
    let checked = good_cw20.into_checked(true).unwrap();
    assert_eq!(checked.denom, CheckedDenom::Cw20(s("token")));
    assert_eq!(checked.amount, 5);
}

#[test]
fn native_denom_validation() {
    for valid in [
        "ujuno",
        "uosmo",
        "IBC/A59A9C955F1AB8B76671B00C1A0482C64A6590352944BB5880E5122358F7E1CE",
        "wasm.juno123/channel-1/badkids",
    ] {
        assert!(validate_native_denom(valid.to_string()).is_ok(), "{}", valid);
    }
    assert_eq!(
        validate_native_denom(s("ab")),
        Err(DenomError::NativeDenomLength { len: 2 })
    );
    assert_eq!(
        validate_native_denom("a".repeat(129)),
        Err(DenomError::NativeDenomLength { len: 129 })
    );
    assert_eq!(validate_native_denom(s("1abc")), Err(DenomError::NonAlphabeticAscii));
    assert_eq!(validate_native_denom(s("abc~d")), Err(DenomError::InvalidCharacter));
    assert_eq!(validate_native_denom(s("ab,cd")), Err(DenomError::InvalidCharacter));
    // Length is measured in bytes: a single four-byte character passes the
    // length gate and fails on the head character instead.
    assert_eq!(
        validate_native_denom(s("\u{1f975}")),
        Err(DenomError::NonAlphabeticAscii)
    );
    assert_eq!(
        validate_native_denom(s("\u{1f975}abc")),
        Err(DenomError::NonAlphabeticAscii)
    );
    assert_eq!(
        validate_native_denom(s("a\u{1f975}abc")),
        Err(DenomError::InvalidCharacter)
    );
    // One two-byte character still falls short of three bytes.
    assert_eq!(
        validate_native_denom(s("\u{e9}")),
        Err(DenomError::NativeDenomLength { len: 2 })
    );
    // Three bytes exactly: the length gate passes and the character check
    // rejects the non-ASCII tail.
    assert_eq!(
        validate_native_denom(s("a\u{e9}")),
        Err(DenomError::InvalidCharacter)
    );
}
