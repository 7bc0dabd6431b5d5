//! Versioned migration: the semantic-version gate and the conversion of
//! the legacy configuration shape, and the fan-token registry's decisions.

use dao_pre_propose_base::error::{
    PreProposeError, PreProposeSubmissionPolicyError,
};
use dao_pre_propose_base::fantoken::{
    FanTokenError, FanTokenMsg, FanTokenResponse, StargateKeeper,
};
use dao_pre_propose_base::msg::MigrateMsg;
use dao_pre_propose_base::policy::PreProposeSubmissionPolicy;
use dao_pre_propose_base::state::PreProposeContract;
use dao_pre_propose_base::types::{CheckedDenom, ContractVersion, DepositRefundPolicy};
use dao_pre_propose_base::versioning::{
    CheckedDenomV241, CheckedDepositInfoV241, ConfigV241, DepositRefundPolicyV241,
};

fn s(v: &str) -> String {
    v.to_string()
}

fn stored(version: &str) -> ContractVersion {
    ContractVersion { contract: s("crates.io::dao-pre-propose-base"), version: s(version) }
}

fn legacy_open(open: bool) -> ConfigV241 {
    ConfigV241 { deposit_info: None, open_proposal_submission: open }
}

#[test]
fn migration_accepts_supported_range() {
    let (config, version) = PreProposeContract::migrate(
        &stored("2.4.5"),
        legacy_open(true),
        MigrateMsg::FromUnderV250 { policy: None },
    )
    .unwrap();
    // The legacy "open submission" flag becomes "anyone may submit".
    assert_eq!(
        config.submission_policy,
        PreProposeSubmissionPolicy::Anyone { denylist: vec![] }
    );
    assert_eq!(version.version, s("2.7.0"));
}

#[test]
fn migration_rejects_versions_outside_range() {
    let err = PreProposeContract::migrate(
        &stored("2.5.1"),
        legacy_open(true),
        MigrateMsg::FromUnderV250 { policy: None },
    )
    .unwrap_err();
    assert_eq!(
        err,
        PreProposeError::CannotMigrateVersion {
            required: s(">=2.4.1, <2.5.0"),
            actual: s("2.5.1"),
        }
    );
    // Below the range.
    assert!(PreProposeContract::migrate(
        &stored("2.4.0"),
        legacy_open(true),
        MigrateMsg::FromUnderV250 { policy: None },
    )
    .is_err());
    // A pre-release satisfies no plain comparator.
    assert!(PreProposeContract::migrate(
        &stored("2.4.5-rc.1"),
        legacy_open(true),
        MigrateMsg::FromUnderV250 { policy: None },
    )
    .is_err());
    // Not a version at all.
    assert!(PreProposeContract::migrate(
        &stored("next"),
        legacy_open(true),
        MigrateMsg::FromUnderV250 { policy: None },
    )
    .is_err());
    // The range boundaries.
    assert!(PreProposeContract::migrate(
        &stored("2.4.1"),
        legacy_open(true),
        MigrateMsg::FromUnderV250 { policy: None },
    )
    .is_ok());
    assert!(PreProposeContract::migrate(
        &stored("2.5.0"),
        legacy_open(true),
        MigrateMsg::FromUnderV250 { policy: None },
    )
    .is_err());
}

#[test]
fn migration_converts_closed_flag_to_members_policy() {
    let (config, _) = PreProposeContract::migrate(
        &stored("2.4.1"),
        legacy_open(false),
        MigrateMsg::FromUnderV250 { policy: None },
    )
    .unwrap();
    assert_eq!(
        config.submission_policy,
        PreProposeSubmissionPolicy::Specific {
            dao_members: true,
            allowlist: vec![],
            denylist: vec![],
        }
    );
}

#[test]
fn migration_converts_legacy_deposit() {
    let legacy = ConfigV241 {
        deposit_info: Some(CheckedDepositInfoV241 {
            denom: CheckedDenomV241::Cw20(s("token")),
            amount: 42,
            refund_policy: DepositRefundPolicyV241::OnlyPassed,
        }),
        open_proposal_submission: true,
    };
    let (config, _) = PreProposeContract::migrate(
        &stored("2.4.9"),
        legacy,
        MigrateMsg::FromUnderV250 { policy: None },
    )
    .unwrap();
    let di = config.deposit_info.unwrap();
    assert_eq!(di.denom, CheckedDenom::Cw20(s("token")));
    assert_eq!(di.amount, 42);
    assert_eq!(di.refund_policy, DepositRefundPolicy::OnlyPassed);
}

#[test]
fn migration_uses_and_validates_replacement_policy() {
    let (config, _) = PreProposeContract::migrate(
        &stored("2.4.5"),
        legacy_open(false),
        MigrateMsg::FromUnderV250 {
            policy: Some(PreProposeSubmissionPolicy::Anyone { denylist: vec![s("bad")] }),
        },
    )
    .unwrap();
    assert_eq!(
        config.submission_policy,
        PreProposeSubmissionPolicy::Anyone { denylist: vec![s("bad")] }
    );
    let err = PreProposeContract::migrate(
        &stored("2.4.5"),
        legacy_open(false),
        MigrateMsg::FromUnderV250 {
            policy: Some(PreProposeSubmissionPolicy::Specific {
                dao_members: false,
                allowlist: vec![],
                denylist: vec![],
            }),
        },
    )
    .unwrap_err();
    assert_eq!(
        err,
        PreProposeError::SubmissionPolicy(PreProposeSubmissionPolicyError::NoOneAllowed)
    );
}

#[test]
fn migration_extension_not_implemented() {
    assert_eq!(
        PreProposeContract::migrate(&stored("2.4.5"), legacy_open(true), MigrateMsg::Extension {}),
        Err(PreProposeError::Unimplemented)
    );
}

#[test]
fn fantoken_issue_numbers_denoms() {
    let mut k = StargateKeeper::new();
    let r = k
        .execute(
            &s("issuer"),
            FanTokenMsg::Issue {
                name: s("Token One"),
                symbol: s("ONE"),
                max_supply: s("1000"),
                authority: s("auth"),
                minter: s("mint"),
                uri: s("ipfs://one"),
            },
        )
        .unwrap();
    assert_eq!(r, FanTokenResponse::Issued { denom: s("fantoken1") });
    let r = k
        .execute(
            &s("issuer"),
            FanTokenMsg::Issue {
                name: s("Token Two"),
                symbol: s("TWO"),
                max_supply: s("500"),
                authority: s("auth"),
                minter: s("mint"),
                uri: s("ipfs://two"),
            },
        )
        .unwrap();
    assert_eq!(r, FanTokenResponse::Issued { denom: s("fantoken2") });
    assert_eq!(k.tokens.len(), 2);
    assert_eq!(k.tokens[0].symbol, s("ONE"));
}

#[test]
fn fantoken_numbering_uses_decimal_digits() {
    let mut k = StargateKeeper::new();
    k.denoms_count = 41;
    let r = k
        .execute(
            &s("issuer"),
            FanTokenMsg::Issue {
                name: s("n"),
                symbol: s("N"),
                max_supply: s("1"),
                authority: s("a"),
                minter: s("m"),
                uri: s("u"),
            },
        )
        .unwrap();
    assert_eq!(r, FanTokenResponse::Issued { denom: s("fantoken42") });
}

#[test]
fn fantoken_mint_checks_minter() {
    let mut k = StargateKeeper::new();
    k.execute(
        &s("issuer"),
        FanTokenMsg::Issue {
            name: s("t"),
            symbol: s("T"),
            max_supply: s("10"),
            authority: s("auth"),
            minter: s("mint"),
            uri: s("u"),
        },
    )
    .unwrap();
    let r = k.execute(
        &s("mallory"),
        FanTokenMsg::Mint {
            denom: s("fantoken1"),
            amount: 5,
            recipient: s("bob"),
            minter: s("mallory"),
        },
    );
    assert_eq!(r, Err(FanTokenError::MintUnauthorized));
    let r = k
        .execute(
            &s("mint"),
            FanTokenMsg::Mint {
                denom: s("fantoken1"),
                amount: 5,
                recipient: s("bob"),
                minter: s("mint"),
            },
        )
        .unwrap();
    assert_eq!(
        r,
        FanTokenResponse::Minted { denom: s("fantoken1"), amount: 5, recipient: s("bob") }
    );
    let r = k.execute(
        &s("mint"),
        FanTokenMsg::Mint { denom: s("nosuch"), amount: 5, recipient: s("bob"), minter: s("mint") },
    );
    assert_eq!(r, Err(FanTokenError::UnknownDenom));
}

#[test]
fn fantoken_role_handovers() {
    let mut k = StargateKeeper::new();
    k.execute(
        &s("issuer"),
        FanTokenMsg::Issue {
            name: s("t"),
            symbol: s("T"),
            max_supply: s("10"),
            authority: s("auth"),
            minter: s("mint"),
            uri: s("u"),
        },
    )
    .unwrap();
    // Only the minter may hand over minting, and must name itself.
    assert_eq!(
        k.execute(
            &s("mallory"),
            FanTokenMsg::SetMinter {
                denom: s("fantoken1"),
                old_minter: s("mint"),
                new_minter: s("m2"),
            },
        ),
        Err(FanTokenError::SetMinterUnauthorized)
    );
    assert_eq!(
        k.execute(
            &s("mint"),
            FanTokenMsg::SetMinter {
                denom: s("fantoken1"),
                old_minter: s("wrong"),
                new_minter: s("m2"),
            },
        ),
        Err(FanTokenError::OldMinterMismatch)
    );
    assert_eq!(
        k.execute(
            &s("mint"),
            FanTokenMsg::SetMinter {
                denom: s("fantoken1"),
                old_minter: s("mint"),
                new_minter: s("m2"),
            },
        ),
        Ok(FanTokenResponse::MinterSet)
    );
    assert_eq!(k.tokens[0].minter, s("m2"));
    // The authority handover answers with its own shape.
    assert_eq!(
        k.execute(
            &s("auth"),
            FanTokenMsg::SetAuthority {
                denom: s("fantoken1"),
                old_authority: s("other"),
                new_authority: s("a2"),
            },
        ),
        Err(FanTokenError::OldAuthorityMismatch)
    );
    assert_eq!(
        k.execute(
            &s("auth"),
            FanTokenMsg::SetAuthority {
                denom: s("fantoken1"),
                old_authority: s("auth"),
                new_authority: s("a2"),
            },
        ),
        Ok(FanTokenResponse::AuthoritySet)
    );
    assert_eq!(k.tokens[0].authority, s("a2"));
    // Only the authority may change the URI.
    assert_eq!(
        k.execute(
            &s("m2"),
            FanTokenMsg::SetUri { denom: s("fantoken1"), authority: s("m2"), uri: s("new") },
        ),
        Err(FanTokenError::SetUriUnauthorized)
    );
    assert_eq!(
        k.execute(
            &s("a2"),
            FanTokenMsg::SetUri { denom: s("fantoken1"), authority: s("a2"), uri: s("new") },
        ),
        Ok(FanTokenResponse::UriSet)
    );
    assert_eq!(k.tokens[0].uri, s("new"));
}

#[test]
fn fantoken_query_echoes() {
    let k = StargateKeeper::new();
    assert_eq!(k.query(vec![1, 2, 3]), vec![1, 2, 3]);
}
