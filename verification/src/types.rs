//! Core data model of the gating contract: proposal statuses, asset
//! denominations, deposit configuration, and the outbound messages the
//! contract emits as side effects.

use vstd::prelude::*;
use vstd::utf8::{encode_utf8, is_ascii_chars, is_ascii_chars_encode_utf8};
use crate::error::{DenomError, DepositError, PaymentError};

verus! {

/// Lifecycle status of a proposal, as reported by the proposal module.
#[derive(Clone, Copy, Debug, PartialEq, Eq)]
pub enum Status {
    /// The proposal is open for voting.
    Open,
    /// The proposal has been rejected.
    Rejected,
    /// The proposal has been passed but has not been executed.
    Passed,
    /// The proposal has been passed and executed.
    Executed,
    /// The proposal has failed or expired and has been closed.
    Closed,
    /// The proposal's execution failed.
    ExecutionFailed,
    /// The proposal is timelocked awaiting a possible veto.
    VetoTimelock,
    /// The proposal has been vetoed.
    Vetoed,
}

impl Status {
    /// A terminal status is a final, non-reversible proposal outcome.
    pub open spec fn spec_is_terminal(self) -> bool {
        self is Closed || self is Executed || self is Vetoed
    }

    /// Whether this status is one of the terminal outcomes.
    pub fn is_terminal(&self) -> (r: bool)
        ensures
            r == self.spec_is_terminal(),
    {
        match self {
            Status::Closed => true,
            Status::Executed => true,
            Status::Vetoed => true,
            _ => false,
        }
    }
}

/// A fungible-asset reference that has been checked to point at a valid
/// asset: either a native (bank) denomination or a contract token address.
#[derive(Debug, PartialEq, Eq)]
pub enum CheckedDenom {
    /// A native (bank module) asset.
    Native(String),
    /// A contract-token asset, by token contract address.
    Cw20(String),
}

impl CheckedDenom {
    /// The token contract address, for a contract-token denomination.
    pub open spec fn cw20_addr(self) -> Option<String> {
        match self {
            CheckedDenom::Native(_) => None,
            CheckedDenom::Cw20(a) => Some(a),
        }
    }
}

/// A fungible-asset reference as given by a caller, not yet checked.
#[derive(Clone, Debug, PartialEq, Eq)]
pub enum UncheckedDenom {
    /// A native (bank module) asset.
    Native(String),
    /// A contract-token asset, by token contract address.
    Cw20(String),
}

/// What happens to a deposit once the proposal it is attached to resolves.
#[derive(Clone, Copy, Debug, PartialEq, Eq)]
pub enum DepositRefundPolicy {
    /// Deposits are always refunded to the proposer.
    Always,
    /// Deposits are refunded to the proposer only for executed proposals.
    OnlyPassed,
    /// Deposits are never refunded; they go to the DAO.
    Never,
}

/// An amount of a native denomination, as sent along with a message.
#[derive(Clone, Debug, PartialEq, Eq)]
pub struct Coin {
    pub denom: String,
    pub amount: u128,
}

/// Deposit configuration as given by a caller, not yet checked.
#[derive(Clone, Debug, PartialEq, Eq)]
pub struct UncheckedDepositInfo {
    /// The asset to collect deposits in.
    pub denom: UncheckedDenom,
    /// The amount that must be deposited to submit a proposal.
    pub amount: u128,
    /// What happens to the deposit when the proposal resolves.
    pub refund_policy: DepositRefundPolicy,
}

/// Deposit configuration that has been checked: the amount is positive and
/// the denomination points at a valid asset.
#[derive(Debug, PartialEq, Eq)]
pub struct CheckedDepositInfo {
    /// The asset deposits are collected in.
    pub denom: CheckedDenom,
    /// The amount that must be deposited to submit a proposal; positive.
    pub amount: u128,
    /// What happens to the deposit when the proposal resolves.
    pub refund_policy: DepositRefundPolicy,
}

/// The stored name and version of the contract.
#[derive(Debug, PartialEq, Eq)]
pub struct ContractVersion {
    /// The globally unique name of the contract.
    pub contract: String,
    /// The semantic version of the contract, as a string.
    pub version: String,
}

/// An outbound message emitted by the contract as a side effect. The host
/// environment turns each into the corresponding chain message; their order
/// within a response is significant.
#[derive(Clone, Debug, PartialEq, Eq)]
pub enum OutboundMsg {
    /// Forward the wrapped proposal payload to the proposal module.
    Propose { contract_addr: String, payload: Vec<u8> },
    /// Notify a registered hook subscriber of the submission.
    Notify { contract_addr: String, payload: Vec<u8> },
    /// Pull a contract-token deposit from the proposer into this contract.
    TransferFrom { token: String, owner: String, recipient: String, amount: u128 },
    /// Transfer an amount of an asset to a recipient.
    Transfer { denom: CheckedDenom, recipient: String, amount: u128 },
}

/// The outcome of checking the funds sent along with a submission against
/// a required deposit. A contract-token deposit is pulled, not pushed, so
/// nothing is checked; a native deposit must be paid by exactly one coin of
/// exactly the required denomination and amount.
pub open spec fn spec_check_native_deposit_paid(
    di: CheckedDepositInfo,
    funds: Seq<Coin>,
) -> Result<(), DepositError> {
    match di.denom {
        CheckedDenom::Cw20(_) => Ok(()),
        CheckedDenom::Native(d) => {
            if funds.len() == 0 {
                Err(DepositError::Payment(PaymentError::NoFunds))
            } else if funds.len() > 1 {
                Err(DepositError::Payment(PaymentError::MultipleDenoms))
            } else if funds[0].amount == 0 {
                Err(DepositError::Payment(PaymentError::NoFunds))
            } else if funds[0].denom@ != d@ {
                Err(DepositError::Payment(PaymentError::MissingDenom))
            } else if funds[0].amount != di.amount {
                Err(DepositError::InvalidDeposit { actual: funds[0].amount, expected: di.amount })
            } else {
                Ok(())
            }
        },
    }
}

impl CheckedDepositInfo {
    /// Check that a required native deposit was paid: exactly one coin was
    /// sent, of the required denomination, for exactly the required amount.
    /// A contract-token deposit is collected by a pull transfer instead and
    /// passes unconditionally.
    pub fn check_native_deposit_paid(&self, funds: &Vec<Coin>) -> (r: Result<(), DepositError>)
        ensures
            r == spec_check_native_deposit_paid(*self, funds@),
    {
        match &self.denom {
            CheckedDenom::Cw20(_) => Ok(()),
            CheckedDenom::Native(d) => {
                if funds.len() == 0 {
                    Err(DepositError::Payment(PaymentError::NoFunds))
                } else if funds.len() > 1 {
                    Err(DepositError::Payment(PaymentError::MultipleDenoms))
                } else if funds[0].amount == 0 {
                    Err(DepositError::Payment(PaymentError::NoFunds))
                } else if !funds[0].denom.eq(d) {
                    Err(DepositError::Payment(PaymentError::MissingDenom))
                } else if funds[0].amount != self.amount {
                    Err(DepositError::InvalidDeposit {
                        actual: funds[0].amount,
                        expected: self.amount,
                    })
                } else {
                    Ok(())
                }
            },
        }
    }
}

/// The refund decision table: whether the deposit goes back to the
/// proposer, by refund policy and terminal status. Under `Always` the
/// proposer is always refunded; under `OnlyPassed` only an executed
/// proposal refunds the proposer; under `Never` the DAO always keeps the
/// deposit.
pub open spec fn refund_to_proposer(policy: DepositRefundPolicy, status: Status) -> bool {
    match (status, policy) {
        (Status::Executed, DepositRefundPolicy::OnlyPassed) => true,
        (_, DepositRefundPolicy::OnlyPassed) => false,
        (_, DepositRefundPolicy::Always) => true,
        (_, DepositRefundPolicy::Never) => false,
    }
}

/// Whether a character may start a native denomination: an ASCII letter.
pub open spec fn is_denom_head_char(c: char) -> bool {
    ('a' <= c && c <= 'z') || ('A' <= c && c <= 'Z')
}

/// Whether a character may appear in a native denomination after the first:
/// an ASCII letter, a digit, or one of the separators `/`, `:`, `.`, `_`, `-`.
pub open spec fn is_denom_tail_char(c: char) -> bool {
    is_denom_head_char(c) || ('0' <= c && c <= '9') || c == '/' || c == ':' || c == '.'
        || c == '_' || c == '-'
}

/// A valid native denomination: 3 to 128 characters, starting with an ASCII
/// letter, the rest letters, digits or separators.
pub open spec fn valid_native_denom(s: Seq<char>) -> bool {
    &&& 3 <= s.len() <= 128
    &&& is_denom_head_char(s[0])
    &&& forall|i: int| 1 <= i < s.len() ==> is_denom_tail_char(#[trigger] s[i])
}

/// The length in bytes of a denomination's UTF-8 encoding, as the machine
/// word that `str::len` reports.
pub open spec fn native_denom_byte_len(s: Seq<char>) -> usize {
    encode_utf8(s).len() as usize
}

/// The error reported for an invalid native denomination, in checking
/// order: the byte length first, then the head character, then a later
/// character outside the allowed set.
pub open spec fn spec_native_denom_err(s: Seq<char>) -> DenomError {
    if !(3 <= native_denom_byte_len(s) <= 128) {
        DenomError::NativeDenomLength { len: native_denom_byte_len(s) }
    } else if !is_denom_head_char(s[0]) {
        DenomError::NonAlphabeticAscii
    } else {
        DenomError::InvalidCharacter
    }
}

/// A denomination that passes the character checks is all ASCII, so its
/// byte length equals its character count.
proof fn lemma_denom_chars_ascii(s: Seq<char>)
    requires
        s.len() >= 1,
        is_denom_head_char(s[0]),
        forall|j: int| 1 <= j < s.len() ==> is_denom_tail_char(#[trigger] s[j]),
    ensures
        encode_utf8(s).len() == s.len(),
{
    assert(is_ascii_chars(s)) by {
        assert forall|i: int| 0 <= i < s.len() implies '\0' <= #[trigger] s[i] <= '\u{7f}' by {
        };
    }
    is_ascii_chars_encode_utf8(s);
}

/// Check that a native denomination is well formed, reporting the first
/// violation found: the byte length, then the head character, then the
/// characters after it.
#[verifier::loop_isolation(false)]
pub fn validate_native_denom(denom: String) -> (r: Result<CheckedDenom, DenomError>)
    ensures
        r is Ok <==> valid_native_denom(denom@),
        r matches Ok(d) ==> d == CheckedDenom::Native(denom),
        r matches Err(e) ==> e == spec_native_denom_err(denom@),
{
    let s = denom.as_str();
    let byte_len = s.len();
    if byte_len < 3 || byte_len > 128 {
        proof {
            if valid_native_denom(denom@) {
                lemma_denom_chars_ascii(denom@);
            }
        }
        return Err(DenomError::NativeDenomLength { len: byte_len });
    }
    let n = s.unicode_len();
    proof {
        assert(n >= 1) by {
            if denom@.len() == 0 {
                assert(encode_utf8(denom@) =~= Seq::<u8>::empty());
            }
        };
    }
    let first = s.get_char(0);
    if !(('a' <= first && first <= 'z') || ('A' <= first && first <= 'Z')) {
        proof {
            if valid_native_denom(denom@) {
                lemma_denom_chars_ascii(denom@);
            }
        }
        return Err(DenomError::NonAlphabeticAscii);
    }
    let mut i: usize = 1;
    while i < n
        invariant
            1 <= i <= n,
            forall|j: int| 1 <= j < i ==> is_denom_tail_char(#[trigger] denom@[j]),
        decreases n - i,
    {
        let c = s.get_char(i);
        let ok = ('a' <= c && c <= 'z') || ('A' <= c && c <= 'Z') || ('0' <= c && c <= '9')
            || c == '/' || c == ':' || c == '.' || c == '_' || c == '-';
        if !ok {
            return Err(DenomError::InvalidCharacter);
        }
        i = i + 1;
    }
    proof {
        lemma_denom_chars_ascii(denom@);
    }
    Ok(CheckedDenom::Native(denom))
}

impl CheckedDepositInfo {
    /// Well-formed deposit configuration: positive amount, and a native
    /// denomination that passed validation.
    pub open spec fn wf(self) -> bool {
        &&& self.amount > 0
        &&& match self.denom {
            CheckedDenom::Native(d) => valid_native_denom(d@),
            CheckedDenom::Cw20(_) => true,
        }
    }
}

/// Whether a deposit configuration passes checking: positive amount and a
/// denomination that points at a valid asset. For a contract token the
/// caller reports the token contract's answer through `cw20_token_ok`.
pub open spec fn deposit_checks_out(d: UncheckedDepositInfo, cw20_token_ok: bool) -> bool {
    d.amount > 0 && (match d.denom {
        UncheckedDenom::Native(n) => valid_native_denom(n@),
        UncheckedDenom::Cw20(_) => cw20_token_ok,
    })
}

/// Whether a checked deposit configuration is the image of an unchecked one:
/// same amount, same refund policy, same denomination.
pub open spec fn checked_matches(d: UncheckedDepositInfo, c: CheckedDepositInfo) -> bool {
    &&& c.amount == d.amount
    &&& c.refund_policy == d.refund_policy
    &&& match (d.denom, c.denom) {
        (UncheckedDenom::Native(n), CheckedDenom::Native(cn)) => n == cn,
        (UncheckedDenom::Cw20(a), CheckedDenom::Cw20(ca)) => a == ca,
        _ => false,
    }
}

impl UncheckedDepositInfo {
    /// Check a deposit configuration. The amount must be positive; a native
    /// denomination must be well formed; a contract-token denomination must
    /// have checked out against the token contract, which the caller reports
    /// through `cw20_token_ok` after querying it.
    pub fn into_checked(self, cw20_token_ok: bool) -> (r: Result<CheckedDepositInfo, DepositError>)
        ensures
            r is Ok <==> deposit_checks_out(self, cw20_token_ok),
            r matches Ok(c) ==> c.wf() && checked_matches(self, c),
            r matches Err(e) ==> match e {
                DepositError::ZeroDeposit => self.amount == 0,
                DepositError::Denom(DenomError::InvalidCw20) => self.amount > 0
                    && self.denom is Cw20 && !cw20_token_ok,
                DepositError::Denom(de) => self.amount > 0 && (self.denom
                    matches UncheckedDenom::Native(n) && de == spec_native_denom_err(n@)),
                _ => false,
            },
    {
        if self.amount == 0 {
            return Err(DepositError::ZeroDeposit);
        }
        match self.denom {
            UncheckedDenom::Native(d) => match validate_native_denom(d) {
                Ok(denom) => Ok(CheckedDepositInfo {
                    denom,
                    amount: self.amount,
                    refund_policy: self.refund_policy,
                }),
                Err(e) => Err(DepositError::Denom(e)),
            },
            UncheckedDenom::Cw20(a) => {
                if cw20_token_ok {
                    Ok(CheckedDepositInfo {
                        denom: CheckedDenom::Cw20(a),
                        amount: self.amount,
                        refund_policy: self.refund_policy,
                    })
                } else {
                    Err(DepositError::Denom(DenomError::InvalidCw20))
                }
            },
        }
    }
}

} // verus!
