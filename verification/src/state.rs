//! Persistent state of the gating contract: the configuration singleton,
//! the per-proposal deposit ledger, the hook subscriber set, and the two
//! addresses bound at instantiation.

use vstd::prelude::*;
use crate::policy::PreProposeSubmissionPolicy;
use crate::types::{CheckedDenom, CheckedDepositInfo, ContractVersion};

verus! {

impl Clone for CheckedDenom {
    /// An exact copy of the denomination.
    fn clone(&self) -> (res: Self)
        ensures
            res == *self,
    {
        match self {
            CheckedDenom::Native(d) => CheckedDenom::Native(d.clone()),
            CheckedDenom::Cw20(a) => CheckedDenom::Cw20(a.clone()),
        }
    }
}

impl Clone for CheckedDepositInfo {
    /// An exact copy of the deposit configuration.
    fn clone(&self) -> (res: Self)
        ensures
            res == *self,
    {
        CheckedDepositInfo {
            denom: self.denom.clone(),
            amount: self.amount,
            refund_policy: self.refund_policy,
        }
    }
}

impl Clone for ContractVersion {
    /// An exact copy of the stored contract version.
    fn clone(&self) -> (res: Self)
        ensures
            res == *self,
    {
        ContractVersion { contract: self.contract.clone(), version: self.version.clone() }
    }
}

/// Clone a list of addresses, keeping every element exactly.
pub fn clone_addrs(list: &Vec<String>) -> (res: Vec<String>)
    ensures
        res@ == list@,
{
    let mut out: Vec<String> = Vec::new();
    let mut i: usize = 0;
    while i < list.len()
        invariant
            0 <= i <= list@.len(),
            out@ =~= list@.take(i as int),
        decreases list@.len() - i,
    {
        out.push(list[i].clone());
        proof {
            assert(out@ =~= list@.take(i + 1));
        }
        i = i + 1;
    }
    proof {
        assert(list@.take(list@.len() as int) =~= list@);
    }
    out
}

/// Whether two policies agree in shape and, list for list, in the addresses
/// they hold.
pub open spec fn policy_eq_views(
    p: PreProposeSubmissionPolicy,
    q: PreProposeSubmissionPolicy,
) -> bool {
    match (p, q) {
        (
            PreProposeSubmissionPolicy::Anyone { denylist: a },
            PreProposeSubmissionPolicy::Anyone { denylist: b },
        ) => a@ == b@,
        (
            PreProposeSubmissionPolicy::Specific { dao_members: d1, allowlist: a1, denylist: n1 },
            PreProposeSubmissionPolicy::Specific { dao_members: d2, allowlist: a2, denylist: n2 },
        ) => d1 == d2 && a1@ == a2@ && n1@ == n2@,
        _ => false,
    }
}

impl PreProposeSubmissionPolicy {
    /// A copy of the policy that holds the same addresses, list for list.
    pub fn duplicate(&self) -> (res: Self)
        ensures
            policy_eq_views(*self, res),
    {
        match self {
            PreProposeSubmissionPolicy::Anyone { denylist } => {
                PreProposeSubmissionPolicy::Anyone { denylist: clone_addrs(denylist) }
            },
            PreProposeSubmissionPolicy::Specific { dao_members, allowlist, denylist } => {
                PreProposeSubmissionPolicy::Specific {
                    dao_members: *dao_members,
                    allowlist: clone_addrs(allowlist),
                    denylist: clone_addrs(denylist),
                }
            },
        }
    }
}

/// The configuration singleton, mutated only by the DAO.
#[derive(Debug, PartialEq, Eq)]
pub struct Config {
    /// The deposit required to submit a proposal; `None` means none.
    pub deposit_info: Option<CheckedDepositInfo>,
    /// Who may submit proposals.
    pub submission_policy: PreProposeSubmissionPolicy,
}

impl Config {
    /// A well-formed configuration: the deposit, if any, is checked, and
    /// the policy validates.
    pub open spec fn wf(self) -> bool {
        &&& match self.deposit_info {
            Some(d) => d.wf(),
            None => true,
        }
        &&& self.submission_policy.spec_valid()
    }
}

/// One record of the deposit ledger: what was deposited for a proposal and
/// by whom. Created at submission, removed at resolution.
#[derive(Debug, PartialEq, Eq)]
pub struct DepositEntry {
    /// The proposal id the deposit is bound to.
    pub proposal_id: u64,
    /// A snapshot of the deposit configuration at submission time.
    pub deposit_info: Option<CheckedDepositInfo>,
    /// The address that submitted the proposal.
    pub proposer: String,
}

/// The first ledger entry recorded under the given proposal id, if any.
pub open spec fn find_deposit(s: Seq<DepositEntry>, id: u64) -> Option<DepositEntry>
    decreases s.len(),
{
    if s.len() == 0 {
        None
    } else if s[0].proposal_id == id {
        Some(s[0])
    } else {
        find_deposit(s.drop_first(), id)
    }
}

/// Every ledger entry carries a distinct proposal id.
pub open spec fn unique_ids(s: Seq<DepositEntry>) -> bool {
    forall|i: int, j: int| 0 <= i < j < s.len()
        ==> #[trigger] s[i].proposal_id != #[trigger] s[j].proposal_id
}

/// `find_deposit` returns an entry exactly when one carries the id.
pub proof fn lemma_find_deposit_some(s: Seq<DepositEntry>, id: u64)
    ensures
        (find_deposit(s, id) is Some) == exists|i: int|
            0 <= i < s.len() && (#[trigger] s[i].proposal_id) == id,
        find_deposit(s, id) matches Some(e) ==> exists|i: int|
            0 <= i < s.len() && #[trigger] s[i] == e && e.proposal_id == id,
    decreases s.len(),
{
    if s.len() > 0 {
        if s[0].proposal_id == id {
        } else {
            lemma_find_deposit_some(s.drop_first(), id);
            if find_deposit(s, id) is Some {
                let i = choose|i: int|
                    0 <= i < s.drop_first().len() && (#[trigger] s.drop_first()[i]) == find_deposit(
                        s.drop_first(),
                        id,
                    )->Some_0;
                assert(s[i + 1] == s.drop_first()[i]);
            }
            if exists|i: int| 0 <= i < s.len() && (#[trigger] s[i].proposal_id) == id {
                let i = choose|i: int| 0 <= i < s.len() && (#[trigger] s[i].proposal_id) == id;
                assert(s.drop_first()[i - 1] == s[i]);
            }
        }
    }
}

/// Removing the entry at a given index removes its id from the ledger and
/// leaves every other lookup unchanged, provided ids are unique.
pub proof fn lemma_find_deposit_remove(s: Seq<DepositEntry>, k: int, id: u64)
    requires
        unique_ids(s),
        0 <= k < s.len(),
        s[k].proposal_id == id,
    ensures
        find_deposit(s.remove(k), id) is None,
        forall|other: u64| other != id ==> find_deposit(s.remove(k), other) == find_deposit(
            s,
            other,
        ),
    decreases s.len(),
{
    lemma_find_deposit_some(s.remove(k), id);
    assert(forall|i: int| 0 <= i < s.remove(k).len() ==> #[trigger] s.remove(k)[i] == (if i < k {
        s[i]
    } else {
        s[i + 1]
    }));
    assert forall|other: u64| other != id implies find_deposit(s.remove(k), other) == find_deposit(
        s,
        other,
    ) by {
        lemma_find_deposit_prefix_agree(s, k, other);
    }
}

/// Lookups for an id not carried by the removed entry are unaffected.
pub proof fn lemma_find_deposit_prefix_agree(s: Seq<DepositEntry>, k: int, id: u64)
    requires
        0 <= k < s.len(),
        s[k].proposal_id != id,
    ensures
        find_deposit(s.remove(k), id) == find_deposit(s, id),
    decreases s.len(),
{
    if k == 0 {
        assert(s.remove(0) =~= s.drop_first());
    } else {
        if s[0].proposal_id == id {
            assert(s.remove(k)[0] == s[0]);
        } else {
            assert(s.remove(k).drop_first() =~= s.drop_first().remove(k - 1));
            lemma_find_deposit_prefix_agree(s.drop_first(), k - 1, id);
        }
    }
}

/// In a ledger with unique ids, the entry found under an id is the one at
/// the (unique) position that carries it.
pub proof fn lemma_find_deposit_unique(s: Seq<DepositEntry>, k: int, id: u64)
    requires
        unique_ids(s),
        0 <= k < s.len(),
        s[k].proposal_id == id,
    ensures
        find_deposit(s, id) == Some(s[k]),
        resolve_index(s, id) == k,
    decreases s.len(),
{
    if k == 0 {
    } else {
        assert(s[0].proposal_id != id);
        assert(forall|a: int, b: int| 0 <= a < b < s.drop_first().len()
            ==> (#[trigger] s.drop_first()[a]).proposal_id
                != (#[trigger] s.drop_first()[b]).proposal_id) by {
            assert(forall|a: int| 0 <= a < s.drop_first().len() ==> #[trigger] s.drop_first()[a]
                == s[a + 1]);
        }
        assert(s.drop_first()[k - 1] == s[k]);
        lemma_find_deposit_unique(s.drop_first(), k - 1, id);
    }
    let j = resolve_index(s, id);
    assert(0 <= j < s.len() && s[j].proposal_id == id);
    if j != k {
        if j < k {
            assert(s[j].proposal_id != s[k].proposal_id);
        } else {
            assert(s[k].proposal_id != s[j].proposal_id);
        }
    }
}

/// The position of the ledger entry recorded under the given id; only
/// meaningful where one exists.
pub open spec fn resolve_index(s: Seq<DepositEntry>, id: u64) -> int {
    choose|k: int| 0 <= k < s.len() && (#[trigger] s[k].proposal_id) == id
}

/// The ledger after a resolution of the given id: the entry recorded under
/// it is gone; a ledger that held no such entry is unchanged.
pub open spec fn spec_resolve_deposits(s: Seq<DepositEntry>, id: u64) -> Seq<DepositEntry> {
    if find_deposit(s, id) is Some {
        s.remove(resolve_index(s, id))
    } else {
        s
    }
}

/// Deposit resolution is exactly-once: after a ledger resolves an id, a
/// second resolution of the same id finds no entry and leaves the ledger
/// unchanged, so nothing can be transferred twice; resolving an id that
/// was never recorded is a no-op from the start. Other ids are unaffected.
pub proof fn deposit_resolution_exactly_once(s: Seq<DepositEntry>, id: u64)
    requires
        unique_ids(s),
    ensures
        find_deposit(spec_resolve_deposits(s, id), id) is None,
        spec_resolve_deposits(spec_resolve_deposits(s, id), id) == spec_resolve_deposits(s, id),
        find_deposit(s, id) is None ==> spec_resolve_deposits(s, id) == s,
        unique_ids(spec_resolve_deposits(s, id)),
        forall|other: u64| other != id ==> find_deposit(spec_resolve_deposits(s, id), other)
            == find_deposit(s, other),
{
    lemma_find_deposit_some(s, id);
    if find_deposit(s, id) is Some {
        let k = resolve_index(s, id);
        assert(0 <= k < s.len() && s[k].proposal_id == id);
        lemma_find_deposit_remove(s, k, id);
        assert(forall|a: int, b: int| 0 <= a < b < s.remove(k).len()
            ==> (#[trigger] s.remove(k)[a]).proposal_id != (#[trigger] s.remove(k)[b]).proposal_id)
            by {
            assert(forall|a: int| 0 <= a < s.remove(k).len() ==> #[trigger] s.remove(k)[a] == (
            if a < k {
                s[a]
            } else {
                s[a + 1]
            }));
        }
    }
}

/// The full state of the gating contract.
#[derive(Debug, PartialEq, Eq)]
pub struct PreProposeContract {
    /// The proposal module this contract gates: whoever instantiated it.
    pub proposal_module: String,
    /// The DAO, discovered from the proposal module at instantiation.
    pub dao: String,
    /// The configuration singleton.
    pub config: Config,
    /// The deposit ledger, one entry per unresolved gated proposal.
    pub deposits: Vec<DepositEntry>,
    /// Hook subscribers, notified in registration order on each submission.
    pub hooks: Vec<String>,
    /// The stored contract name and version.
    pub version: ContractVersion,
}

impl PreProposeContract {
    /// Well-formed state: the configuration validates, every recorded
    /// deposit snapshot is checked, ledger ids are unique, and no hook is
    /// registered twice.
    pub open spec fn wf(self) -> bool {
        &&& self.config.wf()
        &&& unique_ids(self.deposits@)
        &&& forall|i: int| 0 <= i < self.deposits@.len()
            ==> match (#[trigger] self.deposits@[i]).deposit_info {
                Some(d) => d.wf(),
                None => true,
            }
        &&& forall|i: int, j: int| 0 <= i < j < self.hooks@.len()
            ==> (#[trigger] self.hooks@[i])@ != (#[trigger] self.hooks@[j])@
    }

    /// Whether a deposit is recorded under the given proposal id.
    pub open spec fn spec_has_deposit(self, id: u64) -> bool {
        find_deposit(self.deposits@, id) is Some
    }
}

} // verus!
