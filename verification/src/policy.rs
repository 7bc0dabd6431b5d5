//! The submission policy engine: the allow/deny rule set and the answer to
//! "may address X submit a proposal now?".

use vstd::prelude::*;
use crate::error::{PreProposeError, PreProposeSubmissionPolicyError};

verus! {

/// Whether a list of addresses contains the address with view `a`.
pub open spec fn contains_addr(list: Seq<String>, a: Seq<char>) -> bool {
    exists|i: int| 0 <= i < list.len() && #[trigger] list[i]@ == a
}

/// Linear membership test over a list of addresses.
pub fn list_contains(list: &Vec<String>, addr: &String) -> (r: bool)
    ensures
        r == contains_addr(list@, addr@),
{
    let mut i: usize = 0;
    while i < list.len()
        invariant
            0 <= i <= list@.len(),
            forall|j: int| 0 <= j < i ==> #[trigger] list@[j]@ != addr@,
        decreases list@.len() - i,
    {
        if list[i].eq(addr) {
            return true;
        }
        i = i + 1;
    }
    false
}

/// The rule set that decides who may submit a proposal.
#[derive(Debug, PartialEq, Eq)]
pub enum PreProposeSubmissionPolicy {
    /// Anyone may submit, except the addresses on the denylist.
    Anyone {
        /// Addresses that may not submit proposals.
        denylist: Vec<String>,
    },
    /// Only specific addresses may submit.
    Specific {
        /// Whether DAO members (addresses with voting power) may submit.
        dao_members: bool,
        /// Addresses that may submit proposals.
        allowlist: Vec<String>,
        /// Addresses that may not submit, overriding all other settings.
        denylist: Vec<String>,
    },
}

/// Whether the two lists share no address.
pub open spec fn no_overlap(denylist: Seq<String>, allowlist: Seq<String>) -> bool {
    forall|i: int| 0 <= i < denylist.len() ==> !contains_addr(allowlist, #[trigger] denylist[i]@)
}

impl PreProposeSubmissionPolicy {
    /// A well-formed policy: for `Specific`, the denylist and the allowlist
    /// do not overlap, and somebody is allowed to submit.
    pub open spec fn spec_valid(self) -> bool {
        match self {
            PreProposeSubmissionPolicy::Anyone { .. } => true,
            PreProposeSubmissionPolicy::Specific { dao_members, allowlist, denylist } => {
                &&& no_overlap(denylist@, allowlist@)
                &&& (dao_members || allowlist@.len() > 0)
            },
        }
    }

    /// The authorization decision for an address with the given voting
    /// power. The denylist always wins; then the allowlist; then, if DAO
    /// members may submit, positive voting power.
    pub open spec fn spec_authorized(self, who: Seq<char>, power: u128) -> bool {
        match self {
            PreProposeSubmissionPolicy::Anyone { denylist } => !contains_addr(denylist@, who),
            PreProposeSubmissionPolicy::Specific { dao_members, allowlist, denylist } => {
                &&& !contains_addr(denylist@, who)
                &&& (contains_addr(allowlist@, who) || (dao_members && power > 0))
            },
        }
    }

    /// Whether evaluating this policy for `who` consults the voting-power
    /// oracle: only `Specific` with `dao_members` does, and only for an
    /// address that is on neither list.
    pub open spec fn spec_needs_voting_power(self, who: Seq<char>) -> bool {
        match self {
            PreProposeSubmissionPolicy::Anyone { .. } => false,
            PreProposeSubmissionPolicy::Specific { dao_members, allowlist, denylist } => {
                dao_members && !contains_addr(denylist@, who) && !contains_addr(allowlist@, who)
            },
        }
    }

    /// Whether deciding `authorize` for `who` requires the voting-power
    /// oracle's answer; the caller queries it before evaluating the policy.
    pub fn needs_voting_power(&self, who: &String) -> (r: bool)
        ensures
            r == self.spec_needs_voting_power(who@),
    {
        match self {
            PreProposeSubmissionPolicy::Anyone { .. } => false,
            PreProposeSubmissionPolicy::Specific { dao_members, allowlist, denylist } => {
                *dao_members && !list_contains(denylist, who) && !list_contains(allowlist, who)
            },
        }
    }

    /// Validate the policy configuration, reporting an overlap between the
    /// denylist and the allowlist first, then a policy that allows nobody.
    #[verifier::loop_isolation(false)]
    pub fn validate(&self) -> (r: Result<(), PreProposeSubmissionPolicyError>)
        ensures
            r is Ok <==> self.spec_valid(),
            r matches Err(e) ==> match e {
                PreProposeSubmissionPolicyError::DenylistAllowlistOverlap => {
                    &&& self matches PreProposeSubmissionPolicy::Specific { allowlist, denylist, .. }
                    &&& !no_overlap(denylist@, allowlist@)
                },
                PreProposeSubmissionPolicyError::NoOneAllowed => {
                    &&& self matches PreProposeSubmissionPolicy::Specific {
                        dao_members,
                        allowlist,
                        denylist,
                    }
                    &&& no_overlap(denylist@, allowlist@)
                    &&& dao_members == false
                    &&& allowlist@.len() == 0
                },
                _ => false,
            },
    {
        match self {
            PreProposeSubmissionPolicy::Anyone { .. } => Ok(()),
            PreProposeSubmissionPolicy::Specific { dao_members, allowlist, denylist } => {
                let mut i: usize = 0;
                while i < denylist.len()
                    invariant
                        0 <= i <= denylist@.len(),
                        forall|j: int| 0 <= j < i
                            ==> !contains_addr(allowlist@, #[trigger] denylist@[j]@),
                    decreases denylist@.len() - i,
                {
                    if list_contains(allowlist, &denylist[i]) {
                        return Err(PreProposeSubmissionPolicyError::DenylistAllowlistOverlap);
                    }
                    i = i + 1;
                }
                if !*dao_members && allowlist.len() == 0 {
                    return Err(PreProposeSubmissionPolicyError::NoOneAllowed);
                }
                Ok(())
            },
        }
    }

    /// Decide whether `who`, with the given voting power, may submit a
    /// proposal. The denylist overrides everything; the allowlist and DAO
    /// membership are consulted only for `Specific`.
    pub fn authorize(&self, who: &String, power: u128) -> (r: Result<
        (),
        PreProposeError,
    >)
        ensures
            r is Ok <==> self.spec_authorized(who@, power),
            r is Err ==> r == Err::<(), PreProposeError>(
                PreProposeError::SubmissionPolicy(PreProposeSubmissionPolicyError::Unauthorized),
            ),
    {
        match self {
            PreProposeSubmissionPolicy::Anyone { denylist } => {
                if !list_contains(denylist, who) {
                    return Ok(());
                }
            },
            PreProposeSubmissionPolicy::Specific { dao_members, allowlist, denylist } => {
                if !list_contains(denylist, who) {
                    if list_contains(allowlist, who) {
                        return Ok(());
                    }
                    if *dao_members && power > 0 {
                        return Ok(());
                    }
                }
            },
        }
        Err(PreProposeError::SubmissionPolicy(PreProposeSubmissionPolicyError::Unauthorized))
    }
}

/// The views of a list of addresses: each address as its character sequence.
pub open spec fn views_of(list: Seq<String>) -> Seq<Seq<char>> {
    list.map_values(|s: String| s@)
}

/// `contains_addr` agrees with membership in the list of views.
pub proof fn lemma_contains_addr_views(list: Seq<String>, a: Seq<char>)
    ensures
        contains_addr(list, a) == views_of(list).contains(a),
{
    if contains_addr(list, a) {
        let i = choose|i: int| 0 <= i < list.len() && #[trigger] list[i]@ == a;
        assert(views_of(list)[i] == a);
    }
    if views_of(list).contains(a) {
        let i = choose|i: int| 0 <= i < views_of(list).len() && #[trigger] views_of(list)[i] == a;
        assert(list[i]@ == a);
    }
}

/// Add each address in turn to the list, failing if one of them is already
/// present; duplicates within the additions themselves also fail.
pub open spec fn add_all(cur: Seq<Seq<char>>, to_add: Seq<Seq<char>>) -> Option<Seq<Seq<char>>>
    decreases to_add.len(),
{
    if to_add.len() == 0 {
        Some(cur)
    } else if cur.contains(to_add[0]) {
        None
    } else {
        add_all(cur.push(to_add[0]), to_add.drop_first())
    }
}

/// Drop every address that appears among the removals; removing an absent
/// address is a no-op.
pub open spec fn remove_all(cur: Seq<Seq<char>>, to_remove: Seq<Seq<char>>) -> Seq<Seq<char>> {
    cur.filter(|a: Seq<char>| !to_remove.contains(a))
}

/// The combined effect of an update on one address list: additions first,
/// each of which must not already be present, then removals.
pub open spec fn apply_add_remove_spec(
    cur: Seq<Seq<char>>,
    to_add: Seq<Seq<char>>,
    to_remove: Seq<Seq<char>>,
) -> Option<Seq<Seq<char>>> {
    match add_all(cur, to_add) {
        Some(mid) => Some(remove_all(mid, to_remove)),
        None => None,
    }
}

/// The views of an optional list of addresses; an absent list is empty.
pub open spec fn opt_views(o: Option<Vec<String>>) -> Seq<Seq<char>> {
    match o {
        Some(v) => views_of(v@),
        None => Seq::empty(),
    }
}

/// Apply an update to one address list: add each given address, rejecting
/// one that is already on the list, then drop each address to remove,
/// ignoring absent ones.
#[verifier::loop_isolation(false)]
pub fn apply_add_remove(
    list: Vec<String>,
    to_add: &Option<Vec<String>>,
    to_remove: &Option<Vec<String>>,
) -> (r: Result<Vec<String>, PreProposeError>)
    ensures
        r is Ok <==> add_all(views_of(list@), opt_views(*to_add)) is Some,
        r matches Ok(out) ==> Some(views_of(out@)) == apply_add_remove_spec(
            views_of(list@),
            opt_views(*to_add),
            opt_views(*to_remove),
        ),
        r is Err ==> r == Err::<Vec<String>, PreProposeError>(PreProposeError::AlreadyInList),
{
    let ghost orig_views = views_of(list@);
    let ghost adds = opt_views(*to_add);
    let mut list = list;
    match to_add {
        Some(addrs) => {
            proof {
                assert(adds.skip(0) =~= adds);
            }
            let mut i: usize = 0;
            while i < addrs.len()
                invariant
                    0 <= i <= addrs@.len(),
                    adds == views_of(addrs@),
                    add_all(orig_views, adds) == add_all(views_of(list@), adds.skip(i as int)),
                decreases addrs@.len() - i,
            {
                proof {
                    lemma_contains_addr_views(list@, addrs@[i as int]@);
                    assert(adds.skip(i as int)[0] == addrs@[i as int]@);
                }
                if list_contains(&list, &addrs[i]) {
                    return Err(PreProposeError::AlreadyInList);
                }
                let ghost pre = list@;
                list.push(addrs[i].clone());
                proof {
                    assert(views_of(list@) =~= views_of(pre).push(addrs@[i as int]@));
                    assert(adds.skip(i as int).drop_first() =~= adds.skip(i + 1));
                }
                i = i + 1;
            }
            proof {
                assert(adds.skip(i as int) =~= Seq::empty());
            }
        },
        None => {
            proof {
                assert(adds =~= Seq::empty());
            }
        },
    }
    let ghost mid_views = views_of(list@);
    proof {
        assert(add_all(orig_views, adds) == Some(mid_views));
    }
    let mut out: Vec<String> = Vec::new();
    match to_remove {
        Some(rems) => {
            let ghost rem_views = views_of(rems@);
            let mut i: usize = 0;
            while i < list.len()
                invariant
                    0 <= i <= list@.len(),
                    rem_views == views_of(rems@),
                    views_of(out@) =~= remove_all(views_of(list@).take(i as int), rem_views),
                decreases list@.len() - i,
            {
                proof {
                    lemma_contains_addr_views(rems@, list@[i as int]@);
                }
                let keep = !list_contains(rems, &list[i]);
                proof {
                    reveal(Seq::filter);
                    let pre = views_of(list@).take(i as int);
                    let post = views_of(list@).take(i + 1);
                    assert(post.drop_last() =~= pre);
                    assert(post.last() == list@[i as int]@);
                }
                if keep {
                    out.push(list[i].clone());
                    proof {
                        assert(views_of(out@) =~= remove_all(
                            views_of(list@).take(i + 1),
                            rem_views,
                        ));
                    }
                } else {
                    proof {
                        assert(views_of(out@) =~= remove_all(
                            views_of(list@).take(i + 1),
                            rem_views,
                        ));
                    }
                }
                i = i + 1;
            }
            proof {
                assert(views_of(list@).take(list@.len() as int) =~= views_of(list@));
                assert(opt_views(*to_remove) == rem_views);
            }
            Ok(out)
        },
        None => {
            proof {
                reveal(Seq::filter);
                lemma_remove_all_empty(mid_views);
            }
            Ok(list)
        },
    }
}

/// Removing an empty set of addresses changes nothing.
pub proof fn lemma_remove_all_empty(cur: Seq<Seq<char>>)
    ensures
        remove_all(cur, Seq::empty()) == cur,
    decreases cur.len(),
{
    reveal(Seq::filter);
    if cur.len() > 0 {
        lemma_remove_all_empty(cur.drop_last());
        assert(remove_all(cur, Seq::empty()) =~= cur);
    } else {
        assert(remove_all(cur, Seq::empty()) =~= cur);
    }
}

/// Validity of a `Specific` policy stated over the lists' views: no address
/// both denied and allowed, and somebody allowed to submit.
pub open spec fn spec_valid_views(
    dao_members: bool,
    allowlist: Seq<Seq<char>>,
    denylist: Seq<Seq<char>>,
) -> bool {
    &&& forall|i: int| 0 <= i < denylist.len() ==> !allowlist.contains(#[trigger] denylist[i])
    &&& (dao_members || allowlist.len() > 0)
}

/// A policy is valid exactly when its lists' views say so.
pub proof fn lemma_valid_views(p: PreProposeSubmissionPolicy)
    ensures
        p.spec_valid() == match p {
            PreProposeSubmissionPolicy::Anyone { .. } => true,
            PreProposeSubmissionPolicy::Specific { dao_members, allowlist, denylist } => {
                spec_valid_views(dao_members, views_of(allowlist@), views_of(denylist@))
            },
        },
{
    match p {
        PreProposeSubmissionPolicy::Anyone { .. } => {},
        PreProposeSubmissionPolicy::Specific { dao_members, allowlist, denylist } => {
            assert forall|i: int| 0 <= i < denylist@.len() implies (contains_addr(
                allowlist@,
                #[trigger] denylist@[i]@,
            ) == views_of(allowlist@).contains(views_of(denylist@)[i])) by {
                lemma_contains_addr_views(allowlist@, denylist@[i]@);
            }
        },
    }
}

/// The `dao_members` flag after an update: the given value, or the old one
/// where none is given.
pub open spec fn new_dao_members(set_dao_members: Option<bool>, old_dao_members: bool) -> bool {
    match set_dao_members {
        Some(b) => b,
        None => old_dao_members,
    }
}

/// Denylist membership overrides every other setting: an address on the
/// denylist of a policy is never authorized, whatever its voting power and
/// whatever the other fields say.
pub proof fn denylist_always_overrides(
    policy: PreProposeSubmissionPolicy,
    who: Seq<char>,
    power: u128,
)
    requires
        match policy {
            PreProposeSubmissionPolicy::Anyone { denylist } => contains_addr(denylist@, who),
            PreProposeSubmissionPolicy::Specific { denylist, .. } => contains_addr(denylist@, who),
        },
    ensures
        !policy.spec_authorized(who, power),
{
}

} // verus!
