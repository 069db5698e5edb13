//! Plain-data model of the external identity provider's answers.
//!
//! The provider is reached over the network by the caller; this library
//! only ever sees the answers, handed in as values: the first page of an
//! organization's groups, the membership states the provider reported for
//! the acting user, and the organization's avatar. A membership table holds
//! the provider's answer per numeric group id; a group id with no entry
//! means the provider answered "not found", which is defined to mean
//! `Inactive` — a documented contract, not an incidental detail.

use vstd::prelude::*;
use vstd::string::*;
use crate::strutil::{clone_opt_string, str_eq};

verus! {

/// One group under an organization, as the provider lists it: the slug the
/// caller matches against, the provider's numeric id, and a pretty name.
#[derive(Debug)]
pub struct GithubTeam {
    pub slug: String,
    pub id: i32,
    pub name: Option<String>,
}

impl Clone for GithubTeam {
    fn clone(&self) -> (res: GithubTeam)
        ensures
            res == *self,
    {
        GithubTeam { slug: self.slug.clone(), id: self.id, name: clone_opt_string(&self.name) }
    }
}

/// The provider's answer to a membership query.
#[derive(Debug, Clone, Copy, PartialEq, Eq, Structural)]
pub enum MembershipState {
    Active,
    Pending,
    Inactive,
}

impl MembershipState {
    pub fn is_active(self) -> (r: bool)
        ensures
            r == (self is Active),
    {
        match self {
            MembershipState::Active => true,
            _ => false,
        }
    }
}

/// The provider's answers that one resolution needs: the first page of the
/// organization's groups (the provider caps a page at 100; later pages are
/// deliberately not chased), the membership states reported for the acting
/// user keyed by group id, and the organization's avatar (`None` when the
/// best-effort metadata fetch failed).
#[derive(Debug)]
pub struct ProviderData {
    pub groups: Vec<GithubTeam>,
    pub memberships: Vec<(i32, MembershipState)>,
    pub org_avatar: Option<String>,
}

/// The membership state a table reports for `id`: the first entry keyed by
/// `id`, or `Inactive` when there is none ("not found" means not a member).
pub open spec fn membership_of(ms: Seq<(i32, MembershipState)>, id: i32) -> MembershipState
    decreases ms.len(),
{
    if ms.len() == 0 {
        MembershipState::Inactive
    } else if ms[0].0 == id {
        ms[0].1
    } else {
        membership_of(ms.drop_first(), id)
    }
}

/// Skipping entries that do not match `id` leaves `membership_of` unchanged.
pub proof fn lemma_membership_of_skip(ms: Seq<(i32, MembershipState)>, id: i32, k: int)
    requires
        0 <= k <= ms.len(),
        forall|j: int| 0 <= j < k ==> (#[trigger] ms[j]).0 != id,
    ensures
        membership_of(ms, id) == membership_of(ms.skip(k), id),
    decreases k,
{
    if k == 0 {
        assert(ms.skip(0) =~= ms);
    }
    if k > 0 {
        lemma_membership_of_skip(ms, id, k - 1);
        assert(ms.skip(k - 1).drop_first() =~= ms.skip(k));
        assert(ms.skip(k - 1)[0] == ms[k - 1]);
        assert(membership_of(ms.skip(k - 1), id) == membership_of(ms.skip(k - 1).drop_first(), id));
    }
}

/// A table with no entry for `id` reports `Inactive`: a group the provider
/// does not know the user in grants nothing.
pub proof fn lemma_membership_absent(ms: Seq<(i32, MembershipState)>, id: i32)
    requires
        forall|j: int| 0 <= j < ms.len() ==> (#[trigger] ms[j]).0 != id,
    ensures
        membership_of(ms, id) is Inactive,
{
    lemma_membership_of_skip(ms, id, ms.len() as int);
    assert(ms.skip(ms.len() as int) =~= Seq::<(i32, MembershipState)>::empty());
}

/// Looks up the membership state recorded for `id`.
pub fn membership_lookup(ms: &Vec<(i32, MembershipState)>, id: i32) -> (r: MembershipState)
    ensures
        r == membership_of(ms@, id),
{
    let mut i: usize = 0;
    while i < ms.len()
        invariant
            0 <= i <= ms@.len(),
            forall|j: int| 0 <= j < i ==> (#[trigger] ms@[j]).0 != id,
        decreases ms@.len() - i,
    {
        let (k, st) = ms[i];
        if k == id {
            proof {
                lemma_membership_of_skip(ms@, id, i as int);
                assert(ms@.skip(i as int)[0] == ms@[i as int]);
            }
            return st;
        }
        i = i + 1;
    }
    proof {
        lemma_membership_absent(ms@, id);
    }
    MembershipState::Inactive
}

/// Maps a raw provider membership response to a state: a "not found"
/// response means `Inactive`, a `"active"` state is `Active`, a `"pending"`
/// state is `Pending`, and anything else is `Inactive`.
pub fn membership_from_response(not_found: bool, state: &str) -> (r: MembershipState)
    ensures
        not_found ==> r is Inactive,
        !not_found && state@ == "active"@ ==> r is Active,
        !not_found && state@ == "pending"@ ==> r is Pending,
        !not_found && state@ != "active"@ && state@ != "pending"@ ==> r is Inactive,
{
    proof {
        reveal_strlit("active");
        reveal_strlit("pending");
        assert("active"@.len() == 6);
        assert("pending"@.len() == 7);
    }
    if not_found {
        MembershipState::Inactive
    } else if str_eq(state, "active") {
        MembershipState::Active
    } else if str_eq(state, "pending") {
        MembershipState::Pending
    } else {
        MembershipState::Inactive
    }
}

} // verus!
