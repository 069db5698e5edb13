//! Access rights to a crate and their aggregation over an owner set.
//!
//! `rights` answers "what may this actor do" from the crate's current
//! owner rows and a table of membership states fetched from the provider
//! for this very call. No rights decision may rely on a cached copy of
//! group membership: the caller queries the provider live for each team
//! owner and hands the answers in, so a team recreated with a different
//! membership set cannot retain stale access.

use vstd::prelude::*;
use crate::model::{Owner, User};
use crate::provider::{membership_of, MembershipState};

verus! {

/// Access rights to the crate (publishing and ownership management).
/// The variants are totally ordered: `NoAccess < Publish < Full`.
#[derive(Debug, Clone, Copy, PartialEq, Eq, PartialOrd, Ord, Structural)]
pub enum Rights {
    NoAccess,
    Publish,
    Full,
}

impl Rights {
    /// Position of the right in the total order.
    pub open spec fn weight(self) -> int {
        match self {
            Rights::NoAccess => 0,
            Rights::Publish => 1,
            Rights::Full => 2,
        }
    }

    /// The order on rights: `a` grants no more than `b`.
    pub open spec fn le_spec(self, other: Rights) -> bool {
        self.weight() <= other.weight()
    }

    /// The stronger of two rights.
    pub open spec fn max_spec(self, other: Rights) -> Rights {
        if self.weight() >= other.weight() {
            self
        } else {
            other
        }
    }

    pub fn max(self, other: Rights) -> (r: Rights)
        ensures
            r == self.max_spec(other),
    {
        match (self, other) {
            (Rights::Full, _) => Rights::Full,
            (_, Rights::Full) => Rights::Full,
            (Rights::Publish, _) => Rights::Publish,
            (_, Rights::Publish) => Rights::Publish,
            _ => Rights::NoAccess,
        }
    }
}

/// `Rights` under `le_spec` is a total order: reflexive, antisymmetric,
/// transitive, and total, with `NoAccess <= Publish <= Full`.
pub proof fn lemma_rights_total_order(a: Rights, b: Rights, c: Rights)
    ensures
        a.le_spec(a),
        a.le_spec(b) && b.le_spec(a) ==> a == b,
        a.le_spec(b) && b.le_spec(c) ==> a.le_spec(c),
        a.le_spec(b) || b.le_spec(a),
        Rights::NoAccess.le_spec(Rights::Publish),
        Rights::Publish.le_spec(Rights::Full),
        !Rights::Publish.le_spec(Rights::NoAccess),
        !Rights::Full.le_spec(Rights::Publish),
{
}

/// `max_spec` returns one of its arguments, is the least upper bound of the
/// two, and is commutative and associative.
pub proof fn lemma_rights_max(a: Rights, b: Rights, c: Rights)
    ensures
        a.max_spec(b) == a || a.max_spec(b) == b,
        a.le_spec(a.max_spec(b)),
        b.le_spec(a.max_spec(b)),
        a.max_spec(b) == b.max_spec(a),
        a.max_spec(b).max_spec(c) == a.max_spec(b.max_spec(c)),
{
}

/// `o` is an individual owner entry for the user with id `user_id`.
pub open spec fn user_owner_matches(o: Owner, user_id: i32) -> bool {
    o matches Owner::User(u) && u.id == user_id
}

/// `o` is a team owner entry whose group the membership table reports the
/// actor active in.
pub open spec fn team_owner_active(o: Owner, ms: Seq<(i32, MembershipState)>) -> bool {
    o matches Owner::Team(t) && membership_of(ms, t.github_id) is Active
}

/// The strongest right the actor holds: `Full` when any owner entry is the
/// actor personally, else `Publish` when any team owner's group reports the
/// actor active, else `NoAccess`.
pub open spec fn spec_rights(
    owners: Seq<Owner>,
    user_id: i32,
    ms: Seq<(i32, MembershipState)>,
) -> Rights {
    if exists|i: int| 0 <= i < owners.len() && user_owner_matches(#[trigger] owners[i], user_id) {
        Rights::Full
    } else if exists|i: int| 0 <= i < owners.len() && team_owner_active(#[trigger] owners[i], ms) {
        Rights::Publish
    } else {
        Rights::NoAccess
    }
}

/// Given this set of owners, determines the strongest rights the given
/// user has, from the membership states the provider reported live for
/// this user (`memberships`, keyed by numeric group id).
///
/// Short-circuits on `Full` because no right can beat it; team owners are
/// deliberately not short-circuited, a simplicity-over-micro-optimization
/// choice.
pub fn rights(
    owners: &Vec<Owner>,
    user: &User,
    memberships: &Vec<(i32, MembershipState)>,
) -> (r: Rights)
    ensures
        r == spec_rights(owners@, user.id, memberships@),
{
    let mut best = Rights::NoAccess;
    let mut i: usize = 0;
    while i < owners.len()
        invariant
            0 <= i <= owners@.len(),
            forall|j: int| 0 <= j < i ==> !user_owner_matches(#[trigger] owners@[j], user.id),
            (best is Publish) == exists|j: int|
                0 <= j < i && team_owner_active(#[trigger] owners@[j], memberships@),
            best is Publish || best is NoAccess,
        decreases owners@.len() - i,
    {
        match &owners[i] {
            Owner::User(other_user) => {
                if other_user.id == user.id {
                    proof {
                        assert(user_owner_matches(owners@[i as int], user.id));
                    }
                    return Rights::Full;
                }
            },
            Owner::Team(team) => {
                if membership_lookup_is_active(memberships, team.github_id) {
                    proof {
                        assert(team_owner_active(owners@[i as int], memberships@));
                    }
                    best = Rights::Publish;
                }
            },
        }
        i = i + 1;
    }
    best
}

/// Whether the membership table reports the actor active in group `id`.
fn membership_lookup_is_active(ms: &Vec<(i32, MembershipState)>, id: i32) -> (r: bool)
    ensures
        r == (membership_of(ms@, id) is Active),
{
    crate::provider::membership_lookup(ms, id).is_active()
}

/// The right a single owner entry contributes on its own.
pub open spec fn owner_right(o: Owner, user_id: i32, ms: Seq<(i32, MembershipState)>) -> Rights {
    if user_owner_matches(o, user_id) {
        Rights::Full
    } else if team_owner_active(o, ms) {
        Rights::Publish
    } else {
        Rights::NoAccess
    }
}

/// The rights of each owner entry, individually computed, folded with
/// `max_spec`.
pub open spec fn fold_rights(
    owners: Seq<Owner>,
    user_id: i32,
    ms: Seq<(i32, MembershipState)>,
) -> Rights
    decreases owners.len(),
{
    if owners.len() == 0 {
        Rights::NoAccess
    } else {
        fold_rights(owners.drop_last(), user_id, ms).max_spec(
            owner_right(owners.last(), user_id, ms),
        )
    }
}

/// The aggregate computation agrees with `max` over the individually
/// computed rights of every entry.
pub proof fn lemma_rights_is_fold_max(
    owners: Seq<Owner>,
    user_id: i32,
    ms: Seq<(i32, MembershipState)>,
)
    ensures
        spec_rights(owners, user_id, ms) == fold_rights(owners, user_id, ms),
    decreases owners.len(),
{
    if owners.len() > 0 {
        let prefix = owners.drop_last();
        let o = owners.last();
        lemma_rights_is_fold_max(prefix, user_id, ms);
        assert forall|j: int| 0 <= j < prefix.len() implies #[trigger] owners[j] == prefix[j] by {}
        if exists|i: int|
            0 <= i < owners.len() && user_owner_matches(#[trigger] owners[i], user_id) {
            let i = choose|i: int|
                0 <= i < owners.len() && user_owner_matches(#[trigger] owners[i], user_id);
            if i < prefix.len() {
                assert(user_owner_matches(prefix[i], user_id));
            } else {
                assert(user_owner_matches(o, user_id));
            }
        } else {
            assert(!user_owner_matches(o, user_id));
            if exists|i: int|
                0 <= i < owners.len() && team_owner_active(#[trigger] owners[i], ms) {
                let i = choose|i: int|
                    0 <= i < owners.len() && team_owner_active(#[trigger] owners[i], ms);
                if i < prefix.len() {
                    assert(team_owner_active(prefix[i], ms));
                } else {
                    assert(team_owner_active(o, ms));
                }
            } else {
                assert(!team_owner_active(o, ms));
            }
        }
    }
}

/// Any owner set containing the requesting actor as an individual owner
/// yields `Full`, regardless of the other entries.
pub proof fn lemma_user_owner_full(
    owners: Seq<Owner>,
    user_id: i32,
    ms: Seq<(i32, MembershipState)>,
    i: int,
)
    requires
        0 <= i < owners.len(),
        user_owner_matches(owners[i], user_id),
    ensures
        spec_rights(owners, user_id, ms) == Rights::Full,
{
}

/// An empty owner set yields `NoAccess`.
pub proof fn lemma_empty_rights(user_id: i32, ms: Seq<(i32, MembershipState)>)
    ensures
        spec_rights(Seq::<Owner>::empty(), user_id, ms) == Rights::NoAccess,
{
}

/// A single team owner yields `Publish` exactly when the live membership
/// answer for its group is `Active`; in particular a "not found" answer
/// (recorded as `Inactive`) yields `NoAccess`.
pub proof fn lemma_single_team_rights(
    o: Owner,
    user_id: i32,
    ms: Seq<(i32, MembershipState)>,
)
    requires
        o is Team,
    ensures
        team_owner_active(o, ms) ==> spec_rights(seq![o], user_id, ms) == Rights::Publish,
        !team_owner_active(o, ms) ==> spec_rights(seq![o], user_id, ms) == Rights::NoAccess,
{
    assert(seq![o][0] == o);
    assert(!user_owner_matches(o, user_id));
}

} // verus!
