//! Resolving an owner name string to a concrete `Owner`.
//!
//! A name containing a `':'` is a group reference and goes through team
//! resolution — always recreating or refreshing the stored team so its
//! provider id is current; any other name is looked up exactly and
//! case-sensitively as an individual's login.

use vstd::prelude::*;
use vstd::string::*;
use crate::error::OwnerError;
use crate::model::{Owner, Team, User};
use crate::provider::ProviderData;
use crate::store::TeamStore;
use crate::strutil::{find_colon, lemma_first_colon_bounds, lemma_first_colon_finds, str_eq};
use crate::team_sync::team_resolution_outcome;

verus! {

/// Index of the first user at or after `from` whose login is `login`, or
/// `users.len()`.
pub open spec fn user_by_login_from(users: Seq<User>, login: Seq<char>, from: int) -> int
    decreases users.len() - from,
{
    if from < 0 || from >= users.len() {
        users.len() as int
    } else if users[from].gh_login@ == login {
        from
    } else {
        user_by_login_from(users, login, from + 1)
    }
}

/// Index of the first user whose login is `login`, or `users.len()`.
pub open spec fn user_by_login(users: Seq<User>, login: Seq<char>) -> int {
    user_by_login_from(users, login, 0)
}

pub proof fn lemma_user_by_login_bounds(users: Seq<User>, login: Seq<char>, from: int)
    requires
        0 <= from <= users.len(),
    ensures
        from <= user_by_login_from(users, login, from) <= users.len(),
        user_by_login_from(users, login, from) < users.len() ==> users[user_by_login_from(
            users,
            login,
            from,
        )].gh_login@ == login,
        forall|j: int|
            from <= j < user_by_login_from(users, login, from) ==> (#[trigger] users[j]).gh_login@
                != login,
    decreases users.len() - from,
{
    if from < users.len() && users[from].gh_login@ != login {
        lemma_user_by_login_bounds(users, login, from + 1);
    }
}

/// The exact, case-sensitive directory lookup of an individual's login.
pub fn find_user_by_login(users: &Vec<User>, name: &str) -> (r: Option<User>)
    ensures
        r is Some <==> user_by_login(users@, name@) < users@.len(),
        r is Some ==> r->0 == users@[user_by_login(users@, name@)],
{
    let mut i: usize = 0;
    while i < users.len()
        invariant
            0 <= i <= users@.len(),
            forall|j: int| 0 <= j < i ==> (#[trigger] users@[j]).gh_login@ != name@,
            user_by_login(users@, name@) == user_by_login_from(users@, name@, i as int),
        decreases users@.len() - i,
    {
        if str_eq(users[i].gh_login.as_str(), name) {
            return Option::Some(users[i].clone());
        }
        i = i + 1;
    }
    Option::None
}

/// The team-shaped view of an owner resolution result: a resolved team
/// carries through, an error carries through, and a resolved user (which
/// the group path never produces) maps to an error.
pub open spec fn as_team_result(r: Result<Owner, OwnerError>) -> Result<Team, OwnerError> {
    match r {
        Result::Ok(Owner::Team(t)) => Result::Ok(t),
        Result::Ok(Owner::User(_)) => Result::Err(OwnerError::InvalidFormat),
        Result::Err(e) => Result::Err(e),
    }
}

impl Owner {
    /// Finds the owner by name. A name containing `':'` is resolved as a
    /// team — always recreated or refreshed so the stored provider id is
    /// current — and anything else is looked up as an individual's login,
    /// exact and case-sensitive. `provider` holds the identity provider's
    /// answers fetched live for `req_user`; it is only consulted on the
    /// team path. Fails when the user is not in the directory, when the
    /// team is not listed by the provider, or when `req_user` is not an
    /// active member of the team.
    pub fn find_or_create_by_login(
        store: &mut TeamStore,
        users: &Vec<User>,
        req_user: &User,
        name: &str,
        provider: &ProviderData,
    ) -> (r: Result<Owner, OwnerError>)
        requires
            old(store).wf(),
            old(store).next_id_spec() < i32::MAX,
        ensures
            final(store).wf(),
            !name@.contains(':') ==> final(store)@ == old(store)@ && final(store).next_id_spec()
                == old(store).next_id_spec(),
            !name@.contains(':') && user_by_login(users@, name@) < users@.len() ==> (r matches Ok(o)
                && o matches Owner::User(u) && u == users@[user_by_login(users@, name@)]),
            !name@.contains(':') && user_by_login(users@, name@) == users@.len() ==> (r matches Err(
                e,
            ) && e matches OwnerError::UserNotFound(n) && n@ == name@),
            name@.contains(':') ==> (r matches Ok(o) ==> o is Team) && team_resolution_outcome(
                old(store)@,
                old(store).next_id_spec(),
                final(store)@,
                final(store).next_id_spec(),
                name@,
                provider.groups@,
                provider.memberships@,
                provider.org_avatar,
                as_team_result(r),
            ),
    {
        proof {
            lemma_first_colon_bounds(name@, 0);
        }
        let len = name.unicode_len();
        let c1 = find_colon(name, 0);
        if c1 < len {
            match Team::create_or_update(store, name, req_user, provider) {
                Result::Ok(team) => Result::Ok(Owner::Team(team)),
                Result::Err(e) => Result::Err(e),
            }
        } else {
            proof {
                lemma_user_by_login_bounds(users@, name@, 0);
                if name@.contains(':') {
                    let w = choose|i: int| 0 <= i < name@.len() && name@[i] == ':';
                    lemma_first_colon_finds(name@, 0, w);
                }
            }
            match find_user_by_login(users, name) {
                Option::Some(user) => Result::Ok(Owner::User(user)),
                Option::None => Result::Err(
                    OwnerError::UserNotFound(String::from_str(name)),
                ),
            }
        }
    }
}

} // verus!
