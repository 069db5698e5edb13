//! The data model: individual users, group-backed teams, the crate/owner
//! join record, and the `Owner` sum type that unifies the two kinds of
//! owner.

use vstd::prelude::*;
use crate::strutil::clone_opt_string;

verus! {

/// An individual identity as the registry stores it: surrogate key,
/// provider login, and optional display metadata.
#[derive(Debug)]
pub struct User {
    pub id: i32,
    pub gh_login: String,
    pub name: Option<String>,
    pub gh_avatar: Option<String>,
}

impl Clone for User {
    fn clone(&self) -> (res: User)
        ensures
            res == *self,
    {
        User {
            id: self.id,
            gh_login: self.gh_login.clone(),
            name: clone_opt_string(&self.name),
            gh_avatar: clone_opt_string(&self.gh_avatar),
        }
    }
}

/// A group-backed owner as persisted.
///
/// `login` is the canonical `"github:org:team"` string: globally unique,
/// immutable once created, and the only identifier ever exposed outside
/// this subsystem. `github_id` is the provider's numeric id; it can change
/// over the row's lifetime, because a group can be deleted and recreated
/// under the same name with a new id.
#[derive(Debug)]
pub struct Team {
    pub id: i32,
    pub login: String,
    pub github_id: i32,
    pub name: Option<String>,
    pub avatar: Option<String>,
}

impl Clone for Team {
    fn clone(&self) -> (res: Team)
        ensures
            res == *self,
    {
        Team {
            id: self.id,
            login: self.login.clone(),
            github_id: self.github_id,
            name: clone_opt_string(&self.name),
            avatar: clone_opt_string(&self.avatar),
        }
    }
}

/// The values of a team row about to be inserted or refreshed; the
/// surrogate `id` is assigned by the store.
#[derive(Debug)]
pub struct NewTeam {
    pub login: String,
    pub github_id: i32,
    pub name: Option<String>,
    pub avatar: Option<String>,
}

impl NewTeam {
    pub fn new(login: String, github_id: i32, name: Option<String>, avatar: Option<String>) -> (t:
        NewTeam)
        ensures
            t.login == login,
            t.github_id == github_id,
            t.name == name,
            t.avatar == avatar,
    {
        NewTeam { login, github_id, name, avatar }
    }
}

/// The join record linking a crate to one of its owners. Rows are never
/// hard-deleted: removal sets `deleted`, keeping `created_by` as an audit
/// trail. `(crate_id, owner_id, owner_kind)` is the composite key.
#[derive(Debug, Clone, Copy, PartialEq, Eq, Structural)]
pub struct CrateOwner {
    pub crate_id: i32,
    pub owner_id: i32,
    pub created_by: i32,
    pub owner_kind: i32,
    pub deleted: bool,
}

/// Which kind of principal an owner row points at.
#[derive(Debug, Clone, Copy, PartialEq, Eq, Structural)]
pub enum OwnerKind {
    User,
    Team,
}

impl OwnerKind {
    /// The integer stored in `CrateOwner::owner_kind`.
    pub open spec fn code_spec(self) -> i32 {
        match self {
            OwnerKind::User => 0,
            OwnerKind::Team => 1,
        }
    }

    pub fn code(self) -> (r: i32)
        ensures
            r == self.code_spec(),
    {
        match self {
            OwnerKind::User => 0,
            OwnerKind::Team => 1,
        }
    }
}

/// Unifies the notion of a `User` or a `Team` as a closed sum type; shared
/// accessors dispatch by pattern match.
#[derive(Debug)]
pub enum Owner {
    User(User),
    Team(Team),
}

impl Owner {
    pub open spec fn kind_spec(&self) -> i32 {
        match self {
            Owner::User(_) => 0,
            Owner::Team(_) => 1,
        }
    }

    pub open spec fn login_spec(&self) -> Seq<char> {
        match self {
            Owner::User(u) => u.gh_login@,
            Owner::Team(t) => t.login@,
        }
    }

    pub open spec fn id_spec(&self) -> i32 {
        match self {
            Owner::User(u) => u.id,
            Owner::Team(t) => t.id,
        }
    }

    pub fn kind(&self) -> (r: i32)
        ensures
            r == self.kind_spec(),
    {
        match self {
            Owner::User(_) => OwnerKind::User.code(),
            Owner::Team(_) => OwnerKind::Team.code(),
        }
    }

    pub fn login<'a>(&'a self) -> (r: &'a str)
        ensures
            r@ == self.login_spec(),
    {
        match self {
            Owner::User(u) => u.gh_login.as_str(),
            Owner::Team(t) => t.login.as_str(),
        }
    }

    pub fn id(&self) -> (r: i32)
        ensures
            r == self.id_spec(),
    {
        match self {
            Owner::User(u) => u.id,
            Owner::Team(t) => t.id,
        }
    }
}

} // verus!
