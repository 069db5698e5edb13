//! Public projections of owners: the shape handed to API consumers, with
//! the provider URL always derived from the login, never stored.

use vstd::prelude::*;
use vstd::string::*;
use crate::model::{Owner, Team, User};
use crate::strutil::{find_colon, first_colon, lemma_first_colon_bounds, lemma_first_colon_finds};

verus! {

/// The public projection of a team.
#[derive(Debug)]
pub struct EncodableTeam {
    pub id: i32,
    pub login: String,
    pub name: Option<String>,
    pub avatar: Option<String>,
    pub url: Option<String>,
}

/// The public projection of an owner of either kind; `kind` is `"user"`
/// or `"team"`.
#[derive(Debug)]
pub struct EncodableOwner {
    pub id: i32,
    pub login: String,
    pub kind: String,
    pub url: Option<String>,
    pub name: Option<String>,
    pub avatar: Option<String>,
}

/// The derived URL of the org behind a canonical team login: the provider
/// host followed by the org segment (between the first and second `':'`).
pub open spec fn github_org_url(login: Seq<char>) -> Seq<char> {
    "https://github.com/"@ + login.subrange(
        first_colon(login, 0) + 1,
        first_colon(login, first_colon(login, 0) + 1),
    )
}

/// The derived URL of an individual: the provider host followed by the
/// login.
pub open spec fn github_user_url(login: Seq<char>) -> Seq<char> {
    "https://github.com/"@ + login
}

impl Team {
    /// The org page behind a canonical team login, derived from the org
    /// segment of the login.
    pub fn github_url(login: &str) -> (r: String)
        requires
            login@.contains(':'),
        ensures
            r@ == github_org_url(login@),
    {
        proof {
            let w = choose|i: int| 0 <= i < login@.len() && login@[i] == ':';
            lemma_first_colon_bounds(login@, 0);
            lemma_first_colon_finds(login@, 0, w);
        }
        let len = login.unicode_len();
        let c1 = find_colon(login, 0);
        assert(c1 < len);
        proof {
            lemma_first_colon_bounds(login@, c1 + 1);
        }
        let c2 = find_colon(login, c1 + 1);
        let org = login.substring_char(c1 + 1, c2);
        String::from_str("https://github.com/").concat(org)
    }

    /// The public projection; the URL is derived from the login, which
    /// must be canonical (hold a `':'`).
    pub fn encodable(self) -> (e: EncodableTeam)
        requires
            self.login@.contains(':'),
        ensures
            e.id == self.id,
            e.login == self.login,
            e.name == self.name,
            e.avatar == self.avatar,
            (e.url matches Some(u) && u@ == github_org_url(self.login@)),
    {
        let url = Team::github_url(self.login.as_str());
        let Team { id, login, github_id: _, name, avatar } = self;
        EncodableTeam { id, login, name, avatar, url: Option::Some(url) }
    }
}

impl Owner {
    /// The public projection of either kind of owner: `kind` says which,
    /// and the URL is derived — the user's page for a user, the org page
    /// for a team.
    pub fn encodable(self) -> (e: EncodableOwner)
        requires
            self matches Owner::Team(t) ==> t.login@.contains(':'),
        ensures
            self matches Owner::User(u) ==> e.id == u.id && e.login == u.gh_login && e.kind@
                == "user"@ && e.name == u.name && e.avatar == u.gh_avatar && (e.url matches Some(
                url,
            ) && url@ == github_user_url(u.gh_login@)),
            self matches Owner::Team(t) ==> e.id == t.id && e.login == t.login && e.kind@
                == "team"@ && e.name == t.name && e.avatar == t.avatar && (e.url matches Some(url)
                && url@ == github_org_url(t.login@)),
    {
        match self {
            Owner::User(user) => {
                let url = String::from_str("https://github.com/").concat(user.gh_login.as_str());
                let User { id, gh_login, name, gh_avatar } = user;
                EncodableOwner {
                    id,
                    login: gh_login,
                    kind: String::from_str("user"),
                    url: Option::Some(url),
                    name,
                    avatar: gh_avatar,
                }
            },
            Owner::Team(team) => {
                let url = Team::github_url(team.login.as_str());
                let Team { id, login, github_id: _, name, avatar } = team;
                EncodableOwner {
                    id,
                    login,
                    kind: String::from_str("team"),
                    url: Option::Some(url),
                    name,
                    avatar,
                }
            },
        }
    }
}

} // verus!
