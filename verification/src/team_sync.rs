//! Creating and refreshing group-backed team records.
//!
//! A canonical team login reads `"<provider>:<org>:<team>"`. Resolving one
//! validates the organization name, matches the team against the slugs the
//! provider listed, verifies that the acting user is an *active* member of
//! the matched group — the security gate that decouples "the group exists"
//! from "you may register it as an owner" — and then upserts the stored
//! row, absorbing a changed provider id when a group was recreated.

use vstd::prelude::*;
use vstd::string::*;
use crate::error::OwnerError;
use crate::model::{CrateOwner, NewTeam, Owner, OwnerKind, Team, User};
use crate::provider::{membership_of, membership_lookup, GithubTeam, ProviderData, MembershipState};
use crate::store::{index_of_login, team_by_id, upsert_rel, TeamStore};
use crate::strutil::{
    clone_opt_string,
    find_colon,
    first_colon,
    lemma_first_colon_bounds,
    lemma_first_colon_finds,
    str_eq,
};

verus! {

/// The characters an organization name may hold: `[A-Za-z0-9_-]`.
pub open spec fn valid_org_char(c: char) -> bool {
    let u = c as u32;
    (48 <= u && u <= 57) || (65 <= u && u <= 90) || (97 <= u && u <= 122) || u == 45 || u == 95
}

/// Every character of the organization name is allowed.
pub open spec fn org_ok(s: Seq<char>) -> bool {
    forall|i: int| 0 <= i < s.len() ==> valid_org_char(#[trigger] s[i])
}

/// Index of the first disallowed character at or after `from`, or `s.len()`.
pub open spec fn first_bad_from(s: Seq<char>, from: int) -> int
    decreases s.len() - from,
{
    if from < 0 || from >= s.len() {
        s.len() as int
    } else if !valid_org_char(s[from]) {
        from
    } else {
        first_bad_from(s, from + 1)
    }
}

/// Index of the first disallowed character, or `s.len()` when all are allowed.
pub open spec fn first_bad(s: Seq<char>) -> int {
    first_bad_from(s, 0)
}

fn is_valid_org_char(c: char) -> (r: bool)
    ensures
        r == valid_org_char(c),
{
    let u = c as u32;
    (48 <= u && u <= 57) || (65 <= u && u <= 90) || (97 <= u && u <= 122) || u == 45 || u == 95
}

/// The first character of `org` outside `[A-Za-z0-9_-]`, or `None` when the
/// name is clean.
pub fn first_invalid_org_char(org: &str) -> (r: Option<char>)
    ensures
        r is Some <==> !org_ok(org@),
        r is Some ==> r->0 == org@[first_bad(org@)],
{
    let len = org.unicode_len();
    let mut i: usize = 0;
    while i < len
        invariant
            0 <= i <= len,
            len == org@.len(),
            forall|j: int| 0 <= j < i ==> valid_org_char(#[trigger] org@[j]),
            first_bad(org@) == first_bad_from(org@, i as int),
        decreases len - i,
    {
        let c = org.get_char(i);
        if !is_valid_org_char(c) {
            return Option::Some(c);
        }
        i = i + 1;
    }
    Option::None
}

/// Index of the first listed group at or after `from` whose slug is
/// `name`, or `groups.len()`.
pub open spec fn find_group_from(groups: Seq<GithubTeam>, name: Seq<char>, from: int) -> int
    decreases groups.len() - from,
{
    if from < 0 || from >= groups.len() {
        groups.len() as int
    } else if groups[from].slug@ == name {
        from
    } else {
        find_group_from(groups, name, from + 1)
    }
}

/// Index of the first listed group whose slug is `name`, or `groups.len()`.
pub open spec fn find_group(groups: Seq<GithubTeam>, name: Seq<char>) -> int {
    find_group_from(groups, name, 0)
}

/// Matches `team_name` against the listed slugs, exact and case-sensitive;
/// the index of the first match, or `None` when the name is absent.
pub fn match_group(groups: &Vec<GithubTeam>, team_name: &str) -> (r: Option<usize>)
    ensures
        r is Some <==> find_group(groups@, team_name@) < groups@.len(),
        r is Some ==> r->0 == find_group(groups@, team_name@),
{
    let mut i: usize = 0;
    while i < groups.len()
        invariant
            0 <= i <= groups@.len(),
            forall|j: int| 0 <= j < i ==> (#[trigger] groups@[j]).slug@ != team_name@,
            find_group(groups@, team_name@) == find_group_from(groups@, team_name@, i as int),
        decreases groups@.len() - i,
    {
        if str_eq(groups[i].slug.as_str(), team_name) {
            return Option::Some(i);
        }
        i = i + 1;
    }
    Option::None
}

/// The provider segment of a canonical login: everything before the first
/// `':'`.
pub open spec fn team_login_provider(login: Seq<char>) -> Seq<char> {
    login.subrange(0, first_colon(login, 0))
}

/// Position of the `':'` closing the org segment, or `login.len()`.
pub open spec fn second_colon(login: Seq<char>) -> int {
    first_colon(login, first_colon(login, 0) + 1)
}

/// Position of the `':'` closing the team segment, or `login.len()`.
pub open spec fn third_colon(login: Seq<char>) -> int {
    first_colon(login, second_colon(login) + 1)
}

/// Whether the login has a team segment after `"<provider>:<org>"`.
pub open spec fn has_team_segment(login: Seq<char>) -> bool {
    second_colon(login) < login.len()
}

/// The org segment: between the first and second `':'`.
pub open spec fn team_login_org(login: Seq<char>) -> Seq<char> {
    login.subrange(first_colon(login, 0) + 1, second_colon(login))
}

/// The team segment: between the second and third `':'` (or the end).
pub open spec fn team_login_team(login: Seq<char>) -> Seq<char> {
    login.subrange(second_colon(login) + 1, third_colon(login))
}

/// Splits a canonical team login into its org and team segments, checking
/// the provider prefix. Errors: a prefix other than `"github"` is
/// `UnknownProvider`; a missing team segment is `InvalidFormat`. Extra
/// segments beyond the third are ignored, as the canonical form allows.
pub fn parse_team_login(login: &str) -> (r: Result<(String, String), OwnerError>)
    requires
        login@.contains(':'),
    ensures
        team_login_provider(login@) != "github"@ ==> (r matches Err(e) && e is UnknownProvider),
        team_login_provider(login@) == "github"@ && !has_team_segment(login@) ==> (r matches Err(e)
            && e is InvalidFormat),
        team_login_provider(login@) == "github"@ && has_team_segment(login@) ==> (r matches Ok(p)
            && p.0@ == team_login_org(login@) && p.1@ == team_login_team(login@)),
{
    let ghost s = login@;
    proof {
        let w = choose|i: int| 0 <= i < s.len() && s[i] == ':';
        lemma_first_colon_bounds(s, 0);
        lemma_first_colon_finds(s, 0, w);
    }
    let len = login.unicode_len();
    let c1 = find_colon(login, 0);
    let prefix = login.substring_char(0, c1);
    if !str_eq(prefix, "github") {
        return Result::Err(OwnerError::UnknownProvider);
    }
    proof {
        lemma_first_colon_bounds(s, c1 + 1);
    }
    let c2 = find_colon(login, c1 + 1);
    if c2 == len {
        return Result::Err(OwnerError::InvalidFormat);
    }
    proof {
        lemma_first_colon_bounds(s, c2 + 1);
    }
    let c3 = find_colon(login, c2 + 1);
    let org = login.substring_char(c1 + 1, c2);
    let team = login.substring_char(c2 + 1, c3);
    Result::Ok((String::from_str(org), String::from_str(team)))
}

/// What one attempt to register the team `team_name` under `org` leaves
/// behind, given the provider's answers: rows and next id before
/// (`rows0`, `nid0`) and after (`rows1`, `nid1`), and the result `r`.
///
/// Exactly one branch applies, in the order the algorithm checks them: a
/// bad org character fails with that character and changes nothing; an
/// unlisted team name fails naming org and team; a membership answer other
/// than `Active` is denied; otherwise the row for `login` is upserted with
/// the matched group's id, name, and the org avatar, and returned.
pub open spec fn sync_outcome(
    rows0: Seq<Team>,
    nid0: int,
    rows1: Seq<Team>,
    nid1: int,
    login: Seq<char>,
    org: Seq<char>,
    team_name: Seq<char>,
    groups: Seq<GithubTeam>,
    ms: Seq<(i32, MembershipState)>,
    avatar: Option<String>,
    r: Result<Team, OwnerError>,
) -> bool {
    let gi = find_group(groups, team_name);
    &&& (!org_ok(org) ==> (r matches Err(e) && e == OwnerError::InvalidOrgName(org[first_bad(org)]))
        && rows1 == rows0 && nid1 == nid0)
    &&& (org_ok(org) && gi == groups.len() ==> (r matches Err(e)
        && e matches OwnerError::TeamNotFound(o, t) && o@ == org && t@ == team_name) && rows1
        == rows0 && nid1 == nid0)
    &&& (org_ok(org) && gi < groups.len() && !(membership_of(ms, groups[gi].id) is Active) ==> (
    r matches Err(e) && e is PermissionDenied) && rows1 == rows0 && nid1 == nid0)
    &&& (org_ok(org) && gi < groups.len() && membership_of(ms, groups[gi].id) is Active ==> (
    r matches Ok(t) && t.login@ == login && t.github_id == groups[gi].id && t.name == groups[gi].name
        && t.avatar == avatar && upsert_rel(rows0, rows1, t, login) && (index_of_login(rows0, login)
        < rows0.len() ==> nid1 == nid0) && (index_of_login(rows0, login) == rows0.len() ==> t.id
        == nid0 && nid1 == nid0 + 1)))
}

/// The full outcome of resolving a canonical login `login` against the
/// provider's answers: provider prefix and team segment are checked first,
/// then `sync_outcome` applies to the parsed org and team segments.
pub open spec fn team_resolution_outcome(
    rows0: Seq<Team>,
    nid0: int,
    rows1: Seq<Team>,
    nid1: int,
    login: Seq<char>,
    groups: Seq<GithubTeam>,
    ms: Seq<(i32, MembershipState)>,
    avatar: Option<String>,
    r: Result<Team, OwnerError>,
) -> bool {
    &&& (team_login_provider(login) != "github"@ ==> (r matches Err(e) && e is UnknownProvider)
        && rows1 == rows0 && nid1 == nid0)
    &&& (team_login_provider(login) == "github"@ && !has_team_segment(login) ==> (r matches Err(e)
        && e is InvalidFormat) && rows1 == rows0 && nid1 == nid0)
    &&& (team_login_provider(login) == "github"@ && has_team_segment(login) ==> sync_outcome(
        rows0,
        nid0,
        rows1,
        nid1,
        login,
        team_login_org(login),
        team_login_team(login),
        groups,
        ms,
        avatar,
        r,
    ))
}

impl Team {
    /// Tries to create or update the team for a GitHub group. `org_name`
    /// and `team_name` must be the segments parsed out of the full
    /// canonical `login`, which is passed as a convenience to avoid
    /// rebuilding it. `provider` holds the answers fetched live for
    /// `req_user`: the first page of the org's groups, the membership
    /// states reported for `req_user`, and the org avatar.
    pub fn create_or_update_github_team(
        store: &mut TeamStore,
        login: &str,
        org_name: &str,
        team_name: &str,
        req_user: &User,
        provider: &ProviderData,
    ) -> (r: Result<Team, OwnerError>)
        requires
            old(store).wf(),
            old(store).next_id_spec() < i32::MAX,
        ensures
            final(store).wf(),
            sync_outcome(
                old(store)@,
                old(store).next_id_spec(),
                final(store)@,
                final(store).next_id_spec(),
                login@,
                org_name@,
                team_name@,
                provider.groups@,
                provider.memberships@,
                provider.org_avatar,
                r,
            ),
    {
        let _ = req_user;
        if let Option::Some(c) = first_invalid_org_char(org_name) {
            return Result::Err(OwnerError::InvalidOrgName(c));
        }
        match match_group(&provider.groups, team_name) {
            Option::None => Result::Err(
                OwnerError::TeamNotFound(String::from_str(org_name), String::from_str(team_name)),
            ),
            Option::Some(gi) => {
                let group = &provider.groups[gi];
                let membership = membership_lookup(&provider.memberships, group.id);
                if !membership.is_active() {
                    return Result::Err(OwnerError::PermissionDenied);
                }
                let nt = NewTeam::new(
                    String::from_str(login),
                    group.id,
                    clone_opt_string(&group.name),
                    clone_opt_string(&provider.org_avatar),
                );
                Result::Ok(nt.create_or_update(store))
            },
        }
    }

    /// Resolves a canonical team login (which must contain a `':'`) and
    /// registers or refreshes the team, gated on `req_user`'s live
    /// membership as reported in `provider`.
    pub fn create_or_update(
        store: &mut TeamStore,
        login: &str,
        req_user: &User,
        provider: &ProviderData,
    ) -> (r: Result<Team, OwnerError>)
        requires
            login@.contains(':'),
            old(store).wf(),
            old(store).next_id_spec() < i32::MAX,
        ensures
            final(store).wf(),
            team_resolution_outcome(
                old(store)@,
                old(store).next_id_spec(),
                final(store)@,
                final(store).next_id_spec(),
                login@,
                provider.groups@,
                provider.memberships@,
                provider.org_avatar,
                r,
            ),
    {
        match parse_team_login(login) {
            Result::Err(e) => Result::Err(e),
            Result::Ok((org, team)) => Team::create_or_update_github_team(
                store,
                login,
                org.as_str(),
                team.as_str(),
                req_user,
                provider,
            ),
        }
    }

    /// Whether the membership answers fetched live for the interested user
    /// report them active in this team's group. The answers must be the
    /// provider's response for that user — handing another user's answers
    /// in would leak private membership information.
    pub fn contains_user(&self, memberships: &Vec<(i32, MembershipState)>) -> (r: bool)
        ensures
            r == (membership_of(memberships@, self.github_id) is Active),
    {
        membership_lookup(memberships, self.github_id).is_active()
    }
}

/// The team owners of crate `crate_id`, in row order: rows that are not
/// soft-deleted, are of team kind, and resolve to a stored team.
pub open spec fn owning_spec(rows: Seq<CrateOwner>, teams: Seq<Team>, crate_id: i32) -> Seq<Owner>
    decreases rows.len(),
{
    if rows.len() == 0 {
        Seq::empty()
    } else {
        let prefix = owning_spec(rows.drop_last(), teams, crate_id);
        let row = rows.last();
        if row.crate_id == crate_id && !row.deleted && row.owner_kind == 1 && team_by_id(
            teams,
            row.owner_id,
        ) is Some {
            prefix.push(Owner::Team(team_by_id(teams, row.owner_id)->0))
        } else {
            prefix
        }
    }
}

impl Team {
    /// The owners of team kind recorded for `crate_id`: live (not
    /// soft-deleted) join rows of team kind, joined against the stored
    /// team rows.
    pub fn owning(crate_id: i32, rows: &Vec<CrateOwner>, store: &TeamStore) -> (r: Vec<Owner>)
        ensures
            r@ == owning_spec(rows@, store@, crate_id),
    {
        let mut out: Vec<Owner> = Vec::new();
        let mut i: usize = 0;
        proof {
            assert(rows@.take(0) =~= Seq::<CrateOwner>::empty());
        }
        while i < rows.len()
            invariant
                0 <= i <= rows@.len(),
                out@ == owning_spec(rows@.take(i as int), store@, crate_id),
            decreases rows@.len() - i,
        {
            let row = rows[i];
            if row.crate_id == crate_id && !row.deleted && row.owner_kind
                == OwnerKind::Team.code() {
                match store.find_by_id(row.owner_id) {
                    Option::Some(team) => {
                        out.push(Owner::Team(team));
                    },
                    Option::None => {},
                }
            }
            proof {
                assert(rows@.take(i + 1).drop_last() =~= rows@.take(i as int));
                assert(rows@.take(i + 1).last() == rows@[i as int]);
            }
            i = i + 1;
        }
        proof {
            assert(rows@.take(rows@.len() as int) =~= rows@);
        }
        out
    }
}

} // verus!
