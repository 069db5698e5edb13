use owners::{rights, MembershipState, Owner, Rights, Team, User};
use owners::provider::{membership_from_response, membership_lookup};

fn user(id: i32, login: &str) -> User {
    User { id, gh_login: String::from(login), name: None, gh_avatar: None }
}

fn team(id: i32, login: &str, github_id: i32) -> Team {
    Team { id, login: String::from(login), github_id, name: None, avatar: None }
}

#[test]
fn user_owner_gives_full_regardless_of_other_entries() {
    let actor = user(7, "octocat");
    let owners = vec![
        Owner::Team(team(1, "github:org:dup", 31)),
        Owner::User(user(3, "alice")),
        Owner::User(user(7, "octocat")),
        Owner::Team(team(2, "not-even-canonical", 31)),
        Owner::Team(team(1, "github:org:dup", 31)),
    ];
    // no membership answers at all: the user match alone decides
    assert_eq!(rights(&owners, &actor, &vec![]), Rights::Full);
}

#[test]
fn empty_owner_list_gives_no_access() {
    let actor = user(7, "octocat");
    assert_eq!(rights(&vec![], &actor, &vec![]), Rights::NoAccess);
}

#[test]
fn single_team_with_not_found_membership_gives_no_access() {
    let actor = user(7, "octocat");
    let owners = vec![Owner::Team(team(1, "github:rust-lang:core", 42))];
    // no entry for group 42: the provider answered "not found"
    assert_eq!(rights(&owners, &actor, &vec![]), Rights::NoAccess);
}

#[test]
fn single_team_with_active_membership_gives_publish() {
    let actor = user(7, "octocat");
    let owners = vec![Owner::Team(team(1, "github:rust-lang:core", 42))];
    let ms = vec![(42, MembershipState::Active)];
    assert_eq!(rights(&owners, &actor, &ms), Rights::Publish);
}

#[test]
fn pending_membership_grants_nothing() {
    let actor = user(7, "octocat");
    let owners = vec![Owner::Team(team(1, "github:rust-lang:core", 42))];
    let ms = vec![(42, MembershipState::Pending)];
    assert_eq!(rights(&owners, &actor, &ms), Rights::NoAccess);
}

#[test]
fn inactive_membership_grants_nothing() {
    let actor = user(7, "octocat");
    let owners = vec![Owner::Team(team(1, "github:rust-lang:core", 42))];
    let ms = vec![(42, MembershipState::Inactive)];
    assert_eq!(rights(&owners, &actor, &ms), Rights::NoAccess);
}

#[test]
fn active_team_among_others_gives_publish_without_user_match() {
    let actor = user(7, "octocat");
    let owners = vec![
        Owner::User(user(3, "alice")),
        Owner::Team(team(1, "github:rust-lang:core", 42)),
        Owner::Team(team(2, "github:rust-lang:docs", 43)),
    ];
    let ms = vec![(42, MembershipState::Inactive), (43, MembershipState::Active)];
    assert_eq!(rights(&owners, &actor, &ms), Rights::Publish);
}

#[test]
fn rights_order_is_total() {
    assert!(Rights::NoAccess < Rights::Publish);
    assert!(Rights::Publish < Rights::Full);
    assert!(Rights::NoAccess < Rights::Full);
    assert_eq!(Rights::Publish, Rights::Publish);
}

#[test]
fn max_matches_the_aggregate_over_every_combination() {
    let all = [Rights::NoAccess, Rights::Publish, Rights::Full];
    for &a in &all {
        for &b in &all {
            let expected = if a < b { b } else { a };
            assert_eq!(a.max(b), expected);
            assert_eq!(b.max(a), expected);
        }
    }
}

#[test]
fn max_of_individually_computed_rights_matches_aggregate() {
    let actor = user(7, "octocat");
    let t = team(1, "github:rust-lang:core", 42);
    let u = user(3, "alice");
    let ms = vec![(42, MembershipState::Active)];
    // individually computed
    let r_team = rights(&vec![Owner::Team(t)], &actor, &ms);
    let r_user = rights(&vec![Owner::User(u)], &actor, &ms);
    // the real aggregate over both entries
    let both = vec![
        Owner::Team(team(1, "github:rust-lang:core", 42)),
        Owner::User(user(3, "alice")),
    ];
    assert_eq!(rights(&both, &actor, &ms), r_team.max(r_user));
}

#[test]
fn membership_mapping_not_found_means_inactive() {
    assert_eq!(membership_from_response(true, "active"), MembershipState::Inactive);
}

#[test]
fn membership_mapping_reads_the_state_field() {
    assert_eq!(membership_from_response(false, "active"), MembershipState::Active);
    assert_eq!(membership_from_response(false, "pending"), MembershipState::Pending);
    assert_eq!(membership_from_response(false, "revoked"), MembershipState::Inactive);
    assert_eq!(membership_from_response(false, ""), MembershipState::Inactive);
}

#[test]
fn membership_lookup_finds_first_entry_or_inactive() {
    let ms = vec![
        (41, MembershipState::Pending),
        (42, MembershipState::Active),
        (42, MembershipState::Inactive),
    ];
    assert_eq!(membership_lookup(&ms, 41), MembershipState::Pending);
    assert_eq!(membership_lookup(&ms, 42), MembershipState::Active);
    assert_eq!(membership_lookup(&ms, 99), MembershipState::Inactive);
}
