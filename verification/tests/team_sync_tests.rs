use owners::{GithubTeam, MembershipState, NewTeam, OwnerError, ProviderData, Team, TeamStore, User};
use owners::team_sync::parse_team_login;

fn actor() -> User {
    User { id: 7, gh_login: String::from("octocat"), name: None, gh_avatar: None }
}

fn provider_with(groups: Vec<GithubTeam>, memberships: Vec<(i32, MembershipState)>) -> ProviderData {
    ProviderData { groups, memberships, org_avatar: None }
}

fn core_group(id: i32) -> GithubTeam {
    GithubTeam { slug: String::from("core"), id, name: Some(String::from("The Core Team")) }
}

#[test]
fn org_with_space_fails_citing_the_space() {
    let mut store = TeamStore::new();
    let provider = provider_with(vec![core_group(42)], vec![(42, MembershipState::Active)]);
    let r = Team::create_or_update_github_team(
        &mut store,
        "github:rust lang:core",
        "rust lang",
        "core",
        &actor(),
        &provider,
    );
    match r {
        Err(OwnerError::InvalidOrgName(c)) => {
            assert_eq!(c, ' ');
            assert_eq!(
                OwnerError::InvalidOrgName(c).message(),
                format!("organization cannot contain special characters like {}", ' ')
            );
        }
        other => panic!("expected InvalidOrgName, got {:?}", other),
    }
    assert_eq!(store.count(), 0);
}

#[test]
fn unlisted_team_name_is_not_found() {
    let mut store = TeamStore::new();
    let provider = provider_with(vec![core_group(42)], vec![(42, MembershipState::Active)]);
    let r = Team::create_or_update_github_team(
        &mut store,
        "github:rust-lang:docs",
        "rust-lang",
        "docs",
        &actor(),
        &provider,
    );
    match r {
        Err(OwnerError::TeamNotFound(org, name)) => {
            assert_eq!(org, "rust-lang");
            assert_eq!(name, "docs");
            assert_eq!(
                OwnerError::TeamNotFound(org, name).message(),
                "could not find the github team rust-lang/docs"
            );
        }
        other => panic!("expected TeamNotFound, got {:?}", other),
    }
    assert_eq!(store.count(), 0);
}

#[test]
fn slug_match_is_case_sensitive() {
    let mut store = TeamStore::new();
    let provider = provider_with(vec![core_group(42)], vec![(42, MembershipState::Active)]);
    let r = Team::create_or_update_github_team(
        &mut store,
        "github:rust-lang:Core",
        "rust-lang",
        "Core",
        &actor(),
        &provider,
    );
    assert!(matches!(r, Err(OwnerError::TeamNotFound(_, _))));
}

#[test]
fn non_active_membership_is_denied() {
    for state in [MembershipState::Pending, MembershipState::Inactive] {
        let mut store = TeamStore::new();
        let provider = provider_with(vec![core_group(42)], vec![(42, state)]);
        let r = Team::create_or_update_github_team(
            &mut store,
            "github:rust-lang:core",
            "rust-lang",
            "core",
            &actor(),
            &provider,
        );
        assert!(matches!(r, Err(OwnerError::PermissionDenied)));
        assert_eq!(store.count(), 0);
    }
}

#[test]
fn membership_not_found_is_denied() {
    let mut store = TeamStore::new();
    // no membership entry for group 42 at all: "not found" means inactive
    let provider = provider_with(vec![core_group(42)], vec![]);
    let r = Team::create_or_update_github_team(
        &mut store,
        "github:rust-lang:core",
        "rust-lang",
        "core",
        &actor(),
        &provider,
    );
    assert!(matches!(r, Err(OwnerError::PermissionDenied)));
}

#[test]
fn successful_registration_stores_provider_values() {
    let mut store = TeamStore::new();
    let provider = ProviderData {
        groups: vec![core_group(42)],
        memberships: vec![(42, MembershipState::Active)],
        org_avatar: Some(String::from("https://example.test/a.png")),
    };
    let team = Team::create_or_update_github_team(
        &mut store,
        "github:rust-lang:core",
        "rust-lang",
        "core",
        &actor(),
        &provider,
    )
    .unwrap();
    assert_eq!(team.id, 1);
    assert_eq!(team.login, "github:rust-lang:core");
    assert_eq!(team.github_id, 42);
    assert_eq!(team.name, Some(String::from("The Core Team")));
    assert_eq!(team.avatar, Some(String::from("https://example.test/a.png")));
    assert_eq!(store.count(), 1);
    assert_eq!(store.get(0).github_id, 42);
}

#[test]
fn recreated_group_converges_to_one_row_with_the_new_id() {
    let mut store = TeamStore::new();
    let first = provider_with(vec![core_group(42)], vec![(42, MembershipState::Active)]);
    let t1 = Team::create_or_update_github_team(
        &mut store,
        "github:rust-lang:core",
        "rust-lang",
        "core",
        &actor(),
        &first,
    )
    .unwrap();
    // the group was deleted and recreated: same slug, new provider id
    let second = provider_with(vec![core_group(99)], vec![(99, MembershipState::Active)]);
    let t2 = Team::create_or_update_github_team(
        &mut store,
        "github:rust-lang:core",
        "rust-lang",
        "core",
        &actor(),
        &second,
    )
    .unwrap();
    assert_eq!(store.count(), 1);
    assert_eq!(store.get(0).github_id, 99);
    assert_eq!(t2.id, t1.id);
    assert_eq!(t2.github_id, 99);
}

#[test]
fn upsert_inserts_then_updates_in_place() {
    let mut store = TeamStore::new();
    let a = NewTeam::new(String::from("github:org:alpha"), 10, None, None);
    let b = NewTeam::new(String::from("github:org:beta"), 20, None, None);
    let ta = a.create_or_update(&mut store);
    let tb = b.create_or_update(&mut store);
    assert_eq!(ta.id, 1);
    assert_eq!(tb.id, 2);
    assert_eq!(store.count(), 2);
    let a2 = NewTeam::new(
        String::from("github:org:alpha"),
        11,
        Some(String::from("Alpha")),
        None,
    );
    let ta2 = a2.create_or_update(&mut store);
    assert_eq!(ta2.id, 1);
    assert_eq!(ta2.github_id, 11);
    assert_eq!(store.count(), 2);
    assert_eq!(store.get(0).github_id, 11);
    assert_eq!(store.get(0).name, Some(String::from("Alpha")));
    assert_eq!(store.get(1).github_id, 20);
}

#[test]
fn find_by_id_resolves_stored_rows() {
    let mut store = TeamStore::new();
    NewTeam::new(String::from("github:org:alpha"), 10, None, None).create_or_update(&mut store);
    let found = store.find_by_id(1).unwrap();
    assert_eq!(found.login, "github:org:alpha");
    assert!(store.find_by_id(5).is_none());
}

#[test]
fn parse_splits_canonical_login() {
    let (org, team) = parse_team_login("github:rust-lang:core").unwrap();
    assert_eq!(org, "rust-lang");
    assert_eq!(team, "core");
}

#[test]
fn parse_ignores_segments_beyond_the_third() {
    let (org, team) = parse_team_login("github:rust-lang:core:extra").unwrap();
    assert_eq!(org, "rust-lang");
    assert_eq!(team, "core");
}

#[test]
fn parse_missing_team_segment_is_invalid_format() {
    let r = parse_team_login("github:rust-lang");
    assert!(matches!(r, Err(OwnerError::InvalidFormat)));
}

#[test]
fn parse_other_provider_is_unknown() {
    let r = parse_team_login("gitlab:rust-lang:core");
    assert!(matches!(r, Err(OwnerError::UnknownProvider)));
    let r2 = parse_team_login(":rust-lang:core");
    assert!(matches!(r2, Err(OwnerError::UnknownProvider)));
}

#[test]
fn create_or_update_resolves_the_full_login() {
    let mut store = TeamStore::new();
    let provider = provider_with(vec![core_group(42)], vec![(42, MembershipState::Active)]);
    let team =
        Team::create_or_update(&mut store, "github:rust-lang:core", &actor(), &provider).unwrap();
    assert_eq!(team.login, "github:rust-lang:core");
    assert_eq!(team.github_id, 42);
}

#[test]
fn contains_user_reads_the_live_answer() {
    let team = Team {
        id: 1,
        login: String::from("github:rust-lang:core"),
        github_id: 42,
        name: None,
        avatar: None,
    };
    assert!(team.contains_user(&vec![(42, MembershipState::Active)]));
    assert!(!team.contains_user(&vec![(42, MembershipState::Pending)]));
    assert!(!team.contains_user(&vec![]));
}
