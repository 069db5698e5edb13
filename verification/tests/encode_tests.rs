use owners::{CrateOwner, NewTeam, Owner, OwnerKind, Team, TeamStore, User};

fn sample_team() -> Team {
    Team {
        id: 5,
        login: String::from("github:rust-lang:core"),
        github_id: 42,
        name: Some(String::from("The Core Team")),
        avatar: Some(String::from("https://example.test/a.png")),
    }
}

fn sample_user() -> User {
    User {
        id: 7,
        gh_login: String::from("octocat"),
        name: Some(String::from("The Octocat")),
        gh_avatar: Some(String::from("https://example.test/o.png")),
    }
}

#[test]
fn team_url_is_derived_from_the_org_segment() {
    assert_eq!(Team::github_url("github:rust-lang:core"), "https://github.com/rust-lang");
    assert_eq!(Team::github_url("github:org"), "https://github.com/org");
}

#[test]
fn team_encodable_projects_fields_and_url() {
    let e = sample_team().encodable();
    assert_eq!(e.id, 5);
    assert_eq!(e.login, "github:rust-lang:core");
    assert_eq!(e.name, Some(String::from("The Core Team")));
    assert_eq!(e.avatar, Some(String::from("https://example.test/a.png")));
    assert_eq!(e.url, Some(String::from("https://github.com/rust-lang")));
}

#[test]
fn owner_encodable_for_a_user() {
    let e = Owner::User(sample_user()).encodable();
    assert_eq!(e.id, 7);
    assert_eq!(e.login, "octocat");
    assert_eq!(e.kind, "user");
    assert_eq!(e.url, Some(String::from("https://github.com/octocat")));
    assert_eq!(e.name, Some(String::from("The Octocat")));
    assert_eq!(e.avatar, Some(String::from("https://example.test/o.png")));
}

#[test]
fn owner_encodable_for_a_team() {
    let e = Owner::Team(sample_team()).encodable();
    assert_eq!(e.id, 5);
    assert_eq!(e.login, "github:rust-lang:core");
    assert_eq!(e.kind, "team");
    assert_eq!(e.url, Some(String::from("https://github.com/rust-lang")));
    assert_eq!(e.name, Some(String::from("The Core Team")));
}

#[test]
fn owner_accessors_dispatch_by_kind() {
    let u = Owner::User(sample_user());
    assert_eq!(u.kind(), 0);
    assert_eq!(u.login(), "octocat");
    assert_eq!(u.id(), 7);
    let t = Owner::Team(sample_team());
    assert_eq!(t.kind(), 1);
    assert_eq!(t.login(), "github:rust-lang:core");
    assert_eq!(t.id(), 5);
    assert_eq!(OwnerKind::User.code(), 0);
    assert_eq!(OwnerKind::Team.code(), 1);
}

#[test]
fn owning_joins_live_team_rows_only() {
    let mut store = TeamStore::new();
    NewTeam::new(String::from("github:org:alpha"), 10, None, None).create_or_update(&mut store);
    NewTeam::new(String::from("github:org:beta"), 20, None, None).create_or_update(&mut store);
    let rows = vec![
        // the live team row that should come back
        CrateOwner { crate_id: 1, owner_id: 1, created_by: 7, owner_kind: 1, deleted: false },
        // soft-deleted: ignored
        CrateOwner { crate_id: 1, owner_id: 2, created_by: 7, owner_kind: 1, deleted: true },
        // a user row: ignored by the team join
        CrateOwner { crate_id: 1, owner_id: 7, created_by: 7, owner_kind: 0, deleted: false },
        // another crate: ignored
        CrateOwner { crate_id: 2, owner_id: 2, created_by: 7, owner_kind: 1, deleted: false },
        // dangling team id: ignored
        CrateOwner { crate_id: 1, owner_id: 9, created_by: 7, owner_kind: 1, deleted: false },
    ];
    let owners = Team::owning(1, &rows, &store);
    assert_eq!(owners.len(), 1);
    match &owners[0] {
        Owner::Team(t) => {
            assert_eq!(t.login, "github:org:alpha");
            assert_eq!(t.github_id, 10);
        }
        other => panic!("expected a team owner, got {:?}", other),
    }
}

#[test]
fn owning_keeps_row_order() {
    let mut store = TeamStore::new();
    NewTeam::new(String::from("github:org:alpha"), 10, None, None).create_or_update(&mut store);
    NewTeam::new(String::from("github:org:beta"), 20, None, None).create_or_update(&mut store);
    let rows = vec![
        CrateOwner { crate_id: 1, owner_id: 2, created_by: 7, owner_kind: 1, deleted: false },
        CrateOwner { crate_id: 1, owner_id: 1, created_by: 7, owner_kind: 1, deleted: false },
    ];
    let owners = Team::owning(1, &rows, &store);
    assert_eq!(owners.len(), 2);
    assert_eq!(owners[0].id(), 2);
    assert_eq!(owners[1].id(), 1);
}
