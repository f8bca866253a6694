use vault42_authority::error::Error;
use vault42_authority::rbac::{OrgRole, ProjectRole, TeamRole};

#[test]
fn org_roles_round_trip_and_reject_junk() {
    for role in [OrgRole::Owner, OrgRole::Admin, OrgRole::Member] {
        assert_eq!(OrgRole::parse(role.as_str()).unwrap(), role);
    }
    assert!(OrgRole::parse("Owner").is_err(), "case must not be accepted");
    assert!(OrgRole::parse("root").is_err());
    assert!(OrgRole::parse("").is_err());
}

#[test]
fn only_owner_and_admin_administer() {
    assert!(OrgRole::Owner.can_administer());
    assert!(OrgRole::Admin.can_administer());
    assert!(!OrgRole::Member.can_administer());
    assert!(OrgRole::Member.require_admin().is_err());
    assert!(OrgRole::Admin.require_admin().is_ok());
}

#[test]
fn team_roles_round_trip_and_reject_junk() {
    for role in [TeamRole::Admin, TeamRole::Member] {
        assert_eq!(TeamRole::parse(role.as_str()).unwrap(), role);
    }
    assert!(TeamRole::parse("owner").is_err(), "owner is an org role, not a team role");
    assert!(TeamRole::parse("").is_err());
}

#[test]
fn project_roles_round_trip_and_reject_junk() {
    for role in [ProjectRole::Admin, ProjectRole::Write, ProjectRole::Read] {
        assert_eq!(ProjectRole::parse(role.as_str()).unwrap(), role);
    }
    assert!(ProjectRole::parse("owner").is_err());
}

#[test]
fn a_refused_role_names_what_was_sent() {
    match OrgRole::parse("root") {
        Err(Error::BadRequest(m)) => {
            assert_eq!(m, "role must be owner, admin or member; got \"root\"")
        }
        other => panic!("unexpected {other:?}"),
    }
    match TeamRole::parse("owner") {
        Err(Error::BadRequest(m)) => assert_eq!(m, "team_role must be admin or member; got \"owner\""),
        other => panic!("unexpected {other:?}"),
    }
    match ProjectRole::parse("x") {
        Err(Error::BadRequest(m)) => {
            assert_eq!(m, "project_role must be admin, write or read; got \"x\"")
        }
        other => panic!("unexpected {other:?}"),
    }
}

#[test]
fn require_admin_hands_the_role_back_or_forbids() {
    assert_eq!(OrgRole::Owner.require_admin().unwrap(), OrgRole::Owner);
    assert!(matches!(OrgRole::Member.require_admin(), Err(Error::Forbidden)));
}
