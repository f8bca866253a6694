use vault42_authority::error::Error;
use vault42_authority::handlers::environments::{check_scope_key, env_name, new_environment, CreateEnvReq, ScopeKeyReq};
use vault42_authority::handlers::grants::{check_grant, fulfilment_scope, new_grant, require_grant_in_project, GrantReq};
use vault42_authority::rbac::ProjectRole;
use vault42_authority::store::grants::GranteeKind;
use vault42_authority::handlers::groups::{new_group, CreateGroupReq};
use vault42_authority::handlers::orgs::{check_display_name, new_org, CreateOrgReq};
use vault42_authority::handlers::projects::{new_project, CreateProjectReq};
use vault42_authority::handlers::pubkeys::{keys_to_store, read_back, PutPubkeyReq};
use vault42_authority::handlers::teams::{new_team, requested_team_role, AddMemberReq, CreateTeamReq};
use vault42_authority::handlers::{check_slug, check_uuid, member_key, no_member, INVITE_TTL_SECS};
use vault42_authority::rbac::TeamRole;

#[test]
fn ids_must_be_uuids() {
    check_uuid("67e55044-10b1-426f-9247-bb680e5fe0c8", "id").expect("hyphenated");
    assert!(matches!(check_uuid("not-a-uuid", "id"), Err(Error::BadRequest(m)) if m == "id must be a UUID"));
    let req = CreateTeamReq { slug: "ops".into(), name: "Ops".into() };
    let fresh = new_team("o1", &req).unwrap().0.id;
    assert_eq!(fresh.len(), 36);
    check_uuid(&fresh, "id").expect("a fresh id is a UUID");
    assert_ne!(fresh, new_team("o1", &req).unwrap().0.id);
    assert_eq!(INVITE_TTL_SECS, 604_800);
}

#[test]
fn slugs_follow_the_identifier_rule() {
    check_slug("acme", "slug").expect("valid");
    assert!(matches!(
        check_slug("Acme Corp", "slug"),
        Err(Error::BadRequest(m)) if m == "slug must be 1..=64 characters of [A-Za-z0-9_-]"
    ));
}

#[test]
fn a_member_reference_is_an_id_or_an_address() {
    assert_eq!(member_key(" Dev@X.test "), "dev@x.test");
    assert_eq!(member_key("3f2a-id"), "3f2a-id");
    assert!(matches!(no_member("bob"), Error::BadRequest(m) if m == "no member \"bob\" in this organization"));
}

#[test]
fn creating_an_organization_checks_slug_then_name() {
    let body = CreateOrgReq { slug: "acme".into(), name: "Acme".into() };
    let (row, answer) = new_org(&body, "a1", 77).unwrap();
    assert_eq!(row.id, answer.id);
    assert_eq!(row.slug, "acme");
    assert_eq!(row.created_by, "a1");
    assert_eq!(row.created_at, 77);
    let blank = CreateOrgReq { slug: "acme".into(), name: "   ".into() };
    assert!(matches!(new_org(&blank, "a1", 0), Err(Error::BadRequest(m)) if m == "name must be 1..=200 characters"));
    let both = CreateOrgReq { slug: "no good".into(), name: "   ".into() };
    assert!(matches!(new_org(&both, "a1", 0), Err(Error::BadRequest(m)) if m.starts_with("slug")));
    check_display_name(&"n".repeat(200)).expect("the limit itself");
    assert!(check_display_name(&"n".repeat(201)).is_err());
}

#[test]
fn a_project_id_is_chosen_or_drawn() {
    let chosen = CreateProjectReq {
        slug: "web".into(),
        name: "Web".into(),
        id: Some("67e55044-10b1-426f-9247-bb680e5fe0c8".into()),
    };
    let (row, answer) = new_project("o1", &chosen).unwrap();
    assert_eq!(row.id, "67e55044-10b1-426f-9247-bb680e5fe0c8");
    assert_eq!(answer.id, row.id);
    assert_eq!(row.org_id, "o1");
    let drawn = CreateProjectReq { slug: "web".into(), name: "Web".into(), id: None };
    assert_eq!(new_project("o1", &drawn).unwrap().0.id.len(), 36);
    let junk = CreateProjectReq { slug: "web".into(), name: "Web".into(), id: Some("p1".into()) };
    assert!(matches!(new_project("o1", &junk), Err(Error::BadRequest(m)) if m == "id must be a UUID"));
}

#[test]
fn teams_and_team_roles() {
    let (row, answer) = new_team("o1", &CreateTeamReq { slug: "ops".into(), name: "Ops".into() }).unwrap();
    assert_eq!(row.org_id, "o1");
    assert_eq!(answer.slug, "ops");
    assert!(new_team("o1", &CreateTeamReq { slug: "".into(), name: "x".into() }).is_err());
    let default = AddMemberReq { user_id: "u".into(), team_role: None };
    assert_eq!(requested_team_role(&default).unwrap(), TeamRole::Member);
    let admin = AddMemberReq { user_id: "u".into(), team_role: Some("admin".into()) };
    assert_eq!(requested_team_role(&admin).unwrap(), TeamRole::Admin);
    let owner = AddMemberReq { user_id: "u".into(), team_role: Some("owner".into()) };
    assert!(requested_team_role(&owner).is_err());
}

#[test]
fn an_unnamed_group_is_named_after_its_id() {
    let (row, answer) = new_group("p1", &CreateGroupReq { name: None });
    assert_eq!(row.name, format!("group-{}", &row.id[..8]));
    assert_eq!(answer.name, row.name);
    assert_eq!(row.project_id, "p1");
    let (blank, _) = new_group("p1", &CreateGroupReq { name: Some("   ".into()) });
    assert!(blank.name.starts_with("group-"));
    let (named, _) = new_group("p1", &CreateGroupReq { name: Some("  readers ".into()) });
    assert_eq!(named.name, "readers");
}

#[test]
fn environments_are_named_and_keyed_with_care() {
    assert_eq!(env_name(&CreateEnvReq { name: "  prod ".into() }).unwrap(), "prod");
    assert!(matches!(
        env_name(&CreateEnvReq { name: " ".into() }),
        Err(Error::BadRequest(m)) if m == "name must be 1..=64 characters"
    ));
    assert!(env_name(&CreateEnvReq { name: "e".repeat(65) }).is_err());
    let (row, answer) = new_environment("p1", &CreateEnvReq { name: "prod".into() }).unwrap();
    assert_eq!(row.project_id, "p1");
    assert_eq!(answer.scope_epoch, 0);
    assert!(answer.scope_pubkey.is_none());
    check_scope_key(&ScopeKeyReq { scope_pubkey: "k".into(), scope_epoch: 1 }).expect("valid");
    assert!(matches!(
        check_scope_key(&ScopeKeyReq { scope_pubkey: " ".into(), scope_epoch: 1 }),
        Err(Error::BadRequest(m)) if m == "scope_pubkey must not be empty"
    ));
    assert!(matches!(
        check_scope_key(&ScopeKeyReq { scope_pubkey: "k".into(), scope_epoch: 0 }),
        Err(Error::BadRequest(m)) if m == "scope_epoch must be at least 1"
    ));
}

#[test]
fn grants_name_a_user_team_or_group_and_a_known_role() {
    let body = GrantReq {
        grantee_kind: "group".into(),
        grantee_id: "deployers".into(),
        project_role: "write".into(),
        env_id: Some("prod".into()),
    };
    let (kind, role) = check_grant(&body).unwrap();
    assert_eq!(kind, GranteeKind::Group);
    assert_eq!(role, ProjectRole::Write);
    let (row, answer) = new_grant("p1", &body, role, ("g1".into(), Some("e1".into())), "a0");
    assert_eq!(row.id, answer.id);
    assert_eq!(row.grantee_kind, "group");
    assert_eq!(row.grantee_id, "g1", "stored against the resolved id");
    assert_eq!(row.env_id.as_deref(), Some("e1"));
    assert_eq!(row.project_role, "write");
    assert_eq!(row.granted_by, "a0");
    let odd = GrantReq {
        grantee_kind: "robot".into(),
        grantee_id: "g".into(),
        project_role: "write".into(),
        env_id: None,
    };
    assert!(matches!(check_grant(&odd), Err(Error::BadRequest(m)) if m == "grantee_kind must be user, team or group"));
    let junk_role = GrantReq {
        grantee_kind: "user".into(),
        grantee_id: "u".into(),
        project_role: "owner".into(),
        env_id: None,
    };
    assert!(check_grant(&junk_role).is_err());
    require_grant_in_project(Some("p1"), "p1").expect("same project");
    assert!(matches!(require_grant_in_project(Some("p2"), "p1"), Err(Error::NotFound)));
    assert!(matches!(require_grant_in_project(None, "p1"), Err(Error::NotFound)));
    assert!(matches!(fulfilment_scope(Some("e1".into()), None), Err(Error::BadRequest(_))));
    assert!(matches!(fulfilment_scope(None, Some(1)), Err(Error::BadRequest(_))));
    let scope = fulfilment_scope(Some("e1".into()), Some(2)).unwrap();
    assert_eq!((scope.env_id.as_str(), scope.epoch), ("e1", 2));
}

#[test]
fn keys_are_stored_only_with_a_proof_and_under_the_caller() {
    let body = PutPubkeyReq {
        x25519_pub: "x".into(),
        ed25519_pub: "e".into(),
        v42_address: "v".into(),
        pubkey_sig: "s".into(),
    };
    let keys = keys_to_store("me", body, true).unwrap();
    assert_eq!(keys.user_id, "me");
    assert_eq!(keys.pubkey_sig, "s");
    let again = PutPubkeyReq {
        x25519_pub: "x".into(),
        ed25519_pub: "e".into(),
        v42_address: "v".into(),
        pubkey_sig: "s".into(),
    };
    assert!(matches!(
        keys_to_store("me", again, false),
        Err(Error::BadRequest(m)) if m == "pubkey_sig is not a valid proof of possession for this account and organization"
    ));
    assert!(matches!(read_back(None), Err(Error::NotFound)));
    assert_eq!(read_back(Some(keys)).unwrap().v42_address, "v");
}
