use vault42_authority::error::Error;
use vault42_authority::store::accounts::{mfa_flag, Account};
use vault42_authority::store::authz::{strength, strongest};
use vault42_authority::store::environments::check_epoch;
use vault42_authority::store::grants::{grantee_kind, names_a_user, resolved_env, resolved_grantee, GranteeKind};
use vault42_authority::store::groups::require_org_member;
use vault42_authority::store::migrate::{pending, require_no_dangling, step};
use vault42_authority::store::offboard::{require_not_last_owner, require_owner_nowhere, tombstone_address};
use vault42_authority::store::projects::single_project;
use vault42_authority::store::sessions::{session_principal, SessionRow};
use vault42_authority::store::wraps::{check_wrap_env, direct_grantee, fulfilment, missing_wraps, require_authorized, wrapped_flags, HeldWrap, WrapScope};
use vault42_authority::store::{require_changed, write_failure, Constraint, WriteError};
use vault42_authority::rbac::ProjectRole;
use vault42_authority::validate::normalize_email;

fn strings(items: &[&str]) -> Vec<String> {
    items.iter().map(|s| s.to_string()).collect()
}

#[test]
fn the_strongest_granted_role_wins() {
    assert_eq!(strongest(&strings(&[])).unwrap(), None);
    assert_eq!(strongest(&strings(&["read", "admin", "write"])).unwrap(), Some(ProjectRole::Admin));
    assert_eq!(strongest(&strings(&["read", "write", "read"])).unwrap(), Some(ProjectRole::Write));
    assert!(matches!(
        strongest(&strings(&["read", "root", "admin"])),
        Err(Error::BadRequest(m)) if m == "project_role must be admin, write or read; got \"root\""
    ));
    assert!(strength(ProjectRole::Admin) > strength(ProjectRole::Write));
    assert!(strength(ProjectRole::Write) > strength(ProjectRole::Read));
}

#[test]
fn the_epoch_must_advance() {
    check_epoch(3, 4).expect("forward");
    assert!(matches!(
        check_epoch(3, 3),
        Err(Error::Conflict(m)) if m == "scope_epoch must advance; environment is at 3"
    ));
    assert!(matches!(
        check_epoch(-2, -9),
        Err(Error::Conflict(m)) if m == "scope_epoch must advance; environment is at -2"
    ));
}

#[test]
fn grants_stay_inside_their_organization_and_project() {
    assert_eq!(resolved_grantee("user", "dev@x.test", Some("u1".into())).unwrap(), "u1");
    assert!(matches!(
        resolved_grantee("team", "t9", None),
        Err(Error::BadRequest(m)) if m == "team \"t9\" does not belong to this project's organization"
    ));
    assert_eq!(resolved_env(None, None).unwrap(), None);
    assert_eq!(resolved_env(Some("prod"), Some("e1".into())).unwrap(), Some("e1".to_string()));
    assert!(matches!(
        resolved_env(Some("e1"), None),
        Err(Error::BadRequest(m)) if m == "env_id does not belong to this project"
    ));
    assert!(names_a_user("user"));
    assert!(!names_a_user("team"));
    assert_eq!(grantee_kind("group"), Some(GranteeKind::Group));
    assert_eq!(grantee_kind("team"), Some(GranteeKind::Team));
    assert_eq!(grantee_kind("User"), None);
}

#[test]
fn a_group_member_must_belong_to_the_organization() {
    require_org_member(1).expect("a member");
    assert!(matches!(
        require_org_member(0),
        Err(Error::BadRequest(m)) if m == "account is not a member of the organization; add them to the organization first"
    ));
}

#[test]
fn migrations_never_rerun_an_applied_step() {
    assert_eq!(pending(&[1, 2, 3, 4], &[1, 3]), vec![1, 3]);
    assert_eq!(pending(&[1, 2], &[1, 2]), Vec::<usize>::new());
    assert_eq!(pending(&[5], &[]), vec![0]);
    let s = step(7, "seven", "SELECT 1");
    assert_eq!(s.version, 7);
    assert!(!s.rebuilds_a_parent);
    require_no_dangling(9, "grants_admit_groups", 0).expect("nothing dangles");
    assert_eq!(
        require_no_dangling(9, "grants_admit_groups", 3).unwrap_err(),
        "migration 9 grants_admit_groups would leave 3 dangling reference(s); rolled back"
    );
}

#[test]
fn the_last_owner_cannot_leave_and_erasure_leaves_no_address() {
    require_not_last_owner(Some("owner"), 2).expect("another owner remains");
    require_not_last_owner(Some("admin"), 1).expect("not an owner");
    require_not_last_owner(None, 0).expect("not a member");
    assert!(matches!(
        require_not_last_owner(Some("owner"), 1),
        Err(Error::Conflict(m)) if m == "this is the organization's only owner; promote another owner first"
    ));
    require_owner_nowhere(0).expect("strands nobody");
    assert!(matches!(
        require_owner_nowhere(2),
        Err(Error::Conflict(m)) if m == "this account is the only owner of an organization; promote another owner first"
    ));
    let tomb = tombstone_address("3f2a");
    assert_eq!(tomb, "erased:3f2a");
    assert!(normalize_email(&tomb).is_err());
}

#[test]
fn an_ambiguous_project_slug_is_refused() {
    assert_eq!(single_project(Vec::new(), "web").unwrap(), None);
    let one = vec![("p1".to_string(), "o1".to_string())];
    assert_eq!(single_project(one, "web").unwrap(), Some(("p1".to_string(), "o1".to_string())));
    let two = vec![("p1".to_string(), "o1".to_string()), ("p2".to_string(), "o2".to_string())];
    assert!(matches!(
        single_project(two, "web"),
        Err(Error::BadRequest(m)) if m == "project \"web\" names a project in more than one of your organizations; use its id"
    ));
}

#[test]
fn the_wrap_worklist_is_exact() {
    let members = strings(&["a", "b", "c"]);
    assert_eq!(missing_wraps(&members, &vec![true, false, false]), strings(&["b", "c"]));
    assert_eq!(missing_wraps(&members, &vec![true, true, true]), Vec::<String>::new());
    require_authorized(&members, "b").expect("authorized");
    assert!(matches!(
        require_authorized(&members, "z"),
        Err(Error::BadRequest(m)) if m == "account is not authorized by this grant"
    ));
    assert_eq!(direct_grantee("u1".into(), true), strings(&["u1"]));
    assert!(direct_grantee("u1".into(), false).is_empty(), "a grant never authorizes a non-member");
    let f = fulfilment(strings(&["a", "b"]), &vec![false, true]);
    assert_eq!(f.members, strings(&["a", "b"]));
    assert_eq!(f.missing, strings(&["a"]));
    check_wrap_env(None, "e1").expect("project-wide covers every environment");
    check_wrap_env(Some("e1"), "e1").expect("its own environment");
    assert!(matches!(check_wrap_env(Some("e1"), "e2"), Err(Error::NotFound)));
}

#[test]
fn sessions_resolve_only_while_usable() {
    let row = |revoked: bool, expires_at: i64, status: &str| SessionRow {
        account_id: "a1".into(),
        email: "dev@x.test".into(),
        mfa_required: 1,
        revoked,
        expires_at,
        status: status.into(),
    };
    let p = session_principal(Some(row(false, 100, "active")), "h", 99).expect("live");
    assert_eq!(p.account_id, "a1");
    assert_eq!(p.email, "dev@x.test");
    assert!(p.mfa_required);
    assert_eq!(p.token_hash, "h");
    assert!(session_principal(Some(row(false, 100, "active")), "h", 100).is_none(), "expired");
    assert!(session_principal(Some(row(true, 100, "active")), "h", 1).is_none(), "revoked");
    assert!(session_principal(Some(row(false, 100, "disabled")), "h", 1).is_none(), "disabled");
    assert!(session_principal(None, "h", 1).is_none(), "unknown");
}

#[test]
fn write_failures_answer_by_what_they_mean() {
    assert!(matches!(
        write_failure(WriteError::Constraint, Constraint::AccountEmail),
        Error::Conflict(m) if m == "email already registered"
    ));
    assert!(matches!(
        write_failure(WriteError::Constraint, Constraint::OrgSlug),
        Error::Conflict(m) if m == "organization slug already taken"
    ));
    assert!(matches!(
        write_failure(WriteError::Constraint, Constraint::PubkeyMember),
        Error::BadRequest(m) if m == "not a member of this organization"
    ));
    assert!(matches!(write_failure(WriteError::Constraint, Constraint::GroupReference), Error::NotFound));
    assert!(matches!(
        write_failure(WriteError::Other("disk".into()), Constraint::OrgSlug),
        Error::Internal(m) if m == "disk"
    ));
}

#[test]
fn small_store_rules() {
    assert!(matches!(require_changed(0), Err(Error::NotFound)));
    require_changed(1).expect("a row changed");
    assert_eq!(mfa_flag(true), 1);
    assert_eq!(mfa_flag(false), 0);
    let account = Account {
        id: "a".into(),
        email: "e@x.test".into(),
        password_hash: String::new(),
        status: "active".into(),
        mfa_required: false,
    };
    assert!(account.active());
}

#[test]
fn a_wrap_in_one_environment_provisions_no_other() {
    let members = strings(&["a1", "a2"]);
    let held = vec![HeldWrap { account_id: "a1".into(), env_id: "prod".into(), epoch: 1 }];
    let prod = WrapScope { env_id: "prod".into(), epoch: 1 };
    let staging = WrapScope { env_id: "staging".into(), epoch: 1 };
    let next_epoch = WrapScope { env_id: "prod".into(), epoch: 2 };
    assert_eq!(wrapped_flags(&members, &held, &prod), vec![true, false]);
    assert_eq!(wrapped_flags(&members, &held, &staging), vec![false, false]);
    assert_eq!(wrapped_flags(&members, &held, &next_epoch), vec![false, false]);
    let f = fulfilment(members.clone(), &wrapped_flags(&members, &held, &prod));
    assert_eq!(f.missing, strings(&["a2"]));
}
