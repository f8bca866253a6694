use vault42_authority::auth::session::hash_token;
use vault42_authority::error::Error;
use vault42_authority::handlers::invites::{acceptance, show_to, AcceptReq};
use vault42_authority::handlers::orgs::{issue_invite, InviteReq};
use vault42_authority::store::invites::{check_pending, enrol_scope, join_org_first, Acceptance, InviteRow, InviteScope};

fn row(status: &str, expires_at: i64, email: &str) -> InviteRow {
    InviteRow {
        id: "i1".into(),
        scope_kind: "org".into(),
        scope_id: "o1".into(),
        email: email.into(),
        role: "member".into(),
        status: status.into(),
        expires_at,
    }
}

fn caller(email: &str, now: i64) -> Acceptance {
    Acceptance { token_hash: "h".into(), account_id: "a1".into(), email: email.into(), now }
}

#[test]
fn an_invite_is_redeemable_once_before_expiry_by_its_address() {
    check_pending(&row("pending", 100, "dev@x.test"), &caller("dev@x.test", 99)).expect("live");
    assert!(matches!(
        check_pending(&row("accepted", 100, "dev@x.test"), &caller("dev@x.test", 99)),
        Err(Error::Conflict(m)) if m == "invite already accepted"
    ));
    assert!(matches!(
        check_pending(&row("pending", 100, "dev@x.test"), &caller("dev@x.test", 100)),
        Err(Error::Conflict(m)) if m == "invite has expired"
    ));
    assert!(matches!(
        check_pending(&row("pending", 100, "dev@x.test"), &caller("thief@x.test", 1)),
        Err(Error::Forbidden)
    ));
}

#[test]
fn only_known_scopes_can_be_accepted() {
    assert_eq!(enrol_scope("org").unwrap(), InviteScope::Org);
    assert_eq!(enrol_scope("team").unwrap(), InviteScope::Team);
    assert_eq!(enrol_scope("group").unwrap(), InviteScope::Group);
    assert!(matches!(
        enrol_scope("project"),
        Err(Error::BadRequest(m)) if m == "invites of kind \"project\" cannot be accepted yet"
    ));
    assert!(matches!(
        join_org_first(InviteScope::Team),
        Error::BadRequest(m) if m.contains("a team member must belong")
    ));
    assert!(matches!(
        join_org_first(InviteScope::Group),
        Error::BadRequest(m) if m.contains("a group member must belong")
    ));
}

#[test]
fn issuing_an_invite_binds_it_to_a_normalized_address() {
    let body = InviteReq { email: " New@X.test ".into(), role: Some("admin".into()) };
    let (invite, answer) = issue_invite(InviteScope::Org, "o1", &body, "a0", 1_000).unwrap();
    assert_eq!(invite.email, "new@x.test");
    assert_eq!(invite.role, "admin");
    assert_eq!(invite.scope_kind, "org");
    assert_eq!(invite.scope_id, "o1");
    assert_eq!(invite.invited_by, "a0");
    assert_eq!(invite.expires_at, 1_000 + 7 * 86_400);
    assert_eq!(invite.id, answer.id);
    assert_eq!(invite.token_hash, hash_token(&answer.token));
    assert_ne!(invite.token_hash, answer.token);
}

#[test]
fn invite_roles_follow_the_scope() {
    let member = InviteReq { email: "a@x.test".into(), role: None };
    let (invite, _) = issue_invite(InviteScope::Team, "t1", &member, "a0", 0).unwrap();
    assert_eq!(invite.role, "member");
    let owner = InviteReq { email: "a@x.test".into(), role: Some("owner".into()) };
    assert!(issue_invite(InviteScope::Team, "t1", &owner, "a0", 0).is_err(), "owner is no team role");
    let (group, _) = issue_invite(InviteScope::Group, "g1", &owner, "a0", 0).unwrap();
    assert_eq!(group.role, "member", "a group invite always confers membership");
    let bad = InviteReq { email: "nope".into(), role: Some("root".into()) };
    assert!(matches!(
        issue_invite(InviteScope::Org, "o1", &bad, "a0", 0),
        Err(Error::BadRequest(m)) if m == "email must contain '@'"
    ));
}

#[test]
fn redeeming_hashes_the_trimmed_token() {
    let a = acceptance(&AcceptReq { token: "  tok  ".into() }, "a1", "dev@x.test", 5).unwrap();
    assert_eq!(a.token_hash, hash_token("tok"));
    assert_eq!(a.account_id, "a1");
    assert_eq!(a.now, 5);
    assert!(matches!(
        acceptance(&AcceptReq { token: "   ".into() }, "a1", "dev@x.test", 5),
        Err(Error::BadRequest(m)) if m == "token must not be empty"
    ));
}

#[test]
fn an_invite_is_shown_only_to_its_address() {
    let shown = show_to(Some(row("pending", 9, "dev@x.test")), "dev@x.test").unwrap();
    assert_eq!(shown.id, "i1");
    assert_eq!(shown.status, "pending");
    assert!(matches!(show_to(Some(row("pending", 9, "dev@x.test")), "other@x.test"), Err(Error::NotFound)));
    assert!(matches!(show_to(None, "dev@x.test"), Err(Error::NotFound)));
}
