use vault42_authority::error::Error;
use vault42_authority::handlers::variables::{check_key, check_write, may_write, PutVariableReq};
use vault42_authority::rbac::{OrgRole, ProjectRole};
use vault42_authority::store::variables::{fold_scopes, key_precedes, Variable};

fn var(key: &str, value: &str, scope: &str) -> Variable {
    Variable {
        key: key.into(),
        value: value.into(),
        is_secret: false,
        scope_kind: scope.into(),
        updated_at: 0,
    }
}

fn shape(vars: &[Variable]) -> Vec<(String, String, String)> {
    vars.iter()
        .map(|v| (v.key.clone(), v.value.clone(), v.scope_kind.clone()))
        .collect()
}

#[test]
fn the_narrowest_level_wins_and_keys_come_back_in_order() {
    let env = vec![var("DB", "env-db", "env")];
    let project = vec![var("API", "p-api", "project"), var("DB", "p-db", "project")];
    let org = vec![var("DB", "o-db", "org"), var("REGION", "eu", "org"), var("API", "o-api", "org")];
    let resolved = fold_scopes(env, project, org);
    assert_eq!(
        shape(&resolved),
        vec![
            ("API".to_string(), "p-api".to_string(), "project".to_string()),
            ("DB".to_string(), "env-db".to_string(), "env".to_string()),
            ("REGION".to_string(), "eu".to_string(), "org".to_string()),
        ]
    );
}

#[test]
fn an_empty_scope_set_resolves_to_nothing() {
    assert!(fold_scopes(Vec::new(), Vec::new(), Vec::new()).is_empty());
}

#[test]
fn keys_sort_by_code_point_with_prefixes_first() {
    assert!(key_precedes("A", "B"));
    assert!(key_precedes("AB", "ABC"));
    assert!(!key_precedes("ABC", "AB"));
    assert!(key_precedes("Z", "a"));
    assert!(key_precedes("_", "a"));
    assert!(!key_precedes("X", "X"));
    assert!(key_precedes("", "A"));
}

#[test]
fn keys_must_be_usable_names() {
    check_key("DATABASE_URL").expect("a plain name");
    check_key("_x9").expect("underscore first");
    check_key(&"K".repeat(128)).expect("the limit itself");
    for bad in ["", "9LIVES", "has-dash", "has space", "é"] {
        assert!(matches!(
            check_key(bad),
            Err(Error::BadRequest(m)) if m == "key must be 1..=128 of [A-Za-z0-9_] and must not start with a digit"
        ), "{bad:?}");
    }
    assert!(check_key(&"K".repeat(129)).is_err());
}

#[test]
fn values_are_bounded_at_a_megabyte() {
    let ok = PutVariableReq { value: "x".repeat(1 << 20), is_secret: false };
    check_write("K", &ok).expect("the limit itself");
    let big = PutVariableReq { value: "x".repeat((1 << 20) + 1), is_secret: true };
    assert!(matches!(
        check_write("K", &big),
        Err(Error::BadRequest(m)) if m == "value must be at most 1048576 bytes"
    ));
    assert!(check_write("9", &ok).is_err(), "the key is checked first");
}

#[test]
fn writing_needs_administration_or_a_write_grant() {
    for role in [OrgRole::Owner, OrgRole::Admin] {
        may_write(role, None).expect("administrators always may");
    }
    may_write(OrgRole::Member, Some(ProjectRole::Write)).expect("write grant");
    may_write(OrgRole::Member, Some(ProjectRole::Admin)).expect("admin grant");
    assert!(matches!(may_write(OrgRole::Member, Some(ProjectRole::Read)), Err(Error::Forbidden)));
    assert!(matches!(may_write(OrgRole::Member, None), Err(Error::Forbidden)));
}
