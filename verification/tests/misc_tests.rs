use stat_api_rs::controllers::auth::check_new_password;
use stat_api_rs::models::refresh_tokens::{rotate_record, TokenRecord};
use stat_api_rs::controllers::auth::{invalid_credentials, wants_refresh_cookie};
use stat_api_rs::common::errors::{ApiError, LocoError};
use stat_api_rs::graphql::guards::auth::{AuthGuard, GuardAction, OperationType};
use stat_api_rs::services::permissions::{GoalRight, RequestPermissions, RightSet};
use stat_api_rs::common::settings::{
    get_refresh_from_config, refresh_expiration_default, refresh_name_default, Refresh, Settings,
};
use stat_api_rs::models::refresh_tokens::{
    refresh_cookie, refresh_token_before_save, refresh_token_save_action, TokenSaveAction,
};
use stat_api_rs::models::users::{user_before_save, user_save_action};
use stat_api_rs::views::period_stats::PeriodStats;
use stat_api_rs::views::status::Status;

fn perms(pairs: &[(i32, i32)]) -> RequestPermissions {
    let mut set = RightSet::new();
    for &(goal_id, right_id) in pairs {
        set.insert(GoalRight { goal_id, right_id });
    }
    RequestPermissions::new(1, set)
}

#[test]
fn guard_only_watches_users() {
    let guard = AuthGuard::new();
    assert!(matches!(guard.entity_guard(None, "Events", OperationType::Delete), GuardAction::Allow));
    assert!(matches!(guard.entity_guard(None, "UserRoles", OperationType::Read), GuardAction::Allow));
    assert!(matches!(guard.entity_guard(None, "Users", OperationType::Read), GuardAction::Block(None)));
    let p = perms(&[(3, 1), (3, 3)]);
    assert!(matches!(guard.entity_guard(Some(&p), "Users", OperationType::Read), GuardAction::Allow));
    assert!(matches!(guard.entity_guard(Some(&p), "Users", OperationType::Update), GuardAction::Allow));
    assert!(matches!(
        guard.entity_guard(Some(&p), "Users", OperationType::Create),
        GuardAction::Block(Some(m)) if m == "User has no rights for this action"
    ));
    let q = perms(&[(3, 2), (3, 4)]);
    assert!(matches!(AuthGuard::default().entity_guard(Some(&q), "Users", OperationType::Delete), GuardAction::Allow));
}

#[test]
fn settings_defaults_and_lookup() {
    assert_eq!(refresh_expiration_default(), 2_592_000);
    assert_eq!(refresh_name_default(), "refresh_token");
    assert!(matches!(get_refresh_from_config(None), Err(LocoError::Message(m)) if m == "Settings not configured"));
    assert!(matches!(
        get_refresh_from_config(Some(Ok(Settings { refresh: None }))),
        Err(LocoError::Message(m)) if m == "Refresh token is not configured"
    ));
    assert!(matches!(get_refresh_from_config(Some(Err(LocoError::JSON("j".to_string())))), Err(LocoError::JSON(_))));
    let r = get_refresh_from_config(Some(Ok(Settings {
        refresh: Some(Refresh { secret: "s".to_string(), expiration: 10, name: "n".to_string() }),
    })))
    .ok()
    .unwrap();
    assert_eq!((r.secret.as_str(), r.expiration, r.name.as_str()), ("s", 10, "n"));
}

#[test]
fn login_and_revoke_decisions() {
    assert!(wants_refresh_cookie(&Some("long".to_string())));
    assert!(!wants_refresh_cookie(&Some("short".to_string())));
    assert!(!wants_refresh_cookie(&Some("Long".to_string())));
    assert!(!wants_refresh_cookie(&None));
    assert!(matches!(invalid_credentials(), ApiError::Unauthorized(m) if m == "Invalid credentials!"));
}

#[test]
fn token_and_user_saves() {
    assert_eq!(refresh_token_save_action(true, true, 9), TokenSaveAction::AssignJti(9));
    assert_eq!(refresh_token_save_action(false, true, 9), TokenSaveAction::TouchUpdatedAt);
    assert_eq!(refresh_token_save_action(false, false, 9), TokenSaveAction::Keep);
    assert!(matches!(refresh_token_before_save(true, false), TokenSaveAction::AssignJti(_)));
    assert_eq!(refresh_token_before_save(false, true), TokenSaveAction::TouchUpdatedAt);
    assert_eq!(user_save_action("Alice", "alice", true, 5).ok(), Some(Some(5)));
    assert_eq!(user_save_action("Alice", "alice", false, 5).ok(), Some(None));
    assert_eq!(user_save_action("A", "alice", false, 5).err().map(|e| e.len()), Some(1));
    assert!(matches!(user_before_save("Alice", "alice", true), Ok(Some(_))));
    assert!(user_before_save("Alice", "", true).is_err());
}

#[test]
fn refresh_cookie_attributes() {
    let c = refresh_cookie("refresh_token", "tok".to_string(), 60);
    assert_eq!(c.name, "refresh_token");
    assert_eq!(c.value, "tok");
    assert!(c.http_only && c.same_site_strict && c.secure);
    assert_eq!(c.path, "/");
    assert_eq!(c.expires_in, 60);
}

#[test]
fn status_bodies() {
    assert_eq!(Status::default().message, "Ok");
    assert_eq!(Status::new("done").message, "done");
    let p = PeriodStats { period: "2026-04".to_string(), all_visits: 3, visitor_count: 2, unique_visitors: 1 };
    assert_eq!(p.all_visits, 3);
}

#[test]
fn fresh_identifiers_are_version_four() {
    let v = stat_api_rs::common::ids::new_uuid();
    let u = uuid::Uuid::from_u128(v);
    assert_eq!(u.get_version_num(), 4);
    assert_eq!(u.get_variant(), uuid::Variant::RFC4122);
    match user_before_save("alice", "alice", true) {
        Ok(Some(pid)) => assert_eq!(uuid::Uuid::from_u128(pid).get_version_num(), 4),
        _ => panic!("a new user gets an identifier"),
    }
    match refresh_token_before_save(true, true) {
        TokenSaveAction::AssignJti(jti) => assert_eq!(uuid::Uuid::from_u128(jti).get_version_num(), 4),
        _ => panic!("a new token gets an identifier"),
    }
}

#[test]
fn user_field_errors_in_order() {
    match user_save_action("a", "b", false, 0) {
        Err(errors) => {
            assert_eq!(errors.len(), 2);
            assert_eq!(errors[0].field, "name");
            assert_eq!(errors[1].field, "login");
            assert_eq!(errors[1].message, "Name must be at least 2 characters long.");
        }
        Ok(_) => panic!("short fields are refused"),
    }
}

#[test]
fn rotation_revokes_the_stored_token_and_copies_it() {
    let stored = TokenRecord {
        user_id: 4,
        jti: 12,
        browser: Some("Curly 8".to_string()),
        user_ip: Some("10.0.0.1".to_string()),
        revoked: false,
        expires_at: 1_700_000_000,
    };
    let (old, fresh) = rotate_record(stored);
    assert!(old.revoked);
    assert_eq!((old.user_id, old.jti, old.expires_at), (4, 12, 1_700_000_000));
    assert_eq!(fresh.user_id, 4);
    assert_eq!(fresh.browser.as_deref(), Some("Curly 8"));
    assert_eq!(fresh.user_ip.as_deref(), Some("10.0.0.1"));
    assert!(!fresh.revoked);
    assert_eq!(fresh.expires_at, 1_700_000_000);
    assert_eq!(uuid::Uuid::from_u128(fresh.jti).get_version_num(), 4);
}

#[test]
fn new_passwords_need_eight_characters() {
    assert!(check_new_password("Str0ngP@ssw0rd!").is_ok());
    assert!(check_new_password("12345678").is_ok());
    match check_new_password("short") {
        Err(ApiError::BadRequest(m)) => assert_eq!(m, "Invalid password format"),
        _ => panic!("a short password is a bad request"),
    }
    assert!(check_new_password("").is_err());
}
