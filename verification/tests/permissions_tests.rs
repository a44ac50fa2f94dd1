use stat_api_rs::common::errors::LocoError;
use stat_api_rs::services::permissions::{
    permissions_cache_key, GoalRight, PermissionService, RequestPermissions, RightSet,
};

fn rights(pairs: &[(i32, i32)]) -> RightSet {
    let mut set = RightSet::new();
    for &(goal_id, right_id) in pairs {
        set.insert(GoalRight { goal_id, right_id });
    }
    set
}

#[test]
fn right_set_keeps_each_right_once() {
    let mut set = RightSet::new();
    assert!(set.insert(GoalRight { goal_id: 3, right_id: 1 }));
    assert!(!set.insert(GoalRight { goal_id: 3, right_id: 1 }));
    assert!(set.insert(GoalRight { goal_id: 3, right_id: 2 }));
    assert_eq!(set.len(), 2);
    assert!(set.contains(GoalRight { goal_id: 3, right_id: 2 }));
    assert!(!set.contains(GoalRight { goal_id: 2, right_id: 3 }));
    let from = RightSet::from_vec(vec![
        GoalRight { goal_id: 1, right_id: 1 },
        GoalRight { goal_id: 1, right_id: 1 },
    ]);
    assert_eq!(from.len(), 1);
    assert_eq!(from.to_vec(), vec![GoalRight { goal_id: 1, right_id: 1 }]);
}

#[test]
fn has_and_has_any() {
    let perms = RequestPermissions::new(7, rights(&[(3, 1), (3, 3)]));
    assert_eq!(perms.user_id, 7);
    assert!(perms.has(3, 1));
    assert!(!perms.has(3, 2));
    assert!(perms.has_any(3, &[1, 3]));
    assert!(!perms.has_any(3, &[1, 2]));
    assert!(perms.has_any(3, &[]));
    assert!(perms.has_any(3, &[3]) == perms.has(3, 3));
}

#[test]
fn check_permission_on_known_names() {
    let service = PermissionService::new();
    let perms = rights(&[(3, 3), (3, 1)]);
    assert!(matches!(service.check_permission(&perms, "users", &["edit"]), Ok(true)));
    assert!(matches!(service.check_permission(&perms, "users", &["edit", "view"]), Ok(true)));
    assert!(matches!(service.check_permission(&perms, "users", &["delete"]), Ok(false)));
    assert!(matches!(service.check_permission(&perms, "roles", &["view"]), Ok(false)));
    assert!(matches!(service.check_permission(&perms, "users", &[]), Ok(true)));
}

#[test]
fn check_permission_refuses_unknown_names() {
    let service = PermissionService::new();
    let perms = rights(&[(3, 3)]);
    assert!(matches!(
        service.check_permission(&perms, "nothing", &["edit"]),
        Err(LocoError::InternalServerError)
    ));
    assert!(matches!(
        service.check_permission(&perms, "reviews", &["view"]),
        Err(LocoError::InternalServerError)
    ));
    assert!(matches!(
        service.check_permission(&perms, "users", &["update"]),
        Err(LocoError::InternalServerError)
    ));
}

#[test]
fn repeated_actions_ask_for_their_right_once() {
    let service = PermissionService::new();
    assert!(matches!(
        service.check_permission(&rights(&[(3, 3)]), "users", &["edit", "edit"]),
        Ok(true)
    ));
    assert!(matches!(
        service.check_permission(&rights(&[(3, 1)]), "users", &["edit", "edit"]),
        Ok(false)
    ));
    assert_eq!(service.required_rights("users", &["edit", "edit"]).ok().map(|r| r.len()), Some(1));
}

#[test]
fn required_rights_lists_the_asked_rights() {
    let service = PermissionService::new();
    let required = service.required_rights("stats", &["view", "grant"]).ok().unwrap();
    assert_eq!(required.len(), 2);
    assert!(required.contains(GoalRight { goal_id: 1, right_id: 1 }));
    assert!(required.contains(GoalRight { goal_id: 1, right_id: 5 }));
    assert!(required.is_subset(&rights(&[(1, 1), (1, 5), (2, 1)])));
    assert!(!required.is_subset(&rights(&[(1, 1)])));
}

#[test]
fn granting_more_rights_keeps_permission() {
    let service = PermissionService::new();
    let few = rights(&[(6, 2)]);
    let more = rights(&[(6, 2), (6, 4), (1, 1)]);
    assert!(matches!(service.check_permission(&few, "resources", &["create"]), Ok(true)));
    assert!(matches!(service.check_permission(&more, "resources", &["create"]), Ok(true)));
}

#[test]
fn cache_key_is_user_and_decimal_id() {
    assert_eq!(permissions_cache_key(42), "user:42");
    assert_eq!(permissions_cache_key(0), "user:0");
    assert_eq!(permissions_cache_key(-7), "user:-7");
    assert_eq!(permissions_cache_key(i64::MIN), format!("user:{}", i64::MIN));
    assert_eq!(permissions_cache_key(i64::MAX), format!("user:{}", i64::MAX));
}
