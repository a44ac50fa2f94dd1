use stat_api_rs::common::constants::{get_goal_by_id, get_goal_by_name, get_right_by_id, get_right_by_name};

#[test]
fn goal_table_has_ten_goals_without_reviews() {
    let by_id = get_goal_by_id();
    assert_eq!(by_id.len(), 10);
    assert_eq!(by_id.get(&1).map(|s| s.as_str()), Some("stats"));
    assert_eq!(by_id.get(&6).map(|s| s.as_str()), Some("resources"));
    assert_eq!(by_id.get(&11), None);
}

#[test]
fn name_tables_invert_id_tables() {
    let by_id = get_goal_by_id();
    let by_name = get_goal_by_name();
    for (id, name) in by_id.iter() {
        assert_eq!(by_name.get(name), Some(*id));
    }
    assert_eq!(by_name.get("reviews"), None);
    let rights = get_right_by_id();
    let rights_by_name = get_right_by_name();
    for (id, name) in rights.iter() {
        assert_eq!(rights_by_name.get(name), Some(*id));
    }
    assert_eq!(rights_by_name.get("edit"), Some(3));
    assert_eq!(rights_by_name.get("update"), None);
}
