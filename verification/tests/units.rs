//! Unit tests for the role validator and the key-value table.

use stsp::auth::{caller_has_role, caller_is_permitted, is_valid_role_set, role_of_tag, Role};
use stsp::state::User;
use stsp::store::Table;

#[test]
fn role_tags_parse_back_to_their_role() {
    assert_eq!(Some(Role::System), role_of_tag(&"ROLE_0001".to_string()));
    assert_eq!(Some(Role::Enterprise), role_of_tag(&"ROLE_0002".to_string()));
    assert_eq!(Some(Role::Government), role_of_tag(&"ROLE_0003".to_string()));
    assert_eq!(Some(Role::Bank), role_of_tag(&"ROLE_0004".to_string()));
    assert_eq!(None, role_of_tag(&"ROLE_0005".to_string()));
    assert_eq!(None, role_of_tag(&"".to_string()));
}

#[test]
fn role_set_validity() {
    let all = vec![
        "ROLE_0001".to_string(),
        "ROLE_0002".to_string(),
        "ROLE_0003".to_string(),
        "ROLE_0004".to_string(),
    ];
    assert!(is_valid_role_set(&all));
    assert!(is_valid_role_set(&vec![]));
    let with_stranger = vec!["ROLE_0002".to_string(), "admin".to_string()];
    assert!(!is_valid_role_set(&with_stranger));
}

#[test]
fn role_membership_is_exact() {
    let holder = User {
        user_id: "u".to_string(),
        address: "a".to_string(),
        org: "SYSTEM".to_string(),
        role: vec!["ROLE_0001".to_string()],
    };
    assert!(caller_has_role(&holder, Role::System));
    // No hierarchy: SYSTEM does not imply any other role.
    assert!(!caller_has_role(&holder, Role::Enterprise));
    assert!(!caller_has_role(&holder, Role::Government));
    assert!(!caller_has_role(&holder, Role::Bank));
}

#[test]
fn permission_list_membership() {
    let permission = vec!["a1".to_string(), "a2".to_string()];
    assert!(caller_is_permitted(&"a1".to_string(), &permission));
    assert!(caller_is_permitted(&"a2".to_string(), &permission));
    assert!(!caller_is_permitted(&"a3".to_string(), &permission));
}

#[test]
fn table_get_returns_latest_put() {
    let mut table: Table<u64> = Table::new();
    assert!(table.get(&"k".to_string()).is_none());
    table.put("k".to_string(), 1);
    table.put("other".to_string(), 5);
    assert_eq!(Some(&1), table.get(&"k".to_string()));
    table.put("k".to_string(), 2);
    assert_eq!(Some(&2), table.get(&"k".to_string()));
    assert_eq!(Some(&5), table.get(&"other".to_string()));
    assert!(table.contains(&"k".to_string()));
    assert!(!table.contains(&"missing".to_string()));
}
