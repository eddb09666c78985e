use cam_console::models::{User, UserRole};
use cam_console::table::{Entry, Table};

fn user(id: &str, name: &str) -> User {
    User {
        id: id.to_string(),
        username: id.to_string(),
        name: name.to_string(),
        email: "user@example.com".to_string(),
        role: UserRole::Viewer,
        active: true,
        last_login: "2025-03-01T00:00:00Z".to_string(),
    }
}

#[test]
fn empty_table() {
    let table: Table<User> = Table::new();
    assert_eq!(table.len(), 0);
    assert!(!table.contains("1"));
    assert!(table.get("1").is_none());
    assert!(table.list().is_empty());
}

#[test]
fn insert_get_and_list_order() {
    let mut table: Table<User> = Table::new();
    table.insert_entry("b".to_string(), user("b", "Second"));
    table.insert_entry("a".to_string(), user("a", "First"));
    assert_eq!(table.len(), 2);
    assert!(table.contains("a"));
    assert!(!table.contains("c"));
    assert_eq!(table.get("b"), Some(user("b", "Second")));
    // Listing keeps insertion order, not key order.
    let listed = table.list();
    assert_eq!(listed, vec![user("b", "Second"), user("a", "First")]);
}

#[test]
fn insert_at_existing_key_replaces_in_place() {
    let mut table: Table<User> = Table::new();
    table.insert_entry("a".to_string(), user("a", "First"));
    table.insert_entry("b".to_string(), user("b", "Second"));
    table.insert_entry("a".to_string(), user("a", "Replaced"));
    assert_eq!(table.len(), 2);
    assert_eq!(table.get("a"), Some(user("a", "Replaced")));
    // Replacing keeps the entry's position.
    assert_eq!(table.list()[0], user("a", "Replaced"));
}

#[test]
fn remove_entry_semantics() {
    let mut table: Table<User> = Table::new();
    table.insert_entry("a".to_string(), user("a", "First"));
    table.insert_entry("b".to_string(), user("b", "Second"));
    assert!(!table.remove_entry("c"));
    assert_eq!(table.len(), 2);
    assert!(table.remove_entry("a"));
    assert_eq!(table.len(), 1);
    assert!(table.get("a").is_none());
    assert_eq!(table.list(), vec![user("b", "Second")]);
}

#[test]
fn entry_fields_are_plain() {
    let entry = Entry { key: "k".to_string(), value: user("k", "Keyed") };
    assert_eq!(entry.key, "k");
    assert_eq!(entry.value.name, "Keyed");
}
