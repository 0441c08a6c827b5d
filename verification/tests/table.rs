use users_api::storage::StorageError;
use users_api::table::UserTable;
use users_api::user::{User, UserPayload};

fn payload(username: &str, email: &str) -> UserPayload {
    UserPayload { username: username.to_string(), email: email.to_string() }
}

fn refused() -> StorageError {
    StorageError { detail: "connection refused".to_string() }
}

fn user(id: i32, username: &str, email: &str) -> User {
    User { id, username: username.to_string(), email: email.to_string() }
}

#[test]
fn new_table_is_empty() {
    let table = UserTable::new();
    assert_eq!(table.select_all(), Ok(vec![]));
    assert_eq!(table.select_by_id(1), Ok(None));
}

#[test]
fn insert_assigns_ids_from_one() {
    let mut table = UserTable::new();
    assert_eq!(table.insert(&payload("alice", "a@x.com")), Ok(1));
    assert_eq!(table.insert(&payload("bob", "b@x.com")), Ok(1));
    assert_eq!(
        table.select_all(),
        Ok(vec![user(1, "alice", "a@x.com"), user(2, "bob", "b@x.com")])
    );
}

#[test]
fn insert_accepts_equal_fields_twice() {
    let mut table = UserTable::new();
    assert_eq!(table.insert(&payload("alice", "a@x.com")), Ok(1));
    assert_eq!(table.insert(&payload("alice", "a@x.com")), Ok(1));
    assert_eq!(
        table.select_all(),
        Ok(vec![user(1, "alice", "a@x.com"), user(2, "alice", "a@x.com")])
    );
}

#[test]
fn select_by_id_finds_the_row() {
    let mut table = UserTable::new();
    table.insert(&payload("alice", "a@x.com")).unwrap();
    table.insert(&payload("bob", "b@x.com")).unwrap();
    assert_eq!(table.select_by_id(2), Ok(Some(user(2, "bob", "b@x.com"))));
    assert_eq!(table.select_by_id(1), Ok(Some(user(1, "alice", "a@x.com"))));
    assert_eq!(table.select_by_id(0), Ok(None));
    assert_eq!(table.select_by_id(3), Ok(None));
    assert_eq!(table.select_by_id(u64::MAX), Ok(None));
    assert_eq!(table.select_by_id(4_294_967_297), Ok(None));
}

#[test]
fn select_one_fails_without_a_row() {
    let mut table = UserTable::new();
    table.insert(&payload("alice", "a@x.com")).unwrap();
    assert_eq!(table.select_one(1), Ok(user(1, "alice", "a@x.com")));
    let error = table.select_one(2).unwrap_err();
    assert_eq!(
        error.detail,
        "no rows returned by a query that expected to return at least one row"
    );
}

#[test]
fn update_reports_a_changed_row() {
    let mut table = UserTable::new();
    table.insert(&payload("alice", "a@x.com")).unwrap();
    table.insert(&payload("bob", "b@x.com")).unwrap();
    assert_eq!(table.update(1, &payload("alice", "alice@x.com")), Ok(1));
    assert_eq!(
        table.select_all(),
        Ok(vec![user(1, "alice", "alice@x.com"), user(2, "bob", "b@x.com")])
    );
    assert_eq!(table.update(2, &payload("robert", "b@x.com")), Ok(1));
    assert_eq!(table.select_by_id(2), Ok(Some(user(2, "robert", "b@x.com"))));
}

#[test]
fn update_with_equal_fields_changes_no_row() {
    let mut table = UserTable::new();
    table.insert(&payload("alice", "a@x.com")).unwrap();
    assert_eq!(table.update(1, &payload("alice", "a@x.com")), Ok(0));
    assert_eq!(table.select_all(), Ok(vec![user(1, "alice", "a@x.com")]));
}

#[test]
fn update_of_a_missing_row_changes_no_row() {
    let mut table = UserTable::new();
    table.insert(&payload("alice", "a@x.com")).unwrap();
    assert_eq!(table.update(2, &payload("bob", "b@x.com")), Ok(0));
    assert_eq!(table.select_all(), Ok(vec![user(1, "alice", "a@x.com")]));
}

#[test]
fn delete_removes_the_row_once() {
    let mut table = UserTable::new();
    table.insert(&payload("alice", "a@x.com")).unwrap();
    table.insert(&payload("bob", "b@x.com")).unwrap();
    table.insert(&payload("carol", "c@x.com")).unwrap();
    assert_eq!(table.delete(2), Ok(1));
    assert_eq!(
        table.select_all(),
        Ok(vec![user(1, "alice", "a@x.com"), user(3, "carol", "c@x.com")])
    );
    assert_eq!(table.delete(2), Ok(0));
    assert_eq!(table.delete(7), Ok(0));
    assert_eq!(table.select_all().unwrap().len(), 2);
}

#[test]
fn deleted_ids_are_not_assigned_again() {
    let mut table = UserTable::new();
    table.insert(&payload("alice", "a@x.com")).unwrap();
    table.insert(&payload("bob", "b@x.com")).unwrap();
    assert_eq!(table.delete(2), Ok(1));
    assert_eq!(table.delete(1), Ok(1));
    table.insert(&payload("carol", "c@x.com")).unwrap();
    assert_eq!(table.select_all(), Ok(vec![user(3, "carol", "c@x.com")]));
}

#[test]
fn table_out_of_service_fails_every_statement() {
    let mut table = UserTable::new();
    table.insert(&payload("alice", "a@x.com")).unwrap();
    table.fail_with("connection refused");
    assert_eq!(table.select_all(), Err(refused()));
    assert_eq!(table.select_by_id(1), Err(refused()));
    assert_eq!(table.select_one(1), Err(refused()));
    assert_eq!(table.insert(&payload("bob", "b@x.com")), Err(refused()));
    assert_eq!(table.update(1, &payload("al", "a@x.com")), Err(refused()));
    assert_eq!(table.delete(1), Err(refused()));
}

#[test]
fn restored_table_holds_what_it_held() {
    let mut table = UserTable::new();
    table.insert(&payload("alice", "a@x.com")).unwrap();
    table.fail_with("connection refused");
    assert!(table.delete(1).is_err());
    assert!(table.insert(&payload("bob", "b@x.com")).is_err());
    table.restore();
    assert_eq!(table.select_all(), Ok(vec![user(1, "alice", "a@x.com")]));
    assert_eq!(table.insert(&payload("bob", "b@x.com")), Ok(1));
    assert_eq!(table.select_by_id(2), Ok(Some(user(2, "bob", "b@x.com"))));
}

#[test]
fn table_can_start_at_a_later_id() {
    let mut table = UserTable::starting_at(40).unwrap();
    assert_eq!(table.select_all(), Ok(vec![]));
    assert_eq!(table.insert(&payload("alice", "a@x.com")), Ok(1));
    assert_eq!(table.select_all(), Ok(vec![user(40, "alice", "a@x.com")]));
    assert!(UserTable::starting_at(0).is_none());
    assert!(UserTable::starting_at(-3).is_none());
    assert!(UserTable::starting_at(1).is_some());
}

#[test]
fn insert_fails_once_every_id_is_assigned() {
    let mut table = UserTable::starting_at(i32::MAX).unwrap();
    assert_eq!(table.insert(&payload("alice", "a@x.com")), Ok(1));
    assert_eq!(table.select_by_id(2_147_483_647), Ok(Some(user(i32::MAX, "alice", "a@x.com"))));
    assert_eq!(
        table.insert(&payload("bob", "b@x.com")),
        Err(StorageError { detail: "no id is left to assign to a new row".to_string() })
    );
    assert_eq!(table.select_all(), Ok(vec![user(i32::MAX, "alice", "a@x.com")]));
    assert_eq!(table.delete(2_147_483_647), Ok(1));
    assert!(table.insert(&payload("bob", "b@x.com")).is_err());
}
