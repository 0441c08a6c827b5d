use users_api::response::{Body, Field, Response, Value};
use users_api::route::Method;
use users_api::service::{serve, Request};
use users_api::table::UserTable;
use users_api::user::{User, UserPayload};

fn request(method: Method, path: &str) -> Request {
    Request { method, path: path.to_string(), payload: None }
}

fn request_with(method: Method, path: &str, username: &str, email: &str) -> Request {
    Request {
        method,
        path: path.to_string(),
        payload: Some(UserPayload { username: username.to_string(), email: email.to_string() }),
    }
}

fn message(status: u16, msg: &str) -> Response {
    Response {
        status,
        body: Body::Object(vec![Field {
            name: "msg".to_string(),
            value: Value::Text(msg.to_string()),
        }]),
    }
}

fn status_and_message(status: u16, word: &str, msg: &str) -> Response {
    Response {
        status,
        body: Body::Object(vec![
            Field { name: "status".to_string(), value: Value::Text(word.to_string()) },
            Field { name: "msg".to_string(), value: Value::Text(msg.to_string()) },
        ]),
    }
}

fn listed(users: Vec<User>) -> Response {
    Response {
        status: 200,
        body: Body::Object(vec![
            Field { name: "msg".to_string(), value: Value::Text("success".to_string()) },
            Field { name: "data".to_string(), value: Value::Users(users) },
        ]),
    }
}

fn user(id: i32, username: &str, email: &str) -> User {
    User { id, username: username.to_string(), email: email.to_string() }
}

fn table_with_alice_and_bob() -> UserTable {
    let mut table = UserTable::new();
    serve(&mut table, &request_with(Method::Post, "/users", "alice", "a@x.com"));
    serve(&mut table, &request_with(Method::Post, "/users", "bob", "b@x.com"));
    table
}

#[test]
fn created_user_is_listed() {
    let mut table = UserTable::new();
    let created = serve(&mut table, &request_with(Method::Post, "/users", "alice", "a@x.com"));
    assert_eq!(created, status_and_message(200, "success", "user alice successfully added!"));
    let list = serve(&mut table, &request(Method::Get, "/users"));
    assert_eq!(list, listed(vec![user(1, "alice", "a@x.com")]));
}

#[test]
fn create_without_fields_is_a_bad_request() {
    let mut table = UserTable::new();
    let response = serve(&mut table, &request(Method::Post, "/users"));
    assert_eq!(response, Response { status: 400, body: Body::Empty });
    assert_eq!(table.select_all(), Ok(vec![]));
}

#[test]
fn unknown_id_is_not_found() {
    let mut table = table_with_alice_and_bob();
    let response = serve(&mut table, &request(Method::Get, "/users/3"));
    assert_eq!(response, message(404, "user with id: 3 not found"));
}

#[test]
fn known_id_is_returned() {
    let mut table = table_with_alice_and_bob();
    let response = serve(&mut table, &request(Method::Get, "/users/2"));
    assert_eq!(response, Response { status: 200, body: Body::User(user(2, "bob", "b@x.com")) });
}

#[test]
fn alternate_endpoint_returns_envelope_or_400() {
    let mut table = table_with_alice_and_bob();
    let found = serve(&mut table, &request(Method::Get, "/users/another/1"));
    assert_eq!(
        found,
        Response {
            status: 200,
            body: Body::Object(vec![
                Field { name: "status".to_string(), value: Value::Text("success".to_string()) },
                Field { name: "data".to_string(), value: Value::User(user(1, "alice", "a@x.com")) },
            ]),
        }
    );
    let missing = serve(&mut table, &request(Method::Get, "/users/another/5"));
    assert_eq!(
        missing,
        Response {
            status: 400,
            body: Body::Object(vec![
                Field { name: "status".to_string(), value: Value::Text("failed".to_string()) },
                Field {
                    name: "msg".to_string(),
                    value: Value::Text("user with id: 5 not found".to_string()),
                },
                Field {
                    name: "detail".to_string(),
                    value: Value::Text(
                        "no rows returned by a query that expected to return at least one row"
                            .to_string(),
                    ),
                },
            ]),
        }
    );
}

#[test]
fn update_of_unknown_id_is_400() {
    let mut table = table_with_alice_and_bob();
    let response = serve(&mut table, &request_with(Method::Put, "/users/9", "carol", "c@x.com"));
    assert_eq!(response, status_and_message(400, "failed", "failed updating user with id: 9"));
    assert_eq!(
        table.select_all(),
        Ok(vec![user(1, "alice", "a@x.com"), user(2, "bob", "b@x.com")])
    );
}

#[test]
fn update_with_new_values_is_reflected() {
    let mut table = table_with_alice_and_bob();
    let response = serve(&mut table, &request_with(Method::Put, "/users/1", "alice", "new@x.com"));
    assert_eq!(
        response,
        status_and_message(200, "success", "user with id: 1 successfully updated")
    );
    let fetched = serve(&mut table, &request(Method::Get, "/users/1"));
    assert_eq!(
        fetched,
        Response { status: 200, body: Body::User(user(1, "alice", "new@x.com")) }
    );
}

#[test]
fn update_with_unchanged_values_is_400() {
    let mut table = table_with_alice_and_bob();
    let response = serve(&mut table, &request_with(Method::Put, "/users/1", "alice", "a@x.com"));
    assert_eq!(response, status_and_message(400, "failed", "failed updating user with id: 1"));
}

#[test]
fn update_without_fields_is_a_bad_request() {
    let mut table = table_with_alice_and_bob();
    let response = serve(&mut table, &request(Method::Put, "/users/1"));
    assert_eq!(response, Response { status: 400, body: Body::Empty });
    assert_eq!(table.select_by_id(1), Ok(Some(user(1, "alice", "a@x.com"))));
}

#[test]
fn delete_then_fetch_then_delete_again() {
    let mut table = table_with_alice_and_bob();
    let deleted = serve(&mut table, &request(Method::Delete, "/users/1"));
    assert_eq!(deleted, message(200, "user with id: 1 successfully deleted"));
    let fetched = serve(&mut table, &request(Method::Get, "/users/1"));
    assert_eq!(fetched, message(404, "user with id: 1 not found"));
    let again = serve(&mut table, &request(Method::Delete, "/users/1"));
    assert_eq!(again, message(422, "failed delete user with id: 1"));
    let list = serve(&mut table, &request(Method::Get, "/users"));
    assert_eq!(list, listed(vec![user(2, "bob", "b@x.com")]));
}

#[test]
fn ping_needs_no_table_contents() {
    let mut empty = UserTable::new();
    let mut filled = table_with_alice_and_bob();
    let pong = Response { status: 200, body: Body::Text("PONG".to_string()) };
    assert_eq!(serve(&mut empty, &request(Method::Get, "/ping")), pong);
    assert_eq!(serve(&mut filled, &request(Method::Get, "/ping")), pong);
    assert_eq!(
        serve(&mut filled, &request_with(Method::Get, "/ping", "x", "y")),
        pong
    );
    assert_eq!(filled.select_all().unwrap().len(), 2);
}

#[test]
fn unmatched_path_is_page_not_found() {
    let mut table = table_with_alice_and_bob();
    for path in ["/", "/nothing", "/users/1/2", "/ping/"] {
        assert_eq!(serve(&mut table, &request(Method::Get, path)), message(404, "Page Not Found"));
    }
    assert_eq!(
        serve(&mut table, &request_with(Method::Post, "/nothing", "x", "y")),
        message(404, "Page Not Found")
    );
    assert_eq!(table.select_all().unwrap().len(), 2);
}

#[test]
fn unsupported_verb_is_method_not_allowed() {
    let mut table = table_with_alice_and_bob();
    assert_eq!(
        serve(&mut table, &request_with(Method::Post, "/users/1", "x", "y")),
        message(405, "Method Not Allowed")
    );
    assert_eq!(
        serve(&mut table, &request(Method::Other, "/users/1")),
        message(405, "Method Not Allowed")
    );
    assert_eq!(table.select_by_id(1), Ok(Some(user(1, "alice", "a@x.com"))));
}

#[test]
fn non_numeric_id_is_400() {
    let mut table = table_with_alice_and_bob();
    let bad = Response { status: 400, body: Body::Empty };
    assert_eq!(serve(&mut table, &request(Method::Get, "/users/abc")), bad);
    assert_eq!(serve(&mut table, &request(Method::Delete, "/users/abc")), bad);
    assert_eq!(serve(&mut table, &request_with(Method::Put, "/users/abc", "x", "y")), bad);
    assert_eq!(serve(&mut table, &request(Method::Get, "/users/another/abc")), bad);
}

#[test]
fn repeated_get_gives_identical_results() {
    let mut table = table_with_alice_and_bob();
    let paths =
        ["/users", "/users/1", "/users/7", "/users/another/2", "/users/another/7", "/ping", "/x"];
    for path in paths {
        let first = serve(&mut table, &request(Method::Get, path));
        let second = serve(&mut table, &request(Method::Get, path));
        assert_eq!(first, second, "{}", path);
    }
    assert_eq!(
        table.select_all(),
        Ok(vec![user(1, "alice", "a@x.com"), user(2, "bob", "b@x.com")])
    );
}

fn failed(status: u16, key: &str, detail: &str) -> Response {
    Response {
        status,
        body: Body::Object(vec![
            Field { name: "msg".to_string(), value: Value::Text("failed".to_string()) },
            Field { name: key.to_string(), value: Value::Text(detail.to_string()) },
        ]),
    }
}

#[test]
fn ping_pongs_while_storage_is_down() {
    let mut table = table_with_alice_and_bob();
    table.fail_with("connection refused");
    assert_eq!(
        serve(&mut table, &request(Method::Get, "/ping")),
        Response { status: 200, body: Body::Text("PONG".to_string()) }
    );
}

#[test]
fn storage_failure_has_a_status_per_endpoint() {
    let mut table = table_with_alice_and_bob();
    table.fail_with("connection refused");
    assert_eq!(
        serve(&mut table, &request(Method::Get, "/users")),
        failed(500, "details", "connection refused")
    );
    assert_eq!(
        serve(&mut table, &request(Method::Get, "/users/1")),
        failed(500, "details", "connection refused")
    );
    assert_eq!(
        serve(&mut table, &request_with(Method::Post, "/users", "carol", "c@x.com")),
        Response { status: 500, body: Body::Empty }
    );
    assert_eq!(
        serve(&mut table, &request_with(Method::Put, "/users/1", "al", "al@x.com")),
        failed(500, "detail", "connection refused")
    );
    assert_eq!(
        serve(&mut table, &request(Method::Delete, "/users/1")),
        Response { status: 400, body: Body::Empty }
    );
    assert_eq!(
        serve(&mut table, &request(Method::Get, "/users/another/1")),
        Response {
            status: 400,
            body: Body::Object(vec![
                Field { name: "status".to_string(), value: Value::Text("failed".to_string()) },
                Field {
                    name: "msg".to_string(),
                    value: Value::Text("user with id: 1 not found".to_string()),
                },
                Field {
                    name: "detail".to_string(),
                    value: Value::Text("connection refused".to_string()),
                },
            ]),
        }
    );
    table.restore();
    assert_eq!(
        table.select_all(),
        Ok(vec![user(1, "alice", "a@x.com"), user(2, "bob", "b@x.com")])
    );
}

#[test]
fn fallbacks_need_no_storage() {
    let mut table = UserTable::new();
    table.fail_with("connection refused");
    assert_eq!(
        serve(&mut table, &request(Method::Get, "/nothing")),
        message(404, "Page Not Found")
    );
    assert_eq!(
        serve(&mut table, &request(Method::Other, "/users/1")),
        message(405, "Method Not Allowed")
    );
    assert_eq!(
        serve(&mut table, &request(Method::Get, "/users/abc")),
        Response { status: 400, body: Body::Empty }
    );
    assert_eq!(
        serve(&mut table, &request(Method::Post, "/users")),
        Response { status: 400, body: Body::Empty }
    );
}

#[test]
fn create_is_500_once_every_id_is_assigned() {
    let mut table = UserTable::starting_at(i32::MAX).unwrap();
    assert_eq!(
        serve(&mut table, &request_with(Method::Post, "/users", "alice", "a@x.com")).status,
        200
    );
    assert_eq!(
        serve(&mut table, &request_with(Method::Post, "/users", "bob", "b@x.com")),
        Response { status: 500, body: Body::Empty }
    );
    assert_eq!(
        serve(&mut table, &request(Method::Get, "/users")),
        listed(vec![user(i32::MAX, "alice", "a@x.com")])
    );
}
