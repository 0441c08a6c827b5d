use users_api::{User, UserPayload};

#[test]
fn cloned_user_equals_its_source() {
    let user = User { id: 7, username: "alice".to_string(), email: "a@x.com".to_string() };
    let copy = user.clone();
    assert_eq!(copy, user);
    assert_eq!(copy.id, 7);
    assert_eq!(copy.username, "alice");
    assert_eq!(copy.email, "a@x.com");
}

#[test]
fn cloned_payload_equals_its_source() {
    let payload = UserPayload { username: "bob".to_string(), email: "b@x.com".to_string() };
    let copy = payload.clone();
    assert_eq!(copy, payload);
    assert_eq!(copy.username, "bob");
    assert_eq!(copy.email, "b@x.com");
}
