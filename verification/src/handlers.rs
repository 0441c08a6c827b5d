//! One handler per endpoint. A handler takes what the request carried and
//! what the storage engine answered, and gives the response to send. None
//! of them touches the storage engine itself.

use vstd::prelude::*;
use vstd::string::*;
use crate::id::{decimal, format_id};
use crate::response::{
    empty, entity, object, plain, text_field, user_field, users_field, Field, Response,
    ResponseView, BAD_REQUEST, INTERNAL_SERVER_ERROR, METHOD_NOT_ALLOWED, NOT_FOUND, OK,
    UNPROCESSABLE_ENTITY,
};
use crate::storage::{count_view, one_view, row_view, rows_view, StorageError};
use crate::user::{User, UserPayload, UserView};

verus! {

/// The text that names the user with the given id: `user with id: <id>`.
pub open spec fn user_with_id(id: u64) -> Seq<char> {
    "user with id: "@ + decimal(id as nat)
}

/// The answer to a liveness probe.
pub open spec fn pong() -> ResponseView {
    plain(OK as int, "PONG"@)
}

/// The answer to a request for an id that is not a number, or for a body
/// that does not hold the fields of a user.
pub open spec fn bad_request_response() -> ResponseView {
    empty(BAD_REQUEST as int)
}

/// The answer to a verb that the addressed user resource does not support.
pub open spec fn method_not_allowed_response() -> ResponseView {
    object(METHOD_NOT_ALLOWED as int, seq![text_field("msg"@, "Method Not Allowed"@)])
}

/// The answer to a request that addresses no endpoint.
pub open spec fn page_not_found_response() -> ResponseView {
    object(NOT_FOUND as int, seq![text_field("msg"@, "Page Not Found"@)])
}

/// The answer to a request for all users, given what the storage engine returned.
pub open spec fn users_listed(outcome: Result<Seq<UserView>, Seq<char>>) -> ResponseView {
    match outcome {
        Ok(users) => object(
            OK as int,
            seq![text_field("msg"@, "success"@), users_field("data"@, users)],
        ),
        Err(detail) => object(
            INTERNAL_SERVER_ERROR as int,
            seq![text_field("msg"@, "failed"@), text_field("details"@, detail)],
        ),
    }
}

/// The answer to a request for the user `id`, given what the storage engine returned.
pub open spec fn user_fetched(
    id: u64,
    outcome: Result<Option<UserView>, Seq<char>>,
) -> ResponseView {
    match outcome {
        Ok(Some(user)) => entity(OK as int, user),
        Ok(None) => object(
            NOT_FOUND as int,
            seq![text_field("msg"@, user_with_id(id) + " not found"@)],
        ),
        Err(detail) => object(
            INTERNAL_SERVER_ERROR as int,
            seq![text_field("msg"@, "failed"@), text_field("details"@, detail)],
        ),
    }
}

/// The answer of the alternate endpoint to a request for the user `id`. It
/// expects exactly one row, so a missing row reaches it as a failure like any other.
pub open spec fn user_fetched_another_way(
    id: u64,
    outcome: Result<UserView, Seq<char>>,
) -> ResponseView {
    match outcome {
        Ok(user) => object(
            OK as int,
            seq![text_field("status"@, "success"@), user_field("data"@, user)],
        ),
        Err(detail) => object(
            BAD_REQUEST as int,
            seq![
                text_field("status"@, "failed"@),
                text_field("msg"@, user_with_id(id) + " not found"@),
                text_field("detail"@, detail),
            ],
        ),
    }
}

/// The answer to a request that creates a user called `username`, given how
/// many rows the storage engine reported as inserted.
pub open spec fn user_created(
    username: Seq<char>,
    outcome: Result<nat, Seq<char>>,
) -> ResponseView {
    match outcome {
        Ok(count) => if count > 0 {
            object(
                OK as int,
                seq![
                    text_field("status"@, "success"@),
                    text_field("msg"@, "user "@ + username + " successfully added!"@),
                ],
            )
        } else {
            object(
                BAD_REQUEST as int,
                seq![text_field("msg"@, "failed creating user "@ + username)],
            )
        },
        Err(_) => empty(INTERNAL_SERVER_ERROR as int),
    }
}

/// The answer to a request that overwrites the user `id`, given how many
/// rows the storage engine reported as changed.
pub open spec fn user_updated(id: u64, outcome: Result<nat, Seq<char>>) -> ResponseView {
    match outcome {
        Ok(count) => if count > 0 {
            object(
                OK as int,
                seq![
                    text_field("status"@, "success"@),
                    text_field("msg"@, user_with_id(id) + " successfully updated"@),
                ],
            )
        } else {
            object(
                BAD_REQUEST as int,
                seq![
                    text_field("status"@, "failed"@),
                    text_field("msg"@, "failed updating "@ + user_with_id(id)),
                ],
            )
        },
        Err(detail) => object(
            INTERNAL_SERVER_ERROR as int,
            seq![text_field("msg"@, "failed"@), text_field("detail"@, detail)],
        ),
    }
}

/// The answer to a request that deletes the user `id`, given how many rows
/// the storage engine reported as deleted.
pub open spec fn user_deleted(id: u64, outcome: Result<nat, Seq<char>>) -> ResponseView {
    match outcome {
        Ok(count) => if count > 0 {
            object(
                OK as int,
                seq![text_field("msg"@, user_with_id(id) + " successfully deleted"@)],
            )
        } else {
            object(
                UNPROCESSABLE_ENTITY as int,
                seq![text_field("msg"@, "failed delete "@ + user_with_id(id))],
            )
        },
        Err(_) => empty(BAD_REQUEST as int),
    }
}

/// The text `user with id: <id>`, followed by `tail`.
fn user_then(id: u64, tail: &str) -> (text: String)
    ensures
        text@ == user_with_id(id) + tail@,
{
    let mut text = String::from_str("user with id: ");
    let number = format_id(id);
    text.append(number.as_str());
    text.append(tail);
    text
}

/// The text `head`, followed by `user with id: <id>`.
fn then_user(head: &str, id: u64) -> (text: String)
    ensures
        text@ == head@ + user_with_id(id),
{
    let mut text = String::from_str(head);
    text.append("user with id: ");
    let number = format_id(id);
    text.append(number.as_str());
    assert(text@ =~= head@ + user_with_id(id));
    text
}

/// Answers a liveness probe: always 200 with the plain text `PONG`.
pub fn ping_server() -> (response: Response)
    ensures
        response@ == pong(),
{
    Response::plain(OK, "PONG")
}

/// Answers a request whose id is not a number, or whose body does not hold
/// the fields of a user: 400 with no body.
pub fn bad_request() -> (response: Response)
    ensures
        response@ == bad_request_response(),
{
    Response::empty(BAD_REQUEST)
}

/// Answers a verb that the addressed user resource does not support:
/// 405 with the message `Method Not Allowed`.
pub fn method_not_allowed() -> (response: Response)
    ensures
        response@ == method_not_allowed_response(),
{
    Response::object1(
        METHOD_NOT_ALLOWED,
        Field::text("msg", String::from_str("Method Not Allowed")),
    )
}

/// Answers a request that addresses no endpoint: 404 with the message `Page Not Found`.
pub fn page_not_found() -> (response: Response)
    ensures
        response@ == page_not_found_response(),
{
    Response::object1(NOT_FOUND, Field::text("msg", String::from_str("Page Not Found")))
}

/// Answers a request for all users. The rows come back in the order in
/// which the storage engine returned them, under `data`; a failure of the
/// engine gives 500 with the engine's text under `details`.
pub fn get_users(outcome: Result<Vec<User>, StorageError>) -> (response: Response)
    ensures
        response@ == users_listed(rows_view(outcome)),
{
    match outcome {
        Ok(users) => Response::object2(
            OK,
            Field::text("msg", String::from_str("success")),
            Field::users("data", users),
        ),
        Err(error) => Response::object2(
            INTERNAL_SERVER_ERROR,
            Field::text("msg", String::from_str("failed")),
            Field::text("details", error.detail),
        ),
    }
}

/// Answers a request for the user `id`: 200 with the user itself where the
/// storage engine found the row, 404 with a message that names the id where
/// it found none, and 500 with the engine's text where it failed.
pub fn get_user(id: u64, outcome: Result<Option<User>, StorageError>) -> (response: Response)
    ensures
        response@ == user_fetched(id, row_view(outcome)),
{
    match outcome {
        Ok(Some(user)) => Response::entity(OK, user),
        Ok(None) => Response::object1(
            NOT_FOUND,
            Field::text("msg", user_then(id, " not found")),
        ),
        Err(error) => Response::object2(
            INTERNAL_SERVER_ERROR,
            Field::text("msg", String::from_str("failed")),
            Field::text("details", error.detail),
        ),
    }
}

/// Answers a request for the user `id` on the alternate endpoint: 200 with
/// the user under `data`, and 400 for every failure, a missing row included.
pub fn get_user_another_way(id: u64, outcome: Result<User, StorageError>) -> (response: Response)
    ensures
        response@ == user_fetched_another_way(id, one_view(outcome)),
{
    match outcome {
        Ok(user) => Response::object2(
            OK,
            Field::text("status", String::from_str("success")),
            Field::user("data", user),
        ),
        Err(error) => Response::object3(
            BAD_REQUEST,
            Field::text("status", String::from_str("failed")),
            Field::text("msg", user_then(id, " not found")),
            Field::text("detail", error.detail),
        ),
    }
}

/// Answers a request that creates the user in `payload`: 200 where the
/// storage engine inserted a row, 400 where it reported none, and 500 with
/// no body where it failed.
pub fn create_user(
    payload: &UserPayload,
    outcome: Result<u64, StorageError>,
) -> (response: Response)
    ensures
        response@ == user_created(payload@.username, count_view(outcome)),
{
    match outcome {
        Ok(count) => {
            if count > 0 {
                let mut msg = String::from_str("user ");
                msg.append(payload.username.as_str());
                msg.append(" successfully added!");
                Response::object2(
                    OK,
                    Field::text("status", String::from_str("success")),
                    Field::text("msg", msg),
                )
            } else {
                let mut msg = String::from_str("failed creating user ");
                msg.append(payload.username.as_str());
                Response::object1(BAD_REQUEST, Field::text("msg", msg))
            }
        },
        Err(_) => Response::empty(INTERNAL_SERVER_ERROR),
    }
}

/// Answers a request that overwrites the user `id`: 200 where the storage
/// engine changed a row, 400 where it changed none, and 500 with the
/// engine's text under `detail` where it failed.
pub fn update_user(id: u64, outcome: Result<u64, StorageError>) -> (response: Response)
    ensures
        response@ == user_updated(id, count_view(outcome)),
{
    match outcome {
        Ok(count) => {
            if count > 0 {
                Response::object2(
                    OK,
                    Field::text("status", String::from_str("success")),
                    Field::text("msg", user_then(id, " successfully updated")),
                )
            } else {
                Response::object2(
                    BAD_REQUEST,
                    Field::text("status", String::from_str("failed")),
                    Field::text("msg", then_user("failed updating ", id)),
                )
            }
        },
        Err(error) => Response::object2(
            INTERNAL_SERVER_ERROR,
            Field::text("msg", String::from_str("failed")),
            Field::text("detail", error.detail),
        ),
    }
}

/// Answers a request that deletes the user `id`: 200 where the storage
/// engine deleted a row, 422 where it deleted none, and 400 with no body
/// where it failed.
pub fn delete_user(id: u64, outcome: Result<u64, StorageError>) -> (response: Response)
    ensures
        response@ == user_deleted(id, count_view(outcome)),
{
    match outcome {
        Ok(count) => {
            if count > 0 {
                Response::object1(
                    OK,
                    Field::text("msg", user_then(id, " successfully deleted")),
                )
            } else {
                Response::object1(
                    UNPROCESSABLE_ENTITY,
                    Field::text("msg", then_user("failed delete ", id)),
                )
            }
        },
        Err(_) => Response::empty(BAD_REQUEST),
    }
}

} // verus!
