//! What holds of the service over one request and over several, stated
//! over the in-memory users table.

use vstd::prelude::*;
use crate::handlers::{
    method_not_allowed_response, page_not_found_response, pong, user_with_id, users_listed,
};
use crate::id::{decimal, is_digit, lemma_decimal_digits, lemma_decimal_round_trip, parsed_id};
use crate::response::{
    entity, object, text_field, BAD_REQUEST, INTERNAL_SERVER_ERROR, METHOD_NOT_ALLOWED,
    NOT_FOUND, OK, UNPROCESSABLE_ENTITY,
};
use crate::route::{is_segment, is_under, route_of, Method, Route};
use crate::service::{served, RequestView};
use crate::table::{no_row_text, TableView};
use crate::text::has_prefix;
use crate::user::{UserPayloadView, UserView};

verus! {

/// The path of the user `id`: `/users/<id>`.
pub open spec fn user_path(id: u64) -> Seq<char> {
    "/users/"@ + decimal(id as nat)
}

/// The path of the user `id` on the alternate endpoint: `/users/another/<id>`.
pub open spec fn alternate_user_path(id: u64) -> Seq<char> {
    "/users/another/"@ + decimal(id as nat)
}

/// The path of the user collection is not the probe's.
proof fn lemma_collection_path()
    ensures
        "/users"@ != "/ping"@,
{
    reveal_strlit("/ping");
    reveal_strlit("/users");
    assert("/ping"@.len() == 5 && "/users"@.len() == 6);
}

/// A path under `/users/` is neither the probe's path nor the collection's,
/// and no path is under both `/users/` and `/users/another/`.
proof fn lemma_resource_path(path: Seq<char>)
    requires
        is_under(path, "/users/"@),
    ensures
        path != "/ping"@,
        path != "/users"@,
        !is_under(path, "/users/another/"@),
{
    reveal_strlit("/ping");
    reveal_strlit("/users");
    reveal_strlit("/users/");
    reveal_strlit("/users/another/");
    let rest = path.skip("/users/"@.len() as int);
    assert(path.take(7)[1] == 'u');
    if has_prefix(path, "/users/another/"@) {
        assert(path.take(15)[14] == '/');
        assert(rest[7] == '/');
    }
}

/// The numeral of an id is one segment, and reads as that id.
proof fn lemma_decimal_segment(id: u64)
    ensures
        is_segment(decimal(id as nat)),
        parsed_id(decimal(id as nat)) == Some(id),
{
    lemma_decimal_digits(id as nat);
    lemma_decimal_round_trip(id);
    let numeral = decimal(id as nat);
    assert forall|i: int| 0 <= i < numeral.len() implies numeral[i] != '/' by {
        assert(is_digit(numeral[i]));
    }
}

/// The path of the user `id` addresses that user's resource, which answers
/// GET, PUT and DELETE and allows no other verb.
pub proof fn lemma_user_path(method: Method, id: u64)
    ensures
        is_under(user_path(id), "/users/"@),
        route_of(method, user_path(id)) == match method {
            Method::Get => Route::GetUser { id },
            Method::Put => Route::UpdateUser { id },
            Method::Delete => Route::DeleteUser { id },
            _ => Route::MethodNotAllowed,
        },
{
    let path = user_path(id);
    lemma_decimal_segment(id);
    assert(path.take("/users/"@.len() as int) =~= "/users/"@);
    assert(path.skip("/users/"@.len() as int) =~= decimal(id as nat));
    lemma_resource_path(path);
}

/// The alternate path of the user `id` addresses the alternate endpoint,
/// which answers GET alone.
pub proof fn lemma_alternate_user_path(method: Method, id: u64)
    ensures
        is_under(alternate_user_path(id), "/users/another/"@),
        route_of(method, alternate_user_path(id)) == match method {
            Method::Get => Route::GetUserAnotherWay { id },
            _ => Route::NotFound,
        },
{
    let path = alternate_user_path(id);
    lemma_decimal_segment(id);
    reveal_strlit("/ping");
    reveal_strlit("/users");
    reveal_strlit("/users/");
    reveal_strlit("/users/another/");
    assert(path.take("/users/another/"@.len() as int) =~= "/users/another/"@);
    assert(path.skip("/users/another/"@.len() as int) =~= decimal(id as nat));
    assert(path[14] == '/');
    assert(path.skip("/users/"@.len() as int)[7] == '/');
}

/// Serving a request leaves a well-formed table well-formed: ids stay
/// positive and distinct. The next id to assign never falls, so that an id
/// is not assigned a second time, not even after its row was deleted. And
/// no request takes the table out of service or puts it back.
pub proof fn table_stays_well_formed(table: TableView, request: RequestView)
    requires
        table.wf(),
    ensures
        served(table, request).0.wf(),
        served(table, request).0.next_id >= table.next_id,
        served(table, request).0.outage == table.outage,
{
    let after = served(table, request).0;
    match route_of(request.method, request.path) {
        Route::UpdateUser { id } => {
            if after != table {
                assert forall|i: int| 0 <= i < after.rows.len() implies 1 <= (
                #[trigger] after.rows[i]).id < after.next_id by {
                    assert(after.rows[i].id == table.rows[i].id);
                }
                assert forall|i: int, j: int| 0 <= i < j < after.rows.len() implies (
                #[trigger] after.rows[i]).id != (#[trigger] after.rows[j]).id by {
                    assert(after.rows[i].id == table.rows[i].id);
                    assert(after.rows[j].id == table.rows[j].id);
                }
            }
        },
        Route::DeleteUser { id } => {
            if after != table {
                let p = table.position(id as int);
                assert forall|i: int| 0 <= i < after.rows.len() implies 1 <= (
                #[trigger] after.rows[i]).id < after.next_id by {
                    if i < p {
                        assert(after.rows[i] == table.rows[i]);
                    } else {
                        assert(after.rows[i] == table.rows[i + 1]);
                    }
                }
                assert forall|i: int, j: int| 0 <= i < j < after.rows.len() implies (
                #[trigger] after.rows[i]).id != (#[trigger] after.rows[j]).id by {
                    let from_i = if i < p {
                        i
                    } else {
                        i + 1
                    };
                    let from_j = if j < p {
                        j
                    } else {
                        j + 1
                    };
                    assert(after.rows[i] == table.rows[from_i]);
                    assert(after.rows[j] == table.rows[from_j]);
                }
            }
        },
        _ => {},
    }
}

/// An id that the table has not assigned yet belongs to no row.
pub proof fn unassigned_id_is_absent(table: TableView, id: u64)
    requires
        table.wf(),
        id >= table.next_id,
    ensures
        !table.has(id as int),
{
}

/// The liveness probe is answered with 200 and `PONG` whatever the table
/// holds, whether it is in service or not, and whatever the body carried;
/// and it leaves the table alone.
pub proof fn ping_always_pongs(table: TableView, payload: Option<UserPayloadView>)
    ensures
        served(table, RequestView { method: Method::Get, path: "/ping"@, payload }) == (
            table,
            pong(),
        ),
{
}

/// A request on a path that is none of the service's four is answered with
/// 404 and the message `Page Not Found`, whatever its verb.
pub proof fn unmatched_path_is_not_found(table: TableView, request: RequestView)
    requires
        request.path != "/ping"@,
        request.path != "/users"@,
        !is_under(request.path, "/users/"@),
        !is_under(request.path, "/users/another/"@),
    ensures
        served(table, request) == (table, page_not_found_response()),
{
}

/// A request on a user resource with a verb other than GET, PUT and DELETE
/// is answered with 405, whatever stands in the id's place.
pub proof fn unsupported_verb_is_not_allowed(table: TableView, request: RequestView)
    requires
        is_under(request.path, "/users/"@),
        request.method is Post || request.method is Other,
    ensures
        served(table, request) == (table, method_not_allowed_response()),
{
    lemma_resource_path(request.path);
}

/// While the table is out of service no request changes it, and each
/// endpoint reports the failure with its own status: the two fetches by
/// list and by id with 500, the alternate fetch with 400, create and update
/// with 500, delete with 400. What needs no statement is answered as ever.
pub proof fn outage_is_reported(table: TableView, request: RequestView)
    requires
        !table.available(),
    ensures
        served(table, request).0 == table,
        served(table, request).1.status == match route_of(request.method, request.path) {
            Route::Ping => OK as int,
            Route::ListUsers => INTERNAL_SERVER_ERROR as int,
            Route::GetUser { .. } => INTERNAL_SERVER_ERROR as int,
            Route::GetUserAnotherWay { .. } => BAD_REQUEST as int,
            Route::CreateUser | Route::UpdateUser { .. } => if request.payload is Some {
                INTERNAL_SERVER_ERROR as int
            } else {
                BAD_REQUEST as int
            },
            Route::DeleteUser { .. } => BAD_REQUEST as int,
            Route::BadRequest => BAD_REQUEST as int,
            Route::MethodNotAllowed => METHOD_NOT_ALLOWED as int,
            Route::NotFound => NOT_FOUND as int,
        },
{
}

/// A GET never changes the table.
pub proof fn get_changes_nothing(table: TableView, request: RequestView)
    requires
        request.method is Get,
    ensures
        served(table, request).0 == table,
{
}

/// Repeating a GET with no write in between gives the same response again.
pub proof fn repeated_get_answers_the_same(table: TableView, request: RequestView)
    requires
        request.method is Get,
    ensures
        served(served(table, request).0, request) == served(table, request),
{
}

/// Creating a user succeeds with a message that names the user, and the
/// list that is fetched next holds a row with the user's name and address.
/// This is stated of a table that is in service and has an id left to assign.
pub proof fn created_user_is_listed(
    table: TableView,
    payload: UserPayloadView,
    ignored: Option<UserPayloadView>,
)
    requires
        table.available(),
        table.can_insert(),
    ensures
        ({
            let create = RequestView {
                method: Method::Post,
                path: "/users"@,
                payload: Some(payload),
            };
            let list = RequestView { method: Method::Get, path: "/users"@, payload: ignored };
            let (after, created) = served(table, create);
            &&& created == object(
                OK as int,
                seq![
                    text_field("status"@, "success"@),
                    text_field("msg"@, "user "@ + payload.username + " successfully added!"@),
                ],
            )
            &&& served(after, list) == (after, users_listed(Ok(after.rows)))
            &&& exists|i: int|
                0 <= i < after.rows.len() && (#[trigger] after.rows[i]).username
                    == payload.username && after.rows[i].email == payload.email
        }),
{
    lemma_collection_path();
    let after = table.with_new_row(payload);
    let i = table.rows.len() as int;
    assert(after.rows[i].username == payload.username && after.rows[i].email == payload.email);
}

/// Fetching an id that no row has is answered with 404 and a message that
/// holds the id, and leaves the table alone.
pub proof fn unknown_user_is_not_found(
    table: TableView,
    id: u64,
    ignored: Option<UserPayloadView>,
)
    requires
        table.available(),
        !table.has(id as int),
    ensures
        served(table, RequestView { method: Method::Get, path: user_path(id), payload: ignored })
            == (
            table,
            object(
                NOT_FOUND as int,
                seq![text_field("msg"@, "user with id: "@ + decimal(id as nat) + " not found"@)],
            ),
        ),
{
    lemma_user_path(Method::Get, id);
}

/// Where the primary endpoint answers a fetch with 404, the alternate
/// endpoint answers 400: to it a missing row is a failure like any other.
pub proof fn alternate_fetch_of_unknown_user_is_bad_request(
    table: TableView,
    id: u64,
    ignored: Option<UserPayloadView>,
)
    requires
        table.available(),
        !table.has(id as int),
    ensures
        served(
            table,
            RequestView { method: Method::Get, path: alternate_user_path(id), payload: ignored },
        ) == (
            table,
            object(
                BAD_REQUEST as int,
                seq![
                    text_field("status"@, "failed"@),
                    text_field("msg"@, user_with_id(id) + " not found"@),
                    text_field("detail"@, no_row_text()),
                ],
            ),
        ),
{
    lemma_alternate_user_path(Method::Get, id);
}

/// Overwriting an id that no row has is answered with 400 and changes nothing.
pub proof fn update_of_unknown_user_fails(table: TableView, id: u64, payload: UserPayloadView)
    requires
        table.available(),
        !table.has(id as int),
    ensures
        served(
            table,
            RequestView { method: Method::Put, path: user_path(id), payload: Some(payload) },
        ) == (
            table,
            object(
                BAD_REQUEST as int,
                seq![
                    text_field("status"@, "failed"@),
                    text_field("msg"@, "failed updating "@ + user_with_id(id)),
                ],
            ),
        ),
{
    lemma_user_path(Method::Put, id);
}

/// Overwriting an existing user with fields that differ from the stored
/// ones is answered with 200, and the user that is fetched next holds the
/// new fields under the old id.
pub proof fn updated_user_holds_new_fields(
    table: TableView,
    id: u64,
    payload: UserPayloadView,
    ignored: Option<UserPayloadView>,
)
    requires
        table.wf(),
        table.available(),
        table.changes(id as int, payload),
    ensures
        ({
            let update = RequestView {
                method: Method::Put,
                path: user_path(id),
                payload: Some(payload),
            };
            let fetch = RequestView { method: Method::Get, path: user_path(id), payload: ignored };
            let (after, updated) = served(table, update);
            &&& updated == object(
                OK as int,
                seq![
                    text_field("status"@, "success"@),
                    text_field("msg"@, user_with_id(id) + " successfully updated"@),
                ],
            )
            &&& served(after, fetch) == (
                after,
                entity(
                    OK as int,
                    UserView { id: id as int, username: payload.username, email: payload.email },
                ),
            )
        }),
{
    lemma_user_path(Method::Put, id);
    lemma_user_path(Method::Get, id);
    let update = RequestView { method: Method::Put, path: user_path(id), payload: Some(payload) };
    table_stays_well_formed(table, update);
    let after = table.with_row_written(id as int, payload);
    let p = table.position(id as int);
    assert(after.rows[p].id == id);
    after.lemma_position(id as int, p);
}

/// Overwriting a user leaves every row in its place and under its id, and
/// touches no row but the one that was addressed.
pub proof fn update_keeps_ids(table: TableView, id: u64, payload: UserPayloadView)
    requires
        table.wf(),
    ensures
        ({
            let update = RequestView {
                method: Method::Put,
                path: user_path(id),
                payload: Some(payload),
            };
            let after = served(table, update).0;
            &&& after.next_id == table.next_id
            &&& after.rows.len() == table.rows.len()
            &&& forall|i: int|
                0 <= i < table.rows.len() ==> (#[trigger] after.rows[i]).id == table.rows[i].id
            &&& forall|i: int|
                0 <= i < table.rows.len() && table.rows[i].id != id ==> #[trigger] after.rows[i]
                    == table.rows[i]
        }),
{
    lemma_user_path(Method::Put, id);
    if table.has(id as int) {
        let p = table.position(id as int);
        assert(table.rows[p].id == id);
    }
}

/// Deleting an existing user is answered with 200; fetching the user next
/// is answered with 404, and deleting it once more with 422.
pub proof fn deleted_user_is_gone(
    table: TableView,
    id: u64,
    ignored: Option<UserPayloadView>,
)
    requires
        table.wf(),
        table.available(),
        table.has(id as int),
    ensures
        ({
            let delete = RequestView {
                method: Method::Delete,
                path: user_path(id),
                payload: ignored,
            };
            let fetch = RequestView { method: Method::Get, path: user_path(id), payload: ignored };
            let (after, deleted) = served(table, delete);
            &&& deleted == object(
                OK as int,
                seq![text_field("msg"@, user_with_id(id) + " successfully deleted"@)],
            )
            &&& served(after, fetch) == (
                after,
                object(
                    NOT_FOUND as int,
                    seq![text_field("msg"@, user_with_id(id) + " not found"@)],
                ),
            )
            &&& served(after, delete) == (
                after,
                object(
                    UNPROCESSABLE_ENTITY as int,
                    seq![text_field("msg"@, "failed delete "@ + user_with_id(id))],
                ),
            )
        }),
{
    lemma_user_path(Method::Delete, id);
    lemma_user_path(Method::Get, id);
    let after = table.without_row(id as int);
    let p = table.position(id as int);
    if after.has(id as int) {
        let q = after.position(id as int);
        let from = if q < p {
            q
        } else {
            q + 1
        };
        assert(after.rows[q] == table.rows[from]);
        table.lemma_position(id as int, from);
    }
}

} // verus!
