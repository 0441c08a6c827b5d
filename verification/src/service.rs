//! The service as a whole, run against the in-memory users table: a request
//! is routed, the statement of the addressed endpoint runs on the table, and
//! the endpoint's handler turns the outcome into the response.

use vstd::prelude::*;
use crate::handlers::{
    bad_request, bad_request_response, create_user, delete_user, get_user, get_user_another_way,
    get_users, method_not_allowed, method_not_allowed_response, page_not_found,
    page_not_found_response, ping_server, pong, update_user, user_created, user_deleted,
    user_fetched, user_fetched_another_way, user_updated, users_listed,
};
use crate::response::{Response, ResponseView};
use crate::route::{route, route_of, Method, Route};
use crate::table::{TableView, UserTable};
use crate::user::{UserPayload, UserPayloadView};

verus! {

/// A request, as a mathematical value.
pub struct RequestView {
    pub method: Method,
    pub path: Seq<char>,
    pub payload: Option<UserPayloadView>,
}

/// A request as the service sees it: the verb, the path, and the fields of
/// a user where the body held them. `payload` is `None` for a request
/// without a body and for a body that could not be read as those fields.
#[derive(Debug, PartialEq, Eq)]
pub struct Request {
    pub method: Method,
    pub path: String,
    pub payload: Option<UserPayload>,
}

impl View for Request {
    type V = RequestView;

    open spec fn view(&self) -> RequestView {
        RequestView {
            method: self.method,
            path: self.path@,
            payload: match self.payload {
                Some(payload) => Some(payload@),
                None => None,
            },
        }
    }
}

/// The table after `request` was served on `table`, and the response to it.
///
/// Each endpoint runs one statement and hands its outcome to its handler.
/// The probe and the three fallbacks run none. The two endpoints that take
/// fields from the body answer with a bad request, and run no statement,
/// where the body held none.
pub open spec fn served(table: TableView, request: RequestView) -> (TableView, ResponseView) {
    match route_of(request.method, request.path) {
        Route::Ping => (table, pong()),
        Route::ListUsers => (table, users_listed(table.select_all())),
        Route::GetUser { id } => (table, user_fetched(id, table.select_by_id(id as int))),
        Route::GetUserAnotherWay { id } => (
            table,
            user_fetched_another_way(id, table.select_one(id as int)),
        ),
        Route::CreateUser => match request.payload {
            Some(payload) => {
                let (after, outcome) = table.insert(payload);
                (after, user_created(payload.username, outcome))
            },
            None => (table, bad_request_response()),
        },
        Route::UpdateUser { id } => match request.payload {
            Some(payload) => {
                let (after, outcome) = table.update(id as int, payload);
                (after, user_updated(id, outcome))
            },
            None => (table, bad_request_response()),
        },
        Route::DeleteUser { id } => {
            let (after, outcome) = table.delete(id as int);
            (after, user_deleted(id, outcome))
        },
        Route::BadRequest => (table, bad_request_response()),
        Route::MethodNotAllowed => (table, method_not_allowed_response()),
        Route::NotFound => (table, page_not_found_response()),
    }
}

/// Serves `request` on `table`.
pub fn serve(table: &mut UserTable, request: &Request) -> (response: Response)
    requires
        old(table)@.wf(),
    ensures
        final(table)@.wf(),
        (final(table)@, response@) == served(old(table)@, request@),
{
    match route(request.method, request.path.as_str()) {
        Route::Ping => ping_server(),
        Route::ListUsers => get_users(table.select_all()),
        Route::GetUser { id } => get_user(id, table.select_by_id(id)),
        Route::GetUserAnotherWay { id } => get_user_another_way(id, table.select_one(id)),
        Route::CreateUser => match &request.payload {
            Some(payload) => {
                let outcome = table.insert(payload);
                create_user(payload, outcome)
            },
            None => bad_request(),
        },
        Route::UpdateUser { id } => match &request.payload {
            Some(payload) => {
                let outcome = table.update(id, payload);
                update_user(id, outcome)
            },
            None => bad_request(),
        },
        Route::DeleteUser { id } => {
            let outcome = table.delete(id);
            delete_user(id, outcome)
        },
        Route::BadRequest => bad_request(),
        Route::MethodNotAllowed => method_not_allowed(),
        Route::NotFound => page_not_found(),
    }
}

} // verus!
