//! Which endpoint a request addresses.
//!
//! The service answers on four paths: `/ping`, `/users`, `/users/<id>` and
//! `/users/another/<id>`. A path is matched as a whole; `<id>` stands for one
//! non-empty segment, that is, for text without a `/`.

use vstd::prelude::*;
use vstd::string::*;
use crate::id::{parse_id_at, parsed_id};
use crate::text::{chars_of, has_prefix, same_text, starts_with};

verus! {

/// The verb of a request. Every verb that the service gives no meaning to is `Other`.
#[derive(Debug, Clone, Copy, PartialEq, Eq)]
pub enum Method {
    Get,
    Post,
    Put,
    Delete,
    Other,
}

/// The verb that `name` spells. Verbs are told apart by case: only the
/// upper-case names are those of the four verbs.
pub open spec fn method_named(name: Seq<char>) -> Method {
    if name == "GET"@ {
        Method::Get
    } else if name == "POST"@ {
        Method::Post
    } else if name == "PUT"@ {
        Method::Put
    } else if name == "DELETE"@ {
        Method::Delete
    } else {
        Method::Other
    }
}

impl Method {
    /// Reads a verb from its name as it stands in the request line.
    pub fn from_name(name: &str) -> (method: Method)
        ensures
            method == method_named(name@),
    {
        let chars = chars_of(name);
        if same_text(&chars, "GET") {
            Method::Get
        } else if same_text(&chars, "POST") {
            Method::Post
        } else if same_text(&chars, "PUT") {
            Method::Put
        } else if same_text(&chars, "DELETE") {
            Method::Delete
        } else {
            Method::Other
        }
    }
}

/// What a request asks for.
#[derive(Debug, Clone, Copy, PartialEq, Eq)]
pub enum Route {
    /// A liveness probe.
    Ping,
    /// All users.
    ListUsers,
    /// A new user, from the fields in the body.
    CreateUser,
    /// The user with this id.
    GetUser { id: u64 },
    /// New fields, from the body, for the user with this id.
    UpdateUser { id: u64 },
    /// The removal of the user with this id.
    DeleteUser { id: u64 },
    /// The user with this id, through the alternate endpoint.
    GetUserAnotherWay { id: u64 },
    /// An endpoint that takes an id, with a segment in its place that is no id.
    BadRequest,
    /// A user resource, with a verb that it does not support.
    MethodNotAllowed,
    /// Nothing that the service knows.
    NotFound,
}

/// `s` is one path segment: not empty, and without a `/`.
pub open spec fn is_segment(s: Seq<char>) -> bool {
    s.len() > 0 && forall|i: int| 0 <= i < s.len() ==> s[i] != '/'
}

/// `path` is `prefix` followed by exactly one segment.
pub open spec fn is_under(path: Seq<char>, prefix: Seq<char>) -> bool {
    has_prefix(path, prefix) && is_segment(path.skip(prefix.len() as int))
}

/// The endpoint that the verb `method` addresses on `path`.
///
/// A user resource answers GET, PUT and DELETE and turns every other verb
/// away as not allowed; an id is read from the segment only for those three.
/// On all other paths a verb without an endpoint finds nothing.
pub open spec fn route_of(method: Method, path: Seq<char>) -> Route {
    if path == "/ping"@ {
        match method {
            Method::Get => Route::Ping,
            _ => Route::NotFound,
        }
    } else if path == "/users"@ {
        match method {
            Method::Get => Route::ListUsers,
            Method::Post => Route::CreateUser,
            _ => Route::NotFound,
        }
    } else if is_under(path, "/users/"@) {
        let id = parsed_id(path.skip("/users/"@.len() as int));
        match (method, id) {
            (Method::Get, Some(id)) => Route::GetUser { id },
            (Method::Put, Some(id)) => Route::UpdateUser { id },
            (Method::Delete, Some(id)) => Route::DeleteUser { id },
            (Method::Get, None) | (Method::Put, None) | (Method::Delete, None) => Route::BadRequest,
            _ => Route::MethodNotAllowed,
        }
    } else if is_under(path, "/users/another/"@) {
        let id = parsed_id(path.skip("/users/another/"@.len() as int));
        match (method, id) {
            (Method::Get, Some(id)) => Route::GetUserAnotherWay { id },
            (Method::Get, None) => Route::BadRequest,
            _ => Route::NotFound,
        }
    } else {
        Route::NotFound
    }
}

/// Whether the characters of `chars` from `from` on form one segment.
fn segment_at(chars: &Vec<char>, from: usize) -> (found: bool)
    requires
        from <= chars.len(),
    ensures
        found == is_segment(chars@.skip(from as int)),
{
    if from == chars.len() {
        return false;
    }
    let ghost rest = chars@.skip(from as int);
    let mut i: usize = from;
    while i < chars.len()
        invariant
            from <= i <= chars.len(),
            rest == chars@.skip(from as int),
            forall|k: int| 0 <= k < i - from ==> rest[k] != '/',
        decreases chars.len() - i,
    {
        if chars[i] == '/' {
            assert(rest[i - from] == '/');
            return false;
        }
        i += 1;
    }
    true
}

/// Whether `chars` is `prefix` followed by exactly one segment, and where that segment starts.
fn under(chars: &Vec<char>, prefix: &str) -> (found: Option<usize>)
    ensures
        found is Some <==> is_under(chars@, prefix@),
        found matches Some(start) ==> start == prefix@.len() && start <= chars.len(),
{
    if starts_with(chars, prefix) {
        let start = prefix.unicode_len();
        if segment_at(chars, start) {
            return Some(start);
        }
    }
    None
}

/// Finds the endpoint that the verb `method` addresses on `path`.
pub fn route(method: Method, path: &str) -> (found: Route)
    ensures
        found == route_of(method, path@),
{
    let chars = chars_of(path);
    if same_text(&chars, "/ping") {
        return match method {
            Method::Get => Route::Ping,
            _ => Route::NotFound,
        };
    }
    if same_text(&chars, "/users") {
        return match method {
            Method::Get => Route::ListUsers,
            Method::Post => Route::CreateUser,
            _ => Route::NotFound,
        };
    }
    if let Some(start) = under(&chars, "/users/") {
        return match method {
            Method::Get => match parse_id_at(&chars, start) {
                Some(id) => Route::GetUser { id },
                None => Route::BadRequest,
            },
            Method::Put => match parse_id_at(&chars, start) {
                Some(id) => Route::UpdateUser { id },
                None => Route::BadRequest,
            },
            Method::Delete => match parse_id_at(&chars, start) {
                Some(id) => Route::DeleteUser { id },
                None => Route::BadRequest,
            },
            _ => Route::MethodNotAllowed,
        };
    }
    if let Some(start) = under(&chars, "/users/another/") {
        return match method {
            Method::Get => match parse_id_at(&chars, start) {
                Some(id) => Route::GetUserAnotherWay { id },
                None => Route::BadRequest,
            },
            _ => Route::NotFound,
        };
    }
    Route::NotFound
}

} // verus!
