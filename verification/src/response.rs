//! What the service sends back: a status code and a body.

use vstd::prelude::*;
use vstd::string::*;
use crate::user::{User, UserView};

verus! {

pub const OK: u16 = 200;

pub const BAD_REQUEST: u16 = 400;

pub const NOT_FOUND: u16 = 404;

pub const METHOD_NOT_ALLOWED: u16 = 405;

pub const UNPROCESSABLE_ENTITY: u16 = 422;

pub const INTERNAL_SERVER_ERROR: u16 = 500;

/// The users in `rows` as mathematical values, in the same order.
pub open spec fn user_views(rows: Seq<User>) -> Seq<UserView> {
    Seq::new(rows.len(), |i: int| rows[i]@)
}

/// The value of one member of a JSON object, as a mathematical value.
pub enum ValueView {
    Text(Seq<char>),
    User(UserView),
    Users(Seq<UserView>),
}

/// The value of one member of a JSON object: a string, a user written as an
/// object of its three attributes, or an array of such users.
#[derive(Debug, PartialEq, Eq)]
pub enum Value {
    Text(String),
    User(User),
    Users(Vec<User>),
}

impl View for Value {
    type V = ValueView;

    open spec fn view(&self) -> ValueView {
        match self {
            Value::Text(text) => ValueView::Text(text@),
            Value::User(user) => ValueView::User(user@),
            Value::Users(users) => ValueView::Users(user_views(users@)),
        }
    }
}

/// One member of a JSON object, as a mathematical value.
pub struct FieldView {
    pub name: Seq<char>,
    pub value: ValueView,
}

/// One member of a JSON object: a name and its value.
#[derive(Debug, PartialEq, Eq)]
pub struct Field {
    pub name: String,
    pub value: Value,
}

impl View for Field {
    type V = FieldView;

    open spec fn view(&self) -> FieldView {
        FieldView { name: self.name@, value: self.value@ }
    }
}

/// The members in `fields` as mathematical values, in the same order.
pub open spec fn field_views(fields: Seq<Field>) -> Seq<FieldView> {
    Seq::new(fields.len(), |i: int| fields[i]@)
}

/// A member whose value is the string `value`.
pub open spec fn text_field(name: Seq<char>, value: Seq<char>) -> FieldView {
    FieldView { name, value: ValueView::Text(value) }
}

/// A member whose value is one user.
pub open spec fn user_field(name: Seq<char>, user: UserView) -> FieldView {
    FieldView { name, value: ValueView::User(user) }
}

/// A member whose value is an array of users.
pub open spec fn users_field(name: Seq<char>, users: Seq<UserView>) -> FieldView {
    FieldView { name, value: ValueView::Users(users) }
}

impl Field {
    /// A member whose value is the string `value`.
    pub fn text(name: &str, value: String) -> (field: Field)
        ensures
            field@ == text_field(name@, value@),
    {
        Field { name: String::from_str(name), value: Value::Text(value) }
    }

    /// A member whose value is one user.
    pub fn user(name: &str, user: User) -> (field: Field)
        ensures
            field@ == user_field(name@, user@),
    {
        Field { name: String::from_str(name), value: Value::User(user) }
    }

    /// A member whose value is an array of users.
    pub fn users(name: &str, users: Vec<User>) -> (field: Field)
        ensures
            field@ == users_field(name@, user_views(users@)),
    {
        Field { name: String::from_str(name), value: Value::Users(users) }
    }
}

/// The body of a response, as a mathematical value.
pub enum BodyView {
    Empty,
    Text(Seq<char>),
    User(UserView),
    Object(Seq<FieldView>),
}

/// The body of a response: nothing, plain text, or a JSON document. A JSON
/// document is either one user written as an object of its three attributes,
/// or an object with the listed members.
#[derive(Debug, PartialEq, Eq)]
pub enum Body {
    Empty,
    Text(String),
    User(User),
    Object(Vec<Field>),
}

impl View for Body {
    type V = BodyView;

    open spec fn view(&self) -> BodyView {
        match self {
            Body::Empty => BodyView::Empty,
            Body::Text(text) => BodyView::Text(text@),
            Body::User(user) => BodyView::User(user@),
            Body::Object(fields) => BodyView::Object(field_views(fields@)),
        }
    }
}

/// A response, as a mathematical value.
pub struct ResponseView {
    pub status: int,
    pub body: BodyView,
}

/// A response: the HTTP status code and the body that goes with it.
#[derive(Debug, PartialEq, Eq)]
pub struct Response {
    pub status: u16,
    pub body: Body,
}

impl View for Response {
    type V = ResponseView;

    open spec fn view(&self) -> ResponseView {
        ResponseView { status: self.status as int, body: self.body@ }
    }
}

/// The response with status `status` and no body.
pub open spec fn empty(status: int) -> ResponseView {
    ResponseView { status, body: BodyView::Empty }
}

/// The response with status `status` and the plain text `text`.
pub open spec fn plain(status: int, text: Seq<char>) -> ResponseView {
    ResponseView { status, body: BodyView::Text(text) }
}

/// The response with status `status` whose body is the user itself.
pub open spec fn entity(status: int, user: UserView) -> ResponseView {
    ResponseView { status, body: BodyView::User(user) }
}

/// The response with status `status` whose body is the object with the members `fields`.
pub open spec fn object(status: int, fields: Seq<FieldView>) -> ResponseView {
    ResponseView { status, body: BodyView::Object(fields) }
}

impl Response {
    /// The response with status `status` and no body.
    pub fn empty(status: u16) -> (response: Response)
        ensures
            response@ == empty(status as int),
    {
        Response { status, body: Body::Empty }
    }

    /// The response with status `status` and the plain text `text`.
    pub fn plain(status: u16, text: &str) -> (response: Response)
        ensures
            response@ == plain(status as int, text@),
    {
        Response { status, body: Body::Text(String::from_str(text)) }
    }

    /// The response with status `status` whose body is `user` itself.
    pub fn entity(status: u16, user: User) -> (response: Response)
        ensures
            response@ == entity(status as int, user@),
    {
        Response { status, body: Body::User(user) }
    }

    /// The response with status `status` whose body is the object with the one member `first`.
    pub fn object1(status: u16, first: Field) -> (response: Response)
        ensures
            response@ == object(status as int, seq![first@]),
    {
        let mut fields: Vec<Field> = Vec::new();
        fields.push(first);
        assert(field_views(fields@) =~= seq![first@]);
        Response { status, body: Body::Object(fields) }
    }

    /// The response with status `status` whose body is the object with the
    /// members `first` and `second`, in that order.
    pub fn object2(status: u16, first: Field, second: Field) -> (response: Response)
        ensures
            response@ == object(status as int, seq![first@, second@]),
    {
        let mut fields: Vec<Field> = Vec::new();
        fields.push(first);
        fields.push(second);
        assert(field_views(fields@) =~= seq![first@, second@]);
        Response { status, body: Body::Object(fields) }
    }

    /// The response with status `status` whose body is the object with the
    /// members `first`, `second` and `third`, in that order.
    pub fn object3(status: u16, first: Field, second: Field, third: Field) -> (response: Response)
        ensures
            response@ == object(status as int, seq![first@, second@, third@]),
    {
        let mut fields: Vec<Field> = Vec::new();
        fields.push(first);
        fields.push(second);
        fields.push(third);
        assert(field_views(fields@) =~= seq![first@, second@, third@]);
        Response { status, body: Body::Object(fields) }
    }
}

} // verus!
