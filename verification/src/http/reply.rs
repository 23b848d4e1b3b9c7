//! A reply as the routes make it out: a status, the cookies to set, and a
//! body.

use vstd::prelude::*;

verus! {

/// 200 OK.
pub const OK: u16 = 200;

/// 201 Created.
pub const CREATED: u16 = 201;

/// 400 Bad Request.
pub const BAD_REQUEST: u16 = 400;

/// 401 Unauthorized.
pub const UNAUTHORIZED: u16 = 401;

/// 404 Not Found.
pub const NOT_FOUND: u16 = 404;

/// 500 Internal Server Error.
pub const INTERNAL_SERVER_ERROR: u16 = 500;

/// The body of a reply.
#[derive(Debug)]
pub enum Body<T> {
    /// Plain text.
    Text(String),
    /// The JSON object with the one member `message`.
    Message(String),
    /// The JSON object with the one member `error`.
    Error(String),
    /// The JSON object with the one member `data`.
    Data(T),
}

/// Mathematical value of a [`Body`].
pub enum BodyView<T> {
    Text(Seq<char>),
    Message(Seq<char>),
    Error(Seq<char>),
    Data(T),
}

impl<T> View for Body<T> {
    type V = BodyView<T>;

    open spec fn view(&self) -> BodyView<T> {
        match *self {
            Body::Text(text) => BodyView::Text(text@),
            Body::Message(text) => BodyView::Message(text@),
            Body::Error(text) => BodyView::Error(text@),
            Body::Data(data) => BodyView::Data(data),
        }
    }
}

/// A reply: the status code, the values of the `Set-Cookie` headers in
/// order, and the body.
#[derive(Debug)]
pub struct Reply<T> {
    pub status: u16,
    pub cookies: Vec<String>,
    pub body: Body<T>,
}

/// Mathematical value of a [`Reply`].
pub struct ReplyView<T> {
    pub status: u16,
    pub cookies: Seq<Seq<char>>,
    pub body: BodyView<T>,
}

impl<T> View for Reply<T> {
    type V = ReplyView<T>;

    open spec fn view(&self) -> ReplyView<T> {
        ReplyView {
            status: self.status,
            cookies: self.cookies@.map_values(|cookie: String| cookie@),
            body: self.body@,
        }
    }
}

impl<T> Reply<T> {
    /// A reply without cookies.
    pub fn plain(status: u16, body: Body<T>) -> (reply: Self)
        ensures
            reply@ == (ReplyView { status, cookies: Seq::<Seq<char>>::empty(), body: body@ }),
    {
        let reply = Reply { status, cookies: Vec::new(), body };
        assert(reply@.cookies =~= Seq::<Seq<char>>::empty());
        reply
    }
}

/// A reply without cookies that says `text` under `message`.
pub open spec fn message_reply<T>(status: u16, text: Seq<char>) -> ReplyView<T> {
    ReplyView { status, cookies: Seq::empty(), body: BodyView::Message(text) }
}

/// A reply without cookies that says `text` under `error`.
pub open spec fn error_reply<T>(status: u16, text: Seq<char>) -> ReplyView<T> {
    ReplyView { status, cookies: Seq::empty(), body: BodyView::Error(text) }
}

/// A reply without cookies that holds `data`.
pub open spec fn data_reply<T>(status: u16, data: T) -> ReplyView<T> {
    ReplyView { status, cookies: Seq::empty(), body: BodyView::Data(data) }
}

/// A reply without cookies that is the plain text `text`.
pub open spec fn text_reply<T>(status: u16, text: Seq<char>) -> ReplyView<T> {
    ReplyView { status, cookies: Seq::empty(), body: BodyView::Text(text) }
}

} // verus!
