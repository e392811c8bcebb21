//! What an endpoint answers: a status, a body and, at login and logout, a
//! cookie. The bodies are kept as values; turning them into JSON text is left
//! to the caller.

use crate::models::{notes_view, text_view, users_view, Note, NoteView, User, UserView};
use vstd::prelude::*;

verus! {

/// The status of an answer.
#[derive(Debug, Clone, Copy, PartialEq, Eq, Structural)]
pub enum Status {
    /// 200 OK.
    Success,
    BadRequest,
    Unauthorized,
    Forbidden,
    NotFound,
    InternalServerError,
}

impl Status {
    /// The number that HTTP gives this status.
    pub open spec fn spec_code(self) -> u16 {
        match self {
            Status::Success => 200,
            Status::BadRequest => 400,
            Status::Unauthorized => 401,
            Status::Forbidden => 403,
            Status::NotFound => 404,
            Status::InternalServerError => 500,
        }
    }

    /// The number that HTTP gives this status.
    #[verifier::when_used_as_spec(spec_code)]
    pub fn code(self) -> (code: u16)
        ensures
            code == self.spec_code(),
    {
        match self {
            Status::Success => 200,
            Status::BadRequest => 400,
            Status::Unauthorized => 401,
            Status::Forbidden => 403,
            Status::NotFound => 404,
            Status::InternalServerError => 500,
        }
    }
}

/// A body of two texts: whether the request went through, and why not.
#[derive(Debug, Clone, PartialEq, Eq)]
pub struct GenericResponse {
    pub status: String,
    pub message: String,
}

/// The body of an answer.
#[derive(Debug, Clone, PartialEq, Eq)]
pub enum Body {
    /// Text that is no JSON.
    Text(String),
    /// `{"message": ..}`
    Message { message: String },
    /// `{"message": .., "details": ..}`
    Details { message: String, details: String },
    /// `{"status": .., "message": ..}`
    Generic(GenericResponse),
    /// The user that was registered.
    Registered(User),
    /// `{"token": .., "user": {"email": .., "username": ..}}`
    LoggedIn { token: String, email: String, username: String },
    /// `{"user": ..}`
    Profile { user: User },
    /// Every user, as a list.
    Users(Vec<User>),
    /// `{"status": "success", "otp_auth_url": .., "otp_base32": ..}`
    OtpGenerated { otp_auth_url: String, otp_base32: String },
    /// `{"otp_verified": true, "user": ..}`
    OtpVerified { user: User },
    /// `{"status": "success", "user": ..}`
    OtpValidated { user: User },
    /// `{"status": "success", "data": ..}`
    OtpDisabled { data: User },
    /// A note.
    Note(Note),
    /// Notes, as a list.
    Notes(Vec<Note>),
    /// `{"total_notes": .., "number_of_page": .., "page": .., "notes": ..}`
    NotesPage { total_notes: i64, number_of_page: i64, page: i64, notes: Vec<Note> },
    /// JSON text that another service answered with, handed on as it came.
    Upstream(String),
    /// `{"error": ..}`, with `"status"` and `"details"` where they are known.
    UpstreamError { error: String, status: Option<u16>, details: Option<String> },
}

/// The mathematical value of a [`Body`].
pub enum BodyView {
    Text(Seq<char>),
    Message { message: Seq<char> },
    Details { message: Seq<char>, details: Seq<char> },
    Generic { status: Seq<char>, message: Seq<char> },
    Registered(UserView),
    LoggedIn { token: Seq<char>, email: Seq<char>, username: Seq<char> },
    Profile { user: UserView },
    Users(Seq<UserView>),
    OtpGenerated { otp_auth_url: Seq<char>, otp_base32: Seq<char> },
    OtpVerified { user: UserView },
    OtpValidated { user: UserView },
    OtpDisabled { data: UserView },
    Note(NoteView),
    Notes(Seq<NoteView>),
    NotesPage { total_notes: i64, number_of_page: i64, page: i64, notes: Seq<NoteView> },
    Upstream(Seq<char>),
    UpstreamError { error: Seq<char>, status: Option<u16>, details: Option<Seq<char>> },
}

impl View for Body {
    type V = BodyView;

    open spec fn view(&self) -> BodyView {
        match self {
            Body::Text(text) => BodyView::Text(text@),
            Body::Message { message } => BodyView::Message { message: message@ },
            Body::Details { message, details } => BodyView::Details {
                message: message@,
                details: details@,
            },
            Body::Generic(body) => BodyView::Generic {
                status: body.status@,
                message: body.message@,
            },
            Body::Registered(user) => BodyView::Registered(user@),
            Body::LoggedIn { token, email, username } => BodyView::LoggedIn {
                token: token@,
                email: email@,
                username: username@,
            },
            Body::Profile { user } => BodyView::Profile { user: user@ },
            Body::Users(users) => BodyView::Users(users_view(users@)),
            Body::OtpGenerated { otp_auth_url, otp_base32 } => BodyView::OtpGenerated {
                otp_auth_url: otp_auth_url@,
                otp_base32: otp_base32@,
            },
            Body::OtpVerified { user } => BodyView::OtpVerified { user: user@ },
            Body::OtpValidated { user } => BodyView::OtpValidated { user: user@ },
            Body::OtpDisabled { data } => BodyView::OtpDisabled { data: data@ },
            Body::Note(note) => BodyView::Note(note@),
            Body::Notes(notes) => BodyView::Notes(notes_view(notes@)),
            Body::NotesPage { total_notes, number_of_page, page, notes } => BodyView::NotesPage {
                total_notes: *total_notes,
                number_of_page: *number_of_page,
                page: *page,
                notes: notes_view(notes@),
            },
            Body::Upstream(text) => BodyView::Upstream(text@),
            Body::UpstreamError { error, status, details } => BodyView::UpstreamError {
                error: error@,
                status: *status,
                details: text_view(*details),
            },
        }
    }
}

/// The session cookie `token`: sent for the whole site, kept from scripts,
/// and valid until `expires`, in seconds since the Unix epoch.
#[derive(Debug, Clone, PartialEq, Eq)]
pub struct SessionCookie {
    pub value: String,
    pub expires: u64,
}

/// The mathematical value of a [`SessionCookie`].
pub struct SessionCookieView {
    pub value: Seq<char>,
    pub expires: u64,
}

impl View for SessionCookie {
    type V = SessionCookieView;

    open spec fn view(&self) -> SessionCookieView {
        SessionCookieView { value: self.value@, expires: self.expires }
    }
}

/// The mathematical value of a cookie that may be absent.
pub open spec fn cookie_view(cookie: Option<SessionCookie>) -> Option<SessionCookieView> {
    match cookie {
        Some(cookie) => Some(cookie@),
        None => None,
    }
}

/// An answer to a request.
#[derive(Debug, Clone, PartialEq, Eq)]
pub struct Response {
    pub status: Status,
    pub body: Body,
    pub cookie: Option<SessionCookie>,
}

/// The mathematical value of a [`Response`].
pub struct ResponseView {
    pub status: Status,
    pub body: BodyView,
    pub cookie: Option<SessionCookieView>,
}

impl View for Response {
    type V = ResponseView;

    open spec fn view(&self) -> ResponseView {
        ResponseView { status: self.status, body: self.body@, cookie: cookie_view(self.cookie) }
    }
}

/// An answer that carries only a message.
pub open spec fn message_response(status: Status, message: Seq<char>) -> ResponseView {
    ResponseView { status, body: BodyView::Message { message }, cookie: None }
}

/// An answer that carries a message and the details behind it.
pub open spec fn details_response(status: Status, message: Seq<char>, details: Seq<char>) -> ResponseView {
    ResponseView { status, body: BodyView::Details { message, details }, cookie: None }
}

/// An answer that reports a failure in two texts.
pub open spec fn failure_response(status: Status, message: Seq<char>) -> ResponseView {
    ResponseView {
        status,
        body: BodyView::Generic { status: "fail"@, message },
        cookie: None,
    }
}

/// An answer without a cookie.
pub open spec fn plain_response(status: Status, body: BodyView) -> ResponseView {
    ResponseView { status, body, cookie: None }
}

impl Response {
    /// An answer that carries only a message.
    pub fn message(status: Status, message: &str) -> (response: Response)
        ensures
            response@ == message_response(status, message@),
    {
        Response { status, body: Body::Message { message: message.to_owned() }, cookie: None }
    }

    /// An answer that carries a message and the details behind it.
    pub fn details(status: Status, message: &str, details: String) -> (response: Response)
        ensures
            response@ == details_response(status, message@, details@),
    {
        Response {
            status,
            body: Body::Details { message: message.to_owned(), details },
            cookie: None,
        }
    }

    /// An answer that reports a failure in two texts, the first being `fail`.
    pub fn failure(status: Status, message: &str) -> (response: Response)
        ensures
            response@ == failure_response(status, message@),
    {
        Response {
            status,
            body: Body::Generic(
                GenericResponse { status: "fail".to_owned(), message: message.to_owned() },
            ),
            cookie: None,
        }
    }

    /// An answer without a cookie.
    pub fn plain(status: Status, body: Body) -> (response: Response)
        ensures
            response@ == plain_response(status, body@),
    {
        Response { status, body, cookie: None }
    }
}

} // verus!
