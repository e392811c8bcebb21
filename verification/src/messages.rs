//! What travels between the endpoints and the store: the bodies of requests,
//! the messages sent to the store, and the rows they turn into.

use crate::models::{text_view, User, UserView};
use crate::notes::ActiveStatus;
use crate::response::Response;
use vstd::prelude::*;

verus! {

/// The body of a registration.
#[derive(Debug, Clone, PartialEq, Eq)]
pub struct RegisterUserRequest {
    pub username: String,
    pub email: String,
    pub password: String,
}

/// The body of a login.
#[derive(Debug, Clone, PartialEq, Eq)]
pub struct LoginUserRequest {
    pub email: String,
    pub password: String,
}

/// The body of a change of password.
#[derive(Debug, Clone, PartialEq, Eq)]
pub struct UpdatePasswordRequest {
    pub old_password: String,
    pub new_password: String,
}

/// The body of the first check of a one-time password.
#[derive(Debug, Clone, PartialEq, Eq)]
pub struct VerifyOTPRequest {
    pub otp_token: String,
}

/// The body of a later check of a one-time password.
#[derive(Debug, Clone, PartialEq, Eq)]
pub struct ValidateOTPRequest {
    pub otp_token: String,
}

/// What is known of a file that came with a request: the name its sender
/// gave it, and its size in bytes.
#[derive(Debug, Clone, PartialEq, Eq)]
pub struct UploadedFile {
    pub file_name: Option<String>,
    pub size: usize,
}

/// The body of a new note.
#[derive(Debug, Clone, PartialEq, Eq)]
pub struct CreateNoteRequest {
    pub title: String,
    pub content: String,
    pub image: Option<UploadedFile>,
}

/// The body of a change to a note: what is absent stays as it is, but for
/// `active`, which then becomes true.
#[derive(Debug, Clone, PartialEq, Eq)]
pub struct UpdateNoteRequest {
    pub title: Option<String>,
    pub content: Option<String>,
    pub active: Option<bool>,
    pub image: Option<UploadedFile>,
}

/// The query of a listing of notes.
#[derive(Debug, Clone, PartialEq, Eq)]
pub struct NoteQuery {
    pub search: Option<String>,
    pub sort_field: Option<String>,
    pub sort_order: Option<String>,
    pub limit: Option<i64>,
    pub page: Option<i64>,
    pub active_status: Option<String>,
}

/// A page of notes as the store answers it.
#[derive(Debug, Clone, PartialEq, Eq)]
pub struct NotesPage {
    pub total_notes: i64,
    pub notes: Vec<crate::models::Note>,
    pub number_of_page: i64,
    pub page: i64,
}

/// Asks the store for every user.
#[derive(Debug, Clone, PartialEq, Eq)]
pub struct FetchUser;

/// Asks the store to create a user; `password` is the hash.
#[derive(Debug, Clone, PartialEq, Eq)]
pub struct CreateUser {
    pub username: String,
    pub email: String,
    pub password: String,
}

/// Asks the store for the user with this email. The store does not read
/// `password`.
#[derive(Debug, Clone, PartialEq, Eq)]
pub struct LoginAndGetUser {
    pub email: String,
    pub password: String,
}

/// Asks the store to replace a user's password hash.
#[derive(Debug, Clone, PartialEq, Eq)]
pub struct UpdateUserPassword {
    pub user_id: i32,
    pub new_password: String,
}

/// Asks the store to delete a user.
#[derive(Debug, Clone, PartialEq, Eq)]
pub struct DeleteUser {
    pub user_id: i32,
}

/// Asks the store to replace the one-time-password fields of the user with
/// this email.
#[derive(Debug, Clone, PartialEq, Eq)]
pub struct OTPMessage {
    pub email: String,
    pub otp_verified: bool,
    pub otp_enabled: bool,
    pub otp_base32: Option<String>,
    pub otp_auth_url: Option<String>,
}

/// The mathematical value of an [`OTPMessage`].
pub struct OTPMessageView {
    pub email: Seq<char>,
    pub otp_verified: bool,
    pub otp_enabled: bool,
    pub otp_base32: Option<Seq<char>>,
    pub otp_auth_url: Option<Seq<char>>,
}

impl View for OTPMessage {
    type V = OTPMessageView;

    open spec fn view(&self) -> OTPMessageView {
        OTPMessageView {
            email: self.email@,
            otp_verified: self.otp_verified,
            otp_enabled: self.otp_enabled,
            otp_base32: text_view(self.otp_base32),
            otp_auth_url: text_view(self.otp_auth_url),
        }
    }
}

/// The row of a new user.
#[derive(Debug, Clone, PartialEq, Eq)]
pub struct NewUser {
    pub username: String,
    pub email: String,
    pub password: String,
    pub role: String,
}

/// The one-time-password fields of a row, as an update writes them. A text
/// that is absent leaves the stored one as it is.
#[derive(Debug, Clone, PartialEq, Eq)]
pub struct OTPInfoInsertable {
    pub otp_verified: bool,
    pub otp_enabled: bool,
    pub otp_base32: Option<String>,
    pub otp_auth_url: Option<String>,
}

/// Asks the store for the notes of a user.
#[derive(Debug, Clone, PartialEq, Eq)]
pub struct FetchUserNotes {
    pub user_id: i32,
}

/// Asks the store for a page of notes.
#[derive(Debug, Clone, PartialEq, Eq)]
pub struct FetchNotes {
    pub search: Option<String>,
    pub sort_field: Option<String>,
    pub sort_order: Option<String>,
    pub limit: Option<i64>,
    pub page: Option<i64>,
    pub active_status: Option<ActiveStatus>,
}

/// Asks the store to keep a new note. The times are in seconds since the
/// Unix epoch.
#[derive(Debug, Clone, PartialEq, Eq)]
pub struct CreateNote {
    pub title: String,
    pub content: String,
    pub image_url: Option<String>,
    pub created_by: i32,
    pub created_on: u64,
    pub updated_on: u64,
}

/// The mathematical value of a [`CreateNote`].
pub struct CreateNoteView {
    pub title: Seq<char>,
    pub content: Seq<char>,
    pub image_url: Option<Seq<char>>,
    pub created_by: i32,
    pub created_on: u64,
    pub updated_on: u64,
}

impl View for CreateNote {
    type V = CreateNoteView;

    open spec fn view(&self) -> CreateNoteView {
        CreateNoteView {
            title: self.title@,
            content: self.content@,
            image_url: text_view(self.image_url),
            created_by: self.created_by,
            created_on: self.created_on,
            updated_on: self.updated_on,
        }
    }
}

/// Asks the store to replace a note. The time is in seconds since the Unix
/// epoch.
#[derive(Debug, Clone, PartialEq, Eq)]
pub struct UpdateNote {
    pub id: i32,
    pub title: String,
    pub image_url: Option<String>,
    pub content: String,
    pub created_by: i32,
    pub active: bool,
    pub updated_on: u64,
}

/// The mathematical value of an [`UpdateNote`].
pub struct UpdateNoteView {
    pub id: i32,
    pub title: Seq<char>,
    pub image_url: Option<Seq<char>>,
    pub content: Seq<char>,
    pub created_by: i32,
    pub active: bool,
    pub updated_on: u64,
}

impl View for UpdateNote {
    type V = UpdateNoteView;

    open spec fn view(&self) -> UpdateNoteView {
        UpdateNoteView {
            id: self.id,
            title: self.title@,
            image_url: text_view(self.image_url),
            content: self.content@,
            created_by: self.created_by,
            active: self.active,
            updated_on: self.updated_on,
        }
    }
}

/// Asks the store to delete a note.
#[derive(Debug, Clone, PartialEq, Eq)]
pub struct DeleteNote {
    pub note_id: i32,
}

/// What the store answered.
#[derive(Debug, Clone, PartialEq, Eq)]
pub enum Reply<T> {
    /// The query ran, with this result.
    Done(T),
    /// The query ran and failed.
    Failed,
    /// The store could not be reached.
    Unreachable,
}

/// What an endpoint does next.
#[derive(Debug, Clone, PartialEq, Eq)]
pub enum Step<M> {
    /// Sends the message to the store and waits for its reply.
    Send(M),
    /// Answers the request.
    Respond(Response),
}

/// The mathematical value of a reply that carries a user.
pub open spec fn user_reply_view(reply: Reply<User>) -> Reply<UserView> {
    match reply {
        Reply::Done(user) => Reply::Done(user@),
        Reply::Failed => Reply::Failed,
        Reply::Unreachable => Reply::Unreachable,
    }
}

} // verus!
