//! The records that the service keeps.

use vstd::prelude::*;

verus! {

/// A user account as the store holds it.
#[derive(Debug, Clone, PartialEq, Eq)]
pub struct User {
    pub id: i32,
    pub username: String,
    pub email: String,
    /// The hash of the password, never the password.
    pub password: String,
    pub role: String,
    /// Whether a one-time-password secret has been issued and not withdrawn.
    pub otp_enabled: bool,
    /// Whether the user has proved possession of the secret.
    pub otp_verified: bool,
    /// The secret, base32-encoded.
    pub otp_base32: Option<String>,
    /// The provisioning URI that carries the secret to an authenticator app.
    pub otp_auth_url: Option<String>,
}

/// The mathematical value of a [`User`].
pub struct UserView {
    pub id: i32,
    pub username: Seq<char>,
    pub email: Seq<char>,
    pub password: Seq<char>,
    pub role: Seq<char>,
    pub otp_enabled: bool,
    pub otp_verified: bool,
    pub otp_base32: Option<Seq<char>>,
    pub otp_auth_url: Option<Seq<char>>,
}

/// The characters of a text that may be absent.
pub open spec fn text_view(text: Option<String>) -> Option<Seq<char>> {
    match text {
        Some(text) => Some(text@),
        None => None,
    }
}

impl View for User {
    type V = UserView;

    open spec fn view(&self) -> UserView {
        UserView {
            id: self.id,
            username: self.username@,
            email: self.email@,
            password: self.password@,
            role: self.role@,
            otp_enabled: self.otp_enabled,
            otp_verified: self.otp_verified,
            otp_base32: text_view(self.otp_base32),
            otp_auth_url: text_view(self.otp_auth_url),
        }
    }
}

/// A note as the store holds it, without its timestamps.
#[derive(Debug, Clone, PartialEq, Eq)]
pub struct Note {
    pub id: i32,
    pub title: String,
    pub content: String,
    /// Where the attached image is kept, if there is one.
    pub image_url: Option<String>,
    /// The id of the user who wrote the note.
    pub created_by: i32,
}

/// The mathematical value of a [`Note`].
pub struct NoteView {
    pub id: i32,
    pub title: Seq<char>,
    pub content: Seq<char>,
    pub image_url: Option<Seq<char>>,
    pub created_by: i32,
}

impl View for Note {
    type V = NoteView;

    open spec fn view(&self) -> NoteView {
        NoteView {
            id: self.id,
            title: self.title@,
            content: self.content@,
            image_url: text_view(self.image_url),
            created_by: self.created_by,
        }
    }
}

/// The mathematical values of a list of notes.
pub open spec fn notes_view(notes: Seq<Note>) -> Seq<NoteView> {
    notes.map_values(|note: Note| note@)
}

/// A verified user has one-time passwords enabled and holds a secret.
pub open spec fn otp_consistent(user: UserView) -> bool {
    user.otp_verified ==> user.otp_enabled && (match user.otp_base32 {
        Some(secret) => secret.len() > 0,
        None => false,
    })
}

/// The mathematical values of a list of users.
pub open spec fn users_view(users: Seq<User>) -> Seq<UserView> {
    users.map_values(|user: User| user@)
}

impl User {
    /// The record keeps the rule that ties verification to a stored secret.
    pub open spec fn wf(&self) -> bool {
        otp_consistent(self@)
    }
}

} // verus!
