//! Authentication and authorization core of a note-taking service: password
//! hashing, session tokens, time-based one-time passwords, request gating and
//! the decisions each endpoint takes between two storage round trips.

pub mod actors;
pub mod auth_handlers;
pub mod clock;
pub mod config;
pub mod greeting_handlers;
pub mod json;
pub mod jwt;
pub mod messages;
pub mod middleware;
pub mod models;
pub mod note_handlers;
pub mod notes;
pub mod password;
pub mod response;
pub mod text;
pub mod totp;
pub mod transaction_handlers;
pub mod two_fa;
pub mod two_fa_handlers;
pub mod user_handlers;
