//! What the store does with a message before it runs a query: the role it
//! gives a new user, the fields it writes for a one-time-password update, and
//! the plan of a listing of notes.

use crate::messages::{CreateUser, NewUser, OTPInfoInsertable, OTPMessage, OTPMessageView};
use crate::models::{text_view, User, UserView};
use crate::text::same_text;
use vstd::prelude::*;
use vstd::string::StringExecFns;

verus! {

/// The role of a user who registers when the store holds `user_count` users:
/// the first one administers the service.
pub open spec fn role_at(user_count: i64) -> Seq<char> {
    if user_count == 0 {
        "admin"@
    } else {
        "user"@
    }
}

/// The role of a user who registers when the store holds `user_count` users.
pub fn role_for(user_count: i64) -> (role: String)
    ensures
        role@ == role_at(user_count),
{
    if user_count == 0 {
        String::from_str("admin")
    } else {
        String::from_str("user")
    }
}

/// The row that a registration turns into when the store holds `user_count`
/// users.
pub fn new_user(message: CreateUser, user_count: i64) -> (row: NewUser)
    ensures
        row.username@ == message.username@,
        row.email@ == message.email@,
        row.password@ == message.password@,
        row.role@ == role_at(user_count),
{
    NewUser {
        username: message.username,
        email: message.email,
        password: message.password,
        role: role_for(user_count),
    }
}

/// The user that the store holds after it has applied `message` to `user`:
/// the same user where the email is another, and else the user with the
/// message's flags and with each text that the message carries.
pub open spec fn applied(user: UserView, message: OTPMessageView) -> UserView {
    if user.email != message.email {
        user
    } else {
        UserView {
            otp_verified: message.otp_verified,
            otp_enabled: message.otp_enabled,
            otp_base32: if message.otp_base32 is Some {
                message.otp_base32
            } else {
                user.otp_base32
            },
            otp_auth_url: if message.otp_auth_url is Some {
                message.otp_auth_url
            } else {
                user.otp_auth_url
            },
            ..user
        }
    }
}

impl OTPMessage {
    /// The email of the row to update, and the fields to write to it.
    pub fn changes(self) -> (update: (String, OTPInfoInsertable))
        ensures
            update.0@ == self.email@,
            update.1.otp_verified == self.otp_verified,
            update.1.otp_enabled == self.otp_enabled,
            text_view(update.1.otp_base32) == text_view(self.otp_base32),
            text_view(update.1.otp_auth_url) == text_view(self.otp_auth_url),
    {
        (
            self.email,
            OTPInfoInsertable {
                otp_verified: self.otp_verified,
                otp_enabled: self.otp_enabled,
                otp_base32: self.otp_base32,
                otp_auth_url: self.otp_auth_url,
            },
        )
    }

    /// The user as the store holds it after this message.
    pub fn apply(self, user: User) -> (updated: User)
        ensures
            updated@ == applied(user@, self@),
    {
        if !(user.email == self.email) {
            return user;
        }
        let otp_base32 = match self.otp_base32 {
            Some(secret) => Some(secret),
            None => user.otp_base32,
        };
        let otp_auth_url = match self.otp_auth_url {
            Some(uri) => Some(uri),
            None => user.otp_auth_url,
        };
        User {
            id: user.id,
            username: user.username,
            email: user.email,
            password: user.password,
            role: user.role,
            otp_enabled: self.otp_enabled,
            otp_verified: self.otp_verified,
            otp_base32,
            otp_auth_url,
        }
    }
}

/// The pattern that finds `term` anywhere in a text: the term between two
/// percent signs.
pub open spec fn pattern_of(term: Seq<char>) -> Seq<char> {
    "%"@ + term + "%"@
}

/// The pattern that finds `term` anywhere in a title or a content.
pub fn search_pattern(term: &str) -> (pattern: String)
    ensures
        pattern@ == pattern_of(term@),
{
    let mut pattern = String::from_str("%");
    pattern.append(term);
    pattern.append("%");
    assert(pattern@ =~= pattern_of(term@));
    pattern
}

/// The column that a listing is ordered by.
#[derive(Debug, Clone, Copy, PartialEq, Eq, Structural)]
pub enum SortColumn {
    Title,
    Content,
}

/// The direction that a listing is ordered in.
#[derive(Debug, Clone, Copy, PartialEq, Eq, Structural)]
pub enum SortDirection {
    Ascending,
    Descending,
}

/// The characters of a text that may be absent, or of `default` in its place.
pub open spec fn text_or(text: Option<String>, default: Seq<char>) -> Seq<char> {
    match text {
        Some(text) => text@,
        None => default,
    }
}

/// How a listing is ordered: by `title` or by `content`, `asc` or `desc`,
/// where the field defaults to `title` and the order to `asc`. Any other
/// field or order leaves the listing unordered.
pub open spec fn ordering_of(sort_field: Seq<char>, sort_order: Seq<char>) -> Option<
    (SortColumn, SortDirection),
> {
    if sort_field != "title"@ && sort_field != "content"@ {
        None
    } else if sort_order != "asc"@ && sort_order != "desc"@ {
        None
    } else {
        Some(
            (
                if sort_field == "title"@ {
                    SortColumn::Title
                } else {
                    SortColumn::Content
                },
                if sort_order == "asc"@ {
                    SortDirection::Ascending
                } else {
                    SortDirection::Descending
                },
            ),
        )
    }
}

/// How a listing is ordered.
pub fn sort_plan(sort_field: &Option<String>, sort_order: &Option<String>) -> (plan: Option<
    (SortColumn, SortDirection),
>)
    ensures
        plan == ordering_of(text_or(*sort_field, "title"@), text_or(*sort_order, "asc"@)),
{
    let field: &str = match sort_field {
        Some(field) => field.as_str(),
        None => "title",
    };
    let order: &str = match sort_order {
        Some(order) => order.as_str(),
        None => "asc",
    };
    let column = if same_text(field, "title") {
        SortColumn::Title
    } else if same_text(field, "content") {
        SortColumn::Content
    } else {
        return None;
    };
    let direction = if same_text(order, "asc") {
        SortDirection::Ascending
    } else if same_text(order, "desc") {
        SortDirection::Descending
    } else {
        return None;
    };
    Some((column, direction))
}

/// The part of a listing that a page shows.
#[derive(Debug, Clone, Copy, PartialEq, Eq, Structural)]
pub struct PageWindow {
    /// How many notes a page holds.
    pub limit: i64,
    /// The number of the page, from one.
    pub page: i64,
    /// How many notes come before the page.
    pub offset: i64,
}

/// The limit of a listing, ten where none is asked for.
pub open spec fn limit_of(limit: Option<i64>) -> i64 {
    match limit {
        Some(limit) => limit,
        None => 10,
    }
}

/// The page of a listing, the first where none is asked for.
pub open spec fn page_of(page: Option<i64>) -> i64 {
    match page {
        Some(page) => page,
        None => 1,
    }
}

/// The window of a listing: the pages before the one asked for, times the
/// limit, are skipped. There is none where that product does not fit an
/// `i64`.
pub open spec fn window_of(limit: Option<i64>, page: Option<i64>) -> Option<PageWindow> {
    let offset = (page_of(page) - 1) * limit_of(limit);
    if i64::MIN <= offset <= i64::MAX {
        Some(PageWindow { limit: limit_of(limit), page: page_of(page), offset: offset as i64 })
    } else {
        None
    }
}

/// The window of a listing.
pub fn page_window(limit: Option<i64>, page: Option<i64>) -> (window: Option<PageWindow>)
    ensures
        window == window_of(limit, page),
{
    let limit: i64 = match limit {
        Some(limit) => limit,
        None => 10,
    };
    let page: i64 = match page {
        Some(page) => page,
        None => 1,
    };
    if page == i64::MIN {
        assert((page - 1) * limit < i64::MIN || (page - 1) * limit > i64::MAX || limit == 0)
            by (nonlinear_arith)
            requires
                page == i64::MIN,
                i64::MIN <= limit <= i64::MAX,
        ;
        if limit == 0 {
            assert((page - 1) * limit == 0) by (nonlinear_arith)
                requires
                    limit == 0,
            ;
            return Some(PageWindow { limit, page, offset: 0 });
        }
        return None;
    }
    let before: i64 = page - 1;
    match before.checked_mul(limit) {
        Some(offset) => Some(PageWindow { limit, page, offset }),
        None => None,
    }
}

} // verus!
