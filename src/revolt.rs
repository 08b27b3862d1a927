//! The Revolt side: the shapes of its API and what its answers mean.
use vstd::prelude::*;

use crate::supervisor::SyncError;
use crate::track::text_view;

verus! {

/// How requests to Revolt authenticate.
#[derive(Debug)]
pub enum Authentication {
    SessionToken(String),
}

impl Authentication {
    /// The name of the header that carries the credential.
    pub fn header(&self) -> (r: &str)
        ensures
            r@ == "X-Session-Token"@,
    {
        match self {
            Authentication::SessionToken(_) => "X-Session-Token",
        }
    }

    /// The value of that header.
    pub fn value(&self) -> (r: String)
        ensures
            match self {
                Authentication::SessionToken(token) => r@ == token@,
            },
    {
        match self {
            Authentication::SessionToken(token) => token.clone(),
        }
    }
}

/// The answer to a login request.
#[derive(Debug)]
pub enum ResponseBody {
    Success { token: String, name: String },
    MFA { ticket: String, allowed_methods: Vec<Method> },
    Disabled,
}

/// A login request: with credentials, or with the answer to a second factor.
#[derive(Debug)]
pub enum RequestBody {
    Login { email: String, password: String, friendly_name: Option<String> },
    MFA { mfa_ticket: String, mfa_response: Option<Response>, friendly_name: Option<String> },
}

/// The answer to a second-factor challenge.
#[derive(Debug)]
pub enum Response {
    Password { password: String },
    RecoveryCode { recovery_code: String },
    TotpCode { totp_code: String },
}

/// A kind of second factor that an account allows.
#[derive(Debug, Clone, Copy, PartialEq, Eq, Structural)]
pub enum Method {
    Password,
    Recovery,
    Totp,
}

/// The body of a profile edit: fields to set, and fields to remove.
#[derive(Debug)]
pub struct DataEditUser {
    pub status: Option<UserStatus>,
    pub remove: Option<Vec<FieldsUser>>,
}

/// The part of a profile that is read here.
#[derive(Debug)]
pub struct User {
    pub status: Option<UserStatus>,
}

/// A profile field that an edit can remove.
#[derive(Debug, Clone, Copy, PartialEq, Eq, Structural)]
pub enum FieldsUser {
    StatusText,
}

#[derive(Debug)]
pub struct UserStatus {
    pub text: Option<String>,
    pub presence: Option<Presence>,
}

#[derive(Debug, Clone, Copy, PartialEq, Eq, Structural)]
pub enum Presence {
    Online,
    Idle,
    Focus,
    Busy,
    Invisible,
}

/// An error that the authentication service reports on a refused login.
#[derive(Debug, Clone, Copy, PartialEq, Eq, Structural)]
pub enum AuthifierError {
    UnverifiedAccount,
    InvalidToken,
    InvalidCredentials,
    CompromisedPassword,
    ShortPassword,
    Blacklisted,
    LockedOut,
}

/// The status text of a profile, if it has one.
pub fn status_text_of(user: User) -> (r: Option<String>)
    ensures
        text_view(r) == match user.status {
            Some(status) => text_view(status.text),
            None => None,
        },
{
    match user.status {
        Some(status) => status.text,
        None => None,
    }
}

/// The edit that sets the status text to `text`, or removes it for `None`.
/// Nothing else of the profile is touched.
pub fn edit_for_status(text: Option<String>) -> (r: DataEditUser)
    ensures
        match text {
            Some(t) => r.remove is None && (r.status matches Some(s) && s.presence is None
                && text_view(s.text) == Some(t@)),
            None => r.status is None && (r.remove matches Some(fields) && fields@ == seq![
                FieldsUser::StatusText,
            ]),
        },
{
    match text {
        Some(t) => DataEditUser {
            status: Some(UserStatus { text: Some(t), presence: None }),
            remove: None,
        },
        None => DataEditUser { status: None, remove: Some(vec![FieldsUser::StatusText]) },
    }
}

/// An error that the Revolt API reported.
#[derive(Debug)]
pub enum APIError {
    AuthenticationFailed,
    /// Rate limited: retry after this many milliseconds.
    RateLimitExceeded(u64),
    /// An HTTP status that is not handled.
    Unknown(u16),
}

pub open spec fn is_digit(c: char) -> bool {
    '0' <= c && c <= '9'
}

/// The number that a string of decimal digits spells.
pub open spec fn digits_value(s: Seq<char>) -> nat
    decreases s.len(),
{
    if s.len() == 0 {
        0
    } else {
        digits_value(s.drop_last()) * 10 + ((s.last() as int) - ('0' as int)) as nat
    }
}

/// An unsigned integer in decimal: an optional `+`, then one digit or more,
/// with a value that fits in 64 bits.
pub open spec fn parsed_u64(s: Seq<char>) -> Option<u64> {
    let d = if s.len() > 0 && s[0] == '+' {
        s.drop_first()
    } else {
        s
    };
    if d.len() > 0 && (forall|i: int| 0 <= i < d.len() ==> is_digit(#[trigger] d[i]))
        && digits_value(d) <= u64::MAX {
        Some(digits_value(d) as u64)
    } else {
        None
    }
}

/// Relies on `<u64 as FromStr>::from_str`, which accepts an optional `+`
/// followed by decimal digits, and fails on anything else or on overflow.
#[verifier::external_body]
fn parse_u64(s: &str) -> (r: Option<u64>)
    ensures
        r == parsed_u64(s@),
{
    s.parse::<u64>().ok()
}

/// Reads an answer's status: 200 succeeds, 401 means the session was
/// refused, 429 a rate limit whose wait the `X-Ratelimit-Reset-After` header
/// gives (0 where that header is missing or is no number).
pub fn handle_return_error(status: u16, reset_after: Option<&str>) -> (r: Result<(), APIError>)
    ensures
        status == 200 <==> r is Ok,
        status == 401 ==> (r matches Err(APIError::AuthenticationFailed)),
        status == 429 ==> (r matches Err(APIError::RateLimitExceeded(wait)) && wait == match reset_after {
            Some(h) => match parsed_u64(h@) {
                Some(n) => n,
                None => 0,
            },
            None => 0,
        }),
        status != 200 && status != 401 && status != 429 ==> (r matches Err(APIError::Unknown(s))
            && s == status),
{
    if status == 200 {
        Ok(())
    } else if status == 401 {
        Err(APIError::AuthenticationFailed)
    } else if status == 429 {
        let wait = match reset_after {
            Some(h) => match parse_u64(h) {
                Some(n) => n,
                None => 0,
            },
            None => 0,
        };
        Err(APIError::RateLimitExceeded(wait))
    } else {
        Err(APIError::Unknown(status))
    }
}

impl APIError {
    /// The failure of a status write, as the loop sees it.
    pub fn into_sync_error(self) -> (r: SyncError)
        ensures
            match self {
                APIError::AuthenticationFailed => r is Unauthorized,
                APIError::RateLimitExceeded(wait) => r == SyncError::RateLimited(wait),
                APIError::Unknown(status) => r == SyncError::Unexpected(status),
            },
    {
        match self {
            APIError::AuthenticationFailed => SyncError::Unauthorized,
            APIError::RateLimitExceeded(wait) => SyncError::RateLimited(wait),
            APIError::Unknown(status) => SyncError::Unexpected(status),
        }
    }
}


/// The settings of the Revolt side.
#[derive(Debug)]
pub struct Options {
    pub status: StatusOptions,
    /// The base URL of the API.
    pub api_url: String,
    /// The session credential.
    pub session_token: String,
}

/// How the status text is made.
#[derive(Debug)]
pub struct StatusOptions {
    /// The text while a track plays; `%ARTIST%` and `%NAME%` stand for the
    /// track's artist and title.
    pub template: String,
    /// The text while nothing plays.
    pub idle: Option<String>,
}

/// The status settings where none are given: the default template, and no
/// idle text of its own.
pub fn default_revolt_status() -> (r: StatusOptions)
    ensures
        r.template@ == default_template(),
        r.idle is None,
{
    StatusOptions { template: default_revolt_status_template(), idle: None }
}

pub open spec fn default_template() -> Seq<char> {
    "\u{1f3b5} Listening to %NAME% by %ARTIST%"@
}

pub fn default_revolt_status_template() -> (r: String)
    ensures
        r@ == default_template(),
{
    "\u{1f3b5} Listening to %NAME% by %ARTIST%".to_owned()
}

/// The public Revolt API.
pub fn default_revolt_api_url() -> (r: String)
    ensures
        r@ == "https://api.revolt.chat"@,
{
    "https://api.revolt.chat".to_owned()
}

} // verus!
