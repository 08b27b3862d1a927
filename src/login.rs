//! The decisions of the interactive login that yields a Revolt session
//! token: which inputs are accepted, and what each answer means.
use vstd::prelude::*;

use crate::revolt::{AuthifierError, Method, Response};

verus! {

#[verifier::external_type_specification]
#[verifier::external_body]
pub struct ExRegex(regex::Regex);

/// Relies on `regex::Regex::new`: compiles a pattern, or fails on an
/// invalid one.
#[verifier::external_body]
fn compile(pattern: &str) -> (r: Option<regex::Regex>) {
    regex::Regex::new(pattern).ok()
}

/// Relies on `regex::Regex::is_match`: whether the regex matches somewhere
/// in `text`.
#[verifier::external_body]
fn is_match(re: &regex::Regex, text: &str) -> (r: bool) {
    re.is_match(text)
}

/// The commands that help to write the settings.
#[derive(Debug)]
pub enum Subcommands {
    /// Print an example settings file.
    Generate,
    /// Revolt commands.
    Revolt(RevoltSubcommands),
}

#[derive(Debug)]
pub enum RevoltSubcommands {
    /// Log in to obtain a session token, against this API.
    GetSessionToken { api_url: String },
}

/// The checks of what the user types in.
pub struct Validators {
    email: regex::Regex,
    recovery: regex::Regex,
    totp: regex::Regex,
}

impl Validators {
    /// Compiles the patterns; `None` only where one of them is refused.
    pub fn new() -> (r: Option<Validators>) {
        let email = match compile(r"^[a-zA-Z0-9._%+-]+@[a-zA-Z0-9.-]+\.[a-zA-Z]{2,}$") {
            Some(re) => re,
            None => return None,
        };
        let recovery = match compile("^([a-z0-9]{5}-[a-z0-9]{5})$") {
            Some(re) => re,
            None => return None,
        };
        let totp = match compile("^[0-9]{6}$") {
            Some(re) => re,
            None => return None,
        };
        Some(Validators { email, recovery, totp })
    }

    /// Whether `text` reads as an e-mail address.
    pub fn is_email(&self, text: &str) -> bool {
        is_match(&self.email, text)
    }

    /// Whether `text` reads as a recovery code: two groups of five.
    pub fn is_recovery_code(&self, text: &str) -> bool {
        is_match(&self.recovery, text)
    }

    /// Whether `text` reads as a one-time code: six digits.
    pub fn is_totp_code(&self, text: &str) -> bool {
        is_match(&self.totp, text)
    }

    /// Whether the second-factor prompt accepts `code`.
    pub fn accepts_mfa_code(&self, code: &str, allows_recovery: bool) -> bool {
        let totp = self.is_totp_code(code);
        let recovery = self.is_recovery_code(code);
        mfa_code_acceptable(totp, recovery, allows_recovery)
    }

    /// The answer to the challenge for an accepted `code`.
    pub fn mfa_answer(&self, code: String) -> (r: Response)
        ensures
            r matches Response::TotpCode { totp_code } ==> totp_code@ == code@,
            r matches Response::RecoveryCode { recovery_code } ==> recovery_code@ == code@,
            !(r is Password),
    {
        let totp = self.is_totp_code(code.as_str());
        mfa_response(code, totp)
    }
}

/// A one-time code is always accepted; a recovery code only where the
/// account allows more than one kind of second factor.
pub fn mfa_code_acceptable(is_totp: bool, is_recovery: bool, allows_recovery: bool) -> (r: bool)
    ensures
        r == (is_totp || (allows_recovery && is_recovery)),
{
    is_totp || (allows_recovery && is_recovery)
}

/// Whether the prompt also offers recovery codes: where the account allows
/// more than one kind of second factor.
pub fn offers_recovery(allowed_methods: &Vec<Method>) -> (r: bool)
    ensures
        r == (allowed_methods@.len() > 1),
{
    allowed_methods.len() > 1
}

/// A password is accepted when it is not empty.
pub fn password_accepted(password: &str) -> (r: bool)
    ensures
        r == (password@.len() > 0),
{
    !password.is_empty()
}

/// The answer to the challenge: a one-time code where `code` reads as one,
/// a recovery code otherwise.
pub fn mfa_response(code: String, is_totp: bool) -> (r: Response)
    ensures
        is_totp ==> (r matches Response::TotpCode { totp_code } && totp_code@ == code@),
        !is_totp ==> (r matches Response::RecoveryCode { recovery_code } && recovery_code@
            == code@),
{
    if is_totp {
        Response::TotpCode { totp_code: code }
    } else {
        Response::RecoveryCode { recovery_code: code }
    }
}

/// How to go on with the answer to a login request, given its HTTP status.
#[derive(Debug, PartialEq, Eq, Structural)]
pub enum LoginReply {
    /// The body holds the result of the login.
    Accepted,
    /// The body holds an `AuthifierError`.
    Refused,
    /// A status that is not handled.
    UnexpectedAuthStatusCode(u16),
}

/// 200 and 204 carry a result, 400, 401 and 403 a refusal.
pub fn handle_user_friendly_error(status: u16) -> (r: LoginReply)
    ensures
        (status == 200 || status == 204) <==> r == LoginReply::Accepted,
        (status == 400 || status == 401 || status == 403) <==> r == LoginReply::Refused,
        r is UnexpectedAuthStatusCode ==> r == LoginReply::UnexpectedAuthStatusCode(status),
{
    if status == 200 || status == 204 {
        LoginReply::Accepted
    } else if status == 400 || status == 401 || status == 403 {
        LoginReply::Refused
    } else {
        LoginReply::UnexpectedAuthStatusCode(status)
    }
}

/// Why a login was refused, as the user is told.
#[derive(Debug, Clone, Copy, PartialEq, Eq, Structural)]
pub enum ExpectedAuthError {
    UnverifiedAccount,
    InvalidToken,
    InvalidCredentials,
    CompromisedPassword,
    ShortPassword,
    Blacklisted,
    LockedOut,
}

pub open spec fn expected_of(e: AuthifierError) -> ExpectedAuthError {
    match e {
        AuthifierError::UnverifiedAccount => ExpectedAuthError::UnverifiedAccount,
        AuthifierError::InvalidToken => ExpectedAuthError::InvalidToken,
        AuthifierError::InvalidCredentials => ExpectedAuthError::InvalidCredentials,
        AuthifierError::CompromisedPassword => ExpectedAuthError::CompromisedPassword,
        AuthifierError::ShortPassword => ExpectedAuthError::ShortPassword,
        AuthifierError::Blacklisted => ExpectedAuthError::Blacklisted,
        AuthifierError::LockedOut => ExpectedAuthError::LockedOut,
    }
}

impl From<AuthifierError> for ExpectedAuthError {
    fn from(value: AuthifierError) -> (r: ExpectedAuthError) {
        match value {
            AuthifierError::UnverifiedAccount => ExpectedAuthError::UnverifiedAccount,
            AuthifierError::InvalidToken => ExpectedAuthError::InvalidToken,
            AuthifierError::InvalidCredentials => ExpectedAuthError::InvalidCredentials,
            AuthifierError::CompromisedPassword => ExpectedAuthError::CompromisedPassword,
            AuthifierError::ShortPassword => ExpectedAuthError::ShortPassword,
            AuthifierError::Blacklisted => ExpectedAuthError::Blacklisted,
            AuthifierError::LockedOut => ExpectedAuthError::LockedOut,
        }
    }
}

impl vstd::std_specs::convert::FromSpecImpl<AuthifierError> for ExpectedAuthError {
    open spec fn obeys_from_spec() -> bool {
        true
    }

    open spec fn from_spec(v: AuthifierError) -> ExpectedAuthError {
        expected_of(v)
    }
}

impl ExpectedAuthError {
    pub open spec fn message_spec(&self) -> Seq<char> {
        match self {
            ExpectedAuthError::UnverifiedAccount => "The account you are trying to log in to is unverified."@,
            ExpectedAuthError::InvalidToken => "Incorrect 2FA code provided."@,
            ExpectedAuthError::InvalidCredentials => "Invalid login credentials provided."@,
            ExpectedAuthError::CompromisedPassword => "The entered password is compromised. Please ensure you have entered the correct password."@,
            ExpectedAuthError::ShortPassword => "The entered password is too short. Please ensure you have entered the correct password."@,
            ExpectedAuthError::Blacklisted => "The entered email is blacklisted. Please ensure you have entered the correct email."@,
            ExpectedAuthError::LockedOut => "This account is locked out. Please try again some time later."@,
        }
    }

    /// The message for the user.
    pub fn message(&self) -> (r: String)
        ensures
            r@ == self.message_spec(),
    {
        match self {
            ExpectedAuthError::UnverifiedAccount => "The account you are trying to log in to is unverified.".to_owned(),
            ExpectedAuthError::InvalidToken => "Incorrect 2FA code provided.".to_owned(),
            ExpectedAuthError::InvalidCredentials => "Invalid login credentials provided.".to_owned(),
            ExpectedAuthError::CompromisedPassword => "The entered password is compromised. Please ensure you have entered the correct password.".to_owned(),
            ExpectedAuthError::ShortPassword => "The entered password is too short. Please ensure you have entered the correct password.".to_owned(),
            ExpectedAuthError::Blacklisted => "The entered email is blacklisted. Please ensure you have entered the correct email.".to_owned(),
            ExpectedAuthError::LockedOut => "This account is locked out. Please try again some time later.".to_owned(),
        }
    }
}

} // verus!
