//! The Last.fm source: what its `user.getRecentTracks` answer means.
use vstd::prelude::*;
use vstd::string::StringExecFns;

use crate::engine::{AdapterError, PollOutcome};
use crate::track::{snapshot_view, TrackInfo, TrackView};

verus! {

/// The answer to `user.getRecentTracks`.
#[derive(Debug)]
pub struct Data {
    pub recenttracks: RecentTracks,
}

/// The error body that comes with a refused request.
#[derive(Debug)]
pub struct Error {
    pub message: String,
    pub error: u64,
}

#[derive(Debug)]
pub struct RecentTracks {
    pub track: Vec<Track>,
}

#[derive(Debug)]
pub struct Track {
    pub artist: Artist,
    pub name: String,
    pub attr: Option<TrackAttr>,
}

#[derive(Debug)]
pub struct Artist {
    pub text: String,
}

#[derive(Debug)]
pub struct TrackAttr {
    pub nowplaying: Option<bool>,
}

/// The now-playing flag, which the API sends as a string.
pub open spec fn flag_of(s: Seq<char>) -> Option<bool> {
    if s == "true"@ {
        Some(true)
    } else if s == "false"@ {
        Some(false)
    } else {
        None
    }
}

/// Reads the now-playing flag: `"true"`, `"false"`, or nothing known.
pub fn bool_from_string(s: &str) -> (r: Option<bool>)
    ensures
        r == flag_of(s@),
{
    let s = s.to_owned();
    if s == "true".to_owned() {
        Some(true)
    } else if s == "false".to_owned() {
        Some(false)
    } else {
        None
    }
}

/// The track that is playing: the most recent item, when the API flags it
/// as playing now. A finished play is no track playing.
pub open spec fn playing(data: Data) -> Option<TrackView> {
    let tracks = data.recenttracks.track@;
    if tracks.len() > 0 && tracks[0].attr is Some && tracks[0].attr->0.nowplaying == Some(true) {
        Some((tracks[0].artist.text@, tracks[0].name@))
    } else {
        None
    }
}

/// Extracts the track that is playing now, if any.
pub fn now_playing(data: Data) -> (r: Option<TrackInfo>)
    ensures
        snapshot_view(r) == playing(data),
{
    let mut tracks = data.recenttracks.track;
    if tracks.len() == 0 {
        return None;
    }
    let first = tracks.remove(0);
    let flagged = match &first.attr {
        Some(attr) => match attr.nowplaying {
            Some(np) => np,
            None => false,
        },
        None => false,
    };
    if flagged {
        Some(TrackInfo { artist: first.artist.text, title: first.name })
    } else {
        None
    }
}

/// An error that the Last.fm API reported.
#[derive(Debug)]
pub enum APIError {
    AuthenticationFailed,
    OperationFailed,
    InvalidAPIKey,
    ServiceOffline,
    TemporaryError,
    SuspendedAPIKey,
    RateLimitExceeded,
    /// An error code without a meaning of its own, with the API's message.
    Unexpected(String),
    /// An HTTP status that the API does not document.
    UnexpectedStatus(u16),
}

/// An error code that the API documents with a meaning of its own.
pub open spec fn known_code(code: u64) -> bool {
    code == 4 || code == 8 || code == 10 || code == 11 || code == 16 || code == 26 || code == 29
}

impl APIError {
    /// Reads the error body of a refused request.
    pub fn from_body(body: Error) -> (r: APIError)
        ensures
            body.error == 4 ==> r is AuthenticationFailed,
            body.error == 8 ==> r is OperationFailed,
            body.error == 10 ==> r is InvalidAPIKey,
            body.error == 11 ==> r is ServiceOffline,
            body.error == 16 ==> r is TemporaryError,
            body.error == 26 ==> r is SuspendedAPIKey,
            body.error == 29 ==> r is RateLimitExceeded,
            !known_code(body.error) ==> (r is Unexpected && r->Unexpected_0@ == body.message@),
    {
        match body.error {
            4 => APIError::AuthenticationFailed,
            8 => APIError::OperationFailed,
            10 => APIError::InvalidAPIKey,
            11 => APIError::ServiceOffline,
            16 => APIError::TemporaryError,
            26 => APIError::SuspendedAPIKey,
            29 => APIError::RateLimitExceeded,
            _ => APIError::Unexpected(body.message),
        }
    }

    /// Errors that no later request can mend: the credentials are wrong.
    pub open spec fn fatal(&self) -> bool {
        self is AuthenticationFailed || self is InvalidAPIKey || self is SuspendedAPIKey
    }

    pub fn is_fatal(&self) -> (r: bool)
        ensures
            r == self.fatal(),
    {
        match self {
            APIError::AuthenticationFailed | APIError::InvalidAPIKey | APIError::SuspendedAPIKey => true,
            _ => false,
        }
    }

    pub open spec fn message_spec(&self) -> Seq<char> {
        match self {
            APIError::AuthenticationFailed => "Authentication failed"@,
            APIError::OperationFailed => "Something went wrong with Last.fm API"@,
            APIError::InvalidAPIKey => "Provided API key is invalid"@,
            APIError::ServiceOffline => "API is temporarily offline"@,
            APIError::TemporaryError => "A temporary error occurred"@,
            APIError::SuspendedAPIKey => "API key has been suspended"@,
            APIError::RateLimitExceeded => "Rate limit exceeded"@,
            APIError::Unexpected(m) => "Unexpected API error: "@ + m@,
            APIError::UnexpectedStatus(_) => "Unexpected status code"@,
        }
    }

    /// A message for the log.
    pub fn message(&self) -> (r: String)
        ensures
            r@ == self.message_spec(),
    {
        match self {
            APIError::AuthenticationFailed => "Authentication failed".to_owned(),
            APIError::OperationFailed => "Something went wrong with Last.fm API".to_owned(),
            APIError::InvalidAPIKey => "Provided API key is invalid".to_owned(),
            APIError::ServiceOffline => "API is temporarily offline".to_owned(),
            APIError::TemporaryError => "A temporary error occurred".to_owned(),
            APIError::SuspendedAPIKey => "API key has been suspended".to_owned(),
            APIError::RateLimitExceeded => "Rate limit exceeded".to_owned(),
            APIError::Unexpected(m) => "Unexpected API error: ".to_owned().concat(m.as_str()),
            APIError::UnexpectedStatus(_) => "Unexpected status code".to_owned(),
        }
    }
}

/// How to go on with an answer, given its HTTP status.
#[derive(Debug, PartialEq, Eq, Structural)]
pub enum Reply {
    /// The body holds the recent tracks.
    Tracks,
    /// The body holds an error; read it with `APIError::from_body`.
    ErrorBody,
}

/// Sorts an answer by its HTTP status: 200 carries the tracks, 403 an error
/// body, and any other status is an error of its own.
pub fn handle_user_friendly_error(status: u16) -> (r: Result<Reply, APIError>)
    ensures
        status == 200 ==> r == Ok::<Reply, APIError>(Reply::Tracks),
        status == 403 ==> r == Ok::<Reply, APIError>(Reply::ErrorBody),
        status != 200 && status != 403 ==> (r matches Err(APIError::UnexpectedStatus(s)) && s == status),
{
    if status == 200 {
        Ok(Reply::Tracks)
    } else if status == 403 {
        Ok(Reply::ErrorBody)
    } else {
        Err(APIError::UnexpectedStatus(status))
    }
}

/// Why a poll of Last.fm failed.
#[derive(Debug)]
pub enum ServiceError {
    APIError(APIError),
    /// The request did not complete.
    Transport(String),
    /// The answer could not be read.
    Malformed(String),
}

impl ServiceError {
    pub open spec fn fatal(&self) -> bool {
        (self matches ServiceError::APIError(e) && e.fatal())
    }

    pub open spec fn message_spec(&self) -> Seq<char> {
        match self {
            ServiceError::APIError(e) => e.message_spec(),
            ServiceError::Transport(m) => m@,
            ServiceError::Malformed(m) => m@,
        }
    }

    /// The adapter error that the loop sees: fatal for rejected credentials,
    /// recoverable otherwise.
    pub fn into_adapter_error(self) -> (r: AdapterError)
        ensures
            r is Fatal <==> self.fatal(),
            r.message_spec() == self.message_spec(),
    {
        match self {
            ServiceError::APIError(e) => {
                let message = e.message();
                if e.is_fatal() {
                    AdapterError::Fatal(message)
                } else {
                    AdapterError::Recoverable(message)
                }
            },
            ServiceError::Transport(m) => AdapterError::Recoverable(m),
            ServiceError::Malformed(m) => AdapterError::Recoverable(m),
        }
    }
}

/// Turns the result of one poll into the outcome that the loop sees.
pub fn poll_outcome(result: Result<Data, ServiceError>) -> (r: PollOutcome)
    ensures
        match result {
            Ok(data) => match playing(data) {
                Some(t) => (r matches PollOutcome::Playing(track) && track@ == t),
                None => r is Idle,
            },
            Err(e) => (r matches PollOutcome::Failure(a) && (a is Fatal <==> e.fatal())
                && a.message_spec() == e.message_spec()),
        },
{
    match result {
        Ok(data) => match now_playing(data) {
            Some(track) => PollOutcome::Playing(track),
            None => PollOutcome::Idle,
        },
        Err(e) => PollOutcome::Failure(e.into_adapter_error()),
    }
}


/// The settings of the Last.fm source.
#[derive(Debug)]
pub struct Options {
    /// Whether this source is the one to poll.
    pub enable: bool,
    /// The user whose listening is followed.
    pub username: String,
    /// The API key for the requests.
    pub api_key: String,
    /// Seconds between two polls.
    pub check_interval: u64,
}

/// A source is off unless enabled.
pub fn default_enable() -> (r: bool)
    ensures
        !r,
{
    false
}

/// Sixteen seconds between two polls.
pub fn default_check_interval() -> (r: u64)
    ensures
        r == 16,
{
    16
}

} // verus!
