//! The ListenBrainz source: what its `playing-now` answer means.
use vstd::prelude::*;

use crate::engine::{AdapterError, PollOutcome};
use crate::track::{snapshot_view, TrackInfo, TrackView};

verus! {

/// The answer to `/1/user/<name>/playing-now`.
#[derive(Debug)]
pub struct Data {
    pub payload: Payload,
}

#[derive(Debug)]
pub struct Payload {
    pub listens: Vec<Listen>,
}

#[derive(Debug)]
pub struct Listen {
    pub playing_now: bool,
    pub track_metadata: TrackMetadata,
}

#[derive(Debug)]
pub struct TrackMetadata {
    pub artist_name: String,
    pub track_name: String,
}

/// The track that is playing: the first listen, when it is flagged as
/// playing now.
pub open spec fn playing(data: Data) -> Option<TrackView> {
    let listens = data.payload.listens@;
    if listens.len() > 0 && listens[0].playing_now {
        Some((listens[0].track_metadata.artist_name@, listens[0].track_metadata.track_name@))
    } else {
        None
    }
}

/// Extracts the track that is playing now, if any.
pub fn now_playing(data: Data) -> (r: Option<TrackInfo>)
    ensures
        snapshot_view(r) == playing(data),
{
    let mut listens = data.payload.listens;
    if listens.len() == 0 {
        return None;
    }
    let first = listens.remove(0);
    if first.playing_now {
        Some(
            TrackInfo {
                artist: first.track_metadata.artist_name,
                title: first.track_metadata.track_name,
            },
        )
    } else {
        None
    }
}

/// An error that the ListenBrainz API reported.
#[derive(Debug)]
pub enum APIError {
    /// The user does not exist.
    NotFound,
    /// An HTTP status that the API does not document.
    Unexpected(u16),
}

impl APIError {
    pub open spec fn message_spec(&self) -> Seq<char> {
        match self {
            APIError::NotFound => "User not found."@,
            APIError::Unexpected(_) => "Unexpected HTTP status"@,
        }
    }

    /// A message for the log.
    pub fn message(&self) -> (r: String)
        ensures
            r@ == self.message_spec(),
    {
        match self {
            APIError::NotFound => "User not found.".to_owned(),
            APIError::Unexpected(_) => "Unexpected HTTP status".to_owned(),
        }
    }
}

/// Sorts an answer by its HTTP status: 200 carries the listens, 404 says
/// that the user does not exist, any other status is unexpected.
pub fn handle_user_friendly_error(status: u16) -> (r: Result<(), APIError>)
    ensures
        status == 200 <==> r is Ok,
        status == 404 ==> (r matches Err(APIError::NotFound)),
        status != 200 && status != 404 ==> (r matches Err(APIError::Unexpected(s)) && s == status),
{
    if status == 200 {
        Ok(())
    } else if status == 404 {
        Err(APIError::NotFound)
    } else {
        Err(APIError::Unexpected(status))
    }
}

/// Why a poll of ListenBrainz failed.
#[derive(Debug)]
pub enum ServiceError {
    APIError(APIError),
    /// The request did not complete.
    Transport(String),
    /// The answer could not be read.
    Malformed(String),
}

impl ServiceError {
    /// A user that does not exist cannot start to exist between two polls.
    pub open spec fn fatal(&self) -> bool {
        (self matches ServiceError::APIError(e) && e is NotFound)
    }

    pub open spec fn message_spec(&self) -> Seq<char> {
        match self {
            ServiceError::APIError(e) => e.message_spec(),
            ServiceError::Transport(m) => m@,
            ServiceError::Malformed(m) => m@,
        }
    }

    /// The adapter error that the loop sees: fatal for an unknown user,
    /// recoverable otherwise.
    pub fn into_adapter_error(self) -> (r: AdapterError)
        ensures
            r is Fatal <==> self.fatal(),
            r.message_spec() == self.message_spec(),
    {
        match self {
            ServiceError::APIError(e) => {
                let message = e.message();
                match e {
                    APIError::NotFound => AdapterError::Fatal(message),
                    APIError::Unexpected(_) => AdapterError::Recoverable(message),
                }
            },
            ServiceError::Transport(m) => AdapterError::Recoverable(m),
            ServiceError::Malformed(m) => AdapterError::Recoverable(m),
        }
    }
}

/// Turns the result of one poll into the outcome that the loop sees.
pub fn poll_outcome(result: Result<Data, ServiceError>) -> (r: PollOutcome)
    ensures
        match result {
            Ok(data) => match playing(data) {
                Some(t) => (r matches PollOutcome::Playing(track) && track@ == t),
                None => r is Idle,
            },
            Err(e) => (r matches PollOutcome::Failure(a) && (a is Fatal <==> e.fatal())
                && a.message_spec() == e.message_spec()),
        },
{
    match result {
        Ok(data) => match now_playing(data) {
            Some(track) => PollOutcome::Playing(track),
            None => PollOutcome::Idle,
        },
        Err(e) => PollOutcome::Failure(e.into_adapter_error()),
    }
}


/// The settings of the ListenBrainz source.
#[derive(Debug)]
pub struct Options {
    /// Whether this source is the one to poll.
    pub enable: bool,
    /// The user whose listening is followed.
    pub username: String,
    /// The base URL of the API.
    pub api_url: String,
    /// Seconds between two polls.
    pub check_interval: u64,
}

/// A source is off unless enabled.
pub fn default_enable() -> (r: bool)
    ensures
        !r,
{
    false
}

/// The public ListenBrainz API.
pub fn default_listenbrainz_api_url() -> (r: String)
    ensures
        r@ == "https://api.listenbrainz.org"@,
{
    "https://api.listenbrainz.org".to_owned()
}

/// Sixteen seconds between two polls.
pub fn default_check_interval() -> (r: u64)
    ensures
        r == 16,
{
    16
}

} // verus!
