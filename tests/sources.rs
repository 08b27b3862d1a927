use lure::engine::{AdapterError, PollOutcome};
use lure::lastfm;
use lure::listenbrainz;

fn lastfm_track(artist: &str, name: &str, nowplaying: Option<Option<bool>>) -> lastfm::Track {
    lastfm::Track {
        artist: lastfm::Artist { text: artist.to_string() },
        name: name.to_string(),
        attr: nowplaying.map(|np| lastfm::TrackAttr { nowplaying: np }),
    }
}

fn lastfm_data(tracks: Vec<lastfm::Track>) -> lastfm::Data {
    lastfm::Data { recenttracks: lastfm::RecentTracks { track: tracks } }
}

#[test]
fn lastfm_flag_strings() {
    assert_eq!(lastfm::bool_from_string("true"), Some(true));
    assert_eq!(lastfm::bool_from_string("false"), Some(false));
    assert_eq!(lastfm::bool_from_string("True"), None);
    assert_eq!(lastfm::bool_from_string(""), None);
}

#[test]
fn lastfm_first_track_playing() {
    let data = lastfm_data(vec![
        lastfm_track("Muse", "Supremacy", Some(Some(true))),
        lastfm_track("Muse", "Uprising", None),
    ]);
    let t = lastfm::now_playing(data).unwrap();
    assert_eq!(t.artist, "Muse");
    assert_eq!(t.title, "Supremacy");
}

#[test]
fn lastfm_finished_play_is_not_playing() {
    assert!(lastfm::now_playing(lastfm_data(vec![lastfm_track("Muse", "Supremacy", None)])).is_none());
    assert!(lastfm::now_playing(lastfm_data(vec![lastfm_track("Muse", "Supremacy", Some(None))])).is_none());
    assert!(lastfm::now_playing(lastfm_data(vec![lastfm_track("Muse", "Supremacy", Some(Some(false)))])).is_none());
    assert!(lastfm::now_playing(lastfm_data(vec![])).is_none());
}

#[test]
fn lastfm_only_first_track_counts() {
    let data = lastfm_data(vec![
        lastfm_track("Muse", "Supremacy", None),
        lastfm_track("Muse", "Uprising", Some(Some(true))),
    ]);
    assert!(lastfm::now_playing(data).is_none());
}

#[test]
fn lastfm_error_codes() {
    let code = |error: u64| lastfm::APIError::from_body(lastfm::Error { message: "m".to_string(), error });
    assert!(matches!(code(4), lastfm::APIError::AuthenticationFailed));
    assert!(matches!(code(8), lastfm::APIError::OperationFailed));
    assert!(matches!(code(10), lastfm::APIError::InvalidAPIKey));
    assert!(matches!(code(11), lastfm::APIError::ServiceOffline));
    assert!(matches!(code(16), lastfm::APIError::TemporaryError));
    assert!(matches!(code(26), lastfm::APIError::SuspendedAPIKey));
    assert!(matches!(code(29), lastfm::APIError::RateLimitExceeded));
    match code(6) {
        lastfm::APIError::Unexpected(m) => assert_eq!(m, "m"),
        other => panic!("unexpected {other:?}"),
    }
}

#[test]
fn lastfm_statuses() {
    assert_eq!(lastfm::handle_user_friendly_error(200).unwrap(), lastfm::Reply::Tracks);
    assert_eq!(lastfm::handle_user_friendly_error(403).unwrap(), lastfm::Reply::ErrorBody);
    assert!(matches!(
        lastfm::handle_user_friendly_error(502),
        Err(lastfm::APIError::UnexpectedStatus(502))
    ));
}

#[test]
fn lastfm_error_messages() {
    assert_eq!(lastfm::APIError::InvalidAPIKey.message(), "Provided API key is invalid");
    assert_eq!(
        lastfm::APIError::Unexpected("Oops".to_string()).message(),
        "Unexpected API error: Oops"
    );
}

#[test]
fn lastfm_errors_classified() {
    let fatal = lastfm::ServiceError::APIError(lastfm::APIError::InvalidAPIKey).into_adapter_error();
    match fatal {
        AdapterError::Fatal(m) => assert_eq!(m, "Provided API key is invalid"),
        other => panic!("unexpected {other:?}"),
    }
    for e in [
        lastfm::APIError::AuthenticationFailed,
        lastfm::APIError::SuspendedAPIKey,
    ] {
        assert!(matches!(lastfm::ServiceError::APIError(e).into_adapter_error(), AdapterError::Fatal(_)));
    }
    for e in [
        lastfm::APIError::OperationFailed,
        lastfm::APIError::ServiceOffline,
        lastfm::APIError::TemporaryError,
        lastfm::APIError::RateLimitExceeded,
        lastfm::APIError::Unexpected("x".to_string()),
        lastfm::APIError::UnexpectedStatus(500),
    ] {
        assert!(matches!(
            lastfm::ServiceError::APIError(e).into_adapter_error(),
            AdapterError::Recoverable(_)
        ));
    }
    match lastfm::ServiceError::Transport("timed out".to_string()).into_adapter_error() {
        AdapterError::Recoverable(m) => assert_eq!(m, "timed out"),
        other => panic!("unexpected {other:?}"),
    }
    assert!(matches!(
        lastfm::ServiceError::Malformed("bad json".to_string()).into_adapter_error(),
        AdapterError::Recoverable(_)
    ));
}

#[test]
fn lastfm_poll_outcomes() {
    let playing = lastfm::poll_outcome(Ok(lastfm_data(vec![lastfm_track("Muse", "Supremacy", Some(Some(true)))])));
    assert!(matches!(playing, PollOutcome::Playing(ref t) if t.artist == "Muse" && t.title == "Supremacy"));
    assert!(matches!(lastfm::poll_outcome(Ok(lastfm_data(vec![]))), PollOutcome::Idle));
    assert!(matches!(
        lastfm::poll_outcome(Err(lastfm::ServiceError::APIError(lastfm::APIError::AuthenticationFailed))),
        PollOutcome::Failure(AdapterError::Fatal(_))
    ));
}

#[test]
fn lastfm_defaults() {
    assert!(!lastfm::default_enable());
    assert_eq!(lastfm::default_check_interval(), 16);
}

fn listen(artist: &str, title: &str, playing_now: bool) -> listenbrainz::Listen {
    listenbrainz::Listen {
        playing_now,
        track_metadata: listenbrainz::TrackMetadata {
            artist_name: artist.to_string(),
            track_name: title.to_string(),
        },
    }
}

fn lb_data(listens: Vec<listenbrainz::Listen>) -> listenbrainz::Data {
    listenbrainz::Data { payload: listenbrainz::Payload { listens } }
}

#[test]
fn listenbrainz_playing_now() {
    let t = listenbrainz::now_playing(lb_data(vec![listen("Muse", "Supremacy", true)])).unwrap();
    assert_eq!(t.artist, "Muse");
    assert_eq!(t.title, "Supremacy");
    assert!(listenbrainz::now_playing(lb_data(vec![listen("Muse", "Supremacy", false)])).is_none());
    assert!(listenbrainz::now_playing(lb_data(vec![])).is_none());
    assert!(listenbrainz::now_playing(lb_data(vec![
        listen("Muse", "Supremacy", false),
        listen("Muse", "Uprising", true),
    ]))
    .is_none());
}

#[test]
fn listenbrainz_statuses() {
    assert!(listenbrainz::handle_user_friendly_error(200).is_ok());
    assert!(matches!(listenbrainz::handle_user_friendly_error(404), Err(listenbrainz::APIError::NotFound)));
    assert!(matches!(
        listenbrainz::handle_user_friendly_error(503),
        Err(listenbrainz::APIError::Unexpected(503))
    ));
}

#[test]
fn listenbrainz_errors_classified() {
    match listenbrainz::ServiceError::APIError(listenbrainz::APIError::NotFound).into_adapter_error() {
        AdapterError::Fatal(m) => assert_eq!(m, "User not found."),
        other => panic!("unexpected {other:?}"),
    }
    assert!(matches!(
        listenbrainz::ServiceError::APIError(listenbrainz::APIError::Unexpected(500)).into_adapter_error(),
        AdapterError::Recoverable(_)
    ));
    assert!(matches!(
        listenbrainz::poll_outcome(Err(listenbrainz::ServiceError::Transport("reset".to_string()))),
        PollOutcome::Failure(AdapterError::Recoverable(_))
    ));
    assert!(matches!(
        listenbrainz::poll_outcome(Ok(lb_data(vec![listen("Muse", "Supremacy", true)]))),
        PollOutcome::Playing(_)
    ));
}

#[test]
fn listenbrainz_defaults() {
    assert!(!listenbrainz::default_enable());
    assert_eq!(listenbrainz::default_check_interval(), 16);
    assert_eq!(listenbrainz::default_listenbrainz_api_url(), "https://api.listenbrainz.org");
}
