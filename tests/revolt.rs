use lure::cli::Arguments;
use lure::config::{select_service, ArgumentsError, Config, SelectedService, ServiceOptions};
use lure::lastfm;
use lure::listenbrainz;
use lure::login::{
    handle_user_friendly_error, mfa_code_acceptable, mfa_response, offers_recovery, password_accepted,
    ExpectedAuthError, LoginReply, Validators,
};
use lure::revolt::{
    default_revolt_api_url, default_revolt_status, default_revolt_status_template, edit_for_status,
    handle_return_error, status_text_of, APIError, Authentication, AuthifierError, FieldsUser, Method, Response,
    User, UserStatus,
};
use lure::supervisor::SyncError;

#[test]
fn session_token_header() {
    let auth = Authentication::SessionToken("meow".to_string());
    assert_eq!(auth.header(), "X-Session-Token");
    assert_eq!(auth.value(), "meow");
}

#[test]
fn revolt_statuses() {
    assert!(handle_return_error(200, None).is_ok());
    assert!(matches!(handle_return_error(401, None), Err(APIError::AuthenticationFailed)));
    assert!(matches!(handle_return_error(429, Some("1500")), Err(APIError::RateLimitExceeded(1500))));
    assert!(matches!(handle_return_error(429, Some("+7")), Err(APIError::RateLimitExceeded(7))));
    assert!(matches!(handle_return_error(429, Some("soon")), Err(APIError::RateLimitExceeded(0))));
    assert!(matches!(handle_return_error(429, Some("-1")), Err(APIError::RateLimitExceeded(0))));
    assert!(matches!(
        handle_return_error(429, Some("18446744073709551616")),
        Err(APIError::RateLimitExceeded(0))
    ));
    assert!(matches!(handle_return_error(429, None), Err(APIError::RateLimitExceeded(0))));
    assert!(matches!(handle_return_error(500, None), Err(APIError::Unknown(500))));
}

#[test]
fn revolt_errors_to_sync_errors() {
    assert!(matches!(APIError::AuthenticationFailed.into_sync_error(), SyncError::Unauthorized));
    assert!(matches!(APIError::RateLimitExceeded(30).into_sync_error(), SyncError::RateLimited(30)));
    assert!(matches!(APIError::Unknown(502).into_sync_error(), SyncError::Unexpected(502)));
}

#[test]
fn status_edit_bodies() {
    let set = edit_for_status(Some("Supremacy by Muse".to_string()));
    assert!(set.remove.is_none());
    let status = set.status.unwrap();
    assert_eq!(status.text, Some("Supremacy by Muse".to_string()));
    assert!(status.presence.is_none());

    let clear = edit_for_status(None);
    assert!(clear.status.is_none());
    assert_eq!(clear.remove, Some(vec![FieldsUser::StatusText]));
}

#[test]
fn status_text_of_profile() {
    let user = User { status: Some(UserStatus { text: Some("hi".to_string()), presence: None }) };
    assert_eq!(status_text_of(user), Some("hi".to_string()));
    assert_eq!(status_text_of(User { status: None }), None);
    assert_eq!(status_text_of(User { status: Some(UserStatus { text: None, presence: None }) }), None);
}

#[test]
fn revolt_defaults() {
    assert_eq!(default_revolt_api_url(), "https://api.revolt.chat");
    assert_eq!(default_revolt_status_template(), "\u{1f3b5} Listening to %NAME% by %ARTIST%");
    let status = default_revolt_status();
    assert_eq!(status.template, "\u{1f3b5} Listening to %NAME% by %ARTIST%");
    assert_eq!(status.idle, None);
}

fn lastfm_options(enable: bool) -> lastfm::Options {
    lastfm::Options {
        enable,
        username: "kitty".to_string(),
        api_key: "hellokitty".to_string(),
        check_interval: 16,
    }
}

fn listenbrainz_options(enable: bool) -> listenbrainz::Options {
    listenbrainz::Options {
        enable,
        username: "kitty".to_string(),
        api_url: "https://api.listenbrainz.org".to_string(),
        check_interval: 16,
    }
}

fn config(service: ServiceOptions) -> Config {
    Config {
        service,
        revolt: lure::revolt::Options {
            status: default_revolt_status(),
            api_url: default_revolt_api_url(),
            session_token: "meow".to_string(),
        },
    }
}

#[test]
fn enabled_services_in_order() {
    let both = config(ServiceOptions {
        lastfm: Some(lastfm_options(true)),
        listenbrainz: Some(listenbrainz_options(true)),
    });
    assert_eq!(both.enabled_services(), vec!["LastFM", "ListenBrainz"]);
    let one = config(ServiceOptions { lastfm: Some(lastfm_options(false)), listenbrainz: Some(listenbrainz_options(true)) });
    assert_eq!(one.enabled_services(), vec!["ListenBrainz"]);
    let none = config(ServiceOptions { lastfm: None, listenbrainz: None });
    assert!(none.enabled_services().is_empty());
}

#[test]
fn one_service_must_be_enabled() {
    let r = select_service(ServiceOptions { lastfm: Some(lastfm_options(true)), listenbrainz: None });
    assert!(matches!(r, Ok(SelectedService::LastFM(ref o)) if o.username == "kitty"));
    let r = select_service(ServiceOptions { lastfm: Some(lastfm_options(false)), listenbrainz: Some(listenbrainz_options(true)) });
    assert!(matches!(r, Ok(SelectedService::ListenBrainz(_))));
    let r = select_service(ServiceOptions { lastfm: Some(lastfm_options(false)), listenbrainz: None });
    assert!(matches!(r, Err(ArgumentsError::NoServicesEnabled)));
    let r = select_service(ServiceOptions { lastfm: Some(lastfm_options(true)), listenbrainz: Some(listenbrainz_options(true)) });
    match r {
        Err(ArgumentsError::MoreThanOneServiceEnabled(names)) => assert_eq!(names, "LastFM, ListenBrainz"),
        other => panic!("unexpected {other:?}"),
    }
}

#[test]
fn config_path_default() {
    assert_eq!(Arguments { config: None }.config_path(), "config.yaml");
    assert_eq!(Arguments { config: Some("other.yaml".to_string()) }.config_path(), "other.yaml");
}

#[test]
fn login_statuses() {
    assert_eq!(handle_user_friendly_error(200), LoginReply::Accepted);
    assert_eq!(handle_user_friendly_error(204), LoginReply::Accepted);
    assert_eq!(handle_user_friendly_error(400), LoginReply::Refused);
    assert_eq!(handle_user_friendly_error(401), LoginReply::Refused);
    assert_eq!(handle_user_friendly_error(403), LoginReply::Refused);
    assert_eq!(handle_user_friendly_error(500), LoginReply::UnexpectedAuthStatusCode(500));
}

#[test]
fn authifier_errors_map() {
    assert_eq!(ExpectedAuthError::from(AuthifierError::InvalidCredentials), ExpectedAuthError::InvalidCredentials);
    assert_eq!(ExpectedAuthError::from(AuthifierError::LockedOut), ExpectedAuthError::LockedOut);
    assert_eq!(ExpectedAuthError::from(AuthifierError::UnverifiedAccount), ExpectedAuthError::UnverifiedAccount);
    assert_eq!(ExpectedAuthError::from(AuthifierError::InvalidToken).message(), "Incorrect 2FA code provided.");
}

#[test]
fn input_validation() {
    let v = Validators::new().unwrap();
    assert!(v.is_email("i@love.cat"));
    assert!(!v.is_email("not an address"));
    assert!(v.is_totp_code("123456"));
    assert!(!v.is_totp_code("12345"));
    assert!(v.is_recovery_code("abcde-12345"));
    assert!(!v.is_recovery_code("abcde12345"));
    assert!(v.accepts_mfa_code("123456", false));
    assert!(!v.accepts_mfa_code("abcde-12345", false));
    assert!(v.accepts_mfa_code("abcde-12345", true));
    assert!(matches!(v.mfa_answer("123456".to_string()), Response::TotpCode { .. }));
    assert!(matches!(v.mfa_answer("abcde-12345".to_string()), Response::RecoveryCode { .. }));
    assert!(password_accepted("JaneDoe0"));
    assert!(!password_accepted(""));
}

#[test]
fn mfa_decisions() {
    assert!(mfa_code_acceptable(true, false, false));
    assert!(!mfa_code_acceptable(false, true, false));
    assert!(mfa_code_acceptable(false, true, true));
    assert!(!offers_recovery(&vec![Method::Totp]));
    assert!(offers_recovery(&vec![Method::Totp, Method::Recovery]));
    match mfa_response("654321".to_string(), true) {
        Response::TotpCode { totp_code } => assert_eq!(totp_code, "654321"),
        other => panic!("unexpected {other:?}"),
    }
    match mfa_response("abcde-12345".to_string(), false) {
        Response::RecoveryCode { recovery_code } => assert_eq!(recovery_code, "abcde-12345"),
        other => panic!("unexpected {other:?}"),
    }
}
