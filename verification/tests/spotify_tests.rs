use spotiamp::oauth::{OAuthError, TokenResponse};
use spotiamp::spotify::{
    names_track, select_tracks, track_listing, CancelPolicy, Credential, ItemKind, LoginAction,
    LoginEvent, LoginState, SessionError, SpotifySession, TrackListing,
};

fn credential(token: &str) -> Credential {
    Credential { access_token: token.to_string() }
}

fn token(access: &str) -> TokenResponse {
    TokenResponse {
        access_token: access.to_string(),
        token_type: "bearer".to_string(),
        expires_in: None,
    }
}

fn begun(policy: CancelPolicy) -> SpotifySession {
    let mut session = SpotifySession::new(policy);
    assert!(matches!(session.login(), LoginAction::ConsultCache));
    session
}

fn authorizing(policy: CancelPolicy) -> SpotifySession {
    let mut session = begun(policy);
    assert!(matches!(session.advance(LoginEvent::CacheAnswered(None)), LoginAction::Authorize));
    session
}

#[test]
fn credential_takes_the_access_token() {
    assert_eq!(Credential::from_token(token("abc")).access_token, "abc");
}

#[test]
fn new_session_is_idle() {
    let mut session = SpotifySession::new(CancelPolicy::ReportFailure);
    assert_eq!(session.state(), LoginState::Idle);
    assert!(matches!(session.advance(LoginEvent::Connected), LoginAction::Wait));
    assert_eq!(session.state(), LoginState::Idle);
}

#[test]
fn login_begins_once() {
    let mut session = begun(CancelPolicy::ReportFailure);
    assert_eq!(session.state(), LoginState::ConsultingCache);
    assert!(matches!(session.login(), LoginAction::Wait));
    assert_eq!(session.state(), LoginState::ConsultingCache);
}

#[test]
fn cached_credential_is_tried_and_stored_again() {
    let mut session = begun(CancelPolicy::ReportFailure);
    match session.advance(LoginEvent::CacheAnswered(Some(credential("cached")))) {
        LoginAction::Connect(tried) => assert_eq!(tried.access_token, "cached"),
        other => panic!("{:?}", other),
    }
    assert_eq!(session.state(), LoginState::ConnectingCached);
    match session.advance(LoginEvent::Connected) {
        LoginAction::Store(kept) => assert_eq!(kept.access_token, "cached"),
        other => panic!("{:?}", other),
    }
    assert_eq!(session.state(), LoginState::LoggedIn);
}

#[test]
fn stale_cached_credential_falls_through_to_interactive_login() {
    let mut session = begun(CancelPolicy::ReportFailure);
    session.advance(LoginEvent::CacheAnswered(Some(credential("stale"))));
    assert!(matches!(
        session.advance(LoginEvent::ConnectFailed { e: "expired".to_string() }),
        LoginAction::Authorize
    ));
    assert_eq!(session.state(), LoginState::Authorizing);
    match session.advance(LoginEvent::TokenReceived(token("fresh"))) {
        LoginAction::Connect(tried) => assert_eq!(tried.access_token, "fresh"),
        other => panic!("{:?}", other),
    }
    match session.advance(LoginEvent::Connected) {
        LoginAction::Store(kept) => assert_eq!(kept.access_token, "fresh"),
        other => panic!("{:?}", other),
    }
    assert_eq!(session.state(), LoginState::LoggedIn);
}

#[test]
fn empty_cache_goes_straight_to_interactive_login() {
    let session = authorizing(CancelPolicy::ReportFailure);
    assert_eq!(session.state(), LoginState::Authorizing);
}

#[test]
fn fresh_credential_that_is_turned_down_ends_the_login() {
    let mut session = authorizing(CancelPolicy::ReportFailure);
    session.advance(LoginEvent::TokenReceived(token("fresh")));
    assert_eq!(session.state(), LoginState::ConnectingFresh);
    match session.advance(LoginEvent::ConnectFailed { e: "bad credentials".to_string() }) {
        LoginAction::Fail(SessionError::ConnectError { e }) => assert_eq!(e, "bad credentials"),
        other => panic!("{:?}", other),
    }
    assert_eq!(session.state(), LoginState::Failed);
    assert!(matches!(session.advance(LoginEvent::Connected), LoginAction::Wait));
    assert!(matches!(session.login(), LoginAction::Wait));
    assert_eq!(session.state(), LoginState::Failed);
}

#[test]
fn flow_that_cannot_be_set_up_is_an_oauth_error() {
    let mut session = authorizing(CancelPolicy::ReportFailure);
    match session.advance(LoginEvent::FlowRefused(OAuthError::StateMismatch)) {
        LoginAction::Fail(SessionError::OauthError { e }) => {
            assert!(matches!(e, OAuthError::StateMismatch))
        }
        other => panic!("{:?}", other),
    }
    assert_eq!(session.state(), LoginState::Failed);
}

#[test]
fn window_that_cannot_be_opened_is_reported_with_its_url() {
    let mut session = authorizing(CancelPolicy::ReportFailure);
    let event = LoginEvent::WindowFailed {
        url: "https://accounts.example/authorize".to_string(),
        e: "no display".to_string(),
    };
    match session.advance(event) {
        LoginAction::Fail(SessionError::OpenURLFailed { url, e }) => {
            assert_eq!(url, "https://accounts.example/authorize");
            assert_eq!(e, "no display");
        }
        other => panic!("{:?}", other),
    }
    assert_eq!(session.state(), LoginState::Failed);
}

#[test]
fn flow_without_token_is_a_token_exchange_failure() {
    let mut session = authorizing(CancelPolicy::ReportFailure);
    let cause = OAuthError::ExchangeCode { e: "invalid_grant".to_string() };
    match session.advance(LoginEvent::FlowFailed(cause)) {
        LoginAction::Fail(SessionError::TokenExchangeFailure {
            e: OAuthError::ExchangeCode { e },
        }) => assert_eq!(e, "invalid_grant"),
        other => panic!("{:?}", other),
    }
    assert_eq!(session.state(), LoginState::Failed);
}

#[test]
fn closed_window_ends_the_application_where_so_configured() {
    let mut session = authorizing(CancelPolicy::ExitProcess);
    assert!(matches!(session.advance(LoginEvent::WindowClosed), LoginAction::Exit));
    assert_eq!(session.state(), LoginState::Failed);
}

#[test]
fn closed_window_is_reported_where_so_configured() {
    let mut session = authorizing(CancelPolicy::ReportFailure);
    assert!(matches!(
        session.advance(LoginEvent::WindowClosed),
        LoginAction::Fail(SessionError::Cancelled)
    ));
    assert_eq!(session.state(), LoginState::Failed);
}

#[test]
fn window_closed_after_the_token_does_not_matter() {
    let mut session = authorizing(CancelPolicy::ExitProcess);
    session.advance(LoginEvent::TokenReceived(token("fresh")));
    assert!(matches!(session.advance(LoginEvent::WindowClosed), LoginAction::Wait));
    assert_eq!(session.state(), LoginState::ConnectingFresh);
    assert!(matches!(session.advance(LoginEvent::Connected), LoginAction::Store(_)));
}

#[test]
fn events_out_of_turn_change_nothing() {
    let mut session = begun(CancelPolicy::ReportFailure);
    assert!(matches!(session.advance(LoginEvent::Connected), LoginAction::Wait));
    assert!(matches!(
        session.advance(LoginEvent::TokenReceived(token("early"))),
        LoginAction::Wait
    ));
    assert!(matches!(session.advance(LoginEvent::WindowClosed), LoginAction::Wait));
    assert_eq!(session.state(), LoginState::ConsultingCache);
    let mut session = authorizing(CancelPolicy::ReportFailure);
    assert!(matches!(session.advance(LoginEvent::Connected), LoginAction::Wait));
    assert!(matches!(
        session.advance(LoginEvent::CacheAnswered(Some(credential("late")))),
        LoginAction::Wait
    ));
    assert_eq!(session.state(), LoginState::Authorizing);
}

#[test]
fn tracks_are_listed_in_playlists_and_on_albums() {
    assert_eq!(track_listing(ItemKind::Playlist), TrackListing::Playlist);
    assert_eq!(track_listing(ItemKind::Album), TrackListing::Album);
    assert_eq!(track_listing(ItemKind::Track), TrackListing::Nowhere);
    assert_eq!(track_listing(ItemKind::Other), TrackListing::Nowhere);
}

#[test]
fn only_a_track_identifier_names_a_track() {
    assert!(names_track(ItemKind::Track));
    assert!(!names_track(ItemKind::Playlist));
    assert!(!names_track(ItemKind::Album));
    assert!(!names_track(ItemKind::Other));
}

#[test]
fn playlist_items_that_are_no_tracks_are_left_out() {
    let items = vec![
        (ItemKind::Track, 1u32),
        (ItemKind::Other, 2),
        (ItemKind::Track, 3),
        (ItemKind::Album, 4),
        (ItemKind::Track, 1),
        (ItemKind::Playlist, 5),
    ];
    assert_eq!(select_tracks(&items), vec![1, 3, 1]);
    assert_eq!(select_tracks(&Vec::<(ItemKind, u32)>::new()), Vec::<u32>::new());
    assert_eq!(select_tracks(&vec![(ItemKind::Other, 9u32)]), Vec::<u32>::new());
}
