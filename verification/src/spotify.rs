//! Logging in to the remote service: the cached credential first, the
//! interactive login where there is none or it is no longer good.
//!
//! The session itself, the credential cache and the login window are the
//! caller's. This module decides, event by event, what the caller is to do
//! next, and classifies what went wrong.

use crate::oauth::{OAuthError, TokenResponse};
use vstd::prelude::*;

verus! {

/// What the remote service accepts as proof of a login.
#[derive(Debug, Clone)]
pub struct Credential {
    pub access_token: String,
}

impl Credential {
    /// The credential that a token answer amounts to. The answer itself is
    /// used up.
    pub fn from_token(token: TokenResponse) -> (credential: Credential)
        ensures
            credential.access_token == token.access_token,
    {
        Credential { access_token: token.access_token }
    }
}

/// Why a login failed.
#[derive(Debug)]
pub enum SessionError {
    /// The remote service turned the credential down.
    ConnectError { e: String },
    /// The interactive login could not be set up.
    OauthError { e: OAuthError },
    /// The login window could not be opened at `url`.
    OpenURLFailed { url: String, e: String },
    /// The interactive login did not yield a token.
    TokenExchangeFailure { e: OAuthError },
    /// The user closed the login window before a token arrived.
    Cancelled,
}

/// What is to happen when the user closes the login window before a token has
/// arrived.
#[derive(Debug, Clone, Copy, PartialEq, Eq, Structural)]
pub enum CancelPolicy {
    /// The application ends.
    ExitProcess,
    /// The login fails with [`SessionError::Cancelled`].
    ReportFailure,
}

/// Where a login stands.
#[derive(Debug, Clone, Copy, PartialEq, Eq, Structural)]
pub enum LoginState {
    /// Nothing was done yet.
    Idle,
    /// The credential cache is being consulted.
    ConsultingCache,
    /// The cached credential is being tried on the remote service.
    ConnectingCached,
    /// The interactive login runs.
    Authorizing,
    /// The credential from the interactive login is being tried.
    ConnectingFresh,
    /// The session is connected.
    LoggedIn,
    /// The login is over without a session.
    Failed,
}

/// What happened outside since the last step of a login.
#[derive(Debug)]
pub enum LoginEvent {
    /// The cache gave its credential, or has none that can be read.
    CacheAnswered(Option<Credential>),
    /// The remote service accepted the credential.
    Connected,
    /// The remote service turned the credential down.
    ConnectFailed { e: String },
    /// The interactive login could not be set up.
    FlowRefused(OAuthError),
    /// The login window could not be opened at `url`.
    WindowFailed { url: String, e: String },
    /// The interactive login yielded a token.
    TokenReceived(TokenResponse),
    /// The interactive login ended without a token.
    FlowFailed(OAuthError),
    /// The user closed the login window.
    WindowClosed,
}

/// What the caller is to do next for a login.
#[derive(Debug)]
pub enum LoginAction {
    /// Look into the credential cache.
    ConsultCache,
    /// Try this credential on the remote service.
    Connect(Credential),
    /// Run the interactive login in a login window.
    Authorize,
    /// The login succeeded: write this credential to the cache.
    Store(Credential),
    /// The login failed.
    Fail(SessionError),
    /// End the application.
    Exit,
    /// Nothing: the event does not concern the login in its present state.
    Wait,
}

/// Mathematical content of a [`SpotifySession`].
pub struct LoginView {
    pub state: LoginState,
    /// The access token of the credential that is being tried.
    pub pending: Option<Seq<char>>,
    pub on_cancel: CancelPolicy,
}

/// A login to the remote service, from the first look into the cache to a
/// connected session or a failure.
#[derive(Debug)]
pub struct SpotifySession {
    state: LoginState,
    pending: Option<Credential>,
    on_cancel: CancelPolicy,
}

impl View for SpotifySession {
    type V = LoginView;

    closed spec fn view(&self) -> LoginView {
        LoginView {
            state: self.state,
            pending: match self.pending {
                Some(credential) => Some(credential.access_token@),
                None => None,
            },
            on_cancel: self.on_cancel,
        }
    }
}

/// The access token of the credential that is tried after `event`, where the
/// event brings one.
pub open spec fn brought_token(event: LoginEvent) -> Option<Seq<char>> {
    match event {
        LoginEvent::CacheAnswered(Some(credential)) => Some(credential.access_token@),
        LoginEvent::TokenReceived(token) => Some(token.access_token@),
        _ => None,
    }
}

/// How a login stands after an event.
pub open spec fn login_next(before: LoginView, event: LoginEvent) -> LoginView {
    match before.state {
        LoginState::ConsultingCache => match event {
            LoginEvent::CacheAnswered(Some(_)) => LoginView {
                state: LoginState::ConnectingCached,
                pending: brought_token(event),
                ..before
            },
            LoginEvent::CacheAnswered(None) => LoginView {
                state: LoginState::Authorizing,
                pending: None,
                ..before
            },
            _ => before,
        },
        LoginState::ConnectingCached => match event {
            LoginEvent::Connected => LoginView { state: LoginState::LoggedIn, pending: None, ..before },
            LoginEvent::ConnectFailed { .. } => LoginView {
                state: LoginState::Authorizing,
                pending: None,
                ..before
            },
            _ => before,
        },
        LoginState::Authorizing => match event {
            LoginEvent::TokenReceived(_) => LoginView {
                state: LoginState::ConnectingFresh,
                pending: brought_token(event),
                ..before
            },
            LoginEvent::FlowRefused(_) => LoginView { state: LoginState::Failed, ..before },
            LoginEvent::WindowFailed { .. } => LoginView { state: LoginState::Failed, ..before },
            LoginEvent::FlowFailed(_) => LoginView { state: LoginState::Failed, ..before },
            LoginEvent::WindowClosed => LoginView { state: LoginState::Failed, ..before },
            _ => before,
        },
        LoginState::ConnectingFresh => match event {
            LoginEvent::Connected => LoginView { state: LoginState::LoggedIn, pending: None, ..before },
            LoginEvent::ConnectFailed { .. } => LoginView {
                state: LoginState::Failed,
                pending: None,
                ..before
            },
            _ => before,
        },
        _ => before,
    }
}

/// Whether `action` is what the caller is to do after `event` reached a login
/// that stood as `before` says.
pub open spec fn is_login_action_for(
    before: LoginView,
    event: LoginEvent,
    action: LoginAction,
) -> bool {
    match before.state {
        LoginState::ConsultingCache => match event {
            LoginEvent::CacheAnswered(Some(cached)) => action matches LoginAction::Connect(tried)
                && tried.access_token@ == cached.access_token@,
            LoginEvent::CacheAnswered(None) => action is Authorize,
            _ => action is Wait,
        },
        LoginState::ConnectingCached => match event {
            LoginEvent::Connected => action matches LoginAction::Store(kept) && Some(
                kept.access_token@,
            ) == before.pending,
            LoginEvent::ConnectFailed { .. } => action is Authorize,
            _ => action is Wait,
        },
        LoginState::Authorizing => match event {
            LoginEvent::TokenReceived(token) => action matches LoginAction::Connect(tried)
                && tried.access_token@ == token.access_token@,
            LoginEvent::FlowRefused(cause) => action matches LoginAction::Fail(
                SessionError::OauthError { e },
            ) && e == cause,
            LoginEvent::WindowFailed { url, e } => action matches LoginAction::Fail(
                SessionError::OpenURLFailed { url: at, e: cause },
            ) && at == url && cause == e,
            LoginEvent::FlowFailed(cause) => action matches LoginAction::Fail(
                SessionError::TokenExchangeFailure { e },
            ) && e == cause,
            LoginEvent::WindowClosed => match before.on_cancel {
                CancelPolicy::ExitProcess => action is Exit,
                CancelPolicy::ReportFailure => action matches LoginAction::Fail(
                    SessionError::Cancelled,
                ),
            },
            _ => action is Wait,
        },
        LoginState::ConnectingFresh => match event {
            LoginEvent::Connected => action matches LoginAction::Store(kept) && Some(
                kept.access_token@,
            ) == before.pending,
            LoginEvent::ConnectFailed { e } => action matches LoginAction::Fail(
                SessionError::ConnectError { e: cause },
            ) && cause == e,
            _ => action is Wait,
        },
        _ => action is Wait,
    }
}

impl SpotifySession {
    /// While a credential is being tried, the login holds it.
    #[verifier::type_invariant]
    closed spec fn well_formed(&self) -> bool {
        (self.state == LoginState::ConnectingCached || self.state == LoginState::ConnectingFresh)
            ==> self.pending is Some
    }

    /// A login that has not begun.
    pub fn new(on_cancel: CancelPolicy) -> (session: Self)
        ensures
            session@ == (LoginView { state: LoginState::Idle, pending: None, on_cancel }),
    {
        SpotifySession { state: LoginState::Idle, pending: None, on_cancel }
    }

    /// Where the login stands.
    pub fn state(&self) -> (state: LoginState)
        ensures
            state == self@.state,
    {
        self.state
    }

    /// Begins the login: the caller is to look into the credential cache. A
    /// login that was begun before stays as it is, and nothing is to be done.
    pub fn login(&mut self) -> (action: LoginAction)
        ensures
            old(self)@.state == LoginState::Idle ==> action is ConsultCache && final(self)@ == (
            LoginView { state: LoginState::ConsultingCache, ..old(self)@ }),
            old(self)@.state != LoginState::Idle ==> action is Wait && final(self)@ == old(self)@,
    {
        proof {
            use_type_invariant(&*self);
        }
        match self.state {
            LoginState::Idle => {
                self.state = LoginState::ConsultingCache;
                LoginAction::ConsultCache
            },
            _ => LoginAction::Wait,
        }
    }

    /// Takes an event and says what is to be done next.
    ///
    /// A cached credential is tried first. Where the cache has none, or the
    /// remote service turns the cached one down, the interactive login runs,
    /// and its credential is tried. A credential that the remote service
    /// accepts is to be written to the cache, whichever way it came. Any
    /// failure of the interactive login, and a credential from it that is
    /// turned down, end the login; nothing is tried twice. Every other event
    /// changes nothing.
    pub fn advance(&mut self, event: LoginEvent) -> (action: LoginAction)
        ensures
            final(self)@ == login_next(old(self)@, event),
            is_login_action_for(old(self)@, event, action),
    {
        proof {
            use_type_invariant(&*self);
        }
        match self.state {
            LoginState::ConsultingCache => match event {
                LoginEvent::CacheAnswered(Some(cached)) => {
                    let tried = Credential { access_token: cached.access_token.clone() };
                    self.pending = Some(cached);
                    self.state = LoginState::ConnectingCached;
                    LoginAction::Connect(tried)
                },
                LoginEvent::CacheAnswered(None) => {
                    self.state = LoginState::Authorizing;
                    self.pending = None;
                    LoginAction::Authorize
                },
                _ => LoginAction::Wait,
            },
            LoginState::ConnectingCached => match event {
                LoginEvent::Connected => {
                    let kept = Credential {
                        access_token: self.pending.as_ref().unwrap().access_token.clone(),
                    };
                    self.state = LoginState::LoggedIn;
                    self.pending = None;
                    LoginAction::Store(kept)
                },
                LoginEvent::ConnectFailed { .. } => {
                    self.state = LoginState::Authorizing;
                    self.pending = None;
                    LoginAction::Authorize
                },
                _ => LoginAction::Wait,
            },
            LoginState::Authorizing => match event {
                LoginEvent::TokenReceived(token) => {
                    let fresh = Credential::from_token(token);
                    let tried = Credential { access_token: fresh.access_token.clone() };
                    self.pending = Some(fresh);
                    self.state = LoginState::ConnectingFresh;
                    LoginAction::Connect(tried)
                },
                LoginEvent::FlowRefused(e) => {
                    self.state = LoginState::Failed;
                    LoginAction::Fail(SessionError::OauthError { e })
                },
                LoginEvent::WindowFailed { url, e } => {
                    self.state = LoginState::Failed;
                    LoginAction::Fail(SessionError::OpenURLFailed { url, e })
                },
                LoginEvent::FlowFailed(e) => {
                    self.state = LoginState::Failed;
                    LoginAction::Fail(SessionError::TokenExchangeFailure { e })
                },
                LoginEvent::WindowClosed => {
                    self.state = LoginState::Failed;
                    match self.on_cancel {
                        CancelPolicy::ExitProcess => LoginAction::Exit,
                        CancelPolicy::ReportFailure => LoginAction::Fail(SessionError::Cancelled),
                    }
                },
                _ => LoginAction::Wait,
            },
            LoginState::ConnectingFresh => match event {
                LoginEvent::Connected => {
                    let kept = Credential {
                        access_token: self.pending.as_ref().unwrap().access_token.clone(),
                    };
                    self.state = LoginState::LoggedIn;
                    self.pending = None;
                    LoginAction::Store(kept)
                },
                LoginEvent::ConnectFailed { e } => {
                    self.state = LoginState::Failed;
                    self.pending = None;
                    LoginAction::Fail(SessionError::ConnectError { e })
                },
                _ => LoginAction::Wait,
            },
            _ => LoginAction::Wait,
        }
    }
}

/// A login that has ended, in a session or in a failure, stays as it ended:
/// nothing is retried unless the caller begins a new login.
pub proof fn lemma_ended_login_stays_ended(before: LoginView, event: LoginEvent)
    requires
        before.state == LoginState::LoggedIn || before.state == LoginState::Failed,
    ensures
        login_next(before, event) == before,
{
}

/// The session is connected only after the remote service accepted a
/// credential, and the interactive login runs only after the cache had
/// nothing or the cached credential was turned down.
pub proof fn lemma_login_steps_in_order(before: LoginView, event: LoginEvent)
    ensures
        before.state != LoginState::LoggedIn && login_next(before, event).state
            == LoginState::LoggedIn ==> event is Connected && (before.state
            == LoginState::ConnectingCached || before.state == LoginState::ConnectingFresh),
        before.state != LoginState::Authorizing && login_next(before, event).state
            == LoginState::Authorizing ==> (before.state == LoginState::ConsultingCache && event
            == LoginEvent::CacheAnswered(None)) || (before.state == LoginState::ConnectingCached
            && event is ConnectFailed),
{
}

/// What kind of thing an identifier of the catalogue names.
#[derive(Debug, Clone, Copy, PartialEq, Eq, Structural)]
pub enum ItemKind {
    Track,
    Playlist,
    Album,
    /// Anything else: an artist, a show, an episode.
    Other,
}

/// Where the tracks behind an identifier are listed.
#[derive(Debug, Clone, Copy, PartialEq, Eq, Structural)]
pub enum TrackListing {
    /// In the playlist of that name, among its other items.
    Playlist,
    /// On the album of that name.
    Album,
    /// Nowhere: the identifier names no collection of tracks.
    Nowhere,
}

/// Where the tracks behind an identifier of the given kind are listed.
pub fn track_listing(kind: ItemKind) -> (listing: TrackListing)
    ensures
        listing == match kind {
            ItemKind::Playlist => TrackListing::Playlist,
            ItemKind::Album => TrackListing::Album,
            _ => TrackListing::Nowhere,
        },
{
    match kind {
        ItemKind::Playlist => TrackListing::Playlist,
        ItemKind::Album => TrackListing::Album,
        _ => TrackListing::Nowhere,
    }
}

/// Whether metadata of a single track can be asked for an identifier of the
/// given kind.
pub fn names_track(kind: ItemKind) -> (yes: bool)
    ensures
        yes == (kind == ItemKind::Track),
{
    match kind {
        ItemKind::Track => true,
        _ => false,
    }
}

/// The identifiers among `items` that name tracks, in the order in which they
/// stand.
pub open spec fn tracks_among<T>(items: Seq<(ItemKind, T)>) -> Seq<T>
    decreases items.len(),
{
    if items.len() == 0 {
        Seq::empty()
    } else if items.last().0 == ItemKind::Track {
        tracks_among(items.drop_last()).push(items.last().1)
    } else {
        tracks_among(items.drop_last())
    }
}

/// The identifiers among the items of a playlist that name tracks, in the
/// order of the playlist.
pub fn select_tracks<T: Copy>(items: &Vec<(ItemKind, T)>) -> (tracks: Vec<T>)
    ensures
        tracks@ == tracks_among(items@),
{
    let mut tracks: Vec<T> = Vec::new();
    let mut i: usize = 0;
    assert(items@.take(0) =~= Seq::<(ItemKind, T)>::empty());
    while i < items.len()
        invariant
            0 <= i <= items.len(),
            tracks@ == tracks_among(items@.take(i as int)),
        decreases items.len() - i,
    {
        proof {
            let longer = items@.take(i + 1);
            assert(longer.drop_last() =~= items@.take(i as int));
            assert(longer.last() == items@[i as int]);
        }
        let item = items[i];
        if names_track(item.0) {
            tracks.push(item.1);
        }
        i += 1;
    }
    assert(items@.take(items.len() as int) =~= items@);
    tracks
}

} // verus!
