//! The authorization-code login with PKCE over a loopback redirect: how a
//! login attempt is set up, what the local callback endpoint answers, and how
//! the attempt moves from its start to a token or a failure.
//!
//! Nothing here touches the network. The caller listens, opens the browser and
//! talks to the token endpoint; this module decides what is to be done next
//! and what each outcome means.

use crate::text::{decimal, decimal_text, occurs_in, query_of, query_part, str_contains, texts};
use vstd::prelude::*;
use vstd::string::StringExecFns;

verus! {

/// The one scope that a login asks for.
pub const SCOPE: &'static str = "streaming";

/// How the PKCE challenge is derived from the verifier, as the provider is
/// told.
pub const CHALLENGE_METHOD: &'static str = "S256";

/// Path of the callback endpoint on the loopback address.
pub const CALLBACK_PATH: &'static str = "/login";

/// Body of the answer to the callback that delivered the code.
pub const ACCEPTED_BODY: &'static str = "<body></body>";

/// Body of the answer to a callback that came after the code was delivered.
pub const ALREADY_USED_BODY: &'static str = "Redirect URL already used";

/// Body of the answer to a callback whose query names a parameter twice.
pub const BAD_QUERY_BODY: &'static str = "Failed to deserialize query string";

/// Why a URL was not accepted. Opaque here; the caller can print it.
#[verifier::external_type_specification]
#[verifier::external_body]
pub struct ExParseError(url::ParseError);

/// Why the local endpoint could not be served. Opaque here; the caller can
/// print it.
#[verifier::external_type_specification]
#[verifier::external_body]
pub struct ExIoError(std::io::Error);

/// Whether `url::Url::parse` accepts the text as an absolute URL.
pub uninterp spec fn url_parses(uri: Seq<char>) -> bool;

/// The challenge that `oauth2::PkceCodeChallenge::from_code_verifier_sha256`
/// derives from a verifier: the SHA-256 digest of the verifier, in URL-safe
/// base64 without padding.
pub uninterp spec fn pkce_challenge_of(verifier: Seq<char>) -> Seq<char>;

/// The URL that `oauth2`'s authorization request serialises to for a client
/// with the given authorization endpoint, client id and redirect URI, asking
/// for one scope, with the SHA-256 challenge of `verifier` and with `state` as
/// its CSRF token.
pub uninterp spec fn authorization_url(
    auth_url: Seq<char>,
    client_id: Seq<char>,
    redirect_uri: Seq<char>,
    scope: Seq<char>,
    verifier: Seq<char>,
    state: Seq<char>,
) -> Seq<char>;

/// The name-value pairs that `url::form_urlencoded::parse` finds in a query
/// string, percent-decoded, in the order in which they stand.
pub uninterp spec fn query_pairs(query: Seq<char>) -> Seq<(Seq<char>, Seq<char>)>;

/// A character that may stand in a PKCE code verifier.
pub open spec fn is_verifier_char(c: char) -> bool {
    ||| 'A' <= c <= 'Z'
    ||| 'a' <= c <= 'z'
    ||| '0' <= c <= '9'
    ||| c == '-'
    ||| c == '.'
    ||| c == '_'
    ||| c == '~'
}

/// A well-formed PKCE code verifier: 43 to 128 characters, each of them
/// unreserved in URLs.
pub open spec fn is_code_verifier(verifier: Seq<char>) -> bool {
    &&& 43 <= verifier.len() <= 128
    &&& forall|i: int| 0 <= i < verifier.len() ==> is_verifier_char(#[trigger] verifier[i])
}

/// The texts of a list of name-value pairs.
pub open spec fn pair_texts(pairs: Seq<(String, String)>) -> Seq<(Seq<char>, Seq<char>)> {
    Seq::new(pairs.len(), |i: int| (pairs[i].0@, pairs[i].1@))
}

/// Calls `url::Url::parse`, which is all that `oauth2::AuthUrl::new`,
/// `TokenUrl::new` and `RedirectUrl::new` do to their argument, and drops the
/// parsed URL. Not proved: that the same text is always judged the same way.
#[verifier::external_body]
fn parse_url(uri: &str) -> (outcome: Result<(), url::ParseError>)
    ensures
        outcome is Ok <==> url_parses(uri@),
{
    url::Url::parse(uri).map(|_| ())
}

/// Calls `oauth2::PkceCodeChallenge::new_random_sha256` and hands back the
/// challenge and the verifier as text.
///
/// Not proved, but taken from the crate's source: the verifier is 32 random
/// bytes in URL-safe base64 without padding, so 43 characters out of letters,
/// digits, `-` and `_`; and the challenge is what
/// `from_code_verifier_sha256` makes of that verifier.
#[verifier::external_body]
fn new_random_sha256() -> (pair: (String, String))
    ensures
        is_code_verifier(pair.1@),
        pair.0@ == pkce_challenge_of(pair.1@),
{
    let (challenge, verifier) = oauth2::PkceCodeChallenge::new_random_sha256();
    (challenge.as_str().to_string(), verifier.into_secret())
}

/// Makes the authorization URL with `oauth2`: `AuthUrl::new` and
/// `RedirectUrl::new` on the two URLs, `BasicClient::new` with `set_auth_uri`
/// and `set_redirect_uri`, then `authorize_url` with `CsrfToken::new_random`,
/// `add_scope`, `set_pkce_challenge` with the challenge that
/// `PkceCodeChallenge::from_code_verifier_sha256` derives from `verifier`, and
/// `url`. Hands back the URL and the CSRF token that was drawn.
///
/// Not proved, but taken from the crate's source: nothing comes back exactly
/// where one of the two URLs does not parse, and the URL depends on nothing
/// but the five texts given and the token drawn. A verifier of 43 to 128
/// bytes is required because `from_code_verifier_sha256` panics on any other.
#[verifier::external_body]
fn authorize_url(
    auth_url: &str,
    client_id: &str,
    redirect_uri: &str,
    scope: &str,
    verifier: &str,
) -> (request: Option<(String, String)>)
    requires
        is_code_verifier(verifier@),
    ensures
        request is Some <==> (url_parses(auth_url@) && url_parses(redirect_uri@)),
        request matches Some(made) ==> made.0@ == authorization_url(
            auth_url@,
            client_id@,
            redirect_uri@,
            scope@,
            verifier@,
            made.1@,
        ),
{
    let auth = oauth2::AuthUrl::new(auth_url.to_string()).ok()?;
    let redirect = oauth2::RedirectUrl::new(redirect_uri.to_string()).ok()?;
    let client = oauth2::basic::BasicClient::new(oauth2::ClientId::new(client_id.to_string()))
        .set_auth_uri(auth)
        .set_redirect_uri(redirect);
    let verifier = oauth2::PkceCodeVerifier::new(verifier.to_string());
    let (url, state) = client
        .authorize_url(oauth2::CsrfToken::new_random)
        .add_scope(oauth2::Scope::new(scope.to_string()))
        .set_pkce_challenge(oauth2::PkceCodeChallenge::from_code_verifier_sha256(&verifier))
        .url();
    Some((url.to_string(), state.into_secret()))
}

/// Calls `url::form_urlencoded::parse` on the bytes of the query string and
/// collects the pairs it yields, each as two owned strings. Not proved: that
/// the pairs depend on the query string alone.
#[verifier::external_body]
fn parse_query(query: &str) -> (pairs: Vec<(String, String)>)
    ensures
        pair_texts(pairs@) == query_pairs(query@),
{
    url::form_urlencoded::parse(query.as_bytes()).into_owned().collect()
}

/// What is wrong with an authorization URL.
#[derive(Debug, Clone, Copy, PartialEq, Eq, Structural)]
pub enum AuthUrlFault {
    /// The URL does not carry the PKCE challenge, or not as the one value of
    /// its `code_challenge` parameter.
    MissingChallenge,
    /// The URL does not say, once, that the challenge is an SHA-256 digest.
    WrongChallengeMethod,
    /// The URL does not ask for the scope, or not as the one value of its
    /// `scope` parameter.
    MissingScope,
    /// The URL holds the PKCE verifier, which must stay with the client.
    ExposesVerifier,
}

/// Why a login attempt failed.
#[derive(Debug)]
pub enum OAuthError {
    /// The authorization endpoint is not a URL.
    InvalidAuthUri { uri: String, e: url::ParseError },
    /// The token endpoint is not a URL.
    InvalidTokenUri { uri: String, e: url::ParseError },
    /// The redirect URI is not a URL.
    InvalidRedirectUri { uri: String, e: url::ParseError },
    /// The token endpoint did not give a token for the code.
    ExchangeCode { e: String },
    /// No code arrived from the callback endpoint.
    Recv { e: String },
    /// The callback endpoint could not be served.
    CouldNotStartServer { e: std::io::Error },
    /// The callback carried a `state` other than this attempt's CSRF token.
    StateMismatch,
    /// The authorization URL is not fit to be opened.
    AuthUrlRejected { fault: AuthUrlFault },
    /// An earlier login attempt had this loopback port; another is to be
    /// found.
    PortReused { port: u16 },
}

/// Where a login attempt stands.
#[derive(Debug, Clone, Copy, PartialEq, Eq, Structural)]
pub enum FlowState {
    /// Set up; nothing was shown to the user yet.
    Created,
    /// The authorization URL is open and the callback endpoint listens.
    AwaitingRedirect,
    /// The code is in; the token endpoint is being asked.
    Exchanging,
    /// A token was obtained.
    Succeeded,
    /// The attempt is over without a token.
    Failed,
}

/// What the callback endpoint took from the one redirect it accepts.
#[derive(Debug, Clone)]
pub struct CallbackResult {
    /// The `code` parameter; empty where the redirect had none.
    pub authorization_code: String,
    /// The `state` parameter, where the redirect had one.
    pub state: Option<String>,
}

/// What the token endpoint answered to a successful exchange.
#[derive(Debug, Clone)]
pub struct TokenResponse {
    pub access_token: String,
    pub token_type: String,
    pub expires_in: Option<u64>,
}

/// What is to be sent to the token endpoint, and how.
#[derive(Debug, Clone)]
pub struct ExchangeRequest {
    pub token_endpoint: String,
    pub client_id: String,
    pub redirect_uri: String,
    pub code: String,
    pub code_verifier: String,
    /// Whether the HTTP client may follow redirects. Never set: an answer
    /// that redirects counts as a failed exchange.
    pub follow_redirects: bool,
}

/// What happened outside since the last step of a login attempt.
#[derive(Debug)]
pub enum FlowEvent {
    /// Binding or serving the callback endpoint failed.
    ServerFailed { e: std::io::Error },
    /// The callback endpoint delivered what it took from the redirect.
    CallbackReceived(CallbackResult),
    /// The callback endpoint went away without delivering anything.
    ChannelClosed { e: String },
    /// The token endpoint gave a token.
    ExchangeFinished(TokenResponse),
    /// The token endpoint gave none: no connection, an answer other than
    /// success (a redirect among them), or a body that is no token.
    ExchangeFailed { e: String },
}

/// What the caller is to do next for a login attempt.
#[derive(Debug)]
pub enum FlowAction {
    /// Serve the callback endpoint on the loopback address at `port` and show
    /// `auth_url` to the user.
    Listen { port: u16, auth_url: String },
    /// Send this to the token endpoint.
    Exchange(ExchangeRequest),
    /// The attempt succeeded with this token.
    Finish(TokenResponse),
    /// The attempt failed.
    Abort(OAuthError),
    /// Nothing: the event does not concern the attempt in its present state.
    Wait,
}

/// Mathematical content of an [`OAuthFlow`].
pub struct AuthorizationRequest {
    pub authorization_endpoint: Seq<char>,
    pub token_endpoint: Seq<char>,
    pub client_id: Seq<char>,
    pub redirect_port: u16,
    pub redirect_uri: Seq<char>,
    pub csrf_token: Seq<char>,
    pub pkce_verifier: Seq<char>,
    pub pkce_challenge: Seq<char>,
    pub auth_url: Seq<char>,
    pub state: FlowState,
}

/// One login attempt.
pub struct OAuthFlow {
    auth_url: String,
    port: u16,
    authorization_endpoint: String,
    token_endpoint: String,
    client_id: String,
    redirect_uri: String,
    csrf_token: String,
    pkce_verifier: String,
    pkce_challenge: String,
    state: FlowState,
}

/// The redirect URI of the callback endpoint at `port`.
pub open spec fn redirect_uri_text(port: u16) -> Seq<char> {
    "http://127.0.0.1:"@ + decimal(port as nat) + CALLBACK_PATH@
}

/// The query parameter that carries `challenge`.
pub open spec fn challenge_parameter(challenge: Seq<char>) -> Seq<char> {
    "code_challenge="@ + challenge
}

/// The query parameter that asks for the scope.
pub open spec fn scope_parameter() -> Seq<char> {
    "scope="@ + SCOPE@
}

/// Whether `text` stands in the name or in the value of one of `pairs`.
pub open spec fn held_by(pairs: Seq<(Seq<char>, Seq<char>)>, text: Seq<char>) -> bool {
    exists|i: int|
        0 <= i < pairs.len() && (occurs_in(text, (#[trigger] pairs[i]).0) || occurs_in(
            text,
            pairs[i].1,
        ))
}

/// The first thing wrong with an authorization URL whose query holds the
/// parameters `pairs`, if anything is. The URL must carry the challenge, as
/// the one value of `code_challenge`; name the method once, as `S256`; ask for
/// the scope, as the one value of `scope`; and hold the verifier nowhere,
/// neither as it is written nor in a parameter once that is decoded.
pub open spec fn auth_url_fault_in(
    auth_url: Seq<char>,
    pairs: Seq<(Seq<char>, Seq<char>)>,
    challenge: Seq<char>,
    verifier: Seq<char>,
) -> Option<AuthUrlFault> {
    if !occurs_in(challenge_parameter(challenge), auth_url) || values_of(
        pairs,
        "code_challenge"@,
    ) != seq![challenge] {
        Some(AuthUrlFault::MissingChallenge)
    } else if values_of(pairs, "code_challenge_method"@) != seq![CHALLENGE_METHOD@] {
        Some(AuthUrlFault::WrongChallengeMethod)
    } else if !occurs_in(scope_parameter(), auth_url) || values_of(pairs, "scope"@) != seq![
        SCOPE@,
    ] {
        Some(AuthUrlFault::MissingScope)
    } else if occurs_in(verifier, auth_url) || held_by(pairs, verifier) {
        Some(AuthUrlFault::ExposesVerifier)
    } else {
        None
    }
}

/// The first thing wrong with an authorization URL, if anything is, with the
/// parameters read out of the URL's own query.
pub open spec fn auth_url_fault(
    auth_url: Seq<char>,
    challenge: Seq<char>,
    verifier: Seq<char>,
) -> Option<AuthUrlFault> {
    auth_url_fault_in(auth_url, query_pairs(query_part(auth_url)), challenge, verifier)
}

/// The redirect URI of the callback endpoint at `port`.
pub fn redirect_uri_for(port: u16) -> (uri: String)
    ensures
        uri@ == redirect_uri_text(port),
{
    let mut uri = String::from_str("http://127.0.0.1:");
    let digits = decimal_text(port);
    uri.append(digits.as_str());
    uri.append(CALLBACK_PATH);
    uri
}

/// Whether `text` is the one value that `pairs` give to the parameter `name`.
fn is_only_value(pairs: &Vec<(String, String)>, name: &str, text: &str) -> (yes: bool)
    ensures
        yes == (values_of(pair_texts(pairs@), name@) == seq![text@]),
{
    let values = find_values(pairs, name);
    let wanted = text.to_owned();
    let yes = values.len() == 1 && values[0] == wanted;
    proof {
        if yes {
            assert(texts(values@) =~= seq![text@]);
        } else if values.len() == 1 {
            assert(texts(values@)[0] == values@[0]@);
        } else {
            assert(texts(values@).len() != seq![text@].len());
        }
    }
    yes
}

/// Whether `text` stands in the name or in the value of one of `pairs`.
fn is_held_by(pairs: &Vec<(String, String)>, text: &str) -> (yes: bool)
    ensures
        yes == held_by(pair_texts(pairs@), text@),
{
    let mut i: usize = 0;
    while i < pairs.len()
        invariant
            0 <= i <= pairs.len(),
            forall|j: int|
                0 <= j < i ==> !occurs_in(text@, (#[trigger] pair_texts(pairs@)[j]).0)
                    && !occurs_in(text@, pair_texts(pairs@)[j].1),
        decreases pairs.len() - i,
    {
        if str_contains(pairs[i].0.as_str(), text) || str_contains(pairs[i].1.as_str(), text) {
            assert(pair_texts(pairs@)[i as int] == (pairs@[i as int].0@, pairs@[i as int].1@));
            return true;
        }
        assert(pair_texts(pairs@)[i as int] == (pairs@[i as int].0@, pairs@[i as int].1@));
        i += 1;
    }
    false
}

/// Looks over an authorization URL whose query holds the parameters `pairs`.
pub fn check_auth_url_with(
    auth_url: &str,
    pairs: &Vec<(String, String)>,
    challenge: &str,
    verifier: &str,
) -> (fault: Option<AuthUrlFault>)
    ensures
        fault == auth_url_fault_in(auth_url@, pair_texts(pairs@), challenge@, verifier@),
{
    let mut parameter = String::from_str("code_challenge=");
    parameter.append(challenge);
    if !str_contains(auth_url, parameter.as_str()) || !is_only_value(
        pairs,
        "code_challenge",
        challenge,
    ) {
        return Some(AuthUrlFault::MissingChallenge);
    }
    if !is_only_value(pairs, "code_challenge_method", CHALLENGE_METHOD) {
        return Some(AuthUrlFault::WrongChallengeMethod);
    }
    let mut scope = String::from_str("scope=");
    scope.append(SCOPE);
    if !str_contains(auth_url, scope.as_str()) || !is_only_value(pairs, "scope", SCOPE) {
        return Some(AuthUrlFault::MissingScope);
    }
    if str_contains(auth_url, verifier) || is_held_by(pairs, verifier) {
        return Some(AuthUrlFault::ExposesVerifier);
    }
    None
}

/// Looks an authorization URL over before it is shown to anybody: reads the
/// parameters out of its query and looks as [`check_auth_url_with`] does.
pub fn check_auth_url(auth_url: &str, challenge: &str, verifier: &str) -> (fault: Option<
    AuthUrlFault,
>)
    ensures
        fault == auth_url_fault(auth_url@, challenge@, verifier@),
{
    let query = query_of(auth_url);
    let pairs = parse_query(query.as_str());
    check_auth_url_with(auth_url, &pairs, challenge, verifier)
}

/// Whether the two endpoints and the redirect URI at `port` are all URLs.
pub open spec fn urls_parse(auth_url: Seq<char>, token_url: Seq<char>, port: u16) -> bool {
    url_parses(auth_url) && url_parses(token_url) && url_parses(redirect_uri_text(port))
}

impl View for OAuthFlow {
    type V = AuthorizationRequest;

    closed spec fn view(&self) -> AuthorizationRequest {
        AuthorizationRequest {
            authorization_endpoint: self.authorization_endpoint@,
            token_endpoint: self.token_endpoint@,
            client_id: self.client_id@,
            redirect_port: self.port,
            redirect_uri: self.redirect_uri@,
            csrf_token: self.csrf_token@,
            pkce_verifier: self.pkce_verifier@,
            pkce_challenge: self.pkce_challenge@,
            auth_url: self.auth_url@,
            state: self.state,
        }
    }
}

impl OAuthFlow {
    /// What holds of every login attempt: its authorization URL carries the
    /// challenge and the scope and does not hold the verifier, and its
    /// redirect URI is the callback endpoint at its port.
    #[verifier::type_invariant]
    closed spec fn well_formed(&self) -> bool {
        &&& auth_url_fault(self.auth_url@, self.pkce_challenge@, self.pkce_verifier@) is None
        &&& self.redirect_uri@ == redirect_uri_text(self.port)
    }

    /// Sets up a login attempt from what the outside gave: the endpoints and
    /// the client id, the loopback port that was found free, the PKCE pair,
    /// the CSRF token and the authorization URL made from all of these. The
    /// attempt is refused where the URL is not fit to be opened.
    pub fn assemble(
        auth_url: &str,
        token_url: &str,
        client_id: &str,
        port: u16,
        pkce_challenge: String,
        pkce_verifier: String,
        csrf_token: String,
        authorization_url: String,
    ) -> (flow: Result<OAuthFlow, OAuthError>)
        ensures
            match auth_url_fault(authorization_url@, pkce_challenge@, pkce_verifier@) {
                Some(found) => flow matches Err(OAuthError::AuthUrlRejected { fault })
                    && fault == found,
                None => flow matches Ok(made) && made@ == (AuthorizationRequest {
                    authorization_endpoint: auth_url@,
                    token_endpoint: token_url@,
                    client_id: client_id@,
                    redirect_port: port,
                    redirect_uri: redirect_uri_text(port),
                    csrf_token: csrf_token@,
                    pkce_verifier: pkce_verifier@,
                    pkce_challenge: pkce_challenge@,
                    auth_url: authorization_url@,
                    state: FlowState::Created,
                }),
            },
    {
        match check_auth_url(
            authorization_url.as_str(),
            pkce_challenge.as_str(),
            pkce_verifier.as_str(),
        ) {
            Some(fault) => Err(OAuthError::AuthUrlRejected { fault }),
            None => Ok(
                OAuthFlow {
                    auth_url: authorization_url,
                    port,
                    authorization_endpoint: auth_url.to_owned(),
                    token_endpoint: token_url.to_owned(),
                    client_id: client_id.to_owned(),
                    redirect_uri: redirect_uri_for(port),
                    csrf_token,
                    pkce_verifier,
                    pkce_challenge,
                    state: FlowState::Created,
                },
            ),
        }
    }

    /// Sets up a login attempt for the provider at `auth_url` and `token_url`,
    /// with the callback endpoint at `port` of the loopback address. Claims
    /// the port in `ledger`, draws a fresh PKCE pair and a fresh CSRF token
    /// and has the authorization URL made, with the one scope.
    ///
    /// Fails on the first of the two endpoints, then the redirect URI, that is
    /// not a URL; then where an earlier attempt of the same ledger had the
    /// port; and last where the URL that was made is not fit to be opened. So
    /// two attempts set up on one ledger never have the same port.
    pub fn new(
        auth_url: &str,
        token_url: &str,
        client_id: &str,
        port: u16,
        ledger: &mut PortLedger,
    ) -> (flow: Result<OAuthFlow, OAuthError>)
        ensures
            !url_parses(auth_url@) ==> (flow matches Err(OAuthError::InvalidAuthUri { uri, .. })
                && uri@ == auth_url@),
            url_parses(auth_url@) && !url_parses(token_url@) ==> (flow matches Err(
                OAuthError::InvalidTokenUri { uri, .. },
            ) && uri@ == token_url@),
            url_parses(auth_url@) && url_parses(token_url@) && !url_parses(
                redirect_uri_text(port),
            ) ==> (flow matches Err(OAuthError::InvalidRedirectUri { uri, .. }) && uri@
                == redirect_uri_text(port)),
            urls_parse(auth_url@, token_url@, port) && old(ledger)@.contains(port) ==> (
            flow matches Err(OAuthError::PortReused { port: reused }) && reused == port),
            urls_parse(auth_url@, token_url@, port) && !old(ledger)@.contains(port) ==> (flow
                is Ok || flow is Err && flow->Err_0 is AuthUrlRejected),
            final(ledger)@ == if urls_parse(auth_url@, token_url@, port) && !old(
                ledger,
            )@.contains(port) {
                old(ledger)@.push(port)
            } else {
                old(ledger)@
            },
            flow matches Ok(made) ==> {
                &&& !old(ledger)@.contains(port)
                &&& final(ledger)@.contains(port)
                &&& made@.authorization_endpoint == auth_url@
                &&& made@.token_endpoint == token_url@
                &&& made@.client_id == client_id@
                &&& made@.redirect_port == port
                &&& made@.redirect_uri == redirect_uri_text(port)
                &&& made@.state == FlowState::Created
                &&& is_code_verifier(made@.pkce_verifier)
                &&& made@.pkce_challenge == pkce_challenge_of(made@.pkce_verifier)
                &&& made@.auth_url == authorization_url(
                    auth_url@,
                    client_id@,
                    redirect_uri_text(port),
                    SCOPE@,
                    made@.pkce_verifier,
                    made@.csrf_token,
                )
                &&& auth_url_fault(made@.auth_url, made@.pkce_challenge, made@.pkce_verifier)
                    is None
            },
            flow matches Err(OAuthError::AuthUrlRejected { fault }) ==> exists|
                verifier: Seq<char>,
                state: Seq<char>,
            |
                auth_url_fault(
                    #[trigger] authorization_url(
                        auth_url@,
                        client_id@,
                        redirect_uri_text(port),
                        SCOPE@,
                        verifier,
                        state,
                    ),
                    pkce_challenge_of(verifier),
                    verifier,
                ) == Some(fault),
    {
        if let Err(e) = parse_url(auth_url) {
            return Err(OAuthError::InvalidAuthUri { uri: auth_url.to_owned(), e });
        }
        if let Err(e) = parse_url(token_url) {
            return Err(OAuthError::InvalidTokenUri { uri: token_url.to_owned(), e });
        }
        let redirect_uri = redirect_uri_for(port);
        if let Err(e) = parse_url(redirect_uri.as_str()) {
            return Err(OAuthError::InvalidRedirectUri { uri: redirect_uri, e });
        }
        if !ledger.claim(port) {
            return Err(OAuthError::PortReused { port });
        }
        proof {
            assert(ledger@[ledger@.len() - 1] == port);
        }
        let (pkce_challenge, pkce_verifier) = new_random_sha256();
        let made = authorize_url(
            auth_url,
            client_id,
            redirect_uri.as_str(),
            SCOPE,
            pkce_verifier.as_str(),
        );
        let (authorization_url, csrf_token) = made.unwrap();
        Self::assemble(
            auth_url,
            token_url,
            client_id,
            port,
            pkce_challenge,
            pkce_verifier,
            csrf_token,
            authorization_url,
        )
    }

    /// The URL to show to the user. It carries the PKCE challenge, as the one
    /// value of `code_challenge`, with `S256` as the method; it asks for the
    /// scope, as the one value of `scope`; and it does not hold the verifier,
    /// neither as written nor in a decoded parameter.
    pub fn get_auth_url(&self) -> (url: String)
        ensures
            url@ == self@.auth_url,
            auth_url_fault(url@, self@.pkce_challenge, self@.pkce_verifier) is None,
            occurs_in(challenge_parameter(self@.pkce_challenge), url@),
            occurs_in(scope_parameter(), url@),
            !occurs_in(self@.pkce_verifier, url@),
            values_of(query_pairs(query_part(url@)), "code_challenge"@) == seq![
                self@.pkce_challenge,
            ],
            values_of(query_pairs(query_part(url@)), "code_challenge_method"@) == seq![
                CHALLENGE_METHOD@,
            ],
            values_of(query_pairs(query_part(url@)), "scope"@) == seq![SCOPE@],
            !held_by(query_pairs(query_part(url@)), self@.pkce_verifier),
    {
        proof {
            use_type_invariant(self);
        }
        self.auth_url.clone()
    }

    /// Where the attempt stands.
    pub fn state(&self) -> (state: FlowState)
        ensures
            state == self@.state,
    {
        self.state
    }
}

/// Mathematical content of a [`CallbackResult`].
pub struct CallbackView {
    pub authorization_code: Seq<char>,
    pub state: Option<Seq<char>>,
}

impl View for CallbackResult {
    type V = CallbackView;

    open spec fn view(&self) -> CallbackView {
        CallbackView {
            authorization_code: self.authorization_code@,
            state: match self.state {
                Some(state) => Some(state@),
                None => None,
            },
        }
    }
}

/// The values that `pairs` give to the parameter `name`, in order.
pub open spec fn values_of(pairs: Seq<(Seq<char>, Seq<char>)>, name: Seq<char>) -> Seq<Seq<char>>
    decreases pairs.len(),
{
    if pairs.len() == 0 {
        Seq::empty()
    } else if pairs.last().0 == name {
        values_of(pairs.drop_last(), name).push(pairs.last().1)
    } else {
        values_of(pairs.drop_last(), name)
    }
}

/// What a redirect's query parameters say. A query that gives `code` or
/// `state` more than once says nothing; otherwise the code is the value of
/// `code`, or empty where there is none, and the state is the value of
/// `state`, where there is one. Other parameters do not count.
pub open spec fn read_callback(pairs: Seq<(Seq<char>, Seq<char>)>) -> Option<CallbackView> {
    let codes = values_of(pairs, "code"@);
    let states = values_of(pairs, "state"@);
    if codes.len() > 1 || states.len() > 1 {
        None
    } else {
        Some(
            CallbackView {
                authorization_code: if codes.len() == 1 {
                    codes[0]
                } else {
                    Seq::empty()
                },
                state: if states.len() == 1 {
                    Some(states[0])
                } else {
                    None
                },
            },
        )
    }
}

/// Whether an endpoint that is open or not accepts a request with the given
/// query parameters: it is open, and the query can be read.
pub open spec fn accepts(open: bool, pairs: Seq<(Seq<char>, Seq<char>)>) -> bool {
    open && read_callback(pairs) is Some
}

/// Whether an endpoint is open after a request: it was, and did not accept
/// the request. Once closed, it stays closed.
pub open spec fn open_after(open: bool, pairs: Seq<(Seq<char>, Seq<char>)>) -> bool {
    open && !accepts(open, pairs)
}

/// The values that `pairs` give to the parameter `name`, in order.
fn find_values(pairs: &Vec<(String, String)>, name: &str) -> (values: Vec<String>)
    ensures
        texts(values@) == values_of(pair_texts(pairs@), name@),
{
    let ghost all = pair_texts(pairs@);
    let wanted = name.to_owned();
    let mut values: Vec<String> = Vec::new();
    let mut i: usize = 0;
    assert(all.take(0) =~= Seq::<(Seq<char>, Seq<char>)>::empty());
    assert(texts(values@) =~= Seq::<Seq<char>>::empty());
    while i < pairs.len()
        invariant
            0 <= i <= pairs.len(),
            all == pair_texts(pairs@),
            wanted@ == name@,
            texts(values@) == values_of(all.take(i as int), name@),
        decreases pairs.len() - i,
    {
        let ghost before = texts(values@);
        proof {
            let longer = all.take(i + 1);
            assert(longer.drop_last() =~= all.take(i as int));
            assert(longer.last() == (pairs@[i as int].0@, pairs@[i as int].1@));
        }
        if pairs[i].0 == wanted {
            values.push(pairs[i].1.clone());
            assert(texts(values@) =~= before.push(pairs@[i as int].1@));
        }
        i += 1;
    }
    assert(all.take(pairs.len() as int) =~= all);
    values
}

/// The local endpoint that takes the redirect. It accepts one redirect and
/// turns every later one away.
#[derive(Debug)]
pub struct CallbackServer {
    open: bool,
}

/// What the endpoint answers to one request.
#[derive(Debug)]
pub enum CallbackReply {
    /// The redirect was accepted; what it carried is to be handed to the
    /// login attempt, and the endpoint can shut down.
    Accepted(CallbackResult),
    /// A redirect was accepted before: this one is turned away.
    AlreadyUsed,
    /// The query cannot be read; the endpoint stays as it was.
    BadQuery,
}

impl CallbackReply {
    /// The HTTP status of the answer.
    pub fn status(&self) -> (status: u16)
        ensures
            status == match *self {
                CallbackReply::Accepted(_) => 200u16,
                CallbackReply::AlreadyUsed => 500u16,
                CallbackReply::BadQuery => 400u16,
            },
    {
        match self {
            CallbackReply::Accepted(_) => 200,
            CallbackReply::AlreadyUsed => 500,
            CallbackReply::BadQuery => 400,
        }
    }

    /// The body of the answer.
    pub fn body(&self) -> (body: &'static str)
        ensures
            body@ == match *self {
                CallbackReply::Accepted(_) => ACCEPTED_BODY@,
                CallbackReply::AlreadyUsed => ALREADY_USED_BODY@,
                CallbackReply::BadQuery => BAD_QUERY_BODY@,
            },
    {
        match self {
            CallbackReply::Accepted(_) => ACCEPTED_BODY,
            CallbackReply::AlreadyUsed => ALREADY_USED_BODY,
            CallbackReply::BadQuery => BAD_QUERY_BODY,
        }
    }
}

impl CallbackServer {
    /// Whether the endpoint still waits for its one redirect.
    pub closed spec fn is_open(&self) -> bool {
        self.open
    }

    /// An endpoint that waits for its one redirect.
    pub fn new() -> (server: Self)
        ensures
            server.is_open(),
    {
        CallbackServer { open: true }
    }

    /// Whether the endpoint still waits for its one redirect. Once it does
    /// not, it can shut down.
    pub fn awaits_redirect(&self) -> (open: bool)
        ensures
            open == self.is_open(),
    {
        self.open
    }

    /// Answers a request with the given query parameters. A query that
    /// cannot be read changes nothing. The first that can be read is
    /// accepted and closes the endpoint; every one after it is turned away.
    pub fn answer(&mut self, pairs: &Vec<(String, String)>) -> (reply: CallbackReply)
        ensures
            final(self).is_open() == open_after(old(self).is_open(), pair_texts(pairs@)),
            match read_callback(pair_texts(pairs@)) {
                None => reply is BadQuery,
                Some(found) => if old(self).is_open() {
                    reply matches CallbackReply::Accepted(result) && result@ == found
                } else {
                    reply is AlreadyUsed
                },
            },
    {
        let mut codes = find_values(pairs, "code");
        let mut states = find_values(pairs, "state");
        if codes.len() > 1 || states.len() > 1 {
            return CallbackReply::BadQuery;
        }
        if !self.open {
            return CallbackReply::AlreadyUsed;
        }
        self.open = false;
        let authorization_code = match codes.pop() {
            Some(code) => code,
            None => String::new(),
        };
        let state = states.pop();
        CallbackReply::Accepted(CallbackResult { authorization_code, state })
    }

    /// Answers a request with the given query string: reads the parameters
    /// out of it and answers as [`CallbackServer::answer`] does.
    pub fn handle(&mut self, query: &str) -> (reply: CallbackReply)
        ensures
            final(self).is_open() == open_after(old(self).is_open(), query_pairs(query@)),
            match read_callback(query_pairs(query@)) {
                None => reply is BadQuery,
                Some(found) => if old(self).is_open() {
                    reply matches CallbackReply::Accepted(result) && result@ == found
                } else {
                    reply is AlreadyUsed
                },
            },
    {
        let pairs = parse_query(query);
        self.answer(&pairs)
    }
}

/// How many of `requests`, answered one after the other by an endpoint that
/// starts out open or not, are accepted.
pub open spec fn accepted_count(open: bool, requests: Seq<Seq<(Seq<char>, Seq<char>)>>) -> nat
    decreases requests.len(),
{
    if requests.len() == 0 {
        0
    } else {
        let rest = accepted_count(open_after(open, requests.first()), requests.drop_first());
        if accepts(open, requests.first()) {
            1 + rest
        } else {
            rest
        }
    }
}

/// Whatever requests arrive and in whatever order, an endpoint accepts at most
/// one of them, and none once it is closed.
pub proof fn lemma_at_most_one_redirect_is_accepted(
    open: bool,
    requests: Seq<Seq<(Seq<char>, Seq<char>)>>,
)
    ensures
        accepted_count(open, requests) <= 1,
        !open ==> accepted_count(open, requests) == 0,
    decreases requests.len(),
{
    if requests.len() > 0 {
        lemma_at_most_one_redirect_is_accepted(
            open_after(open, requests.first()),
            requests.drop_first(),
        );
    }
}

/// Whether the state that a redirect carried, if it carried one, is the CSRF
/// token of the attempt.
pub open spec fn state_is_ours(request: AuthorizationRequest, result: CallbackView) -> bool {
    result.state matches Some(state) ==> state == request.csrf_token
}

/// Where an attempt stands after an event.
pub open spec fn next_state(request: AuthorizationRequest, event: FlowEvent) -> FlowState {
    match request.state {
        FlowState::AwaitingRedirect => match event {
            FlowEvent::ServerFailed { .. } => FlowState::Failed,
            FlowEvent::ChannelClosed { .. } => FlowState::Failed,
            FlowEvent::CallbackReceived(result) => if state_is_ours(request, result@) {
                FlowState::Exchanging
            } else {
                FlowState::Failed
            },
            _ => FlowState::AwaitingRedirect,
        },
        FlowState::Exchanging => match event {
            FlowEvent::ExchangeFinished(_) => FlowState::Succeeded,
            FlowEvent::ExchangeFailed { .. } => FlowState::Failed,
            _ => FlowState::Exchanging,
        },
        state => state,
    }
}

/// Whether `exchange` is what this attempt sends to the token endpoint for
/// `code`: the attempt's own endpoint, client id, redirect URI and verifier,
/// the code as it came, and no following of redirects.
pub open spec fn is_exchange_for(
    request: AuthorizationRequest,
    code: Seq<char>,
    exchange: ExchangeRequest,
) -> bool {
    &&& exchange.token_endpoint@ == request.token_endpoint
    &&& exchange.client_id@ == request.client_id
    &&& exchange.redirect_uri@ == request.redirect_uri
    &&& exchange.code@ == code
    &&& exchange.code_verifier@ == request.pkce_verifier
    &&& !exchange.follow_redirects
}

/// Whether `action` is what the caller is to do after `event` reached an
/// attempt that stood as `request` says.
pub open spec fn is_action_for(
    request: AuthorizationRequest,
    event: FlowEvent,
    action: FlowAction,
) -> bool {
    match request.state {
        FlowState::AwaitingRedirect => match event {
            FlowEvent::ServerFailed { e } => action matches FlowAction::Abort(
                OAuthError::CouldNotStartServer { e: cause },
            ) && cause == e,
            FlowEvent::ChannelClosed { e } => action matches FlowAction::Abort(
                OAuthError::Recv { e: cause },
            ) && cause == e,
            FlowEvent::CallbackReceived(result) => if state_is_ours(request, result@) {
                action matches FlowAction::Exchange(exchange) && is_exchange_for(
                    request,
                    result.authorization_code@,
                    exchange,
                )
            } else {
                action matches FlowAction::Abort(OAuthError::StateMismatch)
            },
            _ => action is Wait,
        },
        FlowState::Exchanging => match event {
            FlowEvent::ExchangeFinished(token) => action matches FlowAction::Finish(given)
                && given == token,
            FlowEvent::ExchangeFailed { e } => action matches FlowAction::Abort(
                OAuthError::ExchangeCode { e: cause },
            ) && cause == e,
            _ => action is Wait,
        },
        _ => action is Wait,
    }
}

impl OAuthFlow {
    /// Begins the attempt: the caller is to serve the callback endpoint and
    /// show the authorization URL. An attempt that was begun before stays as
    /// it is, and nothing is to be done.
    pub fn start(&mut self) -> (action: FlowAction)
        ensures
            old(self)@.state == FlowState::Created ==> {
                &&& final(self)@ == (AuthorizationRequest {
                    state: FlowState::AwaitingRedirect,
                    ..old(self)@
                })
                &&& action matches FlowAction::Listen { port, auth_url }
                &&& port == old(self)@.redirect_port
                &&& auth_url@ == old(self)@.auth_url
            },
            old(self)@.state != FlowState::Created ==> final(self)@ == old(self)@ && action is Wait,
    {
        proof {
            use_type_invariant(&*self);
        }
        match self.state {
            FlowState::Created => {
                self.state = FlowState::AwaitingRedirect;
                FlowAction::Listen { port: self.port, auth_url: self.auth_url.clone() }
            },
            _ => FlowAction::Wait,
        }
    }

    /// Takes an event and says what is to be done next. While the redirect is
    /// awaited, a redirect whose state is this attempt's own, or that has
    /// none, leads to the exchange; one with another state, a failure of the
    /// endpoint and a lost channel end the attempt. While the exchange runs,
    /// its outcome ends the attempt. Every other event changes nothing: an
    /// attempt that has ended stays ended, so a retry takes a new attempt.
    pub fn advance(&mut self, event: FlowEvent) -> (action: FlowAction)
        ensures
            final(self)@ == (AuthorizationRequest {
                state: next_state(old(self)@, event),
                ..old(self)@
            }),
            is_action_for(old(self)@, event, action),
    {
        proof {
            use_type_invariant(&*self);
        }
        match self.state {
            FlowState::AwaitingRedirect => match event {
                FlowEvent::ServerFailed { e } => {
                    self.state = FlowState::Failed;
                    FlowAction::Abort(OAuthError::CouldNotStartServer { e })
                },
                FlowEvent::ChannelClosed { e } => {
                    self.state = FlowState::Failed;
                    FlowAction::Abort(OAuthError::Recv { e })
                },
                FlowEvent::CallbackReceived(result) => {
                    let ours = match &result.state {
                        Some(state) => *state == self.csrf_token,
                        None => true,
                    };
                    if ours {
                        self.state = FlowState::Exchanging;
                        FlowAction::Exchange(
                            ExchangeRequest {
                                token_endpoint: self.token_endpoint.clone(),
                                client_id: self.client_id.clone(),
                                redirect_uri: self.redirect_uri.clone(),
                                code: result.authorization_code,
                                code_verifier: self.pkce_verifier.clone(),
                                follow_redirects: false,
                            },
                        )
                    } else {
                        self.state = FlowState::Failed;
                        FlowAction::Abort(OAuthError::StateMismatch)
                    }
                },
                _ => FlowAction::Wait,
            },
            FlowState::Exchanging => match event {
                FlowEvent::ExchangeFinished(token) => {
                    self.state = FlowState::Succeeded;
                    FlowAction::Finish(token)
                },
                FlowEvent::ExchangeFailed { e } => {
                    self.state = FlowState::Failed;
                    FlowAction::Abort(OAuthError::ExchangeCode { e })
                },
                _ => FlowAction::Wait,
            },
            _ => FlowAction::Wait,
        }
    }
}

/// An attempt reaches the exchange only from waiting for the redirect, and
/// only by a redirect whose state, if it has one, is the attempt's own.
pub proof fn lemma_exchange_follows_redirect(request: AuthorizationRequest, event: FlowEvent)
    requires
        request.state != FlowState::Exchanging,
        next_state(request, event) == FlowState::Exchanging,
    ensures
        request.state == FlowState::AwaitingRedirect,
        event matches FlowEvent::CallbackReceived(result) && state_is_ours(request, result@),
{
}

/// An attempt that has ended stays as it ended, whatever happens.
pub proof fn lemma_ended_attempt_stays_ended(request: AuthorizationRequest, event: FlowEvent)
    requires
        request.state == FlowState::Succeeded || request.state == FlowState::Failed,
    ensures
        next_state(request, event) == request.state,
{
}

/// The loopback ports that login attempts were given so far. An attempt takes
/// a port only after claiming it here, so that no two attempts share one.
#[derive(Debug)]
pub struct PortLedger {
    claimed: Vec<u16>,
}

impl View for PortLedger {
    type V = Seq<u16>;

    /// The ports claimed so far, first claim first.
    closed spec fn view(&self) -> Seq<u16> {
        self.claimed@
    }
}

impl PortLedger {
    /// A ledger without claims.
    pub fn new() -> (ledger: Self)
        ensures
            ledger@ == Seq::<u16>::empty(),
    {
        PortLedger { claimed: Vec::new() }
    }

    /// Whether `port` was claimed before.
    pub fn is_claimed(&self, port: u16) -> (claimed: bool)
        ensures
            claimed == self@.contains(port),
    {
        let mut i: usize = 0;
        while i < self.claimed.len()
            invariant
                0 <= i <= self.claimed.len(),
                forall|j: int| 0 <= j < i ==> self.claimed@[j] != port,
            decreases self.claimed.len() - i,
        {
            if self.claimed[i] == port {
                return true;
            }
            i += 1;
        }
        false
    }

    /// Claims `port` for a new login attempt. The claim holds, and is noted,
    /// exactly when no earlier attempt was given that port; otherwise the
    /// caller is to find another port.
    pub fn claim(&mut self, port: u16) -> (fresh: bool)
        ensures
            fresh == !old(self)@.contains(port),
            final(self)@ == if fresh {
                old(self)@.push(port)
            } else {
                old(self)@
            },
    {
        if self.is_claimed(port) {
            false
        } else {
            self.claimed.push(port);
            true
        }
    }
}

/// How a series of claims goes on a ledger that holds `claimed`: the ports
/// among `wanted` whose claim holds, in order.
pub open spec fn granted(claimed: Seq<u16>, wanted: Seq<u16>) -> Seq<u16>
    decreases wanted.len(),
{
    if wanted.len() == 0 {
        Seq::empty()
    } else if claimed.contains(wanted.first()) {
        granted(claimed, wanted.drop_first())
    } else {
        seq![wanted.first()] + granted(claimed.push(wanted.first()), wanted.drop_first())
    }
}

/// Whatever ports are asked for and in whatever order, no port is granted
/// twice, and none that was claimed before: login attempts that take their
/// ports from one ledger never share a port.
pub proof fn lemma_granted_ports_are_fresh(claimed: Seq<u16>, wanted: Seq<u16>)
    ensures
        granted(claimed, wanted).no_duplicates(),
        forall|i: int|
            0 <= i < granted(claimed, wanted).len() ==> !claimed.contains(
                #[trigger] granted(claimed, wanted)[i],
            ),
    decreases wanted.len(),
{
    if wanted.len() > 0 {
        let first = wanted.first();
        if claimed.contains(first) {
            lemma_granted_ports_are_fresh(claimed, wanted.drop_first());
        } else {
            let rest = granted(claimed.push(first), wanted.drop_first());
            lemma_granted_ports_are_fresh(claimed.push(first), wanted.drop_first());
            let all = granted(claimed, wanted);
            assert(all == seq![first] + rest);
            assert(claimed.push(first).contains(first)) by {
                assert(claimed.push(first)[claimed.len() as int] == first);
            }
            assert forall|i: int| 0 <= i < rest.len() implies rest[i] != first
                && !claimed.contains(rest[i]) by {
                assert(!claimed.push(first).contains(rest[i]));
                if claimed.contains(rest[i]) {
                    let k = choose|k: int| 0 <= k < claimed.len() && claimed[k] == rest[i];
                    assert(claimed.push(first)[k] == rest[i]);
                }
            }
            assert forall|i: int, j: int| 0 <= i < all.len() && 0 <= j < all.len() && i != j
                implies all[i] != all[j] by {
                if i > 0 && j > 0 {
                    assert(all[i] == rest[i - 1] && all[j] == rest[j - 1]);
                } else if i == 0 {
                    assert(all[j] == rest[j - 1]);
                } else {
                    assert(all[i] == rest[i - 1]);
                }
            }
            assert forall|i: int| 0 <= i < all.len() implies !claimed.contains(
                #[trigger] all[i],
            ) by {
                if i > 0 {
                    assert(all[i] == rest[i - 1]);
                }
            }
        }
    }
}

/// Two login attempts set up one after the other on one ledger have different
/// ports: the first left its port in the ledger, claims stay in a ledger, and
/// the second was set up on a port that the ledger did not hold.
pub proof fn lemma_later_attempt_has_another_port(
    after_first: Seq<u16>,
    before_second: Seq<u16>,
    first: u16,
    second: u16,
)
    requires
        after_first.contains(first),
        after_first.is_prefix_of(before_second),
        !before_second.contains(second),
    ensures
        first != second,
{
    let at = choose|at: int| 0 <= at < after_first.len() && after_first[at] == first;
    assert(before_second[at] == first);
}

} // verus!
