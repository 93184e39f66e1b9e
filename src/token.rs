use vstd::prelude::*;

verus! {

/// Path of the refresh endpoint under the auth server's base URL.
pub const REFRESH_PATH: &'static str = "/api/auth/session/refresh";

/// Name and value of the header that marks a session request.
pub const SESSION_KIND_HEADER: &'static str = "rid";

pub const SESSION_KIND_VALUE: &'static str = "session";

/// Response header holding the new access token.
pub const ACCESS_TOKEN_HEADER: &'static str = "st-access-token";

/// Response header holding the new refresh token.
pub const REFRESH_TOKEN_HEADER: &'static str = "st-refresh-token";

/// Seconds before expiry at which an access token is refreshed.
pub const REFRESH_MARGIN_SECS: u64 = 60;

/// What base64url without padding decodes a string to, if it is valid.
pub uninterp spec fn base64url_decoded(s: Seq<char>) -> Option<Seq<u8>>;

/// The integer `exp` field of a JSON object, if the bytes hold one.
pub uninterp spec fn exp_claim_of(json: Seq<u8>) -> Option<i64>;

/// Relies on `base64::Engine::decode` with `BASE64_URL_SAFE_NO_PAD`.
#[verifier::external_body]
fn decode_base64url(s: &str) -> (r: Option<Vec<u8>>)
    ensures
        match r {
            Some(v) => base64url_decoded(s@) == Some(v@),
            None => base64url_decoded(s@) is None,
        },
{
    base64::Engine::decode(&base64::prelude::BASE64_URL_SAFE_NO_PAD, s).ok()
}

/// Relies on `serde_json::from_slice`: the bytes parse as a JSON object whose
/// `exp` member is an integer that fits in an `i64`.
#[verifier::external_body]
fn read_exp_claim(json: &[u8]) -> (r: Option<i64>)
    ensures
        r == exp_claim_of(json@),
{
    serde_json::from_slice::<serde_json::Value>(json).ok().and_then(|v| v.get("exp").and_then(serde_json::Value::as_i64))
}

/// A short-lived bearer credential.
#[derive(Debug, Clone, PartialEq, Eq)]
pub struct AccessToken(pub String);

/// A single-use credential exchanged for a new token pair.
#[derive(Debug, Clone, PartialEq, Eq)]
pub struct RefreshToken(pub String);

/// When the next refresh is due after a successful `init`.
#[derive(Debug, Clone, Copy, PartialEq, Eq, Structural)]
pub enum RefreshPlan {
    /// The token expires within the margin: refresh now.
    Immediately,
    /// Refresh after this many seconds.
    After(u64),
}

/// Failures of `init` and of a refresh.
#[derive(Debug, Clone, Copy, PartialEq, Eq, Structural)]
pub enum TokenError {
    /// The access token is not base64url-encoded JSON with an integer `exp`.
    InvalidAccessToken,
    /// The access token has already expired.
    TokenExpired,
    /// The refresh request could not be sent or answered.
    RefreshTokenRequest,
    /// The auth server answered with a status outside 2xx.
    AuthServerError(u16),
    /// A successful answer lacked one of the two token headers.
    MissingTokensOnRefreshResponse,
    /// A token header was not visible ASCII text.
    InvalidTokenHeader,
    /// A refresh answer that does not answer the refresh under way (it
    /// answers an earlier one, or none is under way); it is ignored.
    StaleRefreshAnswer,
}

/// Why no access token can be handed out.
#[derive(Debug, Clone, Copy, PartialEq, Eq, Structural)]
pub enum GetTokenError {
    /// `init` was never called successfully.
    RefresherNotInitialized,
    /// A refresh is under way or has failed; a new `init` is needed after a failure.
    FailedToRefresh,
}

/// One token header of a refresh answer.
#[derive(Debug, Clone, PartialEq, Eq)]
pub enum HeaderField {
    Absent,
    /// Present, but not readable as text.
    Unreadable,
    Text(String),
}

/// How a refresh request ended.
#[derive(Debug, Clone, PartialEq, Eq)]
pub enum RefreshReply {
    /// No answer came back.
    RequestFailed,
    /// An answer with this status and these token headers.
    Received { status: u16, access: HeaderField, refresh: HeaderField },
}

/// The session as plain values.
pub struct TokenState {
    pub initialized: bool,
    pub access: Option<Seq<char>>,
    pub refresh: Option<Seq<char>>,
    /// A refresh request is out and its answer is awaited.
    pub refreshing: bool,
    /// Raised by every `init` and every refresh that starts; an answer is
    /// taken only for the refresh of the current generation.
    pub generation: u64,
}

/// What the session holds.
#[derive(Debug)]
enum Session {
    /// No tokens: before `init`, or after a failed refresh.
    Idle,
    /// A token pair of one generation.
    Held(AccessToken, RefreshToken),
    /// The refresh token was sent; no token is held until the answer.
    Refreshing,
}

/// Owner of the current access and refresh tokens. All reads and writes go
/// through one owner, one event at a time, so a reader never sees an access
/// token next to a refresh token of another generation.
///
/// Refreshes are planned by `init` only: a successful refresh does not plan
/// the next one, so without a new `init` the session is refreshed
/// automatically at most once.
#[derive(Debug)]
pub struct TokenRefresher {
    initialized: bool,
    session: Session,
    generation: u64,
}

impl View for TokenRefresher {
    type V = TokenState;

    closed spec fn view(&self) -> TokenState {
        TokenState {
            initialized: self.initialized,
            access: match self.session {
                Session::Held(a, _) => Some(a.0@),
                _ => None,
            },
            refresh: match self.session {
                Session::Held(_, r) => Some(r.0@),
                _ => None,
            },
            refreshing: self.session is Refreshing,
            generation: self.generation,
        }
    }
}

/// Both tokens are held, or neither is.
pub open spec fn paired(s: TokenState) -> bool {
    s.access.is_some() == s.refresh.is_some()
}

/// A consistent session: the tokens come as a pair, and none is held while
/// a refresh is under way.
pub open spec fn valid(s: TokenState) -> bool {
    &&& paired(s)
    &&& s.refreshing ==> s.refresh is None
}

/// The state before any `init`.
pub open spec fn fresh_state() -> TokenState {
    TokenState { initialized: false, access: None, refresh: None, refreshing: false, generation: 0 }
}

/// The generation after `g`.
pub open spec fn next_generation(g: u64) -> u64 {
    if g == u64::MAX {
        0
    } else {
        (g + 1) as u64
    }
}

/// What a reader is told in state `s`.
pub open spec fn read(s: TokenState) -> Result<Seq<char>, GetTokenError> {
    match s.access {
        Some(a) => Ok(a),
        None => if s.initialized {
            Err(GetTokenError::FailedToRefresh)
        } else {
            Err(GetTokenError::RefresherNotInitialized)
        },
    }
}

/// The refresh plan for a token with `remaining` seconds left.
pub open spec fn plan_for(remaining: int) -> Result<RefreshPlan, TokenError> {
    if remaining <= 0 {
        Err(TokenError::TokenExpired)
    } else if remaining < REFRESH_MARGIN_SECS {
        Ok(RefreshPlan::Immediately)
    } else {
        Ok(RefreshPlan::After((remaining - REFRESH_MARGIN_SECS) as u64))
    }
}

/// The expiry claimed by an access token, if it can be read.
pub open spec fn token_exp(access: Seq<char>) -> Option<i64> {
    match base64url_decoded(access) {
        Some(b) => exp_claim_of(b),
        None => None,
    }
}

/// What `init` answers for this access token at time `now`.
pub open spec fn init_outcome(access: Seq<char>, now: i64) -> Result<RefreshPlan, TokenError> {
    match token_exp(access) {
        Some(exp) => plan_for(exp - now),
        None => Err(TokenError::InvalidAccessToken),
    }
}

/// The state after `init`: the new pair of a new generation on success, `s`
/// unchanged otherwise.
pub open spec fn after_init(s: TokenState, access: Seq<char>, refresh: Seq<char>, now: i64) -> TokenState {
    if init_outcome(access, now) is Ok {
        TokenState {
            initialized: true,
            access: Some(access),
            refresh: Some(refresh),
            refreshing: false,
            generation: next_generation(s.generation),
        }
    } else {
        s
    }
}

/// The `Authorization` value that presents a refresh token.
pub open spec fn bearer(refresh: Seq<char>) -> Seq<char> {
    "Bearer "@ + refresh
}

/// The request that a refresh falling due sends in state `s`: the
/// `Authorization` value and the generation of the new refresh. None while
/// a refresh is under way or when no refresh token is held.
pub open spec fn refresh_request(s: TokenState) -> Option<(Seq<char>, u64)> {
    if s.refreshing {
        None
    } else {
        match s.refresh {
            Some(t) => Some((bearer(t), next_generation(s.generation))),
            None => None,
        }
    }
}

/// The state once a refresh falls due: the access token is dropped, the
/// refresh token is taken, and a refresh of a new generation is under way.
/// While one is under way, a further trigger changes nothing.
pub open spec fn after_begin(s: TokenState) -> TokenState {
    if s.refreshing {
        s
    } else if s.refresh is Some {
        TokenState {
            initialized: s.initialized,
            access: None,
            refresh: None,
            refreshing: true,
            generation: next_generation(s.generation),
        }
    } else {
        TokenState { access: None, ..s }
    }
}

/// The token pair that a refresh answer carries, or why it carries none.
pub open spec fn reply_tokens(reply: RefreshReply) -> Result<(Seq<char>, Seq<char>), TokenError> {
    match reply {
        RefreshReply::RequestFailed => Err(TokenError::RefreshTokenRequest),
        RefreshReply::Received { status, access, refresh } => {
            if !(200 <= status < 300) {
                Err(TokenError::AuthServerError(status))
            } else if access is Absent || refresh is Absent {
                Err(TokenError::MissingTokensOnRefreshResponse)
            } else {
                match (access, refresh) {
                    (HeaderField::Text(a), HeaderField::Text(r)) => Ok((a@, r@)),
                    _ => Err(TokenError::InvalidTokenHeader),
                }
            }
        },
    }
}

/// Whether an answer for generation `g` answers the refresh under way in `s`.
pub open spec fn answers_current(s: TokenState, g: u64) -> bool {
    s.refreshing && g == s.generation
}

/// What an answer for the refresh of generation `g` gives in state `s`.
pub open spec fn finish_outcome(s: TokenState, g: u64, reply: RefreshReply) -> Result<(), TokenError> {
    if !answers_current(s, g) {
        Err(TokenError::StaleRefreshAnswer)
    } else {
        match reply_tokens(reply) {
            Ok(_) => Ok(()),
            Err(e) => Err(e),
        }
    }
}

/// The state after an answer for the refresh of generation `g`: the new pair
/// together, or no tokens; the refresh is over either way. An answer to any
/// other refresh changes nothing.
pub open spec fn after_finish(s: TokenState, g: u64, reply: RefreshReply) -> TokenState {
    if !answers_current(s, g) {
        s
    } else {
        match reply_tokens(reply) {
            Ok((a, r)) => TokenState {
                initialized: s.initialized,
                access: Some(a),
                refresh: Some(r),
                refreshing: false,
                generation: s.generation,
            },
            Err(_) => TokenState { access: None, refresh: None, refreshing: false, ..s },
        }
    }
}

fn next_generation_of(g: u64) -> (r: u64)
    ensures
        r == next_generation(g),
{
    if g == u64::MAX {
        0
    } else {
        g + 1
    }
}

/// Reads the expiry claim of an access token.
pub fn access_token_exp(access: &AccessToken) -> (r: Option<i64>)
    ensures
        r == token_exp(access.0@),
{
    match decode_base64url(access.0.as_str()) {
        Some(bytes) => read_exp_claim(bytes.as_slice()),
        None => None,
    }
}

/// The refresh plan for a token expiring at `exp`, seen at `now`.
pub fn plan_refresh(exp: i64, now: i64) -> (r: Result<RefreshPlan, TokenError>)
    ensures
        r == plan_for(exp - now),
{
    let remaining: i128 = exp as i128 - now as i128;
    if remaining <= 0 {
        Err(TokenError::TokenExpired)
    } else if remaining < REFRESH_MARGIN_SECS as i128 {
        Ok(RefreshPlan::Immediately)
    } else {
        Ok(RefreshPlan::After((remaining - REFRESH_MARGIN_SECS as i128) as u64))
    }
}

impl TokenRefresher {
    /// A refresher that holds no tokens and was never initialized.
    pub fn new() -> (r: Self)
        ensures
            r@ == fresh_state(),
            valid(r@),
    {
        TokenRefresher { initialized: false, session: Session::Idle, generation: 0 }
    }

    /// Whether the session is consistent; it always is.
    pub proof fn lemma_valid(&self)
        ensures
            valid(self@),
    {
    }

    /// Starts a session from a token pair at time `now` (seconds since the
    /// epoch). On success the pair replaces whatever was held, any refresh
    /// under way is disowned, and the answer says when to refresh; on failure
    /// nothing changes.
    pub fn init(&mut self, access_token: AccessToken, refresh_token: RefreshToken, now: i64) -> (r:
        Result<RefreshPlan, TokenError>)
        ensures
            r == init_outcome(access_token.0@, now),
            final(self)@ == after_init(old(self)@, access_token.0@, refresh_token.0@, now),
            valid(final(self)@),
    {
        let exp = match access_token_exp(&access_token) {
            Some(exp) => exp,
            None => return Err(TokenError::InvalidAccessToken),
        };
        let plan = plan_refresh(exp, now);
        if plan.is_ok() {
            self.initialized = true;
            self.session = Session::Held(access_token, refresh_token);
            self.generation = next_generation_of(self.generation);
        }
        plan
    }

    /// A copy of the current access token, or why there is none.
    pub fn get_access_token(&self) -> (r: Result<AccessToken, GetTokenError>)
        ensures
            match r {
                Ok(t) => read(self@) == Ok::<Seq<char>, GetTokenError>(t.0@),
                Err(e) => read(self@) == Err::<Seq<char>, GetTokenError>(e),
            },
    {
        match &self.session {
            Session::Held(t, _) => Ok(AccessToken(t.0.clone())),
            _ => if self.initialized {
                Err(GetTokenError::FailedToRefresh)
            } else {
                Err(GetTokenError::RefresherNotInitialized)
            },
        }
    }

    /// Starts a refresh: the access token is dropped, the refresh token is
    /// taken, and the `Authorization` value to send is returned with the
    /// generation that the answer must carry. `None` when a refresh is
    /// already under way or no refresh token is held.
    pub fn begin_refresh(&mut self) -> (r: Option<(String, u64)>)
        ensures
            final(self)@ == after_begin(old(self)@),
            valid(final(self)@),
            match refresh_request(old(self)@) {
                Some((h, g)) => r matches Some((h2, g2)) && h2@ == h && g2 == g,
                None => r is None,
            },
    {
        let header = match &self.session {
            Session::Held(_, t) => String::from_str("Bearer ").concat(t.0.as_str()),
            _ => return None,
        };
        self.session = Session::Refreshing;
        self.generation = next_generation_of(self.generation);
        Some((header, self.generation))
    }

    /// Whether a refresh request is out and its answer awaited.
    pub fn is_refreshing(&self) -> (r: bool)
        ensures
            r == self@.refreshing,
    {
        matches!(self.session, Session::Refreshing)
    }

    /// Ends the refresh of generation `generation` with the server's answer:
    /// both new tokens are stored together, or on any failure no token is
    /// held until the next `init`. An answer to any other refresh is ignored.
    pub fn finish_refresh(&mut self, generation: u64, reply: RefreshReply) -> (r: Result<(), TokenError>)
        ensures
            r == finish_outcome(old(self)@, generation, reply),
            final(self)@ == after_finish(old(self)@, generation, reply),
            valid(final(self)@),
    {
        if !matches!(self.session, Session::Refreshing) || generation != self.generation {
            return Err(TokenError::StaleRefreshAnswer);
        }
        self.session = Session::Idle;
        match reply {
            RefreshReply::RequestFailed => Err(TokenError::RefreshTokenRequest),
            RefreshReply::Received { status, access, refresh } => {
                if !(200 <= status && status < 300) {
                    return Err(TokenError::AuthServerError(status));
                }
                match (access, refresh) {
                    (HeaderField::Absent, _) => Err(TokenError::MissingTokensOnRefreshResponse),
                    (_, HeaderField::Absent) => Err(TokenError::MissingTokensOnRefreshResponse),
                    (HeaderField::Text(a), HeaderField::Text(r)) => {
                        self.session = Session::Held(AccessToken(a), RefreshToken(r));
                        Ok(())
                    },
                    _ => Err(TokenError::InvalidTokenHeader),
                }
            },
        }
    }
}

/// One event for the session's worker, in the order the worker takes them.
#[derive(Debug)]
pub enum Event {
    /// Start a session at time `now` (seconds since the epoch).
    Init(AccessToken, RefreshToken, i64),
    /// A caller asks for the access token.
    RequestToken,
    /// A scheduled or immediate refresh is due.
    RefreshTime,
    /// The auth server's answer to the refresh of the given generation.
    RefreshAnswer(u64, RefreshReply),
}

/// What the worker does after an event.
#[derive(Debug)]
pub enum Action {
    /// Answer the `init` caller; on `Ok`, arm the refresh as planned.
    Initialized(Result<RefreshPlan, TokenError>),
    /// Answer the token request.
    Token(Result<AccessToken, GetTokenError>),
    /// Send a refresh request with this `Authorization` value; its answer
    /// comes back with this generation.
    SendRefresh(String, u64),
    /// A refresh fell due while another is under way: nothing to do.
    RefreshInProgress,
    /// A refresh fell due with no refresh token held: the worker's own
    /// bookkeeping is broken.
    NothingToRefresh,
    /// A refresh ended.
    Refreshed(Result<(), TokenError>),
}

impl TokenRefresher {
    /// Takes one event and says what to do next.
    pub fn handle(&mut self, event: Event) -> (r: Action)
        ensures
            valid(final(self)@),
            match event {
                Event::Init(a, t, now) => r == Action::Initialized(init_outcome(a.0@, now))
                    && final(self)@ == after_init(old(self)@, a.0@, t.0@, now),
                Event::RequestToken => final(self)@ == old(self)@ && match r {
                    Action::Token(Ok(t)) => read(old(self)@) == Ok::<Seq<char>, GetTokenError>(
                        t.0@,
                    ),
                    Action::Token(Err(e)) => read(old(self)@) == Err::<Seq<char>, GetTokenError>(
                        e,
                    ),
                    _ => false,
                },
                Event::RefreshTime => final(self)@ == after_begin(old(self)@) && if old(
                    self,
                )@.refreshing {
                    r is RefreshInProgress
                } else {
                    match refresh_request(old(self)@) {
                        Some((h, g)) => r matches Action::SendRefresh(h2, g2) && h2@ == h && g2
                            == g,
                        None => r is NothingToRefresh,
                    }
                },
                Event::RefreshAnswer(g, reply) => final(self)@ == after_finish(old(self)@, g, reply)
                    && r == Action::Refreshed(finish_outcome(old(self)@, g, reply)),
            },
    {
        match event {
            Event::Init(a, t, now) => Action::Initialized(self.init(a, t, now)),
            Event::RequestToken => Action::Token(self.get_access_token()),
            Event::RefreshTime => if matches!(self.session, Session::Refreshing) {
                Action::RefreshInProgress
            } else {
                match self.begin_refresh() {
                    Some((h, g)) => Action::SendRefresh(h, g),
                    None => Action::NothingToRefresh,
                }
            },
            Event::RefreshAnswer(g, reply) => Action::Refreshed(self.finish_refresh(g, reply)),
        }
    }
}

/// Before any successful `init`, every read answers `RefresherNotInitialized`,
/// and a failed `init` leaves it so.
pub proof fn lemma_read_before_init(access: Seq<char>, refresh: Seq<char>, now: i64)
    ensures
        read(fresh_state()) == Err::<Seq<char>, GetTokenError>(GetTokenError::RefresherNotInitialized),
        init_outcome(access, now) is Err ==> read(after_init(fresh_state(), access, refresh, now))
            == Err::<Seq<char>, GetTokenError>(GetTokenError::RefresherNotInitialized),
{
}

/// An `init` with a token whose expiry is not in the future answers
/// `TokenExpired` and changes nothing.
pub proof fn lemma_expired_init_changes_nothing(
    s: TokenState,
    access: Seq<char>,
    refresh: Seq<char>,
    now: i64,
)
    requires
        token_exp(access) matches Some(exp) && exp <= now,
    ensures
        init_outcome(access, now) == Err::<RefreshPlan, TokenError>(TokenError::TokenExpired),
        after_init(s, access, refresh, now) == s,
{
}

/// After an `init` with a token that has not expired, a read returns that
/// very token.
pub proof fn lemma_init_then_read(s: TokenState, access: Seq<char>, refresh: Seq<char>, now: i64)
    requires
        token_exp(access) matches Some(exp) && exp > now,
    ensures
        init_outcome(access, now) is Ok,
        read(after_init(s, access, refresh, now)) == Ok::<Seq<char>, GetTokenError>(access),
        after_init(s, access, refresh, now).refresh == Some(refresh),
{
}

/// A token with less than the margin left is refreshed at once: the plan is
/// `Immediately`, the first refresh presents the refresh token, and a second
/// trigger sends nothing and changes nothing.
pub proof fn lemma_short_lived_token_refreshes_once(
    s: TokenState,
    access: Seq<char>,
    refresh: Seq<char>,
    now: i64,
)
    requires
        token_exp(access) matches Some(exp) && now < exp < now + REFRESH_MARGIN_SECS,
    ensures
        init_outcome(access, now) == Ok::<RefreshPlan, TokenError>(RefreshPlan::Immediately),
        refresh_request(after_init(s, access, refresh, now)) matches Some((h, _)) && h == bearer(
            refresh,
        ),
        refresh_request(after_begin(after_init(s, access, refresh, now))) is None,
        after_begin(after_begin(after_init(s, access, refresh, now))) == after_begin(
            after_init(s, access, refresh, now),
        ),
{
}

/// A token with at least the margin left is refreshed the margin before it
/// expires.
pub proof fn lemma_long_lived_token_is_scheduled(access: Seq<char>, now: i64)
    requires
        token_exp(access) matches Some(exp) && exp - now >= REFRESH_MARGIN_SECS,
    ensures
        init_outcome(access, now) == Ok::<RefreshPlan, TokenError>(
            RefreshPlan::After((token_exp(access).unwrap() - now - REFRESH_MARGIN_SECS) as u64),
        ),
{
}

/// Every transition keeps the session consistent.
pub proof fn lemma_transitions_keep_valid(
    s: TokenState,
    access: Seq<char>,
    refresh: Seq<char>,
    now: i64,
    g: u64,
    reply: RefreshReply,
)
    requires
        valid(s),
    ensures
        valid(after_init(s, access, refresh, now)),
        valid(after_begin(s)),
        valid(after_finish(s, g, reply)),
{
}

/// Across a refresh a reader sees the old access token, then
/// `FailedToRefresh`, then either `FailedToRefresh` again or the new access
/// token, held together with the refresh token of the same answer.
pub proof fn lemma_refresh_reads_never_mix(s: TokenState, reply: RefreshReply)
    requires
        valid(s),
        s.initialized,
        s.access is Some,
    ensures
        read(s) == Ok::<Seq<char>, GetTokenError>(s.access.unwrap()),
        read(after_begin(s)) == Err::<Seq<char>, GetTokenError>(GetTokenError::FailedToRefresh),
        match reply_tokens(reply) {
            Ok((a, r)) => read(after_finish(after_begin(s), after_begin(s).generation, reply))
                == Ok::<Seq<char>, GetTokenError>(a) && after_finish(
                after_begin(s),
                after_begin(s).generation,
                reply,
            ).refresh == Some(r),
            Err(_) => read(after_finish(after_begin(s), after_begin(s).generation, reply)) == Err::<
                Seq<char>,
                GetTokenError,
            >(GetTokenError::FailedToRefresh) && after_finish(
                after_begin(s),
                after_begin(s).generation,
                reply,
            ).refresh is None,
        },
{
}

/// A 2xx answer that lacks one of the two token headers fails the refresh,
/// and readers are then told `FailedToRefresh`.
pub proof fn lemma_missing_header_fails_refresh(s: TokenState, reply: RefreshReply)
    requires
        valid(s),
        s.initialized,
        reply matches RefreshReply::Received { status, access, refresh } && 200 <= status < 300 && (
        access is Absent || refresh is Absent),
    ensures
        reply_tokens(reply) == Err::<(Seq<char>, Seq<char>), TokenError>(
            TokenError::MissingTokensOnRefreshResponse,
        ),
        read(after_finish(after_begin(s), after_begin(s).generation, reply)) == Err::<
            Seq<char>,
            GetTokenError,
        >(GetTokenError::FailedToRefresh),
{
}

/// In any consistent session that holds a refresh token, a refresh presents
/// that token, and once the server answers with a new pair, reads return the
/// new access token, held with the new refresh token.
pub proof fn lemma_refresh_replaces_pair(s: TokenState, reply: RefreshReply)
    requires
        valid(s),
        s.refresh is Some,
        reply_tokens(reply) is Ok,
    ensures
        refresh_request(s) matches Some((h, g)) && h == bearer(s.refresh.unwrap()) && g
            == after_begin(s).generation,
        finish_outcome(after_begin(s), after_begin(s).generation, reply) is Ok,
        read(after_finish(after_begin(s), after_begin(s).generation, reply)) == Ok::<
            Seq<char>,
            GetTokenError,
        >(reply_tokens(reply).unwrap().0),
        after_finish(after_begin(s), after_begin(s).generation, reply).refresh == Some(
            reply_tokens(reply).unwrap().1,
        ),
{
}

/// A session started with a token that has at least the margin left is
/// refreshed on schedule: the refresh presents the first refresh token, and
/// once the server answers with a new pair, reads return the new access token.
pub proof fn lemma_scheduled_refresh_replaces_pair(
    s: TokenState,
    access: Seq<char>,
    refresh: Seq<char>,
    now: i64,
    reply: RefreshReply,
)
    requires
        token_exp(access) matches Some(exp) && exp - now >= REFRESH_MARGIN_SECS,
        reply_tokens(reply) is Ok,
    ensures
        read(after_init(s, access, refresh, now)) == Ok::<Seq<char>, GetTokenError>(access),
        refresh_request(after_init(s, access, refresh, now)) matches Some((h, _)) && h == bearer(
            refresh,
        ),
        read(
            after_finish(
                after_begin(after_init(s, access, refresh, now)),
                after_begin(after_init(s, access, refresh, now)).generation,
                reply,
            ),
        ) == Ok::<Seq<char>, GetTokenError>(reply_tokens(reply).unwrap().0),
{
    lemma_refresh_replaces_pair(after_init(s, access, refresh, now), reply);
}

/// At most one refresh is under way: a trigger that falls due meanwhile
/// changes nothing, and an answer that does not answer the refresh under way
/// is ignored.
pub proof fn lemma_one_refresh_at_a_time(s: TokenState, g: u64, reply: RefreshReply)
    ensures
        s.refreshing ==> after_begin(s) == s && refresh_request(s) is None,
        !answers_current(s, g) ==> after_finish(s, g, reply) == s && finish_outcome(s, g, reply)
            == Err::<(), TokenError>(TokenError::StaleRefreshAnswer),
{
}

/// An answer to a refresh sent before a new `init` is never taken as the
/// answer to a refresh of the new session, even when that one is under way.
pub proof fn lemma_answer_from_before_init_is_stale(
    s: TokenState,
    access: Seq<char>,
    refresh: Seq<char>,
    now: i64,
    reply: RefreshReply,
)
    requires
        valid(s),
        refresh_request(s) is Some,
        init_outcome(access, now) is Ok,
    ensures
        ({
            let old_generation = after_begin(s).generation;
            let renewed = after_begin(after_init(after_begin(s), access, refresh, now));
            &&& renewed.refreshing
            &&& after_finish(renewed, old_generation, reply) == renewed
            &&& finish_outcome(renewed, old_generation, reply) == Err::<(), TokenError>(
                TokenError::StaleRefreshAnswer,
            )
        }),
{
}

} // verus!
