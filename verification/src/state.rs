//! The session core: lifecycle of one long-lived, authenticated connection to
//! the remote studio-control service.
//!
//! The session owns the connection handle, classifies failures (credential
//! rejection against everything transient), decides when the background retry
//! loop starts and stops, and hands every lifecycle transition to the current
//! observer. All remote calls suspend, so the work around one is split in two:
//! a `*_begin` step that fixes the state and says what to attempt, and an
//! outcome step that takes what came back. The host side performs the attempt
//! between the two and feeds the result to exactly one outcome step.
//!
//! The handle type is a parameter: the session never looks inside it, it only
//! guards when one is present (see [`SessionView::wf`]).

use vstd::prelude::*;
use vstd::pervasive::unreached;

use crate::text::{is_blank, trim_of};

verus! {

/// Lifecycle of the managed connection.
///
/// Exactly one value is current at any instant; it is the single source of
/// truth that observers see. `Initial` is the construction-time value and is
/// never re-entered.
#[derive(Debug, Clone, Copy, PartialEq, Eq, Structural)]
pub enum ClientState {
    Initial,
    NotConnected,
    Connecting,
    RetryConnecting,
    Connected,
    ConnectError,
    InvalidAuth,
}

/// Credentials for the remote service. Immutable once constructed and
/// re-supplied verbatim on every (re)connect attempt.
#[derive(Debug, Clone)]
pub struct Auth {
    pub host: String,
    pub port: u16,
    pub password: String,
}

/// Mathematical image of [`Auth`].
pub struct AuthView {
    pub host: Seq<char>,
    pub port: u16,
    pub password: Seq<char>,
}

impl View for Auth {
    type V = AuthView;

    open spec fn view(&self) -> AuthView {
        AuthView { host: self.host@, port: self.port, password: self.password@ }
    }
}

/// The configuration value delivered by the host: credentials, or none.
pub struct Properties {
    pub auth: Option<Auth>,
}

/// The plain facts about a failed remote call that the classifier reads: the
/// close code the transport reported, if any, and whether sending itself
/// failed.
#[derive(Debug, Clone, Copy)]
pub struct ErrorInfo {
    pub close_code: Option<u16>,
    pub send_failure: bool,
}

/// The close code with which the remote service rejects the supplied
/// credential during the handshake.
pub const AUTH_REJECTION_CLOSE_CODE: u16 = 4009;

/// A failure is a credential rejection exactly when the transport reports the
/// distinguished close code; every other failure is transient.
pub open spec fn is_auth_rejection(info: ErrorInfo) -> bool {
    info.close_code == Some(AUTH_REJECTION_CLOSE_CODE)
}

/// A command failure that means the connection itself is gone: a transport
/// send failure that is not a credential rejection.
pub open spec fn is_transport_loss(info: ErrorInfo) -> bool {
    !is_auth_rejection(info) && info.send_failure
}

/// Mathematical image of a whole session.
pub struct SessionView {
    pub state: ClientState,
    pub has_client: bool,
    pub auth: Option<AuthView>,
    pub retry_active: bool,
    pub observer: bool,
}

impl SessionView {
    /// Well-formedness of a session:
    /// a connection handle is held exactly while the state is `Connected`;
    /// while connected no retry loop runs and the credentials that succeeded
    /// are retained.
    pub open spec fn wf(self) -> bool {
        &&& (self.has_client <==> self.state == ClientState::Connected)
        &&& (self.state == ClientState::Connected ==> !self.retry_active)
        &&& (self.state == ClientState::Connected ==> self.auth is Some)
    }

    /// The session as constructed, before any configuration arrives.
    pub open spec fn init() -> SessionView {
        SessionView {
            state: ClientState::Initial,
            has_client: false,
            auth: None,
            retry_active: false,
            observer: false,
        }
    }
}

/// A connect attempt is already in flight or has succeeded; a further request
/// to connect is dropped rather than doubled.
pub open spec fn is_busy(v: SessionView) -> bool {
    v.state == ClientState::Connecting || v.state == ClientState::Connected
}

/// What the observer is sent when the state becomes `s`: the new state if an
/// observer is present, nothing otherwise.
pub open spec fn notice_for(v: SessionView, s: ClientState) -> Option<ClientState> {
    if v.observer {
        Some(s)
    } else {
        None
    }
}

/// What a connect attempt hands to the transport: host, port, and the
/// password, which is withheld when blank (a blank password means "no
/// authentication").
pub struct ConnectParams {
    pub host: String,
    pub port: u16,
    pub password: Option<String>,
}

/// The parameters are exactly the given credentials, with a blank password
/// turned into no password.
pub open spec fn params_match(p: ConnectParams, a: AuthView) -> bool {
    &&& p.host@ == a.host
    &&& p.port == a.port
    &&& (match p.password {
        Some(pw) => pw@ == a.password && trim_of(a.password).len() != 0,
        None => trim_of(a.password).len() == 0,
    })
}

/// A connect attempt the host must now perform, together with what must
/// happen around it: abort the retry loop first when one was running, notify
/// the observer, and persist the credentials with the host on success when
/// the attempt came from an explicit reconnect request.
pub struct ConnectBegun {
    pub params: ConnectParams,
    pub cancel_retry: bool,
    pub persist_on_success: bool,
    /// On a transient failure of this attempt, enqueue the background retry
    /// loop (configuration-driven attempts do; explicit reconnect requests
    /// leave the next step to the user).
    pub retry_on_failure: bool,
    pub notice: Option<ClientState>,
}

/// Outcome of [`State::configure`].
pub enum ConfigureAction {
    /// Already connecting or connected: the request is dropped.
    Busy,
    /// No credentials were supplied: the session fell back to
    /// `NotConnected`; forward the notification.
    Cleared(Option<ClientState>),
    /// Perform this connect attempt.
    Attempt(ConnectBegun),
}

/// Outcome of a failed foreground connect attempt.
pub struct ConnectFailureOutcome {
    pub notice: Option<ClientState>,
    /// Start the background retry loop (transient failures only).
    pub start_retry: bool,
}

/// One iteration of the background retry loop: the attempt to perform and
/// the notification for the re-entered `RetryConnecting` state.
pub struct RetryBegun {
    pub params: ConnectParams,
    pub notice: Option<ClientState>,
}

/// One step of the background retry loop after a failed attempt.
pub struct RetryStep {
    /// The loop must stop (the credentials were rejected); otherwise it
    /// sleeps for the fixed interval and attempts again.
    pub stop: bool,
    pub notice: Option<ClientState>,
}

/// Outcome of a failed command execution.
pub struct CommandFailureOutcome {
    pub notice: Option<ClientState>,
    /// Start the background retry loop (the connection was severed and
    /// credentials are on hand).
    pub start_retry: bool,
    /// The handle was cleared; the command's error concerned the connection
    /// itself. When false the connection is left intact.
    pub connection_reset: bool,
}

/// Seconds a single connect attempt may take before the transport gives up.
pub const CONNECT_TIMEOUT_SECS: u64 = 5;

/// Seconds the retry loop waits between attempts.
pub const RETRY_INTERVAL_SECS: u64 = 10;

/// The view of optional credentials.
pub open spec fn opt_view(a: Option<Auth>) -> Option<AuthView> {
    match a {
        Some(x) => Some(x@),
        None => None,
    }
}

/// What `configure` (and `request_reconnect`, which supplies credentials)
/// does to a session: no credentials clear it back to `NotConnected`; with
/// credentials a busy session is left alone, otherwise the session turns to
/// `Connecting` with any retry loop cancelled and the credentials retained.
pub open spec fn configure_model(v: SessionView, auth: Option<AuthView>) -> SessionView {
    match auth {
        None => SessionView { state: ClientState::NotConnected, has_client: false, ..v },
        Some(a) => if is_busy(v) {
            v
        } else {
            SessionView {
                state: ClientState::Connecting,
                retry_active: false,
                auth: Some(a),
                ..v
            }
        },
    }
}

/// When a `configure`/`request_reconnect` call begins a connect attempt:
/// exactly when credentials are present and the session is not busy.
pub open spec fn configure_attempts(v: SessionView, auth: Option<AuthView>) -> bool {
    auth is Some && !is_busy(v)
}

/// A connect attempt succeeded: the handle is stored, the retry loop (if the
/// attempt was its) is over.
pub open spec fn connect_ok_model(v: SessionView) -> SessionView {
    SessionView { state: ClientState::Connected, has_client: true, retry_active: false, ..v }
}

/// A foreground connect attempt failed: a credential rejection is terminal,
/// every other failure surfaces as `ConnectError` and starts the retry loop
/// when the caller asked for one.
pub open spec fn connect_err_model(
    v: SessionView,
    info: ErrorInfo,
    retry_on_transient: bool,
) -> SessionView {
    if is_auth_rejection(info) {
        SessionView { state: ClientState::InvalidAuth, ..v }
    } else {
        SessionView { state: ClientState::ConnectError, retry_active: retry_on_transient, ..v }
    }
}

/// Enqueueing the background retry loop: a no-op while one runs, otherwise
/// the slot is taken and the credentials to retry with are retained.
pub open spec fn queue_retry_model(v: SessionView, a: AuthView) -> SessionView {
    if v.retry_active {
        v
    } else {
        SessionView { retry_active: true, auth: Some(a), ..v }
    }
}

/// The retry loop re-enters `RetryConnecting` before every attempt.
pub open spec fn retry_begin_model(v: SessionView) -> SessionView {
    SessionView { state: ClientState::RetryConnecting, ..v }
}

/// A retry attempt failed: on credential rejection the loop stops and the
/// session is terminally `InvalidAuth`; any other failure keeps the loop
/// alive, to sleep and try again.
pub open spec fn retry_err_model(v: SessionView, info: ErrorInfo) -> SessionView {
    if is_auth_rejection(info) {
        SessionView { state: ClientState::InvalidAuth, retry_active: false, ..v }
    } else {
        v
    }
}

/// A command execution failed: a credential rejection clears the handle and
/// is terminal; a transport loss clears the handle and schedules a retry
/// with the retained credentials; any other failure leaves the connection
/// intact.
pub open spec fn command_err_model(v: SessionView, info: ErrorInfo) -> SessionView {
    if is_auth_rejection(info) {
        SessionView { state: ClientState::InvalidAuth, has_client: false, ..v }
    } else if is_transport_loss(info) {
        SessionView {
            state: ClientState::NotConnected,
            has_client: false,
            retry_active: v.auth is Some,
            ..v
        }
    } else {
        v
    }
}

/// The attempt `b` is the one a session `v` with credentials `a` begins.
pub open spec fn begun_matches(
    b: ConnectBegun,
    v: SessionView,
    a: AuthView,
    persist: bool,
    retry_on_failure: bool,
) -> bool {
    &&& params_match(b.params, a)
    &&& b.cancel_retry == v.retry_active
    &&& b.persist_on_success == persist
    &&& b.retry_on_failure == retry_on_failure
    &&& b.notice == notice_for(v, ClientState::Connecting)
}

/// The session: current lifecycle state, the connection handle while one is
/// open, the last-supplied credentials, whether the background retry loop is
/// running, and whether an observer is attached.
///
/// `C` is the handle type of the transport; the session carries it opaquely.
#[verifier::reject_recursive_types(C)]
pub struct State<C> {
    client_state: ClientState,
    client: Option<C>,
    current_auth: Option<Auth>,
    retry_active: bool,
    observer: bool,
}

impl<C> View for State<C> {
    type V = SessionView;

    closed spec fn view(&self) -> SessionView {
        SessionView {
            state: self.client_state,
            has_client: self.client is Some,
            auth: match self.current_auth {
                Some(a) => Some(a@),
                None => None,
            },
            retry_active: self.retry_active,
            observer: self.observer,
        }
    }
}

impl<C> State<C> {
    pub open spec fn wf(&self) -> bool {
        self@.wf()
    }

    pub fn new() -> (s: Self)
        ensures
            s@ == SessionView::init(),
            s.wf(),
    {
        State {
            client_state: ClientState::Initial,
            client: None,
            current_auth: None,
            retry_active: false,
            observer: false,
        }
    }

    /// Pure read of the current lifecycle state; always available.
    pub fn get_state(&self) -> (r: ClientState)
        ensures
            r == self@.state,
    {
        self.client_state
    }

    /// Whether credentials are retained for a silent reconnect.
    pub fn has_credentials(&self) -> (r: bool)
        ensures
            r == (self@.auth is Some),
    {
        match &self.current_auth {
            Some(_) => true,
            None => false,
        }
    }

    /// Whether the background retry loop holds its slot.
    pub fn retry_pending(&self) -> (r: bool)
        ensures
            r == self@.retry_active,
    {
        self.retry_active
    }

    /// Attach or detach the observer. Its presence never affects connection
    /// state.
    pub fn set_inspector(&mut self, present: bool)
        ensures
            final(self)@ == (SessionView { observer: present, ..old(self)@ }),
    {
        self.observer = present;
    }

    /// Set the lifecycle state and return what to broadcast to the observer.
    /// The caller owes the invariant: `Connected` may only be entered by the
    /// code that also stores the handle.
    pub fn set_state(&mut self, state: ClientState) -> (notice: Option<ClientState>)
        requires
            (state == ClientState::Connected) == old(self)@.has_client,
            state == ClientState::Connected ==> !old(self)@.retry_active,
            state == ClientState::Connected ==> old(self)@.auth is Some,
        ensures
            final(self).wf(),
            final(self)@ == (SessionView { state: state, ..old(self)@ }),
            notice == notice_for(old(self)@, state),
    {
        self.client_state = state;
        if self.observer {
            Some(state)
        } else {
            None
        }
    }

    /// Fix the state for a foreground connect attempt: cancel any running
    /// retry loop, retain the credentials, turn to `Connecting`, and say what
    /// to attempt.
    fn begin_connect(&mut self, auth: Auth, persist: bool, retry_on_failure: bool) -> (b:
        ConnectBegun)
        requires
            old(self).wf(),
            !is_busy(old(self)@),
        ensures
            final(self).wf(),
            final(self)@ == configure_model(old(self)@, Some(auth@)),
            begun_matches(b, old(self)@, auth@, persist, retry_on_failure),
    {
        let cancel_retry = self.retry_active;
        self.retry_active = false;
        let params = params_for(&auth);
        self.current_auth = Some(auth);
        let notice = self.set_state(ClientState::Connecting);
        ConnectBegun { params, cancel_retry, persist_on_success: persist, retry_on_failure, notice }
    }

    /// Take a configuration value: without credentials the session falls
    /// back to `NotConnected` (dropping any handle); with credentials a busy
    /// session drops the request, otherwise a connect attempt begins whose
    /// transient failure will enqueue the background retry loop.
    pub fn configure(&mut self, properties: Properties) -> (r: ConfigureAction)
        requires
            old(self).wf(),
        ensures
            final(self).wf(),
            final(self)@ == configure_model(old(self)@, opt_view(properties.auth)),
            (r is Attempt) == configure_attempts(old(self)@, opt_view(properties.auth)),
            properties.auth is None ==> (r matches ConfigureAction::Cleared(n) && n
                == notice_for(old(self)@, ClientState::NotConnected)),
            properties.auth is Some && is_busy(old(self)@) ==> (r is Busy && *final(self) == *old(
                self,
            )),
            !is_busy(old(self)@) ==> (properties.auth matches Some(a) ==> (r
                matches ConfigureAction::Attempt(b) && begun_matches(
                b,
                old(self)@,
                a@,
                false,
                true,
            ))),
    {
        match properties.auth {
            None => {
                self.client = None;
                let notice = self.set_state(ClientState::NotConnected);
                ConfigureAction::Cleared(notice)
            },
            Some(auth) => {
                match self.client_state {
                    ClientState::Connecting | ClientState::Connected => ConfigureAction::Busy,
                    _ => ConfigureAction::Attempt(self.begin_connect(auth, false, true)),
                }
            },
        }
    }

    /// An explicit reconnect request from the UI: same idempotency rule as
    /// `configure`; on success the credentials are persisted back to the
    /// host, and a failure is left to the user rather than retried.
    pub fn request_reconnect(&mut self, auth: Auth) -> (r: ConfigureAction)
        requires
            old(self).wf(),
        ensures
            final(self).wf(),
            final(self)@ == configure_model(old(self)@, Some(auth@)),
            !(r is Cleared),
            (r is Attempt) == configure_attempts(old(self)@, Some(auth@)),
            is_busy(old(self)@) ==> (r is Busy && *final(self) == *old(self)),
            !is_busy(old(self)@) ==> (r matches ConfigureAction::Attempt(b) && begun_matches(
                b,
                old(self)@,
                auth@,
                true,
                false,
            )),
    {
        match self.client_state {
            ClientState::Connecting | ClientState::Connected => ConfigureAction::Busy,
            _ => ConfigureAction::Attempt(self.begin_connect(auth, true, false)),
        }
    }

    /// A connect attempt (foreground or retry) succeeded: store the handle,
    /// enter `Connected`, and stop the retry loop if the attempt was its.
    pub fn connect_succeeded(&mut self, client: C) -> (notice: Option<ClientState>)
        requires
            old(self).wf(),
            old(self)@.state == ClientState::Connecting || old(self)@.state
                == ClientState::RetryConnecting,
            old(self)@.auth is Some,
        ensures
            final(self).wf(),
            final(self)@ == connect_ok_model(old(self)@),
            notice == notice_for(old(self)@, ClientState::Connected),
    {
        self.client = Some(client);
        self.retry_active = false;
        self.set_state(ClientState::Connected)
    }

    /// A foreground connect attempt failed, with these plain facts about the
    /// error: classify it and transition.
    pub fn connect_failed_with(&mut self, info: ErrorInfo, retry_on_transient: bool) -> (r:
        ConnectFailureOutcome)
        requires
            old(self).wf(),
            old(self)@.state == ClientState::Connecting,
            !old(self)@.retry_active,
        ensures
            final(self).wf(),
            final(self)@ == connect_err_model(old(self)@, info, retry_on_transient),
            is_auth_rejection(info) ==> (r.notice == notice_for(
                old(self)@,
                ClientState::InvalidAuth,
            ) && !r.start_retry),
            !is_auth_rejection(info) ==> (r.notice == notice_for(
                old(self)@,
                ClientState::ConnectError,
            ) && r.start_retry == retry_on_transient),
    {
        if auth_rejected(&info) {
            let notice = self.set_state(ClientState::InvalidAuth);
            ConnectFailureOutcome { notice, start_retry: false }
        } else {
            let notice = self.set_state(ClientState::ConnectError);
            if retry_on_transient {
                self.retry_active = true;
            }
            ConnectFailureOutcome { notice, start_retry: retry_on_transient }
        }
    }

    /// Enqueue the background retry loop with these credentials. A no-op
    /// while one is already running; returns whether the caller must start
    /// the loop.
    pub fn queue_background_retry(&mut self, auth: Auth) -> (started: bool)
        requires
            old(self).wf(),
            old(self)@.state != ClientState::Connected,
        ensures
            final(self).wf(),
            final(self)@ == queue_retry_model(old(self)@, auth@),
            started == !old(self)@.retry_active,
            !started ==> *final(self) == *old(self),
    {
        if self.retry_active {
            return false;
        }
        self.current_auth = Some(auth);
        self.retry_active = true;
        true
    }

    /// One iteration of the retry loop begins: re-enter `RetryConnecting`
    /// and say what to attempt, from the retained credentials.
    pub fn retry_attempt_begin(&mut self) -> (r: RetryBegun)
        requires
            old(self).wf(),
            old(self)@.retry_active,
            old(self)@.auth is Some,
        ensures
            final(self).wf(),
            final(self)@ == retry_begin_model(old(self)@),
            params_match(r.params, old(self)@.auth->0),
            r.notice == notice_for(old(self)@, ClientState::RetryConnecting),
    {
        let params = match &self.current_auth {
            Some(a) => params_for(a),
            None => unreached(),
        };
        let notice = self.set_state(ClientState::RetryConnecting);
        RetryBegun { params, notice }
    }

    /// A retry attempt failed, with these plain facts about the error: stop
    /// terminally on a credential rejection, otherwise keep the loop alive.
    pub fn retry_attempt_failed_with(&mut self, info: ErrorInfo) -> (r: RetryStep)
        requires
            old(self).wf(),
            old(self)@.state == ClientState::RetryConnecting,
            old(self)@.retry_active,
        ensures
            final(self).wf(),
            final(self)@ == retry_err_model(old(self)@, info),
            r.stop == is_auth_rejection(info),
            is_auth_rejection(info) ==> r.notice == notice_for(
                old(self)@,
                ClientState::InvalidAuth,
            ),
            !is_auth_rejection(info) ==> (r.notice is None && *final(self) == *old(self)),
    {
        if auth_rejected(&info) {
            self.retry_active = false;
            let notice = self.set_state(ClientState::InvalidAuth);
            RetryStep { stop: true, notice }
        } else {
            RetryStep { stop: false, notice: None }
        }
    }

    /// Borrow the connection handle for one command execution, if one is
    /// held. Absence is not an error: the caller silently does nothing.
    pub fn client_ref(&self) -> (r: Option<&C>)
        ensures
            (r is Some) == self@.has_client,
    {
        self.client.as_ref()
    }

    /// A command execution failed, with these plain facts about the error:
    /// uniformly react, clearing the handle only when the failure concerns
    /// the connection itself.
    pub fn command_failed_with(&mut self, info: ErrorInfo) -> (r: CommandFailureOutcome)
        requires
            old(self).wf(),
            old(self)@.state == ClientState::Connected,
        ensures
            final(self).wf(),
            final(self)@ == command_err_model(old(self)@, info),
            is_auth_rejection(info) ==> (r.connection_reset && !r.start_retry && r.notice
                == notice_for(old(self)@, ClientState::InvalidAuth)),
            is_transport_loss(info) ==> (r.connection_reset && r.start_retry == (old(self)@.auth
                is Some) && r.notice == notice_for(old(self)@, ClientState::NotConnected)),
            !is_auth_rejection(info) && !is_transport_loss(info) ==> (!r.connection_reset
                && !r.start_retry && r.notice is None && *final(self) == *old(self)),
    {
        if auth_rejected(&info) {
            self.client = None;
            let notice = self.set_state(ClientState::InvalidAuth);
            CommandFailureOutcome { notice, start_retry: false, connection_reset: true }
        } else if info.send_failure {
            self.client = None;
            let notice = self.set_state(ClientState::NotConnected);
            let start_retry = match &self.current_auth {
                Some(_) => true,
                None => false,
            };
            self.retry_active = start_retry;
            CommandFailureOutcome { notice, start_retry, connection_reset: true }
        } else {
            CommandFailureOutcome { notice: None, start_retry: false, connection_reset: false }
        }
    }
}

impl<C> Default for State<C> {
    /// A fresh session, exactly as [`State::new`] builds it.
    fn default() -> (s: Self)
        ensures
            s@ == SessionView::init(),
            s.wf(),
    {
        State::new()
    }
}

/// Whether these plain facts about a failure carry the credential-rejection
/// close code.
pub fn auth_rejected(info: &ErrorInfo) -> (r: bool)
    ensures
        r == is_auth_rejection(*info),
{
    match info.close_code {
        Some(code) => code == AUTH_REJECTION_CLOSE_CODE,
        None => false,
    }
}

/// The connect parameters for these credentials: the password is withheld
/// when blank.
fn params_for(auth: &Auth) -> (p: ConnectParams)
    ensures
        params_match(p, auth@),
{
    let password = if is_blank(&auth.password) {
        None
    } else {
        Some(auth.password.clone())
    };
    ConnectParams { host: auth.host.clone(), port: auth.port, password }
}

} // verus!
