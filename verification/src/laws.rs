//! Session-wide laws, proved over the transition model of `state`.
//!
//! Every public session operation states in its contract that the session it
//! leaves behind is the model's image of the one it found (see the
//! `*_model` functions); the laws here are therefore laws of the running
//! session.

use vstd::prelude::*;

use crate::state::{
    command_err_model, configure_attempts, configure_model, connect_err_model, connect_ok_model,
    is_auth_rejection, is_busy, queue_retry_model, retry_begin_model, retry_err_model, AuthView,
    ClientState, ErrorInfo, SessionView,
};

verus! {

/// Everything that can happen to a session, with the payload each outcome
/// step takes.
pub enum Event {
    /// A configuration value arrived, with or without credentials.
    Configure(Option<AuthView>),
    /// The UI explicitly requested a reconnect.
    Reconnect(AuthView),
    /// A connect attempt (foreground or retry) succeeded.
    ConnectOk,
    /// A foreground connect attempt failed; the flag says whether a
    /// transient failure enqueues the retry loop.
    ConnectFailed(ErrorInfo, bool),
    /// The background retry loop was enqueued with these credentials.
    QueueRetry(AuthView),
    /// One iteration of the retry loop began.
    RetryBegin,
    /// A retry attempt failed.
    RetryFailed(ErrorInfo),
    /// A command execution failed.
    CommandFailed(ErrorInfo),
    /// The observer was attached or detached.
    SetObserver(bool),
}

/// When an event can reach a session: the preconditions of the operations
/// that report it.
pub open spec fn enabled(v: SessionView, e: Event) -> bool {
    match e {
        Event::Configure(_) => true,
        Event::Reconnect(_) => true,
        Event::ConnectOk => (v.state == ClientState::Connecting || v.state
            == ClientState::RetryConnecting) && v.auth is Some,
        Event::ConnectFailed(_, _) => v.state == ClientState::Connecting && !v.retry_active,
        Event::QueueRetry(_) => v.state != ClientState::Connected,
        Event::RetryBegin => v.retry_active && v.auth is Some,
        Event::RetryFailed(_) => v.state == ClientState::RetryConnecting && v.retry_active,
        Event::CommandFailed(_) => v.state == ClientState::Connected,
        Event::SetObserver(_) => true,
    }
}

/// The session an event leaves behind; an event that cannot reach the
/// session leaves it as it is.
pub open spec fn step(v: SessionView, e: Event) -> SessionView {
    if !enabled(v, e) {
        v
    } else {
        match e {
            Event::Configure(a) => configure_model(v, a),
            Event::Reconnect(a) => configure_model(v, Some(a)),
            Event::ConnectOk => connect_ok_model(v),
            Event::ConnectFailed(info, retry_on_transient) => connect_err_model(
                v,
                info,
                retry_on_transient,
            ),
            Event::QueueRetry(a) => queue_retry_model(v, a),
            Event::RetryBegin => retry_begin_model(v),
            Event::RetryFailed(info) => retry_err_model(v, info),
            Event::CommandFailed(info) => command_err_model(v, info),
            Event::SetObserver(b) => SessionView { observer: b, ..v },
        }
    }
}

/// The session after a whole sequence of events.
pub open spec fn run(v: SessionView, events: Seq<Event>) -> SessionView
    decreases events.len(),
{
    if events.len() == 0 {
        v
    } else {
        run(step(v, events[0]), events.skip(1))
    }
}

/// Well-formedness — the handle held exactly while `Connected`, no retry
/// loop and credentials retained while `Connected` — is preserved by every
/// single event.
pub proof fn lemma_step_preserves_wf(v: SessionView, e: Event)
    requires
        v.wf(),
    ensures
        step(v, e).wf(),
{
}

/// The connection invariant holds at every instant of every run: whatever
/// sequence of events reaches a well-formed session (the session as
/// constructed in particular), the session it leaves behind is well-formed.
pub proof fn lemma_run_preserves_wf(v: SessionView, events: Seq<Event>)
    requires
        v.wf(),
    ensures
        run(v, events).wf(),
    decreases events.len(),
{
    if events.len() > 0 {
        lemma_step_preserves_wf(v, events[0]);
        lemma_run_preserves_wf(step(v, events[0]), events.skip(1));
    }
}

/// The session as constructed is well-formed.
pub proof fn lemma_init_wf()
    ensures
        SessionView::init().wf(),
{
}

/// Every session reachable from construction is well-formed: the connection
/// invariant holds at every instant of every run.
pub proof fn lemma_every_reachable_session_wf(events: Seq<Event>)
    ensures
        run(SessionView::init(), events).wf(),
{
    lemma_init_wf();
    lemma_run_preserves_wf(SessionView::init(), events);
}

/// A failure carrying the credential-rejection close code is terminal,
/// wherever it strikes: the session ends in `InvalidAuth` and no retry loop
/// is left running.
pub proof fn lemma_auth_rejection_terminal(v: SessionView, info: ErrorInfo)
    requires
        v.wf(),
        is_auth_rejection(info),
    ensures
        forall|retry_on_transient: bool|
            enabled(v, Event::ConnectFailed(info, retry_on_transient)) ==> {
                let w = #[trigger] step(v, Event::ConnectFailed(info, retry_on_transient));
                w.state == ClientState::InvalidAuth && !w.retry_active
            },
        enabled(v, Event::RetryFailed(info)) ==> {
            let w = step(v, Event::RetryFailed(info));
            w.state == ClientState::InvalidAuth && !w.retry_active
        },
        enabled(v, Event::CommandFailed(info)) ==> {
            let w = step(v, Event::CommandFailed(info));
            w.state == ClientState::InvalidAuth && !w.retry_active
        },
{
}

/// Any other failure of a foreground connect attempt surfaces immediately
/// as `ConnectError`, and the retry loop is enqueued exactly when the
/// attempt asked for one.
pub proof fn lemma_transient_connect_failure(
    v: SessionView,
    info: ErrorInfo,
    retry_on_transient: bool,
)
    requires
        v.wf(),
        !is_auth_rejection(info),
        enabled(v, Event::ConnectFailed(info, retry_on_transient)),
    ensures
        step(v, Event::ConnectFailed(info, retry_on_transient)).state
            == ClientState::ConnectError,
        step(v, Event::ConnectFailed(info, retry_on_transient)).retry_active
            == retry_on_transient,
{
}

/// Supplying credentials is idempotent while a connect attempt is already
/// in flight: the first call changes nothing and begins no attempt, and so
/// does the second — two calls in a row produce no attempt at all, never
/// two.
pub proof fn lemma_configure_idempotent_while_connecting(v: SessionView, a: AuthView)
    requires
        v.state == ClientState::Connecting,
    ensures
        configure_model(v, Some(a)) == v,
        !configure_attempts(v, Some(a)),
        !configure_attempts(configure_model(v, Some(a)), Some(a)),
{
}

/// At most one retry supervisor ever runs: enqueueing while one is active
/// changes nothing, and a transient failure inside the loop keeps the
/// running loop rather than spawning a second.
pub proof fn lemma_single_retry_supervisor(v: SessionView, a: AuthView, info: ErrorInfo)
    requires
        v.retry_active,
        !is_auth_rejection(info),
    ensures
        queue_retry_model(v, a) == v,
        retry_err_model(v, info) == v,
{
}

/// The retry loop's cycle: each iteration re-enters `RetryConnecting`; a
/// transient failure leaves it there for the next iteration, and a
/// successful attempt ends in `Connected`.
pub proof fn lemma_retry_cycle(v: SessionView, info: ErrorInfo)
    requires
        v.wf(),
        v.retry_active,
        v.auth is Some,
        !is_auth_rejection(info),
    ensures
        retry_begin_model(v).state == ClientState::RetryConnecting,
        retry_err_model(retry_begin_model(v), info).state == ClientState::RetryConnecting,
        connect_ok_model(retry_begin_model(v)).state == ClientState::Connected,
{
}

/// A transition into `Connecting` by way of configuration or an explicit
/// reconnect always leaves the retry slot empty: the foreground attempt
/// cancels any running loop first.
pub proof fn lemma_foreground_connect_cancels_retry(v: SessionView, a: AuthView)
    requires
        !is_busy(v),
    ensures
        configure_model(v, Some(a)).state == ClientState::Connecting,
        !configure_model(v, Some(a)).retry_active,
{
}

} // verus!
