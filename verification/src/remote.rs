//! The bridge to the transport's failures: the opaque error the remote
//! client library reports is reduced to the plain facts the classifier
//! reads, and each outcome step gets a form that takes the error itself.

use vstd::prelude::*;

use crate::state::{
    ClientState, CommandFailureOutcome, ConnectFailureOutcome, ErrorInfo, RetryStep, State,
    notice_for,
};

verus! {

#[verifier::external_type_specification]
#[verifier::external_body]
pub struct ExObwsError(obws::error::Error);

/// Relies on the variants of `obws::error::Error`: a handshake ended by the
/// peer carries the close details (whose code tells a credential rejection
/// apart), and `Send` is a failure of the transport's send side. The body
/// only tells variants apart and moves the code out as a number.
#[verifier::external_body]
fn error_info_of(error: &obws::error::Error) -> ErrorInfo {
    match error {
        obws::error::Error::Handshake(obws::client::HandshakeError::ConnectionClosed(details)) => {
            ErrorInfo {
                close_code: details.as_ref().map(|d| u16::from(d.code)),
                send_failure: false,
            }
        },
        obws::error::Error::Send(_) => ErrorInfo { close_code: None, send_failure: true },
        _ => ErrorInfo { close_code: None, send_failure: false },
    }
}

impl<C> State<C> {
    /// A foreground connect attempt failed with this transport error.
    /// Whatever the error holds, the session surfaces either the terminal
    /// `InvalidAuth` (and then never a retry) or `ConnectError` (and then a
    /// retry exactly when the attempt asked for one).
    pub fn connect_failed(&mut self, error: &obws::error::Error, retry_on_transient: bool) -> (r:
        ConnectFailureOutcome)
        requires
            old(self).wf(),
            old(self)@.state == ClientState::Connecting,
            !old(self)@.retry_active,
        ensures
            final(self).wf(),
            final(self)@.state == ClientState::InvalidAuth || final(self)@.state
                == ClientState::ConnectError,
            final(self)@.has_client == old(self)@.has_client,
            final(self)@.auth == old(self)@.auth,
            final(self)@.observer == old(self)@.observer,
            final(self)@.state == ClientState::InvalidAuth ==> (!final(self)@.retry_active
                && !r.start_retry),
            final(self)@.state == ClientState::ConnectError ==> (final(self)@.retry_active
                == retry_on_transient && r.start_retry == retry_on_transient),
            r.notice == notice_for(old(self)@, final(self)@.state),
    {
        let info = error_info_of(error);
        self.connect_failed_with(info, retry_on_transient)
    }

    /// A retry attempt failed with this transport error. Whatever the error
    /// holds, either the loop stops terminally in `InvalidAuth`, or the
    /// session is untouched and the loop sleeps and goes on.
    pub fn retry_attempt_failed(&mut self, error: &obws::error::Error) -> (r: RetryStep)
        requires
            old(self).wf(),
            old(self)@.state == ClientState::RetryConnecting,
            old(self)@.retry_active,
        ensures
            final(self).wf(),
            r.stop ==> (final(self)@.state == ClientState::InvalidAuth
                && !final(self)@.retry_active
                && r.notice == notice_for(old(self)@, ClientState::InvalidAuth)),
            !r.stop ==> (*final(self) == *old(self) && r.notice is None),
            final(self)@.has_client == old(self)@.has_client,
            final(self)@.auth == old(self)@.auth,
            final(self)@.observer == old(self)@.observer,
    {
        let info = error_info_of(error);
        self.retry_attempt_failed_with(info)
    }

    /// A command execution failed with this transport error. Whatever the
    /// error holds, either the handle is cleared — terminally on a
    /// credential rejection, with a retry scheduled on a transport loss —
    /// or the connection is left intact and the error concerns the caller
    /// alone.
    pub fn command_failed(&mut self, error: &obws::error::Error) -> (r: CommandFailureOutcome)
        requires
            old(self).wf(),
            old(self)@.state == ClientState::Connected,
        ensures
            final(self).wf(),
            final(self)@.auth == old(self)@.auth,
            final(self)@.observer == old(self)@.observer,
            r.connection_reset ==> !final(self)@.has_client,
            !r.connection_reset ==> (*final(self) == *old(self) && !r.start_retry && r.notice
                is None),
            final(self)@.state == ClientState::InvalidAuth ==> (r.connection_reset
                && !final(self)@.retry_active && !r.start_retry && r.notice == notice_for(
                old(self)@,
                ClientState::InvalidAuth,
            )),
            final(self)@.state == ClientState::NotConnected ==> (r.connection_reset
                && final(self)@.retry_active == (old(self)@.auth is Some) && r.start_retry == (old(
                self,
            )@.auth is Some) && r.notice == notice_for(old(self)@, ClientState::NotConnected)),
            final(self)@.state == ClientState::InvalidAuth || final(self)@.state
                == ClientState::NotConnected || *final(self) == *old(self),
    {
        let info = error_info_of(error);
        self.command_failed_with(info)
    }
}

} // verus!
