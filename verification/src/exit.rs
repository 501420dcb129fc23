//! The pending exit code and the signal that asks the host to shut down.

use vstd::prelude::*;
use crate::error::OsError;

verus! {

/// tokio's `watch::Sender`: the producing end of a channel whose receivers
/// are woken by every value sent. Nothing is known of what is inside.
#[verifier::external_type_specification]
#[verifier::external_body]
#[verifier::reject_recursive_types(T)]
pub struct ExWatchSender<T>(tokio::sync::watch::Sender<T>);

/// tokio's `watch::error::SendError`: what `send` hands back when no
/// receiver is left.
#[verifier::external_type_specification]
#[verifier::external_body]
#[verifier::reject_recursive_types(T)]
pub struct ExWatchSendError<T>(tokio::sync::watch::error::SendError<T>);

/// Calls `tokio::sync::watch::Sender::send` with the unit value. Whether it
/// succeeds depends on the receivers that are alive at that moment, which
/// other owners hold, so nothing is claimed of the result.
#[verifier::external_body]
fn send_signal(signal: &tokio::sync::watch::Sender<()>) -> (sent: Result<
    (),
    tokio::sync::watch::error::SendError<()>,
>) {
    signal.send(())
}

/// Whether an exit request has gone out.
#[derive(Clone, Copy, Debug, PartialEq, Eq, Structural)]
pub enum ExitState {
    /// No exit request was delivered yet.
    Idle,
    /// An exit request reached a subscriber.
    SignalSent,
}

/// The state after an exit request: a delivered request leads to
/// `SignalSent`, which no later request leaves.
pub open spec fn exit_state_after(state: ExitState, delivered: bool) -> ExitState {
    if delivered {
        ExitState::SignalSent
    } else {
        state
    }
}

/// What an exit request answers, given what became of the signal.
pub fn delivery_outcome(sent: Result<(), tokio::sync::watch::error::SendError<()>>) -> (r: Result<
    (),
    OsError,
>)
    ensures
        r == match sent {
            Ok(_) => Ok::<(), OsError>(()),
            Err(_) => Err(OsError::SignalDeliveryFailed),
        },
{
    match sent {
        Ok(_) => Ok(()),
        Err(_) => Err(OsError::SignalDeliveryFailed),
    }
}

/// The exit code that the host will report, and the producing end of the
/// exit signal.
pub struct ExitCoordinator {
    code: i32,
    state: ExitState,
    signal: tokio::sync::watch::Sender<()>,
}

impl ExitCoordinator {
    /// The stored exit code.
    pub closed spec fn code(&self) -> i32 {
        self.code
    }

    /// Whether an exit request has gone out.
    pub closed spec fn state(&self) -> ExitState {
        self.state
    }

    /// The producing end of the exit signal.
    pub closed spec fn signal(&self) -> tokio::sync::watch::Sender<()> {
        self.signal
    }

    /// A coordinator in state `Idle` with exit code zero.
    pub fn new(signal: tokio::sync::watch::Sender<()>) -> (this: Self)
        ensures
            this.code() == 0,
            this.state() == ExitState::Idle,
            this.signal() == signal,
    {
        ExitCoordinator { code: 0, state: ExitState::Idle, signal }
    }

    /// Stores `code`; the last call wins.
    pub fn set_exit_code(&mut self, code: i32)
        ensures
            final(self).code() == code,
            final(self).state() == old(self).state(),
            final(self).signal() == old(self).signal(),
    {
        self.code = code;
    }

    /// The stored exit code: zero until one is set.
    pub fn get_exit_code(&self) -> (code: i32)
        ensures
            code == self.code(),
    {
        self.code
    }

    /// Whether an exit request has gone out.
    pub fn exit_state(&self) -> (state: ExitState)
        ensures
            state == self.state(),
    {
        self.state
    }

    /// Fires the exit signal once. Where no subscriber is left to receive
    /// it, the call fails with `SignalDeliveryFailed` and the state stays.
    pub fn request_exit(&mut self) -> (r: Result<(), OsError>)
        ensures
            r is Ok || r == Err::<(), OsError>(OsError::SignalDeliveryFailed),
            final(self).state() == exit_state_after(old(self).state(), r is Ok),
            final(self).code() == old(self).code(),
            final(self).signal() == old(self).signal(),
    {
        let r = delivery_outcome(send_signal(&self.signal));
        if r.is_ok() {
            self.state = ExitState::SignalSent;
        }
        r
    }
}

} // verus!
