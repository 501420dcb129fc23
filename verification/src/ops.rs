//! The operations that guest code reaches: each one consults the capability
//! check, then judges its arguments, then reads or changes the state.

use vstd::prelude::*;
use crate::error::{InvalidArgument, OsError, PermissionDenied};
use crate::exit::{exit_state_after, ExitCoordinator};
use crate::permission::{NameSet, PermissionChecker};
use crate::store::{delete_outcome, env_after_delete, env_after_write, lookup_outcome,
    write_outcome, bindings, distinct_names, map_of, Env, EnvironmentStore};

verus! {

/// What a capability check answered.
pub type Decision = Result<(), PermissionDenied>;

/// The state of one host runtime, handed to every operation.
pub struct OsState<P> {
    /// The host's capability check.
    pub permissions: P,
    /// The environment variables.
    pub env: EnvironmentStore,
    /// The names that `op_get_env` reads without a capability check.
    pub allowlist: NameSet,
    /// The exit code and the exit signal.
    pub exit: ExitCoordinator,
}

impl<P> OsState<P> {
    /// The state's invariant: that of its store.
    pub open spec fn wf(&self) -> bool {
        self.env.wf()
    }

    /// A state over the given parts.
    pub fn new(
        permissions: P,
        env: EnvironmentStore,
        allowlist: NameSet,
        exit: ExitCoordinator,
    ) -> (state: Self)
        requires
            env.wf(),
        ensures
            state.wf(),
            state.permissions == permissions,
            state.env == env,
            state.allowlist == allowlist,
            state.exit == exit,
    {
        OsState { permissions, env, allowlist, exit }
    }
}

/// An argument fault as the error that an operation reports.
pub open spec fn refused<T>(fault: Result<T, InvalidArgument>) -> Result<T, OsError> {
    match fault {
        Ok(value) => Ok(value),
        Err(fault) => Err(OsError::InvalidArgument(fault)),
    }
}

/// What setting a variable answers under a decision: the refusal comes
/// before any word on the arguments.
pub open spec fn set_env_outcome(decision: Decision, key: Seq<char>, value: Seq<char>) -> Result<
    (),
    OsError,
> {
    match decision {
        Err(denied) => Err(OsError::PermissionDenied(denied)),
        Ok(_) => refused(write_outcome(key, value)),
    }
}

/// The environment that setting a variable leaves under a decision.
pub open spec fn env_after_set(
    decision: Decision,
    env: Env,
    key: Seq<char>,
    value: Seq<char>,
) -> Env {
    if decision is Ok {
        env_after_write(env, key, value)
    } else {
        env
    }
}

/// What reading a variable answers under a decision.
pub open spec fn get_env_outcome(decision: Decision, env: Env, key: Seq<char>) -> Result<
    Option<Seq<char>>,
    OsError,
> {
    match decision {
        Err(denied) => Err(OsError::PermissionDenied(denied)),
        Ok(_) => refused(lookup_outcome(env, key)),
    }
}

/// What deleting a variable answers under a decision.
pub open spec fn delete_env_outcome(decision: Decision, key: Seq<char>) -> Result<(), OsError> {
    match decision {
        Err(denied) => Err(OsError::PermissionDenied(denied)),
        Ok(_) => refused(delete_outcome(key)),
    }
}

/// The environment that deleting a variable leaves under a decision.
pub open spec fn env_after_delete_env(decision: Decision, env: Env, key: Seq<char>) -> Env {
    if decision is Ok {
        env_after_delete(env, key)
    } else {
        env
    }
}

/// An answer of `op_get_env` with its value as a character sequence.
pub open spec fn value_view(r: Result<Option<String>, OsError>) -> Result<
    Option<Seq<char>>,
    OsError,
> {
    match r {
        Ok(Some(value)) => Ok(Some(value@)),
        Ok(None) => Ok(None),
        Err(e) => Err(e),
    }
}

/// Sets a variable, given what the capability check answered.
pub fn set_env_decided(
    env: &mut EnvironmentStore,
    decision: Decision,
    key: &str,
    value: &str,
) -> (r: Result<(), OsError>)
    requires
        old(env).wf(),
    ensures
        final(env).wf(),
        r == set_env_outcome(decision, key@, value@),
        final(env)@ == env_after_set(decision, old(env)@, key@, value@),
{
    match decision {
        Err(denied) => Err(OsError::PermissionDenied(denied)),
        Ok(_) => match env.set(key, value) {
            Ok(_) => Ok(()),
            Err(fault) => Err(OsError::InvalidArgument(fault)),
        },
    }
}

/// Reads a variable, given what the capability check answered.
pub fn get_env_decided(env: &EnvironmentStore, decision: Decision, key: &str) -> (r: Result<
    Option<String>,
    OsError,
>)
    requires
        env.wf(),
    ensures
        value_view(r) == get_env_outcome(decision, env@, key@),
{
    match decision {
        Err(denied) => Err(OsError::PermissionDenied(denied)),
        Ok(_) => match env.get(key) {
            Ok(found) => Ok(found),
            Err(fault) => Err(OsError::InvalidArgument(fault)),
        },
    }
}

/// Deletes a variable, given what the capability check answered.
pub fn delete_env_decided(env: &mut EnvironmentStore, decision: Decision, key: &str) -> (r: Result<
    (),
    OsError,
>)
    requires
        old(env).wf(),
    ensures
        final(env).wf(),
        r == delete_env_outcome(decision, key@),
        final(env)@ == env_after_delete_env(decision, old(env)@, key@),
{
    match decision {
        Err(denied) => Err(OsError::PermissionDenied(denied)),
        Ok(_) => match env.delete(key) {
            Ok(_) => Ok(()),
            Err(fault) => Err(OsError::InvalidArgument(fault)),
        },
    }
}

/// Copies the whole environment, given what the capability check answered.
pub fn env_decided(env: &EnvironmentStore, decision: Decision) -> (r: Result<
    Vec<(String, String)>,
    OsError,
>)
    requires
        env.wf(),
    ensures
        match decision {
            Err(denied) => r == Err::<Vec<(String, String)>, OsError>(
                OsError::PermissionDenied(denied),
            ),
            Ok(_) => r matches Ok(snapshot) && distinct_names(bindings(snapshot@)) && map_of(
                bindings(snapshot@),
            ) == env@,
        },
{
    match decision {
        Err(denied) => Err(OsError::PermissionDenied(denied)),
        Ok(_) => Ok(env.get_all()),
    }
}

/// Sets the variable `key` to `value`.
///
/// The capability check is asked for `key` first. Where it refuses, its
/// refusal is the answer. Otherwise the arguments are judged, and only a
/// valid key with a valid value changes the store. Nothing else changes.
pub fn op_set_env<P: PermissionChecker>(state: &mut OsState<P>, key: &str, value: &str) -> (r:
    Result<(), OsError>)
    requires
        old(state).wf(),
    ensures
        final(state).wf(),
        final(state).allowlist == old(state).allowlist,
        final(state).exit == old(state).exit,
        match r {
            Err(OsError::PermissionDenied(_)) => final(state).env@ == old(state).env@,
            _ => r == set_env_outcome(Ok(()), key@, value@) && final(state).env@ == env_after_set(
                Ok(()),
                old(state).env@,
                key@,
                value@,
            ),
        },
{
    let decision = state.permissions.check_read_write(key);
    set_env_decided(&mut state.env, decision, key, value)
}

/// Copies the whole environment: each name once with its value, in no
/// particular order.
///
/// The capability check is asked for the whole environment. Where it
/// refuses, its refusal is the answer. The store never changes.
pub fn op_env<P: PermissionChecker>(state: &mut OsState<P>) -> (r: Result<
    Vec<(String, String)>,
    OsError,
>)
    requires
        old(state).wf(),
    ensures
        final(state).env == old(state).env,
        final(state).allowlist == old(state).allowlist,
        final(state).exit == old(state).exit,
        match r {
            Ok(snapshot) => distinct_names(bindings(snapshot@)) && map_of(bindings(snapshot@))
                == old(state).env@,
            Err(e) => e is PermissionDenied,
        },
{
    let decision = state.permissions.check_read_all();
    env_decided(&state.env, decision)
}

/// Reads the variable `key`.
///
/// A name of the allowlist is read without asking the capability check;
/// for any other name the check is asked first, and its refusal is the
/// answer. Then the key is judged. A valid key that the store does not hold
/// gives `None`. The store never changes.
pub fn op_get_env<P: PermissionChecker>(state: &mut OsState<P>, key: &str) -> (r: Result<
    Option<String>,
    OsError,
>)
    requires
        old(state).wf(),
    ensures
        final(state).env == old(state).env,
        final(state).allowlist == old(state).allowlist,
        final(state).exit == old(state).exit,
        old(state).allowlist@.contains(key@) ==> final(state).permissions == old(
            state,
        ).permissions,
        match r {
            Err(OsError::PermissionDenied(_)) => !old(state).allowlist@.contains(key@),
            _ => value_view(r) == get_env_outcome(Ok(()), old(state).env@, key@),
        },
{
    let decision = if state.allowlist.contains(key) {
        Ok(())
    } else {
        state.permissions.check_read_write(key)
    };
    get_env_decided(&state.env, decision, key)
}

/// Deletes the variable `key`.
///
/// The capability check is asked for `key` first. Where it refuses, its
/// refusal is the answer. Otherwise the key is judged, and a valid key is
/// removed; that the store did not hold it is no error. Nothing else
/// changes.
pub fn op_delete_env<P: PermissionChecker>(state: &mut OsState<P>, key: &str) -> (r: Result<
    (),
    OsError,
>)
    requires
        old(state).wf(),
    ensures
        final(state).wf(),
        final(state).allowlist == old(state).allowlist,
        final(state).exit == old(state).exit,
        match r {
            Err(OsError::PermissionDenied(_)) => final(state).env@ == old(state).env@,
            _ => r == delete_env_outcome(Ok(()), key@) && final(state).env@
                == env_after_delete_env(Ok(()), old(state).env@, key@),
        },
{
    let decision = state.permissions.check_read_write(key);
    delete_env_decided(&mut state.env, decision, key)
}

/// Asks the host to shut down, by firing the exit signal once.
///
/// Where no subscriber is left the request is not dropped in silence: the
/// call fails with `SignalDeliveryFailed`. No capability is asked for.
pub fn op_exit<P>(state: &mut OsState<P>) -> (r: Result<(), OsError>)
    ensures
        r is Ok || r == Err::<(), OsError>(OsError::SignalDeliveryFailed),
        final(state).exit.state() == exit_state_after(old(state).exit.state(), r is Ok),
        final(state).exit.code() == old(state).exit.code(),
        final(state).exit.signal() == old(state).exit.signal(),
        final(state).permissions == old(state).permissions,
        final(state).env == old(state).env,
        final(state).allowlist == old(state).allowlist,
{
    state.exit.request_exit()
}

/// Stores the exit code that the host will report; the last call wins. No
/// capability is asked for.
pub fn op_set_exit_code<P>(state: &mut OsState<P>, code: i32)
    ensures
        final(state).exit.code() == code,
        final(state).exit.state() == old(state).exit.state(),
        final(state).exit.signal() == old(state).exit.signal(),
        final(state).permissions == old(state).permissions,
        final(state).env == old(state).env,
        final(state).allowlist == old(state).allowlist,
{
    state.exit.set_exit_code(code);
}

/// The stored exit code: zero until one is set.
pub fn op_get_exit_code<P>(state: &OsState<P>) -> (code: i32)
    ensures
        code == state.exit.code(),
{
    state.exit.get_exit_code()
}

} // verus!
