//! What holds of the operations taken together, stated over the functions
//! that their contracts use.

use vstd::prelude::*;
use crate::error::{InvalidArgument, OsError};
use crate::exit::{exit_state_after, ExitState};
use crate::ops::{delete_env_outcome, env_after_delete_env, env_after_set, get_env_outcome,
    set_env_outcome, Decision};
use crate::store::{all_keys_valid, Env};
use crate::validate::{has_invalid_key_char, has_invalid_value_char, valid_key};

verus! {

/// A permitted write of a valid value under a valid key succeeds, and a
/// permitted read of that key then gives that value.
pub proof fn law_set_then_get(env: Env, key: Seq<char>, value: Seq<char>)
    requires
        valid_key(key),
        !has_invalid_value_char(value),
    ensures
        set_env_outcome(Ok(()), key, value) == Ok::<(), OsError>(()),
        get_env_outcome(Ok(()), env_after_set(Ok(()), env, key, value), key) == Ok::<
            Option<Seq<char>>,
            OsError,
        >(Some(value)),
{
}

/// A permitted removal of a valid key succeeds whether or not the key was
/// there, and a permitted read of that key then finds nothing.
pub proof fn law_delete_then_get(env: Env, key: Seq<char>)
    requires
        valid_key(key),
    ensures
        delete_env_outcome(Ok(()), key) == Ok::<(), OsError>(()),
        get_env_outcome(Ok(()), env_after_delete_env(Ok(()), env, key), key) == Ok::<
            Option<Seq<char>>,
            OsError,
        >(None),
{
}

/// After a permitted removal that succeeded, no read finds a value under the
/// key, whatever the capability check answers to the read.
pub proof fn law_deleted_stays_absent(env: Env, key: Seq<char>, later: Decision)
    requires
        delete_env_outcome(Ok(()), key) is Ok,
    ensures
        !(get_env_outcome(later, env_after_delete_env(Ok(()), env, key), key) matches Ok(Some(_))),
{
}

/// A key with `=` or NUL is refused by a permitted write, read and removal,
/// as an invalid argument, and neither the write nor the removal changes the
/// environment, whatever the capability check answered.
pub proof fn law_invalid_key_refused(env: Env, key: Seq<char>, value: Seq<char>, decision: Decision)
    requires
        has_invalid_key_char(key),
    ensures
        set_env_outcome(Ok(()), key, value) == Err::<(), OsError>(
            OsError::InvalidArgument(InvalidArgument::InvalidKeyChars),
        ),
        get_env_outcome(Ok(()), env, key) == Err::<Option<Seq<char>>, OsError>(
            OsError::InvalidArgument(InvalidArgument::InvalidKeyChars),
        ),
        delete_env_outcome(Ok(()), key) == Err::<(), OsError>(
            OsError::InvalidArgument(InvalidArgument::InvalidKeyChars),
        ),
        env_after_set(decision, env, key, value) == env,
        env_after_delete_env(decision, env, key) == env,
{
    if key.contains('=') {
        let i = choose|i: int| 0 <= i < key.len() && key[i] == '=';
        assert(key.len() > 0);
    } else {
        let i = choose|i: int| 0 <= i < key.len() && key[i] == '\0';
        assert(key.len() > 0);
    }
}

/// The empty key is refused by a permitted write and read as an empty key,
/// by a permitted removal as a key with invalid characters, and the
/// environment stays as it was, whatever the capability check answered.
pub proof fn law_empty_key_refused(env: Env, value: Seq<char>, decision: Decision)
    ensures
        set_env_outcome(Ok(()), Seq::<char>::empty(), value) == Err::<(), OsError>(
            OsError::InvalidArgument(InvalidArgument::EmptyKey),
        ),
        get_env_outcome(Ok(()), env, Seq::<char>::empty()) == Err::<Option<Seq<char>>, OsError>(
            OsError::InvalidArgument(InvalidArgument::EmptyKey),
        ),
        delete_env_outcome(Ok(()), Seq::<char>::empty()) == Err::<(), OsError>(
            OsError::InvalidArgument(InvalidArgument::InvalidKeyChars),
        ),
        env_after_set(decision, env, Seq::<char>::empty(), value) == env,
        env_after_delete_env(decision, env, Seq::<char>::empty()) == env,
{
}

/// The capability check comes before the judgement of the arguments: a
/// refused caller gets the refusal, whatever the key and the value look
/// like.
pub proof fn law_refusal_comes_first(
    env: Env,
    decision: Decision,
    key: Seq<char>,
    value: Seq<char>,
)
    requires
        decision is Err,
    ensures
        set_env_outcome(decision, key, value) == Err::<(), OsError>(
            OsError::PermissionDenied(decision->Err_0),
        ),
        get_env_outcome(decision, env, key) == Err::<Option<Seq<char>>, OsError>(
            OsError::PermissionDenied(decision->Err_0),
        ),
        delete_env_outcome(decision, key) == Err::<(), OsError>(
            OsError::PermissionDenied(decision->Err_0),
        ),
{
}

/// A call that fails changes nothing.
pub proof fn law_failure_changes_nothing(
    env: Env,
    decision: Decision,
    key: Seq<char>,
    value: Seq<char>,
)
    ensures
        set_env_outcome(decision, key, value) is Err ==> env_after_set(decision, env, key, value)
            == env,
        delete_env_outcome(decision, key) is Err ==> env_after_delete_env(decision, env, key)
            == env,
{
}

/// Every write path judges the key: an environment whose names are all valid
/// keeps that property through any write and any removal.
pub proof fn law_keys_stay_valid(env: Env, decision: Decision, key: Seq<char>, value: Seq<char>)
    requires
        all_keys_valid(env),
    ensures
        all_keys_valid(env_after_set(decision, env, key, value)),
        all_keys_valid(env_after_delete_env(decision, env, key)),
{
}

/// One request that changes the environment, with what the capability check
/// answered to it.
pub enum Request {
    Write { decision: Decision, key: Seq<char>, value: Seq<char> },
    Remove { decision: Decision, key: Seq<char> },
}

impl Request {
    /// Whether the request succeeds.
    pub open spec fn succeeds(self) -> bool {
        match self {
            Request::Write { decision, key, value } => set_env_outcome(decision, key, value) is Ok,
            Request::Remove { decision, key } => delete_env_outcome(decision, key) is Ok,
        }
    }

    /// The environment that the request leaves.
    pub open spec fn apply(self, env: Env) -> Env {
        match self {
            Request::Write { decision, key, value } => env_after_set(decision, env, key, value),
            Request::Remove { decision, key } => env_after_delete_env(decision, env, key),
        }
    }

    /// What a successful write or removal does to an environment, with no
    /// check left in it.
    pub open spec fn effect(self, env: Env) -> Env {
        match self {
            Request::Write { decision, key, value } => env.insert(key, value),
            Request::Remove { decision, key } => env.remove(key),
        }
    }
}

/// The environment after a history of requests, handled in call order.
pub open spec fn replay(env: Env, history: Seq<Request>) -> Env
    decreases history.len(),
{
    if history.len() == 0 {
        env
    } else {
        history.last().apply(replay(env, history.drop_last()))
    }
}

/// The environment after the effects of a list of requests, in order.
pub open spec fn effects(env: Env, requests: Seq<Request>) -> Env
    decreases requests.len(),
{
    if requests.len() == 0 {
        env
    } else {
        requests.last().effect(effects(env, requests.drop_last()))
    }
}

/// The environment that a history leaves, which is what a snapshot then
/// shows, is the initial one with the effects of the successful requests
/// applied in call order; the failed ones leave no trace.
pub proof fn law_snapshot_follows_history(env: Env, history: Seq<Request>)
    ensures
        replay(env, history) == effects(env, history.filter(|r: Request| r.succeeds())),
    decreases history.len(),
{
    reveal(Seq::filter);
    if history.len() > 0 {
        law_snapshot_follows_history(env, history.drop_last());
        let kept = history.drop_last().filter(|r: Request| r.succeeds());
        if history.last().succeeds() {
            assert(kept.push(history.last()).drop_last() =~= kept);
        }
    }
}

/// Once an exit request was delivered the state is `SignalSent`, and no
/// later request, delivered or not, leaves that state.
pub proof fn law_signal_sent_is_terminal(state: ExitState, delivered: bool, later: bool)
    ensures
        exit_state_after(state, true) == ExitState::SignalSent,
        exit_state_after(state, false) == state,
        exit_state_after(exit_state_after(state, true), later) == ExitState::SignalSent,
{
}

} // verus!
