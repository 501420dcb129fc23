use std::collections::HashMap;

use env_gate::error::{Capability, InvalidArgument, OsError, PermissionDenied};
use env_gate::exit::ExitCoordinator;
use env_gate::ops::{
    delete_env_decided, env_decided, get_env_decided, op_delete_env, op_env, op_get_env,
    op_set_env, set_env_decided, OsState,
};
use env_gate::permission::{Enforcing, NameSet, PermissionChecker, Permissive};
use env_gate::store::EnvironmentStore;

fn pair(k: &str, v: &str) -> (String, String) {
    (k.to_string(), v.to_string())
}

fn as_map(pairs: Vec<(String, String)>) -> HashMap<String, String> {
    pairs.into_iter().collect()
}

fn names(list: &[&str]) -> Vec<String> {
    list.iter().map(|s| s.to_string()).collect()
}

fn denied(key: &str) -> OsError {
    OsError::PermissionDenied(PermissionDenied { capability: Capability::Variable(key.to_string()) })
}

fn denied_all() -> OsError {
    OsError::PermissionDenied(PermissionDenied { capability: Capability::FullEnvironment })
}

fn state_with<P>(permissions: P, seed: Vec<(String, String)>, allow: &[&str]) -> OsState<P> {
    let (tx, _rx) = tokio::sync::watch::channel(());
    OsState::new(
        permissions,
        EnvironmentStore::from_pairs(seed),
        NameSet::new(names(allow)),
        ExitCoordinator::new(tx),
    )
}

#[test]
fn set_then_get_returns_the_value() {
    let mut state = state_with(Permissive, vec![], &[]);
    for (k, v) in [("FOO", "bar"), ("a", ""), ("KEY WITH SPACE", "v=w"), ("ü", "é")] {
        assert_eq!(op_set_env(&mut state, k, v), Ok(()));
        assert_eq!(op_get_env(&mut state, k), Ok(Some(v.to_string())));
    }
}

#[test]
fn delete_then_get_is_not_present() {
    let mut state = state_with(Permissive, vec![pair("THERE", "1")], &[]);
    assert_eq!(op_delete_env(&mut state, "THERE"), Ok(()));
    assert_eq!(op_get_env(&mut state, "THERE"), Ok(None));
    assert_eq!(op_delete_env(&mut state, "NOT_THERE"), Ok(()));
    assert_eq!(op_get_env(&mut state, "NOT_THERE"), Ok(None));
}

#[test]
fn invalid_key_characters_fail_everywhere_and_change_nothing() {
    let mut state = state_with(Permissive, vec![pair("A", "1")], &[]);
    for k in ["A=B", "=", "A\0", "\0=", "A=B\0"] {
        let bad = Err(OsError::InvalidArgument(InvalidArgument::InvalidKeyChars));
        assert_eq!(op_set_env(&mut state, k, "x"), bad);
        assert_eq!(op_get_env(&mut state, k), Err(OsError::InvalidArgument(InvalidArgument::InvalidKeyChars)));
        assert_eq!(op_delete_env(&mut state, k), bad);
    }
    assert_eq!(op_env(&mut state), Ok(vec![pair("A", "1")]));
}

#[test]
fn empty_key_fails_and_changes_nothing() {
    let mut state = state_with(Permissive, vec![pair("A", "1")], &[]);
    assert_eq!(op_set_env(&mut state, "", "x"), Err(OsError::InvalidArgument(InvalidArgument::EmptyKey)));
    assert_eq!(op_get_env(&mut state, ""), Err(OsError::InvalidArgument(InvalidArgument::EmptyKey)));
    assert_eq!(
        op_delete_env(&mut state, ""),
        Err(OsError::InvalidArgument(InvalidArgument::InvalidKeyChars))
    );
    assert_eq!(op_env(&mut state), Ok(vec![pair("A", "1")]));
}

#[test]
fn value_with_nul_fails_and_changes_nothing() {
    let mut state = state_with(Permissive, vec![pair("A", "1")], &[]);
    assert_eq!(
        op_set_env(&mut state, "A", "x\0"),
        Err(OsError::InvalidArgument(InvalidArgument::InvalidValueChars))
    );
    assert_eq!(op_get_env(&mut state, "A"), Ok(Some("1".to_string())));
}

#[test]
fn allowlisted_key_is_read_without_permission() {
    let checker = Enforcing::new(false, vec![]);
    let mut state = state_with(checker, vec![pair("LANG", "C"), pair("HOME", "/root")], &["LANG", "NO_PROXY"]);
    assert_eq!(op_get_env(&mut state, "LANG"), Ok(Some("C".to_string())));
    assert_eq!(op_get_env(&mut state, "NO_PROXY"), Ok(None));
    assert_eq!(op_get_env(&mut state, "HOME"), Err(denied("HOME")));
}

#[test]
fn allowlist_does_not_reach_writes_and_deletes() {
    let checker = Enforcing::new(false, vec![]);
    let mut state = state_with(checker, vec![pair("LANG", "C")], &["LANG"]);
    assert_eq!(op_set_env(&mut state, "LANG", "de"), Err(denied("LANG")));
    assert_eq!(op_delete_env(&mut state, "LANG"), Err(denied("LANG")));
    assert_eq!(op_get_env(&mut state, "LANG"), Ok(Some("C".to_string())));
}

#[test]
fn allowlisted_key_is_still_judged() {
    let checker = Enforcing::new(false, vec![]);
    let mut state = state_with(checker, vec![], &["", "A=B"]);
    assert_eq!(op_get_env(&mut state, ""), Err(OsError::InvalidArgument(InvalidArgument::EmptyKey)));
    assert_eq!(
        op_get_env(&mut state, "A=B"),
        Err(OsError::InvalidArgument(InvalidArgument::InvalidKeyChars))
    );
}

#[test]
fn refusal_comes_before_the_judgement_of_arguments() {
    let checker = Enforcing::new(false, vec![]);
    let mut state = state_with(checker, vec![], &[]);
    assert_eq!(op_set_env(&mut state, "", "x"), Err(denied("")));
    assert_eq!(op_set_env(&mut state, "A=B", "x\0"), Err(denied("A=B")));
    assert_eq!(op_get_env(&mut state, ""), Err(denied("")));
    assert_eq!(op_delete_env(&mut state, "A=B"), Err(denied("A=B")));
}

#[test]
fn snapshot_shows_the_successful_operations_in_order() {
    let checker = Enforcing::new(true, names(&["A", "B", "C", ""]));
    let mut state = state_with(checker, vec![pair("PATH", "/bin")], &[]);
    assert_eq!(op_set_env(&mut state, "A", "1"), Ok(()));
    assert_eq!(op_set_env(&mut state, "B", "2"), Ok(()));
    assert_eq!(op_set_env(&mut state, "D", "denied"), Err(denied("D")));
    assert_eq!(op_set_env(&mut state, "A", "3"), Ok(()));
    assert_eq!(op_set_env(&mut state, "", "x"), Err(OsError::InvalidArgument(InvalidArgument::EmptyKey)));
    assert_eq!(op_delete_env(&mut state, "B"), Ok(()));
    assert_eq!(op_delete_env(&mut state, "PATH"), Err(denied("PATH")));
    assert_eq!(op_set_env(&mut state, "C", "4"), Ok(()));
    assert_eq!(op_delete_env(&mut state, "C"), Ok(()));
    assert_eq!(op_set_env(&mut state, "C", "5"), Ok(()));
    let snapshot = op_env(&mut state).unwrap();
    assert_eq!(snapshot.len(), 3);
    assert_eq!(as_map(snapshot), as_map(vec![pair("PATH", "/bin"), pair("A", "3"), pair("C", "5")]));
}

#[test]
fn snapshot_is_denied_without_the_capability() {
    let checker = Enforcing::new(false, names(&["A"]));
    let mut state = state_with(checker, vec![pair("A", "1")], &["A"]);
    assert_eq!(op_env(&mut state), Err(denied_all()));
    assert_eq!(op_get_env(&mut state, "A"), Ok(Some("1".to_string())));
    assert_eq!(state.env.get_all(), vec![pair("A", "1")]);
}

#[test]
fn scenario_grant_foo() {
    let checker = Enforcing::new(false, names(&["FOO", "", "A=B"]));
    let mut state = state_with(checker, vec![pair("PATH", "/bin")], &[]);
    assert_eq!(op_set_env(&mut state, "FOO", "bar"), Ok(()));
    assert_eq!(op_get_env(&mut state, "FOO"), Ok(Some("bar".to_string())));
    assert_eq!(op_delete_env(&mut state, "FOO"), Ok(()));
    assert_eq!(op_get_env(&mut state, "FOO"), Ok(None));
    assert_eq!(op_set_env(&mut state, "", "x"), Err(OsError::InvalidArgument(InvalidArgument::EmptyKey)));
    assert_eq!(
        op_set_env(&mut state, "A=B", "x"),
        Err(OsError::InvalidArgument(InvalidArgument::InvalidKeyChars))
    );
    assert_eq!(state.env.get_all(), vec![pair("PATH", "/bin")]);
}

#[test]
fn scenario_with_a_permissive_checker() {
    let mut state = state_with(Permissive, vec![pair("PATH", "/bin")], &[]);
    assert_eq!(op_set_env(&mut state, "FOO", "bar"), Ok(()));
    assert_eq!(op_get_env(&mut state, "FOO"), Ok(Some("bar".to_string())));
    assert_eq!(op_delete_env(&mut state, "FOO"), Ok(()));
    assert_eq!(op_get_env(&mut state, "FOO"), Ok(None));
    assert_eq!(op_set_env(&mut state, "", "x"), Err(OsError::InvalidArgument(InvalidArgument::EmptyKey)));
    assert_eq!(
        op_set_env(&mut state, "A=B", "x"),
        Err(OsError::InvalidArgument(InvalidArgument::InvalidKeyChars))
    );
}

#[test]
fn decided_functions_follow_the_decision() {
    let no = PermissionDenied { capability: Capability::Variable("K".to_string()) };
    let mut store = EnvironmentStore::from_pairs(vec![pair("K", "v")]);
    assert_eq!(set_env_decided(&mut store, Err(no.clone()), "K", "w"), Err(OsError::PermissionDenied(no.clone())));
    assert_eq!(get_env_decided(&store, Err(no.clone()), "K"), Err(OsError::PermissionDenied(no.clone())));
    assert_eq!(delete_env_decided(&mut store, Err(no.clone()), "K"), Err(OsError::PermissionDenied(no.clone())));
    assert_eq!(env_decided(&store, Err(no.clone())), Err(OsError::PermissionDenied(no.clone())));
    assert_eq!(get_env_decided(&store, Ok(()), "K"), Ok(Some("v".to_string())));
    assert_eq!(set_env_decided(&mut store, Ok(()), "K", "w"), Ok(()));
    assert_eq!(env_decided(&store, Ok(())), Ok(vec![pair("K", "w")]));
    assert_eq!(delete_env_decided(&mut store, Ok(()), "K"), Ok(()));
    assert_eq!(env_decided(&store, Ok(())), Ok(vec![]));
}

#[test]
fn enforcing_checker_grants_what_it_was_built_with() {
    let mut checker = Enforcing::new(true, names(&["A"]));
    assert_eq!(checker.check_read_write("A"), Ok(()));
    assert_eq!(
        checker.check_read_write("B"),
        Err(PermissionDenied { capability: Capability::Variable("B".to_string()) })
    );
    assert_eq!(checker.check_read_all(), Ok(()));
    let mut strict = Enforcing::new(false, vec![]);
    assert_eq!(strict.check_read_all(), Err(PermissionDenied { capability: Capability::FullEnvironment }));
    let mut open = Permissive;
    assert_eq!(open.check_read_write("anything"), Ok(()));
    assert_eq!(open.check_read_all(), Ok(()));
}

#[test]
fn name_set_contains() {
    let set = NameSet::new(names(&["LANG", "NO_PROXY"]));
    assert!(set.contains("LANG"));
    assert!(set.contains("NO_PROXY"));
    assert!(!set.contains("lang"));
    assert!(!set.contains(""));
    assert!(!NameSet::empty().contains("LANG"));
}

#[test]
fn messages() {
    assert_eq!(OsError::InvalidArgument(InvalidArgument::EmptyKey).message(), "Key is an empty string.");
    assert_eq!(
        OsError::InvalidArgument(InvalidArgument::InvalidKeyChars).message(),
        "Key contains invalid characters."
    );
    assert_eq!(
        OsError::InvalidArgument(InvalidArgument::InvalidValueChars).message(),
        "Value contains invalid characters."
    );
    assert_eq!(OsError::SignalDeliveryFailed.message(), "Failed to send exit signal.");
    assert_eq!(denied_all().message(), "Requires env access.");
}
