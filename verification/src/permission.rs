//! The capability check that every operation consults, and the names that
//! may be read without one.

use vstd::prelude::*;
use vstd::string::*;
use crate::error::{Capability, PermissionDenied};

verus! {

/// The names that a list of owned strings holds.
pub open spec fn names_of(list: Seq<String>) -> Set<Seq<char>> {
    Set::new(|name: Seq<char>| exists|i: int| 0 <= i < list.len() && #[trigger] list[i]@ == name)
}

/// A fixed set of variable names.
pub struct NameSet {
    names: Vec<String>,
}

impl View for NameSet {
    type V = Set<Seq<char>>;

    closed spec fn view(&self) -> Set<Seq<char>> {
        names_of(self.names@)
    }
}

impl NameSet {
    /// The set of the given names.
    pub fn new(names: Vec<String>) -> (set: Self)
        ensures
            set@ == names_of(names@),
    {
        NameSet { names }
    }

    /// The set without names.
    pub fn empty() -> (set: Self)
        ensures
            set@ == Set::<Seq<char>>::empty(),
    {
        let set = NameSet { names: Vec::new() };
        assert(set@ =~= Set::<Seq<char>>::empty());
        set
    }

    /// Whether `name` is in the set.
    pub fn contains(&self, name: &str) -> (found: bool)
        ensures
            found == self@.contains(name@),
    {
        let wanted = name.to_owned();
        let mut i: usize = 0;
        while i < self.names.len()
            invariant
                0 <= i <= self.names@.len(),
                wanted@ == name@,
                forall|j: int| 0 <= j < i ==> self.names@[j]@ != name@,
            decreases self.names@.len() - i,
        {
            if self.names[i] == wanted {
                return true;
            }
            i = i + 1;
        }
        false
    }
}

/// The capability check, supplied by the host. The operations call it and
/// never decide a capability themselves; they promise nothing about what an
/// implementation answers.
pub trait PermissionChecker {
    /// May the caller read, write or delete the variable `key`?
    fn check_read_write(&mut self, key: &str) -> Result<(), PermissionDenied>;

    /// May the caller read the whole environment?
    fn check_read_all(&mut self) -> Result<(), PermissionDenied>;
}

/// A checker that grants everything.
pub struct Permissive;

impl PermissionChecker for Permissive {
    fn check_read_write(&mut self, key: &str) -> (r: Result<(), PermissionDenied>)
        ensures
            r is Ok,
    {
        Ok(())
    }

    fn check_read_all(&mut self) -> (r: Result<(), PermissionDenied>)
        ensures
            r is Ok,
    {
        Ok(())
    }
}

/// A checker that grants what it was built with and nothing else.
pub struct Enforcing {
    /// Whether the whole environment may be read.
    pub read_all: bool,
    /// The variables that may be read, written and deleted.
    pub variables: NameSet,
}

impl Enforcing {
    /// Whether the variable `key` is granted.
    pub open spec fn grants(&self, key: Seq<char>) -> bool {
        self.variables@.contains(key)
    }

    /// A checker that grants `variables`, and the whole environment where
    /// `read_all` is set.
    pub fn new(read_all: bool, variables: Vec<String>) -> (checker: Self)
        ensures
            checker.read_all == read_all,
            checker.variables@ == names_of(variables@),
    {
        Enforcing { read_all, variables: NameSet::new(variables) }
    }
}

impl PermissionChecker for Enforcing {
    fn check_read_write(&mut self, key: &str) -> (r: Result<(), PermissionDenied>)
        ensures
            *final(self) == *old(self),
            r is Ok <==> old(self).grants(key@),
            r matches Err(denied) ==> denied.capability matches Capability::Variable(name)
                && name@ == key@,
    {
        if self.variables.contains(key) {
            Ok(())
        } else {
            Err(PermissionDenied { capability: Capability::Variable(key.to_owned()) })
        }
    }

    fn check_read_all(&mut self) -> (r: Result<(), PermissionDenied>)
        ensures
            *final(self) == *old(self),
            r is Ok <==> old(self).read_all,
            r matches Err(denied) ==> denied.capability == Capability::FullEnvironment,
    {
        if self.read_all {
            Ok(())
        } else {
            Err(PermissionDenied { capability: Capability::FullEnvironment })
        }
    }
}

} // verus!
