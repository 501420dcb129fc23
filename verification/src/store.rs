//! The in-process mapping of variable names to values.

use vstd::prelude::*;
use vstd::string::*;
use crate::error::InvalidArgument;
use crate::validate::{check_delete, check_key, check_write, delete_fault, key_fault, valid_key,
    write_fault};

verus! {

/// A name with its value, as plain character sequences.
pub type Binding = (Seq<char>, Seq<char>);

/// The mathematical content of an environment: a map from names to values.
pub type Env = Map<Seq<char>, Seq<char>>;

/// The bindings of a list of owned pairs.
pub open spec fn bindings(pairs: Seq<(String, String)>) -> Seq<Binding> {
    Seq::new(pairs.len(), |i: int| (pairs[i].0@, pairs[i].1@))
}

/// The map that a list of bindings denotes; where a name occurs more than
/// once, the last occurrence counts.
pub open spec fn map_of(list: Seq<Binding>) -> Env
    decreases list.len(),
{
    if list.len() == 0 {
        Map::empty()
    } else {
        map_of(list.drop_last()).insert(list.last().0, list.last().1)
    }
}

/// No name occurs twice in the list.
pub open spec fn distinct_names(list: Seq<Binding>) -> bool {
    forall|i: int, j: int| 0 <= i < j < list.len() ==> list[i].0 != list[j].0
}

/// Some binding of the list has this name.
pub open spec fn names(list: Seq<Binding>, name: Seq<char>) -> bool {
    exists|i: int| 0 <= i < list.len() && #[trigger] list[i].0 == name
}

/// Every name of the environment is a valid key.
pub open spec fn all_keys_valid(env: Env) -> bool {
    forall|k: Seq<char>| env.contains_key(k) ==> valid_key(k)
}

/// The domain of `map_of` is the names of the list, and the map is finite.
pub proof fn lemma_map_of_domain(list: Seq<Binding>)
    ensures
        forall|k: Seq<char>| map_of(list).contains_key(k) <==> names(list, k),
        map_of(list).dom().finite(),
    decreases list.len(),
{
    if list.len() > 0 {
        let front = list.drop_last();
        lemma_map_of_domain(front);
        assert forall|k: Seq<char>| map_of(list).contains_key(k) <==> names(list, k) by {
            if names(list, k) {
                let i = choose|i: int| 0 <= i < list.len() && #[trigger] list[i].0 == k;
                if i < list.len() - 1 {
                    assert(front[i].0 == k);
                }
            }
            if names(front, k) {
                let i = choose|i: int| 0 <= i < front.len() && #[trigger] front[i].0 == k;
                assert(list[i].0 == k);
            }
            if k == list.last().0 {
                assert(list[list.len() - 1].0 == k);
            }
        }
    }
}

/// In a list without repeated names, each binding is what the map holds.
pub proof fn lemma_map_of_value(list: Seq<Binding>, i: int)
    requires
        distinct_names(list),
        0 <= i < list.len(),
    ensures
        map_of(list).contains_key(list[i].0),
        map_of(list)[list[i].0] == list[i].1,
    decreases list.len(),
{
    let front = list.drop_last();
    if i < list.len() - 1 {
        assert(distinct_names(front)) by {
            assert forall|a: int, b: int| 0 <= a < b < front.len() implies front[a].0
                != front[b].0 by {
                assert(list[a].0 != list[b].0);
            }
        }
        lemma_map_of_value(front, i);
        assert(front[i] == list[i]);
        assert(list[i].0 != list[list.len() - 1].0);
    }
}

/// Dropping the one binding of a name removes that name from the map.
pub proof fn lemma_map_of_remove(list: Seq<Binding>, i: int)
    requires
        distinct_names(list),
        0 <= i < list.len(),
    ensures
        distinct_names(list.remove(i)),
        map_of(list.remove(i)) == map_of(list).remove(list[i].0),
{
    let rest = list.remove(i);
    let k = list[i].0;
    assert(distinct_names(rest)) by {
        assert forall|a: int, b: int| 0 <= a < b < rest.len() implies rest[a].0 != rest[b].0 by {
            let a0 = if a < i { a } else { a + 1 };
            let b0 = if b < i { b } else { b + 1 };
            assert(rest[a] == list[a0] && rest[b] == list[b0]);
            assert(list[a0].0 != list[b0].0);
        }
    }
    lemma_map_of_domain(list);
    lemma_map_of_domain(rest);
    let lhs = map_of(rest);
    let rhs = map_of(list).remove(k);
    assert forall|q: Seq<char>| lhs.contains_key(q) <==> rhs.contains_key(q) by {
        if names(rest, q) {
            let a = choose|a: int| 0 <= a < rest.len() && #[trigger] rest[a].0 == q;
            let a0 = if a < i { a } else { a + 1 };
            assert(rest[a] == list[a0]);
            assert(list[a0].0 == q);
            if a0 < i {
                assert(list[a0].0 != list[i].0);
            } else {
                assert(list[i].0 != list[a0].0);
            }
        }
        if names(list, q) && q != k {
            let b = choose|b: int| 0 <= b < list.len() && #[trigger] list[b].0 == q;
            let b1 = if b < i { b } else { b - 1 };
            assert(rest[b1] == list[b]);
            assert(rest[b1].0 == q);
        }
    }
    assert forall|q: Seq<char>| lhs.contains_key(q) implies lhs[q] == rhs[q] by {
        assert(names(rest, q));
        let a = choose|a: int| 0 <= a < rest.len() && #[trigger] rest[a].0 == q;
        let a0 = if a < i { a } else { a + 1 };
        assert(rest[a] == list[a0]);
        lemma_map_of_value(rest, a);
        lemma_map_of_value(list, a0);
    }
    assert(lhs =~= rhs);
}

/// The environment variables of one process.
///
/// It is seeded once and then changed by `set` and `delete` alone. No name
/// occurs twice. The methods here ask for no capability: they are the host's
/// own access, and what guest code reaches goes through the operations,
/// which ask first.
pub struct EnvironmentStore {
    entries: Vec<(String, String)>,
}

impl View for EnvironmentStore {
    type V = Env;

    closed spec fn view(&self) -> Env {
        map_of(bindings(self.entries@))
    }
}

impl EnvironmentStore {
    /// The store's invariant: no name occurs twice.
    pub closed spec fn wf(&self) -> bool {
        distinct_names(bindings(self.entries@))
    }

    /// A store without variables.
    pub fn new() -> (store: Self)
        ensures
            store.wf(),
            store@ == Env::empty(),
    {
        let store = EnvironmentStore { entries: Vec::new() };
        assert(bindings(store.entries@) =~= Seq::<Binding>::empty());
        store
    }

    /// Where the variable `key` stands among the entries, if it is there.
    fn position(&self, key: &String) -> (at: Option<usize>)
        requires
            self.wf(),
        ensures
            match at {
                Some(i) => i < self.entries@.len() && self.entries@[i as int].0@ == key@
                    && self@.contains_key(key@) && self@[key@] == self.entries@[i as int].1@,
                None => !self@.contains_key(key@),
            },
    {
        let ghost list = bindings(self.entries@);
        let mut i: usize = 0;
        while i < self.entries.len()
            invariant
                0 <= i <= self.entries@.len(),
                list == bindings(self.entries@),
                distinct_names(list),
                forall|j: int| 0 <= j < i ==> list[j].0 != key@,
            decreases self.entries@.len() - i,
        {
            if self.entries[i].0 == *key {
                proof {
                    lemma_map_of_value(list, i as int);
                }
                return Some(i);
            }
            i = i + 1;
        }
        proof {
            lemma_map_of_domain(list);
            if names(list, key@) {
                let j = choose|j: int| 0 <= j < list.len() && #[trigger] list[j].0 == key@;
                assert(list[j].0 != key@);
            }
        }
        None
    }

    /// Drops the variable `key`, whatever its name looks like.
    fn remove_entry(&mut self, key: &String)
        requires
            old(self).wf(),
        ensures
            final(self).wf(),
            final(self)@ == old(self)@.remove(key@),
    {
        match self.position(key) {
            Some(i) => {
                proof {
                    lemma_map_of_remove(bindings(self.entries@), i as int);
                    assert(bindings(self.entries@.remove(i as int)) =~= bindings(
                        self.entries@,
                    ).remove(i as int));
                }
                self.entries.remove(i);
            },
            None => {
                assert(self@.remove(key@) =~= self@);
            },
        }
    }

    /// Binds `key` to `value`, whatever the two look like.
    fn put_entry(&mut self, key: String, value: String)
        requires
            old(self).wf(),
        ensures
            final(self).wf(),
            final(self)@ == old(self)@.insert(key@, value@),
    {
        self.remove_entry(&key);
        let ghost mid = bindings(self.entries@);
        proof {
            lemma_map_of_domain(mid);
        }
        self.entries.push((key, value));
        proof {
            let list = bindings(self.entries@);
            assert(list.drop_last() =~= mid);
            assert(list.last() == (key@, value@));
            assert(distinct_names(list)) by {
                assert forall|a: int, b: int| 0 <= a < b < list.len() implies list[a].0
                    != list[b].0 by {
                    assert(list[a] == mid[a]);
                    if b < mid.len() {
                        assert(list[b] == mid[b]);
                    } else {
                        assert(mid[a].0 == list[a].0);
                        assert(!names(mid, key@));
                    }
                }
            }
            assert(old(self)@.remove(key@).insert(key@, value@) =~= old(self)@.insert(
                key@,
                value@,
            ));
        }
    }

    /// A store seeded with an initial snapshot. The snapshot is taken as it
    /// is: its names are not judged, and of a name that occurs more than once
    /// the last binding stays.
    pub fn from_pairs(initial: Vec<(String, String)>) -> (store: Self)
        ensures
            store.wf(),
            store@ == map_of(bindings(initial@)),
    {
        let mut store = EnvironmentStore::new();
        let mut i: usize = 0;
        while i < initial.len()
            invariant
                0 <= i <= initial@.len(),
                store.wf(),
                store@ == map_of(bindings(initial@).take(i as int)),
            decreases initial@.len() - i,
        {
            let key = initial[i].0.clone();
            let value = initial[i].1.clone();
            proof {
                let next = bindings(initial@).take(i + 1);
                assert(next.drop_last() =~= bindings(initial@).take(i as int));
                assert(next.last() == (key@, value@));
            }
            store.put_entry(key, value);
            i = i + 1;
        }
        assert(bindings(initial@).take(i as int) =~= bindings(initial@));
        store
    }

    /// The value of `key`, or `None` where the store holds no such variable.
    /// A key that is empty or holds `=` or NUL is refused.
    pub fn get(&self, key: &str) -> (r: Result<Option<String>, InvalidArgument>)
        requires
            self.wf(),
        ensures
            lookup_outcome(self@, key@) == match r {
                Ok(Some(value)) => Ok::<Option<Seq<char>>, InvalidArgument>(Some(value@)),
                Ok(None) => Ok(None),
                Err(fault) => Err(fault),
            },
    {
        match check_key(key) {
            Err(fault) => Err(fault),
            Ok(()) => {
                let owned = key.to_owned();
                match self.position(&owned) {
                    Some(i) => Ok(Some(self.entries[i].1.clone())),
                    None => Ok(None),
                }
            },
        }
    }

    /// Binds `key` to `value`, over any earlier value. An empty key, a key
    /// with `=` or NUL and a value with NUL are refused, in this order, and
    /// a refused call changes nothing.
    pub fn set(&mut self, key: &str, value: &str) -> (r: Result<(), InvalidArgument>)
        requires
            old(self).wf(),
        ensures
            final(self).wf(),
            r == write_outcome(key@, value@),
            final(self)@ == env_after_write(old(self)@, key@, value@),
    {
        match check_write(key, value) {
            Err(fault) => Err(fault),
            Ok(()) => {
                self.put_entry(key.to_owned(), value.to_owned());
                Ok(())
            },
        }
    }

    /// Removes `key`; where the store holds no such variable this succeeds
    /// and changes nothing. A key that is empty or holds `=` or NUL is
    /// refused, under one kind of error.
    pub fn delete(&mut self, key: &str) -> (r: Result<(), InvalidArgument>)
        requires
            old(self).wf(),
        ensures
            final(self).wf(),
            r == delete_outcome(key@),
            final(self)@ == env_after_delete(old(self)@, key@),
    {
        match check_delete(key) {
            Err(fault) => Err(fault),
            Ok(()) => {
                let owned = key.to_owned();
                self.remove_entry(&owned);
                Ok(())
            },
        }
    }

    /// A copy of every variable, each name once, in no particular order.
    pub fn get_all(&self) -> (snapshot: Vec<(String, String)>)
        requires
            self.wf(),
        ensures
            distinct_names(bindings(snapshot@)),
            map_of(bindings(snapshot@)) == self@,
            snapshot@.len() == self@.len(),
    {
        let mut snapshot: Vec<(String, String)> = Vec::new();
        let mut i: usize = 0;
        while i < self.entries.len()
            invariant
                0 <= i <= self.entries@.len(),
                snapshot@.len() == i,
                bindings(snapshot@) == bindings(self.entries@).take(i as int),
            decreases self.entries@.len() - i,
        {
            let key = self.entries[i].0.clone();
            let value = self.entries[i].1.clone();
            let ghost earlier = bindings(snapshot@);
            let ghost shorter = snapshot@;
            snapshot.push((key, value));
            proof {
                let now = bindings(snapshot@);
                let goal = bindings(self.entries@).take(i + 1);
                assert forall|j: int| 0 <= j < goal.len() implies now[j] == goal[j] by {
                    if j < i {
                        assert(snapshot@[j] == shorter[j]);
                        assert(now[j] == earlier[j]);
                    }
                }
                assert(now =~= goal);
            }
            i = i + 1;
        }
        proof {
            assert(bindings(self.entries@).take(i as int) =~= bindings(self.entries@));
            lemma_len_of_distinct(bindings(self.entries@));
        }
        snapshot
    }
}

/// A list without repeated names denotes a map of as many variables.
pub proof fn lemma_len_of_distinct(list: Seq<Binding>)
    requires
        distinct_names(list),
    ensures
        map_of(list).len() == list.len(),
    decreases list.len(),
{
    if list.len() > 0 {
        let front = list.drop_last();
        assert(distinct_names(front)) by {
            assert forall|a: int, b: int| 0 <= a < b < front.len() implies front[a].0
                != front[b].0 by {
                assert(list[a].0 != list[b].0);
            }
        }
        lemma_len_of_distinct(front);
        lemma_map_of_domain(front);
        if names(front, list.last().0) {
            let j = choose|j: int| 0 <= j < front.len() && #[trigger] front[j].0 == list.last().0;
            assert(list[j].0 != list[list.len() - 1].0);
        }
    }
}

/// What `get` answers on an environment.
pub open spec fn lookup_outcome(env: Env, key: Seq<char>) -> Result<
    Option<Seq<char>>,
    InvalidArgument,
> {
    match key_fault(key) {
        Some(fault) => Err(fault),
        None => if env.contains_key(key) {
            Ok(Some(env[key]))
        } else {
            Ok(None)
        },
    }
}

/// What `set` answers.
pub open spec fn write_outcome(key: Seq<char>, value: Seq<char>) -> Result<(), InvalidArgument> {
    match write_fault(key, value) {
        Some(fault) => Err(fault),
        None => Ok(()),
    }
}

/// The environment that `set` leaves.
pub open spec fn env_after_write(env: Env, key: Seq<char>, value: Seq<char>) -> Env {
    if write_fault(key, value) is None {
        env.insert(key, value)
    } else {
        env
    }
}

/// What `delete` answers.
pub open spec fn delete_outcome(key: Seq<char>) -> Result<(), InvalidArgument> {
    match delete_fault(key) {
        Some(fault) => Err(fault),
        None => Ok(()),
    }
}

/// The environment that `delete` leaves.
pub open spec fn env_after_delete(env: Env, key: Seq<char>) -> Env {
    if delete_fault(key) is None {
        env.remove(key)
    } else {
        env
    }
}

} // verus!
