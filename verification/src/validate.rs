//! Syntax rules for variable names and values.

use vstd::prelude::*;
use vstd::std_specs::iter::IteratorSpec;
use vstd::string::*;
use crate::error::InvalidArgument;

verus! {

/// The key holds a character that no variable name may hold: `=` or NUL.
pub open spec fn has_invalid_key_char(key: Seq<char>) -> bool {
    key.contains('=') || key.contains('\0')
}

/// The value holds NUL.
pub open spec fn has_invalid_value_char(value: Seq<char>) -> bool {
    value.contains('\0')
}

/// A name that may be stored: non-empty, without `=` and without NUL.
pub open spec fn valid_key(key: Seq<char>) -> bool {
    key.len() > 0 && !has_invalid_key_char(key)
}

/// What a lookup of `key` reports before it touches the store.
pub open spec fn key_fault(key: Seq<char>) -> Option<InvalidArgument> {
    if key.len() == 0 {
        Some(InvalidArgument::EmptyKey)
    } else if has_invalid_key_char(key) {
        Some(InvalidArgument::InvalidKeyChars)
    } else {
        None
    }
}

/// What a write of `value` under `key` reports before it touches the store:
/// the key is judged first, then the value.
pub open spec fn write_fault(key: Seq<char>, value: Seq<char>) -> Option<InvalidArgument> {
    if key_fault(key) is Some {
        key_fault(key)
    } else if has_invalid_value_char(value) {
        Some(InvalidArgument::InvalidValueChars)
    } else {
        None
    }
}

/// What a removal of `key` reports before it touches the store: an empty key
/// and a key with a forbidden character are one kind here.
pub open spec fn delete_fault(key: Seq<char>) -> Option<InvalidArgument> {
    if valid_key(key) {
        None
    } else {
        Some(InvalidArgument::InvalidKeyChars)
    }
}

/// Whether `c` occurs in `s`, in one pass over its characters.
pub fn contains_char(s: &str, c: char) -> (found: bool)
    ensures
        found == s@.contains(c),
{
    broadcast use axiom_spec_iter;

    let mut rest = s.chars();
    let ghost mut seen: int = 0;
    loop
        invariant
            0 <= seen <= s@.len(),
            rest.remaining() == s@.skip(seen),
            forall|j: int| 0 <= j < seen ==> s@[j] != c,
        decreases s@.len() - seen,
    {
        let ghost before = rest;
        let item = rest.next();
        proof {
            next_postcondition(&before, &rest, item);
        }
        match item {
            Some(found) => {
                assert(found == s@[seen]);
                if found == c {
                    return true;
                }
                proof {
                    assert(s@.skip(seen).drop_first() =~= s@.skip(seen + 1));
                    seen = seen + 1;
                }
            },
            None => {
                assert(seen == s@.len());
                return false;
            },
        }
    }
}

/// Whether the key holds `=` or NUL.
pub fn key_has_invalid_char(key: &str) -> (found: bool)
    ensures
        found == has_invalid_key_char(key@),
{
    contains_char(key, '=') || contains_char(key, '\0')
}

/// Judges a key for a lookup.
pub fn check_key(key: &str) -> (r: Result<(), InvalidArgument>)
    ensures
        r == match key_fault(key@) {
            Some(fault) => Err::<(), InvalidArgument>(fault),
            None => Ok(()),
        },
{
    if key.is_empty() {
        Err(InvalidArgument::EmptyKey)
    } else if key_has_invalid_char(key) {
        Err(InvalidArgument::InvalidKeyChars)
    } else {
        Ok(())
    }
}

/// Judges a key and a value for a write.
pub fn check_write(key: &str, value: &str) -> (r: Result<(), InvalidArgument>)
    ensures
        r == match write_fault(key@, value@) {
            Some(fault) => Err::<(), InvalidArgument>(fault),
            None => Ok(()),
        },
{
    if key.is_empty() {
        Err(InvalidArgument::EmptyKey)
    } else if key_has_invalid_char(key) {
        Err(InvalidArgument::InvalidKeyChars)
    } else if contains_char(value, '\0') {
        Err(InvalidArgument::InvalidValueChars)
    } else {
        Ok(())
    }
}

/// Judges a key for a removal.
pub fn check_delete(key: &str) -> (r: Result<(), InvalidArgument>)
    ensures
        r == match delete_fault(key@) {
            Some(fault) => Err::<(), InvalidArgument>(fault),
            None => Ok(()),
        },
{
    if key.is_empty() || key_has_invalid_char(key) {
        Err(InvalidArgument::InvalidKeyChars)
    } else {
        Ok(())
    }
}

} // verus!
