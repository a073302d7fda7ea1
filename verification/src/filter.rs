//! Relevance of an account, by the program that owns it.

use vstd::prelude::*;
use crate::codec::{key_views, keys_equal, FixedKey32};

verus! {

/// Decides whether an account matters, by the program that owns it.
pub struct IdentityFilter;

impl IdentityFilter {
    /// Whether `owner` is one of the `allowed` programs. With no program
    /// allowed, nothing is relevant.
    pub fn is_relevant(owner: &FixedKey32, allowed: &Vec<FixedKey32>) -> (relevant: bool)
        ensures
            relevant == key_views(allowed@).contains(owner@),
            allowed@.len() == 0 ==> !relevant,
    {
        let mut i: usize = 0;
        while i < allowed.len()
            invariant
                i <= allowed.len(),
                forall|j: int| 0 <= j < i ==> key_views(allowed@)[j] != owner@,
            decreases allowed.len() - i,
        {
            if keys_equal(&allowed[i], owner) {
                assert(key_views(allowed@)[i as int] == owner@);
                return true;
            }
            i += 1;
        }
        false
    }
}

} // verus!
