//! The sixteen-key keypad.

use vstd::prelude::*;
use crate::state::NUM_KEYS;

verus! {

/// `key` is held down and no key with a smaller number is.
pub open spec fn is_lowest_pressed(keys: Seq<bool>, key: int) -> bool {
    &&& 0 <= key < keys.len()
    &&& keys[key]
    &&& forall|j: int| 0 <= j < key ==> !keys[j]
}

/// The smallest number of a key that is held down, if any key is.
pub open spec fn lowest_pressed(keys: Seq<bool>) -> Option<int> {
    if exists|key: int| is_lowest_pressed(keys, key) {
        Some(choose|key: int| is_lowest_pressed(keys, key))
    } else {
        None
    }
}

/// At most one key is the lowest pressed one, and `lowest_pressed` names it.
pub proof fn lemma_lowest_pressed_is(keys: Seq<bool>, key: int)
    requires
        is_lowest_pressed(keys, key),
    ensures
        lowest_pressed(keys) == Some(key),
{
    let chosen = choose|k: int| is_lowest_pressed(keys, k);
    assert(is_lowest_pressed(keys, chosen));
    if chosen < key {
        assert(!keys[chosen]);
    } else if key < chosen {
        assert(!keys[key]);
    }
}

/// With no key held down there is no lowest pressed key.
pub proof fn lemma_lowest_pressed_none(keys: Seq<bool>)
    requires
        forall|j: int| 0 <= j < keys.len() ==> !keys[j],
    ensures
        lowest_pressed(keys) is None,
{
}

/// With some key held down there is a lowest pressed key.
pub proof fn lemma_lowest_pressed_some(keys: Seq<bool>, key: int)
    requires
        0 <= key < keys.len(),
        keys[key],
    ensures
        lowest_pressed(keys) is Some,
        lowest_pressed(keys)->0 <= key,
    decreases key,
{
    if forall|j: int| 0 <= j < key ==> !keys[j] {
        assert(is_lowest_pressed(keys, key));
        lemma_lowest_pressed_is(keys, key);
    } else {
        let j = choose|j: int| 0 <= j < key && keys[j];
        lemma_lowest_pressed_some(keys, j);
    }
}

/// Finds the lowest-numbered key that is held down.
pub fn first_pressed_key(keys: &[bool; NUM_KEYS]) -> (found: Option<u8>)
    ensures
        match found {
            Some(key) => lowest_pressed(keys@) == Some(key as int),
            None => lowest_pressed(keys@) is None,
        },
{
    let mut i: usize = 0;
    while i < NUM_KEYS
        invariant
            i <= NUM_KEYS,
            forall|j: int| 0 <= j < i ==> !keys@[j],
        decreases NUM_KEYS - i,
    {
        if keys[i] {
            proof {
                lemma_lowest_pressed_is(keys@, i as int);
            }
            return Some(i as u8);
        }
        i += 1;
    }
    proof {
        lemma_lowest_pressed_none(keys@);
    }
    None
}

} // verus!
