//! What the shell keeps for its commands: which command a callback message
//! belongs to.

use vstd::prelude::*;
use std::collections::HashMap;

verus! {

broadcast use vstd::std_specs::hash::group_hash_axioms;

/// Highest message id that the shell's own loop uses. Callbacks are
/// registered above it.
pub const RESERVED_IDS: u32 = 1000;

/// Whether `key` can be given to a new callback: it lies above the ids of
/// the main loop and is not taken.
pub open spec fn spec_key_is_free(registrations: Map<u32, String>, key: u32) -> bool {
    key > RESERVED_IDS && !registrations.contains_key(key)
}

/// Registers `verb` for callbacks under the id `key`, which the caller has
/// drawn at random. Where the id is reserved or taken, nothing is
/// registered and the verb is handed back for a try with another id.
pub fn register_handler(
    cb_registrations: &mut HashMap<u32, String>,
    verb: String,
    key: u32,
) -> (result: Result<u32, String>)
    ensures
        match result {
            Ok(id) => {
                &&& id == key
                &&& spec_key_is_free(old(cb_registrations)@, key)
                &&& final(cb_registrations)@ == old(cb_registrations)@.insert(key, verb)
            },
            Err(back) => {
                &&& back == verb
                &&& !spec_key_is_free(old(cb_registrations)@, key)
                &&& final(cb_registrations)@ == old(cb_registrations)@
            },
        },
{
    // The lowest ids are reserved for the main loop.
    if !cb_registrations.contains_key(&key) && key > RESERVED_IDS {
        cb_registrations.insert(key, verb);
        Ok(key)
    } else {
        Err(verb)
    }
}

/// The verb that a callback message with id `id` goes to: the one
/// registered for the id, or else the verb of the last command.
pub fn callback_verb<'a>(
    cb_registrations: &'a HashMap<u32, String>,
    lastverb: &'a String,
    id: u32,
) -> (verb: &'a String)
    ensures
        *verb == if cb_registrations@.contains_key(id) {
            cb_registrations@[id]
        } else {
            *lastverb
        },
{
    match cb_registrations.get(&id) {
        Some(verb) => verb,
        None => lastverb,
    }
}

} // verus!
