//! Small reads other features gate themselves on.

use vstd::prelude::*;

verus! {

/// Whether anybody is listening: given, for each voice state the caller
/// sees, the channel that state sits in, decide whether any of them sits
/// in the destination channel.
pub fn users_listening(states: &Vec<Option<u64>>, channel: u64) -> (r: bool)
    ensures
        r == exists|i: int| 0 <= i < states@.len() && states@[i] == Some(channel),
{
    let mut i: usize = 0;
    while i < states.len()
        invariant
            i <= states@.len(),
            forall|t: int| 0 <= t < i ==> states@[t] != Some(channel),
        decreases states@.len() - i,
    {
        let found = match states[i] {
            Some(c) => c == channel,
            None => false,
        };
        if found {
            return true;
        }
        i = i + 1;
    }
    false
}

} // verus!
