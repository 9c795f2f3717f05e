//! A resilient streaming consumer for a remote notification feed.
//!
//! The library holds the decision logic of the consumer: the event model,
//! the classifier that picks out trusted mentions, the failure taxonomy,
//! and the supervisor state machine that decides when to reconnect, back
//! off, or stop. The surrounding process performs the network work and
//! feeds its outcomes back into the supervisor.

pub mod classifier;
pub mod model;
pub mod reactor;
pub mod supervisor;

use vstd::prelude::*;

verus! {

/// A prefix relation on character sequences: `prefix` is an initial
/// segment of `s`.
pub open spec fn is_prefix_of(prefix: Seq<char>, s: Seq<char>) -> bool {
    prefix.len() <= s.len() && prefix == s.subrange(0, prefix.len() as int)
}

/// Decides whether `s` starts with `prefix`, character by character.
pub fn has_prefix(s: &str, prefix: &str) -> (r: bool)
    ensures
        r == is_prefix_of(prefix@, s@),
{
    let n = prefix.unicode_len();
    if n > s.unicode_len() {
        return false;
    }
    let mut i: usize = 0;
    while i < n
        invariant
            n == prefix@.len(),
            n <= s@.len(),
            i <= n,
            forall|j: int| 0 <= j < i ==> prefix@[j] == s@[j],
        decreases n - i,
    {
        if s.get_char(i) != prefix.get_char(i) {
            assert(!is_prefix_of(prefix@, s@)) by {
                if is_prefix_of(prefix@, s@) {
                    assert(prefix@[i as int] == s@.subrange(0, prefix@.len() as int)[i as int]);
                }
            }
            return false;
        }
        i += 1;
    }
    assert(prefix@ =~= s@.subrange(0, prefix@.len() as int));
    true
}

} // verus!
