//! The reactor's reporting half: what the consumer says about a
//! successful amplification.
//!
//! The amplify request itself is one network write per invocation and
//! lives with the surrounding process; this module only builds the
//! human-readable confirmation from what the service returned.

use vstd::prelude::*;
use vstd::string::StringExecFns;

verus! {

/// The confirmation for a successfully amplified post: names the post's
/// public URL when the service exposes one, and is absent otherwise.
pub fn confirmation_message(public_url: &Option<String>) -> (m: Option<String>)
    ensures
        match public_url {
            Some(u) => m matches Some(s) && s@ == "Boosted "@ + u@,
            None => m is None,
        },
{
    match public_url {
        Some(u) => {
            let mut s = String::from_str("Boosted ");
            s.append(u.as_str());
            Some(s)
        },
        None => None,
    }
}

} // verus!
