//! What the HTTP application shares with its handlers.

use vstd::prelude::*;

verus! {

/// The address under which the application is reached from outside.
pub struct ApplicationBaseUrl(pub String);

} // verus!
