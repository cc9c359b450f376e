//! Settings that the service is started with.

use vstd::prelude::*;

verus! {

/// The address under which the service is reached from outside, without a
/// slash at its end.
#[derive(Debug)]
pub struct ApplicationBaseUrl(pub String);

} // verus!
