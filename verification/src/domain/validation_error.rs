//! Why a raw field was refused.

use vstd::prelude::*;

verus! {

/// The reason a raw subscriber field failed validation. Every variant
/// describes something the submitter can correct.
#[derive(Debug, Clone, Copy, PartialEq, Eq)]
pub enum ValidationError {
    /// The field is empty or holds white space only.
    Empty,
    /// The field is longer than the limit allows.
    TooLong,
    /// The field holds a character that is not allowed in it.
    ForbiddenCharacter,
    /// The field does not follow the grammar of an email address.
    InvalidFormat,
}

} // verus!
