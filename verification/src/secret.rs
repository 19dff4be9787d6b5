//! The length rule for a wireless network's shared secret.

use vstd::prelude::*;
use vstd::string::StrSliceExecFns;

verus! {

/// Fewest characters a shared secret may have.
pub const MIN_SECRET_CHARS: usize = 8;

/// Most characters a shared secret may have.
pub const MAX_SECRET_CHARS: usize = 63;

/// A shared secret is acceptable when it has between 8 and 63 characters,
/// both bounds included.
pub open spec fn valid_secret(secret: Seq<char>) -> bool {
    MIN_SECRET_CHARS <= secret.len() <= MAX_SECRET_CHARS
}

/// Decides whether `secret` may be stored as a shared secret.
pub fn is_valid_secret(secret: &str) -> (accepted: bool)
    ensures
        accepted == valid_secret(secret@),
{
    let chars: usize = secret.unicode_len();
    MIN_SECRET_CHARS <= chars && chars <= MAX_SECRET_CHARS
}

} // verus!
