//! Strings in contracts.

use vstd::prelude::*;

verus! {

/// The characters of an optional string.
pub open spec fn opt_chars(text: Option<String>) -> Option<Seq<char>> {
    match text {
        Some(chars) => Some(chars@),
        None => None,
    }
}

} // verus!
