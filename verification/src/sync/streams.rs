//! Sync streams that an application subscribes to.

use vstd::prelude::*;

verus! {

/// What identifies a sync stream, which the library passes on without looking into it.
#[derive(Debug)]
pub struct StreamKey {
    /// The key as a JSON value, in the text that it serializes to.
    pub value: Box<serde_json::value::RawValue>,
}

} // verus!
