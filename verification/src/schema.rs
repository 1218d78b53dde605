//! The schema of the local database.

use vstd::prelude::*;

verus! {

/// The schema of the local database, which the library passes on without looking into it.
#[derive(Debug)]
pub struct SchemaOrCustom {
    /// The schema as a JSON value, in the text that it serializes to.
    pub value: Box<serde_json::value::RawValue>,
}

} // verus!
