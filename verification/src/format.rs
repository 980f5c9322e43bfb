//! The formatters that encode values before they are stored: each is known
//! to the cache by an identifier, which becomes part of every cache key so
//! that values written by one formatter are never read back by another.

use vstd::prelude::*;

verus! {

/// A formatter using the `postcard` format.
#[derive(Debug, Clone, Copy, Default)]
pub struct PostcardFormatter;

/// A formatter using JSON.
#[derive(Debug, Clone, Copy, Default)]
pub struct JsonFormatter;

impl PostcardFormatter {
    /// The identifier that keys of values in this format end with.
    pub fn id(&self) -> (id: &'static str)
        ensures
            id@ == "postcard"@,
    {
        "postcard"
    }
}

impl JsonFormatter {
    /// The identifier that keys of values in this format end with.
    pub fn id(&self) -> (id: &'static str)
        ensures
            id@ == "json"@,
    {
        "json"
    }
}

} // verus!
