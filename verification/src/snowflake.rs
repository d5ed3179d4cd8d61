//! Snowflake identifiers: 64-bit gateway object ids that travel on the
//! wire as decimal strings.

use vstd::prelude::*;

verus! {

/// A 64-bit gateway object identifier.
#[derive(Clone, Copy, Debug, PartialEq, Eq, Structural, Hash)]
pub struct Snowflake(pub u64);

impl Snowflake {
    /// The raw 64-bit value.
    pub fn value(&self) -> (r: u64)
        ensures
            r == self.0,
    {
        self.0
    }
}

} // verus!
