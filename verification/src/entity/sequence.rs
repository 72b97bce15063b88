//! The next value of the id sequence.

use vstd::prelude::*;

verus! {

/// A value drawn from the id sequence.
pub struct Sequence {
    pub id: i64,
}

} // verus!
