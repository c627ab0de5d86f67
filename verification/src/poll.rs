//! The state of work that may have to wait.

use vstd::prelude::*;

verus! {

/// What came of asking for a value.
#[derive(Debug, PartialEq, Eq)]
pub enum Poll<T> {
    Ready(T),
    Pending,
}

} // verus!
