//! Typed, exhaustive decoding of command invocations.

use vstd::prelude::*;

pub mod error;
pub mod laws;
pub mod model;
pub mod options;
pub mod response;
pub mod target;
pub mod visitor;

verus! {

/// The identity function, for use where a projection is expected.
pub fn id<T>(t: T) -> (r: T)
    ensures
        r == t,
{
    t
}

} // verus!
