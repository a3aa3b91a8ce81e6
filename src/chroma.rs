//! Chroma sample siting.
use vstd::prelude::*;

verus! {

/// Chroma sample location code.
#[derive(Clone, Copy, Debug, PartialEq, Eq, Structural)]
pub struct Location(pub i32);

} // verus!
