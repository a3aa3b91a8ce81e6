//! Picture classification within a coded sequence.
use vstd::prelude::*;

verus! {

/// Picture type code (none, I, P, B, ...).
#[derive(Clone, Copy, Debug, PartialEq, Eq, Structural)]
pub struct Type(pub i32);

} // verus!
