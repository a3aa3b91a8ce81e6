//! Colour tags carried by a frame, each held as its numeric code.
use vstd::prelude::*;

verus! {

/// Colour space (matrix coefficients) code.
#[derive(Clone, Copy, Debug, PartialEq, Eq, Structural)]
pub struct Space(pub i32);

/// Colour range code (unspecified, limited or full).
#[derive(Clone, Copy, Debug, PartialEq, Eq, Structural)]
pub struct Range(pub i32);

/// Colour primaries code.
#[derive(Clone, Copy, Debug, PartialEq, Eq, Structural)]
pub struct Primaries(pub i32);

/// Colour transfer characteristic code.
#[derive(Clone, Copy, Debug, PartialEq, Eq, Structural)]
pub struct TransferCharacteristic(pub i32);

} // verus!
