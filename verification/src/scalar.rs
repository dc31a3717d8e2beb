//! Fixed-point scalars.
//!
//! Every real-valued quantity that crosses the engine boundary (gains,
//! occlusion factors, distances, durations, PCM samples) is carried as a
//! signed Q16.16 fixed-point value.  This layer never computes with these
//! quantities beyond copying them, so an exact integer representation keeps
//! the marshaling contracts precise.

use vstd::prelude::*;

verus! {

/// Raw representation of `1.0` in Q16.16.
pub const SCALAR_ONE_RAW: i32 = 65536;

/// A signed Q16.16 fixed-point number: the represented value is
/// `raw / 65536`.
#[derive(Debug, Clone, Copy, PartialEq, Eq, Structural)]
pub struct Scalar {
    pub raw: i32,
}

impl Scalar {
    /// Wraps a raw Q16.16 bit pattern.
    pub fn from_raw(raw: i32) -> (r: Scalar)
        ensures
            r.raw == raw,
    {
        Scalar { raw }
    }

    /// The value `0.0`.
    pub fn zero() -> (r: Scalar)
        ensures
            r.raw == 0,
    {
        Scalar { raw: 0 }
    }

    /// The value `1.0`.
    pub fn one() -> (r: Scalar)
        ensures
            r.raw == SCALAR_ONE_RAW,
    {
        Scalar { raw: SCALAR_ONE_RAW }
    }

    /// Converts a small integer exactly.
    pub fn from_int(i: i16) -> (r: Scalar)
        ensures
            r.raw == i * 65536,
    {
        Scalar { raw: (i as i32) * 65536 }
    }

    /// Whether the value lies in the closed interval `[0.0, 1.0]`.
    pub fn in_unit_interval(self) -> (r: bool)
        ensures
            r == (0 <= self.raw <= SCALAR_ONE_RAW),
    {
        0 <= self.raw && self.raw <= SCALAR_ONE_RAW
    }
}

/// One coefficient per frequency band.  The engine works in three bands,
/// centered at 400 Hz, 2.5 kHz and 15 kHz.
#[derive(Debug, Clone, Copy, PartialEq, Eq, Structural)]
pub struct Bands {
    /// Low band (400 Hz).
    pub low: Scalar,
    /// Mid band (2.5 kHz).
    pub mid: Scalar,
    /// High band (15 kHz).
    pub high: Scalar,
}

impl Bands {
    /// The same value in every band.
    pub fn splat(v: Scalar) -> (r: Bands)
        ensures
            r == (Bands { low: v, mid: v, high: v }),
    {
        Bands { low: v, mid: v, high: v }
    }

    /// The value `1.0` in every band.
    pub fn ones() -> (r: Bands)
        ensures
            r.low.raw == SCALAR_ONE_RAW,
            r.mid.raw == SCALAR_ONE_RAW,
            r.high.raw == SCALAR_ONE_RAW,
    {
        Bands::splat(Scalar::one())
    }

    /// The value `0.0` in every band.
    pub fn zeros() -> (r: Bands)
        ensures
            r.low.raw == 0,
            r.mid.raw == 0,
            r.high.raw == 0,
    {
        Bands::splat(Scalar::zero())
    }
}

} // verus!
