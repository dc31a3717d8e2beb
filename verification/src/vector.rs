//! Three-component vectors in the layer's fixed-point representation.

use vstd::prelude::*;

use crate::ffi::IplVector3;
use crate::scalar::Scalar;

verus! {

/// A 3-D vector of fixed-point components, used for directions and
/// positions handed to the engine.
#[derive(Debug, Clone, Copy, PartialEq, Eq, Structural)]
pub struct Vector3 {
    /// X component.
    pub x: Scalar,
    /// Y component.
    pub y: Scalar,
    /// Z component.
    pub z: Scalar,
}

impl Vector3 {
    /// A vector from its three components.
    pub fn new(x: Scalar, y: Scalar, z: Scalar) -> (r: Vector3)
        ensures
            r == (Vector3 { x, y, z }),
    {
        Vector3 { x, y, z }
    }

    /// The same value in every component.
    pub fn splat(v: Scalar) -> (r: Vector3)
        ensures
            r == (Vector3 { x: v, y: v, z: v }),
    {
        Vector3 { x: v, y: v, z: v }
    }

    /// The zero vector.
    pub fn zero() -> (r: Vector3)
        ensures
            r.x.raw == 0,
            r.y.raw == 0,
            r.z.raw == 0,
    {
        Vector3::splat(Scalar::zero())
    }

    /// Marshals the vector into the ABI value struct, component for
    /// component.
    pub fn to_ipl(&self) -> (r: IplVector3)
        ensures
            r == (IplVector3 { x: self.x, y: self.y, z: self.z }),
    {
        IplVector3 { x: self.x, y: self.y, z: self.z }
    }
}

} // verus!
