//! Listener and source orientation frames.

use vstd::prelude::*;

use crate::ffi::{IplCoordinateSpace3, IplVector3};
use crate::scalar::Scalar;
use crate::vector::Vector3;

verus! {

/// A coordinate frame: three unit axes and an origin.  The default frame
/// looks down the negative Z axis with Y up, from the world origin.
#[derive(Debug, Clone, Copy, PartialEq, Eq, Structural)]
pub struct Orientation {
    /// Unit vector to the right.
    pub right: Vector3,
    /// Unit vector upward.
    pub up: Vector3,
    /// Unit vector ahead.
    pub ahead: Vector3,
    /// Origin of the frame.
    pub origin: Vector3,
}

impl Orientation {
    /// The identity frame: X right, Y up, looking down negative Z, at the
    /// origin.
    pub open spec fn default_spec() -> Orientation {
        Orientation {
            right: Vector3 {
                x: Scalar { raw: crate::scalar::SCALAR_ONE_RAW },
                y: Scalar { raw: 0 },
                z: Scalar { raw: 0 },
            },
            up: Vector3 {
                x: Scalar { raw: 0 },
                y: Scalar { raw: crate::scalar::SCALAR_ONE_RAW },
                z: Scalar { raw: 0 },
            },
            ahead: Vector3 {
                x: Scalar { raw: 0 },
                y: Scalar { raw: 0 },
                z: Scalar { raw: -65536i32 },
            },
            origin: Vector3 { x: Scalar { raw: 0 }, y: Scalar { raw: 0 }, z: Scalar { raw: 0 } },
        }
    }

    /// The spec-level marshaled form: each axis component for component.
    pub open spec fn to_ipl_spec(self) -> IplCoordinateSpace3 {
        IplCoordinateSpace3 {
            right: IplVector3 { x: self.right.x, y: self.right.y, z: self.right.z },
            up: IplVector3 { x: self.up.x, y: self.up.y, z: self.up.z },
            ahead: IplVector3 { x: self.ahead.x, y: self.ahead.y, z: self.ahead.z },
            origin: IplVector3 { x: self.origin.x, y: self.origin.y, z: self.origin.z },
        }
    }

    /// Marshals the frame into the ABI value struct.
    pub fn to_ipl(&self) -> (r: IplCoordinateSpace3)
        ensures
            r == self.to_ipl_spec(),
    {
        IplCoordinateSpace3 {
            right: self.right.to_ipl(),
            up: self.up.to_ipl(),
            ahead: self.ahead.to_ipl(),
            origin: self.origin.to_ipl(),
        }
    }
}

impl Default for Orientation {
    /// The identity frame: X right, Y up, looking down negative Z, at the
    /// origin.
    fn default() -> (r: Orientation)
        ensures
            r.right == (Vector3 {
                x: Scalar { raw: crate::scalar::SCALAR_ONE_RAW },
                y: Scalar { raw: 0 },
                z: Scalar { raw: 0 },
            }),
            r.up == (Vector3 {
                x: Scalar { raw: 0 },
                y: Scalar { raw: crate::scalar::SCALAR_ONE_RAW },
                z: Scalar { raw: 0 },
            }),
            r.ahead == (Vector3 {
                x: Scalar { raw: 0 },
                y: Scalar { raw: 0 },
                z: Scalar { raw: -65536i32 },
            }),
            r.origin == (Vector3 { x: Scalar { raw: 0 }, y: Scalar { raw: 0 }, z: Scalar { raw: 0 } }),
    {
        Orientation {
            right: Vector3 { x: Scalar::one(), y: Scalar::zero(), z: Scalar::zero() },
            up: Vector3 { x: Scalar::zero(), y: Scalar::one(), z: Scalar::zero() },
            ahead: Vector3 { x: Scalar::zero(), y: Scalar::zero(), z: Scalar::from_raw(-65536) },
            origin: Vector3 { x: Scalar::zero(), y: Scalar::zero(), z: Scalar::zero() },
        }
    }
}

} // verus!
