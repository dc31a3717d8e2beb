//! Acoustic surface properties.

use vstd::prelude::*;

use crate::ffi::IplMaterial;
use crate::scalar::{Bands, Scalar};

verus! {

/// Acoustic properties of a surface: plain values, no identity.
#[derive(Debug, Clone, Copy, PartialEq, Eq, Structural)]
pub struct Material {
    /// Fraction of sound energy absorbed, per band.
    pub absorption: Bands,
    /// Fraction of sound energy scattered on reflection.
    pub scattering: Scalar,
    /// Fraction of sound energy transmitted through, per band.
    pub transmission: Bands,
}

impl Material {
    /// The marshaled form: every coefficient copied verbatim.
    pub open spec fn to_ipl_spec(self) -> IplMaterial {
        IplMaterial {
            absorption: self.absorption,
            scattering: self.scattering,
            transmission: self.transmission,
        }
    }

    /// Marshals the material into the ABI value struct.
    pub fn to_ipl(&self) -> (r: IplMaterial)
        ensures
            r == self.to_ipl_spec(),
    {
        IplMaterial {
            absorption: self.absorption,
            scattering: self.scattering,
            transmission: self.transmission,
        }
    }
}

} // verus!
