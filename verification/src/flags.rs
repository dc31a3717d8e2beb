//! Category flag sets, as structs of named booleans.
//!
//! The ABI carries these as bit masks; each set documents its bit layout
//! and proves that encoding and decoding are inverse to each other.  The
//! `all` and `default` presets follow the engine's conventions: `default`
//! enables the lightest category only.

use vstd::prelude::*;

verus! {

/// Bit of the direct simulation category.
pub const SIMULATION_FLAG_DIRECT_BIT: i32 = 1;

/// Bit of the reflections simulation category.
pub const SIMULATION_FLAG_REFLECTIONS_BIT: i32 = 2;

/// Bit of the pathing simulation category.
pub const SIMULATION_FLAG_PATHING_BIT: i32 = 4;

/// Bit of the distance attenuation quantity.
pub const DIRECT_FLAG_DISTANCE_ATTENUATION_BIT: i32 = 1;

/// Bit of the air absorption quantity.
pub const DIRECT_FLAG_AIR_ABSORPTION_BIT: i32 = 2;

/// Bit of the directivity quantity.
pub const DIRECT_FLAG_DIRECTIVITY_BIT: i32 = 4;

/// Bit of the occlusion quantity.
pub const DIRECT_FLAG_OCCLUSION_BIT: i32 = 8;

/// Bit of the transmission quantity.
pub const DIRECT_FLAG_TRANSMISSION_BIT: i32 = 16;

/// Which simulation categories an operation concerns: the direct path,
/// reflections, pathing.
#[derive(Debug, Clone, Copy, PartialEq, Eq, Structural)]
pub struct SimulationFlags {
    /// Direct-path simulation.
    pub direct: bool,
    /// Reflection simulation.
    pub reflections: bool,
    /// Pathing simulation.
    pub pathing: bool,
}

impl SimulationFlags {
    /// The ABI bit mask of this set.
    pub open spec fn bits_spec(self) -> i32 {
        (if self.direct {
            SIMULATION_FLAG_DIRECT_BIT
        } else {
            0
        }) | (if self.reflections {
            SIMULATION_FLAG_REFLECTIONS_BIT
        } else {
            0
        }) | (if self.pathing {
            SIMULATION_FLAG_PATHING_BIT
        } else {
            0
        })
    }

    /// Marshals the set into its ABI bit mask.
    pub fn bits(self) -> (r: i32)
        ensures
            r == self.bits_spec(),
    {
        (if self.direct {
            SIMULATION_FLAG_DIRECT_BIT
        } else {
            0
        }) | (if self.reflections {
            SIMULATION_FLAG_REFLECTIONS_BIT
        } else {
            0
        }) | (if self.pathing {
            SIMULATION_FLAG_PATHING_BIT
        } else {
            0
        })
    }

    /// Reads a set back from its ABI bit mask.
    pub fn from_bits(b: i32) -> (r: SimulationFlags)
        ensures
            r.direct == (b & SIMULATION_FLAG_DIRECT_BIT != 0),
            r.reflections == (b & SIMULATION_FLAG_REFLECTIONS_BIT != 0),
            r.pathing == (b & SIMULATION_FLAG_PATHING_BIT != 0),
    {
        SimulationFlags {
            direct: b & SIMULATION_FLAG_DIRECT_BIT != 0,
            reflections: b & SIMULATION_FLAG_REFLECTIONS_BIT != 0,
            pathing: b & SIMULATION_FLAG_PATHING_BIT != 0,
        }
    }

    /// Every category.
    pub fn all() -> (r: SimulationFlags)
        ensures
            r == (SimulationFlags { direct: true, reflections: true, pathing: true }),
    {
        SimulationFlags { direct: true, reflections: true, pathing: true }
    }
}

impl Default for SimulationFlags {
    /// The default set: the direct path only.
    fn default() -> (r: SimulationFlags)
        ensures
            r == (SimulationFlags { direct: true, reflections: false, pathing: false }),
    {
        SimulationFlags { direct: true, reflections: false, pathing: false }
    }
}

/// Decoding a simulation flag mask undoes encoding it: the two functions
/// are inverse on every flag set.
pub proof fn lemma_simulation_flags_roundtrip(f: SimulationFlags)
    ensures
        ({
            let b = f.bits_spec();
            &&& (b & SIMULATION_FLAG_DIRECT_BIT != 0) == f.direct
            &&& (b & SIMULATION_FLAG_REFLECTIONS_BIT != 0) == f.reflections
            &&& (b & SIMULATION_FLAG_PATHING_BIT != 0) == f.pathing
        }),
{
    let d: i32 = if f.direct {
        1
    } else {
        0
    };
    let r: i32 = if f.reflections {
        2
    } else {
        0
    };
    let p: i32 = if f.pathing {
        4
    } else {
        0
    };
    assert((d | r | p) & 1i32 == d && (d | r | p) & 2i32 == r && (d | r | p) & 4i32 == p)
        by (bit_vector)
        requires
            d == 0i32 || d == 1i32,
            r == 0i32 || r == 2i32,
            p == 0i32 || p == 4i32,
    ;
}

/// Which direct-path quantities to simulate or to apply.
#[derive(Debug, Clone, Copy, PartialEq, Eq, Structural)]
pub struct DirectSimulationFlags {
    /// Distance attenuation.
    pub distance_attenuation: bool,
    /// Air absorption.
    pub air_absorption: bool,
    /// Directivity.
    pub directivity: bool,
    /// Occlusion.
    pub occlusion: bool,
    /// Transmission.
    pub transmission: bool,
}

impl DirectSimulationFlags {
    /// The ABI bit mask of this set.
    pub open spec fn bits_spec(self) -> i32 {
        (if self.distance_attenuation {
            DIRECT_FLAG_DISTANCE_ATTENUATION_BIT
        } else {
            0
        }) | (if self.air_absorption {
            DIRECT_FLAG_AIR_ABSORPTION_BIT
        } else {
            0
        }) | (if self.directivity {
            DIRECT_FLAG_DIRECTIVITY_BIT
        } else {
            0
        }) | (if self.occlusion {
            DIRECT_FLAG_OCCLUSION_BIT
        } else {
            0
        }) | (if self.transmission {
            DIRECT_FLAG_TRANSMISSION_BIT
        } else {
            0
        })
    }

    /// Marshals the set into its ABI bit mask.
    pub fn bits(self) -> (r: i32)
        ensures
            r == self.bits_spec(),
    {
        (if self.distance_attenuation {
            DIRECT_FLAG_DISTANCE_ATTENUATION_BIT
        } else {
            0
        }) | (if self.air_absorption {
            DIRECT_FLAG_AIR_ABSORPTION_BIT
        } else {
            0
        }) | (if self.directivity {
            DIRECT_FLAG_DIRECTIVITY_BIT
        } else {
            0
        }) | (if self.occlusion {
            DIRECT_FLAG_OCCLUSION_BIT
        } else {
            0
        }) | (if self.transmission {
            DIRECT_FLAG_TRANSMISSION_BIT
        } else {
            0
        })
    }

    /// Every quantity.
    pub fn all() -> (r: DirectSimulationFlags)
        ensures
            r == (DirectSimulationFlags {
                distance_attenuation: true,
                air_absorption: true,
                directivity: true,
                occlusion: true,
                transmission: true,
            }),
    {
        DirectSimulationFlags {
            distance_attenuation: true,
            air_absorption: true,
            directivity: true,
            occlusion: true,
            transmission: true,
        }
    }
}

impl Default for DirectSimulationFlags {
    /// The default set: distance attenuation only.
    fn default() -> (r: DirectSimulationFlags)
        ensures
            r == (DirectSimulationFlags {
                distance_attenuation: true,
                air_absorption: false,
                directivity: false,
                occlusion: false,
                transmission: false,
            }),
    {
        DirectSimulationFlags {
            distance_attenuation: true,
            air_absorption: false,
            directivity: false,
            occlusion: false,
            transmission: false,
        }
    }
}

/// Which direct-path quantities a direct effect applies to the sound.
#[derive(Debug, Clone, Copy, PartialEq, Eq, Structural)]
pub struct DirectEffectFlags {
    /// Apply distance attenuation.
    pub distance_attenuation: bool,
    /// Apply air absorption.
    pub air_absorption: bool,
    /// Apply directivity.
    pub directivity: bool,
    /// Apply occlusion.
    pub occlusion: bool,
    /// Apply transmission.
    pub transmission: bool,
}

impl DirectEffectFlags {
    /// The ABI bit mask of this set.
    pub open spec fn bits_spec(self) -> i32 {
        (if self.distance_attenuation {
            DIRECT_FLAG_DISTANCE_ATTENUATION_BIT
        } else {
            0
        }) | (if self.air_absorption {
            DIRECT_FLAG_AIR_ABSORPTION_BIT
        } else {
            0
        }) | (if self.directivity {
            DIRECT_FLAG_DIRECTIVITY_BIT
        } else {
            0
        }) | (if self.occlusion {
            DIRECT_FLAG_OCCLUSION_BIT
        } else {
            0
        }) | (if self.transmission {
            DIRECT_FLAG_TRANSMISSION_BIT
        } else {
            0
        })
    }

    /// Marshals the set into its ABI bit mask.
    pub fn bits(self) -> (r: i32)
        ensures
            r == self.bits_spec(),
    {
        (if self.distance_attenuation {
            DIRECT_FLAG_DISTANCE_ATTENUATION_BIT
        } else {
            0
        }) | (if self.air_absorption {
            DIRECT_FLAG_AIR_ABSORPTION_BIT
        } else {
            0
        }) | (if self.directivity {
            DIRECT_FLAG_DIRECTIVITY_BIT
        } else {
            0
        }) | (if self.occlusion {
            DIRECT_FLAG_OCCLUSION_BIT
        } else {
            0
        }) | (if self.transmission {
            DIRECT_FLAG_TRANSMISSION_BIT
        } else {
            0
        })
    }

    /// Reads a set back from its ABI bit mask.
    pub fn from_bits(b: i32) -> (r: DirectEffectFlags)
        ensures
            r.distance_attenuation == (b & DIRECT_FLAG_DISTANCE_ATTENUATION_BIT != 0),
            r.air_absorption == (b & DIRECT_FLAG_AIR_ABSORPTION_BIT != 0),
            r.directivity == (b & DIRECT_FLAG_DIRECTIVITY_BIT != 0),
            r.occlusion == (b & DIRECT_FLAG_OCCLUSION_BIT != 0),
            r.transmission == (b & DIRECT_FLAG_TRANSMISSION_BIT != 0),
    {
        DirectEffectFlags {
            distance_attenuation: b & DIRECT_FLAG_DISTANCE_ATTENUATION_BIT != 0,
            air_absorption: b & DIRECT_FLAG_AIR_ABSORPTION_BIT != 0,
            directivity: b & DIRECT_FLAG_DIRECTIVITY_BIT != 0,
            occlusion: b & DIRECT_FLAG_OCCLUSION_BIT != 0,
            transmission: b & DIRECT_FLAG_TRANSMISSION_BIT != 0,
        }
    }

    /// Every quantity.
    pub fn all() -> (r: DirectEffectFlags)
        ensures
            r == (DirectEffectFlags {
                distance_attenuation: true,
                air_absorption: true,
                directivity: true,
                occlusion: true,
                transmission: true,
            }),
    {
        DirectEffectFlags {
            distance_attenuation: true,
            air_absorption: true,
            directivity: true,
            occlusion: true,
            transmission: true,
        }
    }

    /// The quantities that were simulated are the ones an effect applies:
    /// the matching effect flag set for a simulation flag set.
    pub fn from_simulation(f: DirectSimulationFlags) -> (r: DirectEffectFlags)
        ensures
            r.distance_attenuation == f.distance_attenuation,
            r.air_absorption == f.air_absorption,
            r.directivity == f.directivity,
            r.occlusion == f.occlusion,
            r.transmission == f.transmission,
    {
        DirectEffectFlags {
            distance_attenuation: f.distance_attenuation,
            air_absorption: f.air_absorption,
            directivity: f.directivity,
            occlusion: f.occlusion,
            transmission: f.transmission,
        }
    }
}

impl Default for DirectEffectFlags {
    /// The default set: distance attenuation only.
    fn default() -> (r: DirectEffectFlags)
        ensures
            r == (DirectEffectFlags {
                distance_attenuation: true,
                air_absorption: false,
                directivity: false,
                occlusion: false,
                transmission: false,
            }),
    {
        DirectEffectFlags {
            distance_attenuation: true,
            air_absorption: false,
            directivity: false,
            occlusion: false,
            transmission: false,
        }
    }
}

/// Decoding a direct effect flag mask undoes encoding it: the two
/// functions are inverse on every flag set.
pub proof fn lemma_direct_effect_flags_roundtrip(f: DirectEffectFlags)
    ensures
        ({
            let b = f.bits_spec();
            &&& (b & DIRECT_FLAG_DISTANCE_ATTENUATION_BIT != 0) == f.distance_attenuation
            &&& (b & DIRECT_FLAG_AIR_ABSORPTION_BIT != 0) == f.air_absorption
            &&& (b & DIRECT_FLAG_DIRECTIVITY_BIT != 0) == f.directivity
            &&& (b & DIRECT_FLAG_OCCLUSION_BIT != 0) == f.occlusion
            &&& (b & DIRECT_FLAG_TRANSMISSION_BIT != 0) == f.transmission
        }),
{
    let a: i32 = if f.distance_attenuation {
        1
    } else {
        0
    };
    let b2: i32 = if f.air_absorption {
        2
    } else {
        0
    };
    let c: i32 = if f.directivity {
        4
    } else {
        0
    };
    let d: i32 = if f.occlusion {
        8
    } else {
        0
    };
    let e: i32 = if f.transmission {
        16
    } else {
        0
    };
    assert((a | b2 | c | d | e) & 1i32 == a && (a | b2 | c | d | e) & 2i32 == b2 && (a | b2 | c | d
        | e) & 4i32 == c && (a | b2 | c | d | e) & 8i32 == d && (a | b2 | c | d | e) & 16i32 == e)
        by (bit_vector)
        requires
            a == 0i32 || a == 1i32,
            b2 == 0i32 || b2 == 2i32,
            c == 0i32 || c == 4i32,
            d == 0i32 || d == 8i32,
            e == 0i32 || e == 16i32,
    ;
}

} // verus!
