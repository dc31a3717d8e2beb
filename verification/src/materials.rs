//! Measured material presets.
//!
//! Q16.16 renderings of commonly used surface properties, each listed in
//! the three frequency bands of 400 Hz, 2.5 kHz and 15 kHz.

use vstd::prelude::*;

use crate::material::Material;
use crate::scalar::{Bands, Scalar};

verus! {

/// Generic surface: absorption 0.10/0.20/0.30, scattering 0.05,
/// transmission 0.100/0.050/0.030.
pub fn generic() -> (m: Material)
    ensures
        m == (Material {
            absorption: Bands {
                low: Scalar { raw: 6554 },
                mid: Scalar { raw: 13107 },
                high: Scalar { raw: 19661 },
            },
            scattering: Scalar { raw: 3277 },
            transmission: Bands {
                low: Scalar { raw: 6554 },
                mid: Scalar { raw: 3277 },
                high: Scalar { raw: 1966 },
            },
        }),
{
    Material {
        absorption: Bands {
            low: Scalar { raw: 6554 },
            mid: Scalar { raw: 13107 },
            high: Scalar { raw: 19661 },
        },
        scattering: Scalar { raw: 3277 },
        transmission: Bands {
            low: Scalar { raw: 6554 },
            mid: Scalar { raw: 3277 },
            high: Scalar { raw: 1966 },
        },
    }
}

/// Brick: absorption 0.03/0.04/0.07, scattering 0.05,
/// transmission 0.015/0.015/0.015.
pub fn brick() -> (m: Material)
    ensures
        m == (Material {
            absorption: Bands {
                low: Scalar { raw: 1966 },
                mid: Scalar { raw: 2621 },
                high: Scalar { raw: 4588 },
            },
            scattering: Scalar { raw: 3277 },
            transmission: Bands {
                low: Scalar { raw: 983 },
                mid: Scalar { raw: 983 },
                high: Scalar { raw: 983 },
            },
        }),
{
    Material {
        absorption: Bands {
            low: Scalar { raw: 1966 },
            mid: Scalar { raw: 2621 },
            high: Scalar { raw: 4588 },
        },
        scattering: Scalar { raw: 3277 },
        transmission: Bands {
            low: Scalar { raw: 983 },
            mid: Scalar { raw: 983 },
            high: Scalar { raw: 983 },
        },
    }
}

/// Concrete: absorption 0.05/0.07/0.08, scattering 0.05,
/// transmission 0.015/0.002/0.001.
pub fn concrete() -> (m: Material)
    ensures
        m == (Material {
            absorption: Bands {
                low: Scalar { raw: 3277 },
                mid: Scalar { raw: 4588 },
                high: Scalar { raw: 5243 },
            },
            scattering: Scalar { raw: 3277 },
            transmission: Bands {
                low: Scalar { raw: 983 },
                mid: Scalar { raw: 131 },
                high: Scalar { raw: 66 },
            },
        }),
{
    Material {
        absorption: Bands {
            low: Scalar { raw: 3277 },
            mid: Scalar { raw: 4588 },
            high: Scalar { raw: 5243 },
        },
        scattering: Scalar { raw: 3277 },
        transmission: Bands {
            low: Scalar { raw: 983 },
            mid: Scalar { raw: 131 },
            high: Scalar { raw: 66 },
        },
    }
}

/// Ceramic: absorption 0.01/0.02/0.02, scattering 0.05,
/// transmission 0.060/0.044/0.011.
pub fn ceramic() -> (m: Material)
    ensures
        m == (Material {
            absorption: Bands {
                low: Scalar { raw: 655 },
                mid: Scalar { raw: 1311 },
                high: Scalar { raw: 1311 },
            },
            scattering: Scalar { raw: 3277 },
            transmission: Bands {
                low: Scalar { raw: 3932 },
                mid: Scalar { raw: 2884 },
                high: Scalar { raw: 721 },
            },
        }),
{
    Material {
        absorption: Bands {
            low: Scalar { raw: 655 },
            mid: Scalar { raw: 1311 },
            high: Scalar { raw: 1311 },
        },
        scattering: Scalar { raw: 3277 },
        transmission: Bands {
            low: Scalar { raw: 3932 },
            mid: Scalar { raw: 2884 },
            high: Scalar { raw: 721 },
        },
    }
}

/// Gravel: absorption 0.60/0.70/0.80, scattering 0.05,
/// transmission 0.031/0.012/0.008.
pub fn gravel() -> (m: Material)
    ensures
        m == (Material {
            absorption: Bands {
                low: Scalar { raw: 39322 },
                mid: Scalar { raw: 45875 },
                high: Scalar { raw: 52429 },
            },
            scattering: Scalar { raw: 3277 },
            transmission: Bands {
                low: Scalar { raw: 2032 },
                mid: Scalar { raw: 786 },
                high: Scalar { raw: 524 },
            },
        }),
{
    Material {
        absorption: Bands {
            low: Scalar { raw: 39322 },
            mid: Scalar { raw: 45875 },
            high: Scalar { raw: 52429 },
        },
        scattering: Scalar { raw: 3277 },
        transmission: Bands {
            low: Scalar { raw: 2032 },
            mid: Scalar { raw: 786 },
            high: Scalar { raw: 524 },
        },
    }
}

/// Carpet: absorption 0.24/0.69/0.73, scattering 0.05,
/// transmission 0.020/0.005/0.003.
pub fn carpet() -> (m: Material)
    ensures
        m == (Material {
            absorption: Bands {
                low: Scalar { raw: 15729 },
                mid: Scalar { raw: 45220 },
                high: Scalar { raw: 47841 },
            },
            scattering: Scalar { raw: 3277 },
            transmission: Bands {
                low: Scalar { raw: 1311 },
                mid: Scalar { raw: 328 },
                high: Scalar { raw: 197 },
            },
        }),
{
    Material {
        absorption: Bands {
            low: Scalar { raw: 15729 },
            mid: Scalar { raw: 45220 },
            high: Scalar { raw: 47841 },
        },
        scattering: Scalar { raw: 3277 },
        transmission: Bands {
            low: Scalar { raw: 1311 },
            mid: Scalar { raw: 328 },
            high: Scalar { raw: 197 },
        },
    }
}

/// Glass: absorption 0.06/0.03/0.02, scattering 0.05,
/// transmission 0.060/0.044/0.011.
pub fn glass() -> (m: Material)
    ensures
        m == (Material {
            absorption: Bands {
                low: Scalar { raw: 3932 },
                mid: Scalar { raw: 1966 },
                high: Scalar { raw: 1311 },
            },
            scattering: Scalar { raw: 3277 },
            transmission: Bands {
                low: Scalar { raw: 3932 },
                mid: Scalar { raw: 2884 },
                high: Scalar { raw: 721 },
            },
        }),
{
    Material {
        absorption: Bands {
            low: Scalar { raw: 3932 },
            mid: Scalar { raw: 1966 },
            high: Scalar { raw: 1311 },
        },
        scattering: Scalar { raw: 3277 },
        transmission: Bands {
            low: Scalar { raw: 3932 },
            mid: Scalar { raw: 2884 },
            high: Scalar { raw: 721 },
        },
    }
}

/// Plaster: absorption 0.12/0.06/0.04, scattering 0.05,
/// transmission 0.056/0.056/0.004.
pub fn plaster() -> (m: Material)
    ensures
        m == (Material {
            absorption: Bands {
                low: Scalar { raw: 7864 },
                mid: Scalar { raw: 3932 },
                high: Scalar { raw: 2621 },
            },
            scattering: Scalar { raw: 3277 },
            transmission: Bands {
                low: Scalar { raw: 3670 },
                mid: Scalar { raw: 3670 },
                high: Scalar { raw: 262 },
            },
        }),
{
    Material {
        absorption: Bands {
            low: Scalar { raw: 7864 },
            mid: Scalar { raw: 3932 },
            high: Scalar { raw: 2621 },
        },
        scattering: Scalar { raw: 3277 },
        transmission: Bands {
            low: Scalar { raw: 3670 },
            mid: Scalar { raw: 3670 },
            high: Scalar { raw: 262 },
        },
    }
}

/// Wood: absorption 0.11/0.07/0.06, scattering 0.05,
/// transmission 0.070/0.014/0.005.
pub fn wood() -> (m: Material)
    ensures
        m == (Material {
            absorption: Bands {
                low: Scalar { raw: 7209 },
                mid: Scalar { raw: 4588 },
                high: Scalar { raw: 3932 },
            },
            scattering: Scalar { raw: 3277 },
            transmission: Bands {
                low: Scalar { raw: 4588 },
                mid: Scalar { raw: 918 },
                high: Scalar { raw: 328 },
            },
        }),
{
    Material {
        absorption: Bands {
            low: Scalar { raw: 7209 },
            mid: Scalar { raw: 4588 },
            high: Scalar { raw: 3932 },
        },
        scattering: Scalar { raw: 3277 },
        transmission: Bands {
            low: Scalar { raw: 4588 },
            mid: Scalar { raw: 918 },
            high: Scalar { raw: 328 },
        },
    }
}

/// Metal: absorption 0.20/0.07/0.06, scattering 0.05,
/// transmission 0.200/0.025/0.010.
pub fn metal() -> (m: Material)
    ensures
        m == (Material {
            absorption: Bands {
                low: Scalar { raw: 13107 },
                mid: Scalar { raw: 4588 },
                high: Scalar { raw: 3932 },
            },
            scattering: Scalar { raw: 3277 },
            transmission: Bands {
                low: Scalar { raw: 13107 },
                mid: Scalar { raw: 1638 },
                high: Scalar { raw: 655 },
            },
        }),
{
    Material {
        absorption: Bands {
            low: Scalar { raw: 13107 },
            mid: Scalar { raw: 4588 },
            high: Scalar { raw: 3932 },
        },
        scattering: Scalar { raw: 3277 },
        transmission: Bands {
            low: Scalar { raw: 13107 },
            mid: Scalar { raw: 1638 },
            high: Scalar { raw: 655 },
        },
    }
}

/// Rock: absorption 0.13/0.20/0.24, scattering 0.05,
/// transmission 0.015/0.002/0.001.
pub fn rock() -> (m: Material)
    ensures
        m == (Material {
            absorption: Bands {
                low: Scalar { raw: 8520 },
                mid: Scalar { raw: 13107 },
                high: Scalar { raw: 15729 },
            },
            scattering: Scalar { raw: 3277 },
            transmission: Bands {
                low: Scalar { raw: 983 },
                mid: Scalar { raw: 131 },
                high: Scalar { raw: 66 },
            },
        }),
{
    Material {
        absorption: Bands {
            low: Scalar { raw: 8520 },
            mid: Scalar { raw: 13107 },
            high: Scalar { raw: 15729 },
        },
        scattering: Scalar { raw: 3277 },
        transmission: Bands {
            low: Scalar { raw: 983 },
            mid: Scalar { raw: 131 },
            high: Scalar { raw: 66 },
        },
    }
}

} // verus!
