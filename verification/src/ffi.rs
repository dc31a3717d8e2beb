//! The flat value structs of the engine's C ABI.
//!
//! Everything the engine consumes is passed as plain value structs of
//! numbers and raw handles; this module models them one to one.  Enum-typed
//! fields carry the integer codes listed here as constants; boolean fields
//! carry `1`/`0`; handle and pointer fields carry a raw handle value, with
//! `0` for null.  Callback slots, which this layer always leaves to the
//! engine's defaults or never installs, are modeled as presence flags.

use vstd::prelude::*;

use crate::scalar::{Bands, Scalar};

verus! {

/// Packed engine version: major 4, minor 0, patch 0, laid out as
/// `major << 16 | minor << 8 | patch`.
pub const STEAMAUDIO_VERSION: u32 = 262144;

/// ABI code of the `TRUE` boolean value.
pub const BOOL_TRUE: i32 = 1;

/// ABI code of the `FALSE` boolean value.
pub const BOOL_FALSE: i32 = 0;

/// SIMD level code: SSE2.
pub const SIMD_LEVEL_SSE2: i32 = 0;

/// SIMD level code: SSE4.
pub const SIMD_LEVEL_SSE4: i32 = 1;

/// SIMD level code: AVX.
pub const SIMD_LEVEL_AVX: i32 = 2;

/// HRTF kind code: the engine's built-in dataset.
pub const HRTF_TYPE_DEFAULT: i32 = 0;

/// HRTF kind code: a SOFA file supplied by the caller.
pub const HRTF_TYPE_SOFA: i32 = 1;

/// HRTF normalization code: none.
pub const HRTF_NORM_TYPE_NONE: i32 = 0;

/// HRTF interpolation code: nearest neighbor.
pub const HRTF_INTERPOLATION_NEAREST: i32 = 0;

/// HRTF interpolation code: bilinear.
pub const HRTF_INTERPOLATION_BILINEAR: i32 = 1;

/// Scene kind code: the engine's built-in ray tracer.
pub const SCENE_TYPE_DEFAULT: i32 = 0;

/// Scene kind code: Embree.
pub const SCENE_TYPE_EMBREE: i32 = 1;

/// Scene kind code: Radeon Rays.
pub const SCENE_TYPE_RADEON_RAYS: i32 = 2;

/// Scene kind code: caller-supplied ray tracer callbacks.
pub const SCENE_TYPE_CUSTOM: i32 = 3;

/// Reflection effect kind code: convolution.
pub const REFLECTION_EFFECT_TYPE_CONVOLUTION: i32 = 0;

/// Reflection effect kind code: parametric.
pub const REFLECTION_EFFECT_TYPE_PARAMETRIC: i32 = 1;

/// Reflection effect kind code: hybrid.
pub const REFLECTION_EFFECT_TYPE_HYBRID: i32 = 2;

/// Reflection effect kind code: TrueAudio Next.
pub const REFLECTION_EFFECT_TYPE_TAN: i32 = 3;

/// Transmission kind code: one factor for all frequencies.
pub const TRANSMISSION_TYPE_FREQ_INDEPENDENT: i32 = 0;

/// Transmission kind code: one factor per frequency band.
pub const TRANSMISSION_TYPE_FREQ_DEPENDENT: i32 = 1;

/// Occlusion model code: a single ray (binary occlusion).
pub const OCCLUSION_TYPE_RAYCAST: i32 = 0;

/// Occlusion model code: volumetric sampling around the source.
pub const OCCLUSION_TYPE_VOLUMETRIC: i32 = 1;

/// Distance attenuation model code: the engine default curve.
pub const DISTANCE_ATTENUATION_TYPE_DEFAULT: i32 = 0;

/// Distance attenuation model code: inverse distance with a minimum.
pub const DISTANCE_ATTENUATION_TYPE_INVERSE_DISTANCE: i32 = 1;

/// Air absorption model code: the engine default.
pub const AIR_ABSORPTION_TYPE_DEFAULT: i32 = 0;

/// Air absorption model code: exponential per-band decay.
pub const AIR_ABSORPTION_TYPE_EXPONENTIAL: i32 = 1;

/// Speaker layout code: mono.
pub const SPEAKER_LAYOUT_TYPE_MONO: i32 = 0;

/// Speaker layout code: stereo.
pub const SPEAKER_LAYOUT_TYPE_STEREO: i32 = 1;

/// Speaker layout code: quadraphonic.
pub const SPEAKER_LAYOUT_TYPE_QUADRAPHONIC: i32 = 2;

/// Speaker layout code: 5.1 surround.
pub const SPEAKER_LAYOUT_TYPE_SURROUND_5_1: i32 = 3;

/// Speaker layout code: 7.1 surround.
pub const SPEAKER_LAYOUT_TYPE_SURROUND_7_1: i32 = 4;

/// Baked data kind code: reflections.
pub const BAKED_DATA_TYPE_REFLECTIONS: i32 = 0;

/// Baked data kind code: pathing.
pub const BAKED_DATA_TYPE_PATHING: i32 = 1;

/// Baked data variation code: dynamic.
pub const BAKED_DATA_VARIATION_DYNAMIC: i32 = 2;

/// Marshals a boolean into its ABI code.
pub fn bool_to_ipl(b: bool) -> (r: i32)
    ensures
        r == (if b {
            BOOL_TRUE
        } else {
            BOOL_FALSE
        }),
{
    if b {
        BOOL_TRUE
    } else {
        BOOL_FALSE
    }
}

/// A 3-D vector on the ABI.
#[derive(Debug, Clone, Copy, PartialEq, Eq, Structural)]
pub struct IplVector3 {
    /// X component.
    pub x: Scalar,
    /// Y component.
    pub y: Scalar,
    /// Z component.
    pub z: Scalar,
}

/// A coordinate frame: three unit axes plus an origin.
#[derive(Debug, Clone, Copy, PartialEq, Eq, Structural)]
pub struct IplCoordinateSpace3 {
    /// Unit vector to the right.
    pub right: IplVector3,
    /// Unit vector upward.
    pub up: IplVector3,
    /// Unit vector ahead.
    pub ahead: IplVector3,
    /// Origin of the frame.
    pub origin: IplVector3,
}

/// A sphere, used to delimit baked-data influence.
#[derive(Debug, Clone, Copy, PartialEq, Eq, Structural)]
pub struct IplSphere {
    /// Center of the sphere.
    pub center: IplVector3,
    /// Radius of the sphere.
    pub radius: Scalar,
}

/// Global audio pipeline parameters.
#[derive(Debug, Clone, Copy, PartialEq, Eq, Structural)]
pub struct IplAudioSettings {
    /// Sampling rate in Hz.
    pub sampling_rate: i32,
    /// Samples per frame.
    pub frame_size: i32,
}

/// Parameters of a context creation call.
#[derive(Debug, Clone, Copy, PartialEq, Eq, Structural)]
pub struct IplContextSettings {
    /// Packed ABI version the caller was built against.
    pub version: u32,
    /// Whether a logging callback is installed.
    pub log_callback: bool,
    /// Whether an allocation callback is installed.
    pub allocate_callback: bool,
    /// Whether a deallocation callback is installed.
    pub free_callback: bool,
    /// Highest SIMD level the engine may use.
    pub simd_level: i32,
}

/// Parameters of an HRTF creation call.
#[derive(Debug, Clone, PartialEq, Eq)]
pub struct IplHrtfSettings {
    /// HRTF kind code.
    pub type_: i32,
    /// Path of the SOFA file; empty for the built-in dataset.
    pub sofa_file_name: String,
    /// Raw pointer to in-memory SOFA data (null: unused).
    pub sofa_data: usize,
    /// Size of the in-memory SOFA data.
    pub sofa_data_size: i32,
    /// Output gain applied to the dataset.
    pub volume: Scalar,
    /// Normalization kind code.
    pub norm_type: i32,
}

/// Parameters of a scene creation call.
#[derive(Debug, Clone, Copy, PartialEq, Eq, Structural)]
pub struct IplSceneSettings {
    /// Scene kind code.
    pub type_: i32,
    /// Whether a closest-hit callback is installed.
    pub closest_hit_callback: bool,
    /// Whether an any-hit callback is installed.
    pub any_hit_callback: bool,
    /// Whether a batched closest-hit callback is installed.
    pub batched_closest_hit_callback: bool,
    /// Whether a batched any-hit callback is installed.
    pub batched_any_hit_callback: bool,
    /// Raw user-data pointer handed back to callbacks (null: none).
    pub user_data: usize,
    /// Raw Embree device handle (null: none).
    pub embree_device: usize,
    /// Raw Radeon Rays device handle (null: none).
    pub radeon_rays_device: usize,
}

/// Acoustic surface properties on the ABI.
#[derive(Debug, Clone, Copy, PartialEq, Eq, Structural)]
pub struct IplMaterial {
    /// Fraction of energy absorbed, per band.
    pub absorption: Bands,
    /// Fraction of energy scattered.
    pub scattering: Scalar,
    /// Fraction of energy transmitted, per band.
    pub transmission: Bands,
}

/// One triangle as three vertex indices.
#[derive(Debug, Clone, Copy, PartialEq, Eq, Structural)]
pub struct IplTriangle {
    /// First vertex index.
    pub v0: i32,
    /// Second vertex index.
    pub v1: i32,
    /// Third vertex index.
    pub v2: i32,
}

/// Header of a static mesh creation call: the element counts.  The
/// vertex, triangle, material and material-index arrays are passed
/// alongside, and the caller must keep them alive as long as the created
/// mesh, because the engine retains only pointers into them.
#[derive(Debug, Clone, Copy, PartialEq, Eq, Structural)]
pub struct IplStaticMeshSettings {
    /// Number of vertices.
    pub num_vertices: i32,
    /// Number of triangles.
    pub num_triangles: i32,
    /// Number of materials.
    pub num_materials: i32,
}

/// Simulation-wide settings on the ABI.
#[derive(Debug, Clone, Copy, PartialEq, Eq, Structural)]
pub struct IplSimulationSettings {
    /// Enabled simulation category bits.
    pub flags: i32,
    /// Scene kind code.
    pub scene_type: i32,
    /// Reflection effect kind code.
    pub reflection_type: i32,
    /// Upper bound on volumetric occlusion samples per source.
    pub max_num_occlusion_samples: i32,
    /// Upper bound on rays traced per reflection pass.
    pub max_num_rays: i32,
    /// Diffuse samples per ray bounce.
    pub num_diffuse_samples: i32,
    /// Longest impulse response in seconds.
    pub max_duration: Scalar,
    /// Highest ambisonics order simulated.
    pub max_order: i32,
    /// Upper bound on simultaneously simulated sources.
    pub max_num_sources: i32,
    /// Worker threads used by the engine.
    pub num_threads: i32,
    /// Rays per batch when tracing in batches.
    pub ray_batch_size: i32,
    /// Visibility samples for pathing.
    pub num_vis_samples: i32,
    /// Sampling rate in Hz.
    pub sampling_rate: i32,
    /// Samples per frame.
    pub frame_size: i32,
    /// Raw OpenCL device handle (null: none).
    pub open_cl_device: usize,
    /// Raw Radeon Rays device handle (null: none).
    pub radeon_rays_device: usize,
    /// Raw TrueAudio Next device handle (null: none).
    pub tan_device: usize,
}

/// Per-source creation settings on the ABI.
#[derive(Debug, Clone, Copy, PartialEq, Eq, Structural)]
pub struct IplSourceSettings {
    /// Simulation category bits enabled for the source.
    pub flags: i32,
}

/// A distance attenuation model on the ABI.
#[derive(Debug, Clone, Copy, PartialEq, Eq, Structural)]
pub struct IplDistanceAttenuationModel {
    /// Model kind code.
    pub type_: i32,
    /// Distance below which no attenuation is applied.
    pub min_distance: Scalar,
    /// Whether a callback model is installed.
    pub callback: bool,
    /// Raw user-data pointer for the callback (null: none).
    pub user_data: usize,
    /// Whether the model changed since the last update.
    pub dirty: i32,
}

/// An air absorption model on the ABI.
#[derive(Debug, Clone, Copy, PartialEq, Eq, Structural)]
pub struct IplAirAbsorptionModel {
    /// Model kind code.
    pub type_: i32,
    /// Exponential decay coefficients, per band.
    pub coefficients: Bands,
    /// Whether a callback model is installed.
    pub callback: bool,
    /// Raw user-data pointer for the callback (null: none).
    pub user_data: usize,
    /// Whether the model changed since the last update.
    pub dirty: i32,
}

/// A directivity pattern on the ABI.
#[derive(Debug, Clone, Copy, PartialEq, Eq, Structural)]
pub struct IplDirectivity {
    /// Blend between omnidirectional and dipole behaviour.
    pub dipole_weight: Scalar,
    /// Sharpness of the dipole.
    pub dipole_power: Scalar,
    /// Whether a callback pattern is installed.
    pub callback: bool,
    /// Raw user-data pointer for the callback (null: none).
    pub user_data: usize,
}

/// Identifies a chunk of baked data.
#[derive(Debug, Clone, Copy, PartialEq, Eq, Structural)]
pub struct IplBakedDataIdentifier {
    /// Baked data kind code.
    pub type_: i32,
    /// Baked data variation code.
    pub variation: i32,
    /// Sphere of influence of the endpoint.
    pub endpoint_influence: IplSphere,
}

/// Everything the simulator reads from one source each frame.
#[derive(Debug, Clone, Copy, PartialEq, Eq, Structural)]
pub struct IplSimulationInputs {
    /// Simulation category bits enabled for the source.
    pub flags: i32,
    /// Direct-path quantity bits to simulate.
    pub direct_flags: i32,
    /// Coordinate frame of the source.
    pub source: IplCoordinateSpace3,
    /// Distance attenuation model.
    pub distance_attenuation_model: IplDistanceAttenuationModel,
    /// Air absorption model.
    pub air_absorption_model: IplAirAbsorptionModel,
    /// Directivity pattern.
    pub directivity: IplDirectivity,
    /// Occlusion model code.
    pub occlusion_type: i32,
    /// Source radius for volumetric occlusion.
    pub occlusion_radius: Scalar,
    /// Sample count for volumetric occlusion.
    pub num_occlusion_samples: i32,
    /// Reverb scale per band.
    pub reverb_scale: Bands,
    /// Transition time of the hybrid reverb.
    pub hybrid_reverb_transition_time: Scalar,
    /// Overlap fraction of the hybrid reverb.
    pub hybrid_reverb_overlap_percent: Scalar,
    /// Whether reflections come from baked data.
    pub baked: i32,
    /// Which baked data to use.
    pub baked_data_identifier: IplBakedDataIdentifier,
    /// Raw handle of the pathing probe batch (null: none).
    pub pathing_probes: usize,
    /// Visibility radius for pathing.
    pub vis_radius: Scalar,
    /// Visibility threshold for pathing.
    pub vis_threshold: Scalar,
    /// Visibility range for pathing.
    pub vis_range: Scalar,
    /// Ambisonics order of pathing output.
    pub pathing_order: i32,
    /// Whether path validation is enabled.
    pub enable_validation: i32,
    /// Whether alternate paths are searched.
    pub find_alternate_paths: i32,
}

/// Per-frame inputs shared by every source.
#[derive(Debug, Clone, Copy, PartialEq, Eq, Structural)]
pub struct IplSimulationSharedInputs {
    /// Coordinate frame of the listener.
    pub listener: IplCoordinateSpace3,
    /// Rays traced per reflection pass.
    pub num_rays: i32,
    /// Bounces per ray.
    pub num_bounces: i32,
    /// Impulse response duration in seconds.
    pub duration: Scalar,
    /// Ambisonics order of reflections.
    pub order: i32,
    /// Smallest distance used for irradiance computation.
    pub irradiance_min_distance: Scalar,
}

/// Direct-path rendering parameters on the ABI.
#[derive(Debug, Clone, Copy, PartialEq, Eq, Structural)]
pub struct IplDirectEffectParams {
    /// Which quantities to apply.
    pub flags: i32,
    /// Transmission kind code.
    pub transmission_type: i32,
    /// Distance attenuation factor.
    pub distance_attenuation: Scalar,
    /// Directivity factor.
    pub directivity: Scalar,
    /// Occlusion factor.
    pub occlusion: Scalar,
    /// Air absorption factor, per band.
    pub air_absorption: Bands,
    /// Transmission factor, per band.
    pub transmission: Bands,
}

/// What the simulator reports back for one source.  Reflection and
/// pathing parameters are pass-through extension points of the engine and
/// are not modeled by this layer.
#[derive(Debug, Clone, Copy, PartialEq, Eq, Structural)]
pub struct IplSimulationOutputs {
    /// Computed direct-path rendering parameters.
    pub direct: IplDirectEffectParams,
}

/// Binaural rendering parameters on the ABI.
#[derive(Debug, Clone, Copy, PartialEq, Eq, Structural)]
pub struct IplBinauralEffectParams {
    /// Direction from the listener to the source.
    pub direction: IplVector3,
    /// Interpolation kind code.
    pub interpolation: i32,
    /// Blend between spatialized and unspatialized sound.
    pub spatial_blend: Scalar,
    /// Raw handle of the HRTF to filter with.
    pub hrtf: usize,
    /// Raw output pointer for per-ear peak delays (null: unused).
    pub peak_delays: usize,
}

/// Ambisonics encode parameters on the ABI.
#[derive(Debug, Clone, Copy, PartialEq, Eq, Structural)]
pub struct IplAmbisonicsEncodeEffectParams {
    /// Direction to encode.
    pub direction: IplVector3,
    /// Ambisonics order to encode at.
    pub order: i32,
}

/// A speaker layout on the ABI.
#[derive(Debug, Clone, Copy, PartialEq, Eq, Structural)]
pub struct IplSpeakerLayout {
    /// Layout kind code.
    pub type_: i32,
    /// Speaker count for custom layouts.
    pub num_speakers: i32,
    /// Raw pointer to custom speaker directions (null: none).
    pub speakers: usize,
}

/// Ambisonics decode creation settings on the ABI.
#[derive(Debug, Clone, Copy, PartialEq, Eq, Structural)]
pub struct IplAmbisonicsDecodeEffectSettings {
    /// Raw handle of the HRTF used for binaural decode.
    pub hrtf: usize,
    /// Speaker layout decoded to.
    pub speaker_layout: IplSpeakerLayout,
    /// Highest ambisonics order that will be decoded.
    pub max_order: i32,
}

/// Ambisonics decode parameters on the ABI.
#[derive(Debug, Clone, Copy, PartialEq, Eq, Structural)]
pub struct IplAmbisonicsDecodeEffectParams {
    /// Ambisonics order of the input.
    pub order: i32,
    /// Listener orientation.
    pub orientation: IplCoordinateSpace3,
    /// Whether to decode binaurally.
    pub binaural: i32,
    /// Raw handle of the HRTF used for binaural decode.
    pub hrtf: usize,
}

} // verus!
