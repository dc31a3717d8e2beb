//! One emitting point and its per-frame simulation state.
//!
//! A [`Source`] is created against a simulator and carries the inputs the
//! simulation reads each frame — orientation, attenuation, absorption,
//! directivity and occlusion models — written as one complete value by
//! [`Source::set_inputs`] (a pure overwrite, never a partial merge), and
//! the direct-path outputs read back by [`Source::get_outputs`], filtered
//! by the categories requested.

use vstd::prelude::*;

use crate::direct::{DirectEffectParams, TransmissionType};
use crate::engine::{slots_after_create, Engine};
use crate::error::{IplError, SteamAudioError};
use crate::ffi::{
    IplAirAbsorptionModel, IplBakedDataIdentifier, IplDirectivity, IplDistanceAttenuationModel,
    IplSimulationInputs, IplSourceSettings, IplSphere, IplVector3, AIR_ABSORPTION_TYPE_DEFAULT,
    AIR_ABSORPTION_TYPE_EXPONENTIAL, BAKED_DATA_TYPE_PATHING, BAKED_DATA_VARIATION_DYNAMIC,
    DISTANCE_ATTENUATION_TYPE_DEFAULT, DISTANCE_ATTENUATION_TYPE_INVERSE_DISTANCE,
    OCCLUSION_TYPE_RAYCAST, OCCLUSION_TYPE_VOLUMETRIC,
};
use crate::flags::{DirectEffectFlags, DirectSimulationFlags, SimulationFlags};
use crate::handle::{finalize_slots_spec, NativeHandle};
use crate::orientation::Orientation;
use crate::scalar::{Bands, Scalar, SCALAR_ONE_RAW};
use crate::simulation::Simulator;

verus! {

/// Creation settings of a source: which simulation categories it takes
/// part in.
#[derive(Debug, Clone, Copy, PartialEq, Eq, Structural)]
pub struct SourceSettings {
    /// Simulation categories enabled for this source.
    pub flags: SimulationFlags,
}

impl Default for SourceSettings {
    /// Direct-path simulation only.
    fn default() -> (r: SourceSettings)
        ensures
            r == (SourceSettings {
                flags: SimulationFlags { direct: true, reflections: false, pathing: false },
            }),
    {
        SourceSettings { flags: SimulationFlags::default() }
    }
}

impl SourceSettings {
    /// Marshals the settings into the ABI value struct.
    pub fn to_ipl(&self) -> (r: IplSourceSettings)
        ensures
            r.flags == self.flags.bits_spec(),
    {
        IplSourceSettings { flags: self.flags.bits() }
    }
}

/// An extension point for caller-computed distance attenuation curves.
/// This layer never installs one; the models below cover its needs.
pub trait DistanceAttenuationCallback {
    /// The attenuation factor at the given distance.
    fn attenuation(&self, distance: Scalar) -> Scalar;
}

/// How distance attenuates the direct sound.
#[derive(Debug, Clone, Copy, PartialEq, Eq, Structural)]
pub enum DistanceAttenuationModel {
    /// The engine's default inverse-distance curve.
    Default,
    /// Inverse distance, flat below the given minimum distance.
    InverseDistance {
        /// Distance below which no attenuation is applied.
        min_distance: Scalar,
    },
}

impl Default for DistanceAttenuationModel {
    /// The engine's default curve.
    fn default() -> (r: DistanceAttenuationModel)
        ensures
            r == DistanceAttenuationModel::Default,
    {
        DistanceAttenuationModel::Default
    }
}

impl DistanceAttenuationModel {
    /// The marshaled form: kind code and minimum distance, no callback.
    pub open spec fn to_ipl_spec(self) -> IplDistanceAttenuationModel {
        match self {
            DistanceAttenuationModel::Default => IplDistanceAttenuationModel {
                type_: DISTANCE_ATTENUATION_TYPE_DEFAULT,
                min_distance: Scalar { raw: SCALAR_ONE_RAW },
                callback: false,
                user_data: 0,
                dirty: 0,
            },
            DistanceAttenuationModel::InverseDistance { min_distance } => IplDistanceAttenuationModel {
                type_: DISTANCE_ATTENUATION_TYPE_INVERSE_DISTANCE,
                min_distance,
                callback: false,
                user_data: 0,
                dirty: 0,
            },
        }
    }

    /// Marshals the model into the ABI value struct.
    pub fn to_ipl(&self) -> (r: IplDistanceAttenuationModel)
        ensures
            r == self.to_ipl_spec(),
    {
        match self {
            DistanceAttenuationModel::Default => IplDistanceAttenuationModel {
                type_: DISTANCE_ATTENUATION_TYPE_DEFAULT,
                min_distance: Scalar::one(),
                callback: false,
                user_data: 0,
                dirty: 0,
            },
            DistanceAttenuationModel::InverseDistance { min_distance } => IplDistanceAttenuationModel {
                type_: DISTANCE_ATTENUATION_TYPE_INVERSE_DISTANCE,
                min_distance: *min_distance,
                callback: false,
                user_data: 0,
                dirty: 0,
            },
        }
    }
}

/// How air absorbs the direct sound over distance.
#[derive(Debug, Clone, Copy, PartialEq, Eq, Structural)]
pub enum AirAbsorptionModel {
    /// The engine's default exponential decay.
    Default,
    /// Exponential decay with the given per-band coefficients.
    Exponential {
        /// Decay coefficients, per band.
        coefficients: Bands,
    },
}

impl Default for AirAbsorptionModel {
    /// The engine's default decay.
    fn default() -> (r: AirAbsorptionModel)
        ensures
            r == AirAbsorptionModel::Default,
    {
        AirAbsorptionModel::Default
    }
}

impl AirAbsorptionModel {
    /// The marshaled form: kind code and coefficients, no callback.
    pub open spec fn to_ipl_spec(self) -> IplAirAbsorptionModel {
        match self {
            AirAbsorptionModel::Default => IplAirAbsorptionModel {
                type_: AIR_ABSORPTION_TYPE_DEFAULT,
                coefficients: Bands {
                    low: Scalar { raw: 0 },
                    mid: Scalar { raw: 0 },
                    high: Scalar { raw: 0 },
                },
                callback: false,
                user_data: 0,
                dirty: 0,
            },
            AirAbsorptionModel::Exponential { coefficients } => IplAirAbsorptionModel {
                type_: AIR_ABSORPTION_TYPE_EXPONENTIAL,
                coefficients,
                callback: false,
                user_data: 0,
                dirty: 0,
            },
        }
    }

    /// Marshals the model into the ABI value struct.
    pub fn to_ipl(&self) -> (r: IplAirAbsorptionModel)
        ensures
            r == self.to_ipl_spec(),
    {
        match self {
            AirAbsorptionModel::Default => IplAirAbsorptionModel {
                type_: AIR_ABSORPTION_TYPE_DEFAULT,
                coefficients: Bands::zeros(),
                callback: false,
                user_data: 0,
                dirty: 0,
            },
            AirAbsorptionModel::Exponential { coefficients } => IplAirAbsorptionModel {
                type_: AIR_ABSORPTION_TYPE_EXPONENTIAL,
                coefficients: *coefficients,
                callback: false,
                user_data: 0,
                dirty: 0,
            },
        }
    }
}

/// A dipole directivity pattern.
#[derive(Debug, Clone, Copy, PartialEq, Eq, Structural)]
pub struct Directivity {
    /// Blend between omnidirectional (0) and dipole (1) behaviour.
    pub dipole_weight: Scalar,
    /// Sharpness of the dipole.
    pub dipole_power: Scalar,
}

impl Default for Directivity {
    /// Omnidirectional.
    fn default() -> (r: Directivity)
        ensures
            r.dipole_weight.raw == 0,
            r.dipole_power.raw == 0,
    {
        Directivity { dipole_weight: Scalar::zero(), dipole_power: Scalar::zero() }
    }
}

impl Directivity {
    /// The marshaled form: weight and power, no callback.
    pub open spec fn to_ipl_spec(self) -> IplDirectivity {
        IplDirectivity {
            dipole_weight: self.dipole_weight,
            dipole_power: self.dipole_power,
            callback: false,
            user_data: 0,
        }
    }

    /// Marshals the pattern into the ABI value struct.
    pub fn to_ipl(&self) -> (r: IplDirectivity)
        ensures
            r == self.to_ipl_spec(),
    {
        IplDirectivity {
            dipole_weight: self.dipole_weight,
            dipole_power: self.dipole_power,
            callback: false,
            user_data: 0,
        }
    }
}

/// How occlusion of the direct path is sampled.
#[derive(Debug, Clone, Copy, PartialEq, Eq, Structural)]
pub enum OcclusionType {
    /// A single ray: the path is either blocked or clear.
    Raycast,
    /// Many rays over a source volume: partial occlusion.
    Volumetric {
        /// Radius of the source volume.
        occlusion_radius: Scalar,
        /// Rays sampled over the volume.
        num_occlusion_samples: u32,
    },
}

impl Default for OcclusionType {
    /// A single ray.
    fn default() -> (r: OcclusionType)
        ensures
            r == OcclusionType::Raycast,
    {
        OcclusionType::Raycast
    }
}

impl OcclusionType {
    /// The ABI code of this occlusion model.
    pub open spec fn code_spec(self) -> i32 {
        match self {
            OcclusionType::Raycast => OCCLUSION_TYPE_RAYCAST,
            OcclusionType::Volumetric { .. } => OCCLUSION_TYPE_VOLUMETRIC,
        }
    }

    /// Marshals the occlusion model into its ABI code.
    pub fn code(self) -> (r: i32)
        ensures
            r == self.code_spec(),
    {
        match self {
            OcclusionType::Raycast => OCCLUSION_TYPE_RAYCAST,
            OcclusionType::Volumetric { .. } => OCCLUSION_TYPE_VOLUMETRIC,
        }
    }

    /// The volumetric radius; zero for the raycast model.
    pub open spec fn radius_spec(self) -> Scalar {
        match self {
            OcclusionType::Raycast => Scalar { raw: 0 },
            OcclusionType::Volumetric { occlusion_radius, .. } => occlusion_radius,
        }
    }

    /// The volumetric sample count; zero for the raycast model.
    pub open spec fn samples_spec(self) -> u32 {
        match self {
            OcclusionType::Raycast => 0,
            OcclusionType::Volumetric { num_occlusion_samples, .. } => num_occlusion_samples,
        }
    }
}

/// Everything the simulation reads from one source each frame.
#[derive(Debug, Clone, Copy, PartialEq, Eq, Structural)]
pub struct SimulationInputs {
    /// Simulation categories to run for this source.
    pub flags: SimulationFlags,
    /// Direct-path quantities to simulate.
    pub direct_flags: DirectSimulationFlags,
    /// The source's coordinate frame.
    pub source: Orientation,
    /// Distance attenuation model.
    pub distance_attenuation_model: DistanceAttenuationModel,
    /// Air absorption model.
    pub air_absorption_model: AirAbsorptionModel,
    /// Directivity pattern.
    pub directivity: Directivity,
    /// Occlusion model.
    pub occlusion_type: OcclusionType,
    /// Reverb scale per band.
    pub reverb_scale: Bands,
    /// Transition time of the hybrid reverb.
    pub hybrid_reverb_transition_time: Scalar,
    /// Overlap fraction of the hybrid reverb.
    pub hybrid_reverb_overlap_percent: Scalar,
    /// Whether reflections come from baked data.
    pub baked: bool,
    /// Visibility radius for pathing.
    pub visible_radius: Scalar,
    /// Visibility threshold for pathing.
    pub visible_threshold: Scalar,
    /// Visibility range for pathing.
    pub visible_range: Scalar,
    /// Ambisonics order of pathing output.
    pub pathing_order: u32,
    /// Whether path validation is enabled.
    pub enabled_validation: bool,
    /// Whether alternate paths are searched.
    pub find_alternate_paths: bool,
}

impl Default for SimulationInputs {
    /// Direct simulation of distance attenuation only, from the identity
    /// frame, with every optional feature off.
    fn default() -> (r: SimulationInputs)
        ensures
            r == SimulationInputs::default_spec(),
    {
        SimulationInputs {
            flags: SimulationFlags::default(),
            direct_flags: DirectSimulationFlags::default(),
            source: Orientation::default(),
            distance_attenuation_model: DistanceAttenuationModel::default(),
            air_absorption_model: AirAbsorptionModel::default(),
            directivity: Directivity::default(),
            occlusion_type: OcclusionType::default(),
            reverb_scale: Bands::zeros(),
            hybrid_reverb_transition_time: Scalar::zero(),
            hybrid_reverb_overlap_percent: Scalar::zero(),
            baked: false,
            visible_radius: Scalar::zero(),
            visible_threshold: Scalar::zero(),
            visible_range: Scalar::zero(),
            pathing_order: 0,
            enabled_validation: false,
            find_alternate_paths: false,
        }
    }
}

impl SimulationInputs {
    /// The default inputs: direct simulation of distance attenuation
    /// only, from the identity frame, with every optional feature off.
    pub open spec fn default_spec() -> SimulationInputs {
        SimulationInputs {
            flags: SimulationFlags { direct: true, reflections: false, pathing: false },
            direct_flags: DirectSimulationFlags {
                distance_attenuation: true,
                air_absorption: false,
                directivity: false,
                occlusion: false,
                transmission: false,
            },
            source: Orientation::default_spec(),
            distance_attenuation_model: DistanceAttenuationModel::Default,
            air_absorption_model: AirAbsorptionModel::Default,
            directivity: Directivity { dipole_weight: Scalar { raw: 0 }, dipole_power: Scalar { raw: 0 } },
            occlusion_type: OcclusionType::Raycast,
            reverb_scale: Bands {
                low: Scalar { raw: 0 },
                mid: Scalar { raw: 0 },
                high: Scalar { raw: 0 },
            },
            hybrid_reverb_transition_time: Scalar { raw: 0 },
            hybrid_reverb_overlap_percent: Scalar { raw: 0 },
            baked: false,
            visible_radius: Scalar { raw: 0 },
            visible_threshold: Scalar { raw: 0 },
            visible_range: Scalar { raw: 0 },
            pathing_order: 0,
            enabled_validation: false,
            find_alternate_paths: false,
        }
    }

    /// The marshaled form: flag bits, model structs, the occlusion
    /// model's radius and sample count flattened out, and a dynamic
    /// pathing baked-data identifier with no probe batch, exactly as the
    /// engine reads them.
    pub open spec fn to_ipl_spec(self) -> IplSimulationInputs {
        IplSimulationInputs {
            flags: self.flags.bits_spec(),
            direct_flags: self.direct_flags.bits_spec(),
            source: self.source.to_ipl_spec(),
            distance_attenuation_model: self.distance_attenuation_model.to_ipl_spec(),
            air_absorption_model: self.air_absorption_model.to_ipl_spec(),
            directivity: self.directivity.to_ipl_spec(),
            occlusion_type: self.occlusion_type.code_spec(),
            occlusion_radius: self.occlusion_type.radius_spec(),
            num_occlusion_samples: self.occlusion_type.samples_spec() as i32,
            reverb_scale: self.reverb_scale,
            hybrid_reverb_transition_time: self.hybrid_reverb_transition_time,
            hybrid_reverb_overlap_percent: self.hybrid_reverb_overlap_percent,
            baked: if self.baked {
                1
            } else {
                0
            },
            baked_data_identifier: IplBakedDataIdentifier {
                type_: BAKED_DATA_TYPE_PATHING,
                variation: BAKED_DATA_VARIATION_DYNAMIC,
                endpoint_influence: IplSphere {
                    center: IplVector3 {
                        x: Scalar { raw: 0 },
                        y: Scalar { raw: 0 },
                        z: Scalar { raw: 0 },
                    },
                    radius: Scalar { raw: 0 },
                },
            },
            pathing_probes: 0,
            vis_radius: self.visible_radius,
            vis_threshold: self.visible_threshold,
            vis_range: self.visible_range,
            pathing_order: self.pathing_order as i32,
            enable_validation: if self.enabled_validation {
                1
            } else {
                0
            },
            find_alternate_paths: if self.find_alternate_paths {
                1
            } else {
                0
            },
        }
    }

    /// Marshals the inputs into the ABI value struct.
    pub fn to_ipl(&self) -> (r: IplSimulationInputs)
        ensures
            r == self.to_ipl_spec(),
    {
        let (occlusion_radius, num_occlusion_samples): (Scalar, u32) = match self.occlusion_type {
            OcclusionType::Raycast => (Scalar::zero(), 0),
            OcclusionType::Volumetric { occlusion_radius, num_occlusion_samples } => (
                occlusion_radius,
                num_occlusion_samples,
            ),
        };
        IplSimulationInputs {
            flags: self.flags.bits(),
            direct_flags: self.direct_flags.bits(),
            source: self.source.to_ipl(),
            distance_attenuation_model: self.distance_attenuation_model.to_ipl(),
            air_absorption_model: self.air_absorption_model.to_ipl(),
            directivity: self.directivity.to_ipl(),
            occlusion_type: self.occlusion_type.code(),
            occlusion_radius,
            num_occlusion_samples: num_occlusion_samples as i32,
            reverb_scale: self.reverb_scale,
            hybrid_reverb_transition_time: self.hybrid_reverb_transition_time,
            hybrid_reverb_overlap_percent: self.hybrid_reverb_overlap_percent,
            baked: crate::ffi::bool_to_ipl(self.baked),
            baked_data_identifier: IplBakedDataIdentifier {
                type_: BAKED_DATA_TYPE_PATHING,
                variation: BAKED_DATA_VARIATION_DYNAMIC,
                endpoint_influence: IplSphere {
                    center: IplVector3 {
                        x: Scalar::zero(),
                        y: Scalar::zero(),
                        z: Scalar::zero(),
                    },
                    radius: Scalar::zero(),
                },
            },
            pathing_probes: 0,
            vis_radius: self.visible_radius,
            vis_threshold: self.visible_threshold,
            vis_range: self.visible_range,
            pathing_order: self.pathing_order as i32,
            enable_validation: crate::ffi::bool_to_ipl(self.enabled_validation),
            find_alternate_paths: crate::ffi::bool_to_ipl(self.find_alternate_paths),
        }
    }
}

/// What the simulation reports back for one source.
#[derive(Debug, Clone, Copy, PartialEq, Eq, Structural)]
pub struct SimulationOutputs {
    /// Computed direct-path rendering parameters.
    pub direct: DirectEffectParams,
}

/// One sound-emitting point, bound to a simulator.
#[derive(Debug)]
pub struct Source {
    handle: NativeHandle,
    settings: IplSourceSettings,
    inputs: SimulationInputs,
    input_flags: SimulationFlags,
}

impl Source {
    /// The owned handle.
    pub closed spec fn handle_spec(self) -> NativeHandle {
        self.handle
    }

    /// The raw handle value.
    pub open spec fn raw_spec(self) -> usize {
        self.handle_spec().raw_spec()
    }

    /// Whether the wrapper still owns a live handle.
    pub open spec fn is_live_spec(self) -> bool {
        self.handle_spec().is_live_spec()
    }

    /// The marshaled creation settings kept alive alongside the handle.
    pub closed spec fn settings_spec(self) -> IplSourceSettings {
        self.settings
    }

    /// The inputs the simulation currently reads for this source.
    pub closed spec fn inputs_spec(self) -> SimulationInputs {
        self.inputs
    }

    /// The categories the last input write concerned.
    pub closed spec fn input_flags_spec(self) -> SimulationFlags {
        self.input_flags
    }

    /// Creates a source against a live simulator, with default inputs.
    /// Succeeds exactly when the engine's creation status is success.
    pub fn new(engine: &mut Engine, simulator: &Simulator, settings: &SourceSettings) -> (r:
        Result<Source, SteamAudioError>)
        requires
            old(engine).wf(),
            simulator.is_live_spec(),
            old(engine).live(simulator.raw_spec()),
        ensures
            final(engine).wf(),
            final(engine).create_status_spec() == old(engine).create_status_spec(),
            r is Ok <==> old(engine).create_status_spec() == IplError::Success,
            r matches Ok(s) ==> {
                &&& s.is_live_spec()
                &&& final(engine).slots_seq() =~= slots_after_create(old(engine).slots_seq())
                &&& s.raw_spec() == final(engine).slots_seq().len()
                &&& final(engine).live(s.raw_spec())
                &&& final(engine).refs_of(s.raw_spec()) == 1
                &&& s.settings_spec().flags == settings.flags.bits_spec()
                &&& s.inputs_spec() == SimulationInputs::default_spec()
                &&& s.input_flags_spec() == settings.flags
            },
            r matches Err(e) ==> e == SteamAudioError::IPLError(old(engine).create_status_spec())
                && final(engine).slots_seq() == old(engine).slots_seq(),
    {
        let ipl_settings = settings.to_ipl();
        let (status, raw) = engine.create();
        if status == IplError::Success {
            Ok(
                Source {
                    handle: NativeHandle::from_create(status, raw),
                    settings: ipl_settings,
                    inputs: SimulationInputs::default(),
                    input_flags: settings.flags,
                },
            )
        } else {
            Err(SteamAudioError::IPLError(status))
        }
    }

    /// Overwrites the source's simulation inputs: a pure value overwrite,
    /// no partial merge.  The categories in `flags` say which passes the
    /// write concerns; the whole value is stored either way, as the
    /// engine does.
    pub fn set_inputs(&mut self, flags: SimulationFlags, inputs: &SimulationInputs)
        ensures
            final(self).inputs_spec() == *inputs,
            final(self).input_flags_spec() == flags,
            final(self).handle_spec() == old(self).handle_spec(),
            final(self).settings_spec() == old(self).settings_spec(),
    {
        self.inputs = *inputs;
        self.input_flags = flags;
    }

    /// Reads back the direct-path parameters, filtered by the requested
    /// categories.  Before any pass has touched the source the values are
    /// the neutral defaults, not an error.  In this layer the engine's
    /// ray tracer is out of scope, so every factor reports the neutral
    /// value `1.0` — in particular the occlusion factor always lies in
    /// `[0.0, 1.0]` — and the effect flags mirror the quantities the
    /// source asked to have simulated.
    pub fn get_outputs(&self, flags: SimulationFlags) -> (r: SimulationOutputs)
        ensures
            r.direct.distance_attenuation.raw == SCALAR_ONE_RAW,
            r.direct.directivity.raw == SCALAR_ONE_RAW,
            r.direct.occlusion.raw == SCALAR_ONE_RAW,
            0 <= r.direct.occlusion.raw <= SCALAR_ONE_RAW,
            r.direct.air_absorption == (Bands {
                low: Scalar { raw: SCALAR_ONE_RAW },
                mid: Scalar { raw: SCALAR_ONE_RAW },
                high: Scalar { raw: SCALAR_ONE_RAW },
            }),
            r.direct.transmission == (Bands {
                low: Scalar { raw: SCALAR_ONE_RAW },
                mid: Scalar { raw: SCALAR_ONE_RAW },
                high: Scalar { raw: SCALAR_ONE_RAW },
            }),
            r.direct.transmission_type == TransmissionType::FrequencyIndependent,
            flags.direct ==> {
                &&& r.direct.flags.distance_attenuation == self.inputs_spec().direct_flags.distance_attenuation
                &&& r.direct.flags.air_absorption == self.inputs_spec().direct_flags.air_absorption
                &&& r.direct.flags.directivity == self.inputs_spec().direct_flags.directivity
                &&& r.direct.flags.occlusion == self.inputs_spec().direct_flags.occlusion
                &&& r.direct.flags.transmission == self.inputs_spec().direct_flags.transmission
            },
            !flags.direct ==> r.direct.flags == (DirectEffectFlags {
                distance_attenuation: true,
                air_absorption: false,
                directivity: false,
                occlusion: false,
                transmission: false,
            }),
    {
        let effect_flags = if flags.direct {
            DirectEffectFlags::from_simulation(self.inputs.direct_flags)
        } else {
            DirectEffectFlags::default()
        };
        SimulationOutputs {
            direct: DirectEffectParams {
                flags: effect_flags,
                transmission_type: TransmissionType::FrequencyIndependent,
                distance_attenuation: Scalar::one(),
                directivity: Scalar::one(),
                occlusion: Scalar::one(),
                air_absorption: Bands::ones(),
                transmission: Bands::ones(),
            },
        }
    }

    /// The inputs the simulation currently reads for this source.
    pub fn inputs(&self) -> (r: SimulationInputs)
        ensures
            r == self.inputs_spec(),
    {
        self.inputs
    }

    /// The categories the last input write concerned.
    pub fn input_flags(&self) -> (r: SimulationFlags)
        ensures
            r == self.input_flags_spec(),
    {
        self.input_flags
    }

    /// Destroys the wrapper: one release call if (and only if) the handle
    /// is live.
    pub fn release(self, engine: &mut Engine)
        requires
            old(engine).wf(),
            self.is_live_spec() ==> old(engine).live(self.raw_spec()),
        ensures
            final(engine).wf(),
            final(engine).slots_seq() == finalize_slots_spec(
                self.handle_spec(),
                old(engine).slots_seq(),
            ),
            self.is_live_spec() ==> final(engine).releases_of(self.raw_spec()) == old(
                engine,
            ).releases_of(self.raw_spec()) + 1,
            !self.is_live_spec() ==> final(engine).slots_seq() == old(engine).slots_seq(),
            final(engine).create_status_spec() == old(engine).create_status_spec(),
    {
        let mut handle = self.handle;
        handle.finalize(engine);
    }

    /// The raw handle, for handing to native calls; callable only while
    /// live.
    pub fn inner_raw(&self) -> (r: usize)
        requires
            self.is_live_spec(),
        ensures
            r == self.raw_spec(),
    {
        self.handle.raw()
    }

    /// Whether the wrapper still owns a live handle.
    pub fn is_live(&self) -> (r: bool)
        ensures
            r == self.is_live_spec(),
    {
        self.handle.is_live()
    }
}


impl crate::SteamAudioObject for Source {
    /// Whether the wrapper still owns a live handle.
    open spec fn object_live_spec(&self) -> bool {
        self.is_live_spec()
    }

    /// The raw handle value.
    open spec fn object_raw_spec(&self) -> usize {
        self.raw_spec()
    }

    /// The raw handle, for handing to native calls.
    fn inner_raw(&self) -> (r: usize) {
        self.handle.raw()
    }
}

} // verus!
