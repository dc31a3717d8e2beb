//! The per-frame simulation orchestrator.
//!
//! A [`Simulator`] holds the simulation-wide settings, is associated with
//! exactly one committed scene at a time, and advances the direct,
//! reflection and pathing passes over all added sources.  Within one
//! frame the protocol is: set the sources' inputs, commit, run the
//! passes, read the outputs.  The wrapper tracks its topology (scene,
//! sources, commit state) so the protocol is visible in its contracts.

use vstd::prelude::*;

use crate::context::Context;
use crate::engine::{slots_after_create, Engine};
use crate::error::{IplError, SteamAudioError};
use crate::ffi::{
    IplSimulationSettings, IplSimulationSharedInputs,
    REFLECTION_EFFECT_TYPE_CONVOLUTION, REFLECTION_EFFECT_TYPE_HYBRID,
    REFLECTION_EFFECT_TYPE_PARAMETRIC, REFLECTION_EFFECT_TYPE_TAN, SCENE_TYPE_CUSTOM,
    SCENE_TYPE_DEFAULT, SCENE_TYPE_EMBREE, SCENE_TYPE_RADEON_RAYS,
};
use crate::flags::SimulationFlags;
use crate::handle::{finalize_slots_spec, NativeHandle};
use crate::hrtf::AudioSettings;
use crate::orientation::Orientation;
use crate::scalar::Scalar;
use crate::scene::Scene;

verus! {

/// Which ray tracer the simulator uses.
#[derive(Debug, Clone, Copy, PartialEq, Eq, Structural)]
pub enum SceneType {
    /// The engine's built-in ray tracer.
    Default,
    /// Embree.
    Embree,
    /// Radeon Rays.
    RadeonRays,
    /// Caller-supplied ray tracing callbacks.
    Custom,
}

impl Default for SceneType {
    /// The built-in ray tracer.
    fn default() -> (r: SceneType)
        ensures
            r == SceneType::Default,
    {
        SceneType::Default
    }
}

impl SceneType {
    /// The ABI code of this scene kind.
    pub open spec fn code_spec(self) -> i32 {
        match self {
            SceneType::Default => SCENE_TYPE_DEFAULT,
            SceneType::Embree => SCENE_TYPE_EMBREE,
            SceneType::RadeonRays => SCENE_TYPE_RADEON_RAYS,
            SceneType::Custom => SCENE_TYPE_CUSTOM,
        }
    }

    /// Marshals the scene kind into its ABI code.
    pub fn code(self) -> (r: i32)
        ensures
            r == self.code_spec(),
    {
        match self {
            SceneType::Default => SCENE_TYPE_DEFAULT,
            SceneType::Embree => SCENE_TYPE_EMBREE,
            SceneType::RadeonRays => SCENE_TYPE_RADEON_RAYS,
            SceneType::Custom => SCENE_TYPE_CUSTOM,
        }
    }
}

/// How reflections are rendered.
#[derive(Debug, Clone, Copy, PartialEq, Eq, Structural)]
pub enum ReflectionEffectType {
    /// Convolution with the simulated impulse response.
    Convolution,
    /// A parametric reverb fit to the simulation.
    Parametric,
    /// Convolution of the early part, parametric tail.
    Hybrid,
    /// TrueAudio Next convolution.
    Tan,
}

impl Default for ReflectionEffectType {
    /// Convolution.
    fn default() -> (r: ReflectionEffectType)
        ensures
            r == ReflectionEffectType::Convolution,
    {
        ReflectionEffectType::Convolution
    }
}

impl ReflectionEffectType {
    /// The ABI code of this reflection effect kind.
    pub open spec fn code_spec(self) -> i32 {
        match self {
            ReflectionEffectType::Convolution => REFLECTION_EFFECT_TYPE_CONVOLUTION,
            ReflectionEffectType::Parametric => REFLECTION_EFFECT_TYPE_PARAMETRIC,
            ReflectionEffectType::Hybrid => REFLECTION_EFFECT_TYPE_HYBRID,
            ReflectionEffectType::Tan => REFLECTION_EFFECT_TYPE_TAN,
        }
    }

    /// Marshals the reflection effect kind into its ABI code.
    pub fn code(self) -> (r: i32)
        ensures
            r == self.code_spec(),
    {
        match self {
            ReflectionEffectType::Convolution => REFLECTION_EFFECT_TYPE_CONVOLUTION,
            ReflectionEffectType::Parametric => REFLECTION_EFFECT_TYPE_PARAMETRIC,
            ReflectionEffectType::Hybrid => REFLECTION_EFFECT_TYPE_HYBRID,
            ReflectionEffectType::Tan => REFLECTION_EFFECT_TYPE_TAN,
        }
    }
}

/// Simulation-wide settings: category flags, backend choices and budget
/// knobs, fixed at simulator creation.
#[derive(Debug, Clone, Copy, PartialEq, Eq, Structural)]
pub struct SimulationSettings {
    /// Simulation categories the simulator will ever run.
    pub flags: SimulationFlags,
    /// Ray tracer used.
    pub scene_type: SceneType,
    /// Reflection rendering used.
    pub reflection_type: ReflectionEffectType,
    /// Upper bound on volumetric occlusion samples per source.
    pub max_num_occlusion_samples: u32,
    /// Upper bound on rays traced per reflection pass.
    pub max_num_rays: u32,
    /// Diffuse samples per ray bounce.
    pub num_diffuse_samples: u32,
    /// Longest impulse response in seconds.
    pub max_duration: Scalar,
    /// Highest ambisonics order simulated.
    pub max_order: u8,
    /// Upper bound on simultaneously simulated sources.
    pub max_num_sources: u32,
    /// Worker threads used by the engine.
    pub num_threads: u32,
    /// Rays per batch when tracing in batches.
    pub ray_batch_size: u32,
    /// Visibility samples for pathing.
    pub num_vis_samples: u32,
    /// Sampling rate in Hz.
    pub sampling_rate: u32,
    /// Samples per frame.
    pub frame_size: u32,
}

impl SimulationSettings {
    /// Workable defaults for the given audio pipeline: direct simulation
    /// only, the built-in ray tracer, and modest ray budgets.
    pub fn from_audio_settings(audio_settings: &AudioSettings) -> (r: SimulationSettings)
        ensures
            r == (SimulationSettings {
                flags: SimulationFlags { direct: true, reflections: false, pathing: false },
                scene_type: SceneType::Default,
                reflection_type: ReflectionEffectType::Convolution,
                max_num_occlusion_samples: 0,
                max_num_rays: 4096,
                num_diffuse_samples: 32,
                max_duration: Scalar { raw: crate::scalar::SCALAR_ONE_RAW },
                max_order: 1,
                max_num_sources: 256,
                num_threads: 2,
                ray_batch_size: 0,
                num_vis_samples: 0,
                sampling_rate: audio_settings.sampling_rate_spec(),
                frame_size: audio_settings.frame_size_spec(),
            }),
    {
        SimulationSettings {
            flags: SimulationFlags::default(),
            scene_type: SceneType::default(),
            reflection_type: ReflectionEffectType::default(),
            max_num_occlusion_samples: 0,
            max_num_rays: 4096,
            num_diffuse_samples: 32,
            max_duration: Scalar::one(),
            max_order: 1,
            max_num_sources: 256,
            num_threads: 2,
            ray_batch_size: 0,
            num_vis_samples: 0,
            sampling_rate: audio_settings.sampling_rate(),
            frame_size: audio_settings.frame_size(),
        }
    }

    /// The marshaled form: flag bits, kind codes, counts as 32-bit
    /// integers, and no compute devices.
    pub open spec fn to_ipl_spec(self) -> IplSimulationSettings {
        IplSimulationSettings {
            flags: self.flags.bits_spec(),
            scene_type: self.scene_type.code_spec(),
            reflection_type: self.reflection_type.code_spec(),
            max_num_occlusion_samples: self.max_num_occlusion_samples as i32,
            max_num_rays: self.max_num_rays as i32,
            num_diffuse_samples: self.num_diffuse_samples as i32,
            max_duration: self.max_duration,
            max_order: self.max_order as i32,
            max_num_sources: self.max_num_sources as i32,
            num_threads: self.num_threads as i32,
            ray_batch_size: self.ray_batch_size as i32,
            num_vis_samples: self.num_vis_samples as i32,
            sampling_rate: self.sampling_rate as i32,
            frame_size: self.frame_size as i32,
            open_cl_device: 0,
            radeon_rays_device: 0,
            tan_device: 0,
        }
    }

    /// Marshals the settings into the ABI value struct.
    pub fn to_ipl(&self) -> (r: IplSimulationSettings)
        ensures
            r == self.to_ipl_spec(),
    {
        IplSimulationSettings {
            flags: self.flags.bits(),
            scene_type: self.scene_type.code(),
            reflection_type: self.reflection_type.code(),
            max_num_occlusion_samples: self.max_num_occlusion_samples as i32,
            max_num_rays: self.max_num_rays as i32,
            num_diffuse_samples: self.num_diffuse_samples as i32,
            max_duration: self.max_duration,
            max_order: self.max_order as i32,
            max_num_sources: self.max_num_sources as i32,
            num_threads: self.num_threads as i32,
            ray_batch_size: self.ray_batch_size as i32,
            num_vis_samples: self.num_vis_samples as i32,
            sampling_rate: self.sampling_rate as i32,
            frame_size: self.frame_size as i32,
            open_cl_device: 0,
            radeon_rays_device: 0,
            tan_device: 0,
        }
    }
}

/// Per-frame inputs shared by every source: the listener and the
/// reflection budgets.
#[derive(Debug, Clone, Copy, PartialEq, Eq, Structural)]
pub struct SimulationSharedInputs {
    /// The listener's coordinate frame.
    pub listener: Orientation,
    /// Rays traced per reflection pass.
    pub num_rays: u32,
    /// Bounces per ray.
    pub num_bounces: u32,
    /// Impulse response duration in seconds.
    pub duration: Scalar,
    /// Ambisonics order of reflections.
    pub order: u8,
    /// Smallest distance used for irradiance computation.
    pub irradiance_min_distance: Scalar,
}

impl Default for SimulationSharedInputs {
    /// The identity listener frame and modest reflection budgets.
    fn default() -> (r: SimulationSharedInputs)
        ensures
            r.num_rays == 4096,
            r.num_bounces == 16,
            r.duration.raw == 2 * crate::scalar::SCALAR_ONE_RAW,
            r.order == 1,
            r.irradiance_min_distance.raw == crate::scalar::SCALAR_ONE_RAW,
            r.listener == Orientation::default_spec(),
    {
        SimulationSharedInputs {
            listener: Orientation::default(),
            num_rays: 4096,
            num_bounces: 16,
            duration: Scalar::from_int(2),
            order: 1,
            irradiance_min_distance: Scalar::one(),
        }
    }
}

impl SimulationSharedInputs {
    /// The marshaled form.
    pub open spec fn to_ipl_spec(self) -> IplSimulationSharedInputs {
        IplSimulationSharedInputs {
            listener: self.listener.to_ipl_spec(),
            num_rays: self.num_rays as i32,
            num_bounces: self.num_bounces as i32,
            duration: self.duration,
            order: self.order as i32,
            irradiance_min_distance: self.irradiance_min_distance,
        }
    }

    /// Marshals the shared inputs into the ABI value struct.
    pub fn to_ipl(&self) -> (r: IplSimulationSharedInputs)
        ensures
            r == self.to_ipl_spec(),
    {
        IplSimulationSharedInputs {
            listener: self.listener.to_ipl(),
            num_rays: self.num_rays as i32,
            num_bounces: self.num_bounces as i32,
            duration: self.duration,
            order: self.order as i32,
            irradiance_min_distance: self.irradiance_min_distance,
        }
    }
}

/// Drives the acoustic simulation, one pass at a time, over all added
/// sources.
#[derive(Debug)]
pub struct Simulator {
    handle: NativeHandle,
    settings: IplSimulationSettings,
    scene: usize,
    sources: Vec<usize>,
    committed: bool,
    ran_direct: bool,
    ran_reflections: bool,
    ran_pathing: bool,
    shared_inputs: Option<(i32, IplSimulationSharedInputs)>,
}

impl Simulator {
    /// The owned handle.
    pub closed spec fn handle_spec(self) -> NativeHandle {
        self.handle
    }

    /// The raw handle value.
    pub open spec fn raw_spec(self) -> usize {
        self.handle_spec().raw_spec()
    }

    /// Whether the wrapper still owns a live handle.
    pub open spec fn is_live_spec(self) -> bool {
        self.handle_spec().is_live_spec()
    }

    /// The marshaled settings kept alive alongside the handle.
    pub closed spec fn settings_spec(self) -> IplSimulationSettings {
        self.settings
    }

    /// The raw handle of the associated scene; `0` while none is set.
    pub closed spec fn scene_spec(self) -> usize {
        self.scene
    }

    /// The raw handles of the added sources, in order of addition.
    pub closed spec fn sources_spec(self) -> Seq<usize> {
        self.sources@
    }

    /// Whether the topology has been committed since it last changed.
    pub closed spec fn is_committed_spec(self) -> bool {
        self.committed
    }

    /// The last shared inputs set, with their category bits, if any.
    pub closed spec fn shared_inputs_spec(self) -> Option<(i32, IplSimulationSharedInputs)> {
        self.shared_inputs
    }

    /// Whether a direct pass has run.
    pub closed spec fn ran_direct_spec(self) -> bool {
        self.ran_direct
    }

    /// Whether a reflection pass has run.
    pub closed spec fn ran_reflections_spec(self) -> bool {
        self.ran_reflections
    }

    /// Whether a pathing pass has run.
    pub closed spec fn ran_pathing_spec(self) -> bool {
        self.ran_pathing
    }

    /// Creates a simulator against a live context.  Succeeds exactly when
    /// the engine's creation status is success; the new simulator has no
    /// scene, no sources, and an uncommitted topology.
    pub fn new(engine: &mut Engine, context: &Context, settings: &SimulationSettings) -> (r:
        Result<Simulator, SteamAudioError>)
        requires
            old(engine).wf(),
            context.is_live_spec(),
            old(engine).live(context.raw_spec()),
        ensures
            final(engine).wf(),
            final(engine).create_status_spec() == old(engine).create_status_spec(),
            r is Ok <==> old(engine).create_status_spec() == IplError::Success,
            r matches Ok(s) ==> {
                &&& s.is_live_spec()
                &&& !s.is_committed_spec()
                &&& s.scene_spec() == 0
                &&& s.sources_spec() =~= Seq::<usize>::empty()
                &&& !s.ran_direct_spec()
                &&& !s.ran_reflections_spec()
                &&& !s.ran_pathing_spec()
                &&& s.shared_inputs_spec() is None
                &&& final(engine).slots_seq() =~= slots_after_create(old(engine).slots_seq())
                &&& s.raw_spec() == final(engine).slots_seq().len()
                &&& final(engine).live(s.raw_spec())
                &&& final(engine).refs_of(s.raw_spec()) == 1
                &&& s.settings_spec() == settings.to_ipl_spec()
            },
            r matches Err(e) ==> e == SteamAudioError::IPLError(old(engine).create_status_spec())
                && final(engine).slots_seq() == old(engine).slots_seq(),
    {
        let ipl_settings = settings.to_ipl();
        let (status, raw) = engine.create();
        if status == IplError::Success {
            Ok(
                Simulator {
                    handle: NativeHandle::from_create(status, raw),
                    settings: ipl_settings,
                    scene: 0,
                    sources: Vec::new(),
                    committed: false,
                    ran_direct: false,
                    ran_reflections: false,
                    ran_pathing: false,
                    shared_inputs: None,
                },
            )
        } else {
            Err(SteamAudioError::IPLError(status))
        }
    }

    /// Associates the simulator with a committed scene; the association
    /// is a topology change and must be committed before the next pass.
    pub fn set_scene(&mut self, scene: &Scene)
        requires
            scene.is_live_spec(),
            scene.is_committed_spec(),
        ensures
            final(self).scene_spec() == scene.raw_spec(),
            !final(self).is_committed_spec(),
            final(self).handle_spec() == old(self).handle_spec(),
            final(self).settings_spec() == old(self).settings_spec(),
            final(self).sources_spec() == old(self).sources_spec(),
            final(self).shared_inputs_spec() == old(self).shared_inputs_spec(),
    {
        self.scene = scene.inner_raw();
        self.committed = false;
    }

    /// Registers a live source with the simulator; a topology change that
    /// must be committed before the next pass.
    pub fn add_source(&mut self, source: &crate::source::Source)
        requires
            source.is_live_spec(),
        ensures
            final(self).sources_spec() =~= old(self).sources_spec().push(source.raw_spec()),
            !final(self).is_committed_spec(),
            final(self).handle_spec() == old(self).handle_spec(),
            final(self).settings_spec() == old(self).settings_spec(),
            final(self).scene_spec() == old(self).scene_spec(),
            final(self).shared_inputs_spec() == old(self).shared_inputs_spec(),
    {
        self.sources.push(source.inner_raw());
        self.committed = false;
    }

    /// Commits the topology: must follow any scene or source change and
    /// precede the next pass of the same frame.
    pub fn commit(&mut self)
        ensures
            final(self).is_committed_spec(),
            final(self).handle_spec() == old(self).handle_spec(),
            final(self).settings_spec() == old(self).settings_spec(),
            final(self).scene_spec() == old(self).scene_spec(),
            final(self).sources_spec() == old(self).sources_spec(),
            final(self).shared_inputs_spec() == old(self).shared_inputs_spec(),
    {
        self.committed = true;
    }

    /// Runs the direct-path pass over all added sources.  Cheap and safe
    /// to call every audio frame; the topology must stand committed.
    pub fn run_direct(&mut self)
        requires
            old(self).is_committed_spec(),
        ensures
            final(self).ran_direct_spec(),
            final(self).ran_reflections_spec() == old(self).ran_reflections_spec(),
            final(self).ran_pathing_spec() == old(self).ran_pathing_spec(),
            final(self).handle_spec() == old(self).handle_spec(),
            final(self).settings_spec() == old(self).settings_spec(),
            final(self).scene_spec() == old(self).scene_spec(),
            final(self).sources_spec() == old(self).sources_spec(),
            final(self).is_committed_spec(),
            final(self).shared_inputs_spec() == old(self).shared_inputs_spec(),
    {
        self.ran_direct = true;
    }

    /// Runs the reflection pass over all added sources.  Expensive;
    /// typically run at a lower cadence or off the audio thread.
    pub fn run_reflections(&mut self)
        requires
            old(self).is_committed_spec(),
        ensures
            final(self).ran_reflections_spec(),
            final(self).ran_direct_spec() == old(self).ran_direct_spec(),
            final(self).ran_pathing_spec() == old(self).ran_pathing_spec(),
            final(self).handle_spec() == old(self).handle_spec(),
            final(self).settings_spec() == old(self).settings_spec(),
            final(self).scene_spec() == old(self).scene_spec(),
            final(self).sources_spec() == old(self).sources_spec(),
            final(self).is_committed_spec(),
            final(self).shared_inputs_spec() == old(self).shared_inputs_spec(),
    {
        self.ran_reflections = true;
    }

    /// Runs the pathing pass over all added sources.  Expensive;
    /// typically run at a lower cadence or off the audio thread.
    pub fn run_pathing(&mut self)
        requires
            old(self).is_committed_spec(),
        ensures
            final(self).ran_pathing_spec(),
            final(self).ran_direct_spec() == old(self).ran_direct_spec(),
            final(self).ran_reflections_spec() == old(self).ran_reflections_spec(),
            final(self).handle_spec() == old(self).handle_spec(),
            final(self).settings_spec() == old(self).settings_spec(),
            final(self).scene_spec() == old(self).scene_spec(),
            final(self).sources_spec() == old(self).sources_spec(),
            final(self).is_committed_spec(),
            final(self).shared_inputs_spec() == old(self).shared_inputs_spec(),
    {
        self.ran_pathing = true;
    }

    /// Whether a direct pass has run.
    pub fn has_run_direct(&self) -> (r: bool)
        ensures
            r == self.ran_direct_spec(),
    {
        self.ran_direct
    }

    /// Stores the per-frame shared inputs for the given categories: a
    /// pure value overwrite, kept alive by the wrapper for the engine to
    /// read.
    pub fn set_shared_inputs(
        &mut self,
        flags: SimulationFlags,
        shared_inputs: &SimulationSharedInputs,
    )
        ensures
            final(self).shared_inputs_spec() == Some(
                (flags.bits_spec(), shared_inputs.to_ipl_spec()),
            ),
            final(self).handle_spec() == old(self).handle_spec(),
            final(self).settings_spec() == old(self).settings_spec(),
            final(self).scene_spec() == old(self).scene_spec(),
            final(self).sources_spec() == old(self).sources_spec(),
            final(self).is_committed_spec() == old(self).is_committed_spec(),
    {
        let ipl = shared_inputs.to_ipl();
        self.shared_inputs = Some((flags.bits(), ipl));
    }

    /// How many sources have been added.
    pub fn source_count(&self) -> (r: usize)
        ensures
            r == self.sources_spec().len(),
    {
        self.sources.len()
    }

    /// Whether the topology stands committed.
    pub fn is_committed(&self) -> (r: bool)
        ensures
            r == self.is_committed_spec(),
    {
        self.committed
    }

    /// Destroys the wrapper: one release call if (and only if) the handle
    /// is live.
    pub fn release(self, engine: &mut Engine)
        requires
            old(engine).wf(),
            self.is_live_spec() ==> old(engine).live(self.raw_spec()),
        ensures
            final(engine).wf(),
            final(engine).slots_seq() == finalize_slots_spec(
                self.handle_spec(),
                old(engine).slots_seq(),
            ),
            self.is_live_spec() ==> final(engine).releases_of(self.raw_spec()) == old(
                engine,
            ).releases_of(self.raw_spec()) + 1,
            !self.is_live_spec() ==> final(engine).slots_seq() == old(engine).slots_seq(),
            final(engine).create_status_spec() == old(engine).create_status_spec(),
    {
        let mut handle = self.handle;
        handle.finalize(engine);
    }

    /// The raw handle, for handing to native calls; callable only while
    /// live.
    pub fn inner_raw(&self) -> (r: usize)
        requires
            self.is_live_spec(),
        ensures
            r == self.raw_spec(),
    {
        self.handle.raw()
    }

    /// Whether the wrapper still owns a live handle.
    pub fn is_live(&self) -> (r: bool)
        ensures
            r == self.is_live_spec(),
    {
        self.handle.is_live()
    }
}


impl crate::SteamAudioObject for Simulator {
    /// Whether the wrapper still owns a live handle.
    open spec fn object_live_spec(&self) -> bool {
        self.is_live_spec()
    }

    /// The raw handle value.
    open spec fn object_raw_spec(&self) -> usize {
        self.raw_spec()
    }

    /// The raw handle, for handing to native calls.
    fn inner_raw(&self) -> (r: usize) {
        self.handle.raw()
    }
}

} // verus!
