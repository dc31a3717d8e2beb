//! Audio pipeline settings and HRTF datasets.

use vstd::prelude::*;

use crate::context::Context;
use crate::engine::{slots_after_create, Engine};
use crate::error::{IplError, SteamAudioError};
use crate::ffi::{
    IplAudioSettings, IplHrtfSettings, HRTF_INTERPOLATION_BILINEAR, HRTF_INTERPOLATION_NEAREST,
    HRTF_NORM_TYPE_NONE, HRTF_TYPE_DEFAULT, HRTF_TYPE_SOFA,
};
use crate::handle::{finalize_slots_spec, NativeHandle};
use crate::scalar::Scalar;

verus! {

/// How the engine interpolates between measured HRTF directions.
#[derive(Debug, Clone, Copy, PartialEq, Eq, Structural)]
pub enum HRTFInterpolation {
    /// Use the nearest measured direction.
    NearestNeighbor,
    /// Blend the surrounding measured directions.
    Bilinear,
}

impl HRTFInterpolation {
    /// The ABI code of this interpolation kind.
    pub open spec fn code_spec(self) -> i32 {
        match self {
            HRTFInterpolation::NearestNeighbor => HRTF_INTERPOLATION_NEAREST,
            HRTFInterpolation::Bilinear => HRTF_INTERPOLATION_BILINEAR,
        }
    }

    /// Marshals the interpolation kind into its ABI code.
    pub fn code(self) -> (r: i32)
        ensures
            r == self.code_spec(),
    {
        match self {
            HRTFInterpolation::NearestNeighbor => HRTF_INTERPOLATION_NEAREST,
            HRTFInterpolation::Bilinear => HRTF_INTERPOLATION_BILINEAR,
        }
    }
}

/// Which HRTF dataset to load.
#[derive(Debug, Clone, PartialEq, Eq)]
pub enum HRTFSettings {
    /// The engine's built-in dataset, at the given volume.
    Default {
        /// Output gain applied to the dataset.
        volume: Scalar,
    },
    /// A SOFA file, at the given volume.
    SOFA {
        /// Path of the SOFA file.
        path: String,
        /// Output gain applied to the dataset.
        volume: Scalar,
    },
}

impl Default for HRTFSettings {
    /// The built-in dataset at unit volume.
    fn default() -> (r: HRTFSettings)
        ensures
            r matches HRTFSettings::Default { volume } && volume.raw
                == crate::scalar::SCALAR_ONE_RAW,
    {
        HRTFSettings::Default { volume: Scalar::one() }
    }
}

impl HRTFSettings {
    /// The ABI code of the dataset kind.
    pub open spec fn type_code_spec(self) -> i32 {
        match self {
            HRTFSettings::Default { .. } => HRTF_TYPE_DEFAULT,
            HRTFSettings::SOFA { .. } => HRTF_TYPE_SOFA,
        }
    }

    /// The configured volume.
    pub open spec fn volume_spec(self) -> Scalar {
        match self {
            HRTFSettings::Default { volume } => volume,
            HRTFSettings::SOFA { volume, .. } => volume,
        }
    }

    /// The SOFA path carried to the engine; empty for the built-in
    /// dataset.
    pub open spec fn path_view(self) -> Seq<char> {
        match self {
            HRTFSettings::Default { .. } => Seq::<char>::empty(),
            HRTFSettings::SOFA { path, .. } => path@,
        }
    }

    /// Marshals the settings into the ABI value struct.  The path is
    /// carried by value, so it outlives the call on its own.
    pub fn to_ipl(&self) -> (r: IplHrtfSettings)
        ensures
            r.type_ == self.type_code_spec(),
            r.volume == self.volume_spec(),
            r.sofa_file_name@ == self.path_view(),
            r.sofa_data == 0,
            r.sofa_data_size == 0,
            r.norm_type == HRTF_NORM_TYPE_NONE,
    {
        match self {
            HRTFSettings::Default { volume } => IplHrtfSettings {
                type_: HRTF_TYPE_DEFAULT,
                sofa_file_name: String::new(),
                sofa_data: 0,
                sofa_data_size: 0,
                volume: *volume,
                norm_type: HRTF_NORM_TYPE_NONE,
            },
            HRTFSettings::SOFA { path, volume } => IplHrtfSettings {
                type_: HRTF_TYPE_SOFA,
                sofa_file_name: path.clone(),
                sofa_data: 0,
                sofa_data_size: 0,
                volume: *volume,
                norm_type: HRTF_NORM_TYPE_NONE,
            },
        }
    }
}

/// Sample rate and frame size shared by the whole pipeline.  Immutable
/// after construction; every buffer and effect is configured from one.
#[derive(Debug, Clone, Copy, PartialEq, Eq, Structural)]
pub struct AudioSettings {
    sampling_rate: u32,
    frame_size: u32,
}

impl AudioSettings {
    /// The configured sampling rate.
    pub closed spec fn sampling_rate_spec(self) -> u32 {
        self.sampling_rate
    }

    /// The configured frame size.
    pub closed spec fn frame_size_spec(self) -> u32 {
        self.frame_size
    }

    /// Settings from a rate and a frame size; a frame holds at least one
    /// sample.
    pub fn new(sampling_rate: u32, frame_size: u32) -> (r: AudioSettings)
        requires
            frame_size >= 1,
        ensures
            r.sampling_rate_spec() == sampling_rate,
            r.frame_size_spec() == frame_size,
    {
        AudioSettings { sampling_rate, frame_size }
    }

    /// The configured sampling rate.
    pub fn sampling_rate(&self) -> (r: u32)
        ensures
            r == self.sampling_rate_spec(),
    {
        self.sampling_rate
    }

    /// The configured frame size.
    pub fn frame_size(&self) -> (r: u32)
        ensures
            r == self.frame_size_spec(),
    {
        self.frame_size
    }

    /// The marshaled form.
    pub open spec fn to_ipl_spec(self) -> IplAudioSettings {
        IplAudioSettings {
            sampling_rate: self.sampling_rate_spec() as i32,
            frame_size: self.frame_size_spec() as i32,
        }
    }

    /// Marshals the settings into the ABI value struct.
    pub fn to_ipl(&self) -> (r: IplAudioSettings)
        ensures
            r == self.to_ipl_spec(),
    {
        IplAudioSettings {
            sampling_rate: self.sampling_rate as i32,
            frame_size: self.frame_size as i32,
        }
    }
}

impl Default for AudioSettings {
    /// CD-adjacent defaults: 44100 Hz, 1024 samples per frame.
    fn default() -> (r: AudioSettings)
        ensures
            r.sampling_rate_spec() == 44100,
            r.frame_size_spec() == 1024,
    {
        AudioSettings { sampling_rate: 44100, frame_size: 1024 }
    }
}

/// A loaded HRTF dataset.  Spatialization effects reference it by raw
/// handle and do not own it; this wrapper does, and keeps the marshaled
/// settings alive alongside the handle.
#[derive(Debug)]
pub struct HRTF {
    handle: NativeHandle,
    hrtf_settings: IplHrtfSettings,
    audio_settings: IplAudioSettings,
}

impl HRTF {
    /// The owned handle.
    pub closed spec fn handle_spec(self) -> NativeHandle {
        self.handle
    }

    /// The raw handle value.
    pub open spec fn raw_spec(self) -> usize {
        self.handle_spec().raw_spec()
    }

    /// Whether the wrapper still owns a live handle.
    pub open spec fn is_live_spec(self) -> bool {
        self.handle_spec().is_live_spec()
    }

    /// The marshaled HRTF settings kept alive alongside the handle.
    pub closed spec fn hrtf_settings_spec(self) -> IplHrtfSettings {
        self.hrtf_settings
    }

    /// The marshaled audio settings kept alive alongside the handle.
    pub closed spec fn audio_settings_spec(self) -> IplAudioSettings {
        self.audio_settings
    }

    /// Loads an HRTF against a live context.  Succeeds exactly when the
    /// engine's creation status is success; on failure nothing is
    /// allocated and the error carries the status.
    pub fn new(
        engine: &mut Engine,
        context: &Context,
        audio_settings: &AudioSettings,
        hrtf_settings: &HRTFSettings,
    ) -> (r: Result<HRTF, SteamAudioError>)
        requires
            old(engine).wf(),
            context.is_live_spec(),
            old(engine).live(context.raw_spec()),
        ensures
            final(engine).wf(),
            final(engine).create_status_spec() == old(engine).create_status_spec(),
            r is Ok <==> old(engine).create_status_spec() == IplError::Success,
            r matches Ok(h) ==> {
                &&& h.is_live_spec()
                &&& final(engine).slots_seq() =~= slots_after_create(old(engine).slots_seq())
                &&& h.raw_spec() == final(engine).slots_seq().len()
                &&& final(engine).live(h.raw_spec())
                &&& final(engine).refs_of(h.raw_spec()) == 1
                &&& final(engine).releases_of(h.raw_spec()) == 0
                &&& h.audio_settings_spec() == audio_settings.to_ipl_spec()
                &&& h.hrtf_settings_spec().type_ == hrtf_settings.type_code_spec()
                &&& h.hrtf_settings_spec().volume == hrtf_settings.volume_spec()
                &&& h.hrtf_settings_spec().sofa_file_name@ == hrtf_settings.path_view()
            },
            r matches Err(e) ==> e == SteamAudioError::IPLError(old(engine).create_status_spec())
                && final(engine).slots_seq() == old(engine).slots_seq(),
    {
        let ipl_hrtf_settings = hrtf_settings.to_ipl();
        let ipl_audio_settings = audio_settings.to_ipl();
        let (status, raw) = engine.create();
        if status == IplError::Success {
            Ok(
                HRTF {
                    handle: NativeHandle::from_create(status, raw),
                    hrtf_settings: ipl_hrtf_settings,
                    audio_settings: ipl_audio_settings,
                },
            )
        } else {
            Err(SteamAudioError::IPLError(status))
        }
    }

    /// Destroys the wrapper: one release call if (and only if) the handle
    /// is live.
    pub fn release(self, engine: &mut Engine)
        requires
            old(engine).wf(),
            self.is_live_spec() ==> old(engine).live(self.raw_spec()),
        ensures
            final(engine).wf(),
            final(engine).slots_seq() == finalize_slots_spec(
                self.handle_spec(),
                old(engine).slots_seq(),
            ),
            self.is_live_spec() ==> final(engine).releases_of(self.raw_spec()) == old(
                engine,
            ).releases_of(self.raw_spec()) + 1,
            !self.is_live_spec() ==> final(engine).slots_seq() == old(engine).slots_seq(),
            final(engine).create_status_spec() == old(engine).create_status_spec(),
    {
        let mut handle = self.handle;
        handle.finalize(engine);
    }

    /// The raw handle, for handing to native calls; callable only while
    /// live.
    pub fn inner_raw(&self) -> (r: usize)
        requires
            self.is_live_spec(),
        ensures
            r == self.raw_spec(),
    {
        self.handle.raw()
    }

    /// Whether the wrapper still owns a live handle.
    pub fn is_live(&self) -> (r: bool)
        ensures
            r == self.is_live_spec(),
    {
        self.handle.is_live()
    }
}


impl crate::SteamAudioObject for HRTF {
    /// Whether the wrapper still owns a live handle.
    open spec fn object_live_spec(&self) -> bool {
        self.is_live_spec()
    }

    /// The raw handle value.
    open spec fn object_raw_spec(&self) -> usize {
        self.raw_spec()
    }

    /// The raw handle, for handing to native calls.
    fn inner_raw(&self) -> (r: usize) {
        self.handle.raw()
    }
}

} // verus!
