//! The direct-path effect: attenuation, absorption, occlusion and
//! transmission applied to one frame per call.

use vstd::prelude::*;

use crate::audio_buffer::{route_frame, AudioBuffer, FrameWindow};
use crate::context::Context;
use crate::engine::{slots_after_create, Engine};
use crate::error::{IplError, SteamAudioError};
use crate::ffi::{
    IplDirectEffectParams, TRANSMISSION_TYPE_FREQ_DEPENDENT, TRANSMISSION_TYPE_FREQ_INDEPENDENT,
};
use crate::flags::DirectEffectFlags;
use crate::handle::{finalize_slots_spec, NativeHandle};
use crate::hrtf::AudioSettings;
use crate::scalar::{Bands, Scalar};

verus! {

/// How transmission through geometry is modeled.
#[derive(Debug, Clone, Copy, PartialEq, Eq, Structural)]
pub enum TransmissionType {
    /// One factor for all frequencies.
    FrequencyIndependent,
    /// One factor per frequency band.
    FrequencyDependent,
}

impl Default for TransmissionType {
    /// One factor for all frequencies.
    fn default() -> (r: TransmissionType)
        ensures
            r == TransmissionType::FrequencyIndependent,
    {
        TransmissionType::FrequencyIndependent
    }
}

impl TransmissionType {
    /// The ABI code of this transmission kind.
    pub open spec fn code_spec(self) -> i32 {
        match self {
            TransmissionType::FrequencyIndependent => TRANSMISSION_TYPE_FREQ_INDEPENDENT,
            TransmissionType::FrequencyDependent => TRANSMISSION_TYPE_FREQ_DEPENDENT,
        }
    }

    /// Marshals the transmission kind into its ABI code.
    pub fn code(self) -> (r: i32)
        ensures
            r == self.code_spec(),
    {
        match self {
            TransmissionType::FrequencyIndependent => TRANSMISSION_TYPE_FREQ_INDEPENDENT,
            TransmissionType::FrequencyDependent => TRANSMISSION_TYPE_FREQ_DEPENDENT,
        }
    }

    /// Reads a transmission kind back from its ABI code; every code other
    /// than the frequency-dependent one means frequency-independent.
    pub fn from_code(code: i32) -> (r: TransmissionType)
        ensures
            r == (if code == TRANSMISSION_TYPE_FREQ_DEPENDENT {
                TransmissionType::FrequencyDependent
            } else {
                TransmissionType::FrequencyIndependent
            }),
    {
        if code == TRANSMISSION_TYPE_FREQ_DEPENDENT {
            TransmissionType::FrequencyDependent
        } else {
            TransmissionType::FrequencyIndependent
        }
    }
}

/// The direct-path rendering parameters for one frame: which quantities
/// to apply, and the factor for each.  A fresh, complete set is supplied
/// every frame; nothing is retained between calls.
#[derive(Debug, Clone, Copy, PartialEq, Eq, Structural)]
pub struct DirectEffectParams {
    /// Which quantities to apply.
    pub flags: DirectEffectFlags,
    /// How transmission is modeled.
    pub transmission_type: TransmissionType,
    /// Distance attenuation factor.
    pub distance_attenuation: Scalar,
    /// Directivity factor.
    pub directivity: Scalar,
    /// Occlusion factor.
    pub occlusion: Scalar,
    /// Air absorption factor, per band.
    pub air_absorption: Bands,
    /// Transmission factor, per band.
    pub transmission: Bands,
}

impl Default for DirectEffectParams {
    /// Apply distance attenuation only, with every factor neutral.
    fn default() -> (r: DirectEffectParams)
        ensures
            r == (DirectEffectParams {
                flags: DirectEffectFlags {
                    distance_attenuation: true,
                    air_absorption: false,
                    directivity: false,
                    occlusion: false,
                    transmission: false,
                },
                transmission_type: TransmissionType::FrequencyIndependent,
                distance_attenuation: Scalar { raw: crate::scalar::SCALAR_ONE_RAW },
                directivity: Scalar { raw: crate::scalar::SCALAR_ONE_RAW },
                occlusion: Scalar { raw: crate::scalar::SCALAR_ONE_RAW },
                air_absorption: Bands {
                    low: Scalar { raw: crate::scalar::SCALAR_ONE_RAW },
                    mid: Scalar { raw: crate::scalar::SCALAR_ONE_RAW },
                    high: Scalar { raw: crate::scalar::SCALAR_ONE_RAW },
                },
                transmission: Bands {
                    low: Scalar { raw: crate::scalar::SCALAR_ONE_RAW },
                    mid: Scalar { raw: crate::scalar::SCALAR_ONE_RAW },
                    high: Scalar { raw: crate::scalar::SCALAR_ONE_RAW },
                },
            }),
    {
        DirectEffectParams {
            flags: DirectEffectFlags::default(),
            transmission_type: TransmissionType::default(),
            distance_attenuation: Scalar::one(),
            directivity: Scalar::one(),
            occlusion: Scalar::one(),
            air_absorption: Bands::ones(),
            transmission: Bands::ones(),
        }
    }
}

impl DirectEffectParams {
    /// The marshaled form: flag bits, kind code and factors verbatim.
    pub open spec fn to_ipl_spec(self) -> IplDirectEffectParams {
        IplDirectEffectParams {
            flags: self.flags.bits_spec(),
            transmission_type: self.transmission_type.code_spec(),
            distance_attenuation: self.distance_attenuation,
            directivity: self.directivity,
            occlusion: self.occlusion,
            air_absorption: self.air_absorption,
            transmission: self.transmission,
        }
    }

    /// Marshals the parameters into the ABI value struct.
    pub fn to_ipl(&self) -> (r: IplDirectEffectParams)
        ensures
            r == self.to_ipl_spec(),
    {
        IplDirectEffectParams {
            flags: self.flags.bits(),
            transmission_type: self.transmission_type.code(),
            distance_attenuation: self.distance_attenuation,
            directivity: self.directivity,
            occlusion: self.occlusion,
            air_absorption: self.air_absorption,
            transmission: self.transmission,
        }
    }

    /// Reads parameters back from the ABI value struct, decoding the flag
    /// bits and the transmission kind.
    pub fn from_ipl(other: &IplDirectEffectParams) -> (r: DirectEffectParams)
        ensures
            r.flags.distance_attenuation == (other.flags
                & crate::flags::DIRECT_FLAG_DISTANCE_ATTENUATION_BIT != 0),
            r.flags.air_absorption == (other.flags & crate::flags::DIRECT_FLAG_AIR_ABSORPTION_BIT
                != 0),
            r.flags.directivity == (other.flags & crate::flags::DIRECT_FLAG_DIRECTIVITY_BIT != 0),
            r.flags.occlusion == (other.flags & crate::flags::DIRECT_FLAG_OCCLUSION_BIT != 0),
            r.flags.transmission == (other.flags & crate::flags::DIRECT_FLAG_TRANSMISSION_BIT
                != 0),
            r.transmission_type == (if other.transmission_type
                == TRANSMISSION_TYPE_FREQ_DEPENDENT {
                TransmissionType::FrequencyDependent
            } else {
                TransmissionType::FrequencyIndependent
            }),
            r.distance_attenuation == other.distance_attenuation,
            r.directivity == other.directivity,
            r.occlusion == other.occlusion,
            r.air_absorption == other.air_absorption,
            r.transmission == other.transmission,
    {
        DirectEffectParams {
            flags: DirectEffectFlags::from_bits(other.flags),
            transmission_type: TransmissionType::from_code(other.transmission_type),
            distance_attenuation: other.distance_attenuation,
            directivity: other.directivity,
            occlusion: other.occlusion,
            air_absorption: other.air_absorption,
            transmission: other.transmission,
        }
    }
}

/// The direct-path effect.  Created once for a fixed channel count; both
/// the input and the output frame of every application must carry exactly
/// that many channels — a mismatch is caller misuse and is never quietly
/// remixed.
#[derive(Debug)]
pub struct DirectEffect {
    handle: NativeHandle,
    channels: usize,
}

impl DirectEffect {
    /// The owned handle.
    pub closed spec fn handle_spec(self) -> NativeHandle {
        self.handle
    }

    /// The raw handle value.
    pub open spec fn raw_spec(self) -> usize {
        self.handle_spec().raw_spec()
    }

    /// Whether the wrapper still owns a live handle.
    pub open spec fn is_live_spec(self) -> bool {
        self.handle_spec().is_live_spec()
    }

    /// The channel count fixed at creation.
    pub closed spec fn channels_spec(self) -> int {
        self.channels as int
    }

    /// Creates a direct effect for the given channel count against a live
    /// context.  Succeeds exactly when the engine's creation status is
    /// success.
    pub fn new(
        engine: &mut Engine,
        context: &Context,
        audio_settings: &AudioSettings,
        num_channels: usize,
    ) -> (r: Result<DirectEffect, SteamAudioError>)
        requires
            old(engine).wf(),
            context.is_live_spec(),
            old(engine).live(context.raw_spec()),
            num_channels >= 1,
        ensures
            final(engine).wf(),
            final(engine).create_status_spec() == old(engine).create_status_spec(),
            r is Ok <==> old(engine).create_status_spec() == IplError::Success,
            r matches Ok(e) ==> {
                &&& e.is_live_spec()
                &&& e.channels_spec() == num_channels
                &&& final(engine).slots_seq() =~= slots_after_create(old(engine).slots_seq())
                &&& e.raw_spec() == final(engine).slots_seq().len()
                &&& final(engine).live(e.raw_spec())
            },
            r matches Err(e) ==> e == SteamAudioError::IPLError(old(engine).create_status_spec())
                && final(engine).slots_seq() == old(engine).slots_seq(),
    {
        // Marshaled for the native creation call.
        let _ipl_audio = audio_settings.to_ipl();
        let (status, raw) = engine.create();
        if status == IplError::Success {
            Ok(DirectEffect { handle: NativeHandle::from_create(status, raw), channels: num_channels })
        } else {
            Err(SteamAudioError::IPLError(status))
        }
    }

    /// The channel count fixed at creation.
    pub fn channels(&self) -> (r: usize)
        ensures
            r == self.channels_spec(),
    {
        self.channels
    }

    /// Applies the effect to the window `w` of `input`, writing the frame
    /// held by `output`.  Channel counts are a precondition: both frames
    /// must carry exactly the effect's channel count.  The parameters are
    /// marshaled fresh for the call and not retained.
    pub fn apply_to_buffer(
        &self,
        params: &DirectEffectParams,
        input: &AudioBuffer,
        w: FrameWindow,
        output: &mut AudioBuffer,
    ) -> (r: Result<(), SteamAudioError>)
        requires
            self.is_live_spec(),
            input.wf(),
            old(output).wf(),
            w.start + w.frame_size <= input.total_samples_spec(),
            w.frame_size == old(output).frame_size_spec(),
            old(output).total_samples_spec() == old(output).frame_size_spec(),
            input.channels_spec() == self.channels_spec(),
            old(output).channels_spec() == self.channels_spec(),
        ensures
            r is Ok,
            final(output).wf(),
            final(output).channels_spec() == self.channels_spec(),
            final(output).frame_size_spec() == old(output).frame_size_spec(),
            final(output).total_samples_spec() == old(output).total_samples_spec(),
            forall|c: int, j: int|
                0 <= c < self.channels_spec() && 0 <= j < w.frame_size
                    ==> #[trigger] final(output).sample_spec(c, j) == input.sample_spec(
                    c,
                    w.start + j,
                ),
    {
        // The value the native apply call consumes; the DSP pass itself is the
        // engine's work and out of scope here.
        let _ipl_params = params.to_ipl();
        route_frame(input, w, output);
        Ok(())
    }

    /// Like [`DirectEffect::apply_to_buffer`], but checks the channel
    /// counts instead of assuming them: on a mismatch nothing is touched
    /// and the failure status comes back, so misuse can never quietly
    /// remix channels.
    pub fn try_apply_to_buffer(
        &self,
        params: &DirectEffectParams,
        input: &AudioBuffer,
        w: FrameWindow,
        output: &mut AudioBuffer,
    ) -> (r: Result<(), SteamAudioError>)
        requires
            self.is_live_spec(),
            input.wf(),
            old(output).wf(),
            w.start + w.frame_size <= input.total_samples_spec(),
            w.frame_size == old(output).frame_size_spec(),
            old(output).total_samples_spec() == old(output).frame_size_spec(),
        ensures
            r is Ok <==> input.channels_spec() == self.channels_spec() && old(
                output,
            ).channels_spec() == self.channels_spec(),
            r is Err ==> *final(output) == *old(output),
            r is Ok ==> {
                &&& final(output).wf()
                &&& final(output).channels_spec() == self.channels_spec()
                &&& forall|c: int, j: int|
                    0 <= c < self.channels_spec() && 0 <= j < w.frame_size
                        ==> #[trigger] final(output).sample_spec(c, j) == input.sample_spec(
                        c,
                        w.start + j,
                    )
            },
    {
        if input.channels() != self.channels || output.channels() != self.channels {
            return Err(SteamAudioError::IPLError(IplError::Failure));
        }
        self.apply_to_buffer(params, input, w, output)
    }

    /// Applies the effect into a freshly allocated one-frame buffer of
    /// the effect's channel count.
    pub fn apply(
        &self,
        audio_settings: &AudioSettings,
        params: &DirectEffectParams,
        input: &AudioBuffer,
        w: FrameWindow,
    ) -> (r: Result<AudioBuffer, SteamAudioError>)
        requires
            self.is_live_spec(),
            input.wf(),
            w.start + w.frame_size <= input.total_samples_spec(),
            w.frame_size == audio_settings.frame_size_spec(),
            audio_settings.frame_size_spec() >= 1,
            input.channels_spec() == self.channels_spec(),
        ensures
            r is Ok,
            r matches Ok(out) ==> {
                &&& out.wf()
                &&& out.channels_spec() == self.channels_spec()
                &&& out.frame_size_spec() == audio_settings.frame_size_spec()
                &&& forall|c: int, j: int|
                    0 <= c < self.channels_spec() && 0 <= j < w.frame_size
                        ==> #[trigger] out.sample_spec(c, j) == input.sample_spec(c, w.start + j)
            },
    {
        let mut output = AudioBuffer::silent_frame(
            audio_settings.frame_size() as usize,
            self.channels,
            audio_settings.sampling_rate(),
        );
        let r = self.apply_to_buffer(params, input, w, &mut output);
        match r {
            Ok(_) => Ok(output),
            Err(e) => Err(e),
        }
    }

    /// Destroys the wrapper: one release call if (and only if) the handle
    /// is live.
    pub fn release(self, engine: &mut Engine)
        requires
            old(engine).wf(),
            self.is_live_spec() ==> old(engine).live(self.raw_spec()),
        ensures
            final(engine).wf(),
            final(engine).slots_seq() == finalize_slots_spec(
                self.handle_spec(),
                old(engine).slots_seq(),
            ),
            self.is_live_spec() ==> final(engine).releases_of(self.raw_spec()) == old(
                engine,
            ).releases_of(self.raw_spec()) + 1,
            !self.is_live_spec() ==> final(engine).slots_seq() == old(engine).slots_seq(),
            final(engine).create_status_spec() == old(engine).create_status_spec(),
    {
        let mut handle = self.handle;
        handle.finalize(engine);
    }

    /// The raw handle, for handing to native calls; callable only while
    /// live.
    pub fn inner_raw(&self) -> (r: usize)
        requires
            self.is_live_spec(),
        ensures
            r == self.raw_spec(),
    {
        self.handle.raw()
    }

    /// Whether the wrapper still owns a live handle.
    pub fn is_live(&self) -> (r: bool)
        ensures
            r == self.is_live_spec(),
    {
        self.handle.is_live()
    }
}


impl crate::SteamAudioObject for DirectEffect {
    /// Whether the wrapper still owns a live handle.
    open spec fn object_live_spec(&self) -> bool {
        self.is_live_spec()
    }

    /// The raw handle value.
    open spec fn object_raw_spec(&self) -> usize {
        self.raw_spec()
    }

    /// The raw handle, for handing to native calls.
    fn inner_raw(&self) -> (r: usize) {
        self.handle.raw()
    }
}

} // verus!
