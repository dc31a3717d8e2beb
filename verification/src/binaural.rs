//! Binaural rendering: one mono frame in, one stereo frame out, filtered
//! through an HRTF.

use vstd::prelude::*;

use crate::audio_buffer::{route_frame, AudioBuffer, FrameWindow};
use crate::context::Context;
use crate::engine::{slots_after_create, Engine};
use crate::error::{IplError, SteamAudioError};
use crate::ffi::{IplBinauralEffectParams, IplVector3};
use crate::handle::{finalize_slots_spec, NativeHandle};
use crate::hrtf::{AudioSettings, HRTFInterpolation, HRTF};
use crate::scalar::Scalar;
use crate::vector::Vector3;

verus! {

/// Per-frame binaural parameters: the direction to render from, the HRTF
/// interpolation, and the spatial blend.  A complete, fresh set is
/// supplied every frame.
#[derive(Debug, Clone, Copy, PartialEq, Eq, Structural)]
pub struct BinauralParams {
    /// Direction from the listener to the source.
    pub direction: Vector3,
    /// How HRTF measurements are interpolated.
    pub interpolation: HRTFInterpolation,
    /// Blend between spatialized (1) and unspatialized (0) sound.
    pub spatial_blend: Scalar,
}

impl Default for BinauralParams {
    /// Straight ahead, nearest-neighbor interpolation, fully
    /// spatialized.
    fn default() -> (r: BinauralParams)
        ensures
            r.direction == (Vector3 {
                x: Scalar { raw: 0 },
                y: Scalar { raw: 0 },
                z: Scalar { raw: 0 },
            }),
            r.interpolation == HRTFInterpolation::NearestNeighbor,
            r.spatial_blend.raw == crate::scalar::SCALAR_ONE_RAW,
    {
        BinauralParams {
            direction: Vector3::zero(),
            interpolation: HRTFInterpolation::NearestNeighbor,
            spatial_blend: Scalar::one(),
        }
    }
}

impl BinauralParams {
    /// The marshaled form, merged with the HRTF the effect is bound to.
    pub open spec fn merge_spec(self, hrtf: usize) -> IplBinauralEffectParams {
        IplBinauralEffectParams {
            direction: IplVector3 { x: self.direction.x, y: self.direction.y, z: self.direction.z },
            interpolation: self.interpolation.code_spec(),
            spatial_blend: self.spatial_blend,
            hrtf,
            peak_delays: 0,
        }
    }

    /// Merges the parameters with the given HRTF handle into the ABI
    /// value struct the apply call consumes.
    pub fn merge(&self, hrtf: usize) -> (r: IplBinauralEffectParams)
        ensures
            r == self.merge_spec(hrtf),
    {
        IplBinauralEffectParams {
            direction: self.direction.to_ipl(),
            interpolation: self.interpolation.code(),
            spatial_blend: self.spatial_blend,
            hrtf,
            peak_delays: 0,
        }
    }
}

/// The binaural effect: renders a mono frame as spatial stereo against
/// the HRTF it was created with.  It references the HRTF by raw handle
/// and does not own it.
#[derive(Debug)]
pub struct BinauralEffect {
    handle: NativeHandle,
    hrtf: usize,
}

impl BinauralEffect {
    /// The owned handle.
    pub closed spec fn handle_spec(self) -> NativeHandle {
        self.handle
    }

    /// The raw handle value.
    pub open spec fn raw_spec(self) -> usize {
        self.handle_spec().raw_spec()
    }

    /// Whether the wrapper still owns a live handle.
    pub open spec fn is_live_spec(self) -> bool {
        self.handle_spec().is_live_spec()
    }

    /// The raw handle of the HRTF the effect is bound to.
    pub closed spec fn hrtf_spec(self) -> usize {
        self.hrtf
    }

    /// Creates a binaural effect bound to a live HRTF, against a live
    /// context.  Succeeds exactly when the engine's creation status is
    /// success.
    pub fn new(
        engine: &mut Engine,
        context: &Context,
        audio_settings: &AudioSettings,
        hrtf: &HRTF,
    ) -> (r: Result<BinauralEffect, SteamAudioError>)
        requires
            old(engine).wf(),
            context.is_live_spec(),
            old(engine).live(context.raw_spec()),
            hrtf.is_live_spec(),
            old(engine).live(hrtf.raw_spec()),
        ensures
            final(engine).wf(),
            final(engine).create_status_spec() == old(engine).create_status_spec(),
            r is Ok <==> old(engine).create_status_spec() == IplError::Success,
            r matches Ok(e) ==> {
                &&& e.is_live_spec()
                &&& e.hrtf_spec() == hrtf.raw_spec()
                &&& final(engine).slots_seq() =~= slots_after_create(old(engine).slots_seq())
                &&& e.raw_spec() == final(engine).slots_seq().len()
                &&& final(engine).live(e.raw_spec())
            },
            r matches Err(e) ==> e == SteamAudioError::IPLError(old(engine).create_status_spec())
                && final(engine).slots_seq() == old(engine).slots_seq(),
    {
        // Marshaled for the native creation call.
        let _ipl_audio = audio_settings.to_ipl();
        let hrtf_raw = hrtf.inner_raw();
        let (status, raw) = engine.create();
        if status == IplError::Success {
            Ok(BinauralEffect { handle: NativeHandle::from_create(status, raw), hrtf: hrtf_raw })
        } else {
            Err(SteamAudioError::IPLError(status))
        }
    }

    /// Applies the effect to the mono window `w` of `input`, writing the
    /// stereo frame held by `output`.  The channel counts — one in, two
    /// out — are the effect's fixed contract and a precondition.  The
    /// parameters are merged with the bound HRTF fresh for this call and
    /// not retained.
    pub fn apply_to_buffer(
        &self,
        params: &BinauralParams,
        input: &AudioBuffer,
        w: FrameWindow,
        output: &mut AudioBuffer,
    ) -> (r: Result<(), SteamAudioError>)
        requires
            self.is_live_spec(),
            input.wf(),
            old(output).wf(),
            w.start + w.frame_size <= input.total_samples_spec(),
            w.frame_size == old(output).frame_size_spec(),
            old(output).total_samples_spec() == old(output).frame_size_spec(),
            input.channels_spec() == 1,
            old(output).channels_spec() == 2,
        ensures
            r is Ok,
            final(output).wf(),
            final(output).channels_spec() == 2,
            final(output).frame_size_spec() == old(output).frame_size_spec(),
            forall|c: int, j: int|
                0 <= c < 2 && 0 <= j < w.frame_size ==> #[trigger] final(output).sample_spec(c, j)
                    == (if c < 1 {
                    input.sample_spec(c, w.start + j)
                } else {
                    Scalar { raw: 0 }
                }),
    {
        // The value the native apply call consumes; the DSP pass itself is the
        // engine's work and out of scope here.
        let _ipl_params = params.merge(self.hrtf);
        route_frame(input, w, output);
        Ok(())
    }

    /// Applies the effect into a freshly allocated one-frame stereo
    /// buffer.
    pub fn apply(
        &self,
        audio_settings: &AudioSettings,
        params: &BinauralParams,
        input: &AudioBuffer,
        w: FrameWindow,
    ) -> (r: Result<AudioBuffer, SteamAudioError>)
        requires
            self.is_live_spec(),
            input.wf(),
            w.start + w.frame_size <= input.total_samples_spec(),
            w.frame_size == audio_settings.frame_size_spec(),
            audio_settings.frame_size_spec() >= 1,
            input.channels_spec() == 1,
        ensures
            r is Ok,
            r matches Ok(out) ==> {
                &&& out.wf()
                &&& out.channels_spec() == 2
                &&& out.frame_size_spec() == audio_settings.frame_size_spec()
            },
    {
        let mut output = AudioBuffer::silent_frame(
            audio_settings.frame_size() as usize,
            2,
            audio_settings.sampling_rate(),
        );
        let r = self.apply_to_buffer(params, input, w, &mut output);
        match r {
            Ok(_) => Ok(output),
            Err(e) => Err(e),
        }
    }

    /// Destroys the wrapper: one release call if (and only if) the handle
    /// is live.  The bound HRTF is not touched; its owner releases it.
    pub fn release(self, engine: &mut Engine)
        requires
            old(engine).wf(),
            self.is_live_spec() ==> old(engine).live(self.raw_spec()),
        ensures
            final(engine).wf(),
            final(engine).slots_seq() == finalize_slots_spec(
                self.handle_spec(),
                old(engine).slots_seq(),
            ),
            self.is_live_spec() ==> final(engine).releases_of(self.raw_spec()) == old(
                engine,
            ).releases_of(self.raw_spec()) + 1,
            !self.is_live_spec() ==> final(engine).slots_seq() == old(engine).slots_seq(),
            final(engine).create_status_spec() == old(engine).create_status_spec(),
    {
        let mut handle = self.handle;
        handle.finalize(engine);
    }

    /// The raw handle, for handing to native calls; callable only while
    /// live.
    pub fn inner_raw(&self) -> (r: usize)
        requires
            self.is_live_spec(),
        ensures
            r == self.raw_spec(),
    {
        self.handle.raw()
    }

    /// Whether the wrapper still owns a live handle.
    pub fn is_live(&self) -> (r: bool)
        ensures
            r == self.is_live_spec(),
    {
        self.handle.is_live()
    }
}


impl crate::SteamAudioObject for BinauralEffect {
    /// Whether the wrapper still owns a live handle.
    open spec fn object_live_spec(&self) -> bool {
        self.is_live_spec()
    }

    /// The raw handle value.
    open spec fn object_raw_spec(&self) -> usize {
        self.raw_spec()
    }

    /// The raw handle, for handing to native calls.
    fn inner_raw(&self) -> (r: usize) {
        self.handle.raw()
    }
}

} // verus!
