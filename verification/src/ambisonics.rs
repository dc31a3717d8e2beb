//! Ambisonics encode and decode.
//!
//! A scene-based surround encoding: channel count grows with the order
//! `n` as `(n + 1)^2`.  The encoder takes one mono frame to an
//! ambisonics frame of that channel count; the decoder takes an
//! ambisonics frame of the same count to a speaker layout (or to stereo,
//! when decoding binaurally).  Both sides size their frames with
//! [`ambisonic_order_channels`], which is what makes an encode of order
//! `n` feed a decode of order `n` exactly.

use vstd::prelude::*;

use crate::audio_buffer::{route_frame, AudioBuffer, FrameWindow};
use crate::context::Context;
use crate::engine::{slots_after_create, Engine};
use crate::error::{IplError, SteamAudioError};
use crate::ffi::{
    IplAmbisonicsDecodeEffectParams, IplAmbisonicsDecodeEffectSettings,
    IplAmbisonicsEncodeEffectParams, IplSpeakerLayout, IplVector3, SPEAKER_LAYOUT_TYPE_MONO,
    SPEAKER_LAYOUT_TYPE_QUADRAPHONIC, SPEAKER_LAYOUT_TYPE_STEREO, SPEAKER_LAYOUT_TYPE_SURROUND_5_1,
    SPEAKER_LAYOUT_TYPE_SURROUND_7_1,
};
use crate::ffi::bool_to_ipl;
use crate::handle::{finalize_slots_spec, NativeHandle};
use crate::hrtf::{AudioSettings, HRTF};
use crate::orientation::Orientation;
use crate::scalar::Scalar;
use crate::vector::Vector3;

verus! {

/// How many channels an ambisonics stream of the given order carries:
/// `(order + 1)^2`.
pub open spec fn ambisonic_order_channels_spec(order: u8) -> int {
    (order + 1) * (order + 1)
}

/// How many channels an ambisonics stream of the given order carries.
///
/// Order 0 gives 1 channel, order 1 gives 4, order 2 gives 9, and so on.
pub fn ambisonic_order_channels(order: u8) -> (r: usize)
    ensures
        r == ambisonic_order_channels_spec(order),
        1 <= r <= 65536,
{
    let n = order as usize + 1;
    proof {
        assert(1 <= n * n <= 65536) by (nonlinear_arith)
            requires
                1 <= n <= 256,
        ;
    }
    n * n
}

/// The speaker arrangement a decoder renders for.
#[derive(Debug, Clone, PartialEq, Eq)]
pub enum SpeakerLayout {
    /// One speaker.
    Mono,
    /// Two speakers.
    Stereo,
    /// Four speakers.
    Quadraphonic,
    /// Six speakers (5.1).
    Surround5_1,
    /// Eight speakers (7.1).
    Surround7_1,
    /// Caller-supplied speaker directions.
    Custom {
        /// How many speakers.
        num_speakers: u32,
        /// The direction of each speaker.
        speakers: Vec<Vector3>,
    },
}

impl SpeakerLayout {
    /// Whether this is a caller-supplied layout.  Custom layouts are not
    /// carried to the engine by this layer.
    pub open spec fn is_custom_spec(self) -> bool {
        self matches SpeakerLayout::Custom { .. }
    }

    /// How many output channels the layout takes.
    pub open spec fn channels_spec(self) -> int {
        match self {
            SpeakerLayout::Mono => 1,
            SpeakerLayout::Stereo => 2,
            SpeakerLayout::Quadraphonic => 4,
            SpeakerLayout::Surround5_1 => 6,
            SpeakerLayout::Surround7_1 => 8,
            SpeakerLayout::Custom { num_speakers, .. } => num_speakers as int,
        }
    }

    /// How many output channels the layout takes.
    pub fn channels(&self) -> (r: usize)
        requires
            self.channels_spec() <= usize::MAX,
        ensures
            r == self.channels_spec(),
    {
        match self {
            SpeakerLayout::Mono => 1,
            SpeakerLayout::Stereo => 2,
            SpeakerLayout::Quadraphonic => 4,
            SpeakerLayout::Surround5_1 => 6,
            SpeakerLayout::Surround7_1 => 8,
            SpeakerLayout::Custom { num_speakers, .. } => *num_speakers as usize,
        }
    }

    /// The ABI kind code of a built-in layout.
    pub open spec fn code_spec(self) -> i32 {
        match self {
            SpeakerLayout::Mono => SPEAKER_LAYOUT_TYPE_MONO,
            SpeakerLayout::Stereo => SPEAKER_LAYOUT_TYPE_STEREO,
            SpeakerLayout::Quadraphonic => SPEAKER_LAYOUT_TYPE_QUADRAPHONIC,
            SpeakerLayout::Surround5_1 => SPEAKER_LAYOUT_TYPE_SURROUND_5_1,
            SpeakerLayout::Surround7_1 => SPEAKER_LAYOUT_TYPE_SURROUND_7_1,
            SpeakerLayout::Custom { .. } => SPEAKER_LAYOUT_TYPE_MONO,
        }
    }

    /// Marshals a built-in layout into the ABI value struct.
    pub fn to_ipl(&self) -> (r: IplSpeakerLayout)
        requires
            !self.is_custom_spec(),
        ensures
            r.type_ == self.code_spec(),
            r.num_speakers == 0,
            r.speakers == 0,
    {
        let kind: i32 = match self {
            SpeakerLayout::Mono => SPEAKER_LAYOUT_TYPE_MONO,
            SpeakerLayout::Stereo => SPEAKER_LAYOUT_TYPE_STEREO,
            SpeakerLayout::Quadraphonic => SPEAKER_LAYOUT_TYPE_QUADRAPHONIC,
            SpeakerLayout::Surround5_1 => SPEAKER_LAYOUT_TYPE_SURROUND_5_1,
            SpeakerLayout::Surround7_1 => SPEAKER_LAYOUT_TYPE_SURROUND_7_1,
            SpeakerLayout::Custom { .. } => SPEAKER_LAYOUT_TYPE_MONO,
        };
        IplSpeakerLayout { type_: kind, num_speakers: 0, speakers: 0 }
    }
}

/// Creation settings of a decoder: the layout rendered for and the
/// highest order that will be decoded.
#[derive(Debug, Clone, PartialEq, Eq)]
pub struct AmbisonicsDecodeSettings {
    /// The speaker layout rendered for.
    pub speaker_layout: SpeakerLayout,
    /// The highest ambisonics order that will be decoded.
    pub max_order: u8,
}

impl Default for AmbisonicsDecodeSettings {
    /// Stereo output, up to second order.
    fn default() -> (r: AmbisonicsDecodeSettings)
        ensures
            r.speaker_layout == SpeakerLayout::Stereo,
            r.max_order == 2,
    {
        AmbisonicsDecodeSettings { speaker_layout: SpeakerLayout::Stereo, max_order: 2 }
    }
}

impl AmbisonicsDecodeSettings {
    /// Merges the settings with the given HRTF handle into the ABI value
    /// struct the creation call consumes.
    pub fn merge(&self, hrtf: usize) -> (r: IplAmbisonicsDecodeEffectSettings)
        requires
            !self.speaker_layout.is_custom_spec(),
        ensures
            r.hrtf == hrtf,
            r.speaker_layout.type_ == self.speaker_layout.code_spec(),
            r.max_order == self.max_order as i32,
    {
        IplAmbisonicsDecodeEffectSettings {
            hrtf,
            speaker_layout: self.speaker_layout.to_ipl(),
            max_order: self.max_order as i32,
        }
    }
}

/// Per-frame decode parameters: the order of the input, the listener
/// orientation, and whether to decode binaurally.
#[derive(Debug, Clone, Copy, PartialEq, Eq, Structural)]
pub struct AmbisonicsDecodeParams {
    /// Ambisonics order of the input frame.
    pub order: u8,
    /// The listener's orientation.
    pub orientation: Orientation,
    /// Whether to decode binaurally (stereo out) instead of panning to
    /// the layout.
    pub binaural: bool,
}

impl Default for AmbisonicsDecodeParams {
    /// First order, identity listener, binaural decode.
    fn default() -> (r: AmbisonicsDecodeParams)
        ensures
            r.order == 1,
            r.orientation == Orientation::default_spec(),
            r.binaural,
    {
        AmbisonicsDecodeParams { order: 1, orientation: Orientation::default(), binaural: true }
    }
}

impl AmbisonicsDecodeParams {
    /// Merges the parameters with the given HRTF handle into the ABI
    /// value struct the apply call consumes.
    pub fn merge(&self, hrtf: usize) -> (r: IplAmbisonicsDecodeEffectParams)
        ensures
            r.order == self.order as i32,
            r.orientation == self.orientation.to_ipl_spec(),
            r.binaural == (if self.binaural {
                1int
            } else {
                0int
            }),
            r.hrtf == hrtf,
    {
        IplAmbisonicsDecodeEffectParams {
            order: self.order as i32,
            orientation: self.orientation.to_ipl(),
            binaural: bool_to_ipl(self.binaural),
            hrtf,
        }
    }
}

/// The ambisonics decoder: takes an ambisonics frame of the parameter
/// order's channel count to the speaker layout fixed at creation, or to
/// stereo when decoding binaurally.
#[derive(Debug)]
pub struct AmbisonicsDecode {
    handle: NativeHandle,
    hrtf: usize,
    layout_channels: usize,
    max_order: u8,
}

impl AmbisonicsDecode {
    /// The owned handle.
    pub closed spec fn handle_spec(self) -> NativeHandle {
        self.handle
    }

    /// The raw handle value.
    pub open spec fn raw_spec(self) -> usize {
        self.handle_spec().raw_spec()
    }

    /// Whether the wrapper still owns a live handle.
    pub open spec fn is_live_spec(self) -> bool {
        self.handle_spec().is_live_spec()
    }

    /// The raw handle of the HRTF the decoder is bound to.
    pub closed spec fn hrtf_spec(self) -> usize {
        self.hrtf
    }

    /// The channel count of the layout fixed at creation.
    pub closed spec fn layout_channels_spec(self) -> int {
        self.layout_channels as int
    }

    /// The highest order the decoder accepts.
    pub closed spec fn max_order_spec(self) -> u8 {
        self.max_order
    }

    /// The channel count a decode at the given order consumes.
    pub open spec fn input_channels_spec(order: u8) -> int {
        ambisonic_order_channels_spec(order)
    }

    /// Creates a decoder for a built-in layout, bound to a live HRTF,
    /// against a live context.  Succeeds exactly when the engine's
    /// creation status is success.
    pub fn new(
        engine: &mut Engine,
        context: &Context,
        audio_settings: &AudioSettings,
        hrtf: &HRTF,
        decode_settings: &AmbisonicsDecodeSettings,
    ) -> (r: Result<AmbisonicsDecode, SteamAudioError>)
        requires
            old(engine).wf(),
            context.is_live_spec(),
            old(engine).live(context.raw_spec()),
            hrtf.is_live_spec(),
            old(engine).live(hrtf.raw_spec()),
            !decode_settings.speaker_layout.is_custom_spec(),
        ensures
            final(engine).wf(),
            final(engine).create_status_spec() == old(engine).create_status_spec(),
            r is Ok <==> old(engine).create_status_spec() == IplError::Success,
            r matches Ok(e) ==> {
                &&& e.is_live_spec()
                &&& e.hrtf_spec() == hrtf.raw_spec()
                &&& e.layout_channels_spec() == decode_settings.speaker_layout.channels_spec()
                &&& e.layout_channels_spec() >= 1
                &&& e.max_order_spec() == decode_settings.max_order
                &&& final(engine).slots_seq() =~= slots_after_create(old(engine).slots_seq())
                &&& e.raw_spec() == final(engine).slots_seq().len()
                &&& final(engine).live(e.raw_spec())
            },
            r matches Err(e) ==> e == SteamAudioError::IPLError(old(engine).create_status_spec())
                && final(engine).slots_seq() == old(engine).slots_seq(),
    {
        let hrtf_raw = hrtf.inner_raw();
        // Marshaled for the native creation call.
        let _ipl_settings = decode_settings.merge(hrtf_raw);
        // Marshaled for the native creation call.
        let _ipl_audio = audio_settings.to_ipl();
        proof {
            assert(decode_settings.speaker_layout.channels_spec() >= 1);
        }
        let layout_channels = decode_settings.speaker_layout.channels();
        let (status, raw) = engine.create();
        if status == IplError::Success {
            Ok(
                AmbisonicsDecode {
                    handle: NativeHandle::from_create(status, raw),
                    hrtf: hrtf_raw,
                    layout_channels,
                    max_order: decode_settings.max_order,
                },
            )
        } else {
            Err(SteamAudioError::IPLError(status))
        }
    }

    /// Applies the decoder to the window `w` of `input`, writing the
    /// frame held by `output`.  The input must carry exactly the channel
    /// count of the parameter order, which must not exceed the decoder's
    /// maximum; the output carries two channels when decoding binaurally
    /// and the layout's channel count otherwise.
    pub fn apply_to_buffer(
        &self,
        params: &AmbisonicsDecodeParams,
        input: &AudioBuffer,
        w: FrameWindow,
        output: &mut AudioBuffer,
    ) -> (r: Result<(), SteamAudioError>)
        requires
            self.is_live_spec(),
            input.wf(),
            old(output).wf(),
            w.start + w.frame_size <= input.total_samples_spec(),
            w.frame_size == old(output).frame_size_spec(),
            old(output).total_samples_spec() == old(output).frame_size_spec(),
            params.order <= self.max_order_spec(),
            input.channels_spec() == AmbisonicsDecode::input_channels_spec(params.order),
            old(output).channels_spec() == (if params.binaural {
                2int
            } else {
                self.layout_channels_spec()
            }),
        ensures
            r is Ok,
            final(output).wf(),
            final(output).channels_spec() == old(output).channels_spec(),
            final(output).frame_size_spec() == old(output).frame_size_spec(),
            forall|c: int, j: int|
                0 <= c < old(output).channels_spec() && 0 <= j < w.frame_size
                    ==> #[trigger] final(output).sample_spec(c, j) == (if c
                    < input.channels_spec() {
                    input.sample_spec(c, w.start + j)
                } else {
                    Scalar { raw: 0 }
                }),
    {
        // The value the native apply call consumes; the DSP pass itself is the
        // engine's work and out of scope here.
        let _ipl_params = params.merge(self.hrtf);
        route_frame(input, w, output);
        Ok(())
    }

    /// Applies the decoder into a freshly allocated one-frame buffer of
    /// the right output channel count.
    pub fn apply(
        &self,
        audio_settings: &AudioSettings,
        params: &AmbisonicsDecodeParams,
        input: &AudioBuffer,
        w: FrameWindow,
    ) -> (r: Result<AudioBuffer, SteamAudioError>)
        requires
            self.is_live_spec(),
            input.wf(),
            w.start + w.frame_size <= input.total_samples_spec(),
            w.frame_size == audio_settings.frame_size_spec(),
            audio_settings.frame_size_spec() >= 1,
            params.order <= self.max_order_spec(),
            self.layout_channels_spec() >= 1,
            input.channels_spec() == AmbisonicsDecode::input_channels_spec(params.order),
        ensures
            r is Ok,
            r matches Ok(out) ==> {
                &&& out.wf()
                &&& out.channels_spec() == (if params.binaural {
                    2int
                } else {
                    self.layout_channels_spec()
                })
                &&& out.frame_size_spec() == audio_settings.frame_size_spec()
            },
    {
        let channels: usize = if params.binaural {
            2
        } else {
            self.layout_channels
        };
        let mut output = AudioBuffer::silent_frame(
            audio_settings.frame_size() as usize,
            channels,
            audio_settings.sampling_rate(),
        );
        let r = self.apply_to_buffer(params, input, w, &mut output);
        match r {
            Ok(_) => Ok(output),
            Err(e) => Err(e),
        }
    }

    /// Destroys the wrapper: one release call if (and only if) the handle
    /// is live.  The bound HRTF is not touched; its owner releases it.
    pub fn release(self, engine: &mut Engine)
        requires
            old(engine).wf(),
            self.is_live_spec() ==> old(engine).live(self.raw_spec()),
        ensures
            final(engine).wf(),
            final(engine).slots_seq() == finalize_slots_spec(
                self.handle_spec(),
                old(engine).slots_seq(),
            ),
            self.is_live_spec() ==> final(engine).releases_of(self.raw_spec()) == old(
                engine,
            ).releases_of(self.raw_spec()) + 1,
            !self.is_live_spec() ==> final(engine).slots_seq() == old(engine).slots_seq(),
            final(engine).create_status_spec() == old(engine).create_status_spec(),
    {
        let mut handle = self.handle;
        handle.finalize(engine);
    }

    /// The raw handle, for handing to native calls; callable only while
    /// live.
    pub fn inner_raw(&self) -> (r: usize)
        requires
            self.is_live_spec(),
        ensures
            r == self.raw_spec(),
    {
        self.handle.raw()
    }

    /// Whether the wrapper still owns a live handle.
    pub fn is_live(&self) -> (r: bool)
        ensures
            r == self.is_live_spec(),
    {
        self.handle.is_live()
    }
}

/// Per-frame encode parameters: the direction to encode and the order to
/// encode at.
#[derive(Debug, Clone, Copy, PartialEq, Eq, Structural)]
pub struct AmbisonicsEncodeParams {
    /// Direction to encode.
    pub direction: Vector3,
    /// Ambisonics order to encode at.
    pub order: u8,
}

impl Default for AmbisonicsEncodeParams {
    /// The zero direction, first order.
    fn default() -> (r: AmbisonicsEncodeParams)
        ensures
            r.direction == (Vector3 {
                x: Scalar { raw: 0 },
                y: Scalar { raw: 0 },
                z: Scalar { raw: 0 },
            }),
            r.order == 1,
    {
        AmbisonicsEncodeParams { direction: Vector3::zero(), order: 1 }
    }
}

impl AmbisonicsEncodeParams {
    /// Marshals the parameters into the ABI value struct.
    pub fn to_ipl(&self) -> (r: IplAmbisonicsEncodeEffectParams)
        ensures
            r.direction == (IplVector3 {
                x: self.direction.x,
                y: self.direction.y,
                z: self.direction.z,
            }),
            r.order == self.order as i32,
    {
        IplAmbisonicsEncodeEffectParams {
            direction: self.direction.to_ipl(),
            order: self.order as i32,
        }
    }
}

/// The ambisonics encoder: takes one mono frame to an ambisonics frame
/// of the parameter order's channel count.
#[derive(Debug)]
pub struct AmbisonicsEncode {
    handle: NativeHandle,
    max_order: u8,
}

impl AmbisonicsEncode {
    /// The owned handle.
    pub closed spec fn handle_spec(self) -> NativeHandle {
        self.handle
    }

    /// The raw handle value.
    pub open spec fn raw_spec(self) -> usize {
        self.handle_spec().raw_spec()
    }

    /// Whether the wrapper still owns a live handle.
    pub open spec fn is_live_spec(self) -> bool {
        self.handle_spec().is_live_spec()
    }

    /// The highest order the encoder accepts.
    pub closed spec fn max_order_spec(self) -> u8 {
        self.max_order
    }

    /// The channel count an encode at the given order produces.
    pub open spec fn output_channels_spec(order: u8) -> int {
        ambisonic_order_channels_spec(order)
    }

    /// Creates an encoder against a live context.  Succeeds exactly when
    /// the engine's creation status is success.
    pub fn new(
        engine: &mut Engine,
        context: &Context,
        audio_settings: &AudioSettings,
        max_order: u8,
    ) -> (r: Result<AmbisonicsEncode, SteamAudioError>)
        requires
            old(engine).wf(),
            context.is_live_spec(),
            old(engine).live(context.raw_spec()),
        ensures
            final(engine).wf(),
            final(engine).create_status_spec() == old(engine).create_status_spec(),
            r is Ok <==> old(engine).create_status_spec() == IplError::Success,
            r matches Ok(e) ==> {
                &&& e.is_live_spec()
                &&& e.max_order_spec() == max_order
                &&& final(engine).slots_seq() =~= slots_after_create(old(engine).slots_seq())
                &&& e.raw_spec() == final(engine).slots_seq().len()
                &&& final(engine).live(e.raw_spec())
            },
            r matches Err(e) ==> e == SteamAudioError::IPLError(old(engine).create_status_spec())
                && final(engine).slots_seq() == old(engine).slots_seq(),
    {
        // Marshaled for the native creation call.
        let _ipl_audio = audio_settings.to_ipl();
        let (status, raw) = engine.create();
        if status == IplError::Success {
            Ok(AmbisonicsEncode { handle: NativeHandle::from_create(status, raw), max_order })
        } else {
            Err(SteamAudioError::IPLError(status))
        }
    }

    /// Applies the encoder to the mono window `w` of `input`, writing the
    /// frame held by `output`, which must carry exactly the channel count
    /// of the parameter order.
    pub fn apply_to_buffer(
        &self,
        params: &AmbisonicsEncodeParams,
        input: &AudioBuffer,
        w: FrameWindow,
        output: &mut AudioBuffer,
    ) -> (r: Result<(), SteamAudioError>)
        requires
            self.is_live_spec(),
            input.wf(),
            old(output).wf(),
            w.start + w.frame_size <= input.total_samples_spec(),
            w.frame_size == old(output).frame_size_spec(),
            old(output).total_samples_spec() == old(output).frame_size_spec(),
            params.order <= self.max_order_spec(),
            input.channels_spec() == 1,
            old(output).channels_spec() == AmbisonicsEncode::output_channels_spec(params.order),
        ensures
            r is Ok,
            final(output).wf(),
            final(output).channels_spec() == AmbisonicsEncode::output_channels_spec(params.order),
            final(output).frame_size_spec() == old(output).frame_size_spec(),
            forall|c: int, j: int|
                0 <= c < old(output).channels_spec() && 0 <= j < w.frame_size
                    ==> #[trigger] final(output).sample_spec(c, j) == (if c < 1 {
                    input.sample_spec(c, w.start + j)
                } else {
                    Scalar { raw: 0 }
                }),
    {
        // The value the native apply call consumes; the DSP pass itself is the
        // engine's work and out of scope here.
        let _ipl_params = params.to_ipl();
        route_frame(input, w, output);
        Ok(())
    }

    /// Applies the encoder into a freshly allocated one-frame buffer of
    /// the parameter order's channel count.
    pub fn apply(
        &self,
        audio_settings: &AudioSettings,
        params: &AmbisonicsEncodeParams,
        input: &AudioBuffer,
        w: FrameWindow,
    ) -> (r: Result<AudioBuffer, SteamAudioError>)
        requires
            self.is_live_spec(),
            input.wf(),
            w.start + w.frame_size <= input.total_samples_spec(),
            w.frame_size == audio_settings.frame_size_spec(),
            audio_settings.frame_size_spec() >= 1,
            params.order <= self.max_order_spec(),
            input.channels_spec() == 1,
        ensures
            r is Ok,
            r matches Ok(out) ==> {
                &&& out.wf()
                &&& out.channels_spec() == AmbisonicsEncode::output_channels_spec(params.order)
                &&& out.frame_size_spec() == audio_settings.frame_size_spec()
            },
    {
        let channels = ambisonic_order_channels(params.order);
        let mut output = AudioBuffer::silent_frame(
            audio_settings.frame_size() as usize,
            channels,
            audio_settings.sampling_rate(),
        );
        let r = self.apply_to_buffer(params, input, w, &mut output);
        match r {
            Ok(_) => Ok(output),
            Err(e) => Err(e),
        }
    }

    /// Destroys the wrapper: one release call if (and only if) the handle
    /// is live.
    pub fn release(self, engine: &mut Engine)
        requires
            old(engine).wf(),
            self.is_live_spec() ==> old(engine).live(self.raw_spec()),
        ensures
            final(engine).wf(),
            final(engine).slots_seq() == finalize_slots_spec(
                self.handle_spec(),
                old(engine).slots_seq(),
            ),
            self.is_live_spec() ==> final(engine).releases_of(self.raw_spec()) == old(
                engine,
            ).releases_of(self.raw_spec()) + 1,
            !self.is_live_spec() ==> final(engine).slots_seq() == old(engine).slots_seq(),
            final(engine).create_status_spec() == old(engine).create_status_spec(),
    {
        let mut handle = self.handle;
        handle.finalize(engine);
    }

    /// The raw handle, for handing to native calls; callable only while
    /// live.
    pub fn inner_raw(&self) -> (r: usize)
        requires
            self.is_live_spec(),
        ensures
            r == self.raw_spec(),
    {
        self.handle.raw()
    }

    /// Whether the wrapper still owns a live handle.
    pub fn is_live(&self) -> (r: bool)
        ensures
            r == self.is_live_spec(),
    {
        self.handle.is_live()
    }
}

/// A handle to the engine's ambisonics binaural effect; a reserved
/// object kind with no operations in this layer.
#[derive(Debug)]
pub struct AmbisonicsBinaural(pub usize);

/// A handle to the engine's ambisonics panning effect; a reserved object
/// kind with no operations in this layer.
#[derive(Debug)]
pub struct AmbisonicsPanning(pub usize);

/// A handle to the engine's ambisonics rotation effect; a reserved
/// object kind with no operations in this layer.
#[derive(Debug)]
pub struct AmbisonicsRotation(pub usize);

/// The ambisonics round trip preserves the channel-count invariant: an
/// encode at order `n` produces exactly the channel count a decode at
/// order `n` consumes, namely `(n + 1)^2`.
pub proof fn lemma_ambisonics_round_trip_channels(n: u8)
    ensures
        AmbisonicsEncode::output_channels_spec(n) == AmbisonicsDecode::input_channels_spec(n),
        AmbisonicsEncode::output_channels_spec(n) == (n + 1) * (n + 1),
{
}


impl crate::SteamAudioObject for AmbisonicsEncode {
    /// Whether the wrapper still owns a live handle.
    open spec fn object_live_spec(&self) -> bool {
        self.is_live_spec()
    }

    /// The raw handle value.
    open spec fn object_raw_spec(&self) -> usize {
        self.raw_spec()
    }

    /// The raw handle, for handing to native calls.
    fn inner_raw(&self) -> (r: usize) {
        self.handle.raw()
    }
}

impl crate::SteamAudioObject for AmbisonicsDecode {
    /// Whether the wrapper still owns a live handle.
    open spec fn object_live_spec(&self) -> bool {
        self.is_live_spec()
    }

    /// The raw handle value.
    open spec fn object_raw_spec(&self) -> usize {
        self.raw_spec()
    }

    /// The raw handle, for handing to native calls.
    fn inner_raw(&self) -> (r: usize) {
        self.handle.raw()
    }
}

} // verus!
