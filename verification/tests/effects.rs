use steam_audio::ambisonics::{
    ambisonic_order_channels, AmbisonicsDecode, AmbisonicsDecodeParams, AmbisonicsDecodeSettings,
    AmbisonicsEncode, AmbisonicsEncodeParams, SpeakerLayout,
};
use steam_audio::audio_buffer::AudioBuffer;
use steam_audio::binaural::{BinauralEffect, BinauralParams};
use steam_audio::context::{Context, ContextSettings};
use steam_audio::direct::{DirectEffect, DirectEffectParams};
use steam_audio::engine::Engine;
use steam_audio::error::IplError;
use steam_audio::hrtf::{AudioSettings, HRTFSettings, HRTF};
use steam_audio::scalar::Scalar;

fn sc(raw: i32) -> Scalar {
    Scalar::from_raw(raw)
}

fn mono_frame(frame_size: usize, sample_rate: u32) -> AudioBuffer {
    let mut samples: Vec<Scalar> = Vec::new();
    for i in 0..frame_size {
        samples.push(sc(i as i32 + 1));
    }
    AudioBuffer::from_interleaved(frame_size, 1, sample_rate, &samples)
}

#[test]
fn direct_effect_rejects_channel_mismatch() {
    // A direct effect created with two channels must refuse a one-channel
    // input frame instead of quietly upmixing it.
    let mut engine = Engine::new();
    let context = Context::new(&mut engine, &ContextSettings::default()).expect("context");
    let audio = AudioSettings::new(44100, 4);
    let effect = DirectEffect::new(&mut engine, &context, &audio, 2).expect("effect");
    assert_eq!(effect.channels(), 2);

    let mut mono = mono_frame(4, 44100);
    let w = mono.next_frame().expect("window");
    let mut output = AudioBuffer::silent_frame(4, 2, 44100);
    let params = DirectEffectParams::default();
    let result = effect.try_apply_to_buffer(&params, &mono, w, &mut output);
    assert!(result.is_err());
    // The output was not touched.
    for ch in 0..2 {
        for j in 0..4 {
            assert_eq!(output.sample(ch, j), sc(0));
        }
    }
}

#[test]
fn direct_effect_passes_matching_frames_through() {
    let mut engine = Engine::new();
    let context = Context::new(&mut engine, &ContextSettings::default()).expect("context");
    let audio = AudioSettings::new(44100, 4);
    let effect = DirectEffect::new(&mut engine, &context, &audio, 1).expect("effect");

    let mut mono = mono_frame(4, 44100);
    let w = mono.next_frame().expect("window");
    let mut output = AudioBuffer::silent_frame(4, 1, 44100);
    let params = DirectEffectParams::default();
    effect
        .try_apply_to_buffer(&params, &mono, w, &mut output)
        .expect("matching channel counts");
    for j in 0..4 {
        assert_eq!(output.sample(0, j), sc(j as i32 + 1));
    }
}

#[test]
fn binaural_effect_takes_mono_to_stereo() {
    let mut engine = Engine::new();
    let context = Context::new(&mut engine, &ContextSettings::default()).expect("context");
    let audio = AudioSettings::new(44100, 4);
    let hrtf = HRTF::new(&mut engine, &context, &audio, &HRTFSettings::default()).expect("hrtf");
    let effect = BinauralEffect::new(&mut engine, &context, &audio, &hrtf).expect("effect");

    let mut mono = mono_frame(4, 44100);
    let w = mono.next_frame().expect("window");
    let params = BinauralParams::default();
    let output = effect.apply(&audio, &params, &mono, w).expect("stereo out");
    assert_eq!(output.channels(), 2);
    assert_eq!(output.total_samples(), 4);
}

#[test]
fn ambisonics_round_trip_preserves_channel_counts() {
    // Encode at order 1, then decode at order 1 with a stereo layout: the
    // encoder emits exactly the (1 + 1)^2 = 4 channels the decoder
    // consumes, and the decode lands on the layout's 2 channels.
    let mut engine = Engine::new();
    let context = Context::new(&mut engine, &ContextSettings::default()).expect("context");
    let audio = AudioSettings::new(44100, 4);
    let hrtf = HRTF::new(&mut engine, &context, &audio, &HRTFSettings::default()).expect("hrtf");

    let order: u8 = 1;
    let encoder = AmbisonicsEncode::new(&mut engine, &context, &audio, order).expect("encoder");
    let mut mono = mono_frame(4, 44100);
    let w = mono.next_frame().expect("window");
    let encode_params = AmbisonicsEncodeParams { order, ..AmbisonicsEncodeParams::default() };
    let mut encoded = encoder.apply(&audio, &encode_params, &mono, w).expect("encoded");
    assert_eq!(encoded.channels(), ambisonic_order_channels(order));
    assert_eq!(encoded.channels(), 4);

    let decode_settings = AmbisonicsDecodeSettings {
        speaker_layout: SpeakerLayout::Stereo,
        max_order: order,
    };
    let decoder = AmbisonicsDecode::new(&mut engine, &context, &audio, &hrtf, &decode_settings)
        .expect("decoder");
    let ew = encoded.next_frame().expect("encoded window");
    // The encoder's output channel count is exactly what the decoder at
    // the same order expects.
    assert_eq!(ew.channels, ambisonic_order_channels(order));
    let decode_params = AmbisonicsDecodeParams { order, binaural: false, ..AmbisonicsDecodeParams::default() };
    let decoded = decoder.apply(&audio, &decode_params, &encoded, ew).expect("decoded");
    assert_eq!(decoded.channels(), 2);

    let binaural_params = AmbisonicsDecodeParams { order, binaural: true, ..AmbisonicsDecodeParams::default() };
    let decoded_binaural = decoder
        .apply(&audio, &binaural_params, &encoded, ew)
        .expect("decoded binaurally");
    assert_eq!(decoded_binaural.channels(), 2);
}

#[test]
fn effect_creation_failure_carries_status() {
    let mut engine = Engine::new();
    let context = Context::new(&mut engine, &ContextSettings::default()).expect("context");
    let audio = AudioSettings::default();
    engine.set_create_status(IplError::Initialization);
    let result = DirectEffect::new(&mut engine, &context, &audio, 2);
    assert_eq!(result.expect_err("fails").status(), IplError::Initialization);
    let handles_before = engine.handle_count();
    assert_eq!(handles_before, 1);
}
