use steam_audio::audio_buffer::AudioBuffer;
use steam_audio::interleave::{extend_deinterleaved, interleave};
use steam_audio::scalar::Scalar;

fn sc(raw: i32) -> Scalar {
    Scalar::from_raw(raw)
}

#[test]
fn frame_iterator_exact_frames() {
    // A mono buffer of 2048 samples at 44100 Hz with frame size 1024
    // yields exactly 2 frames of 1024 samples and 1 channel each.
    let mut samples: Vec<Scalar> = Vec::new();
    let mut i: i32 = 0;
    while i < 2048 {
        samples.push(sc(i));
        i += 1;
    }
    let mut buffer = AudioBuffer::from_interleaved(1024, 1, 44100, &samples);
    assert_eq!(buffer.channels(), 1);
    assert_eq!(buffer.total_samples(), 2048);
    assert_eq!(buffer.frames(), 2);

    let first = buffer.next_frame().expect("first frame");
    assert_eq!(first.start, 0);
    assert_eq!(first.frame_size, 1024);
    assert_eq!(first.channels, 1);

    let second = buffer.next_frame().expect("second frame");
    assert_eq!(second.start, 1024);
    assert_eq!(second.frame_size, 1024);
    assert_eq!(second.channels, 1);

    assert!(buffer.next_frame().is_none());
    assert!(buffer.next_frame().is_none());
}

#[test]
fn frame_iterator_reconstructs_order() {
    // Reading the yielded windows back in order reproduces each channel
    // in its original sample order.
    let ch0 = vec![sc(0), sc(1), sc(2), sc(3)];
    let ch1 = vec![sc(10), sc(11), sc(12), sc(13)];
    let mut buffer = AudioBuffer::from_channels(2, 44100, vec![ch0.clone(), ch1.clone()]);
    assert_eq!(buffer.frames(), 2);

    let mut reconstructed0: Vec<Scalar> = Vec::new();
    let mut reconstructed1: Vec<Scalar> = Vec::new();
    while let Some(w) = buffer.next_frame() {
        for j in 0..w.frame_size {
            reconstructed0.push(buffer.window_sample(w, 0, j));
            reconstructed1.push(buffer.window_sample(w, 1, j));
        }
    }
    assert_eq!(reconstructed0, ch0);
    assert_eq!(reconstructed1, ch1);
}

#[test]
fn frame_iterator_drops_remainder() {
    // 5 samples with frame size 2: two full frames, the odd sample is
    // never yielded and never read.
    let samples = vec![sc(1), sc(2), sc(3), sc(4), sc(5)];
    let mut buffer = AudioBuffer::from_interleaved(2, 1, 8000, &samples);
    assert_eq!(buffer.total_samples(), 5);
    assert_eq!(buffer.frames(), 2);
    let w0 = buffer.next_frame().expect("first frame");
    let w1 = buffer.next_frame().expect("second frame");
    assert_eq!(w0.start, 0);
    assert_eq!(w1.start, 2);
    assert_eq!(w1.start + w1.frame_size, 4);
    assert!(buffer.next_frame().is_none());
}

#[test]
fn current_frame_does_not_advance() {
    let samples = vec![sc(7), sc(8)];
    let mut buffer = AudioBuffer::from_interleaved(2, 1, 8000, &samples);
    let a = buffer.current_frame().expect("a window");
    let b = buffer.current_frame().expect("the same window");
    assert_eq!(a, b);
    let c = buffer.next_frame().expect("still the same window");
    assert_eq!(a, c);
    assert!(buffer.current_frame().is_none());
}

#[test]
fn push_interleaved_deinterleaves() {
    // 123123 over three channels lands as 11, 22, 33.
    let mut buffer = AudioBuffer::new(2, 3, 48000);
    let samples = vec![sc(1), sc(2), sc(3), sc(1), sc(2), sc(3)];
    buffer.push_interleaved(&samples);
    assert_eq!(buffer.total_samples(), 2);
    assert_eq!(buffer.sample(0, 0), sc(1));
    assert_eq!(buffer.sample(0, 1), sc(1));
    assert_eq!(buffer.sample(1, 0), sc(2));
    assert_eq!(buffer.sample(1, 1), sc(2));
    assert_eq!(buffer.sample(2, 0), sc(3));
    assert_eq!(buffer.sample(2, 1), sc(3));
}

#[test]
fn push_interleaved_drops_partial_group() {
    // With two channels, a trailing half group is dropped.
    let mut buffer = AudioBuffer::new(4, 2, 48000);
    let samples = vec![sc(1), sc(2), sc(3)];
    buffer.push_interleaved(&samples);
    assert_eq!(buffer.total_samples(), 1);
    assert_eq!(buffer.sample(0, 0), sc(1));
    assert_eq!(buffer.sample(1, 0), sc(2));
}

#[test]
fn silent_frame_is_zeroed() {
    let buffer = AudioBuffer::silent_frame(8, 2, 44100);
    assert_eq!(buffer.channels(), 2);
    assert_eq!(buffer.total_samples(), 8);
    assert_eq!(buffer.frames(), 1);
    for ch in 0..2 {
        for i in 0..8 {
            assert_eq!(buffer.sample(ch, i), sc(0));
        }
    }
}

#[test]
fn interleave_reverses_deinterleaving() {
    // 111222333 -> 123123123.
    let pcm = vec![
        vec![sc(1), sc(1), sc(1)],
        vec![sc(2), sc(2), sc(2)],
        vec![sc(3), sc(3), sc(3)],
    ];
    let flat = interleave(&pcm);
    assert_eq!(
        flat,
        vec![sc(1), sc(2), sc(3), sc(1), sc(2), sc(3), sc(1), sc(2), sc(3)]
    );

    // Deinterleaving the result restores the channels.
    let buffer = AudioBuffer::from_interleaved(3, 3, 44100, &flat);
    for ch in 0..3 {
        for i in 0..3 {
            assert_eq!(buffer.sample(ch, i), pcm[ch][i]);
        }
    }
}

#[test]
fn interleave_of_empty_is_empty() {
    let pcm: Vec<Vec<Scalar>> = Vec::new();
    assert_eq!(interleave(&pcm).len(), 0);
}

#[test]
fn extend_deinterleaved_appends_per_channel() {
    let mut pcm = vec![vec![sc(1)], vec![sc(2)]];
    let more = vec![vec![sc(3), sc(5)], vec![sc(4), sc(6)]];
    extend_deinterleaved(&mut pcm, &more);
    assert_eq!(pcm[0], vec![sc(1), sc(3), sc(5)]);
    assert_eq!(pcm[1], vec![sc(2), sc(4), sc(6)]);
}

#[test]
fn empty_buffer_has_no_frames() {
    let mut buffer = AudioBuffer::new(1024, 0, 44100);
    assert_eq!(buffer.channels(), 0);
    assert_eq!(buffer.total_samples(), 0);
    assert_eq!(buffer.frames(), 0);
    assert!(buffer.next_frame().is_none());

    let mut mono = AudioBuffer::new(1024, 1, 44100);
    assert_eq!(mono.frames(), 0);
    assert!(mono.next_frame().is_none());
}
