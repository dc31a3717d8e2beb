//! Deinterleaved (channel-major) audio storage and frame windowing.
//!
//! An [`AudioBuffer`] holds one sample column per channel, all of equal
//! length, and carries a frame size and a cursor.  The cursor drives a lazy,
//! sequential frame iterator: each step yields a [`FrameWindow`] — a pure
//! index window, no sample is copied or moved — advanced by exactly one
//! frame size per step.  When the sample count is not a multiple of the
//! frame size, the iterator yields `total_samples / frame_size` full frames
//! and silently drops the remainder; it never reads past the end.

use vstd::prelude::*;
use vstd::arithmetic::div_mod::{
    lemma_div_is_ordered, lemma_div_multiples_vanish, lemma_div_nonincreasing, lemma_div_pos_is_pos,
    lemma_fundamental_div_mod, lemma_mod_division_less_than_divisor, lemma_remainder_lower,
};
use vstd::arithmetic::mul::lemma_mul_inequality;
use vstd::arithmetic::div_mod::lemma_multiply_divide_lt;

use crate::scalar::Scalar;

verus! {

/// A non-owning window over one frame of an [`AudioBuffer`]: a start offset
/// plus the channel and sample counts of the frame.  It stays meaningful
/// only as long as the buffer it was taken from is unchanged.
#[derive(Debug, Clone, Copy, PartialEq, Eq, Structural)]
pub struct FrameWindow {
    /// Offset of the first sample of the frame in every channel column.
    pub start: usize,
    /// Number of samples of the frame, per channel.
    pub frame_size: usize,
    /// Number of channels the window exposes (those of its buffer).
    pub channels: usize,
}

/// Channel-major sample storage plus the frame-windowing cursor.
pub struct AudioBuffer {
    data: Vec<Vec<Scalar>>,
    sample_rate: u32,
    frame_size: usize,
    cursor: usize,
}

impl AudioBuffer {
    /// The per-channel sample columns.
    pub closed spec fn channels_seq(self) -> Seq<Seq<Scalar>> {
        self.data@.map_values(|v: Vec<Scalar>| v@)
    }

    /// Number of channels.
    pub open spec fn channels_spec(self) -> int {
        self.channels_seq().len() as int
    }

    /// Samples per channel.
    pub open spec fn total_samples_spec(self) -> int {
        if self.channels_spec() == 0 {
            0
        } else {
            self.channels_seq()[0].len() as int
        }
    }

    /// The configured frame size.
    pub closed spec fn frame_size_spec(self) -> int {
        self.frame_size as int
    }

    /// The configured sample rate.
    pub closed spec fn sample_rate_spec(self) -> u32 {
        self.sample_rate
    }

    /// Index of the next frame the iterator will yield.
    pub closed spec fn cursor_spec(self) -> int {
        self.cursor as int
    }

    /// Well-formedness: a positive frame size and equally long channel
    /// columns.  Constructors establish this and every method preserves it.
    pub open spec fn wf(self) -> bool {
        &&& self.frame_size_spec() >= 1
        &&& self.channels_spec() <= usize::MAX
        &&& self.total_samples_spec() <= usize::MAX
        &&& forall|ch: int|
            0 <= ch < self.channels_spec() ==> (#[trigger] self.channels_seq()[ch]).len()
                == self.total_samples_spec()
        &&& 0 <= self.cursor_spec() <= self.frames_spec()
    }

    /// How many full frames the buffer holds; a trailing remainder is not
    /// counted.
    pub open spec fn frames_spec(self) -> int {
        self.total_samples_spec() / self.frame_size_spec()
    }

    /// The sample at channel `ch`, position `i`.
    pub open spec fn sample_spec(self, ch: int, i: int) -> Scalar {
        self.channels_seq()[ch][i]
    }

    /// The window of frame `i`.
    pub open spec fn window_spec(self, i: int) -> FrameWindow {
        FrameWindow {
            start: (i * self.frame_size_spec()) as usize,
            frame_size: (self.frame_size_spec()) as usize,
            channels: self.channels_spec() as usize,
        }
    }

    /// An empty buffer: `channels` columns of no samples yet.
    pub fn new(frame_size: usize, channels: usize, sample_rate: u32) -> (r: AudioBuffer)
        requires
            frame_size >= 1,
        ensures
            r.wf(),
            r.channels_spec() == channels,
            r.total_samples_spec() == 0,
            r.frame_size_spec() == frame_size,
            r.sample_rate_spec() == sample_rate,
            r.cursor_spec() == 0,
            forall|ch: int| 0 <= ch < channels ==> (#[trigger] r.channels_seq()[ch]) =~= Seq::<
                Scalar,
            >::empty(),
    {
        let mut data: Vec<Vec<Scalar>> = Vec::new();
        let mut ch: usize = 0;
        while ch < channels
            invariant
                ch <= channels,
                data@.len() == ch,
                forall|k: int| 0 <= k < ch ==> (#[trigger] data@[k])@.len() == 0,
            decreases channels - ch,
        {
            data.push(Vec::new());
            ch += 1;
        }
        let r = AudioBuffer { data, sample_rate, frame_size, cursor: 0 };
        proof {
            assert(r.channels_seq().len() == channels);
            assert forall|k: int| 0 <= k < channels implies (#[trigger] r.channels_seq()[k]).len()
                == 0 by {
                assert(r.channels_seq()[k] == r.data@[k]@);
            }
            assert(r.total_samples_spec() == 0);
            assert(r.frames_spec() == 0) by {
                lemma_div_multiples_vanish(0, frame_size as int);
            }
        }
        r
    }

    /// One frame of silence per channel — the shape effect outputs are
    /// allocated with.
    pub fn silent_frame(frame_size: usize, channels: usize, sample_rate: u32) -> (r: AudioBuffer)
        requires
            frame_size >= 1,
        ensures
            r.wf(),
            r.channels_spec() == channels,
            r.total_samples_spec() == (if channels == 0 {
                0int
            } else {
                frame_size as int
            }),
            r.frame_size_spec() == frame_size,
            r.sample_rate_spec() == sample_rate,
            r.cursor_spec() == 0,
            forall|ch: int, i: int|
                0 <= ch < channels && 0 <= i < frame_size ==> #[trigger] r.sample_spec(ch, i)
                    == (Scalar { raw: 0 }),
    {
        let mut data: Vec<Vec<Scalar>> = Vec::new();
        let mut ch: usize = 0;
        while ch < channels
            invariant
                ch <= channels,
                data@.len() == ch,
                forall|k: int| 0 <= k < ch ==> (#[trigger] data@[k])@.len() == frame_size,
                forall|k: int, i: int|
                    0 <= k < ch && 0 <= i < frame_size ==> (#[trigger] data@[k]@[i]) == (Scalar {
                        raw: 0 }),
            decreases channels - ch,
        {
            let mut column: Vec<Scalar> = Vec::new();
            let mut i: usize = 0;
            while i < frame_size
                invariant
                    i <= frame_size,
                    column@.len() == i,
                    forall|j: int| 0 <= j < i ==> (#[trigger] column@[j]) == (Scalar { raw: 0 }),
                decreases frame_size - i,
            {
                column.push(Scalar::zero());
                i += 1;
            }
            data.push(column);
            ch += 1;
        }
        let r = AudioBuffer { data, sample_rate, frame_size, cursor: 0 };
        proof {
            assert forall|k: int| 0 <= k < channels implies (#[trigger] r.channels_seq()[k]).len()
                == frame_size by {
                assert(r.channels_seq()[k] == r.data@[k]@);
            }
            if channels > 0 {
                assert(r.total_samples_spec() == frame_size);
            }
        }
        r
    }

    /// Wraps already deinterleaved channel columns.  Columns of unequal
    /// length can only arise from a bug in the caller, so they are ruled out
    /// rather than reported.
    pub fn from_channels(frame_size: usize, sample_rate: u32, data: Vec<Vec<Scalar>>) -> (r:
        AudioBuffer)
        requires
            frame_size >= 1,
            forall|ch: int| 0 <= ch < data@.len() ==> (#[trigger] data@[ch])@.len() == data@[0]@.len(),
        ensures
            r.wf(),
            r.channels_spec() == data@.len(),
            r.frame_size_spec() == frame_size,
            r.sample_rate_spec() == sample_rate,
            r.cursor_spec() == 0,
            forall|ch: int|
                0 <= ch < data@.len() ==> #[trigger] r.channels_seq()[ch] == data@[ch]@,
    {
        let r = AudioBuffer { data, sample_rate, frame_size, cursor: 0 };
        proof {
            assert(r.data@.len() == r.data.len());
            if r.data@.len() > 0 {
                assert(r.data@[0]@.len() == r.data@[0].len());
                assert(r.channels_seq()[0] == r.data@[0]@);
            }
            assert forall|ch: int| 0 <= ch < r.channels_spec() implies (#[trigger] r.channels_seq()[ch]).len()
                == r.total_samples_spec() by {
                assert(r.channels_seq()[ch] == r.data@[ch]@);
                assert(r.channels_seq()[0] == r.data@[0]@);
            }
        }
        r
    }

    /// Appends interleaved samples, deinterleaving them: sample `j * c + ch`
    /// of `samples` (for `c` channels) lands at the end of channel `ch`.
    /// Only whole cross-channel sample groups are taken; a trailing partial
    /// group is dropped.
    pub fn push_interleaved(&mut self, samples: &Vec<Scalar>)
        requires
            old(self).wf(),
            old(self).channels_spec() >= 1,
        ensures
            final(self).wf(),
            final(self).channels_spec() == old(self).channels_spec(),
            final(self).frame_size_spec() == old(self).frame_size_spec(),
            final(self).sample_rate_spec() == old(self).sample_rate_spec(),
            final(self).cursor_spec() == old(self).cursor_spec(),
            final(self).total_samples_spec() == old(self).total_samples_spec() + samples@.len() as int
                / old(self).channels_spec(),
            forall|ch: int|
                0 <= ch < old(self).channels_spec() ==> #[trigger] final(self).channels_seq()[ch]
                    == old(self).channels_seq()[ch] + Seq::new(
                    (samples@.len() as int / old(self).channels_spec()) as nat,
                    |j: int| samples@[j * old(self).channels_spec() + ch],
                ),
    {
        let cc = self.data.len();
        let g = samples.len() / cc;
        let ghost gspec: int = samples@.len() as int / cc as int;
        let mut new_data: Vec<Vec<Scalar>> = Vec::new();
        let mut ch: usize = 0;
        while ch < cc
            invariant
                old(self).wf(),
                cc == old(self).channels_spec(),
                cc >= 1,
                self.data@ == old(self).data@,
                g == gspec,
                gspec == samples@.len() as int / cc as int,
                ch <= cc,
                new_data@.len() == ch,
                forall|k: int|
                    0 <= k < ch ==> #[trigger] new_data@[k]@ == old(self).channels_seq()[k]
                        + Seq::new(gspec as nat, |j: int| samples@[j * (cc as int) + k]),
            decreases cc - ch,
        {
            proof {
                assert(old(self).channels_seq()[ch as int] == self.data@[ch as int]@);
            }
            let mut column: Vec<Scalar> = Vec::new();
            let n = self.data[ch].len();
            let mut t: usize = 0;
            while t < n
                invariant
                    t <= n,
                    ch < cc,
                    self.data@ == old(self).data@,
                    cc == self.data@.len(),
                    n == self.data@[ch as int]@.len(),
                    column@ =~= self.data@[ch as int]@.subrange(0, t as int),
                decreases n - t,
            {
                column.push(self.data[ch][t]);
                t += 1;
            }
            proof {
                assert(column@ =~= self.data@[ch as int]@);
            }
            let mut j: usize = 0;
            while j < g
                invariant
                    j <= g,
                    ch < cc,
                    cc >= 1,
                    g == gspec,
                    gspec == samples@.len() as int / cc as int,
                    n == self.data@[ch as int]@.len(),
                    self.data@ == old(self).data@,
                    cc == self.data@.len(),
                    column@.len() == n + j,
                    column@ =~= self.data@[ch as int]@ + Seq::new(
                        j as nat,
                        |x: int| samples@[x * (cc as int) + ch],
                    ),
                decreases g - j,
            {
                proof {
                    let len = samples@.len() as int;
                    let icc = cc as int;
                    lemma_fundamental_div_mod(len, icc);
                    lemma_mod_division_less_than_divisor(len, icc);
                    assert(icc * gspec <= len);
                    lemma_mul_inequality(j as int + 1, gspec, icc);
                    assert((j as int + 1) * icc <= gspec * icc);
                    assert(gspec * icc == icc * gspec) by (nonlinear_arith);
                    assert((j as int) * icc + icc == (j as int + 1) * icc) by (nonlinear_arith);
                    assert(0 <= (j as int) * icc) by (nonlinear_arith)
                        requires
                            0 <= j as int,
                            0 < icc,
                    ;
                    assert((j as int) * icc + (ch as int) < len);
                    assert(samples@.len() == samples.len());
                }
                column.push(samples[j * cc + ch]);
                j += 1;
                proof {
                    assert(column@ =~= self.data@[ch as int]@ + Seq::new(
                        j as nat,
                        |x: int| samples@[x * (cc as int) + ch],
                    ));
                }
            }
            new_data.push(column);
            ch += 1;
        }
        self.data = new_data;
        proof {
            assert(self.data@.len() == self.data.len());
            assert(self.data@[0]@.len() == self.data@[0].len());
            assert forall|k: int| 0 <= k < cc implies (#[trigger] self.channels_seq()[k]).len()
                == old(self).total_samples_spec() + gspec by {
                assert(self.channels_seq()[k] == self.data@[k]@);
                assert(old(self).channels_seq()[k].len() == old(self).total_samples_spec());
            }
            assert(self.channels_seq()[0] == self.data@[0]@);
            assert(self.total_samples_spec() == old(self).total_samples_spec() + gspec);
            assert(0 <= gspec) by {
                lemma_div_pos_is_pos(samples@.len() as int, cc as int);
            }
            assert(old(self).frames_spec() <= self.frames_spec()) by {
                lemma_div_is_ordered(
                    old(self).total_samples_spec(),
                    self.total_samples_spec(),
                    self.frame_size_spec(),
                );
            }
            assert forall|ch2: int| 0 <= ch2 < cc implies #[trigger] self.channels_seq()[ch2]
                == old(self).channels_seq()[ch2] + Seq::new(
                gspec as nat,
                |j: int| samples@[j * (cc as int) + ch2],
            ) by {
                assert(self.channels_seq()[ch2] == self.data@[ch2]@);
            }
        }
    }

    /// Builds a buffer by deinterleaving `samples` into `channels` columns,
    /// as [`AudioBuffer::push_interleaved`] does.
    pub fn from_interleaved(
        frame_size: usize,
        channels: usize,
        sample_rate: u32,
        samples: &Vec<Scalar>,
    ) -> (r: AudioBuffer)
        requires
            frame_size >= 1,
            channels >= 1,
        ensures
            r.wf(),
            r.channels_spec() == channels,
            r.frame_size_spec() == frame_size,
            r.sample_rate_spec() == sample_rate,
            r.cursor_spec() == 0,
            r.total_samples_spec() == samples@.len() as int / channels as int,
            forall|ch: int|
                0 <= ch < channels ==> #[trigger] r.channels_seq()[ch] == Seq::new(
                    (samples@.len() as int / channels as int) as nat,
                    |j: int| samples@[j * channels + ch],
                ),
    {
        let mut r = AudioBuffer::new(frame_size, channels, sample_rate);
        r.push_interleaved(samples);
        proof {
            assert forall|ch: int| 0 <= ch < channels implies #[trigger] r.channels_seq()[ch]
                == Seq::new(
                (samples@.len() as int / channels as int) as nat,
                |j: int| samples@[j * channels + ch],
            ) by {
                assert(r.channels_seq()[ch] =~= Seq::empty() + Seq::new(
                    (samples@.len() as int / channels as int) as nat,
                    |j: int| samples@[j * channels + ch],
                ));
            }
        }
        r
    }

    /// Number of channels.
    pub fn channels(&self) -> (r: usize)
        ensures
            r == self.channels_spec(),
    {
        self.data.len()
    }

    /// The configured frame size.
    pub fn frame_size(&self) -> (r: usize)
        ensures
            r == self.frame_size_spec(),
    {
        self.frame_size
    }

    /// The configured sample rate.
    pub fn sample_rate(&self) -> (r: u32)
        ensures
            r == self.sample_rate_spec(),
    {
        self.sample_rate
    }

    /// Samples held per channel.
    pub fn total_samples(&self) -> (r: usize)
        requires
            self.wf(),
        ensures
            r == self.total_samples_spec(),
    {
        if self.data.len() == 0 {
            0
        } else {
            let r = self.data[0].len();
            proof {
                assert(self.channels_seq()[0] == self.data@[0]@);
            }
            r
        }
    }

    /// How many full frames the buffer holds.
    pub fn frames(&self) -> (r: usize)
        requires
            self.wf(),
        ensures
            r == self.frames_spec(),
    {
        self.total_samples() / self.frame_size
    }

    /// The sample at channel `ch`, position `i`.
    pub fn sample(&self, ch: usize, i: usize) -> (r: Scalar)
        requires
            self.wf(),
            ch < self.channels_spec(),
            i < self.total_samples_spec(),
        ensures
            r == self.sample_spec(ch as int, i as int),
    {
        proof {
            assert(self.channels_seq()[ch as int] == self.data@[ch as int]@);
        }
        self.data[ch][i]
    }

    /// The sample at position `j` of channel `ch` inside window `w`.
    pub fn window_sample(&self, w: FrameWindow, ch: usize, j: usize) -> (r: Scalar)
        requires
            self.wf(),
            w.start + w.frame_size <= self.total_samples_spec(),
            ch < self.channels_spec(),
            j < w.frame_size,
        ensures
            r == self.sample_spec(ch as int, w.start + j),
    {
        self.sample(ch, w.start + j)
    }

    /// The window the iterator is standing on, without advancing: the
    /// single-frame accessor for call sites that do not iterate.
    pub fn current_frame(&self) -> (r: Option<FrameWindow>)
        requires
            self.wf(),
        ensures
            self.cursor_spec() < self.frames_spec() ==> r == Some(
                self.window_spec(self.cursor_spec()),
            ),
            self.cursor_spec() >= self.frames_spec() ==> r == None::<FrameWindow>,
            r matches Some(w) ==> w.start + w.frame_size <= self.total_samples_spec()
                && w.frame_size == self.frame_size_spec() && w.channels == self.channels_spec(),
    {
        let frames = self.frames();
        if self.cursor < frames {
            proof {
                self.lemma_window_in_bounds(self.cursor_spec());
            }
            Some(
                FrameWindow {
                    start: self.cursor * self.frame_size,
                    frame_size: self.frame_size,
                    channels: self.data.len(),
                },
            )
        } else {
            None
        }
    }

    /// One step of the frame iterator: yields the current window and moves
    /// the cursor one frame size forward.  After the last full frame it
    /// yields nothing and stays put, so a trailing remainder is dropped and
    /// never read.
    pub fn next_frame(&mut self) -> (r: Option<FrameWindow>)
        requires
            old(self).wf(),
        ensures
            final(self).wf(),
            final(self).channels_seq() == old(self).channels_seq(),
            final(self).frame_size_spec() == old(self).frame_size_spec(),
            final(self).sample_rate_spec() == old(self).sample_rate_spec(),
            old(self).cursor_spec() < old(self).frames_spec() ==> {
                &&& r == Some(old(self).window_spec(old(self).cursor_spec()))
                &&& final(self).cursor_spec() == old(self).cursor_spec() + 1
            },
            old(self).cursor_spec() >= old(self).frames_spec() ==> r == None::<FrameWindow>
                && final(self).cursor_spec() == old(self).cursor_spec(),
            r matches Some(w) ==> w.start + w.frame_size <= final(self).total_samples_spec(),
    {
        let r = self.current_frame();
        if r.is_some() {
            proof {
                lemma_div_nonincreasing(self.total_samples_spec(), self.frame_size_spec());
            }
            self.cursor = self.cursor + 1;
        }
        r
    }

    /// Every yielded window lies inside the buffer: frame `i` spans
    /// `[i * frame_size, (i + 1) * frame_size)`, which stays below the
    /// total sample count.
    pub proof fn lemma_window_in_bounds(self, i: int)
        requires
            self.wf(),
            0 <= i < self.frames_spec(),
        ensures
            self.window_spec(i).start == i * self.frame_size_spec(),
            self.window_spec(i).start + self.window_spec(i).frame_size
                <= self.total_samples_spec(),
            self.window_spec(i).frame_size == self.frame_size_spec(),
            self.window_spec(i).channels == self.channels_spec(),
    {
        let fs = self.frame_size_spec();
        let total = self.total_samples_spec();
        let q = total / fs;
        lemma_fundamental_div_mod(total, fs);
        lemma_remainder_lower(total, fs);
        assert(q * fs <= total);
        lemma_mul_inequality(i + 1, q, fs);
        assert((i + 1) * fs <= q * fs);
        assert(i * fs + fs == (i + 1) * fs) by (nonlinear_arith);
        assert(0 <= i * fs) by (nonlinear_arith)
            requires
                0 <= i,
                0 < fs,
        ;
    }
}

/// Writes the window `w` of `input` into the single frame held by
/// `output`: output channel `c` receives input channel `c` where one
/// exists, and silence otherwise.  This is the layer's neutral routing of
/// a frame through an effect — the effect's DSP itself is the engine's
/// work and out of scope here — and it guarantees the shape and ordering
/// every effect contract relies on.
pub fn route_frame(input: &AudioBuffer, w: FrameWindow, output: &mut AudioBuffer)
    requires
        input.wf(),
        old(output).wf(),
        w.start + w.frame_size <= input.total_samples_spec(),
        w.frame_size == old(output).frame_size_spec(),
        old(output).total_samples_spec() == old(output).frame_size_spec(),
    ensures
        final(output).wf(),
        final(output).channels_spec() == old(output).channels_spec(),
        final(output).frame_size_spec() == old(output).frame_size_spec(),
        final(output).sample_rate_spec() == old(output).sample_rate_spec(),
        final(output).total_samples_spec() == old(output).total_samples_spec(),
        final(output).cursor_spec() == old(output).cursor_spec(),
        forall|c: int, j: int|
            0 <= c < old(output).channels_spec() && 0 <= j < w.frame_size
                ==> #[trigger] final(output).sample_spec(c, j) == (if c < input.channels_spec() {
                input.sample_spec(c, w.start + j)
            } else {
                Scalar { raw: 0 }
            }),
{
    let out_cc = output.data.len();
    let in_cc = input.channels();
    let fs = w.frame_size;
    let mut new_data: Vec<Vec<Scalar>> = Vec::new();
    let mut c: usize = 0;
    while c < out_cc
        invariant
            input.wf(),
            w.start + w.frame_size <= input.total_samples_spec(),
            fs == w.frame_size,
            in_cc == input.channels_spec(),
            c <= out_cc,
            new_data@.len() == c,
            forall|k: int| 0 <= k < c ==> (#[trigger] new_data@[k])@.len() == fs,
            forall|k: int, j: int|
                0 <= k < c && 0 <= j < fs ==> (#[trigger] new_data@[k]@[j]) == (if k < in_cc {
                    input.sample_spec(k, w.start + j)
                } else {
                    Scalar { raw: 0 }
                }),
        decreases out_cc - c,
    {
        let mut column: Vec<Scalar> = Vec::new();
        let mut j: usize = 0;
        while j < fs
            invariant
                input.wf(),
                w.start + w.frame_size <= input.total_samples_spec(),
                fs == w.frame_size,
                in_cc == input.channels_spec(),
                c < out_cc,
                j <= fs,
                column@.len() == j,
                forall|x: int|
                    0 <= x < j ==> (#[trigger] column@[x]) == (if c < in_cc {
                        input.sample_spec(c as int, w.start + x)
                    } else {
                        Scalar { raw: 0 }
                    }),
            decreases fs - j,
        {
            if c < in_cc {
                column.push(input.sample(c, w.start + j));
            } else {
                column.push(Scalar::zero());
            }
            j += 1;
        }
        new_data.push(column);
        c += 1;
    }
    output.data = new_data;
    proof {
        assert forall|k: int| 0 <= k < output.channels_spec() implies (
        #[trigger] output.channels_seq()[k]).len() == output.total_samples_spec() by {
            assert(output.channels_seq()[k] == output.data@[k]@);
            assert(output.channels_seq()[0] == output.data@[0]@);
        }
        if out_cc > 0 {
            assert(output.channels_seq()[0] == output.data@[0]@);
            assert(output.total_samples_spec() == fs);
        }
        assert forall|c2: int, j: int|
            0 <= c2 < old(output).channels_spec() && 0 <= j < w.frame_size implies #[trigger] output.sample_spec(
            c2,
            j,
        ) == (if c2 < input.channels_spec() {
            input.sample_spec(c2, w.start + j)
        } else {
            Scalar { raw: 0 }
        }) by {
            assert(output.channels_seq()[c2] == output.data@[c2]@);
        }
    }
}

/// For a buffer holding exactly `k` full frames, the iterator yields exactly
/// `k` windows, the `i`-th starting at `i * frame_size`; together the
/// windows tile the buffer without gap or overlap — every sample position
/// `t` is covered by window `t / frame_size` at offset `t % frame_size` —
/// so reading the windows out in order reconstructs every channel in the
/// original sample order.
pub proof fn lemma_exact_frames_tile_buffer(b: AudioBuffer, k: int)
    requires
        b.wf(),
        k >= 0,
        b.total_samples_spec() == k * b.frame_size_spec(),
    ensures
        b.frames_spec() == k,
        forall|i: int|
            0 <= i < k ==> (#[trigger] b.window_spec(i)).start == i * b.frame_size_spec(),
        forall|i: int, ch: int, j: int|
            0 <= i < k && 0 <= ch < b.channels_spec() && 0 <= j < b.frame_size_spec()
                ==> #[trigger] b.sample_spec(ch, b.window_spec(i).start + j) == b.sample_spec(
                ch,
                i * b.frame_size_spec() + j,
            ),
        forall|t: int|
            0 <= t < b.total_samples_spec() ==> #[trigger] (b.window_spec(
                t / b.frame_size_spec(),
            ).start + (t % b.frame_size_spec())) == t,
{
    let fs = b.frame_size_spec();
    assert(b.frames_spec() == k) by {
        lemma_div_multiples_vanish(k, fs);
        assert((fs * k) / fs == k);
        assert(fs * k == k * fs) by (nonlinear_arith);
    }
    assert forall|i: int| 0 <= i < k implies (#[trigger] b.window_spec(i)).start == i
        * b.frame_size_spec() by {
        b.lemma_window_in_bounds(i);
    }
    assert forall|t: int| 0 <= t < b.total_samples_spec() implies #[trigger] (b.window_spec(
        t / fs,
    ).start + (t % fs)) == t by {
        lemma_fundamental_div_mod(t, fs);
        assert(fs * k == k * fs) by (nonlinear_arith);
        lemma_multiply_divide_lt(t, fs, k);
        lemma_div_pos_is_pos(t, fs);
        b.lemma_window_in_bounds(t / fs);
    }
}

/// Whatever the sample count, the iterator yields exactly
/// `total_samples / frame_size` full frames (the floor), and no window
/// reaches past the buffer: a remainder shorter than one frame is dropped,
/// never read.
pub proof fn lemma_frame_iteration_never_overruns(b: AudioBuffer)
    requires
        b.wf(),
    ensures
        b.frames_spec() == b.total_samples_spec() / b.frame_size_spec(),
        forall|i: int|
            0 <= i < b.frames_spec() ==> (#[trigger] b.window_spec(i)).start + b.frame_size_spec()
                <= b.total_samples_spec(),
{
    assert forall|i: int| 0 <= i < b.frames_spec() implies (#[trigger] b.window_spec(i)).start
        + b.frame_size_spec() <= b.total_samples_spec() by {
        b.lemma_window_in_bounds(i);
    }
}

} // verus!
