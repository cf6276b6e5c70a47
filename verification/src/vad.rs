//! Energy-based voice-activity detection with adaptive noise tracking,
//! smoothing, and hysteresis.
//!
//! The abstract state is a [`DetectorView`]; one processed frame moves the
//! detector from `m` to `stepped(m, e)`, where `e` is the frame's RMS
//! energy on the fixed-point grid. Every number lives on that grid:
//! 10 000 is full scale, and the adaptation rate `alpha` is in
//! thousandths.

use vstd::prelude::*;

use crate::audio_types::{frame_energy, frame_rms, valid_samples, VADResult};
use crate::error::AudioError;
use crate::math::samples_for_duration;

verus! {

/// Frames kept in the energy-smoothing window.
pub const ENERGY_WINDOW_FRAMES: usize = 5;

/// Lower bound of the dynamic threshold (0.01 full scale).
pub const NOISE_FLOOR: u32 = 100;

/// Larger of two integers.
pub open spec fn max2(a: int, b: int) -> int {
    if a >= b {
        a
    } else {
        b
    }
}

/// Sum of an integer sequence.
pub open spec fn seq_sum(s: Seq<int>) -> int
    decreases s.len(),
{
    if s.len() == 0 {
        0
    } else {
        seq_sum(s.drop_last()) + s.last()
    }
}

/// Number of `true` entries.
pub open spec fn count_true(s: Seq<bool>) -> int
    decreases s.len(),
{
    if s.len() == 0 {
        0
    } else {
        count_true(s.drop_last()) + if s.last() {
            1int
        } else {
            0int
        }
    }
}

/// Number of `false` entries.
pub open spec fn count_false(s: Seq<bool>) -> int
    decreases s.len(),
{
    if s.len() == 0 {
        0
    } else {
        count_false(s.drop_last()) + if s.last() {
            0int
        } else {
            1int
        }
    }
}

/// Abstract detector state.
#[verifier::ext_equal]
pub struct DetectorView {
    pub sample_rate: int,
    /// Configured threshold (fixed-point grid).
    pub threshold: int,
    /// Lower bound of the dynamic threshold.
    pub noise_floor: int,
    /// Frame length in samples.
    pub frame_size: int,
    /// Last energies, oldest first, at most `ENERGY_WINDOW_FRAMES`.
    pub window: Seq<int>,
    /// Last raw classifications, oldest first.
    pub history: Seq<bool>,
    /// Current speech state.
    pub speech: bool,
    /// Adaptive noise-floor estimate.
    pub noise: int,
    /// Noise adaptation rate in thousandths.
    pub alpha: int,
    pub min_speech: int,
    pub min_silence: int,
    pub total: int,
    pub speech_total: int,
}

impl DetectorView {
    /// Invariant of the abstract state.
    pub open spec fn wf(self) -> bool {
        &&& self.sample_rate >= 1
        &&& self.frame_size >= 1
        &&& 0 <= self.threshold <= 10000
        &&& self.noise_floor == 100
        &&& 0 <= self.noise <= 10000
        &&& 0 <= self.alpha <= 1000
        &&& self.window.len() <= 5
        &&& (forall|i: int| 0 <= i < self.window.len() ==> 0 <= #[trigger] self.window[i] <= 10000)
        &&& 1 <= self.min_speech <= 0xFFFF
        &&& 1 <= self.min_silence <= 0xFFFF
        &&& self.history.len() <= 0xFFFF
        &&& 0 <= self.speech_total <= self.total
    }
}

/// Noise estimate after one frame: adapted toward the frame energy only
/// while the detector is not classifying speech.
pub open spec fn updated_noise(m: DetectorView, e: int) -> int {
    if !m.speech {
        (m.noise * (1000 - m.alpha) + e * m.alpha) / 1000
    } else {
        m.noise
    }
}

/// Smoothing window after one frame: energy appended, oldest dropped
/// beyond `ENERGY_WINDOW_FRAMES` entries.
pub open spec fn pushed_window(m: DetectorView, e: int) -> Seq<int> {
    let w = m.window.push(e);
    if w.len() > 5 {
        w.drop_first()
    } else {
        w
    }
}

/// Mean of the smoothing window after the frame's energy is appended.
pub open spec fn smoothed_energy(m: DetectorView, e: int) -> int {
    seq_sum(pushed_window(m, e)) / pushed_window(m, e).len() as int
}

/// Dynamic threshold: twice the adapted noise estimate, but never below
/// the configured threshold or the noise floor.
pub open spec fn dynamic_threshold(m: DetectorView, e: int) -> int {
    max2(max2(updated_noise(m, e) * 2, m.threshold), m.noise_floor)
}

/// Raw per-frame classification: smoothed energy strictly above the dynamic
/// threshold.
pub open spec fn raw_speech(m: DetectorView, e: int) -> bool {
    smoothed_energy(m, e) > dynamic_threshold(m, e)
}

/// Classification history after one frame: raw classification appended, oldest
/// dropped beyond `max(min_speech, min_silence)` entries.
pub open spec fn pushed_history(m: DetectorView, e: int) -> Seq<bool> {
    let h = m.history.push(raw_speech(m, e));
    if h.len() > max2(m.min_speech, m.min_silence) {
        h.drop_first()
    } else {
        h
    }
}

/// Hysteresis rule over a history. With too little history the current
/// state is held. A silent detector turns to speech only when all of the
/// oldest `min_speech` entries are speech; a speaking detector holds
/// unless at least `min_silence` of the oldest `min_silence` entries are
/// silence.
pub open spec fn hysteresis_next(
    history: Seq<bool>,
    current: bool,
    min_speech: int,
    min_silence: int,
) -> bool {
    if history.len() < min_speech {
        current
    } else {
        let speech_count = count_true(history.take(min_speech));
        let silence_take = if min_silence < history.len() {
            min_silence
        } else {
            history.len() as int
        };
        let silence_count = count_false(history.take(silence_take));
        if !current {
            speech_count >= min_speech
        } else {
            !(silence_count >= min_silence)
        }
    }
}

/// Speech state after one frame.
pub open spec fn next_speech(m: DetectorView, e: int) -> bool {
    hysteresis_next(pushed_history(m, e), m.speech, m.min_speech, m.min_silence)
}

/// Confidence after one frame: when the new state is speech, the margin
/// of the smoothed energy over the dynamic threshold, relative to it and
/// clamped to full scale; zero whenever the state is silence.
pub open spec fn confidence_of(m: DetectorView, e: int) -> int {
    let sm = smoothed_energy(m, e);
    let dy = dynamic_threshold(m, e);
    if next_speech(m, e) && sm > dy {
        let c = (sm - dy) * 10000 / dy;
        if c < 10000 {
            c
        } else {
            10000
        }
    } else {
        0
    }
}

/// The detector state after processing one nonempty frame of energy `e`.
pub open spec fn stepped(m: DetectorView, e: int) -> DetectorView {
    DetectorView {
        sample_rate: m.sample_rate,
        threshold: m.threshold,
        noise_floor: m.noise_floor,
        frame_size: m.frame_size,
        window: pushed_window(m, e),
        history: pushed_history(m, e),
        speech: next_speech(m, e),
        noise: updated_noise(m, e),
        alpha: m.alpha,
        min_speech: m.min_speech,
        min_silence: m.min_silence,
        total: m.total + 1,
        speech_total: m.speech_total + if next_speech(m, e) {
            1int
        } else {
            0int
        },
    }
}

/// The detector state after a whole sequence of nonempty frames, given by
/// their energies.
pub open spec fn stepped_many(m: DetectorView, es: Seq<int>) -> DetectorView
    decreases es.len(),
{
    if es.len() == 0 {
        m
    } else {
        stepped_many(stepped(m, es.first()), es.drop_first())
    }
}

/// A sequence of zeros sums to zero.
pub proof fn lemma_seq_sum_zero(s: Seq<int>)
    requires
        forall|i: int| 0 <= i < s.len() ==> #[trigger] s[i] == 0,
    ensures
        seq_sum(s) == 0,
    decreases s.len(),
{
    if s.len() > 0 {
        lemma_seq_sum_zero(s.drop_last());
    }
}

/// Appending to a history shifts the speech count by the new entry.
pub proof fn lemma_count_true_push(s: Seq<bool>, b: bool)
    ensures
        count_true(s.push(b)) == count_true(s) + if b {
            1int
        } else {
            0int
        },
{
    assert(s.push(b).drop_last() =~= s);
}

/// A history without speech entries has no speech to count.
pub proof fn lemma_count_true_zero(s: Seq<bool>)
    requires
        forall|i: int| 0 <= i < s.len() ==> !(#[trigger] s[i]),
    ensures
        count_true(s) == 0,
    decreases s.len(),
{
    if s.len() > 0 {
        lemma_count_true_zero(s.drop_last());
    }
}

/// Shape of a releasing history: every entry is speech except the last
/// `k`, which are silence.
pub open spec fn speech_then_silence(h: Seq<bool>, k: int) -> bool {
    forall|i: int| 0 <= i < h.len() ==> (#[trigger] h[i] <==> i < h.len() - k)
}

/// Counting silence in a history of that shape gives exactly `k`.
pub proof fn lemma_count_false_shape(h: Seq<bool>, k: int)
    requires
        0 <= k <= h.len(),
        speech_then_silence(h, k),
    ensures
        count_false(h) == k,
    decreases h.len(),
{
    if h.len() > 0 {
        if k >= 1 {
            assert(speech_then_silence(h.drop_last(), k - 1));
            lemma_count_false_shape(h.drop_last(), k - 1);
        } else {
            assert(speech_then_silence(h.drop_last(), 0));
            lemma_count_false_shape(h.drop_last(), 0);
        }
    }
}

/// An all-zero frame has energy zero.
pub proof fn lemma_zero_frame_energy(s: Seq<i32>)
    requires
        forall|i: int| 0 <= i < s.len() ==> #[trigger] s[i] == 0i32,
    ensures
        frame_energy(s) == 0,
{
    lemma_sum_squares_zero(s);
    if s.len() > 0 {
        vstd::arithmetic::div_mod::lemma_div_of0(s.len() as int);
    }
}

/// An all-zero frame has a zero sum of squares.
pub proof fn lemma_sum_squares_zero(s: Seq<i32>)
    requires
        forall|i: int| 0 <= i < s.len() ==> #[trigger] s[i] == 0i32,
    ensures
        crate::audio_types::sum_squares(s) == 0,
    decreases s.len(),
{
    if s.len() > 0 {
        lemma_sum_squares_zero(s.drop_last());
    }
}

/// A detector is quiescent when its smoothing window holds only zeros,
/// its history holds only silence, and it is silent — the state that
/// `new` and `reset` establish.
pub open spec fn quiescent(m: DetectorView) -> bool {
    &&& forall|i: int| 0 <= i < m.window.len() ==> #[trigger] m.window[i] == 0
    &&& forall|i: int| 0 <= i < m.history.len() ==> !(#[trigger] m.history[i])
    &&& !m.speech
}

/// Silence invariant: a quiescent detector classifies an all-zero frame
/// as silence with zero confidence, whatever the configured threshold,
/// and stays quiescent.
pub proof fn lemma_silence_invariant(m: DetectorView, frame: Seq<i32>)
    requires
        m.wf(),
        quiescent(m),
        frame.len() > 0,
        forall|i: int| 0 <= i < frame.len() ==> #[trigger] frame[i] == 0i32,
    ensures
        !next_speech(m, frame_energy(frame)),
        confidence_of(m, frame_energy(frame)) == 0,
        quiescent(stepped(m, frame_energy(frame))),
{
    lemma_zero_frame_energy(frame);
    let e = frame_energy(frame);
    let win = pushed_window(m, e);
    assert(forall|i: int| 0 <= i < win.len() ==> #[trigger] win[i] == 0);
    lemma_seq_sum_zero(win);
    vstd::arithmetic::div_mod::lemma_div_of0(win.len() as int);
    assert(smoothed_energy(m, e) == 0);
    assert(dynamic_threshold(m, e) >= 100);
    assert(!raw_speech(m, e));
    let h = pushed_history(m, e);
    assert(forall|i: int| 0 <= i < h.len() ==> !(#[trigger] h[i]));
    if h.len() >= m.min_speech {
        lemma_count_true_zero(h.take(m.min_speech));
    }
}

/// Hysteresis activation: a silent detector with an empty history and a
/// two-frame speech requirement turns to speech on the second of two
/// consecutive frames whose smoothed energy exceeds the dynamic
/// threshold; the first such frame alone does not switch it.
pub proof fn lemma_hysteresis_activation(m: DetectorView, e1: int, e2: int)
    requires
        m.wf(),
        !m.speech,
        m.history.len() == 0,
        m.min_speech == 2,
        raw_speech(m, e1),
        raw_speech(stepped(m, e1), e2),
    ensures
        !stepped(m, e1).speech,
        stepped(stepped(m, e1), e2).speech,
{
    let m1 = stepped(m, e1);
    let h1 = pushed_history(m, e1);
    assert(h1 =~= m.history.push(true));
    assert(h1.len() < m.min_speech);
    assert(!m1.speech);
    let h2 = pushed_history(m1, e2);
    assert(h2 =~= h1.push(true));
    assert(h2.take(2) =~= h2);
    lemma_count_true_push(m.history, true);
    lemma_count_true_push(h1, true);
    assert(count_true(h2) == 2);
}

/// Hysteresis release, one step: a speaking detector whose history holds
/// `k` trailing silence entries, fed one more below-threshold frame,
/// releases exactly when that makes `min_silence` of them.
proof fn lemma_release_step(m: DetectorView, e: int, k: int)
    requires
        m.wf(),
        m.speech,
        m.min_speech <= m.min_silence,
        m.history.len() == m.min_silence,
        0 <= k < m.min_silence,
        speech_then_silence(m.history, k),
        !raw_speech(m, e),
        0 <= e <= 10000,
    ensures
        stepped(m, e).history.len() == m.min_silence,
        speech_then_silence(stepped(m, e).history, k + 1),
        stepped(m, e).speech <==> k + 1 < m.min_silence,
{
    let h = pushed_history(m, e);
    assert(max2(m.min_speech, m.min_silence) == m.min_silence);
    assert(h =~= m.history.drop_first().push(false));
    assert(speech_then_silence(h, k + 1));
    assert(h.take(m.min_silence) =~= h);
    lemma_count_false_shape(h, k + 1);
}

/// Hysteresis release: once in speech state with a history saturated with
/// speech, feeding `min_silence` consecutive below-threshold frames
/// returns the detector to silence, and fewer than that leave it
/// speaking. `es` gives the energies of the frames fed.
pub proof fn lemma_hysteresis_release(m: DetectorView, es: Seq<int>)
    requires
        m.wf(),
        m.speech,
        m.min_speech <= m.min_silence,
        m.history.len() == m.min_silence,
        speech_then_silence(m.history, 0),
        es.len() <= m.min_silence,
        forall|i: int| 0 <= i < es.len() ==> 0 <= #[trigger] es[i] <= 10000,
        forall|i: int|
            0 <= i < es.len() ==> !raw_speech(#[trigger] stepped_many(m, es.take(i)), es[i]),
    ensures
        stepped_many(m, es).speech <==> es.len() < m.min_silence,
{
    lemma_release_chain(m, es, 0);
}

/// Induction kernel of `lemma_hysteresis_release`.
proof fn lemma_release_chain(m: DetectorView, es: Seq<int>, k: int)
    requires
        m.wf(),
        m.min_speech <= m.min_silence,
        m.history.len() == m.min_silence,
        0 <= k <= m.min_silence,
        speech_then_silence(m.history, k),
        m.speech <==> k < m.min_silence,
        k + es.len() <= m.min_silence,
        forall|i: int| 0 <= i < es.len() ==> 0 <= #[trigger] es[i] <= 10000,
        forall|i: int|
            0 <= i < es.len() ==> !raw_speech(#[trigger] stepped_many(m, es.take(i)), es[i]),
    ensures
        stepped_many(m, es).speech <==> k + es.len() < m.min_silence,
    decreases es.len(),
{
    if es.len() > 0 {
        let e = es.first();
        assert(es.take(0) =~= Seq::<int>::empty());
        assert(stepped_many(m, es.take(0)) == m);
        assert(!raw_speech(m, e));
        lemma_release_step(m, e, k);
        let m1 = stepped(m, e);
        assert(m1.wf()) by {
            lemma_stepped_wf(m, e);
        }
        let rest = es.drop_first();
        assert forall|i: int|
            0 <= i < rest.len() implies !raw_speech(
            #[trigger] stepped_many(m1, rest.take(i)),
            rest[i],
        ) by {
            assert(es.take(i + 1).first() == e);
            assert(es.take(i + 1).drop_first() =~= rest.take(i));
            assert(stepped_many(m, es.take(i + 1)) == stepped_many(m1, rest.take(i)));
            assert(rest[i] == es[i + 1]);
        }
        lemma_release_chain(m1, rest, k + 1);
        assert(stepped_many(m, es) == stepped_many(m1, rest));
    }
}

/// One step preserves the abstract invariant when the energy is on the
/// grid.
pub proof fn lemma_stepped_wf(m: DetectorView, e: int)
    requires
        m.wf(),
        0 <= e <= 10000,
    ensures
        stepped(m, e).wf(),
{
    assert(0 <= updated_noise(m, e) <= 10000) by (nonlinear_arith)
        requires
            0 <= m.noise <= 10000,
            0 <= e <= 10000,
            0 <= m.alpha <= 1000,
            updated_noise(m, e) == if !m.speech {
                (m.noise * (1000 - m.alpha) + e * m.alpha) / 1000
            } else {
                m.noise
            },
    {
    }
}

/// Detector counters and current estimates.
#[derive(Debug, Clone)]
pub struct VADStats {
    pub total_frames: u64,
    pub speech_frames: u64,
    /// Share of speech frames on the fixed-point grid.
    pub speech_ratio: u32,
    pub current_noise_level: u32,
    pub current_threshold: u32,
    pub is_speech: bool,
    /// Reserved processing-time report.
    pub avg_processing_time_us: u64,
}

/// Environment presets for the detector.
#[derive(Debug, Clone)]
pub enum VADEnvironment {
    /// Library, office.
    Quiet,
    /// Home, normal room.
    Normal,
    /// Cafe, street, open office.
    Noisy,
}

/// Per-frame speech/silence classifier.
pub struct VoiceActivityDetector {
    pub sample_rate: u32,
    pub energy_threshold: u32,
    pub noise_floor: u32,
    pub frame_size: usize,
    pub energy_window: Vec<u32>,
    pub window_size: usize,
    pub speech_history: Vec<bool>,
    pub min_speech_frames: usize,
    pub min_silence_frames: usize,
    pub is_speech: bool,
    pub noise_level: u32,
    pub noise_alpha: u32,
    pub total_frames: u64,
    pub speech_frames: u64,
}

impl View for VoiceActivityDetector {
    type V = DetectorView;

    open spec fn view(&self) -> DetectorView {
        DetectorView {
            sample_rate: self.sample_rate as int,
            threshold: self.energy_threshold as int,
            noise_floor: self.noise_floor as int,
            frame_size: self.frame_size as int,
            window: self.energy_window@.map(|i: int, v: u32| v as int),
            history: self.speech_history@,
            speech: self.is_speech,
            noise: self.noise_level as int,
            alpha: self.noise_alpha as int,
            min_speech: self.min_speech_frames as int,
            min_silence: self.min_silence_frames as int,
            total: self.total_frames as int,
            speech_total: self.speech_frames as int,
        }
    }
}

impl VoiceActivityDetector {
    /// Invariant of the executable state.
    pub open spec fn wf(self) -> bool {
        &&& self@.wf()
        &&& self.window_size == 5
        &&& self.noise_floor == 100
        &&& self.min_speech_frames <= 0xFFFF
        &&& self.min_silence_frames <= 0xFFFF
    }

    /// Creates a detector; rejected when the frame size rounds to zero.
    pub fn new(sample_rate: u32, energy_threshold: u32, frame_duration_ms: u64) -> (r: Result<
        VoiceActivityDetector,
        AudioError,
    >)
        requires
            energy_threshold <= 10000,
            (sample_rate as int) * (frame_duration_ms as int) / 1000 <= 0xFFFF_FFFF,
        ensures
            r is Err <==> (sample_rate as int) * (frame_duration_ms as int) / 1000 == 0,
            r is Err ==> r->Err_0 is VADError,
            r is Ok ==> {
                let d = r->Ok_0;
                &&& d.wf()
                &&& d@.sample_rate == sample_rate
                &&& d@.threshold == energy_threshold
                &&& d@.frame_size == (sample_rate as int) * (frame_duration_ms as int) / 1000
                &&& d@.window =~= Seq::<int>::empty()
                &&& d@.history =~= Seq::<bool>::empty()
                &&& !d@.speech
                &&& d@.noise == 100
                &&& d@.alpha == 100
                &&& d@.min_speech == 2
                &&& d@.min_silence == 3
                &&& d@.total == 0
                &&& d@.speech_total == 0
            },
    {
        let frame_size128: u128 = samples_for_duration(sample_rate, frame_duration_ms);
        if frame_size128 == 0 {
            return Err(AudioError::VADError(String::from_str("frame size cannot be zero")));
        }
        let d = VoiceActivityDetector {
            sample_rate,
            energy_threshold,
            noise_floor: NOISE_FLOOR,
            frame_size: frame_size128 as usize,
            energy_window: Vec::new(),
            window_size: ENERGY_WINDOW_FRAMES,
            speech_history: Vec::new(),
            min_speech_frames: 2,
            min_silence_frames: 3,
            is_speech: false,
            noise_level: 100,
            noise_alpha: 100,
            total_frames: 0,
            speech_frames: 0,
        };
        proof {
            assert(d@.window =~= Seq::<int>::empty());
        }
        Ok(d)
    }

    /// Overwrites the configured threshold, clamped to full scale.
    pub fn set_sensitivity(&mut self, sensitivity: u32)
        requires
            old(self).wf(),
        ensures
            final(self).wf(),
            final(self)@ == (DetectorView {
                threshold: if sensitivity <= 10000 {
                    sensitivity as int
                } else {
                    10000int
                },
                ..old(self)@
            }),
    {
        self.energy_threshold = if sensitivity <= 10000 {
            sensitivity
        } else {
            10000
        };
        proof {
            assert(self@ =~= (DetectorView {
                threshold: self.energy_threshold as int,
                ..old(self)@
            }));
        }
    }

    /// Clears windows, history, counters and the noise estimate, and
    /// forces the silent state. The configured threshold stays.
    pub fn reset(&mut self)
        requires
            old(self).wf(),
        ensures
            final(self).wf(),
            final(self)@ == (DetectorView {
                window: Seq::<int>::empty(),
                history: Seq::<bool>::empty(),
                speech: false,
                noise: 100,
                total: 0,
                speech_total: 0,
                ..old(self)@
            }),
    {
        self.energy_window = Vec::new();
        self.speech_history = Vec::new();
        self.is_speech = false;
        self.noise_level = 100;
        self.total_frames = 0;
        self.speech_frames = 0;
        proof {
            assert(self@ =~= (DetectorView {
                window: Seq::<int>::empty(),
                history: Seq::<bool>::empty(),
                speech: false,
                noise: 100,
                total: 0,
                speech_total: 0,
                ..old(self)@
            }));
        }
    }

    /// Classifies one frame of samples and returns the classification; the
    /// detector state advances by exactly one `stepped` transition. An
    /// empty frame yields a silent classification and changes nothing.
    #[verifier::rlimit(60)]
    pub fn process_frame(&mut self, audio_data: &Vec<i32>) -> (r: Result<VADResult, AudioError>)
        requires
            old(self).wf(),
            valid_samples(audio_data@),
            old(self)@.total < 0xFFFF_FFFF_FFFF_FFFF,
        ensures
            final(self).wf(),
            r is Ok,
            audio_data@.len() == 0 ==> {
                &&& *final(self) == *old(self)
                &&& !r->Ok_0.is_speech
                &&& r->Ok_0.confidence == 0
                &&& r->Ok_0.energy_level == 0
            },
            audio_data@.len() > 0 ==> {
                let m = old(self)@;
                let e = frame_energy(audio_data@);
                &&& final(self)@ == stepped(m, e)
                &&& r->Ok_0.is_speech == next_speech(m, e)
                &&& r->Ok_0.energy_level == smoothed_energy(m, e)
                &&& r->Ok_0.confidence == confidence_of(m, e)
            },
            r->Ok_0.processing_time_us == 0,
    {
        if audio_data.len() == 0 {
            return Ok(
                VADResult { is_speech: false, confidence: 0, energy_level: 0, processing_time_us: 0 },
            );
        }
        let ghost m = self@;
        let energy: u32 = frame_rms(audio_data);
        let ghost e = energy as int;

        // Adapt the noise estimate only outside speech.
        if !self.is_speech {
            proof {
                assert(m.noise * (1000 - m.alpha) <= 10_000_000) by (nonlinear_arith)
                    requires
                        0 <= m.noise <= 10000,
                        0 <= m.alpha <= 1000,
                {
                }
                assert(0 <= e * m.alpha <= 10_000_000) by (nonlinear_arith)
                    requires
                        0 <= e <= 10000,
                        0 <= m.alpha <= 1000,
                {
                }
                assert(0 <= m.noise * (1000 - m.alpha)) by (nonlinear_arith)
                    requires
                        0 <= m.noise,
                        0 <= m.alpha <= 1000,
                {
                }
                crate::math::lemma_div_bound(
                    m.noise * (1000 - m.alpha) + e * m.alpha,
                    1000,
                    20000,
                );
            }
            let next_noise = (self.noise_level * (1000 - self.noise_alpha) + energy
                * self.noise_alpha) / 1000;
            proof {
                assert((m.noise * (1000 - m.alpha) + e * m.alpha) / 1000 <= 10000)
                    by (nonlinear_arith)
                    requires
                        0 <= m.noise <= 10000,
                        0 <= e <= 10000,
                        0 <= m.alpha <= 1000,
                {
                }
            }
            self.noise_level = next_noise;
        }
        proof {
            assert(self.noise_level as int == updated_noise(m, e));
        }

        // Smooth the energy over the last few frames.
        self.energy_window.push(energy);
        if self.energy_window.len() > self.window_size {
            self.energy_window.remove(0);
        }
        proof {
            assert(self.energy_window@.map(|i: int, v: u32| v as int) =~= pushed_window(m, e));
        }
        let ghost win = pushed_window(m, e);
        let n = self.energy_window.len();
        let mut sum: u32 = 0;
        let mut i: usize = 0;
        while i < n
            invariant
                n == self.energy_window@.len(),
                1 <= n <= 5,
                win =~= self.energy_window@.map(|i: int, v: u32| v as int),
                forall|j: int| 0 <= j < win.len() ==> 0 <= #[trigger] win[j] <= 10000,
                i <= n,
                sum == seq_sum(win.take(i as int)),
                sum <= (i as int) * 10000,
            decreases n - i,
        {
            proof {
                assert(win.take(i + 1).drop_last() =~= win.take(i as int));
                assert(win.take(i + 1).last() == win[i as int]);
            }
            let v = self.energy_window[i];
            sum = sum + v;
            i = i + 1;
        }
        proof {
            assert(win.take(n as int) =~= win);
        }
        let smoothed: u32 = sum / (n as u32);
        proof {
            crate::math::lemma_div_bound(sum as int, n as int, 10000);
            assert(smoothed as int == smoothed_energy(m, e));
            assert(smoothed <= 10000);
        }

        // Dynamic threshold over the adapted noise estimate.
        let mut dyn_threshold: u32 = self.noise_level * 2;
        if self.energy_threshold > dyn_threshold {
            dyn_threshold = self.energy_threshold;
        }
        if self.noise_floor > dyn_threshold {
            dyn_threshold = self.noise_floor;
        }
        proof {
            assert(dyn_threshold as int == dynamic_threshold(m, e));
            assert(dyn_threshold >= 100);
        }
        let raw = smoothed > dyn_threshold;

        // Record the raw classification.
        self.speech_history.push(raw);
        let hist_cap = if self.min_speech_frames >= self.min_silence_frames {
            self.min_speech_frames
        } else {
            self.min_silence_frames
        };
        if self.speech_history.len() > hist_cap {
            self.speech_history.remove(0);
        }
        proof {
            assert(self.speech_history@ =~= pushed_history(m, e));
        }

        // Hysteresis transition.
        let new_state = self.determine_speech_state();
        self.is_speech = new_state;

        let confidence: u32 = if new_state && smoothed > dyn_threshold {
            let c = ((smoothed - dyn_threshold) * 10000) / dyn_threshold;
            if c < 10000 {
                c
            } else {
                10000
            }
        } else {
            0
        };
        self.total_frames = self.total_frames + 1;
        if new_state {
            self.speech_frames = self.speech_frames + 1;
        }
        proof {
            assert(self@ =~= stepped(m, e));
        }
        Ok(
            VADResult {
                is_speech: new_state,
                confidence,
                energy_level: smoothed,
                processing_time_us: 0,
            },
        )
    }

    /// Applies the hysteresis rule to the current history and state.
    fn determine_speech_state(&self) -> (r: bool)
        requires
            self.wf(),
        ensures
            r == hysteresis_next(self@.history, self@.speech, self@.min_speech, self@.min_silence),
    {
        if self.speech_history.len() < self.min_speech_frames {
            return self.is_speech;
        }
        let ghost hist = self@.history;
        let mut speech_count: usize = 0;
        let mut i: usize = 0;
        while i < self.min_speech_frames
            invariant
                self.wf(),
                hist == self@.history,
                self.min_speech_frames <= self.speech_history@.len(),
                i <= self.min_speech_frames,
                speech_count as int == count_true(hist.take(i as int)),
                speech_count <= i,
            decreases self.min_speech_frames - i,
        {
            proof {
                assert(hist.take(i + 1).drop_last() =~= hist.take(i as int));
                assert(hist.take(i + 1).last() == hist[i as int]);
            }
            if self.speech_history[i] {
                speech_count = speech_count + 1;
            }
            i = i + 1;
        }
        let silence_take = if self.min_silence_frames < self.speech_history.len() {
            self.min_silence_frames
        } else {
            self.speech_history.len()
        };
        let mut silence_count: usize = 0;
        let mut j: usize = 0;
        while j < silence_take
            invariant
                self.wf(),
                hist == self@.history,
                silence_take <= self.speech_history@.len(),
                j <= silence_take,
                silence_count as int == count_false(hist.take(j as int)),
                silence_count <= j,
            decreases silence_take - j,
        {
            proof {
                assert(hist.take(j + 1).drop_last() =~= hist.take(j as int));
                assert(hist.take(j + 1).last() == hist[j as int]);
            }
            if !self.speech_history[j] {
                silence_count = silence_count + 1;
            }
            j = j + 1;
        }
        if !self.is_speech {
            speech_count >= self.min_speech_frames
        } else {
            !(silence_count >= self.min_silence_frames)
        }
    }

    /// Counters, ratio and current estimates. The speech ratio is on the
    /// fixed-point grid (10 000 = every frame was speech).
    pub fn get_stats(&self) -> (r: VADStats)
        requires
            self.wf(),
        ensures
            r.total_frames == self@.total,
            r.speech_frames == self@.speech_total,
            r.speech_ratio as int == if self@.total > 0 {
                self@.speech_total * 10000 / self@.total
            } else {
                0
            },
            r.current_noise_level == self@.noise,
            r.current_threshold == self@.threshold,
            r.is_speech == self@.speech,
            r.avg_processing_time_us == 0,
    {
        let ratio: u32 = if self.total_frames > 0 {
            proof {
                assert((self.speech_frames as int) * 10000 / (self.total_frames as int)
                    <= 10000) by (nonlinear_arith)
                    requires
                        0 <= self.speech_frames <= self.total_frames,
                        self.total_frames > 0,
                {
                }
                assert((self.speech_frames as int) * 10000 <= 0xFFFF_FFFF_FFFF_FFFF * 10000)
                    by (nonlinear_arith)
                    requires
                        self.speech_frames <= 0xFFFF_FFFF_FFFF_FFFF,
                {
                }
            }
            (((self.speech_frames as u128) * 10000) / (self.total_frames as u128)) as u32
        } else {
            0
        };
        VADStats {
            total_frames: self.total_frames,
            speech_frames: self.speech_frames,
            speech_ratio: ratio,
            current_noise_level: self.noise_level,
            current_threshold: self.energy_threshold,
            is_speech: self.is_speech,
            avg_processing_time_us: 0,
        }
    }

    /// Applies an environment preset: a bundle of threshold, hysteresis
    /// lengths and adaptation rate.
    pub fn configure_for_environment(&mut self, environment: &VADEnvironment)
        requires
            old(self).wf(),
        ensures
            final(self).wf(),
            environment is Quiet ==> final(self)@ == (DetectorView {
                threshold: 3000,
                min_speech: 1,
                min_silence: 2,
                alpha: 50,
                ..old(self)@
            }),
            environment is Normal ==> final(self)@ == (DetectorView {
                threshold: 5000,
                min_speech: 2,
                min_silence: 3,
                alpha: 100,
                ..old(self)@
            }),
            environment is Noisy ==> final(self)@ == (DetectorView {
                threshold: 7000,
                min_speech: 3,
                min_silence: 4,
                alpha: 200,
                ..old(self)@
            }),
    {
        match environment {
            VADEnvironment::Quiet => {
                self.energy_threshold = 3000;
                self.min_speech_frames = 1;
                self.min_silence_frames = 2;
                self.noise_alpha = 50;
            },
            VADEnvironment::Normal => {
                self.energy_threshold = 5000;
                self.min_speech_frames = 2;
                self.min_silence_frames = 3;
                self.noise_alpha = 100;
            },
            VADEnvironment::Noisy => {
                self.energy_threshold = 7000;
                self.min_speech_frames = 3;
                self.min_silence_frames = 4;
                self.noise_alpha = 200;
            },
        }
        proof {
            assert(self@ =~= (DetectorView {
                threshold: self.energy_threshold as int,
                min_speech: self.min_speech_frames as int,
                min_silence: self.min_silence_frames as int,
                alpha: self.noise_alpha as int,
                ..old(self)@
            }));
        }
    }
}

} // verus!
