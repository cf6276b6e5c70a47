//! Shared audio data model.
//!
//! A normalized amplitude is a fixed-point integer: `SAMPLE_SCALE` (10 000)
//! stands for full scale `1.0`, so a valid sample lies in
//! `[-SAMPLE_SCALE, SAMPLE_SCALE]`. Energies, thresholds and confidences
//! use the same grid.

use vstd::prelude::*;

use crate::math::{isqrt, lemma_sqrt_floor_le, sqrt_floor};

verus! {

/// Fixed-point value of a full-scale amplitude of `1.0`.
pub const SAMPLE_SCALE: i32 = 10000;

/// Square of `SAMPLE_SCALE`: the largest possible squared sample.
pub const SAMPLE_SCALE_SQ: u64 = 100_000_000;

/// A sample is valid when it lies within full scale.
pub open spec fn valid_sample(s: i32) -> bool {
    -10000 <= s <= 10000
}

/// All samples of a sequence are valid.
pub open spec fn valid_samples(s: Seq<i32>) -> bool {
    forall|i: int| 0 <= i < s.len() ==> valid_sample(#[trigger] s[i])
}

/// Sum of the squares of a sample sequence.
pub open spec fn sum_squares(s: Seq<i32>) -> int
    decreases s.len(),
{
    if s.len() == 0 {
        0
    } else {
        sum_squares(s.drop_last()) + s.last() * s.last()
    }
}

/// RMS energy of a frame on the fixed-point grid: the floor of the square
/// root of the mean squared sample. An empty frame has energy zero.
pub open spec fn frame_energy(s: Seq<i32>) -> int {
    if s.len() == 0 {
        0
    } else {
        sqrt_floor((sum_squares(s) / s.len() as int) as nat) as int
    }
}

/// The sum of squares is nonnegative and, for valid samples, at most
/// `len * SAMPLE_SCALE_SQ`.
pub proof fn lemma_sum_squares_bounds(s: Seq<i32>)
    requires
        valid_samples(s),
    ensures
        0 <= sum_squares(s),
        sum_squares(s) <= s.len() * 100_000_000,
    decreases s.len(),
{
    if s.len() == 0 {
    } else {
        assert(valid_samples(s.drop_last()));
        lemma_sum_squares_bounds(s.drop_last());
        let x = s.last();
        assert(0 <= x * x <= 100_000_000) by (nonlinear_arith)
            requires
                -10000 <= x <= 10000,
        {
        }
        assert((s.len() - 1) * 100_000_000 + 100_000_000 == s.len() * 100_000_000)
            by (nonlinear_arith);
    }
}

/// A frame's energy never exceeds full scale.
pub proof fn lemma_frame_energy_bound(s: Seq<i32>)
    requires
        valid_samples(s),
    ensures
        0 <= frame_energy(s) <= 10000,
{
    if s.len() > 0 {
        lemma_sum_squares_bounds(s);
        let mean = sum_squares(s) / s.len() as int;
        assert(0 <= mean <= 100_000_000) by (nonlinear_arith)
            requires
                0 <= sum_squares(s),
                sum_squares(s) <= s.len() * 100_000_000,
                s.len() >= 1,
                mean == sum_squares(s) / s.len() as int,
        {
        }
        lemma_sqrt_floor_le(mean as nat, 10000);
    }
}

/// RMS energy of a frame, computed exactly as `frame_energy` states it.
pub fn frame_rms(data: &Vec<i32>) -> (r: u32)
    requires
        valid_samples(data@),
    ensures
        r == frame_energy(data@),
        r <= 10000,
{
    if data.len() == 0 {
        return 0;
    }
    let n = data.len();
    let mut sum: u128 = 0;
    let mut i: usize = 0;
    while i < n
        invariant
            valid_samples(data@),
            n == data.len(),
            i <= n,
            sum == sum_squares(data@.take(i as int)),
            sum <= (i as int) * 100_000_000,
        decreases n - i,
    {
        let s = data[i];
        proof {
            assert(0 <= (s as int) * (s as int) <= 100_000_000) by (nonlinear_arith)
                requires
                    -10000 <= s as int <= 10000,
            {
            }
            assert(data@.take(i + 1).drop_last() =~= data@.take(i as int));
            assert(data@.take(i + 1).last() == s);
        }
        let sq: i64 = (s as i64) * (s as i64);
        sum = sum + (sq as u128);
        i = i + 1;
    }
    proof {
        assert(data@.take(n as int) =~= data@);
        lemma_sum_squares_bounds(data@);
    }
    let mean: u128 = sum / (n as u128);
    proof {
        assert(mean <= 100_000_000) by (nonlinear_arith)
            requires
                sum <= (n as int) * 100_000_000,
                n >= 1,
                mean == sum / (n as u128),
        {
        }
        lemma_sqrt_floor_le(mean as nat, 10000);
    }
    let r = isqrt(mean as u64);
    r as u32
}

/// Copies a block of samples.
pub fn clone_samples(data: &Vec<i32>) -> (r: Vec<i32>)
    ensures
        r@ == data@,
{
    let mut out: Vec<i32> = Vec::new();
    let mut i: usize = 0;
    while i < data.len()
        invariant
            i <= data@.len(),
            out@ =~= data@.take(i as int),
        decreases data@.len() - i,
    {
        let v = data[i];
        out.push(v);
        i = i + 1;
    }
    proof {
        assert(data@.take(data@.len() as int) =~= data@);
    }
    out
}

/// One fixed-point PCM-16 code for a valid sample, truncating toward zero.
pub open spec fn pcm16_of(s: int) -> int {
    if s >= 0 {
        (s * 32767) / 10000
    } else {
        -(((-s) * 32767) / 10000)
    }
}

/// One valid sample for a PCM-16 code, truncating toward zero.
pub open spec fn sample_of_pcm16(p: int) -> int {
    if p >= 0 {
        (p * 10000) / 32768
    } else {
        -(((-p) * 10000) / 32768)
    }
}

/// Normalizes one signed 16-bit PCM sample onto the fixed-point grid
/// (the hardware format scaled by `1/32768`).
pub fn pcm16_to_sample(p: i16) -> (r: i32)
    ensures
        r == sample_of_pcm16(p as int),
        valid_sample(r),
{
    let q: i32 = p as i32;
    if q >= 0 {
        (q * 10000) / 32768
    } else {
        -(((-q) * 10000) / 32768)
    }
}

/// Normalizes one unsigned 16-bit PCM sample: centered on 32768, then
/// scaled as the signed format is.
pub fn u16_to_sample(p: u16) -> (r: i32)
    ensures
        r == sample_of_pcm16(p as int - 32768),
        valid_sample(r),
{
    let q: i32 = (p as i32) - 32768;
    if q >= 0 {
        (q * 10000) / 32768
    } else {
        -(((-q) * 10000) / 32768)
    }
}

/// Capture configuration; durations are in milliseconds.
#[derive(Debug, Clone)]
pub struct AudioConfig {
    /// Sample rate in Hz.
    pub sample_rate: u32,
    /// Channel count; the pipeline forces mono.
    pub channels: u16,
    /// Samples handed over per hardware callback.
    pub buffer_size: usize,
    /// Length of the rolling sample window, in milliseconds.
    pub buffer_duration_ms: u64,
    /// Detector threshold on the fixed-point grid (10 000 = 1.0).
    pub vad_threshold: u32,
    /// Detector frame length in milliseconds.
    pub vad_frame_size_ms: u64,
}

impl Default for AudioConfig {
    /// The stock configuration: 16 kHz mono, 10 ms callbacks, a 30 s
    /// window, and a detector threshold of 0.5.
    fn default() -> (c: AudioConfig)
        ensures
            c.sample_rate == 16000,
            c.channels == 1,
            c.buffer_size == 160,
            c.buffer_duration_ms == 30000,
            c.vad_threshold == 5000,
            c.vad_frame_size_ms == 10,
    {
        AudioConfig {
            sample_rate: 16000,
            channels: 1,
            buffer_size: 160,
            buffer_duration_ms: 30000,
            vad_threshold: 5000,
            vad_frame_size_ms: 10,
        }
    }
}

/// One input device, as the platform audio layer reports it.
#[derive(Debug, Clone)]
pub struct AudioDevice {
    pub name: String,
    pub is_default: bool,
    pub channels: u16,
    pub sample_rate: u32,
}

/// One block of normalized samples with its per-frame annotations.
#[derive(Debug, Clone)]
pub struct AudioFrame {
    /// Normalized samples on the fixed-point grid.
    pub data: Vec<i32>,
    /// Capture timestamp in microseconds, as the caller measured it.
    pub timestamp_micros: u64,
    /// Sample rate of this frame.
    pub sample_rate: u32,
    /// RMS energy of the frame (fixed-point grid).
    pub energy_level: u32,
    /// Whether the detector classified this frame as speech.
    pub is_speech: bool,
}

impl AudioFrame {
    /// Computes and stores the frame's RMS energy.
    pub fn calculate_energy(&mut self)
        requires
            valid_samples(old(self).data@),
        ensures
            final(self).energy_level == frame_energy(old(self).data@),
            final(self).energy_level <= 10000,
            final(self).data == old(self).data,
            final(self).timestamp_micros == old(self).timestamp_micros,
            final(self).sample_rate == old(self).sample_rate,
            final(self).is_speech == old(self).is_speech,
    {
        self.energy_level = frame_rms(&self.data);
    }

    /// Converts the frame to signed 16-bit PCM codes.
    pub fn to_pcm16(&self) -> (r: Vec<i16>)
        requires
            valid_samples(self.data@),
        ensures
            r@.len() == self.data@.len(),
            forall|i: int| 0 <= i < r@.len() ==> r@[i] == pcm16_of(#[trigger] self.data@[i] as int),
    {
        let mut out: Vec<i16> = Vec::new();
        let mut i: usize = 0;
        while i < self.data.len()
            invariant
                valid_samples(self.data@),
                i <= self.data@.len(),
                out@.len() == i,
                forall|j: int| 0 <= j < i ==> out@[j] == pcm16_of(#[trigger] self.data@[j] as int),
            decreases self.data@.len() - i,
        {
            let s = self.data[i];
            let v: i32 = if s >= 0 {
                (s * 32767) / 10000
            } else {
                -(((-s) * 32767) / 10000)
            };
            out.push(v as i16);
            i = i + 1;
        }
        out
    }
}

/// Telemetry published by the capture orchestrator.
#[derive(Debug, Clone, Copy)]
pub struct AudioStats {
    /// Level of the most recent frame (fixed-point grid).
    pub current_level: u32,
    /// Highest level seen in the session.
    pub peak_level: u32,
    /// Reserved rolling average level.
    pub average_level: u32,
    /// Frames that completed the pipeline.
    pub frames_processed: u64,
    /// Frames whose buffer write was counted as dropped.
    pub frames_dropped: u64,
    /// Reserved buffer usage percentage.
    pub buffer_usage: u32,
    /// Latency of the last processed frame, in microseconds, as the
    /// caller measured it.
    pub processing_latency_us: u64,
    /// Reserved speech-detection rate.
    pub speech_detection_rate: u32,
}

/// All statistics fields are zero.
pub open spec fn stats_zeroed(s: AudioStats) -> bool {
    &&& s.current_level == 0
    &&& s.peak_level == 0
    &&& s.average_level == 0
    &&& s.frames_processed == 0
    &&& s.frames_dropped == 0
    &&& s.buffer_usage == 0
    &&& s.processing_latency_us == 0
    &&& s.speech_detection_rate == 0
}

impl Default for AudioStats {
    fn default() -> (s: AudioStats)
        ensures
            stats_zeroed(s),
            s.current_level == 0,
            s.peak_level == 0,
            s.average_level == 0,
            s.frames_processed == 0,
            s.frames_dropped == 0,
            s.buffer_usage == 0,
            s.processing_latency_us == 0,
            s.speech_detection_rate == 0,
    {
        AudioStats {
            current_level: 0,
            peak_level: 0,
            average_level: 0,
            frames_processed: 0,
            frames_dropped: 0,
            buffer_usage: 0,
            processing_latency_us: 0,
            speech_detection_rate: 0,
        }
    }
}

/// Lifecycle of the capture orchestrator.
#[derive(Debug, Clone, Copy, PartialEq, Eq, Structural)]
pub enum CaptureState {
    Stopped,
    Starting,
    Recording,
    Processing,
    Error,
}

/// Per-frame report of the voice-activity detector.
#[derive(Debug, Clone)]
pub struct VADResult {
    pub is_speech: bool,
    /// Confidence on the fixed-point grid (10 000 = certain).
    pub confidence: u32,
    /// Smoothed energy that the classification compared against the threshold.
    pub energy_level: u32,
    /// Reserved processing-time report.
    pub processing_time_us: u64,
}

} // verus!
