//! Speech-to-text configuration, results, statistics, and the audio
//! assessment behind the engine's placeholder transcripts.

use vstd::prelude::*;

use crate::audio_types::valid_samples;

verus! {

/// Available model sizes.
#[derive(Debug, Clone, Copy, PartialEq, Eq, Structural)]
pub enum WhisperModelSize {
    /// ~39 MB, fastest.
    Tiny,
    /// ~74 MB, good balance.
    Base,
    /// ~244 MB, better accuracy.
    Small,
    /// ~769 MB, high accuracy.
    Medium,
    /// ~1550 MB, highest accuracy.
    Large,
}

impl WhisperModelSize {
    /// The size's short name.
    pub fn as_str(&self) -> (r: &'static str)
        ensures
            self is Tiny ==> r@ == "tiny"@,
            self is Base ==> r@ == "base"@,
            self is Small ==> r@ == "small"@,
            self is Medium ==> r@ == "medium"@,
            self is Large ==> r@ == "large"@,
    {
        match self {
            WhisperModelSize::Tiny => "tiny",
            WhisperModelSize::Base => "base",
            WhisperModelSize::Small => "small",
            WhisperModelSize::Medium => "medium",
            WhisperModelSize::Large => "large",
        }
    }

    /// The file name the model ships under.
    pub fn model_filename(&self) -> (r: String)
        ensures
            self is Tiny ==> r@ == "ggml-tiny.bin"@,
            self is Base ==> r@ == "ggml-base.bin"@,
            self is Small ==> r@ == "ggml-small.bin"@,
            self is Medium ==> r@ == "ggml-medium.bin"@,
            self is Large ==> r@ == "ggml-large.bin"@,
    {
        match self {
            WhisperModelSize::Tiny => String::from_str("ggml-tiny.bin"),
            WhisperModelSize::Base => String::from_str("ggml-base.bin"),
            WhisperModelSize::Small => String::from_str("ggml-small.bin"),
            WhisperModelSize::Medium => String::from_str("ggml-medium.bin"),
            WhisperModelSize::Large => String::from_str("ggml-large.bin"),
        }
    }

    /// Rough processing speed as a multiple of real time.
    pub fn speed_multiplier(&self) -> (r: u32)
        ensures
            self is Tiny ==> r == 32,
            self is Base ==> r == 16,
            self is Small ==> r == 6,
            self is Medium ==> r == 3,
            self is Large ==> r == 1,
    {
        match self {
            WhisperModelSize::Tiny => 32,
            WhisperModelSize::Base => 16,
            WhisperModelSize::Small => 6,
            WhisperModelSize::Medium => 3,
            WhisperModelSize::Large => 1,
        }
    }

    /// Estimated resident memory of the loaded model, in whole megabytes.
    pub fn memory_estimate_mb(&self) -> (r: u32)
        ensures
            self is Tiny ==> r == 39,
            self is Base ==> r == 74,
            self is Small ==> r == 244,
            self is Medium ==> r == 769,
            self is Large ==> r == 1550,
    {
        match self {
            WhisperModelSize::Tiny => 39,
            WhisperModelSize::Base => 74,
            WhisperModelSize::Small => 244,
            WhisperModelSize::Medium => 769,
            WhisperModelSize::Large => 1550,
        }
    }
}

/// Engine configuration. The sampling temperature is in thousandths
/// (0 = deterministic).
#[derive(Debug, Clone)]
pub struct STTConfig {
    pub model_size: WhisperModelSize,
    /// Language code, or "auto" for detection.
    pub language: String,
    pub enable_punctuation: bool,
    /// Longest audio accepted, in seconds.
    pub max_duration: u32,
    /// Sampling temperature in thousandths.
    pub temperature: u32,
    pub beam_size: usize,
}

impl Default for STTConfig {
    /// The stock configuration: the base model, auto-detected language,
    /// punctuation on, 30 s maximum, deterministic sampling, beam 5.
    fn default() -> (c: STTConfig)
        ensures
            c.model_size is Base,
            c.language@ == "auto"@,
            c.enable_punctuation,
            c.max_duration == 30,
            c.temperature == 0,
            c.beam_size == 5,
    {
        STTConfig {
            model_size: WhisperModelSize::Base,
            language: String::from_str("auto"),
            enable_punctuation: true,
            max_duration: 30,
            temperature: 0,
            beam_size: 5,
        }
    }
}

/// One transcription. Confidences are on the fixed-point grid
/// (10 000 = certain).
#[derive(Debug, Clone)]
pub struct TranscriptionResult {
    pub text: String,
    pub confidence: u32,
    pub processing_time_ms: u64,
    pub detected_language: Option<String>,
    pub segments: Vec<TranscriptionSegment>,
    pub audio_duration_ms: u64,
}

/// One timed segment of a transcription.
#[derive(Debug, Clone)]
pub struct TranscriptionSegment {
    pub start_ms: u64,
    pub end_ms: u64,
    pub text: String,
    pub confidence: u32,
}

/// Engine statistics.
#[derive(Debug, Clone)]
pub struct STTStats {
    pub total_transcriptions: u64,
    /// Moving average, held exactly as
    /// `(avg * (n - 1) + t) / n` per recording.
    pub avg_processing_time_ms: u64,
    pub min_processing_time_ms: u64,
    pub max_processing_time_ms: u64,
    pub current_model: WhisperModelSize,
    pub model_load_time_ms: u64,
    /// Estimated model memory in whole megabytes.
    pub memory_usage_mb: u32,
}

impl STTStats {
    /// Folds one transcription's processing time into the counters:
    /// count, minimum, maximum and the integer moving average.
    pub fn record(&mut self, processing_time_ms: u64)
        requires
            old(self).total_transcriptions < 0xFFFF_FFFF_FFFF_FFFF,
        ensures
            final(self).total_transcriptions == old(self).total_transcriptions + 1,
            final(self).min_processing_time_ms == if processing_time_ms < old(
                self,
            ).min_processing_time_ms {
                processing_time_ms
            } else {
                old(self).min_processing_time_ms
            },
            final(self).max_processing_time_ms == if processing_time_ms > old(
                self,
            ).max_processing_time_ms {
                processing_time_ms
            } else {
                old(self).max_processing_time_ms
            },
            final(self).avg_processing_time_ms as int == (old(self).avg_processing_time_ms as int
                * (old(self).total_transcriptions as int) + processing_time_ms as int) / (old(
                self,
            ).total_transcriptions as int + 1),
            final(self).current_model == old(self).current_model,
            final(self).model_load_time_ms == old(self).model_load_time_ms,
            final(self).memory_usage_mb == old(self).memory_usage_mb,
    {
        let prior = self.total_transcriptions;
        self.total_transcriptions = prior + 1;
        if processing_time_ms < self.min_processing_time_ms {
            self.min_processing_time_ms = processing_time_ms;
        }
        if processing_time_ms > self.max_processing_time_ms {
            self.max_processing_time_ms = processing_time_ms;
        }
        proof {
            assert((self.avg_processing_time_ms as int) * (prior as int) <= 0xFFFF_FFFF_FFFF_FFFF
                * 0xFFFF_FFFF_FFFF_FFFF) by (nonlinear_arith)
                requires
                    0 <= self.avg_processing_time_ms <= 0xFFFF_FFFF_FFFF_FFFF,
                    0 <= prior <= 0xFFFF_FFFF_FFFF_FFFF,
            {
            }
            assert((self.avg_processing_time_ms as int) * (prior as int) + (
            processing_time_ms as int) <= ((prior as int) + 1) * 0xFFFF_FFFF_FFFF_FFFF)
                by (nonlinear_arith)
                requires
                    0 <= self.avg_processing_time_ms <= 0xFFFF_FFFF_FFFF_FFFF,
                    0 <= processing_time_ms <= 0xFFFF_FFFF_FFFF_FFFF,
                    0 <= prior,
            {
            }
        }
        let total: u128 = (self.avg_processing_time_ms as u128) * (prior as u128)
            + (processing_time_ms as u128);
        let n: u128 = (prior as u128) + 1;
        proof {
            crate::math::lemma_div_bound(
                (self.avg_processing_time_ms as int) * (prior as int) + (processing_time_ms as int),
                (prior as int) + 1,
                0xFFFF_FFFF_FFFF_FFFF,
            );
            assert((self.avg_processing_time_ms as int) * (prior as int) <= ((prior as int) + 1)
                * 0xFFFF_FFFF_FFFF_FFFF - processing_time_ms) by (nonlinear_arith)
                requires
                    0 <= self.avg_processing_time_ms <= 0xFFFF_FFFF_FFFF_FFFF,
                    0 <= processing_time_ms <= 0xFFFF_FFFF_FFFF_FFFF,
                    0 <= prior,
            {
            }
        }
        self.avg_processing_time_ms = (total / n) as u64;
    }
}

/// What a block of audio looks like to the placeholder transcriber.
#[derive(Debug, Clone, Copy, PartialEq, Eq, Structural)]
pub enum AudioAssessment {
    /// Mean absolute amplitude below 0.01 of full scale.
    Silence,
    /// Mean absolute amplitude below 0.05 of full scale.
    Inaudible,
    /// Audible but shorter than one second.
    Brief,
    /// Audible and at least one second long.
    Voiced { duration_ms: u64, avg_energy: u32 },
}

/// Sum of absolute sample values.
pub open spec fn sum_abs(s: Seq<i32>) -> int
    decreases s.len(),
{
    if s.len() == 0 {
        0
    } else {
        sum_abs(s.drop_last()) + if s.last() >= 0 {
            s.last() as int
        } else {
            -(s.last() as int)
        }
    }
}

/// The assessment of a sample block: its mean absolute amplitude against
/// the silence and audibility cut-offs, then its length against one
/// second.
pub open spec fn assessment_of(s: Seq<i32>, duration_ms: int) -> AudioAssessment {
    let avg = sum_abs(s) / s.len() as int;
    if avg < 100 {
        AudioAssessment::Silence
    } else if avg < 500 {
        AudioAssessment::Inaudible
    } else if duration_ms < 1000 {
        AudioAssessment::Brief
    } else {
        AudioAssessment::Voiced { duration_ms: duration_ms as u64, avg_energy: avg as u32 }
    }
}

/// Assesses a sample block for the placeholder transcriber.
/// `duration_ms` is the block's length in milliseconds as the caller
/// computed it from its sample rate.
pub fn assess_audio(samples: &Vec<i32>, duration_ms: u64) -> (r: AudioAssessment)
    requires
        valid_samples(samples@),
        samples@.len() > 0,
    ensures
        r == assessment_of(samples@, duration_ms as int),
{
    let n = samples.len();
    let mut sum: u128 = 0;
    let mut i: usize = 0;
    while i < n
        invariant
            valid_samples(samples@),
            n == samples@.len(),
            i <= n,
            sum == sum_abs(samples@.take(i as int)),
            sum <= (i as int) * 10000,
        decreases n - i,
    {
        proof {
            assert(samples@.take(i + 1).drop_last() =~= samples@.take(i as int));
            assert(samples@.take(i + 1).last() == samples@[i as int]);
        }
        let s = samples[i];
        let a: u128 = if s >= 0 {
            s as u128
        } else {
            (-(s as i64)) as u128
        };
        sum = sum + a;
        i = i + 1;
    }
    proof {
        assert(samples@.take(n as int) =~= samples@);
        crate::math::lemma_div_bound(sum_abs(samples@), n as int, 10000);
    }
    let avg: u128 = sum / (n as u128);
    if avg < 100 {
        AudioAssessment::Silence
    } else if avg < 500 {
        AudioAssessment::Inaudible
    } else if duration_ms < 1000 {
        AudioAssessment::Brief
    } else {
        AudioAssessment::Voiced { duration_ms, avg_energy: avg as u32 }
    }
}

/// The fixed placeholder text for an assessment, where one exists; a
/// voiced block's text carries its numbers and is composed by the caller.
pub fn assessment_fixed_text(a: &AudioAssessment) -> (r: Option<String>)
    ensures
        a is Silence ==> r is Some && r->0@ == "[silence]"@,
        a is Inaudible ==> r is Some && r->0@ == "[inaudible audio detected]"@,
        a is Brief ==> r is Some && r->0@
            == "[brief audio - transcript unavailable without a model]"@,
        a is Voiced ==> r is None,
    {
    match a {
        AudioAssessment::Silence => Some(String::from_str("[silence]")),
        AudioAssessment::Inaudible => Some(String::from_str("[inaudible audio detected]")),
        AudioAssessment::Brief => Some(
            String::from_str("[brief audio - transcript unavailable without a model]"),
        ),
        AudioAssessment::Voiced { .. } => None,
    }
}

} // verus!
