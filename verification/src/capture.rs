//! Capture orchestration: the start/stop state machine, device and
//! stream-format selection, and the fixed per-frame pipeline that feeds
//! the detector and the ring buffer.
//!
//! The platform audio layer itself lives outside this crate; it hands the
//! orchestrator plain device records, stream-format ranges and normalized
//! sample blocks, and is told which device and format to open. Whether
//! the detector or the statistics record could be acquired without
//! blocking on a given cycle is likewise an input here: the caller passes
//! the outcome of its try-acquisition, and the pipeline is verified for
//! both outcomes.

use vstd::prelude::*;

use crate::audio_types::{
    frame_energy, stats_zeroed, valid_samples, AudioConfig, AudioDevice, AudioFrame, AudioStats,
    CaptureState,
};
use crate::buffer::{keep_last, CircularBuffer};
use crate::error::AudioError;
use crate::vad::{next_speech, stepped, VoiceActivityDetector};

verus! {

/// Sample formats a device may deliver.
#[derive(Debug, Clone, Copy, PartialEq, Eq, Structural)]
pub enum SampleFormatKind {
    F32,
    I16,
    U16,
    Other,
}

/// One supported stream configuration range, as the platform audio layer
/// reports it.
#[derive(Debug, Clone)]
pub struct StreamConfigRange {
    pub channels: u16,
    pub min_sample_rate: u32,
    pub max_sample_rate: u32,
    pub format: SampleFormatKind,
}

/// The stream configuration the orchestrator asks the platform layer to
/// open: always mono, at the configured rate and callback size.
#[derive(Debug, Clone)]
pub struct StreamSettings {
    pub channels: u16,
    pub sample_rate: u32,
    pub buffer_size: usize,
}

/// The settings a capture requests for its stream: mono is forced, the
/// rate and callback size come from the configuration.
pub fn desired_stream_settings(config: &AudioConfig) -> (r: StreamSettings)
    ensures
        r.channels == 1,
        r.sample_rate == config.sample_rate,
        r.buffer_size == config.buffer_size,
{
    StreamSettings { channels: 1, sample_rate: config.sample_rate, buffer_size: config.buffer_size }
}

/// Whether a configuration range can carry the desired rate on at most
/// two channels.
pub open spec fn range_admits(r: StreamConfigRange, desired: u32) -> bool {
    &&& r.channels <= 2
    &&& r.min_sample_rate <= desired <= r.max_sample_rate
}

/// Picks the first supported configuration range that admits the desired
/// sample rate on at most two channels; `UnsupportedFormat` when none
/// does.
pub fn select_stream_config(ranges: &Vec<StreamConfigRange>, desired: u32) -> (r: Result<
    usize,
    AudioError,
>)
    ensures
        r is Ok ==> {
            let i = r->Ok_0;
            &&& i < ranges@.len()
            &&& range_admits(ranges@[i as int], desired)
            &&& forall|j: int| 0 <= j < i ==> !range_admits(#[trigger] ranges@[j], desired)
        },
        r is Err ==> {
            &&& r->Err_0 is UnsupportedFormat
            &&& forall|j: int|
                0 <= j < ranges@.len() ==> !range_admits(#[trigger] ranges@[j], desired)
        },
{
    let mut i: usize = 0;
    while i < ranges.len()
        invariant
            i <= ranges@.len(),
            forall|j: int| 0 <= j < i ==> !range_admits(#[trigger] ranges@[j], desired),
        decreases ranges@.len() - i,
    {
        let r = &ranges[i];
        if r.channels <= 2 && r.min_sample_rate <= desired && desired <= r.max_sample_rate {
            return Ok(i);
        }
        i = i + 1;
    }
    Err(
        AudioError::UnsupportedFormat {
            details: String::from_str("no supported range covers the configured sample rate"),
        },
    )
}

/// Finds a device by exact name; `DeviceNotFound` when absent. Returns
/// the first match.
pub fn find_device_by_name(devices: &Vec<AudioDevice>, name: &String) -> (r: Result<
    usize,
    AudioError,
>)
    ensures
        r is Ok ==> {
            let i = r->Ok_0;
            &&& i < devices@.len()
            &&& devices@[i as int].name@ == name@
            &&& forall|j: int| 0 <= j < i ==> (#[trigger] devices@[j].name)@ != name@
        },
        r is Err ==> {
            &&& r->Err_0 is DeviceNotFound
            &&& forall|j: int| 0 <= j < devices@.len() ==> (#[trigger] devices@[j].name)@ != name@
        },
{
    let mut i: usize = 0;
    while i < devices.len()
        invariant
            i <= devices@.len(),
            forall|j: int| 0 <= j < i ==> (#[trigger] devices@[j].name)@ != name@,
        decreases devices@.len() - i,
    {
        if devices[i].name == *name {
            return Ok(i);
        }
        i = i + 1;
    }
    Err(AudioError::DeviceNotFound { device_name: name.clone() })
}

/// Resolves the device a capture should open: the first one matching the
/// requested name when one is given, otherwise the default device;
/// `NoInputDevice` when no name is given and no default exists.
pub fn select_device(
    devices: &Vec<AudioDevice>,
    name: &Option<String>,
    default_index: &Option<usize>,
) -> (r: Result<usize, AudioError>)
    ensures
        name is Some ==> {
            &&& r is Ok ==> {
                let i = r->Ok_0;
                &&& i < devices@.len()
                &&& devices@[i as int].name@ == name->0@
                &&& forall|j: int| 0 <= j < i ==> (#[trigger] devices@[j].name)@ != name->0@
            }
            &&& r is Err ==> r->Err_0 is DeviceNotFound && forall|j: int|
                0 <= j < devices@.len() ==> (#[trigger] devices@[j].name)@ != name->0@
        },
        name is None && default_index is Some ==> r is Ok && r->Ok_0 == default_index->0,
        name is None && default_index is None ==> r is Err && r->Err_0 is NoInputDevice,
{
    match name {
        Option::Some(n) => find_device_by_name(devices, n),
        Option::None => {
            match default_index {
                Option::Some(i) => Ok(*i),
                Option::None => Err(AudioError::NoInputDevice),
            }
        },
    }
}

/// Whether a range is usable for capture at all: at most two channels.
pub open spec fn usable_range(r: StreamConfigRange) -> bool {
    r.channels <= 2
}

/// Picks the best advertised configuration for a device: among the
/// usable ranges, the one with the highest maximum sample rate, the last
/// such range when several tie. `None` when no range is usable.
pub fn choose_best_config(ranges: &Vec<StreamConfigRange>) -> (r: Option<usize>)
    ensures
        r is None <==> (forall|j: int| 0 <= j < ranges@.len() ==> !usable_range(
            #[trigger] ranges@[j],
        )),
        r is Some ==> {
            let i = r->0;
            &&& i < ranges@.len()
            &&& usable_range(ranges@[i as int])
            &&& forall|j: int|
                0 <= j < ranges@.len() && usable_range(#[trigger] ranges@[j])
                    ==> ranges@[j].max_sample_rate <= ranges@[i as int].max_sample_rate
            &&& forall|j: int|
                i < j < ranges@.len() && usable_range(#[trigger] ranges@[j])
                    ==> ranges@[j].max_sample_rate < ranges@[i as int].max_sample_rate
        },
{
    let mut best: Option<usize> = Option::None;
    let mut i: usize = 0;
    while i < ranges.len()
        invariant
            i <= ranges@.len(),
            best is None <==> (forall|j: int| 0 <= j < i ==> !usable_range(#[trigger] ranges@[j])),
            best is Some ==> {
                let b = best->0;
                &&& b < i
                &&& usable_range(ranges@[b as int])
                &&& forall|j: int|
                    0 <= j < i && usable_range(#[trigger] ranges@[j]) ==> ranges@[j].max_sample_rate
                        <= ranges@[b as int].max_sample_rate
                &&& forall|j: int|
                    b < j < i && usable_range(#[trigger] ranges@[j]) ==> ranges@[j].max_sample_rate
                        < ranges@[b as int].max_sample_rate
            },
        decreases ranges@.len() - i,
    {
        if ranges[i].channels <= 2 {
            best = match best {
                Option::None => Option::Some(i),
                Option::Some(b) => {
                    if ranges[i].max_sample_rate >= ranges[b].max_sample_rate {
                        Option::Some(i)
                    } else {
                        Option::Some(b)
                    }
                },
            };
        }
        i = i + 1;
    }
    best
}

/// Smaller of two integers.
pub open spec fn min2(a: int, b: int) -> int {
    if a <= b {
        a
    } else {
        b
    }
}

/// Distance between two integers.
pub open spec fn abs_diff(a: int, b: int) -> int {
    if a >= b {
        a - b
    } else {
        b - a
    }
}

/// The rate and channel profile reported for a device: a scan of its
/// ranges that settles on 16 kHz at the first range covering it, and
/// otherwise keeps the minimum rate closest to 16 kHz, starting from a
/// 44.1 kHz mono fallback.
pub open spec fn scan_profile(rs: Seq<StreamConfigRange>, rate: int, ch: int) -> (int, int)
    decreases rs.len(),
{
    if rs.len() == 0 {
        (rate, ch)
    } else {
        let r0 = rs.first();
        if r0.min_sample_rate <= 16000 && 16000 <= r0.max_sample_rate {
            (16000, min2(r0.channels as int, 2))
        } else if abs_diff(r0.min_sample_rate as int, 16000) < abs_diff(rate, 16000) {
            scan_profile(rs.drop_first(), r0.min_sample_rate as int, min2(r0.channels as int, 2))
        } else {
            scan_profile(rs.drop_first(), rate, ch)
        }
    }
}

/// Scans a device's configuration ranges for the profile to report.
pub fn best_device_profile(ranges: &Vec<StreamConfigRange>) -> (r: (u32, u16))
    ensures
        (r.0 as int, r.1 as int) == scan_profile(ranges@, 44100, 1),
{
    let mut best_rate: u32 = 44100;
    let mut best_channels: u16 = 1;
    let mut i: usize = 0;
    proof {
        assert(ranges@.skip(0) =~= ranges@);
    }
    while i < ranges.len()
        invariant
            i <= ranges@.len(),
            scan_profile(ranges@, 44100, 1) == scan_profile(
                ranges@.skip(i as int),
                best_rate as int,
                best_channels as int,
            ),
            best_channels <= 2 || (best_rate == 44100 && best_channels == 1),
        decreases ranges@.len() - i,
    {
        proof {
            assert(ranges@.skip(i as int).first() == ranges@[i as int]);
            assert(ranges@.skip(i as int).drop_first() =~= ranges@.skip(i + 1));
        }
        let r = &ranges[i];
        let ch: u16 = if r.channels <= 2 {
            r.channels
        } else {
            2
        };
        if r.min_sample_rate <= 16000 && 16000 <= r.max_sample_rate {
            proof {
                assert(scan_profile(ranges@.skip(i as int), best_rate as int, best_channels as int)
                    == (16000int, min2(r.channels as int, 2)));
            }
            return (16000, ch);
        }
        let here: i64 = if r.min_sample_rate as i64 >= 16000 {
            r.min_sample_rate as i64 - 16000
        } else {
            16000 - r.min_sample_rate as i64
        };
        let there: i64 = if best_rate as i64 >= 16000 {
            best_rate as i64 - 16000
        } else {
            16000 - best_rate as i64
        };
        if here < there {
            best_rate = r.min_sample_rate;
            best_channels = ch;
        }
        i = i + 1;
    }
    proof {
        assert(ranges@.skip(ranges@.len() as int) =~= Seq::<StreamConfigRange>::empty());
    }
    (best_rate, best_channels)
}

/// What one pipeline pass hands back for the caller's listener
/// notifications.
#[derive(Debug, Clone)]
pub struct FrameOutcome {
    /// RMS energy of the frame, for the level listener.
    pub energy_level: u32,
    /// Speech classification, for the speech listener.
    pub is_speech: bool,
    /// Whether the detector was actually consulted this cycle; when it
    /// was contended, `is_speech` keeps its default and no speech
    /// notification is owed.
    pub speech_checked: bool,
}

/// The capture orchestrator: owns the detector, the ring buffer and the
/// statistics record, and runs the per-frame pipeline.
pub struct AudioCapture {
    pub state: CaptureState,
    pub config: AudioConfig,
    pub buffer: CircularBuffer,
    pub vad: VoiceActivityDetector,
    pub stats: AudioStats,
    pub is_recording: bool,
    pub should_stop: bool,
    pub frames_processed: u64,
    pub frames_dropped: u64,
}

impl AudioCapture {
    /// Structural invariant: both components are well formed and share
    /// the configured sample rate.
    pub open spec fn wf(self) -> bool {
        &&& self.buffer.wf()
        &&& self.vad.wf()
        &&& self.buffer.sample_rate == self.config.sample_rate
        &&& self.vad@.sample_rate == self.config.sample_rate as int
        &&& self.stats.frames_processed == self.frames_processed
    }

    /// Builds an orchestrator from a configuration: a rolling buffer over
    /// `buffer_duration_ms` and a detector over `vad_frame_size_ms`
    /// frames. Rejected exactly when either length rounds to zero
    /// samples.
    pub fn new(config: AudioConfig) -> (r: Result<AudioCapture, AudioError>)
        requires
            config.vad_threshold <= 10000,
            (config.sample_rate as int) * (config.buffer_duration_ms as int) / 1000
                <= 0xFFFF_FFFF,
            (config.sample_rate as int) * (config.vad_frame_size_ms as int) / 1000 <= 0xFFFF_FFFF,
        ensures
            r is Err <==> ((config.sample_rate as int) * (config.buffer_duration_ms as int) / 1000
                == 0 || (config.sample_rate as int) * (config.vad_frame_size_ms as int) / 1000
                == 0),
            r is Err ==> (if (config.sample_rate as int) * (config.buffer_duration_ms as int)
                / 1000 == 0 {
                r->Err_0 is CaptureInitFailed
            } else {
                r->Err_0 is VADError
            }),
            r is Ok ==> {
                let c = r->Ok_0;
                &&& c.wf()
                &&& c.state == CaptureState::Stopped
                &&& c.config == config
                &&& c.buffer.capacity as int == (config.sample_rate as int)
                    * (config.buffer_duration_ms as int) / 1000
                &&& c.buffer.stored() =~= Seq::<i32>::empty()
                &&& c.vad@.threshold == config.vad_threshold
                &&& c.vad@.window =~= Seq::<int>::empty()
                &&& c.vad@.history =~= Seq::<bool>::empty()
                &&& !c.vad@.speech
                &&& stats_zeroed(c.stats)
                &&& !c.is_recording
                &&& !c.should_stop
                &&& c.frames_processed == 0
                &&& c.frames_dropped == 0
            },
    {
        let buffer = match CircularBuffer::new(config.sample_rate, config.buffer_duration_ms) {
            Result::Ok(b) => b,
            Result::Err(e) => {
                return Err(e);
            },
        };
        let vad = match VoiceActivityDetector::new(
            config.sample_rate,
            config.vad_threshold,
            config.vad_frame_size_ms,
        ) {
            Result::Ok(v) => v,
            Result::Err(e) => {
                return Err(e);
            },
        };
        Ok(
            AudioCapture {
                state: CaptureState::Stopped,
                config,
                buffer,
                vad,
                stats: AudioStats::default(),
                is_recording: false,
                should_stop: false,
                frames_processed: 0,
                frames_dropped: 0,
            },
        )
    }

    /// One pass of the per-frame pipeline, exactly in the fixed order:
    /// energy, detector (when uncontended), buffer write, statistics
    /// (when uncontended). `vad_available` and `stats_available` report
    /// the caller's non-blocking lock attempts; a contended resource is
    /// skipped for this cycle, never waited on. `timestamp_micros` and
    /// `latency_us` are the caller's clock readings for the frame.
    pub fn process_audio_data(
        &mut self,
        data: &Vec<i32>,
        vad_available: bool,
        stats_available: bool,
        timestamp_micros: u64,
        latency_us: u64,
    ) -> (out: FrameOutcome)
        requires
            old(self).wf(),
            valid_samples(data@),
            old(self).vad@.total < 0xFFFF_FFFF_FFFF_FFFF,
            old(self).frames_processed < 0xFFFF_FFFF_FFFF_FFFF,
        ensures
            final(self).wf(),
            out.energy_level == frame_energy(data@),
            out.speech_checked == vad_available,
            out.is_speech == (vad_available && data@.len() > 0 && next_speech(
                old(self).vad@,
                frame_energy(data@),
            )),
            // Detector: stepped exactly once when consulted with a
            // nonempty frame, untouched otherwise.
            (vad_available && data@.len() > 0) ==> final(self).vad@ == stepped(
                old(self).vad@,
                frame_energy(data@),
            ),
            !(vad_available && data@.len() > 0) ==> final(self).vad == old(self).vad,
            // Buffer: the frame is appended, oldest samples overwritten.
            final(self).buffer.capacity == old(self).buffer.capacity,
            final(self).buffer.sample_rate == old(self).buffer.sample_rate,
            final(self).buffer.stored() == keep_last(
                old(self).buffer.stored() + data@.take(
                    if data@.len() as int <= old(self).buffer.capacity as int {
                        data@.len() as int
                    } else {
                        old(self).buffer.capacity as int
                    },
                ),
                old(self).buffer.capacity as int,
            ),
            // Statistics: level, peak, counter and latency move together
            // when the record is free; nothing moves when it is not.
            stats_available ==> final(self).stats == (AudioStats {
                current_level: out.energy_level,
                peak_level: if out.energy_level > old(self).stats.peak_level {
                    out.energy_level
                } else {
                    old(self).stats.peak_level
                },
                frames_processed: (old(self).stats.frames_processed + 1) as u64,
                processing_latency_us: latency_us,
                ..old(self).stats
            }),
            stats_available ==> final(self).frames_processed == old(self).frames_processed + 1,
            !stats_available ==> final(self).stats == old(self).stats && final(self).frames_processed
                == old(self).frames_processed,
            // Nothing else moves; a buffer write in this model cannot
            // fail, so no frame is counted as dropped.
            final(self).frames_dropped == old(self).frames_dropped,
            final(self).state == old(self).state,
            final(self).config == old(self).config,
            final(self).is_recording == old(self).is_recording,
            final(self).should_stop == old(self).should_stop,
    {
        let mut frame = AudioFrame {
            data: crate::audio_types::clone_samples(data),
            timestamp_micros,
            sample_rate: self.config.sample_rate,
            energy_level: 0,
            is_speech: false,
        };
        frame.calculate_energy();

        // Voice activity detection, skipped when the detector is
        // contended.
        let mut speech = false;
        if vad_available {
            match self.vad.process_frame(&frame.data) {
                Result::Ok(classification) => {
                    frame.is_speech = classification.is_speech;
                    speech = classification.is_speech;
                },
                Result::Err(_) => {
                },
            }
        }

        // Rolling buffer write.
        match self.buffer.write_frame(&frame) {
            Result::Ok(_) => {
            },
            Result::Err(_) => {
                // Unreachable under the buffer's contract; kept as the
                // counting policy for a failed write.
                self.frames_dropped = self.frames_dropped + 1;
            },
        }

        // Statistics, skipped when the record is contended.
        if stats_available {
            self.stats.current_level = frame.energy_level;
            self.frames_processed = self.frames_processed + 1;
            self.stats.frames_processed = self.frames_processed;
            self.stats.processing_latency_us = latency_us;
            if frame.energy_level > self.stats.peak_level {
                self.stats.peak_level = frame.energy_level;
            }
        }

        FrameOutcome {
            energy_level: frame.energy_level,
            is_speech: speech,
            speech_checked: vad_available,
        }
    }

    /// Marks the start of a capture attempt.
    pub fn begin_start(&mut self)
        requires
            old(self).wf(),
        ensures
            final(self).wf(),
            *final(self) == (AudioCapture { state: CaptureState::Starting, ..*old(self) }),
    {
        self.state = CaptureState::Starting;
    }

    /// Marks a successfully opened and playing stream.
    pub fn complete_start(&mut self)
        requires
            old(self).wf(),
        ensures
            final(self).wf(),
            *final(self) == (AudioCapture {
                state: CaptureState::Recording,
                is_recording: true,
                ..*old(self)
            }),
    {
        self.is_recording = true;
        self.state = CaptureState::Recording;
    }

    /// Marks an unrecoverable device or stream failure.
    pub fn mark_error(&mut self)
        requires
            old(self).wf(),
        ensures
            final(self).wf(),
            *final(self) == (AudioCapture {
                state: CaptureState::Error,
                is_recording: false,
                ..*old(self)
            }),
    {
        self.is_recording = false;
        self.state = CaptureState::Error;
    }

    /// Signals stop and marks the capture stopped; the caller drops the
    /// native stream, which halts further callbacks.
    pub fn stop_capture(&mut self) -> (r: Result<(), AudioError>)
        requires
            old(self).wf(),
        ensures
            final(self).wf(),
            r is Ok,
            *final(self) == (AudioCapture {
                state: CaptureState::Stopped,
                is_recording: false,
                should_stop: true,
                ..*old(self)
            }),
    {
        self.should_stop = true;
        self.is_recording = false;
        self.state = CaptureState::Stopped;
        Ok(())
    }

    /// The most recent audio, delegated to the rolling buffer.
    pub fn get_recent_audio(&self, duration_ms: u64) -> (r: Result<Vec<i32>, AudioError>)
        requires
            self.wf(),
        ensures
            r is Ok,
            r->Ok_0@ == self.buffer.recent(duration_ms),
            r->Ok_0@.len() == self.buffer.read_window(duration_ms),
    {
        self.buffer.read_recent(duration_ms)
    }

    /// A copy of the published statistics.
    pub fn get_stats(&self) -> (r: AudioStats)
        ensures
            r == self.stats,
    {
        self.stats.clone()
    }

    /// Whether a capture is running.
    pub fn is_recording(&self) -> (r: bool)
        ensures
            r == self.is_recording,
    {
        self.is_recording
    }

    /// The current lifecycle state.
    pub fn get_state(&self) -> (r: CaptureState)
        ensures
            r == self.state,
    {
        self.state
    }
}

} // verus!
