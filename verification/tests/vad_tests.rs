use vocatype::audio_types::frame_rms;
use vocatype::error::AudioError;
use vocatype::vad::{VADEnvironment, VoiceActivityDetector};

fn detector() -> VoiceActivityDetector {
    // 16 kHz, threshold 0.5 of full scale, 10 ms frames.
    VoiceActivityDetector::new(16000, 5000, 10).unwrap()
}

#[test]
fn new_rejects_zero_frame() {
    let r = VoiceActivityDetector::new(16000, 5000, 0);
    assert!(matches!(r, Err(AudioError::VADError(_))));
    let r = VoiceActivityDetector::new(0, 5000, 10);
    assert!(matches!(r, Err(AudioError::VADError(_))));
}

#[test]
fn energy_formula_exact() {
    // RMS of [0.6, 0.8] is sqrt((0.36 + 0.64) / 2) = sqrt(0.5);
    // on the fixed-point grid: floor(sqrt(50_000_000)) = 7071.
    assert_eq!(frame_rms(&vec![6000, 8000]), 7071);
    // A constant frame's RMS is its amplitude.
    assert_eq!(frame_rms(&vec![10000; 160]), 10000);
    assert_eq!(frame_rms(&vec![-10000; 160]), 10000);
    assert_eq!(frame_rms(&vec![0; 160]), 0);
    assert_eq!(frame_rms(&vec![]), 0);
}

#[test]
fn empty_frame_is_silent_and_changes_nothing() {
    let mut d = detector();
    let r = d.process_frame(&vec![]).unwrap();
    assert!(!r.is_speech);
    assert_eq!(r.confidence, 0);
    assert_eq!(r.energy_level, 0);
    assert_eq!(d.get_stats().total_frames, 0);
}

#[test]
fn silence_invariant_all_zero_frames() {
    // All-zero frames never classify as speech, whatever the threshold.
    for threshold in [0u32, 100, 5000, 10000] {
        let mut d = VoiceActivityDetector::new(16000, threshold, 10).unwrap();
        for _ in 0..20 {
            let r = d.process_frame(&vec![0; 160]).unwrap();
            assert!(!r.is_speech);
            assert_eq!(r.confidence, 0);
        }
        assert!(!d.get_stats().is_speech);
    }
}

#[test]
fn hysteresis_activation_needs_two_frames() {
    let mut d = detector();
    let loud = vec![10000; 160];
    // One qualifying frame must not trigger activation, and while the
    // state is silence the reported confidence is zero.
    let r1 = d.process_frame(&loud).unwrap();
    assert!(!r1.is_speech);
    assert_eq!(r1.energy_level, 10000);
    assert_eq!(r1.confidence, 0);
    // The second consecutive qualifying frame does.
    let r2 = d.process_frame(&loud).unwrap();
    assert!(r2.is_speech);
    assert_eq!(r2.confidence, 10000);
}

#[test]
fn hysteresis_release_needs_min_silence_frames() {
    let mut d = detector();
    let loud = vec![10000; 160];
    let quiet = vec![0; 160];
    d.process_frame(&loud).unwrap();
    assert!(d.process_frame(&loud).unwrap().is_speech);
    // Smoothing keeps the detector in speech for a while; the raw
    // classification turns silent once the smoothed energy falls to the
    // threshold, and release then takes min_silence_frames (3) raw
    // silent frames.
    assert!(d.process_frame(&quiet).unwrap().is_speech);  // smoothed 6666
    assert!(d.process_frame(&quiet).unwrap().is_speech);  // smoothed 5000, 1st silent
    assert!(d.process_frame(&quiet).unwrap().is_speech);  // smoothed 4000, 2nd silent
    let released = d.process_frame(&quiet).unwrap();  // smoothed 2000, 3rd silent
    assert!(!released.is_speech);
}

#[test]
fn confidence_is_margin_once_in_speech() {
    let mut d = detector();
    // First frame of amplitude 0.6 exceeds the dynamic threshold, but
    // hysteresis has not yet switched the state: confidence stays 0.
    let r = d.process_frame(&vec![6000; 160]).unwrap();
    assert_eq!(r.energy_level, 6000);
    assert!(!r.is_speech);
    assert_eq!(r.confidence, 0);
    // Second frame switches to speech; confidence is the clamped margin
    // over the dynamic threshold: (6000 - 5000) * 10000 / 5000 = 2000.
    let r = d.process_frame(&vec![6000; 160]).unwrap();
    assert!(r.is_speech);
    assert_eq!(r.confidence, 2000);
}

#[test]
fn stats_track_counters_and_ratio() {
    let mut d = detector();
    let loud = vec![10000; 160];
    for _ in 0..4 {
        d.process_frame(&loud).unwrap();
    }
    let s = d.get_stats();
    assert_eq!(s.total_frames, 4);
    // Speech from the second frame on.
    assert_eq!(s.speech_frames, 3);
    assert_eq!(s.speech_ratio, 7500);
    assert!(s.is_speech);
    assert_eq!(s.current_threshold, 5000);
    assert_eq!(s.avg_processing_time_us, 0);
}

#[test]
fn reset_forces_silent_fresh_state() {
    let mut d = detector();
    let loud = vec![10000; 160];
    d.process_frame(&loud).unwrap();
    d.process_frame(&loud).unwrap();
    d.reset();
    let s = d.get_stats();
    assert_eq!(s.total_frames, 0);
    assert_eq!(s.speech_frames, 0);
    assert!(!s.is_speech);
    assert_eq!(s.current_noise_level, 100);
    // The configured threshold survives a reset.
    assert_eq!(s.current_threshold, 5000);
    // And activation again needs two frames.
    assert!(!d.process_frame(&loud).unwrap().is_speech);
    assert!(d.process_frame(&loud).unwrap().is_speech);
}

#[test]
fn set_sensitivity_clamps_to_full_scale() {
    let mut d = detector();
    d.set_sensitivity(3000);
    assert_eq!(d.get_stats().current_threshold, 3000);
    d.set_sensitivity(20000);
    assert_eq!(d.get_stats().current_threshold, 10000);
}

#[test]
fn environment_presets() {
    let mut d = detector();
    d.configure_for_environment(&VADEnvironment::Quiet);
    assert_eq!(d.get_stats().current_threshold, 3000);
    d.configure_for_environment(&VADEnvironment::Noisy);
    assert_eq!(d.get_stats().current_threshold, 7000);
    d.configure_for_environment(&VADEnvironment::Normal);
    assert_eq!(d.get_stats().current_threshold, 5000);
}

#[test]
fn quiet_preset_activates_on_one_frame() {
    let mut d = detector();
    d.configure_for_environment(&VADEnvironment::Quiet);
    // min_speech_frames is 1: a single qualifying frame activates.
    let r = d.process_frame(&vec![10000; 160]).unwrap();
    assert!(r.is_speech);
}

#[test]
fn noise_floor_adapts_only_outside_speech() {
    let mut d = detector();
    let loud = vec![10000; 160];
    d.process_frame(&loud).unwrap();
    // noise = (100 * 900 + 10000 * 100) / 1000 = 1090
    assert_eq!(d.get_stats().current_noise_level, 1090);
    d.process_frame(&loud).unwrap();
    // noise = (1090 * 900 + 10000 * 100) / 1000 = 1981; speech begins.
    assert_eq!(d.get_stats().current_noise_level, 1981);
    d.process_frame(&loud).unwrap();
    // In speech state the estimate is frozen.
    assert_eq!(d.get_stats().current_noise_level, 1981);
}
