use vocatype::audio_types::{AudioConfig, AudioDevice, CaptureState};
use vocatype::capture::{
    best_device_profile, choose_best_config, desired_stream_settings, find_device_by_name,
    select_device, select_stream_config, AudioCapture, SampleFormatKind, StreamConfigRange,
};
use vocatype::error::AudioError;

fn device(name: &str, is_default: bool) -> AudioDevice {
    AudioDevice { name: name.to_string(), is_default, channels: 1, sample_rate: 16000 }
}

fn range(channels: u16, min: u32, max: u32) -> StreamConfigRange {
    StreamConfigRange {
        channels,
        min_sample_rate: min,
        max_sample_rate: max,
        format: SampleFormatKind::F32,
    }
}

#[test]
fn capture_new_validates_both_components() {
    let mut config = AudioConfig::default();
    config.buffer_duration_ms = 0;
    assert!(matches!(AudioCapture::new(config), Err(AudioError::CaptureInitFailed(_))));
    let mut config = AudioConfig::default();
    config.vad_frame_size_ms = 0;
    assert!(matches!(AudioCapture::new(config), Err(AudioError::VADError(_))));
    let c = AudioCapture::new(AudioConfig::default()).unwrap();
    assert_eq!(c.get_state(), CaptureState::Stopped);
    assert!(!c.is_recording());
}

#[test]
fn lifecycle_transitions() {
    let mut c = AudioCapture::new(AudioConfig::default()).unwrap();
    c.begin_start();
    assert_eq!(c.get_state(), CaptureState::Starting);
    c.complete_start();
    assert_eq!(c.get_state(), CaptureState::Recording);
    assert!(c.is_recording());
    c.stop_capture().unwrap();
    assert_eq!(c.get_state(), CaptureState::Stopped);
    assert!(!c.is_recording());
    c.begin_start();
    c.mark_error();
    assert_eq!(c.get_state(), CaptureState::Error);
    assert!(!c.is_recording());
}

#[test]
fn pipeline_skips_contended_resources() {
    let mut c = AudioCapture::new(AudioConfig::default()).unwrap();
    let loud = vec![10000i32; 160];
    // Detector contended: no classification, level still reported.
    let out = c.process_audio_data(&loud, false, true, 0, 0);
    assert!(!out.speech_checked);
    assert!(!out.is_speech);
    assert_eq!(out.energy_level, 10000);
    // Statistics contended: the record and counter stay put.
    let before = c.get_stats();
    let out = c.process_audio_data(&loud, true, false, 0, 0);
    assert!(out.speech_checked);
    let after = c.get_stats();
    assert_eq!(before.frames_processed, after.frames_processed);
    assert_eq!(before.current_level, after.current_level);
}

#[test]
fn pipeline_updates_stats_and_peak() {
    let mut c = AudioCapture::new(AudioConfig::default()).unwrap();
    c.process_audio_data(&vec![10000i32; 160], true, true, 7, 42);
    let s = c.get_stats();
    assert_eq!(s.frames_processed, 1);
    assert_eq!(s.current_level, 10000);
    assert_eq!(s.peak_level, 10000);
    assert_eq!(s.processing_latency_us, 42);
    c.process_audio_data(&vec![0i32; 160], true, true, 8, 11);
    let s = c.get_stats();
    assert_eq!(s.frames_processed, 2);
    assert_eq!(s.current_level, 0);
    // The peak survives quieter frames.
    assert_eq!(s.peak_level, 10000);
    assert_eq!(s.frames_dropped, 0);
}

#[test]
fn find_device_prefers_first_match() {
    let devices = vec![device("usb", false), device("built-in", true), device("usb", false)];
    assert_eq!(find_device_by_name(&devices, &"built-in".to_string()).unwrap(), 1);
    assert_eq!(find_device_by_name(&devices, &"usb".to_string()).unwrap(), 0);
    let missing = find_device_by_name(&devices, &"array".to_string());
    assert!(
        matches!(missing, Err(AudioError::DeviceNotFound { device_name }) if device_name == "array")
    );
}

#[test]
fn select_device_by_name_or_default() {
    let devices = vec![device("usb", false), device("built-in", true)];
    assert_eq!(select_device(&devices, &Some("usb".to_string()), &Some(1)).unwrap(), 0);
    assert_eq!(select_device(&devices, &None, &Some(1)).unwrap(), 1);
    assert!(matches!(
        select_device(&devices, &None, &None),
        Err(AudioError::NoInputDevice)
    ));
    assert!(matches!(
        select_device(&devices, &Some("array".to_string()), &Some(1)),
        Err(AudioError::DeviceNotFound { .. })
    ));
}

#[test]
fn stream_config_needs_rate_in_range_and_two_channels() {
    let ranges = vec![range(8, 8000, 48000), range(2, 44100, 48000), range(1, 8000, 48000)];
    // The first range has too many channels, the second misses 16 kHz.
    assert_eq!(select_stream_config(&ranges, 16000).unwrap(), 2);
    let none = select_stream_config(&vec![range(1, 44100, 48000)], 16000);
    assert!(matches!(none, Err(AudioError::UnsupportedFormat { .. })));
}

#[test]
fn best_config_takes_highest_max_rate() {
    let ranges = vec![range(1, 8000, 44100), range(2, 8000, 96000), range(1, 8000, 48000)];
    assert_eq!(choose_best_config(&ranges).unwrap(), 1);
    // Ties go to the later range, as a maximum scan resolves them.
    let ranges = vec![range(1, 8000, 48000), range(2, 8000, 48000)];
    assert_eq!(choose_best_config(&ranges).unwrap(), 1);
    assert!(choose_best_config(&vec![range(8, 8000, 48000)]).is_none());
}

#[test]
fn device_profile_prefers_16k() {
    // A range covering 16 kHz wins immediately.
    let ranges = vec![range(2, 44100, 48000), range(1, 8000, 48000)];
    assert_eq!(best_device_profile(&ranges), (16000, 1));
    // Without coverage the closest minimum rate wins.
    let ranges = vec![range(1, 22050, 44100), range(2, 44100, 48000)];
    assert_eq!(best_device_profile(&ranges), (22050, 1));
    // No ranges at all: the 44.1 kHz mono fallback.
    assert_eq!(best_device_profile(&vec![]), (44100, 1));
}

#[test]
fn stream_settings_force_mono() {
    let config = AudioConfig::default();
    let settings = desired_stream_settings(&config);
    assert_eq!(settings.channels, 1);
    assert_eq!(settings.sample_rate, 16000);
    assert_eq!(settings.buffer_size, 160);
}

#[test]
fn recent_audio_delegates_to_buffer() {
    let mut c = AudioCapture::new(AudioConfig::default()).unwrap();
    c.process_audio_data(&vec![5i32; 160], true, true, 0, 0);
    c.process_audio_data(&vec![6i32; 160], true, true, 0, 0);
    let audio = c.get_recent_audio(10).unwrap();
    assert_eq!(audio.len(), 160);
    assert!(audio.iter().all(|&s| s == 6));
}
