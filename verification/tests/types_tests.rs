use vocatype::ai_types::{AIConfig, AIInstruction, AIStats, TokenUsage};
use vocatype::audio_types::{pcm16_to_sample, u16_to_sample, AudioConfig, AudioFrame, AudioStats};
use vocatype::error::{AppError, AudioError, SystemError};
use vocatype::isqrt;
use vocatype::responses::{
    AICommandResponse, AudioCommandResponse, PerformanceCommandResponse, SystemCommandResponse,
};
use vocatype::stt_types::{
    assess_audio, assessment_fixed_text, AudioAssessment, STTConfig, STTStats, WhisperModelSize,
};
use vocatype::system::{hotkey_label, ClipboardManager};

#[test]
fn isqrt_exact_values() {
    assert_eq!(isqrt(0), 0);
    assert_eq!(isqrt(1), 1);
    assert_eq!(isqrt(99), 9);
    assert_eq!(isqrt(100), 10);
    assert_eq!(isqrt(50_000_000), 7071);
    assert_eq!(isqrt(u64::MAX), 4_294_967_295);
}

#[test]
fn pcm_conversions_exact() {
    assert_eq!(pcm16_to_sample(0), 0);
    assert_eq!(pcm16_to_sample(16384), 5000);
    assert_eq!(pcm16_to_sample(32767), 9999);
    assert_eq!(pcm16_to_sample(-32768), -10000);
    assert_eq!(pcm16_to_sample(-16384), -5000);
    assert_eq!(u16_to_sample(32768), 0);
    assert_eq!(u16_to_sample(0), -10000);
    assert_eq!(u16_to_sample(65535), 9999);
}

#[test]
fn frame_to_pcm16_round_trip_shape() {
    let frame = AudioFrame {
        data: vec![10000, -10000, 5000, 0],
        timestamp_micros: 0,
        sample_rate: 16000,
        energy_level: 0,
        is_speech: false,
    };
    let pcm = frame.to_pcm16();
    assert_eq!(pcm, vec![32767, -32767, 16383, 0]);
}

#[test]
fn frame_energy_is_stored() {
    let mut frame = AudioFrame {
        data: vec![6000, 8000],
        timestamp_micros: 0,
        sample_rate: 16000,
        energy_level: 0,
        is_speech: false,
    };
    frame.calculate_energy();
    assert_eq!(frame.energy_level, 7071);
}

#[test]
fn config_defaults() {
    let c = AudioConfig::default();
    assert_eq!(c.sample_rate, 16000);
    assert_eq!(c.channels, 1);
    assert_eq!(c.buffer_size, 160);
    assert_eq!(c.buffer_duration_ms, 30000);
    assert_eq!(c.vad_threshold, 5000);
    assert_eq!(c.vad_frame_size_ms, 10);
    let s = AudioStats::default();
    assert_eq!(s.frames_processed, 0);
    assert_eq!(s.peak_level, 0);
}

#[test]
fn responses_wrap_success_and_error() {
    let ok: AudioCommandResponse<u32> = AudioCommandResponse::success(7);
    assert!(ok.success);
    assert_eq!(ok.data, Some(7));
    assert!(ok.error.is_none());
    let bad: AudioCommandResponse<u32> = AudioCommandResponse::error("nope".to_string());
    assert!(!bad.success);
    assert!(bad.data.is_none());
    assert_eq!(bad.error.as_deref(), Some("nope"));
    let ok: AICommandResponse<bool> = AICommandResponse::success(true);
    assert!(ok.success);
    let ok: SystemCommandResponse<bool> = SystemCommandResponse::success(true);
    assert!(ok.success);
    let bad: PerformanceCommandResponse<u8> = PerformanceCommandResponse::error("x".to_string());
    assert!(!bad.success);
}

#[test]
fn model_size_tables() {
    assert_eq!(WhisperModelSize::Tiny.as_str(), "tiny");
    assert_eq!(WhisperModelSize::Base.as_str(), "base");
    assert_eq!(WhisperModelSize::Large.as_str(), "large");
    assert_eq!(WhisperModelSize::Base.model_filename(), "ggml-base.bin");
    assert_eq!(WhisperModelSize::Medium.model_filename(), "ggml-medium.bin");
    assert_eq!(WhisperModelSize::Tiny.speed_multiplier(), 32);
    assert_eq!(WhisperModelSize::Large.speed_multiplier(), 1);
    assert_eq!(WhisperModelSize::Base.memory_estimate_mb(), 74);
    assert_eq!(WhisperModelSize::Large.memory_estimate_mb(), 1550);
}

#[test]
fn stt_config_default() {
    let c = STTConfig::default();
    assert_eq!(c.model_size, WhisperModelSize::Base);
    assert_eq!(c.language, "auto");
    assert!(c.enable_punctuation);
    assert_eq!(c.max_duration, 30);
    assert_eq!(c.temperature, 0);
    assert_eq!(c.beam_size, 5);
}

#[test]
fn stt_stats_moving_average() {
    let mut s = STTStats {
        total_transcriptions: 0,
        avg_processing_time_ms: 0,
        min_processing_time_ms: u64::MAX,
        max_processing_time_ms: 0,
        current_model: WhisperModelSize::Base,
        model_load_time_ms: 0,
        memory_usage_mb: 74,
    };
    s.record(100);
    assert_eq!(s.total_transcriptions, 1);
    assert_eq!(s.avg_processing_time_ms, 100);
    assert_eq!(s.min_processing_time_ms, 100);
    assert_eq!(s.max_processing_time_ms, 100);
    s.record(50);
    assert_eq!(s.total_transcriptions, 2);
    assert_eq!(s.avg_processing_time_ms, 75);
    assert_eq!(s.min_processing_time_ms, 50);
    assert_eq!(s.max_processing_time_ms, 100);
}

#[test]
fn audio_assessment_thresholds() {
    // Mean absolute amplitude below 0.01 is silence.
    assert_eq!(assess_audio(&vec![0; 160], 2000), AudioAssessment::Silence);
    assert_eq!(assess_audio(&vec![99; 160], 2000), AudioAssessment::Silence);
    // Below 0.05 is inaudible.
    assert_eq!(assess_audio(&vec![300; 160], 2000), AudioAssessment::Inaudible);
    // Audible but short.
    assert_eq!(assess_audio(&vec![600; 160], 999), AudioAssessment::Brief);
    // Audible and long enough.
    assert_eq!(
        assess_audio(&vec![600; 160], 1000),
        AudioAssessment::Voiced { duration_ms: 1000, avg_energy: 600 }
    );
    // Negative samples count by magnitude.
    assert_eq!(
        assess_audio(&vec![-600; 160], 1000),
        AudioAssessment::Voiced { duration_ms: 1000, avg_energy: 600 }
    );
}

#[test]
fn assessment_texts() {
    assert_eq!(
        assessment_fixed_text(&AudioAssessment::Silence).as_deref(),
        Some("[silence]")
    );
    assert_eq!(
        assessment_fixed_text(&AudioAssessment::Inaudible).as_deref(),
        Some("[inaudible audio detected]")
    );
    assert!(assessment_fixed_text(&AudioAssessment::Brief).is_some());
    assert!(
        assessment_fixed_text(&AudioAssessment::Voiced { duration_ms: 1000, avg_energy: 600 })
            .is_none()
    );
}

#[test]
fn ai_config_default() {
    let c = AIConfig::default();
    assert_eq!(c.api_key, "");
    assert_eq!(c.model, "gemini-2.0-flash-exp");
    assert_eq!(c.temperature, 300);
    assert_eq!(c.max_tokens, 1000);
    assert!(c.stream);
    assert_eq!(c.timeout_seconds, 30);
}

#[test]
fn prompts_compose_instruction_and_text() {
    assert_eq!(
        AIInstruction::Summarize.to_prompt("hello"),
        "Please provide a concise summary of the following text:\n\nhello"
    );
    assert_eq!(
        AIInstruction::Translate { target_language: "Polish".to_string() }.to_prompt("hi"),
        "Please translate the following text to Polish:\n\nhi"
    );
    assert_eq!(
        AIInstruction::Custom { instruction: "Shorten".to_string() }.to_prompt("abc"),
        "Shorten:\n\nabc"
    );
    assert!(AIInstruction::Improve.to_prompt("x").starts_with("Please improve"));
    assert!(AIInstruction::Auto.to_prompt("x").starts_with("Please analyze"));
}

#[test]
fn ai_stats_record_tracks_tokens_and_time() {
    let mut s = AIStats {
        total_requests: 0,
        avg_processing_time_ms: 0,
        min_processing_time_ms: u64::MAX,
        max_processing_time_ms: 0,
        total_tokens_used: 0,
        current_model: "gemini-2.0-flash-exp".to_string(),
        rate_limit_remaining: None,
        last_request_time: None,
    };
    let usage = TokenUsage { prompt_tokens: 10, completion_tokens: 20, total_tokens: 30 };
    s.record(120, &usage, "2024-01-01 00:00:00 UTC".to_string());
    assert_eq!(s.total_requests, 1);
    assert_eq!(s.avg_processing_time_ms, 120);
    assert_eq!(s.total_tokens_used, 30);
    assert_eq!(s.last_request_time.as_deref(), Some("2024-01-01 00:00:00 UTC"));
    s.record(60, &usage, "2024-01-01 00:01:00 UTC".to_string());
    assert_eq!(s.avg_processing_time_ms, 90);
    assert_eq!(s.total_tokens_used, 60);
    assert_eq!(s.min_processing_time_ms, 60);
    assert_eq!(s.max_processing_time_ms, 120);
}

#[test]
fn clipboard_rules() {
    assert!(matches!(
        ClipboardManager::copy_text(""),
        Err(SystemError::ClipboardAccessFailed)
    ));
    assert!(ClipboardManager::copy_text("hello").is_ok());
    assert_eq!(ClipboardManager::get_text().unwrap(), "");
    assert_eq!(
        ClipboardManager::get_selected_text().unwrap(),
        "Sample selected text for demo"
    );
}

#[test]
fn hotkey_labels() {
    assert_eq!(hotkey_label(true, false, false, true, "V", true), "Cmd+Shift+V");
    assert_eq!(hotkey_label(true, false, false, true, "V", false), "Meta+Shift+V");
    assert_eq!(hotkey_label(false, true, false, true, "V", false), "Ctrl+Shift+V");
    assert_eq!(hotkey_label(false, false, false, false, "A", false), "A");
    assert_eq!(hotkey_label(false, true, true, false, "S", false), "Ctrl+Alt+S");
}

#[test]
fn app_error_wraps_subsystems() {
    let e = AppError::from(AudioError::NoInputDevice);
    assert!(matches!(e, AppError::Audio(AudioError::NoInputDevice)));
    let e = AppError::from(SystemError::PlatformNotSupported);
    assert!(matches!(e, AppError::System(SystemError::PlatformNotSupported)));
}
