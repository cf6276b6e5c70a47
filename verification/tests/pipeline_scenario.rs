//! End-to-end scenario: five loud 10 ms frames, then five silent ones,
//! through the whole capture pipeline at 16 kHz with a one-second window.

use vocatype::audio_types::AudioConfig;
use vocatype::capture::AudioCapture;

#[test]
fn speech_rises_and_falls_with_the_audio() {
    let mut config = AudioConfig::default();
    config.buffer_duration_ms = 1000;  // one-second rolling window
    config.vad_threshold = 5000;  // 0.5 of full scale
    let mut c = AudioCapture::new(config).unwrap();

    let loud = vec![10000i32; 160];  // 10 ms of amplitude 1.0
    let quiet = vec![0i32; 160];  // 10 ms of silence

    let mut classifications = Vec::new();
    for _ in 0..5 {
        let out = c.process_audio_data(&loud, true, true, 0, 0);
        classifications.push(out.is_speech);
    }
    for _ in 0..5 {
        let out = c.process_audio_data(&quiet, true, true, 0, 0);
        classifications.push(out.is_speech);
    }

    // Speech no earlier than the second frame.
    assert!(!classifications[0]);
    assert!(classifications[1]);
    assert!(classifications[2] && classifications[3] && classifications[4]);
    // Release no earlier than two silent frames after the drop; the
    // smoothing window in fact holds speech until the last one.
    assert!(classifications[5]);
    assert!(classifications[6]);
    assert!(!classifications[9]);

    // Every sample was written and is retrievable in order.
    let s = c.get_stats();
    assert_eq!(s.frames_processed, 10);
    let audio = c.get_recent_audio(1000).unwrap();
    assert_eq!(audio.len(), 1600);
    assert!(audio[..800].iter().all(|&x| x == 10000));
    assert!(audio[800..].iter().all(|&x| x == 0));
}
