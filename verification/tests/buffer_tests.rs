use vocatype::audio_types::AudioFrame;
use vocatype::buffer::CircularBuffer;
use vocatype::error::AudioError;

fn frame_of(samples: Vec<i32>) -> AudioFrame {
    AudioFrame {
        data: samples,
        timestamp_micros: 0,
        sample_rate: 16000,
        energy_level: 0,
        is_speech: false,
    }
}

#[test]
fn new_rejects_zero_capacity() {
    let r = CircularBuffer::new(16000, 0);
    assert!(matches!(r, Err(AudioError::CaptureInitFailed(_))));
    let r = CircularBuffer::new(0, 30000);
    assert!(matches!(r, Err(AudioError::CaptureInitFailed(_))));
}

#[test]
fn new_computes_capacity() {
    let b = CircularBuffer::new(16000, 30000).unwrap();
    assert_eq!(b.get_stats().capacity, 480_000);
    let b = CircularBuffer::new(16000, 1000).unwrap();
    assert_eq!(b.get_stats().capacity, 16000);
}

#[test]
fn wrap_keeps_last_capacity_samples() {
    // One second at 16 kHz; 16000 full-scale samples then 4000 zeros.
    let mut b = CircularBuffer::new(16000, 1000).unwrap();
    let written = b.write_frame(&frame_of(vec![10000; 16000])).unwrap();
    assert_eq!(written, 16000);
    // The cursor advances modulo capacity: full wrap lands on zero.
    assert_eq!(b.get_stats().write_position, 0);
    let written = b.write_frame(&frame_of(vec![0; 4000])).unwrap();
    assert_eq!(written, 4000);
    assert_eq!(b.get_stats().write_position, 4000);
    let recent = b.read_recent(1000).unwrap();
    assert_eq!(recent.len(), 16000);
    assert!(recent[..12000].iter().all(|&s| s == 10000));
    assert!(recent[12000..].iter().all(|&s| s == 0));
}

#[test]
fn oversized_write_keeps_frame_head() {
    // A frame longer than the whole buffer: only its first `capacity`
    // samples are written.
    let mut b = CircularBuffer::new(1000, 1000).unwrap();
    let mut big = Vec::new();
    for i in 0..1500i32 {
        big.push(i % 10000);
    }
    let written = b.write_frame(&frame_of(big.clone())).unwrap();
    assert_eq!(written, 1000);
    let recent = b.read_recent(1000).unwrap();
    assert_eq!(&recent[..], &big[..1000]);
}

#[test]
fn read_windowing_returns_min_of_request_and_count() {
    let mut b = CircularBuffer::new(16000, 1000).unwrap();
    b.write_frame(&frame_of(vec![7; 4000])).unwrap();
    // Request spans more than is stored: everything comes back.
    assert_eq!(b.read_recent(1000).unwrap().len(), 4000);
    // Request spans less: exactly sample_rate * duration / 1000.
    assert_eq!(b.read_recent(100).unwrap().len(), 1600);
    // The returned samples are the most recent ones, in order.
    b.write_frame(&frame_of(vec![9; 160])).unwrap();
    let recent = b.read_recent(20).unwrap();
    assert_eq!(recent.len(), 320);
    assert!(recent[..160].iter().all(|&s| s == 7));
    assert!(recent[160..].iter().all(|&s| s == 9));
}

#[test]
fn clear_empties_everything() {
    let mut b = CircularBuffer::new(16000, 1000).unwrap();
    b.write_frame(&frame_of(vec![5; 8000])).unwrap();
    assert!(b.has_sufficient_data(500));
    b.clear().unwrap();
    assert_eq!(b.read_recent(1000).unwrap().len(), 0);
    assert_eq!(b.read_recent(1).unwrap().len(), 0);
    assert!(!b.has_sufficient_data(1));
    assert!(!b.has_sufficient_data(30000));
    let s = b.get_stats();
    assert_eq!(s.current_size, 0);
    assert!(!s.is_full);
    assert_eq!(s.write_position, 0);
}

#[test]
fn has_sufficient_data_threshold() {
    let mut b = CircularBuffer::new(16000, 1000).unwrap();
    b.write_frame(&frame_of(vec![1; 1600])).unwrap();
    assert!(b.has_sufficient_data(100));
    assert!(!b.has_sufficient_data(101));
}

#[test]
fn stats_report_fill_level() {
    let mut b = CircularBuffer::new(16000, 1000).unwrap();
    b.write_frame(&frame_of(vec![3; 4000])).unwrap();
    let s = b.get_stats();
    assert_eq!(s.capacity, 16000);
    assert_eq!(s.current_size, 4000);
    assert_eq!(s.usage_percent, 25);
    assert_eq!(s.duration_stored_ms, 250);
    assert!(!s.is_full);
    assert_eq!(s.write_position, 4000);
    assert_eq!(s.read_position, 0);
    b.write_frame(&frame_of(vec![3; 12000])).unwrap();
    let s = b.get_stats();
    assert!(s.is_full);
    assert_eq!(s.usage_percent, 100);
    assert_eq!(s.duration_stored_ms, 1000);
}

#[test]
fn empty_frame_writes_nothing() {
    let mut b = CircularBuffer::new(16000, 1000).unwrap();
    assert_eq!(b.write_frame(&frame_of(vec![])).unwrap(), 0);
    assert_eq!(b.get_stats().current_size, 0);
}

#[test]
fn repeated_wraps_stay_chronological() {
    let mut b = CircularBuffer::new(1000, 1000).unwrap();
    for round in 0..7i32 {
        b.write_frame(&frame_of(vec![round; 300])).unwrap();
    }
    // 2100 samples through a 1000-sample buffer: the last 1000 are the
    // tail of round 3 followed by rounds 4, 5 and 6, in order.
    let recent = b.read_recent(1000).unwrap();
    assert_eq!(recent.len(), 1000);
    assert!(recent[..100].iter().all(|&s| s == 3));
    assert!(recent[100..400].iter().all(|&s| s == 4));
    assert!(recent[400..700].iter().all(|&s| s == 5));
    assert!(recent[700..1000].iter().all(|&s| s == 6));
}
