use vocatype::performance::{
    calculate_health_score, get_component_stats, get_performance_monitor, get_performance_summary,
    percentile, Benchmark, ComponentStats, PerformanceMonitor, PerformanceStats,
};

fn stats_with(avg: u64, target: u64, compliance: u64, samples: u64) -> ComponentStats {
    ComponentStats {
        sample_count: samples,
        avg_ms: avg,
        min_ms: 0,
        max_ms: avg,
        p50_ms: avg,
        p95_ms: avg,
        p99_ms: avg,
        target_ms: target,
        compliance_rate: compliance,
        violations: 0,
    }
}

fn empty() -> ComponentStats {
    ComponentStats::default()
}

#[test]
fn window_drops_oldest() {
    let mut m = PerformanceMonitor::new(3);
    for x in [1u64, 2, 3, 4] {
        m.record_audio_latency(x);
    }
    let s = m.get_stats();
    assert_eq!(s.audio.sample_count, 3);
    assert_eq!(s.audio.min_ms, 2);
    assert_eq!(s.audio.max_ms, 4);
}

#[test]
fn component_stats_exact() {
    let mut m = PerformanceMonitor::new(100);
    m.record_audio_latency(10);
    m.record_audio_latency(5);
    m.record_audio_latency(200);
    let c = m.get_stats().audio;
    assert_eq!(c.sample_count, 3);
    assert_eq!(c.avg_ms, 71);  // (10 + 5 + 200) / 3
    assert_eq!(c.min_ms, 5);
    assert_eq!(c.max_ms, 200);
    // Sorted window [5, 10, 200].
    assert_eq!(c.p50_ms, 10);
    assert_eq!(c.p95_ms, 200);
    assert_eq!(c.p99_ms, 200);
    assert_eq!(c.target_ms, 10);
    assert_eq!(c.violations, 1);  // only 200 exceeds 10 ms
    assert_eq!(c.compliance_rate, 66);  // 2 of 3, in whole percent
}

#[test]
fn empty_component_is_fully_compliant() {
    let m = PerformanceMonitor::new(100);
    let c = m.get_stats().vad;
    assert_eq!(c.sample_count, 0);
    assert_eq!(c.compliance_rate, 100);
    assert_eq!(c.violations, 0);
}

#[test]
fn each_component_records_into_its_own_window() {
    let mut m = PerformanceMonitor::new(100);
    m.record_vad_latency(3);
    m.record_stt_latency(150);
    m.record_ai_latency(250);
    m.record_system_latency(40);
    let s = m.get_stats();
    assert_eq!(s.audio.sample_count, 0);
    assert_eq!(s.vad.sample_count, 1);
    assert_eq!(s.stt.sample_count, 1);
    assert_eq!(s.ai.sample_count, 1);
    assert_eq!(s.system.sample_count, 1);
    assert_eq!(s.vad.target_ms, 5);
    assert_eq!(s.stt.target_ms, 200);
    assert_eq!(s.ai.target_ms, 300);
    assert_eq!(s.system.target_ms, 50);
}

#[test]
fn percentile_picks_rounded_index() {
    let sorted = vec![1u64, 2, 3, 4, 5];
    assert_eq!(percentile(&sorted, 50), 3);
    assert_eq!(percentile(&sorted, 95), 5);
    assert_eq!(percentile(&sorted, 0), 1);
    assert_eq!(percentile(&sorted, 100), 5);
    assert_eq!(percentile(&vec![], 50), 0);
}

#[test]
fn get_component_stats_on_raw_window() {
    let c = get_component_stats(&vec![7u64], 10);
    assert_eq!(c.sample_count, 1);
    assert_eq!(c.avg_ms, 7);
    assert_eq!(c.min_ms, 7);
    assert_eq!(c.max_ms, 7);
    assert_eq!(c.p50_ms, 7);
    assert_eq!(c.violations, 0);
    assert_eq!(c.compliance_rate, 100);
}

#[test]
fn health_score_penalizes_latency_near_target() {
    // One active component: compliance 66%, mean 71 ms against 10 ms.
    // Base 6600 bp, shaved by 10% (over 0.8 of target) and then 5%
    // (over half of it): 6600 -> 5940 -> 5643; rounded to 56.
    let s = PerformanceStats {
        audio: stats_with(71, 10, 66, 3),
        vad: empty(),
        stt: empty(),
        ai: empty(),
        system: empty(),
    };
    assert_eq!(calculate_health_score(&s), 56);
}

#[test]
fn health_score_is_perfect_without_measurements() {
    let s = PerformanceStats {
        audio: empty(),
        vad: empty(),
        stt: empty(),
        ai: empty(),
        system: empty(),
    };
    assert_eq!(calculate_health_score(&s), 100);
}

#[test]
fn health_score_rewards_fast_components() {
    // Fully compliant and far under target: the 5% bonus caps at 100.
    let s = PerformanceStats {
        audio: stats_with(1, 10, 100, 5),
        vad: empty(),
        stt: empty(),
        ai: empty(),
        system: empty(),
    };
    assert_eq!(calculate_health_score(&s), 100);
}

#[test]
fn summary_folds_all_components() {
    let s = PerformanceStats {
        audio: stats_with(5, 10, 100, 2),
        vad: stats_with(2, 5, 100, 2),
        stt: empty(),
        ai: empty(),
        system: empty(),
    };
    let summary = get_performance_summary(&s);
    assert_eq!(summary.audio_avg_ms, 5);
    assert_eq!(summary.vad_avg_ms, 2);
    assert_eq!(summary.target_compliance, 100);  // (100 * 5) / 5
    assert_eq!(summary.total_violations, 0);
    assert!(summary.overall_health <= 100);
}

#[test]
fn monitor_factory_uses_stock_window() {
    let m = get_performance_monitor();
    assert_eq!(m.window_size, 1000);
    assert_eq!(m.get_stats().audio.sample_count, 0);
}

#[test]
fn benchmark_measures_nonnegative_time() {
    let b = Benchmark::start("noop");
    let elapsed = b.finish();
    assert!(elapsed < 60_000);
    let b = Benchmark::start("noop");
    let elapsed = b.finish_with_target(10);
    assert!(elapsed < 60_000);
}
