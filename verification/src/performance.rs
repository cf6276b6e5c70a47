//! Latency telemetry: per-component moving windows of measurements,
//! their summary statistics with percentiles, and a small benchmark
//! helper around the system clock.
//!
//! All latencies are integers in milliseconds; rates are whole percent.

use vstd::prelude::*;

verus! {

/// Measurements kept per component.
pub const DEFAULT_WINDOW: usize = 1000;

/// Sum of a measurement sequence.
pub open spec fn sum_ms(s: Seq<u64>) -> int
    decreases s.len(),
{
    if s.len() == 0 {
        0
    } else {
        sum_ms(s.drop_last()) + s.last()
    }
}

/// Smallest entry (the maximum measurement when empty, mirroring a fold
/// from the identity).
pub open spec fn min_ms(s: Seq<u64>) -> int
    decreases s.len(),
{
    if s.len() == 0 {
        0
    } else if s.len() == 1 {
        s.last() as int
    } else if (s.last() as int) < min_ms(s.drop_last()) {
        s.last() as int
    } else {
        min_ms(s.drop_last())
    }
}

/// Largest entry, zero when empty.
pub open spec fn max_ms(s: Seq<u64>) -> int
    decreases s.len(),
{
    if s.len() == 0 {
        0
    } else if (s.last() as int) > max_ms(s.drop_last()) {
        s.last() as int
    } else {
        max_ms(s.drop_last())
    }
}

/// How many entries exceed `bound`.
pub open spec fn count_over(s: Seq<u64>, bound: u64) -> int
    decreases s.len(),
{
    if s.len() == 0 {
        0
    } else {
        count_over(s.drop_last(), bound) + if s.last() > bound {
            1int
        } else {
            0int
        }
    }
}

/// Inserts `x` into a sorted sequence, after any equal entries.
pub open spec fn insert_sorted(t: Seq<u64>, x: u64) -> Seq<u64>
    decreases t.len(),
{
    if t.len() == 0 {
        seq![x]
    } else if x >= t.last() {
        t.push(x)
    } else {
        insert_sorted(t.drop_last(), x).push(t.last())
    }
}

/// The sorted version of a sequence, by insertion.
pub open spec fn sort_spec(s: Seq<u64>) -> Seq<u64>
    decreases s.len(),
{
    if s.len() == 0 {
        Seq::<u64>::empty()
    } else {
        insert_sorted(sort_spec(s.drop_last()), s.last())
    }
}

/// Nondecreasing order.
pub open spec fn sorted_le(s: Seq<u64>) -> bool {
    forall|i: int, j: int| 0 <= i < j < s.len() ==> s[i] <= s[j]
}

/// Insertion keeps sortedness and adds exactly the new entry.
pub proof fn lemma_insert_sorted(t: Seq<u64>, x: u64)
    requires
        sorted_le(t),
    ensures
        sorted_le(insert_sorted(t, x)),
        insert_sorted(t, x).len() == t.len() + 1,
        insert_sorted(t, x).to_multiset() == t.to_multiset().insert(x),
    decreases t.len(),
{
    broadcast use vstd::seq_lib::group_to_multiset_ensures;

    if t.len() == 0 {
        assert(seq![x] =~= Seq::<u64>::empty().push(x));
        assert(Seq::<u64>::empty().push(x).to_multiset() == Seq::<u64>::empty()
            .to_multiset().insert(x));
    } else if x >= t.last() {
        assert(t.push(x).to_multiset() == t.to_multiset().insert(x));
        assert(sorted_le(t.push(x))) by {
            assert(forall|i: int| 0 <= i < t.len() ==> #[trigger] t[i] <= t[t.len() - 1]);
        }
    } else {
        assert(sorted_le(t.drop_last()));
        lemma_insert_sorted(t.drop_last(), x);
        let u = insert_sorted(t.drop_last(), x);
        assert(u.push(t.last()).to_multiset() == u.to_multiset().insert(t.last()));
        assert(t.drop_last().push(t.last()) =~= t);
        assert(t.drop_last().push(t.last()).to_multiset() == t.drop_last()
            .to_multiset().insert(t.last()));
        assert(sorted_le(u.push(t.last()))) by {
            assert(forall|i: int| 0 <= i < u.len() ==> #[trigger] u[i] <= t.last()) by {
                lemma_insert_sorted_le(t.drop_last(), x, t.last());
            }
        }
        assert(u.to_multiset().insert(t.last()) =~= t.drop_last()
            .to_multiset().insert(x).insert(t.last()));
        assert(t.to_multiset().insert(x) =~= t.drop_last().to_multiset().insert(
            t.last(),
        ).insert(x));
        assert(t.drop_last().to_multiset().insert(x).insert(t.last()) =~= t.drop_last()
            .to_multiset().insert(t.last()).insert(x));
    }
}

/// Entries of an insertion stay bounded by a bound on the inputs.
proof fn lemma_insert_sorted_le(t: Seq<u64>, x: u64, b: u64)
    requires
        x <= b,
        forall|i: int| 0 <= i < t.len() ==> #[trigger] t[i] <= b,
    ensures
        forall|i: int|
            0 <= i < insert_sorted(t, x).len() ==> #[trigger] insert_sorted(t, x)[i] <= b,
    decreases t.len(),
{
    if t.len() == 0 {
        assert(insert_sorted(t, x) =~= seq![x]);
        assert(insert_sorted(t, x)[0] == x);
    } else if x >= t.last() {
        assert(insert_sorted(t, x) =~= t.push(x));
        assert forall|i: int| 0 <= i < insert_sorted(t, x).len() implies #[trigger] insert_sorted(
            t,
            x,
        )[i] <= b by {
            if i < t.len() {
                assert(t[i] <= b);
            }
        }
    } else {
        assert(forall|i: int| 0 <= i < t.drop_last().len() ==> #[trigger] t.drop_last()[i] <= b);
        lemma_insert_sorted_le(t.drop_last(), x, b);
        let u = insert_sorted(t.drop_last(), x);
        assert(t[t.len() - 1] <= b);
        assert forall|i: int| 0 <= i < insert_sorted(t, x).len() implies #[trigger] insert_sorted(
            t,
            x,
        )[i] <= b by {
            if i < u.len() {
                assert(u[i] <= b);
            }
        }
    }
}

/// The sorted version is sorted and holds the same entries.
pub proof fn lemma_sort_spec(s: Seq<u64>)
    ensures
        sorted_le(sort_spec(s)),
        sort_spec(s).len() == s.len(),
        sort_spec(s).to_multiset() == s.to_multiset(),
    decreases s.len(),
{
    broadcast use vstd::seq_lib::group_to_multiset_ensures;

    if s.len() > 0 {
        lemma_sort_spec(s.drop_last());
        lemma_insert_sorted(sort_spec(s.drop_last()), s.last());
        assert(s.drop_last().push(s.last()) =~= s);
        assert(s.drop_last().push(s.last()).to_multiset() == s.drop_last().to_multiset().insert(
            s.last(),
        ));
    }
}

/// The percentile entry the report quotes: the sorted sequence at the
/// rounded index `p * (len - 1) / 100`, zero when empty.
pub open spec fn percentile_of(sorted: Seq<u64>, p: int) -> int {
    if sorted.len() == 0 {
        0
    } else {
        let idx = (p * (sorted.len() - 1) + 50) / 100;
        if idx < sorted.len() - 1 {
            sorted[idx] as int
        } else {
            sorted[sorted.len() - 1] as int
        }
    }
}

/// A measurement window after one recording: the new value appended, the
/// oldest dropped once the window is full.
pub open spec fn recorded(s: Seq<u64>, x: u64, window: int) -> Seq<u64> {
    let t = s.push(x);
    if t.len() > window {
        t.drop_first()
    } else {
        t
    }
}

/// Summary of one component's window against its target.
#[derive(Debug, Clone, Copy)]
pub struct ComponentStats {
    pub sample_count: u64,
    /// Mean latency in milliseconds, rounded down.
    pub avg_ms: u64,
    pub min_ms: u64,
    pub max_ms: u64,
    pub p50_ms: u64,
    pub p95_ms: u64,
    pub p99_ms: u64,
    pub target_ms: u64,
    /// Share of measurements within target, in whole percent.
    pub compliance_rate: u64,
    pub violations: u64,
}

impl Default for ComponentStats {
    /// The empty summary: no samples, full compliance.
    fn default() -> (s: ComponentStats)
        ensures
            s == spec_component_default(),
    {
        ComponentStats {
            sample_count: 0,
            avg_ms: 0,
            min_ms: 0,
            max_ms: 0,
            p50_ms: 0,
            p95_ms: 0,
            p99_ms: 0,
            target_ms: 0,
            compliance_rate: 100,
            violations: 0,
        }
    }
}

/// The summary of an empty window.
pub open spec fn spec_component_default() -> ComponentStats {
    ComponentStats {
        sample_count: 0,
        avg_ms: 0,
        min_ms: 0,
        max_ms: 0,
        p50_ms: 0,
        p95_ms: 0,
        p99_ms: 0,
        target_ms: 0,
        compliance_rate: 100,
        violations: 0,
    }
}

/// The summary every nonempty window yields.
pub open spec fn component_stats_of(s: Seq<u64>, target: u64) -> ComponentStats {
    if s.len() == 0 {
        spec_component_default()
    } else {
        let sorted = sort_spec(s);
        let violations = count_over(s, target);
        ComponentStats {
            sample_count: s.len() as u64,
            avg_ms: (sum_ms(s) / s.len() as int) as u64,
            min_ms: min_ms(s) as u64,
            max_ms: max_ms(s) as u64,
            p50_ms: percentile_of(sorted, 50) as u64,
            p95_ms: percentile_of(sorted, 95) as u64,
            p99_ms: percentile_of(sorted, 99) as u64,
            target_ms: target,
            compliance_rate: ((s.len() - violations) * 100 / s.len() as int) as u64,
            violations: violations as u64,
        }
    }
}

/// Summary for every component of the pipeline.
#[derive(Debug, Clone, Copy)]
pub struct PerformanceStats {
    pub audio: ComponentStats,
    pub vad: ComponentStats,
    pub stt: ComponentStats,
    pub ai: ComponentStats,
    pub system: ComponentStats,
}

/// Latency tracker over moving windows, one per pipeline component.
/// Shared-state plumbing stays with the caller: the tracker itself is a
/// plain value, injected where it is needed.
#[derive(Debug, Clone)]
pub struct PerformanceMonitor {
    pub audio_latencies: Vec<u64>,
    pub vad_latencies: Vec<u64>,
    pub stt_latencies: Vec<u64>,
    pub ai_latencies: Vec<u64>,
    pub system_latencies: Vec<u64>,
    pub window_size: usize,
}

impl PerformanceMonitor {
    /// A tracker keeping the last `window_size` measurements per
    /// component.
    pub fn new(window_size: usize) -> (r: PerformanceMonitor)
        ensures
            r.window_size == window_size,
            r.audio_latencies@ =~= Seq::<u64>::empty(),
            r.vad_latencies@ =~= Seq::<u64>::empty(),
            r.stt_latencies@ =~= Seq::<u64>::empty(),
            r.ai_latencies@ =~= Seq::<u64>::empty(),
            r.system_latencies@ =~= Seq::<u64>::empty(),
    {
        PerformanceMonitor {
            audio_latencies: Vec::new(),
            vad_latencies: Vec::new(),
            stt_latencies: Vec::new(),
            ai_latencies: Vec::new(),
            system_latencies: Vec::new(),
            window_size,
        }
    }

    /// Records one audio-capture latency (target 10 ms).
    pub fn record_audio_latency(&mut self, latency_ms: u64)
        ensures
            final(self).audio_latencies@ == recorded(
                old(self).audio_latencies@,
                latency_ms,
                old(self).window_size as int,
            ),
            final(self).vad_latencies == old(self).vad_latencies,
            final(self).stt_latencies == old(self).stt_latencies,
            final(self).ai_latencies == old(self).ai_latencies,
            final(self).system_latencies == old(self).system_latencies,
            final(self).window_size == old(self).window_size,
    {
        let window = self.window_size;
        record_into(&mut self.audio_latencies, window, latency_ms);
    }

    /// Records one detector latency (target 5 ms).
    pub fn record_vad_latency(&mut self, latency_ms: u64)
        ensures
            final(self).vad_latencies@ == recorded(
                old(self).vad_latencies@,
                latency_ms,
                old(self).window_size as int,
            ),
            final(self).audio_latencies == old(self).audio_latencies,
            final(self).stt_latencies == old(self).stt_latencies,
            final(self).ai_latencies == old(self).ai_latencies,
            final(self).system_latencies == old(self).system_latencies,
            final(self).window_size == old(self).window_size,
    {
        let window = self.window_size;
        record_into(&mut self.vad_latencies, window, latency_ms);
    }

    /// Records one transcription latency (target 200 ms).
    pub fn record_stt_latency(&mut self, latency_ms: u64)
        ensures
            final(self).stt_latencies@ == recorded(
                old(self).stt_latencies@,
                latency_ms,
                old(self).window_size as int,
            ),
            final(self).audio_latencies == old(self).audio_latencies,
            final(self).vad_latencies == old(self).vad_latencies,
            final(self).ai_latencies == old(self).ai_latencies,
            final(self).system_latencies == old(self).system_latencies,
            final(self).window_size == old(self).window_size,
    {
        let window = self.window_size;
        record_into(&mut self.stt_latencies, window, latency_ms);
    }

    /// Records one remote-processing latency (target 300 ms).
    pub fn record_ai_latency(&mut self, latency_ms: u64)
        ensures
            final(self).ai_latencies@ == recorded(
                old(self).ai_latencies@,
                latency_ms,
                old(self).window_size as int,
            ),
            final(self).audio_latencies == old(self).audio_latencies,
            final(self).vad_latencies == old(self).vad_latencies,
            final(self).stt_latencies == old(self).stt_latencies,
            final(self).system_latencies == old(self).system_latencies,
            final(self).window_size == old(self).window_size,
    {
        let window = self.window_size;
        record_into(&mut self.ai_latencies, window, latency_ms);
    }

    /// Records one end-to-end latency (target 50 ms).
    pub fn record_system_latency(&mut self, latency_ms: u64)
        ensures
            final(self).system_latencies@ == recorded(
                old(self).system_latencies@,
                latency_ms,
                old(self).window_size as int,
            ),
            final(self).audio_latencies == old(self).audio_latencies,
            final(self).vad_latencies == old(self).vad_latencies,
            final(self).stt_latencies == old(self).stt_latencies,
            final(self).ai_latencies == old(self).ai_latencies,
            final(self).window_size == old(self).window_size,
    {
        let window = self.window_size;
        record_into(&mut self.system_latencies, window, latency_ms);
    }

    /// Summarizes every component against its latency target.
    pub fn get_stats(&self) -> (r: PerformanceStats)
        ensures
            r.audio == component_stats_of(self.audio_latencies@, 10),
            r.vad == component_stats_of(self.vad_latencies@, 5),
            r.stt == component_stats_of(self.stt_latencies@, 200),
            r.ai == component_stats_of(self.ai_latencies@, 300),
            r.system == component_stats_of(self.system_latencies@, 50),
    {
        PerformanceStats {
            audio: get_component_stats(&self.audio_latencies, 10),
            vad: get_component_stats(&self.vad_latencies, 5),
            stt: get_component_stats(&self.stt_latencies, 200),
            ai: get_component_stats(&self.ai_latencies, 300),
            system: get_component_stats(&self.system_latencies, 50),
        }
    }
}

/// Appends one measurement to a window, dropping the oldest beyond the
/// window size.
fn record_into(q: &mut Vec<u64>, window: usize, x: u64)
    ensures
        final(q)@ == recorded(old(q)@, x, window as int),
{
    q.push(x);
    if q.len() > window {
        q.remove(0);
        proof {
            assert(old(q)@.push(x).remove(0) =~= old(q)@.push(x).drop_first());
        }
    }
}

/// Sorts a window by insertion, mirroring `sort_spec`.
fn sorted_copy(q: &Vec<u64>) -> (r: Vec<u64>)
    ensures
        r@ == sort_spec(q@),
{
    let mut out: Vec<u64> = Vec::new();
    let mut i: usize = 0;
    proof {
        assert(q@.take(0) =~= Seq::<u64>::empty());
    }
    while i < q.len()
        invariant
            i <= q@.len(),
            out@ == sort_spec(q@.take(i as int)),
        decreases q@.len() - i,
    {
        proof {
            assert(q@.take(i + 1).drop_last() =~= q@.take(i as int));
            assert(q@.take(i + 1).last() == q@[i as int]);
        }
        let x = q[i];
        // Find the insertion point: everything at or after it is greater.
        let mut j: usize = out.len();
        while j > 0 && out[j - 1] > x
            invariant
                j <= out@.len(),
                forall|k: int| j <= k < out@.len() ==> out@[k] > x,
            decreases j,
        {
            j = j - 1;
        }
        proof {
            lemma_insert_at(out@, x, j as int);
        }
        out.insert(j, x);
        i = i + 1;
    }
    proof {
        assert(q@.take(q@.len() as int) =~= q@);
    }
    out
}

/// Splicing at the scan's stopping point is the recursive insertion.
proof fn lemma_insert_at(t: Seq<u64>, x: u64, j: int)
    requires
        0 <= j <= t.len(),
        forall|k: int| j <= k < t.len() ==> t[k] > x,
        j > 0 ==> t[j - 1] <= x,
    ensures
        insert_sorted(t, x) =~= t.insert(j, x),
    decreases t.len(),
{
    if t.len() == 0 {
        assert(seq![x] =~= t.insert(0, x));
    } else if x >= t.last() {
        assert(j == t.len());
        assert(t.push(x) =~= t.insert(j, x));
    } else {
        assert(j < t.len());
        assert(forall|k: int| j <= k < t.drop_last().len() ==> t.drop_last()[k] > x);
        assert(j > 0 ==> t.drop_last()[j - 1] <= x);
        lemma_insert_at(t.drop_last(), x, j);
        assert(insert_sorted(t.drop_last(), x).push(t.last()) =~= t.drop_last().insert(
            j,
            x,
        ).push(t.last()));
        assert(t.drop_last().insert(j, x).push(t.last()) =~= t.insert(j, x));
    }
}

/// The entry at the rounded percentile index of a sorted window.
pub fn percentile(sorted: &Vec<u64>, p: u64) -> (r: u64)
    requires
        p <= 100,
    ensures
        r as int == percentile_of(sorted@, p as int),
{
    if sorted.len() == 0 {
        return 0;
    }
    let len = sorted.len();
    proof {
        assert((p as int) * ((len - 1) as int) <= 100 * 0xFFFF_FFFF_FFFF_FFFF)
            by (nonlinear_arith)
            requires
                0 <= p <= 100,
                1 <= len <= 0xFFFF_FFFF_FFFF_FFFF + 1,
        {
        }
    }
    let idx128: u128 = ((p as u128) * ((len - 1) as u128) + 50) / 100;
    let idx: usize = if idx128 < (len - 1) as u128 {
        idx128 as usize
    } else {
        len - 1
    };
    sorted[idx]
}

/// Summarizes one window against a target: count, mean, extremes,
/// percentiles, and the share of measurements within target.
pub fn get_component_stats(q: &Vec<u64>, target_ms: u64) -> (r: ComponentStats)
    ensures
        r == component_stats_of(q@, target_ms),
{
    if q.len() == 0 {
        return ComponentStats::default();
    }
    let len = q.len();
    let mut sum: u128 = 0;
    let mut min_v: u64 = q[0];
    let mut max_v: u64 = 0;
    let mut violations: u64 = 0;
    let mut i: usize = 0;
    proof {
        assert(q@.take(0) =~= Seq::<u64>::empty());
    }
    while i < len
        invariant
            len == q@.len(),
            1 <= len,
            i <= len,
            sum == sum_ms(q@.take(i as int)),
            sum <= (i as int) * 0xFFFF_FFFF_FFFF_FFFF,
            i == 0 ==> min_v == q@[0],
            i > 0 ==> min_v as int == min_ms(q@.take(i as int)),
            max_v as int == max_ms(q@.take(i as int)),
            violations as int == count_over(q@.take(i as int), target_ms),
            violations <= i,
        decreases len - i,
    {
        proof {
            assert(q@.take(i + 1).drop_last() =~= q@.take(i as int));
            assert(q@.take(i + 1).last() == q@[i as int]);
        }
        let x = q[i];
        sum = sum + (x as u128);
        if i == 0 {
            min_v = x;
        } else if x < min_v {
            min_v = x;
        }
        if x > max_v {
            max_v = x;
        }
        if x > target_ms {
            violations = violations + 1;
        }
        i = i + 1;
    }
    proof {
        assert(q@.take(len as int) =~= q@);
        crate::math::lemma_div_bound(sum_ms(q@), len as int, 0xFFFF_FFFF_FFFF_FFFF);
    }
    let avg: u64 = (sum / (len as u128)) as u64;
    let sorted = sorted_copy(q);
    proof {
        lemma_sort_spec(q@);
    }
    let p50 = percentile(&sorted, 50);
    let p95 = percentile(&sorted, 95);
    let p99 = percentile(&sorted, 99);
    let compliance: u64 = (((len as u64 - violations) as u128) * 100 / (len as u128)) as u64;
    proof {
        crate::math::lemma_div_bound(((len - violations) as int) * 100, len as int, 100);
        assert(((len - violations) as int) * 100 <= (len as int) * 100) by (nonlinear_arith)
            requires
                0 <= violations <= len,
        {
        }
    }
    ComponentStats {
        sample_count: len as u64,
        avg_ms: avg,
        min_ms: min_v,
        max_ms: max_v,
        p50_ms: p50,
        p95_ms: p95,
        p99_ms: p99,
        target_ms,
        compliance_rate: compliance,
        violations,
    }
}

/// A tracker with the stock window. The process-wide singleton of a
/// desktop build becomes an injected value here: the caller constructs
/// one at startup and hands it to every component that records into it.
pub fn get_performance_monitor() -> (r: PerformanceMonitor)
    ensures
        r.window_size == 1000,
        r.audio_latencies@ =~= Seq::<u64>::empty(),
        r.vad_latencies@ =~= Seq::<u64>::empty(),
        r.stt_latencies@ =~= Seq::<u64>::empty(),
        r.ai_latencies@ =~= Seq::<u64>::empty(),
        r.system_latencies@ =~= Seq::<u64>::empty(),
{
    PerformanceMonitor::new(DEFAULT_WINDOW)
}

/// Relies on `std::time::SystemTime::now`: a wall-clock reading in
/// microseconds since the Unix epoch. The value depends on the clock, so
/// nothing is promised of it.
#[verifier::external_body]
fn clock_micros() -> u64 {
    match std::time::SystemTime::now().duration_since(std::time::UNIX_EPOCH) {
        Ok(d) => d.as_micros() as u64,
        Err(_) => 0,
    }
}

/// A running measurement of one named operation.
pub struct Benchmark {
    pub start_micros: u64,
    pub name: String,
}

impl Benchmark {
    /// Starts measuring; the duration is whatever the clock later shows.
    pub fn start(name: &str) -> (r: Benchmark)
        ensures
            r.name@ == name@,
    {
        Benchmark { start_micros: clock_micros(), name: String::from_str(name) }
    }

    /// Ends the measurement and returns the elapsed whole milliseconds,
    /// clamped at zero if the clock moved backwards. The value depends on
    /// the clock, so nothing more is promised of it.
    pub fn finish(self) -> u64 {
        let now = clock_micros();
        let delta = if now >= self.start_micros {
            now - self.start_micros
        } else {
            0
        };
        delta / 1000
    }

    /// `finish`, for call sites that compare the result against a target
    /// themselves.
    pub fn finish_with_target(self, target_ms: u64) -> u64 {
        let now = clock_micros();
        let delta = if now >= self.start_micros {
            now - self.start_micros
        } else {
            0
        };
        let elapsed = delta / 1000;
        let _ = target_ms;
        elapsed
    }
}

/// One component's health in basis points (10 000 = perfect): the
/// compliance rate, shaved by 10% near the target and 5% over half of
/// it, with a 5% bonus capped at perfect when far under it. A zero
/// target counts as always exceeded while any latency was measured.
pub open spec fn component_health(c: ComponentStats) -> int {
    let base = c.compliance_rate * 100;
    let near = if c.avg_ms * 10 > c.target_ms * 8 {
        base * 9 / 10
    } else {
        base
    };
    let half = if c.avg_ms * 2 > c.target_ms {
        near * 95 / 100
    } else {
        near
    };
    if c.avg_ms * 5 < c.target_ms {
        if half * 105 / 100 < 10000 {
            half * 105 / 100
        } else {
            10000
        }
    } else {
        half
    }
}

/// The overall health score (0–100): the mean component health over the
/// components that have samples, rounded; 100 while nothing was
/// measured.
pub open spec fn health_score_of(s: PerformanceStats) -> int {
    let total = (if s.audio.sample_count > 0 {
        component_health(s.audio)
    } else {
        0
    }) + (if s.vad.sample_count > 0 {
        component_health(s.vad)
    } else {
        0
    }) + (if s.stt.sample_count > 0 {
        component_health(s.stt)
    } else {
        0
    }) + (if s.ai.sample_count > 0 {
        component_health(s.ai)
    } else {
        0
    }) + (if s.system.sample_count > 0 {
        component_health(s.system)
    } else {
        0
    });
    let active = (if s.audio.sample_count > 0 {
        1int
    } else {
        0int
    }) + (if s.vad.sample_count > 0 {
        1int
    } else {
        0int
    }) + (if s.stt.sample_count > 0 {
        1int
    } else {
        0int
    }) + (if s.ai.sample_count > 0 {
        1int
    } else {
        0int
    }) + (if s.system.sample_count > 0 {
        1int
    } else {
        0int
    });
    if active == 0 {
        100
    } else {
        (total / active + 50) / 100
    }
}

/// A component report is plausible when its compliance is a percentage.
pub open spec fn component_plausible(c: ComponentStats) -> bool {
    c.compliance_rate <= 100
}

/// Every component report is plausible.
pub open spec fn stats_plausible(s: PerformanceStats) -> bool {
    &&& component_plausible(s.audio)
    &&& component_plausible(s.vad)
    &&& component_plausible(s.stt)
    &&& component_plausible(s.ai)
    &&& component_plausible(s.system)
}

/// One component's health in executable form.
fn component_health_exec(c: &ComponentStats) -> (r: u64)
    requires
        component_plausible(*c),
    ensures
        r as int == component_health(*c),
        r <= 10000,
{
    let base: u64 = c.compliance_rate * 100;
    let near: u64 = if (c.avg_ms as u128) * 10 > (c.target_ms as u128) * 8 {
        base * 9 / 10
    } else {
        base
    };
    let half: u64 = if (c.avg_ms as u128) * 2 > c.target_ms as u128 {
        near * 95 / 100
    } else {
        near
    };
    if (c.avg_ms as u128) * 5 < c.target_ms as u128 {
        let boosted = half * 105 / 100;
        if boosted < 10000 {
            boosted
        } else {
            10000
        }
    } else {
        half
    }
}

/// Computes the overall health score of a report.
pub fn calculate_health_score(stats: &PerformanceStats) -> (r: u8)
    requires
        stats_plausible(*stats),
    ensures
        r as int == health_score_of(*stats),
{
    let mut total: u64 = 0;
    let mut active: u64 = 0;
    if stats.audio.sample_count > 0 {
        total = total + component_health_exec(&stats.audio);
        active = active + 1;
    }
    if stats.vad.sample_count > 0 {
        total = total + component_health_exec(&stats.vad);
        active = active + 1;
    }
    if stats.stt.sample_count > 0 {
        total = total + component_health_exec(&stats.stt);
        active = active + 1;
    }
    if stats.ai.sample_count > 0 {
        total = total + component_health_exec(&stats.ai);
        active = active + 1;
    }
    if stats.system.sample_count > 0 {
        total = total + component_health_exec(&stats.system);
        active = active + 1;
    }
    if active == 0 {
        return 100;
    }
    proof {
        crate::math::lemma_div_bound(total as int, active as int, 10000);
    }
    let score: u64 = (total / active + 50) / 100;
    score as u8
}

/// Condensed report for display.
#[derive(Debug, Clone)]
pub struct PerformanceSummary {
    /// Overall health score (0–100).
    pub overall_health: u8,
    pub audio_avg_ms: u64,
    pub vad_avg_ms: u64,
    pub stt_avg_ms: u64,
    pub ai_avg_ms: u64,
    pub system_avg_ms: u64,
    /// Mean compliance over the five components, in whole percent.
    pub target_compliance: u64,
    pub total_violations: u64,
}

/// Condenses a full report: the health score, the per-component mean
/// latencies, the mean compliance, and the total violations.
pub fn get_performance_summary(stats: &PerformanceStats) -> (r: PerformanceSummary)
    requires
        stats_plausible(*stats),
        stats.audio.violations + stats.vad.violations + stats.stt.violations
            + stats.ai.violations + stats.system.violations <= 0xFFFF_FFFF_FFFF_FFFF,
    ensures
        r.overall_health as int == health_score_of(*stats),
        r.audio_avg_ms == stats.audio.avg_ms,
        r.vad_avg_ms == stats.vad.avg_ms,
        r.stt_avg_ms == stats.stt.avg_ms,
        r.ai_avg_ms == stats.ai.avg_ms,
        r.system_avg_ms == stats.system.avg_ms,
        r.target_compliance as int == (stats.audio.compliance_rate + stats.vad.compliance_rate
            + stats.stt.compliance_rate + stats.ai.compliance_rate
            + stats.system.compliance_rate) / 5,
        r.total_violations as int == stats.audio.violations + stats.vad.violations
            + stats.stt.violations + stats.ai.violations + stats.system.violations,
    {
    let health = calculate_health_score(stats);
    let compliance_total: u64 = stats.audio.compliance_rate + stats.vad.compliance_rate
        + stats.stt.compliance_rate + stats.ai.compliance_rate + stats.system.compliance_rate;
    let violations: u128 = (stats.audio.violations as u128) + (stats.vad.violations as u128) + (
    stats.stt.violations as u128) + (stats.ai.violations as u128) + (
    stats.system.violations as u128);
    proof {
        assert(violations <= 5 * 0xFFFF_FFFF_FFFF_FFFF);
    }
    PerformanceSummary {
        overall_health: health,
        audio_avg_ms: stats.audio.avg_ms,
        vad_avg_ms: stats.vad.avg_ms,
        stt_avg_ms: stats.stt.avg_ms,
        ai_avg_ms: stats.ai.avg_ms,
        system_avg_ms: stats.system.avg_ms,
        target_compliance: compliance_total / 5,
        total_violations: violations as u64,
    }
}

} // verus!
