//! Fixed-capacity circular sample store with wrap-around writes and
//! time-windowed reads.
//!
//! The abstract state is `stored()`: the valid samples in chronological
//! order, oldest first. A write appends up to `capacity` samples of the
//! frame and keeps the last `capacity` of the result; a read returns the
//! most recent `min(sample_rate * duration / 1000, size)` samples.

use vstd::prelude::*;

use crate::audio_types::{valid_samples, AudioFrame};
use crate::error::AudioError;

verus! {

/// The last `cap` elements of `s` (all of `s` when it is short enough).
pub open spec fn keep_last(s: Seq<i32>, cap: int) -> Seq<i32> {
    if s.len() <= cap {
        s
    } else {
        s.skip(s.len() - cap)
    }
}

/// Circular buffer over fixed-point samples.
pub struct CircularBuffer {
    /// Backing store; always exactly `capacity` samples long.
    pub data: Vec<i32>,
    /// Next position to overwrite.
    pub write_pos: usize,
    /// Reserved read cursor; the read path derives its own start.
    pub read_pos: usize,
    /// Capacity in samples.
    pub capacity: usize,
    /// Number of valid samples stored.
    pub size: usize,
    /// Whether the buffer has wrapped at least once.
    pub is_full: bool,
    /// Sample rate used for duration arithmetic.
    pub sample_rate: u32,
}

impl CircularBuffer {
    /// Structural invariant.
    pub open spec fn wf(self) -> bool {
        &&& 1 <= self.capacity <= 0xFFFF_FFFF
        &&& self.data@.len() == self.capacity
        &&& self.size <= self.capacity
        &&& self.write_pos < self.capacity
        &&& (self.is_full <==> self.size == self.capacity)
        &&& (!self.is_full ==> self.write_pos == self.size)
        &&& self.read_pos == 0
        &&& self.sample_rate >= 1
        &&& valid_samples(self.data@)
    }

    /// The stored samples, oldest first.
    pub open spec fn stored(self) -> Seq<i32> {
        if self.size < self.capacity {
            self.data@.take(self.size as int)
        } else {
            self.data@.skip(self.write_pos as int) + self.data@.take(self.write_pos as int)
        }
    }

    /// How many samples a read over `duration_ms` returns:
    /// `min(sample_rate * duration_ms / 1000, size)`.
    pub open spec fn read_window(self, duration_ms: u64) -> int {
        let needed = (self.sample_rate as int) * (duration_ms as int) / 1000;
        if needed < self.size as int {
            needed
        } else {
            self.size as int
        }
    }

    /// The samples a read over `duration_ms` returns: the most recent
    /// `read_window` entries of `stored()`, in chronological order.
    pub open spec fn recent(self, duration_ms: u64) -> Seq<i32> {
        self.stored().skip(self.size - self.read_window(duration_ms))
    }

    /// Whether at least `sample_rate * min_duration_ms / 1000` samples are
    /// stored.
    pub open spec fn sufficient_for(self, min_duration_ms: u64) -> bool {
        self.size as int >= (self.sample_rate as int) * (min_duration_ms as int) / 1000
    }

    /// Creates a buffer spanning `duration_ms` at `sample_rate`; rejected
    /// when the capacity rounds to zero.
    pub fn new(sample_rate: u32, duration_ms: u64) -> (r: Result<CircularBuffer, AudioError>)
        requires
            (sample_rate as int) * (duration_ms as int) / 1000 <= 0xFFFF_FFFF,
        ensures
            r is Err <==> (sample_rate as int) * (duration_ms as int) / 1000 == 0,
            r is Err ==> r->Err_0 is CaptureInitFailed,
            r is Ok ==> {
                let b = r->Ok_0;
                &&& b.wf()
                &&& b.capacity as int == (sample_rate as int) * (duration_ms as int) / 1000
                &&& b.sample_rate == sample_rate
                &&& b.size == 0
                &&& b.write_pos == 0
                &&& !b.is_full
                &&& b.stored() =~= Seq::<i32>::empty()
                &&& forall|i: int| 0 <= i < b.data@.len() ==> #[trigger] b.data@[i] == 0i32
            },
    {
        let capacity128: u128 = crate::math::samples_for_duration(sample_rate, duration_ms);
        if capacity128 == 0 {
            return Err(
                AudioError::CaptureInitFailed(String::from_str("buffer capacity cannot be zero")),
            );
        }
        let capacity: usize = capacity128 as usize;
        let mut data: Vec<i32> = Vec::new();
        let mut i: usize = 0;
        while i < capacity
            invariant
                i <= capacity,
                data@.len() == i,
                forall|j: int| 0 <= j < i ==> data@[j] == 0i32,
            decreases capacity - i,
        {
            data.push(0);
            i = i + 1;
        }
        Ok(
            CircularBuffer {
                data,
                write_pos: 0,
                read_pos: 0,
                capacity,
                size: 0,
                is_full: false,
                sample_rate,
            },
        )
    }

    /// Appends the frame's samples, overwriting the oldest ones once the
    /// store wraps; at most `capacity` samples of one frame are kept.
    /// Returns the number of samples written.
    #[verifier::rlimit(100)]
    pub fn write_frame(&mut self, frame: &AudioFrame) -> (r: Result<usize, AudioError>)
        requires
            old(self).wf(),
            valid_samples(frame.data@),
        ensures
            final(self).wf(),
            final(self).capacity == old(self).capacity,
            final(self).sample_rate == old(self).sample_rate,
            r is Ok,
            r->Ok_0 as int == if frame.data@.len() as int <= old(self).capacity as int {
                frame.data@.len() as int
            } else {
                old(self).capacity as int
            },
            final(self).stored() == keep_last(
                old(self).stored() + frame.data@.take(r->Ok_0 as int),
                old(self).capacity as int,
            ),
            // The write cursor advances by the written count, modulo
            // capacity.
            final(self).write_pos as int == (old(self).write_pos + r->Ok_0 as int) % (old(
                self,
            ).capacity as int),
            // Cell level: sample `i` of the frame lands `i` places past
            // the old cursor, wrapping; every other cell is untouched.
            forall|i: int|
                0 <= i < r->Ok_0 as int ==> #[trigger] frame.data@[i] == final(self).data@[(old(
                    self,
                ).write_pos + i) % (old(self).capacity as int)],
            forall|k: int|
                0 <= k < old(self).capacity as int && (k - old(self).write_pos as int) % (old(
                    self,
                ).capacity as int) >= r->Ok_0 as int ==> #[trigger] final(self).data@[k] == old(
                    self,
                ).data@[k],
            frame.data@.len() == 0 ==> *final(self) == *old(self),
    {
        let ghost pre = *self;
        if frame.data.len() == 0 {
            proof {
                assert(pre.stored() + frame.data@.take(0) =~= pre.stored());
                crate::math::lemma_mod_in_range(pre.write_pos as int, pre.capacity as int);
            }
            return Ok(0);
        }
        let cap = self.capacity;
        let w = if frame.data.len() < cap {
            frame.data.len()
        } else {
            cap
        };
        let wp = self.write_pos;
        if w <= cap - wp {
            // One contiguous range.
            let mut i: usize = 0;
            while i < w
                invariant
                    pre.wf(),
                    i <= w,
                    1 <= w <= cap - wp,
                    cap == pre.capacity,
                    wp == pre.write_pos,
                    w <= frame.data@.len(),
                    self.write_pos == pre.write_pos,
                    self.read_pos == pre.read_pos,
                    self.size == pre.size,
                    self.is_full == pre.is_full,
                    self.sample_rate == pre.sample_rate,
                    self.capacity == pre.capacity,
                    self.data@.len() == cap,
                    forall|k: int|
                        0 <= k < cap ==> #[trigger] self.data@[k] == if wp <= k < wp + i {
                            frame.data@[k - wp]
                        } else {
                            pre.data@[k]
                        },
                decreases w - i,
            {
                let v = frame.data[i];
                self.data[wp + i] = v;
                i = i + 1;
            }
            self.write_pos = if wp + w == cap {
                0
            } else {
                wp + w
            };
        } else {
            // The write straddles the end of the store: two ranges.
            let first = cap - wp;
            let rest = w - first;
            let mut i: usize = 0;
            while i < first
                invariant
                    pre.wf(),
                    i <= first,
                    first == cap - wp,
                    cap == pre.capacity,
                    wp == pre.write_pos,
                    first < w <= cap,
                    w <= frame.data@.len(),
                    self.write_pos == pre.write_pos,
                    self.read_pos == pre.read_pos,
                    self.size == pre.size,
                    self.is_full == pre.is_full,
                    self.sample_rate == pre.sample_rate,
                    self.capacity == pre.capacity,
                    self.data@.len() == cap,
                    forall|k: int|
                        0 <= k < cap ==> #[trigger] self.data@[k] == if wp <= k < wp + i {
                            frame.data@[k - wp]
                        } else {
                            pre.data@[k]
                        },
                decreases first - i,
            {
                let v = frame.data[i];
                self.data[wp + i] = v;
                i = i + 1;
            }
            let mut j: usize = 0;
            while j < rest
                invariant
                    pre.wf(),
                    j <= rest,
                    rest == w - first,
                    first == cap - wp,
                    cap == pre.capacity,
                    wp == pre.write_pos,
                    first < w <= cap,
                    w <= frame.data@.len(),
                    self.write_pos == pre.write_pos,
                    self.read_pos == pre.read_pos,
                    self.size == pre.size,
                    self.is_full == pre.is_full,
                    self.sample_rate == pre.sample_rate,
                    self.capacity == pre.capacity,
                    self.data@.len() == cap,
                    forall|k: int|
                        0 <= k < cap ==> #[trigger] self.data@[k] == if wp <= k {
                            frame.data@[k - wp]
                        } else if k < j {
                            frame.data@[first + k]
                        } else {
                            pre.data@[k]
                        },
                decreases rest - j,
            {
                let v = frame.data[first + j];
                self.data[j] = v;
                j = j + 1;
            }
            self.write_pos = rest;
        }
        if w >= cap - self.size {
            self.is_full = true;
            self.size = cap;
        } else {
            self.size = self.size + w;
        }
        proof {
            let capi = cap as int;
            let wpi = pre.write_pos as int;
            let wi = w as int;
            // Cursor arithmetic, one case per wrap situation.
            if w <= cap - pre.write_pos {
                if wpi + wi == capi {
                    broadcast use vstd::arithmetic::div_mod::lemma_mod_self_0;

                    assert(self.write_pos as int == (wpi + wi) % capi);
                } else {
                    crate::math::lemma_mod_in_range(wpi + wi, capi);
                }
            } else {
                crate::math::lemma_mod_shift_down(wpi + wi, capi);
            }
            // Cell level: where each written sample landed.
            assert forall|i: int| 0 <= i < wi implies #[trigger] frame.data@[i] == self.data@[(wpi
                + i) % capi] by {
                if w <= cap - pre.write_pos {
                    crate::math::lemma_mod_in_range(wpi + i, capi);
                } else {
                    if i < capi - wpi {
                        crate::math::lemma_mod_in_range(wpi + i, capi);
                    } else {
                        crate::math::lemma_mod_shift_down(wpi + i, capi);
                    }
                }
            }
            // Cell level: everything farther than the written count from
            // the old cursor kept its value.
            assert forall|k: int|
                0 <= k < capi && (k - wpi) % capi >= wi implies #[trigger] self.data@[k]
                == pre.data@[k] by {
                if k >= wpi {
                    crate::math::lemma_mod_in_range(k - wpi, capi);
                } else {
                    crate::math::lemma_mod_shift_up(k - wpi, capi);
                }
            }
            let written = frame.data@.take(w as int);
            let all = pre.stored() + written;
            let target = keep_last(all, cap as int);
            assert(valid_samples(self.data@));
            if pre.size < pre.capacity {
                if w < cap - pre.size {
                    assert(self.stored() =~= target);
                } else if w <= cap - pre.write_pos {
                    assert(self.stored() =~= target);
                } else {
                    assert(self.stored() =~= target);
                }
            } else {
                if w <= cap - pre.write_pos {
                    assert(self.stored() =~= target);
                } else {
                    assert(self.stored() =~= target);
                }
            }
        }
        Ok(w)
    }

    /// Returns the samples of the last `duration_ms` milliseconds, oldest
    /// first, never more than are stored.
    pub fn read_recent(&self, duration_ms: u64) -> (r: Result<Vec<i32>, AudioError>)
        requires
            self.wf(),
        ensures
            r is Ok,
            r->Ok_0@ == self.recent(duration_ms),
            r->Ok_0@.len() == self.read_window(duration_ms),
            valid_samples(r->Ok_0@),
    {
        let needed128: u128 = crate::math::samples_for_duration(self.sample_rate, duration_ms);
        let needed: usize = if needed128 >= self.size as u128 {
            self.size
        } else {
            needed128 as usize
        };
        if needed == 0 {
            proof {
                assert(self.recent(duration_ms) =~= Seq::<i32>::empty());
            }
            return Ok(Vec::new());
        }
        let cap = self.capacity;
        let wp = self.write_pos;
        let read_start: usize = if wp >= needed {
            wp - needed
        } else if self.is_full {
            cap - (needed - wp)
        } else {
            0
        };
        let mut out: Vec<i32> = Vec::new();
        if needed <= cap - read_start {
            // One contiguous range.
            let mut i: usize = 0;
            while i < needed
                invariant
                    i <= needed,
                    read_start + needed <= cap,
                    self.data@.len() == cap,
                    out@.len() == i,
                    forall|j: int| 0 <= j < i ==> out@[j] == self.data@[read_start + j],
                decreases needed - i,
            {
                let v = self.data[read_start + i];
                out.push(v);
                i = i + 1;
            }
        } else {
            // Wrapped: tail of the store, then its head.
            let first = cap - read_start;
            let rest = needed - first;
            let mut i: usize = 0;
            while i < first
                invariant
                    i <= first,
                    first == cap - read_start,
                    read_start < cap,
                    self.data@.len() == cap,
                    out@.len() == i,
                    forall|j: int| 0 <= j < i ==> out@[j] == self.data@[read_start + j],
                decreases first - i,
            {
                let v = self.data[read_start + i];
                out.push(v);
                i = i + 1;
            }
            let mut j: usize = 0;
            while j < rest
                invariant
                    j <= rest,
                    first == cap - read_start,
                    read_start < cap,
                    rest < cap,
                    self.data@.len() == cap,
                    out@.len() == first + j,
                    forall|t: int| 0 <= t < first ==> out@[t] == self.data@[read_start + t],
                    forall|t: int| 0 <= t < j ==> out@[first + t] == self.data@[t],
                decreases rest - j,
            {
                let v = self.data[j];
                out.push(v);
                j = j + 1;
            }
        }
        proof {
            assert(out@ =~= self.recent(duration_ms));
        }
        Ok(out)
    }

    /// Current capacity, fill level and wrap flag.
    pub fn get_stats(&self) -> (r: BufferStats)
        requires
            self.wf(),
        ensures
            r.capacity == self.capacity,
            r.current_size == self.size,
            r.usage_percent as int == (self.size as int) * 100 / (self.capacity as int),
            r.is_full == self.is_full,
            r.duration_stored_ms as int == (self.size as int) * 1000 / (self.sample_rate as int),
            r.write_position == self.write_pos,
            r.read_position == self.read_pos,
    {
        let usage: u32 = (((self.size as u128) * 100) / (self.capacity as u128)) as u32;
        let duration: u64 = (((self.size as u128) * 1000) / (self.sample_rate as u128)) as u64;
        proof {
            assert((self.size as int) * 100 / (self.capacity as int) <= 100) by (nonlinear_arith)
                requires
                    0 <= self.size <= self.capacity,
                    self.capacity >= 1,
            {
            }
            assert((self.size as int) * 1000 / (self.sample_rate as int) <= (self.size as int)
                * 1000) by (nonlinear_arith)
                requires
                    self.sample_rate >= 1,
                    self.size >= 0,
            {
            }
        }
        BufferStats {
            capacity: self.capacity,
            current_size: self.size,
            usage_percent: usage,
            is_full: self.is_full,
            duration_stored_ms: duration,
            write_position: self.write_pos,
            read_position: self.read_pos,
        }
    }

    /// Zeroes the store and resets cursor, count and wrap flag.
    pub fn clear(&mut self) -> (r: Result<(), AudioError>)
        requires
            old(self).wf(),
        ensures
            final(self).wf(),
            r is Ok,
            final(self).capacity == old(self).capacity,
            final(self).sample_rate == old(self).sample_rate,
            final(self).size == 0,
            final(self).write_pos == 0,
            !final(self).is_full,
            final(self).stored() =~= Seq::<i32>::empty(),
            forall|i: int| 0 <= i < final(self).data@.len() ==> final(self).data@[i] == 0i32,
    {
        let ghost pre = *self;
        let cap = self.capacity;
        let mut i: usize = 0;
        while i < cap
            invariant
                pre.wf(),
                i <= cap,
                cap == pre.capacity,
                self.write_pos == pre.write_pos,
                self.read_pos == pre.read_pos,
                self.size == pre.size,
                self.is_full == pre.is_full,
                self.sample_rate == pre.sample_rate,
                self.capacity == pre.capacity,
                self.data@.len() == cap,
                valid_samples(self.data@),
                forall|j: int| 0 <= j < i ==> self.data@[j] == 0i32,
            decreases cap - i,
        {
            self.data[i] = 0;
            i = i + 1;
        }
        self.write_pos = 0;
        self.read_pos = 0;
        self.size = 0;
        self.is_full = false;
        Ok(())
    }

    /// Whether enough audio for `min_duration_ms` milliseconds is stored.
    pub fn has_sufficient_data(&self, min_duration_ms: u64) -> (r: bool)
        requires
            self.wf(),
        ensures
            r == self.sufficient_for(min_duration_ms),
    {
        let min_samples: u128 = crate::math::samples_for_duration(self.sample_rate, min_duration_ms);
        (self.size as u128) >= min_samples
    }
}

/// The part of one frame that a write keeps: the first `capacity` samples,
/// the rest is dropped.
pub open spec fn written_part(frame: Seq<i32>, cap: int) -> Seq<i32> {
    if frame.len() <= cap {
        frame
    } else {
        frame.take(cap)
    }
}

/// The buffer contents after a sequence of writes, each applied as
/// `write_frame`'s contract states it.
pub open spec fn write_sequence(start: Seq<i32>, frames: Seq<Seq<i32>>, cap: int) -> Seq<i32>
    decreases frames.len(),
{
    if frames.len() == 0 {
        start
    } else {
        write_sequence(
            keep_last(start + written_part(frames.first(), cap), cap),
            frames.drop_first(),
            cap,
        )
    }
}

/// All samples that a sequence of writes actually writes, in order.
pub open spec fn written_parts(frames: Seq<Seq<i32>>, cap: int) -> Seq<i32>
    decreases frames.len(),
{
    if frames.len() == 0 {
        Seq::<i32>::empty()
    } else {
        written_part(frames.first(), cap) + written_parts(frames.drop_first(), cap)
    }
}

/// Truncating to the last `cap` samples absorbs an earlier truncation.
pub proof fn lemma_keep_last_absorb(a: Seq<i32>, b: Seq<i32>, cap: int)
    requires
        cap >= 0,
    ensures
        keep_last(keep_last(a, cap) + b, cap) =~= keep_last(a + b, cap),
{
}

/// Wrap correctness: after any sequence of writes the buffer holds exactly
/// the last `capacity` samples that were written, in original order; a
/// shorter total leaves everything written after the starting contents.
pub proof fn lemma_wrap_correctness(start: Seq<i32>, frames: Seq<Seq<i32>>, cap: int)
    requires
        cap >= 1,
        start.len() <= cap,
    ensures
        write_sequence(start, frames, cap) =~= keep_last(start + written_parts(frames, cap), cap),
        written_parts(frames, cap).len() >= cap ==> write_sequence(start, frames, cap)
            =~= keep_last(written_parts(frames, cap), cap),
    decreases frames.len(),
{
    if frames.len() == 0 {
        assert(start + written_parts(frames, cap) =~= start);
    } else {
        let w0 = written_part(frames.first(), cap);
        let rest = frames.drop_first();
        let next = keep_last(start + w0, cap);
        lemma_wrap_correctness(next, rest, cap);
        lemma_keep_last_absorb(start + w0, written_parts(rest, cap), cap);
        assert((start + w0) + written_parts(rest, cap) =~= start + written_parts(frames, cap));
        if written_parts(frames, cap).len() >= cap {
            assert(keep_last(start + written_parts(frames, cap), cap) =~= keep_last(
                written_parts(frames, cap),
                cap,
            ));
        }
    }
}

/// Idempotent clear: with nothing stored, every read returns the empty
/// sequence, and no window that spans at least one sample is sufficient.
pub proof fn lemma_clear_idempotent(b: CircularBuffer, duration_ms: u64, min_duration_ms: u64)
    requires
        b.wf(),
        b.size == 0,
    ensures
        b.read_window(duration_ms) == 0,
        b.recent(duration_ms) =~= Seq::<i32>::empty(),
        (b.sample_rate as int) * (min_duration_ms as int) / 1000 >= 1 ==> !b.sufficient_for(
            min_duration_ms,
        ),
{
    assert((b.sample_rate as int) * (duration_ms as int) >= 0) by (nonlinear_arith)
        requires
            b.sample_rate >= 0,
            duration_ms >= 0,
    {
    }
}

/// Snapshot of the buffer's fill state.
#[derive(Debug, Clone)]
pub struct BufferStats {
    pub capacity: usize,
    pub current_size: usize,
    /// Fill level in whole percent.
    pub usage_percent: u32,
    pub is_full: bool,
    /// Stored audio expressed as milliseconds at the buffer's sample rate.
    pub duration_stored_ms: u64,
    pub write_position: usize,
    pub read_position: usize,
}

} // verus!
