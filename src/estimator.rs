//! A fixed window of recent tap samples and the tempo it estimates.
//!
//! A sample is an instantaneous tempo in thousandths of a beat per minute,
//! which keeps the mean of the window exact in integer arithmetic. A tap
//! interval's sample is truncated to a thousandth before it is averaged, so
//! the estimate is the truncated mean of those truncated samples: it can be
//! one below the truncated mean of the exact tempos (taps 700 ms and then
//! 1750 ms apart give 59, where 85.714... and 34.285... average to 60).

use vstd::prelude::*;

verus! {

/// How many samples the window keeps.
pub const WINDOW: usize = 10;

/// Thousandths of a beat per minute in one beat per minute.
pub const SAMPLE_SCALE: u32 = 1000;

/// Milliseconds per minute times `SAMPLE_SCALE`: a tap interval of `ms`
/// milliseconds gives a sample of `SCALED_MINUTE / ms`.
pub const SCALED_MINUTE: u32 = 60_000_000;

/// The sum of a sequence of samples.
pub open spec fn sum(s: Seq<u32>) -> int
    decreases s.len(),
{
    if s.len() == 0 {
        0
    } else {
        sum(s.drop_last()) + s.last()
    }
}

/// The last `WINDOW` items of `s` (all of them when there are fewer).
pub open spec fn last_window(s: Seq<u32>) -> Seq<u32> {
    if s.len() <= WINDOW {
        s
    } else {
        s.subrange(s.len() - WINDOW, s.len() as int)
    }
}

/// The estimate for a window: none when it is empty, otherwise the mean of
/// its samples in beats per minute, truncated toward zero.
pub open spec fn mean_bpm(w: Seq<u32>) -> Option<u32> {
    if w.len() == 0 {
        None
    } else {
        Some((sum(w) / (w.len() * SAMPLE_SCALE)) as u32)
    }
}

/// The sample that a tap `elapsed_ms` milliseconds after the previous one
/// gives, in thousandths of a beat per minute truncated toward zero; an
/// interval that is not positive gives none.
pub open spec fn sample_of(elapsed_ms: int) -> Option<u32> {
    if elapsed_ms <= 0 {
        None
    } else {
        Some((SCALED_MINUTE as int / elapsed_ms) as u32)
    }
}

/// The window after pushing each of `pushes`, in order, onto an empty one.
pub open spec fn window_after(pushes: Seq<u32>) -> Seq<u32>
    decreases pushes.len(),
{
    if pushes.len() == 0 {
        Seq::empty()
    } else {
        last_window(window_after(pushes.drop_last()).push(pushes.last()))
    }
}

pub proof fn lemma_sum_concat(a: Seq<u32>, b: Seq<u32>)
    ensures
        sum(a + b) == sum(a) + sum(b),
    decreases b.len(),
{
    if b.len() == 0 {
        assert(a + b =~= a);
    } else {
        lemma_sum_concat(a, b.drop_last());
        assert((a + b).drop_last() =~= a + b.drop_last());
    }
}

proof fn lemma_last_window_push(s: Seq<u32>, x: u32)
    ensures
        last_window(last_window(s).push(x)) == last_window(s.push(x)),
{
    assert(last_window(last_window(s).push(x)) =~= last_window(s.push(x)));
}

/// Pushing any sequence of samples onto a fresh window leaves exactly its
/// last `WINDOW` samples (all of them when there are fewer), so the estimate
/// is the truncated mean of those samples and nothing else.
pub proof fn law_window_keeps_most_recent(pushes: Seq<u32>)
    ensures
        window_after(pushes) == last_window(pushes),
        mean_bpm(window_after(pushes)) == mean_bpm(last_window(pushes)),
        pushes.len() <= WINDOW ==> window_after(pushes) == pushes,
        pushes.len() > 0 ==> mean_bpm(window_after(pushes)) == Some(
            (sum(last_window(pushes)) / (last_window(pushes).len() * SAMPLE_SCALE)) as u32,
        ),
    decreases pushes.len(),
{
    if pushes.len() == 0 {
    } else {
        let init = pushes.drop_last();
        law_window_keeps_most_recent(init);
        lemma_last_window_push(init, pushes.last());
        assert(init.push(pushes.last()) =~= pushes);
    }
}

/// A fresh window gives no estimate.
pub proof fn law_fresh_window_has_no_estimate()
    ensures
        mean_bpm(window_after(Seq::empty())) == None::<u32>,
{
}

/// The sample for a tap at `now_ms` when the previous tap was at
/// `previous_ms`: `SCALED_MINUTE` divided by the interval, or none when the
/// interval is not positive.
pub fn tap_sample(previous_ms: i64, now_ms: i64) -> (r: Option<u32>)
    ensures
        r == sample_of(now_ms - previous_ms),
{
    if now_ms <= previous_ms {
        return None;
    }
    let elapsed: i128 = now_ms as i128 - previous_ms as i128;
    let sample: i128 = SCALED_MINUTE as i128 / elapsed;
    assert(sample <= SCALED_MINUTE) by (nonlinear_arith)
        requires elapsed >= 1, sample == SCALED_MINUTE as i128 / elapsed, SCALED_MINUTE >= 0;
    Some(sample as u32)
}

/// A ring buffer of the most recent tap samples.
pub struct Bpms {
    bpms: Vec<u32>,
    next: usize,
    size: usize,
}

impl Bpms {
    /// The samples in the window, oldest first.
    pub closed spec fn window(&self) -> Seq<u32> {
        if self.size < WINDOW {
            self.bpms@.subrange(0, self.size as int)
        } else {
            self.bpms@.subrange(self.next as int, WINDOW as int) + self.bpms@.subrange(
                0,
                self.next as int,
            )
        }
    }

    pub closed spec fn wf(&self) -> bool {
        &&& self.bpms@.len() == WINDOW
        &&& self.size <= WINDOW
        &&& self.next < WINDOW
        &&& self.size < WINDOW ==> self.next == self.size
    }

    /// An empty window.
    pub fn new() -> (r: Bpms)
        ensures
            r.wf(),
            r.window() == Seq::<u32>::empty(),
            r.window().len() <= WINDOW,
    {
        let r = Bpms { bpms: vec![0u32; WINDOW], next: 0, size: 0 };
        assert(r.window() =~= Seq::<u32>::empty());
        r
    }

    /// Adds a sample, dropping the oldest one when the window is full.
    pub fn push(&mut self, bpm: u32)
        requires
            old(self).wf(),
        ensures
            final(self).wf(),
            final(self).window() == last_window(old(self).window().push(bpm)),
            final(self).window().len() <= WINDOW,
    {
        let ghost before = self.window();
        let ghost old_bpms = self.bpms@;
        self.bpms.set(self.next, bpm);
        let ghost at = self.next as int;
        self.next = (self.next + 1) % WINDOW;
        if self.size < WINDOW {
            self.size = self.size + 1;
        }
        proof {
            let after = before.push(bpm);
            if before.len() < WINDOW {
                assert(before =~= old_bpms.subrange(0, at));
                assert(self.window() =~= after);
            } else {
                assert(self.window() =~= after.subrange(1, after.len() as int));
            }
        }
    }

    /// The mean of the window in beats per minute, truncated toward zero, or
    /// none when no sample has been pushed.
    pub fn avg(&self) -> (r: Option<u32>)
        requires
            self.wf(),
        ensures
            r == mean_bpm(self.window()),
    {
        if self.size == 0 {
            return None;
        }
        let mut total: u64 = 0;
        let mut i: usize = 0;
        while i < self.size
            invariant
                self.wf(),
                i <= self.size,
                total == sum(self.bpms@.subrange(0, i as int)),
                total <= i * 0xffff_ffffu64,
            decreases self.size - i,
        {
            proof {
                assert(self.bpms@.subrange(0, i + 1).drop_last() =~= self.bpms@.subrange(0, i as int));
            }
            total = total + self.bpms[i] as u64;
            i = i + 1;
        }
        proof {
            if self.size == WINDOW {
                let a = self.bpms@.subrange(0, self.next as int);
                let b = self.bpms@.subrange(self.next as int, WINDOW as int);
                lemma_sum_concat(a, b);
                lemma_sum_concat(b, a);
                assert(self.bpms@.subrange(0, WINDOW as int) =~= a + b);
            }
        }
        assert(SAMPLE_SCALE as u64 == 1000);
        let divisor: u64 = self.size as u64 * SAMPLE_SCALE as u64;
        let mean: u64 = total / divisor;
        proof {
            assert(total / divisor <= total / 1000) by (nonlinear_arith)
                requires divisor >= 1000, total >= 0;
            assert(total / 1000 <= 0xffff_ffffu64) by (nonlinear_arith)
                requires total <= 10 * 0xffff_ffffu64;
        }
        Some(mean as u32)
    }
}

} // verus!
