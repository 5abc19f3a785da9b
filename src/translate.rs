use vstd::prelude::*;

verus! {

/// One input event, reduced to what the translation reads from it.
#[derive(Clone, Copy, Debug, PartialEq, Eq, Structural)]
pub enum MotionEvent {
    /// Relative motion along X, by a signed delta.
    RelX(i32),
    /// Any other event; it leaves the position alone.
    Other,
}

/// `v` restricted to the closed interval `[lo, hi]`.
pub open spec fn clamp(v: int, lo: int, hi: int) -> int {
    if v < lo {
        lo
    } else if v > hi {
        hi
    } else {
        v
    }
}

/// `v` saturated to the range of an `i64`.
pub open spec fn saturate_i64(v: int) -> int {
    if v < i64::MIN {
        i64::MIN as int
    } else if v > i64::MAX {
        i64::MAX as int
    } else {
        v
    }
}

/// The accumulated position after one event.
pub open spec fn step_acc(acc: int, ev: MotionEvent) -> int {
    match ev {
        MotionEvent::RelX(d) => saturate_i64(acc + d),
        MotionEvent::Other => acc,
    }
}

/// The accumulated position after a sequence of events, applied in order.
pub open spec fn accumulate(acc: int, evs: Seq<MotionEvent>) -> int
    decreases evs.len(),
{
    if evs.len() == 0 {
        acc
    } else {
        step_acc(accumulate(acc, evs.drop_last()), evs.last())
    }
}

/// The values emitted while a sequence of events is applied: one clamped
/// position for each relative-X event, in arrival order.
pub open spec fn emitted(acc: int, evs: Seq<MotionEvent>, lo: int, hi: int) -> Seq<i32>
    decreases evs.len(),
{
    if evs.len() == 0 {
        Seq::empty()
    } else {
        let before = emitted(acc, evs.drop_last(), lo, hi);
        match evs.last() {
            MotionEvent::RelX(_) => before.push(clamp(accumulate(acc, evs), lo, hi) as i32),
            MotionEvent::Other => before,
        }
    }
}

/// The plain sum of the relative-X deltas of a sequence of events.
pub open spec fn sum_deltas(evs: Seq<MotionEvent>) -> int
    decreases evs.len(),
{
    if evs.len() == 0 {
        0
    } else {
        sum_deltas(evs.drop_last()) + match evs.last() {
            MotionEvent::RelX(d) => d as int,
            MotionEvent::Other => 0,
        }
    }
}

/// The position state of the translation loop.
///
/// `accumulated_x` is the running sum of the deltas (saturating only at the
/// bounds of `i64`) and is never clamped; `clamped_x` is the value last
/// emitted, always `accumulated_x` clamped to `[range_min, range_max]`.
pub struct Translator {
    pub range_min: i32,
    pub range_max: i32,
    pub accumulated_x: i64,
    pub clamped_x: i32,
}

impl Translator {
    pub open spec fn wf(&self) -> bool {
        &&& self.range_min <= self.range_max
        &&& self.clamped_x == clamp(
            self.accumulated_x as int,
            self.range_min as int,
            self.range_max as int,
        )
    }

    /// A translator resting at position zero.
    pub fn new(range_min: i32, range_max: i32) -> (r: Translator)
        requires
            range_min <= range_max,
        ensures
            r.wf(),
            r.range_min == range_min,
            r.range_max == range_max,
            r.accumulated_x == 0,
    {
        let c: i32 = if 0 < range_min {
            range_min
        } else if 0 > range_max {
            range_max
        } else {
            0
        };
        Translator { range_min, range_max, accumulated_x: 0, clamped_x: c }
    }

    /// Applies one event. A relative-X event moves the accumulated position
    /// and returns the clamped position to emit; any other event returns
    /// `None` and changes nothing.
    pub fn apply(&mut self, ev: MotionEvent) -> (r: Option<i32>)
        requires
            old(self).wf(),
        ensures
            final(self).wf(),
            final(self).range_min == old(self).range_min,
            final(self).range_max == old(self).range_max,
            final(self).accumulated_x == step_acc(old(self).accumulated_x as int, ev),
            r == match ev {
                MotionEvent::RelX(_) => Some(final(self).clamped_x),
                MotionEvent::Other => None::<i32>,
            },
            ev == MotionEvent::Other ==> *final(self) == *old(self),
    {
        match ev {
            MotionEvent::RelX(d) => {
                let a = self.accumulated_x;
                let d64 = d as i64;
                let next: i64 = if d64 > 0 && a > i64::MAX - d64 {
                    i64::MAX
                } else if d64 < 0 && a < i64::MIN - d64 {
                    i64::MIN
                } else {
                    a + d64
                };
                let c: i32 = if next < self.range_min as i64 {
                    self.range_min
                } else if next > self.range_max as i64 {
                    self.range_max
                } else {
                    next as i32
                };
                self.accumulated_x = next;
                self.clamped_x = c;
                Some(c)
            },
            MotionEvent::Other => None,
        }
    }

    /// Applies a batch of events in arrival order and returns the positions
    /// to emit, one for each relative-X event.
    pub fn process_batch(&mut self, events: &Vec<MotionEvent>) -> (r: Vec<i32>)
        requires
            old(self).wf(),
        ensures
            final(self).wf(),
            final(self).range_min == old(self).range_min,
            final(self).range_max == old(self).range_max,
            final(self).accumulated_x == accumulate(old(self).accumulated_x as int, events@),
            r@ == emitted(
                old(self).accumulated_x as int,
                events@,
                old(self).range_min as int,
                old(self).range_max as int,
            ),
    {
        let ghost acc0 = self.accumulated_x as int;
        let ghost lo = self.range_min as int;
        let ghost hi = self.range_max as int;
        let mut out: Vec<i32> = Vec::new();
        let mut i: usize = 0;
        while i < events.len()
            invariant
                i <= events@.len(),
                self.wf(),
                self.range_min == lo,
                self.range_max == hi,
                self.accumulated_x == accumulate(acc0, events@.subrange(0, i as int)),
                out@ == emitted(acc0, events@.subrange(0, i as int), lo, hi),
            decreases events@.len() - i,
        {
            let ev = events[i];
            let r = self.apply(ev);
            proof {
                let pre = events@.subrange(0, i as int);
                let cur = events@.subrange(0, i + 1);
                assert(cur.drop_last() =~= pre);
                assert(cur.last() == ev);
            }
            match r {
                Some(v) => out.push(v),
                None => {},
            }
            i = i + 1;
        }
        assert(events@.subrange(0, events@.len() as int) =~= events@);
        out
    }
}

/// Splitting a sequence of events into batches does not change where the
/// accumulated position ends up.
pub proof fn lemma_batching(acc: int, a: Seq<MotionEvent>, b: Seq<MotionEvent>)
    ensures
        accumulate(acc, a + b) == accumulate(accumulate(acc, a), b),
    decreases b.len(),
{
    if b.len() == 0 {
        assert(a + b =~= a);
    } else {
        assert((a + b).drop_last() =~= a + b.drop_last());
        lemma_batching(acc, a, b.drop_last());
    }
}

/// As long as the running sums stay within `i64`, the accumulated position
/// starting from zero is the plain sum of the deltas.
pub proof fn lemma_accumulate_is_sum(evs: Seq<MotionEvent>)
    requires
        forall|k: int|
            0 <= k <= evs.len() ==> i64::MIN <= #[trigger] sum_deltas(evs.subrange(0, k))
                <= i64::MAX,
    ensures
        accumulate(0, evs) == sum_deltas(evs),
    decreases evs.len(),
{
    if evs.len() > 0 {
        let p = evs.drop_last();
        assert forall|k: int| 0 <= k <= p.len() implies i64::MIN <= #[trigger] sum_deltas(
            p.subrange(0, k),
        ) <= i64::MAX by {
            assert(p.subrange(0, k) =~= evs.subrange(0, k));
        }
        lemma_accumulate_is_sum(p);
        assert(evs.subrange(0, evs.len() as int) =~= evs);
    }
}

/// After any sequence of events, split into batches in any way, the position
/// emitted last is the sum of all deltas clamped to the range (while the
/// running sums stay within `i64`).
pub proof fn lemma_clamped_is_clamp_of_sum(
    a: Seq<MotionEvent>,
    b: Seq<MotionEvent>,
    lo: int,
    hi: int,
)
    requires
        forall|k: int|
            0 <= k <= (a + b).len() ==> i64::MIN <= #[trigger] sum_deltas(
                (a + b).subrange(0, k),
            ) <= i64::MAX,
    ensures
        clamp(accumulate(accumulate(0, a), b), lo, hi) == clamp(sum_deltas(a + b), lo, hi),
{
    lemma_batching(0, a, b);
    lemma_accumulate_is_sum(a + b);
}

/// A relative-X event with a zero delta leaves the position where it was.
pub proof fn lemma_zero_delta(acc: int, lo: int, hi: int)
    requires
        i64::MIN <= acc <= i64::MAX,
    ensures
        step_acc(acc, MotionEvent::RelX(0)) == acc,
        clamp(step_acc(acc, MotionEvent::RelX(0)), lo, hi) == clamp(acc, lo, hi),
{
}

/// Once the accumulated position has run past the top of the range, a
/// negative delta smaller than the overshoot is absorbed by the overshoot:
/// the emitted position stays at the top.
pub proof fn lemma_rubber_band(acc: int, d: i32, lo: int, hi: int)
    requires
        lo <= hi,
        hi < acc <= i64::MAX,
        d < 0,
        -d < acc - hi,
    ensures
        clamp(step_acc(acc, MotionEvent::RelX(d)), lo, hi) == hi,
{
}

} // verus!
