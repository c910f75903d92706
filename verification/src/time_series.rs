//! A bounded buffer of timestamped samples that age out after a fixed
//! window. New samples take an empty slot or an aged-out slot; when the
//! buffer is full of fresh samples, the oldest is evicted. Time is supplied
//! by the caller in milliseconds from a monotonic clock.
use vstd::prelude::*;

verus! {

/// One sample: a value and the time it was recorded.
#[derive(Clone, Copy, Debug, PartialEq, Eq, Structural)]
pub struct TimeSeriesDataPoint {
    pub data: u64,
    pub time_ms: u64,
}

impl TimeSeriesDataPoint {
    pub fn new(data: u64, now_ms: u64) -> (r: Self)
        ensures
            r.data == data,
            r.time_ms == now_ms,
    {
        TimeSeriesDataPoint { data, time_ms: now_ms }
    }
}

/// Whether a sample recorded at `time_ms` is still inside the window at
/// `now_ms`.
pub open spec fn point_fresh(p: TimeSeriesDataPoint, max_age_ms: u64, now_ms: u64) -> bool {
    p.time_ms + max_age_ms > now_ms
}

/// The fresh samples of a slot sequence, oldest slot first.
pub open spec fn fresh_points_of(
    s: Seq<Option<TimeSeriesDataPoint>>,
    max_age_ms: u64,
    now_ms: u64,
) -> Seq<TimeSeriesDataPoint>
    decreases s.len(),
{
    if s.len() == 0 {
        Seq::empty()
    } else {
        let rest = fresh_points_of(s.drop_last(), max_age_ms, now_ms);
        match s.last() {
            Some(p) => if point_fresh(p, max_age_ms, now_ms) {
                rest.push(p)
            } else {
                rest
            },
            None => rest,
        }
    }
}

/// There are never more fresh samples than slots.
pub proof fn lemma_fresh_points_len(
    s: Seq<Option<TimeSeriesDataPoint>>,
    max_age_ms: u64,
    now_ms: u64,
)
    ensures
        fresh_points_of(s, max_age_ms, now_ms).len() <= s.len(),
    decreases s.len(),
{
    if s.len() > 0 {
        lemma_fresh_points_len(s.drop_last(), max_age_ms, now_ms);
    }
}

/// How `add_value` may turn one slot sequence into another: exactly one slot
/// is overwritten with the new sample, and that slot was empty, aged out, or
/// held the oldest sample of a buffer that was full of fresh ones.
pub open spec fn sample_added(
    s_old: Seq<Option<TimeSeriesDataPoint>>,
    s_new: Seq<Option<TimeSeriesDataPoint>>,
    value: u64,
    max_age_ms: u64,
    now_ms: u64,
    j: int,
) -> bool {
    &&& 0 <= j < s_old.len()
    &&& s_new == s_old.update(j, Some(TimeSeriesDataPoint { data: value, time_ms: now_ms }))
    &&& {
        ||| s_old[j] is None
        ||| !point_fresh(s_old[j]->0, max_age_ms, now_ms)
        ||| (forall|k: int|
            0 <= k < s_old.len() ==> (#[trigger] s_old[k]) is Some && s_old[j]->0.time_ms
                <= s_old[k]->0.time_ms)
    }
}

/// A bounded, rolling sample buffer of `N` slots.
#[derive(Clone, Debug)]
pub struct RollingTimeSeries<const N: usize> {
    pub data_points: Vec<Option<TimeSeriesDataPoint>>,
    pub max_age_ms: u64,
}

impl<const N: usize> RollingTimeSeries<N> {
    /// The buffer always holds exactly `N` slots.
    pub open spec fn wf(&self) -> bool {
        self.data_points@.len() == N
    }

    pub fn new(max_age_ms: u64) -> (r: Self)
        ensures
            r.wf(),
            r.max_age_ms == max_age_ms,
            forall|i: int| 0 <= i < N ==> (#[trigger] r.data_points@[i]) is None,
    {
        let mut slots: Vec<Option<TimeSeriesDataPoint>> = Vec::new();
        let mut i: usize = 0;
        while i < N
            invariant
                i <= N,
                slots@.len() == i,
                forall|k: int| 0 <= k < i ==> (#[trigger] slots@[k]) is None,
            decreases N - i,
        {
            slots.push(None);
            i = i + 1;
        }
        RollingTimeSeries { data_points: slots, max_age_ms }
    }

    /// Returns the samples that are still inside the window, in slot order.
    pub fn get_valid_points(&self, now_ms: u64) -> (r: Vec<TimeSeriesDataPoint>)
        ensures
            r@ == fresh_points_of(self.data_points@, self.max_age_ms, now_ms),
    {
        let mut out: Vec<TimeSeriesDataPoint> = Vec::new();
        let mut i: usize = 0;
        let len = self.data_points.len();
        while i < len
            invariant
                i <= len,
                len == self.data_points@.len(),
                out@ == fresh_points_of(
                    self.data_points@.subrange(0, i as int),
                    self.max_age_ms,
                    now_ms,
                ),
            decreases len - i,
        {
            let ghost prefix = self.data_points@.subrange(0, i as int);
            match &self.data_points[i] {
                Some(p) => {
                    let fresh = match p.time_ms.checked_add(self.max_age_ms) {
                        Some(edge) => edge > now_ms,
                        None => true,
                    };
                    if fresh {
                        out.push(*p);
                    }
                }
                None => {}
            }
            proof {
                let next = self.data_points@.subrange(0, i + 1);
                assert(next.drop_last() =~= prefix);
                assert(next.last() == self.data_points@[i as int]);
            }
            i = i + 1;
        }
        proof {
            assert(self.data_points@.subrange(0, self.data_points@.len() as int)
                =~= self.data_points@);
        }
        out
    }

    /// Records a sample, taking an empty or aged-out slot if one exists, and
    /// otherwise evicting the oldest sample.
    pub fn add_value(&mut self, value: u64, now_ms: u64)
        requires
            old(self).wf(),
            N >= 1,
        ensures
            final(self).wf(),
            final(self).max_age_ms == old(self).max_age_ms,
            exists|j: int|
                #![trigger sample_added(
                    old(self).data_points@,
                    final(self).data_points@,
                    value,
                    old(self).max_age_ms,
                    now_ms,
                    j,
                )]
                sample_added(
                    old(self).data_points@,
                    final(self).data_points@,
                    value,
                    old(self).max_age_ms,
                    now_ms,
                    j,
                ),
    {
        let ghost s_old = self.data_points@;
        let point = TimeSeriesDataPoint { data: value, time_ms: now_ms };
        let len = self.data_points.len();
        let mut oldest: usize = 0;
        let mut i: usize = 0;
        while i < len
            invariant
                s_old == self.data_points@,
                s_old == old(self).data_points@,
                self.max_age_ms == old(self).max_age_ms,
                point == (TimeSeriesDataPoint { data: value, time_ms: now_ms }),
                self.data_points@.len() == len,
                N == len,
                N >= 1,
                i <= len,
                i > 0 ==> oldest < i,
                forall|k: int|
                    0 <= k < i ==> (#[trigger] self.data_points@[k]) is Some && point_fresh(
                        self.data_points@[k]->0,
                        self.max_age_ms,
                        now_ms,
                    ),
                i > 0 ==> forall|k: int|
                    0 <= k < i ==> self.data_points@[oldest as int]->0.time_ms
                        <= (#[trigger] self.data_points@[k])->0.time_ms,
            decreases len - i,
        {
            let replace_here = match &self.data_points[i] {
                Some(p) => {
                    let fresh = match p.time_ms.checked_add(self.max_age_ms) {
                        Some(edge) => edge > now_ms,
                        None => true,
                    };
                    !fresh
                }
                None => true,
            };
            if replace_here {
                self.data_points[i] = Some(point);
                proof {
                    assert(self.data_points@ =~= s_old.update(
                        i as int,
                        Some(TimeSeriesDataPoint { data: value, time_ms: now_ms }),
                    ));
                    assert(sample_added(s_old, self.data_points@, value, self.max_age_ms,
                        now_ms, i as int));
                }
                return;
            }
            match &self.data_points[i] {
                Some(p) => {
                    if i == 0 {
                        oldest = 0;
                    } else {
                        let oldest_time = match &self.data_points[oldest] {
                            Some(q) => q.time_ms,
                            None => 0,
                        };
                        if p.time_ms < oldest_time {
                            oldest = i;
                        }
                    }
                }
                None => {}
            }
            i = i + 1;
        }
        self.data_points[oldest] = Some(point);
        proof {
            assert(self.data_points@ =~= s_old.update(
                oldest as int,
                Some(TimeSeriesDataPoint { data: value, time_ms: now_ms }),
            ));
            assert(sample_added(s_old, self.data_points@, value, self.max_age_ms, now_ms,
                oldest as int));
        }
    }
}

} // verus!
