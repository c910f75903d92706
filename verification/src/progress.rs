//! Progress accounting for one upload task: a monotonic bytes-done counter
//! plus a bounded window of recent samples, from which throughput, ETA and
//! completion are derived on demand. A part attempt that the remote rejects
//! as busy is rolled back by exactly the bytes it had credited, so a byte
//! range is never counted twice. All times are caller-supplied milliseconds
//! from a monotonic clock; throughput is bytes per second.
use vstd::prelude::*;

use crate::time_series::{
    fresh_points_of, lemma_fresh_points_len, sample_added, RollingTimeSeries, TimeSeriesDataPoint,
};

verus! {

/// How many sample slots the speed window holds.
pub const SPEED_SLOTS: usize = 5000;

/// How long a sample stays in the window, in milliseconds.
pub const SPEED_WINDOW_MS: u64 = 10000;

/// The sum of the sample values of a sequence.
pub open spec fn sum_data(s: Seq<TimeSeriesDataPoint>) -> int
    decreases s.len(),
{
    if s.len() == 0 {
        0
    } else {
        sum_data(s.drop_last()) + s.last().data
    }
}

/// The earliest sample time of a non-empty sequence.
pub open spec fn min_time(s: Seq<TimeSeriesDataPoint>) -> u64
    recommends
        s.len() >= 1,
    decreases s.len(),
{
    if s.len() <= 1 {
        s.last().time_ms
    } else {
        let rest = min_time(s.drop_last());
        if s.last().time_ms < rest {
            s.last().time_ms
        } else {
            rest
        }
    }
}

/// The sum of sample values is bounded by the count of samples.
pub proof fn lemma_sum_data_bound(s: Seq<TimeSeriesDataPoint>)
    ensures
        0 <= sum_data(s) <= s.len() * (u64::MAX as int),
    decreases s.len(),
{
    if s.len() > 0 {
        lemma_sum_data_bound(s.drop_last());
        assert((s.len() - 1) * (u64::MAX as int) + (u64::MAX as int) == s.len() * (
        u64::MAX as int)) by (nonlinear_arith);
    }
}

/// Throughput over a sample window: the summed bytes divided by the time
/// since the earliest sample, in bytes per second; zero without samples, and
/// a zero-length span counts as one millisecond.
pub open spec fn spec_bps(points: Seq<TimeSeriesDataPoint>, now_ms: u64) -> int {
    if points.len() == 0 {
        0
    } else {
        let oldest = min_time(points);
        let elapsed: int = if now_ms > oldest {
            now_ms - oldest
        } else {
            1
        };
        sum_data(points) * 1000 / elapsed
    }
}

/// `spec_bps` saturated to a machine word.
pub open spec fn spec_bps_capped(points: Seq<TimeSeriesDataPoint>, now_ms: u64) -> u64 {
    if spec_bps(points, now_ms) > u64::MAX {
        u64::MAX
    } else {
        spec_bps(points, now_ms) as u64
    }
}

/// A point-in-time view of an upload's progress.
#[derive(Clone, Copy, Debug, PartialEq, Eq, Structural)]
pub struct CurrentFileNetworkStats {
    /// Estimated throughput in bytes per second.
    pub bps: u64,
    /// Estimated time to finish, in seconds.
    pub eta_secs: u64,
    /// Completion in basis points (10000 = all bytes done).
    pub percentage_basis_points: u64,
    /// Bytes done so far.
    pub done: u64,
    /// Total bytes to transfer.
    pub total: u64,
    /// Milliseconds since the transfer started.
    pub elapsed_ms: u64,
}

/// The byte counter and speed window of one upload task.
#[derive(Clone, Debug)]
pub struct FileNetworkStats {
    /// Bytes credited so far.
    pub done: u64,
    /// Recent (time, byte-count) samples.
    pub speed_buffer: RollingTimeSeries<SPEED_SLOTS>,
    /// Total bytes the task will transfer.
    pub total: u64,
    /// When the transfer started, in milliseconds.
    pub start_time_ms: u64,
}

impl FileNetworkStats {
    /// The sample buffer always holds its full complement of slots.
    pub open spec fn wf(&self) -> bool {
        self.speed_buffer.wf()
    }

    /// The fresh samples of the speed window at the given time.
    pub open spec fn spec_window(&self, now_ms: u64) -> Seq<TimeSeriesDataPoint> {
        fresh_points_of(self.speed_buffer.data_points@, self.speed_buffer.max_age_ms, now_ms)
    }

    pub fn new(total: u64, now_ms: u64) -> (r: Self)
        ensures
            r.wf(),
            r.done == 0,
            r.total == total,
            r.start_time_ms == now_ms,
            r.speed_buffer.max_age_ms == SPEED_WINDOW_MS,
    {
        FileNetworkStats {
            done: 0,
            speed_buffer: RollingTimeSeries::new(SPEED_WINDOW_MS),
            total,
            start_time_ms: now_ms,
        }
    }

    /// Restarts the elapsed-time clock; called when the transfer begins.
    pub fn set_start_time(&mut self, now_ms: u64)
        ensures
            *final(self) == (FileNetworkStats { start_time_ms: now_ms, ..*old(self) }),
    {
        self.start_time_ms = now_ms;
    }

    /// Credits completed bytes and records a throughput sample.
    pub fn add_done_bytes(&mut self, bytes: u64, now_ms: u64)
        requires
            old(self).wf(),
            old(self).done + bytes <= u64::MAX,
        ensures
            final(self).wf(),
            final(self).done == old(self).done + bytes,
            final(self).total == old(self).total,
            final(self).start_time_ms == old(self).start_time_ms,
            final(self).speed_buffer.max_age_ms == old(self).speed_buffer.max_age_ms,
            exists|j: int|
                #![trigger sample_added(
                    old(self).speed_buffer.data_points@,
                    final(self).speed_buffer.data_points@,
                    bytes,
                    old(self).speed_buffer.max_age_ms,
                    now_ms,
                    j,
                )]
                sample_added(
                    old(self).speed_buffer.data_points@,
                    final(self).speed_buffer.data_points@,
                    bytes,
                    old(self).speed_buffer.max_age_ms,
                    now_ms,
                    j,
                ),
    {
        self.done = self.done + bytes;
        self.speed_buffer.add_value(bytes, now_ms);
    }

    /// Takes back bytes that were credited for an upload attempt that the
    /// remote rejected; the retry will credit them again.
    pub fn rollback_bytes(&mut self, bytes: u64)
        requires
            bytes <= old(self).done,
        ensures
            *final(self) == (FileNetworkStats {
                done: (old(self).done - bytes) as u64,
                ..*old(self)
            }),
    {
        self.done = self.done - bytes;
    }

    /// Estimated throughput in bytes per second, from the fresh samples.
    pub fn bytes_per_second(&self, now_ms: u64) -> (r: u64)
        requires
            self.wf(),
        ensures
            r == spec_bps_capped(self.spec_window(now_ms), now_ms),
    {
        let points = self.speed_buffer.get_valid_points(now_ms);
        proof {
            lemma_fresh_points_len(
                self.speed_buffer.data_points@,
                self.speed_buffer.max_age_ms,
                now_ms,
            );
        }
        if points.len() == 0 {
            return 0;
        }
        let mut sum: u128 = 0;
        let mut oldest: u64 = 0;
        let mut i: usize = 0;
        let len = points.len();
        while i < len
            invariant
                1 <= len == points@.len() <= SPEED_SLOTS,
                i <= len,
                sum == sum_data(points@.subrange(0, i as int)),
                i >= 1 ==> oldest == min_time(points@.subrange(0, i as int)),
            decreases len - i,
        {
            let ghost prefix = points@.subrange(0, i as int);
            proof {
                lemma_sum_data_bound(prefix);
                let next = points@.subrange(0, i + 1);
                assert(next.drop_last() =~= prefix);
                assert(next.last() == points@[i as int]);
            }
            sum = sum + (points[i].data as u128);
            if i == 0 {
                oldest = points[i].time_ms;
            } else {
                if points[i].time_ms < oldest {
                    oldest = points[i].time_ms;
                }
            }
            i = i + 1;
        }
        proof {
            assert(points@.subrange(0, len as int) =~= points@);
            lemma_sum_data_bound(points@);
        }
        let elapsed: u64 = if now_ms > oldest {
            now_ms - oldest
        } else {
            1
        };
        let bps: u128 = sum * 1000 / (elapsed as u128);
        if bps > u64::MAX as u128 {
            u64::MAX
        } else {
            bps as u64
        }
    }

    /// Estimated time to finish in seconds: the remaining bytes over the
    /// throughput, floored at zero, with a nominal throughput of one byte
    /// per second when no samples are fresh.
    pub open spec fn spec_eta_secs(&self, now_ms: u64) -> u64 {
        let bps = spec_bps_capped(self.spec_window(now_ms), now_ms);
        let rate: u64 = if bps == 0 {
            1
        } else {
            bps
        };
        let remaining: u64 = if self.done >= self.total {
            0
        } else {
            (self.total - self.done) as u64
        };
        (remaining / rate) as u64
    }

    /// Returns the estimated time to finish, in seconds.
    pub fn estimated_time(&self, now_ms: u64) -> (r: u64)
        requires
            self.wf(),
        ensures
            r == self.spec_eta_secs(now_ms),
    {
        let bps = self.bytes_per_second(now_ms);
        let rate: u64 = if bps == 0 {
            1
        } else {
            bps
        };
        let remaining: u64 = if self.done >= self.total {
            0
        } else {
            self.total - self.done
        };
        remaining / rate
    }

    /// Completion in basis points: 10000 means all bytes are done. A task
    /// with nothing to transfer counts as complete.
    pub open spec fn spec_percentage_bp(&self) -> u64 {
        if self.total == 0 {
            10000
        } else if self.done * 10000 / (self.total as int) > u64::MAX {
            u64::MAX
        } else {
            (self.done * 10000 / (self.total as int)) as u64
        }
    }

    /// Returns the completion percentage in basis points.
    pub fn percentage(&self) -> (r: u64)
        ensures
            r == self.spec_percentage_bp(),
    {
        if self.total == 0 {
            return 10000;
        }
        let scaled: u128 = (self.done as u128) * 10000 / (self.total as u128);
        if scaled > u64::MAX as u128 {
            u64::MAX
        } else {
            scaled as u64
        }
    }

    /// Returns the full progress snapshot at this point in time.
    pub fn current_stats(&self, now_ms: u64) -> (r: CurrentFileNetworkStats)
        requires
            self.wf(),
        ensures
            r.bps == spec_bps_capped(self.spec_window(now_ms), now_ms),
            r.eta_secs == self.spec_eta_secs(now_ms),
            r.percentage_basis_points == self.spec_percentage_bp(),
            r.done == self.done,
            r.total == self.total,
            r.elapsed_ms == if now_ms >= self.start_time_ms {
                (now_ms - self.start_time_ms) as int
            } else {
                0
            },
    {
        let elapsed_ms: u64 = if now_ms >= self.start_time_ms {
            now_ms - self.start_time_ms
        } else {
            0
        };
        CurrentFileNetworkStats {
            bps: self.bytes_per_second(now_ms),
            eta_secs: self.estimated_time(now_ms),
            percentage_basis_points: self.percentage(),
            done: self.done,
            total: self.total,
            elapsed_ms,
        }
    }
}

} // verus!
