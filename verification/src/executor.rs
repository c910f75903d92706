//! The part executor: drives one group of contiguous parts strictly in
//! order under one multipart session. The unverified shell performs the
//! reads, the network sends and the waits; every decision and every byte of
//! accounting is made here.
//!
//! A part attempt credits the progress tracker chunk by chunk as the body
//! streams out. If the remote rejects the attempt as transiently busy, the
//! executor asks for a fresh upload slot, takes back exactly the bytes the
//! attempt had credited, and retries the same part; this inner retry does
//! not consume the task's outer attempt budget. Any other failure aborts
//! the group.
use vstd::prelude::*;

use crate::chunking::{ranges_len_sum, PartSpec};
use crate::definitions::headers::B2UploadPartHeaders;
use crate::error::{B2Error, FileUploadError};
use crate::progress::FileNetworkStats;
use crate::size_unit;

verus! {

/// How many bytes of a part body go out per streamed chunk.
pub const PART_STREAM_CHUNK_BYTES: u64 = 160 * size_unit::KIBIBYTE;

/// How many bytes of a single-shot body go out per streamed chunk.
pub const SINGLE_STREAM_CHUNK_BYTES: u64 = 80 * size_unit::KIBIBYTE;

/// How long to pause before retrying a busy slot, in milliseconds.
pub const BUSY_RETRY_PAUSE_MS: u64 = 200;

/// What the executor asks the driver to do after a part attempt.
#[derive(Clone, Debug)]
pub enum PartStep {
    /// Fetch a fresh upload slot, pause briefly, and retry the same part.
    RetryWithNewSlot,
    /// The group failed; the error goes up and sibling groups stop.
    Fail(FileUploadError),
    /// The part is done; move to the next part of the group.
    Advance,
}

/// Headers of one part-upload attempt, before per-task settings are
/// applied: the slot's token, the part's number and exact length, and the
/// digest of its bytes.
pub fn build_part_headers(part: PartSpec, authorization: String, content_sha1: String) -> (r:
    B2UploadPartHeaders)
    requires
        part.start <= part.end,
    ensures
        r.authorization == authorization,
        r.part_number == part.part_number,
        r.content_length == part.end - part.start,
        r.content_sha1 == content_sha1,
        r.server_side_encryption_customer_algorithm is None,
        r.server_side_encryption_customer_key is None,
        r.server_side_encryption_customer_key_md5 is None,
{
    B2UploadPartHeaders {
        authorization,
        part_number: part.part_number,
        content_length: part.end - part.start,
        content_sha1,
        server_side_encryption_customer_algorithm: None,
        server_side_encryption_customer_key: None,
        server_side_encryption_customer_key_md5: None,
    }
}

/// One concurrent unit's sequential run over a group of contiguous parts.
#[derive(Clone, Debug)]
pub struct GroupRun {
    /// The parts of this group, in upload order.
    pub parts: Vec<PartSpec>,
    /// The index of the part now being uploaded.
    pub idx: usize,
    /// Bytes credited to the progress tracker for the current attempt.
    pub attempt_credited: u64,
    /// How many fresh slots were fetched after busy rejections.
    pub slot_refreshes: u64,
    /// The summed lengths of the parts already completed.
    pub completed_bytes: u64,
}

impl GroupRun {
    /// The run's byte accounting always matches the parts completed so far.
    pub open spec fn wf(&self) -> bool {
        &&& self.idx <= self.parts@.len()
        &&& self.completed_bytes == ranges_len_sum(self.parts@.subrange(0, self.idx as int))
        &&& forall|i: int| 0 <= i < self.parts@.len() ==> (#[trigger] self.parts@[i]).start
            <= self.parts@[i].end
    }

    /// Whether every part of the group is done.
    pub open spec fn done(&self) -> bool {
        self.idx == self.parts@.len()
    }

    /// The length in bytes of the part now being uploaded.
    pub open spec fn current_len(&self) -> int
        recommends
            self.idx < self.parts@.len(),
    {
        self.parts@[self.idx as int].end - self.parts@[self.idx as int].start
    }

    /// A fresh run over one group of parts.
    pub fn new(parts: Vec<PartSpec>) -> (r: Self)
        requires
            forall|i: int| 0 <= i < parts@.len() ==> (#[trigger] parts@[i]).start <= parts@[i].end,
        ensures
            r.wf(),
            r.parts == parts,
            r.idx == 0,
            r.attempt_credited == 0,
            r.slot_refreshes == 0,
            r.completed_bytes == 0,
    {
        proof {
            assert(parts@.subrange(0, 0) =~= Seq::<PartSpec>::empty());
        }
        GroupRun { parts, idx: 0, attempt_credited: 0, slot_refreshes: 0, completed_bytes: 0 }
    }

    /// The part to upload next, or nothing when the group is done.
    pub fn current_part(&self) -> (r: Option<PartSpec>)
        requires
            self.wf(),
        ensures
            r matches Some(p) ==> !self.done() && p == self.parts@[self.idx as int],
            r is None <==> self.done(),
    {
        if self.idx < self.parts.len() {
            Some(self.parts[self.idx])
        } else {
            None
        }
    }

    /// Credits one streamed chunk of the current attempt to the progress
    /// tracker and to the attempt's tally.
    pub fn credit_chunk(&mut self, stats: &mut FileNetworkStats, chunk_len: u64, now_ms: u64)
        requires
            old(self).wf(),
            old(stats).wf(),
            old(stats).done + chunk_len <= u64::MAX,
            old(self).attempt_credited + chunk_len <= u64::MAX,
        ensures
            final(self).wf(),
            *final(self) == (GroupRun {
                attempt_credited: (old(self).attempt_credited + chunk_len) as u64,
                ..*old(self)
            }),
            final(stats).wf(),
            final(stats).done == old(stats).done + chunk_len,
            final(stats).total == old(stats).total,
            final(stats).start_time_ms == old(stats).start_time_ms,
    {
        self.attempt_credited = self.attempt_credited + chunk_len;
        stats.add_done_bytes(chunk_len, now_ms);
    }

    /// Decides what follows one part-upload attempt.
    ///
    /// On success the attempt's bytes count as completed and the run
    /// advances to the next part. On a transient busy rejection the
    /// progress tracker gives back exactly the bytes this attempt credited,
    /// and the driver is told to fetch a fresh slot and retry the same
    /// part. Any other error fails the group and changes no accounting.
    pub fn on_part_result(
        &mut self,
        stats: &mut FileNetworkStats,
        result: Result<(), B2Error>,
    ) -> (r: PartStep)
        requires
            old(self).wf(),
            old(self).idx < old(self).parts@.len(),
            old(self).slot_refreshes < u64::MAX,
            old(self).completed_bytes + old(self).attempt_credited <= u64::MAX,
            old(self).attempt_credited <= old(stats).done,
            result is Ok ==> old(self).attempt_credited == old(self).current_len(),
        ensures
            final(self).wf(),
            final(self).parts == old(self).parts,
            match result {
                Ok(()) => {
                    &&& r is Advance
                    &&& final(self).idx == old(self).idx + 1
                    &&& final(self).attempt_credited == 0
                    &&& final(self).slot_refreshes == old(self).slot_refreshes
                    &&& final(self).completed_bytes == old(self).completed_bytes + old(
                        self,
                    ).attempt_credited
                    &&& *final(stats) == *old(stats)
                },
                Err(e) => {
                    if e.spec_is_busy() {
                        &&& r is RetryWithNewSlot
                        &&& final(self).idx == old(self).idx
                        &&& final(self).attempt_credited == 0
                        &&& final(self).slot_refreshes == old(self).slot_refreshes + 1
                        &&& final(self).completed_bytes == old(self).completed_bytes
                        &&& final(stats).done == old(stats).done - old(self).attempt_credited
                        &&& final(stats).total == old(stats).total
                        &&& final(stats).speed_buffer == old(stats).speed_buffer
                        &&& final(stats).start_time_ms == old(stats).start_time_ms
                    } else {
                        &&& (r matches PartStep::Fail(f) && f
                            == FileUploadError::RequestError(e))
                        &&& *final(self) == *old(self)
                        &&& *final(stats) == *old(stats)
                    }
                },
            },
    {
        let len = self.parts.len();
        match result {
            Ok(()) => {
                proof {
                    let next = self.parts@.subrange(0, self.idx + 1);
                    assert(next.drop_last() =~= self.parts@.subrange(0, self.idx as int));
                    assert(next.last() == self.parts@[self.idx as int]);
                }
                self.completed_bytes = self.completed_bytes + self.attempt_credited;
                self.attempt_credited = 0;
                self.idx = self.idx + 1;
                PartStep::Advance
            }
            Err(e) => {
                if e.is_busy() {
                    stats.rollback_bytes(self.attempt_credited);
                    self.attempt_credited = 0;
                    self.slot_refreshes = self.slot_refreshes + 1;
                    PartStep::RetryWithNewSlot
                } else {
                    PartStep::Fail(FileUploadError::RequestError(e))
                }
            }
        }
    }
}

/// A finished group has completed exactly the bytes its parts span.
pub proof fn lemma_group_done_total(g: &GroupRun)
    requires
        g.wf(),
        g.done(),
    ensures
        g.completed_bytes == ranges_len_sum(g.parts@),
{
    assert(g.parts@.subrange(0, g.parts@.len() as int) =~= g.parts@);
}

/// The bytes completed across a list of group runs.
pub open spec fn groups_completed_sum(groups: Seq<GroupRun>) -> int
    decreases groups.len(),
{
    if groups.len() == 0 {
        0
    } else {
        groups_completed_sum(groups.drop_last()) + groups.last().completed_bytes
    }
}

/// When every group of a multipart plan has finished, the bytes completed
/// across the groups are exactly the file size — even when individual part
/// attempts were retried after busy rejections, since every such attempt's
/// credit was taken back before the retry. The hypotheses are what
/// `plan_parts` and `stride_ranges` establish and what each finished
/// `GroupRun` maintains.
pub proof fn lemma_multipart_run_completes_file(
    file_size: u64,
    parts: Seq<PartSpec>,
    bounds: Seq<(usize, usize)>,
    groups: Seq<GroupRun>,
)
    requires
        ranges_len_sum(parts) == file_size,
        bounds.len() >= 1 ==> bounds[0].0 == 0,
        forall|i: int| 1 <= i < bounds.len() ==> (#[trigger] bounds[i]).0 == bounds[i - 1].1,
        forall|i: int|
            0 <= i < bounds.len() ==> (#[trigger] bounds[i]).0 <= bounds[i].1 <= parts.len(),
        bounds.len() == 0 ==> parts.len() == 0,
        bounds.len() >= 1 ==> bounds.last().1 == parts.len(),
        groups.len() == bounds.len(),
        forall|g: int|
            0 <= g < groups.len() ==> (#[trigger] groups[g]).wf() && groups[g].done()
                && groups[g].parts@ == parts.subrange(bounds[g].0 as int, bounds[g].1 as int),
    ensures
        groups_completed_sum(groups) == file_size,
    decreases groups.len(),
{
    crate::chunking::lemma_bounds_cover_sum(parts, bounds);
    lemma_groups_sum_matches_bounds(parts, bounds, groups);
}

/// Each finished group completed its slice's length sum, so the two sums
/// agree group by group.
proof fn lemma_groups_sum_matches_bounds(
    parts: Seq<PartSpec>,
    bounds: Seq<(usize, usize)>,
    groups: Seq<GroupRun>,
)
    requires
        groups.len() == bounds.len(),
        forall|g: int|
            0 <= g < groups.len() ==> (#[trigger] groups[g]).wf() && groups[g].done()
                && groups[g].parts@ == parts.subrange(bounds[g].0 as int, bounds[g].1 as int),
    ensures
        groups_completed_sum(groups) == crate::chunking::bounds_sum(parts, bounds),
    decreases groups.len(),
{
    if groups.len() > 0 {
        lemma_groups_sum_matches_bounds(parts, bounds.drop_last(), groups.drop_last());
        lemma_group_done_total(&groups.last());
    }
}

} // verus!
