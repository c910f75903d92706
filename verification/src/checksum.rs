//! The checksum table of a multipart upload: one slot per part, filled with
//! the part's hex SHA1 when the part's bytes have been read, and consumed
//! only when every slot is filled. An empty string marks an unfilled slot;
//! a recorded digest is never empty, so the two cannot be confused.
use vstd::prelude::*;

use crate::definitions::bodies::B2FinishLargeFileBody;
use crate::digest::{sha1_hex, sha1_hex_of};

verus! {

/// Ordered checksum slots of one multipart upload.
#[derive(Clone, Debug)]
pub struct LargeFileSha1 {
    /// One slot per part, indexed by part number minus one; an empty string
    /// is an unfilled slot.
    pub slots: Vec<String>,
}

impl LargeFileSha1 {
    /// Whether the slot of the given index holds a digest.
    pub open spec fn filled(&self, i: int) -> bool {
        self.slots@[i]@.len() > 0
    }

    /// Whether every slot holds a digest.
    pub open spec fn all_filled(&self) -> bool {
        forall|i: int| 0 <= i < self.slots@.len() ==> self.filled(i)
    }

    /// A table with one empty slot per part.
    pub fn new(num_of_parts: usize) -> (r: Self)
        ensures
            r.slots@.len() == num_of_parts,
            forall|i: int| 0 <= i < num_of_parts ==> !r.filled(i),
    {
        let mut slots: Vec<String> = Vec::new();
        let mut i: usize = 0;
        while i < num_of_parts
            invariant
                i <= num_of_parts,
                slots@.len() == i,
                forall|k: int| 0 <= k < i ==> (#[trigger] slots@[k])@.len() == 0,
            decreases num_of_parts - i,
        {
            slots.push(String::new());
            i = i + 1;
        }
        LargeFileSha1 { slots }
    }

    /// Stores one digest; the other slots keep their contents.
    pub fn set_sha1(&mut self, index: usize, sha1: String)
        requires
            index < old(self).slots@.len(),
        ensures
            final(self).slots@ == old(self).slots@.update(index as int, sha1),
    {
        self.slots[index] = sha1;
    }

    /// Hashes one part's bytes and stores the digest in the part's slot;
    /// the stored digest is the hex SHA1 of exactly those bytes.
    pub fn record_part(&mut self, part_number: u16, data: &[u8]) -> (r: String)
        requires
            part_number >= 1,
            part_number - 1 < old(self).slots@.len(),
        ensures
            r@ == sha1_hex_of(data@),
            final(self).slots@ == old(self).slots@.update(part_number - 1, r),
            final(self).filled(part_number - 1),
            final(self).slots@.len() == old(self).slots@.len(),
            forall|i: int|
                0 <= i < old(self).slots@.len() && i != part_number - 1 ==> final(self).slots@[i]
                    == old(self).slots@[i],
    {
        let sha1 = sha1_hex(data);
        let index = (part_number - 1) as usize;
        self.set_sha1(index, sha1.clone());
        sha1
    }

    /// Returns whether every slot holds a digest.
    pub fn is_fully_filled(&self) -> (r: bool)
        ensures
            r == self.all_filled(),
    {
        let mut i: usize = 0;
        let len = self.slots.len();
        while i < len
            invariant
                i <= len,
                len == self.slots@.len(),
                forall|k: int| 0 <= k < i ==> self.filled(k),
            decreases len - i,
        {
            if self.slots[i].as_str().is_empty() {
                proof {
                    assert(!self.filled(i as int));
                }
                return false;
            }
            i = i + 1;
        }
        true
    }
}

/// Once every part of a plan has had its digest recorded — each into the
/// slot of its own part number — the table is fully populated: part numbers
/// of a plan run 1, 2, … up to the part count, so the slots they address
/// are exactly all of them.
pub proof fn lemma_all_parts_recorded(table: &LargeFileSha1, parts: Seq<crate::chunking::PartSpec>)
    requires
        table.slots@.len() == parts.len(),
        forall|i: int| 0 <= i < parts.len() ==> (#[trigger] parts[i]).part_number == i + 1,
        forall|i: int|
            0 <= i < parts.len() ==> table.filled((#[trigger] parts[i]).part_number - 1),
    ensures
        table.all_filled(),
{
    assert forall|j: int| 0 <= j < table.slots@.len() implies table.filled(j) by {
        assert(parts[j].part_number == j + 1);
        assert(table.filled(parts[j].part_number - 1));
    }
}

/// Builds the request that finishes a multipart session, but only from a
/// fully populated table: the result carries the digests in part order, and
/// is `None` exactly when some slot is still unfilled, so an incomplete
/// table can never reach the finalize call.
pub fn try_finish_body(file_id: String, table: &LargeFileSha1) -> (r: Option<
    B2FinishLargeFileBody,
>)
    ensures
        r is Some <==> table.all_filled(),
        r matches Some(body) ==> body.file_id@ == file_id@ && body.part_sha1_array@
            == table.slots@,
{
    if table.is_fully_filled() {
        Some(B2FinishLargeFileBody { file_id, part_sha1_array: table.slots.clone() })
    } else {
        None
    }
}

} // verus!
