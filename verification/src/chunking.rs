//! Partitioning a file into parts and groups of parts.
//!
//! A large upload is split into parts of a nominal size, numbered from 1;
//! the last part absorbs the remainder. Parts are then grouped into
//! contiguous runs that are each executed sequentially by one concurrent
//! unit; the group width is either configured or derived from the file size.
use vstd::prelude::*;
use vstd::arithmetic::div_mod::lemma_fundamental_div_mod;

use crate::is_valid::{InvalidValue, IsValid};
use crate::size_unit;

verus! {

/// Smallest allowed part size (and large-file cutoff): 5 MiB.
pub const MIN_PART_SIZE: u64 = 5 * size_unit::MEBIBYTE;

/// Largest allowed part size (and large-file cutoff): 5 GiB.
pub const MAX_PART_SIZE: u64 = 5 * size_unit::GIBIBYTE;

/// One contiguous byte range of a large upload: the half-open range
/// `[start, end)`, identified by a 1-based part number.
#[derive(Clone, Copy, Debug, PartialEq, Eq, Structural)]
pub struct PartSpec {
    pub part_number: u16,
    pub start: u64,
    pub end: u64,
}

/// How many strides of `stride` cover `total` bytes: the quotient rounded up.
pub open spec fn spec_stride_count(total: int, stride: int) -> int
    recommends
        stride >= 1,
{
    (total + stride - 1) / stride
}

/// The ceiling quotient brackets the total: `(n-1)*stride < total <= n*stride`.
pub proof fn lemma_stride_count_bounds(total: int, stride: int)
    requires
        total >= 1,
        stride >= 1,
    ensures
        spec_stride_count(total, stride) >= 1,
        (spec_stride_count(total, stride) - 1) * stride < total,
        total <= spec_stride_count(total, stride) * stride,
{
    let n = spec_stride_count(total, stride);
    lemma_fundamental_div_mod(total + stride - 1, stride);
    let m = (total + stride - 1) % stride;
    assert(total + stride - 1 == stride * n + m);
    assert(0 <= m < stride);
    assert(total == (n - 1) * stride + m + 1) by (nonlinear_arith)
        requires
            total + stride - 1 == stride * n + m,
    ;
    assert((n - 1) * stride < total <= n * stride) by (nonlinear_arith)
        requires
            total == (n - 1) * stride + m + 1,
            0 <= m < stride,
    ;
    assert(n >= 1) by (nonlinear_arith)
        requires
            total <= n * stride,
            total >= 1,
            stride >= 1,
    ;
}

/// The sum of the lengths of a sequence of byte ranges.
pub open spec fn ranges_len_sum(s: Seq<PartSpec>) -> int
    decreases s.len(),
{
    if s.len() == 0 {
        0
    } else {
        ranges_len_sum(s.drop_last()) + s.last().end - s.last().start
    }
}

/// Contiguous ranges starting at zero sum to the end of the last range.
pub proof fn lemma_contiguous_sum(s: Seq<PartSpec>)
    requires
        s.len() >= 1,
        s[0].start == 0,
        forall|i: int| 1 <= i < s.len() ==> s[i].start == s[i - 1].end,
    ensures
        ranges_len_sum(s) == s.last().end,
    decreases s.len(),
{
    if s.len() == 1 {
        assert(ranges_len_sum(s.drop_last()) == 0);
    } else {
        let t = s.drop_last();
        assert(t[0].start == 0);
        assert(forall|i: int| 1 <= i < t.len() ==> t[i].start == t[i - 1].end);
        lemma_contiguous_sum(t);
        assert(s.last().start == t.last().end);
    }
}

/// The length sum of a range sequence splits at any index.
pub proof fn lemma_ranges_len_sum_split(s: Seq<PartSpec>, mid: int)
    requires
        0 <= mid <= s.len(),
    ensures
        ranges_len_sum(s) == ranges_len_sum(s.subrange(0, mid)) + ranges_len_sum(
            s.subrange(mid, s.len() as int),
        ),
    decreases s.len() - mid,
{
    if mid == s.len() {
        assert(s.subrange(0, mid) =~= s);
        assert(ranges_len_sum(s.subrange(mid, s.len() as int)) == 0);
    } else {
        let t = s.drop_last();
        lemma_ranges_len_sum_split(t, mid);
        assert(t.subrange(0, mid) =~= s.subrange(0, mid));
        let hi = s.subrange(mid, s.len() as int);
        assert(hi.drop_last() =~= t.subrange(mid, t.len() as int));
        assert(hi.last() == s.last());
    }
}

/// The total width of a list of index ranges.
pub open spec fn index_ranges_len_sum(s: Seq<(usize, usize)>) -> int
    decreases s.len(),
{
    if s.len() == 0 {
        0
    } else {
        index_ranges_len_sum(s.drop_last()) + s.last().1 - s.last().0
    }
}

/// Contiguous index ranges starting at zero sum to the end of the last one.
pub proof fn lemma_index_ranges_contiguous_sum(s: Seq<(usize, usize)>)
    requires
        s.len() >= 1,
        s[0].0 == 0,
        forall|i: int| 1 <= i < s.len() ==> (#[trigger] s[i]).0 == s[i - 1].1,
    ensures
        index_ranges_len_sum(s) == s.last().1,
    decreases s.len(),
{
    if s.len() == 1 {
        assert(index_ranges_len_sum(s.drop_last()) == 0);
    } else {
        let t = s.drop_last();
        assert(forall|i: int| 1 <= i < t.len() ==> (#[trigger] t[i]).0 == t[i - 1].1);
        lemma_index_ranges_contiguous_sum(t);
        assert(s.last().0 == t.last().1);
    }
}

/// The length sum of the parts sliced out by a list of index ranges.
pub open spec fn bounds_sum(parts: Seq<PartSpec>, bounds: Seq<(usize, usize)>) -> int
    decreases bounds.len(),
{
    if bounds.len() == 0 {
        0
    } else {
        bounds_sum(parts, bounds.drop_last()) + ranges_len_sum(
            parts.subrange(bounds.last().0 as int, bounds.last().1 as int),
        )
    }
}

/// Index ranges that tile a prefix of the part list, each beginning where
/// the one before ended, slice out exactly that prefix's length sum.
pub proof fn lemma_bounds_tile_sum(parts: Seq<PartSpec>, bounds: Seq<(usize, usize)>)
    requires
        bounds.len() >= 1 ==> bounds[0].0 == 0,
        forall|i: int| 1 <= i < bounds.len() ==> (#[trigger] bounds[i]).0 == bounds[i - 1].1,
        forall|i: int|
            0 <= i < bounds.len() ==> (#[trigger] bounds[i]).0 <= bounds[i].1 <= parts.len(),
    ensures
        bounds_sum(parts, bounds) == if bounds.len() == 0 {
            0int
        } else {
            ranges_len_sum(parts.subrange(0, bounds.last().1 as int))
        },
    decreases bounds.len(),
{
    if bounds.len() >= 1 {
        let t = bounds.drop_last();
        lemma_bounds_tile_sum(parts, t);
        let hi = bounds.last().1 as int;
        let mid: int = if t.len() == 0 {
            0
        } else {
            t.last().1 as int
        };
        assert(bounds.last().0 == mid);
        let covered = parts.subrange(0, hi);
        lemma_ranges_len_sum_split(covered, mid);
        assert(covered.subrange(0, mid) =~= parts.subrange(0, mid));
        assert(covered.subrange(mid, covered.len() as int) =~= parts.subrange(mid, hi));
    }
}

/// Index ranges that tile the whole part list slice out exactly the file's
/// length sum.
pub proof fn lemma_bounds_cover_sum(parts: Seq<PartSpec>, bounds: Seq<(usize, usize)>)
    requires
        bounds.len() >= 1 ==> bounds[0].0 == 0,
        forall|i: int| 1 <= i < bounds.len() ==> (#[trigger] bounds[i]).0 == bounds[i - 1].1,
        forall|i: int|
            0 <= i < bounds.len() ==> (#[trigger] bounds[i]).0 <= bounds[i].1 <= parts.len(),
        bounds.len() == 0 ==> parts.len() == 0,
        bounds.len() >= 1 ==> bounds.last().1 == parts.len(),
    ensures
        bounds_sum(parts, bounds) == ranges_len_sum(parts),
{
    lemma_bounds_tile_sum(parts, bounds);
    if bounds.len() == 0 {
        assert(ranges_len_sum(parts) == 0);
    } else {
        assert(parts.subrange(0, bounds.last().1 as int) =~= parts);
    }
}

/// Enumerates the parts of a file: strides of `part_size` from offset zero,
/// numbered from 1, the last part clamped to `file_size`. All parts but the
/// last have length `part_size`; together they cover the file exactly.
pub fn plan_parts(file_size: u64, part_size: u64) -> (r: Vec<PartSpec>)
    requires
        file_size >= 1,
        part_size >= 1,
        file_size + part_size <= u64::MAX,
        spec_stride_count(file_size as int, part_size as int) <= u16::MAX,
    ensures
        r@.len() == spec_stride_count(file_size as int, part_size as int),
        forall|i: int|
            0 <= i < r@.len() ==> {
                &&& (#[trigger] r@[i]).part_number == i + 1
                &&& r@[i].start == i * part_size
                &&& r@[i].end == if i == r@.len() - 1 {
                    file_size as int
                } else {
                    (i + 1) * part_size
                }
            },
        ranges_len_sum(r@) == file_size,
{
    let ghost n = spec_stride_count(file_size as int, part_size as int);
    proof {
        lemma_stride_count_bounds(file_size as int, part_size as int);
    }
    let mut parts: Vec<PartSpec> = Vec::new();
    let mut start: u64 = 0;
    let mut num: u16 = 0;
    loop
        invariant_except_break
            file_size >= 1,
            part_size >= 1,
            file_size + part_size <= u64::MAX,
            n == spec_stride_count(file_size as int, part_size as int),
            1 <= n <= u16::MAX,
            (n - 1) * part_size < file_size <= n * part_size,
            parts@.len() == num,
            forall|i: int|
                0 <= i < num && i < n - 1 ==> {
                    &&& (#[trigger] parts@[i]).part_number == i + 1
                    &&& parts@[i].start == i * part_size
                    &&& parts@[i].end == (i + 1) * part_size
                },
            num < n,
            start == num * part_size,
            start < file_size,
        ensures
            parts@.len() == n,
            forall|i: int|
                0 <= i < n - 1 ==> {
                    &&& (#[trigger] parts@[i]).part_number == i + 1
                    &&& parts@[i].start == i * part_size
                    &&& parts@[i].end == (i + 1) * part_size
                },
            parts@[n - 1].part_number == n,
            parts@[n - 1].start == (n - 1) * part_size,
            parts@[n - 1].end == file_size,
        decreases file_size - start,
    {
        let end_candidate = start + part_size;
        num = num + 1;
        if end_candidate >= file_size {
            parts.push(PartSpec { part_number: num, start, end: file_size });
            proof {
                assert((num - 1) * part_size < file_size <= num * part_size) by (nonlinear_arith)
                    requires
                        start == (num - 1) * part_size,
                        start < file_size,
                        end_candidate == start + part_size,
                        end_candidate >= file_size,
                ;
                assert(num == n) by (nonlinear_arith)
                    requires
                        (num - 1) * part_size < file_size <= num * part_size,
                        (n - 1) * part_size < file_size <= n * part_size,
                        part_size >= 1,
                ;
            }
            break;
        } else {
            parts.push(PartSpec { part_number: num, start, end: end_candidate });
            start = end_candidate;
            proof {
                assert(start == num * part_size) by (nonlinear_arith)
                    requires
                        start == (num - 1) * part_size + part_size,
                ;
                assert(num < n) by (nonlinear_arith)
                    requires
                        num * part_size == start,
                        start < file_size,
                        file_size <= n * part_size,
                        part_size >= 1,
                ;
            }
        }
    }
    proof {
        assert forall|i: int| 1 <= i < parts@.len() implies parts@[i].start == parts@[i - 1].end by {
            assert(parts@[i - 1].end == ((i - 1) + 1) * part_size);
        }
        lemma_contiguous_sum(parts@);
    }
    parts
}

/// Slices `total` items into contiguous half-open index ranges of width
/// `stride`; the last range may be shorter. Used both to group parts for
/// concurrent dispatch and to cut an upload buffer into streamed chunks.
pub fn stride_ranges(total: usize, stride: usize) -> (r: Vec<(usize, usize)>)
    requires
        stride >= 1,
        total + stride <= usize::MAX,
    ensures
        r@.len() == spec_stride_count(total as int, stride as int),
        forall|i: int|
            0 <= i < r@.len() ==> {
                &&& (#[trigger] r@[i]).0 == i * stride
                &&& r@[i].1 == if i == r@.len() - 1 {
                    total as int
                } else {
                    (i + 1) * stride
                }
            },
        index_ranges_len_sum(r@) == total,
{
    let mut ranges: Vec<(usize, usize)> = Vec::new();
    if total == 0 {
        proof {
            assert(spec_stride_count(0, stride as int) == 0) by (nonlinear_arith)
                requires
                    stride >= 1,
            ;
            assert(index_ranges_len_sum(ranges@) == 0);
        }
        return ranges;
    }
    let ghost n = spec_stride_count(total as int, stride as int);
    proof {
        lemma_stride_count_bounds(total as int, stride as int);
    }
    let mut start: usize = 0;
    let mut built: usize = 0;
    loop
        invariant_except_break
            total >= 1,
            stride >= 1,
            total + stride <= usize::MAX,
            n == spec_stride_count(total as int, stride as int),
            n >= 1,
            (n - 1) * stride < total <= n * stride,
            ranges@.len() == built,
            forall|i: int|
                0 <= i < built && i < n - 1 ==> {
                    &&& (#[trigger] ranges@[i]).0 == i * stride
                    &&& ranges@[i].1 == (i + 1) * stride
                },
            built < n,
            start == built * stride,
            start < total,
        ensures
            ranges@.len() == n,
            forall|i: int|
                0 <= i < n - 1 ==> {
                    &&& (#[trigger] ranges@[i]).0 == i * stride
                    &&& ranges@[i].1 == (i + 1) * stride
                },
            ranges@[n - 1].0 == (n - 1) * stride,
            ranges@[n - 1].1 == total,
        decreases total - start,
    {
        let end_candidate = start + stride;
        built = built + 1;
        if end_candidate >= total {
            ranges.push((start, total));
            proof {
                assert((built - 1) * stride < total <= built * stride) by (nonlinear_arith)
                    requires
                        start == (built - 1) * stride,
                        start < total,
                        end_candidate == start + stride,
                        end_candidate >= total,
                ;
                assert(built == n) by (nonlinear_arith)
                    requires
                        (built - 1) * stride < total <= built * stride,
                        (n - 1) * stride < total <= n * stride,
                        stride >= 1,
                ;
            }
            break;
        } else {
            ranges.push((start, end_candidate));
            start = end_candidate;
            proof {
                assert(start == built * stride) by (nonlinear_arith)
                    requires
                        start == (built - 1) * stride + stride,
                ;
                assert(built < n) by (nonlinear_arith)
                    requires
                        built * stride == start,
                        start < total,
                        total <= n * stride,
                        stride >= 1,
                ;
            }
        }
    }
    proof {
        assert forall|i: int| 1 <= i < ranges@.len() implies (#[trigger] ranges@[i]).0
            == ranges@[i - 1].1 by {
            assert(ranges@[i - 1].1 == ((i - 1) + 1) * stride);
        }
        lemma_index_ranges_contiguous_sum(ranges@);
    }
    ranges
}

/// Fixed part-loading parameters for a large upload: the nominal part size
/// and how many consecutive parts one concurrent unit handles.
#[derive(Clone, Copy, Debug, PartialEq, Eq, Structural)]
pub struct ConstantLargeFileLoadStrategy {
    /// Size of each file part in bytes; must lie in
    /// [`MIN_PART_SIZE`, `MAX_PART_SIZE`].
    pub part_size: u64,
    /// How many parts are handled per concurrent unit; must be at least 1.
    pub chunk_size: u16,
}

impl IsValid for ConstantLargeFileLoadStrategy {
    open spec fn valid(&self) -> bool {
        &&& self.chunk_size >= 1
        &&& MIN_PART_SIZE <= self.part_size <= MAX_PART_SIZE
    }

    open spec fn invalid_field(&self) -> Seq<char> {
        if self.chunk_size < 1 {
            "chunk_size"@
        } else {
            "part_size"@
        }
    }

    fn is_valid(&self) -> (r: Result<(), InvalidValue>) {
        if self.chunk_size < 1 {
            return Err(
                InvalidValue {
                    object_name: "ConstantLargeFileLoadStrategy".to_string(),
                    value_name: "chunk_size".to_string(),
                    value_as_string: "0".to_string(),
                    expected: "at least 1".to_string(),
                },
            );
        }
        if self.part_size < MIN_PART_SIZE || self.part_size > MAX_PART_SIZE {
            return Err(
                InvalidValue {
                    object_name: "ConstantLargeFileLoadStrategy".to_string(),
                    value_name: "part_size".to_string(),
                    value_as_string: "out of range".to_string(),
                    expected: "5 MiB - 5 GiB".to_string(),
                },
            );
        }
        Ok(())
    }
}

impl Default for ConstantLargeFileLoadStrategy {
    /// 5 MiB parts, three parts per concurrent unit.
    fn default() -> (r: Self)
        ensures
            r.part_size == MIN_PART_SIZE,
            r.chunk_size == 3,
            r.valid(),
    {
        ConstantLargeFileLoadStrategy { part_size: MIN_PART_SIZE, chunk_size: 3 }
    }
}

/// A load strategy computed from the total file size.
pub trait DynamicLargeFileLoadStrategy {
    /// The parameters this strategy picks for the given file size.
    spec fn spec_load_strategy(&self, file_size: u64) -> ConstantLargeFileLoadStrategy;

    fn get_load_strategy(&self, file_size: u64) -> (r: ConstantLargeFileLoadStrategy)
        ensures
            r == self.spec_load_strategy(file_size),
    ;
}

/// The built-in adaptive strategy: parts stay 5 MiB, and the group width
/// grows with the file so that roughly 200 groups are dispatched regardless
/// of file size, never fewer than 3 parts per group and capped at the
/// largest 16-bit count.
#[derive(Clone, Copy, Debug)]
pub struct DefaultLargeFileLoadStrategy;

impl DynamicLargeFileLoadStrategy for DefaultLargeFileLoadStrategy {
    open spec fn spec_load_strategy(&self, file_size: u64) -> ConstantLargeFileLoadStrategy {
        let per_group = file_size / MIN_PART_SIZE / 200;
        let widened = if per_group < 3 {
            3
        } else {
            per_group
        };
        let capped = if widened > 0xffff {
            0xffff
        } else {
            widened
        };
        ConstantLargeFileLoadStrategy { part_size: MIN_PART_SIZE, chunk_size: capped as u16 }
    }

    fn get_load_strategy(&self, file_size: u64) -> (r: ConstantLargeFileLoadStrategy) {
        let per_group = file_size / MIN_PART_SIZE / 200;
        let widened = if per_group < 3 {
            3
        } else {
            per_group
        };
        let capped: u64 = if widened > 0xffff {
            0xffff
        } else {
            widened
        };
        ConstantLargeFileLoadStrategy { part_size: MIN_PART_SIZE, chunk_size: capped as u16 }
    }
}

/// The large-file load strategy: fixed parameters, or the built-in adaptive
/// strategy.
#[derive(Clone, Copy, Debug)]
pub enum LargeFileLoadStrategy {
    Constant(ConstantLargeFileLoadStrategy),
    Dynamic(DefaultLargeFileLoadStrategy),
}

impl Default for LargeFileLoadStrategy {
    /// The adaptive strategy is the default.
    fn default() -> (r: Self)
        ensures
            r is Dynamic,
    {
        LargeFileLoadStrategy::Dynamic(DefaultLargeFileLoadStrategy)
    }
}

impl LargeFileLoadStrategy {
    /// The parameters this strategy yields for the given file size.
    pub open spec fn spec_resolve(&self, file_size: u64) -> ConstantLargeFileLoadStrategy {
        match self {
            LargeFileLoadStrategy::Constant(s) => *s,
            LargeFileLoadStrategy::Dynamic(d) => d.spec_load_strategy(file_size),
        }
    }

    /// Resolves the strategy for the given file size.
    pub fn resolve(&self, file_size: u64) -> (r: ConstantLargeFileLoadStrategy)
        ensures
            r == self.spec_resolve(file_size),
    {
        match self {
            LargeFileLoadStrategy::Constant(s) => *s,
            LargeFileLoadStrategy::Dynamic(d) => d.get_load_strategy(file_size),
        }
    }
}

} // verus!
