use b2_uploader::chunking::{
    plan_parts, stride_ranges, ConstantLargeFileLoadStrategy, DefaultLargeFileLoadStrategy,
    DynamicLargeFileLoadStrategy, LargeFileLoadStrategy, MAX_PART_SIZE, MIN_PART_SIZE,
};
use b2_uploader::is_valid::IsValid;

const MIB: u64 = 1024 * 1024;

#[test]
fn parts_cover_file_with_clamped_last_part() {
    let parts = plan_parts(12, 5);
    assert_eq!(parts.len(), 3);
    assert_eq!((parts[0].part_number, parts[0].start, parts[0].end), (1, 0, 5));
    assert_eq!((parts[1].part_number, parts[1].start, parts[1].end), (2, 5, 10));
    assert_eq!((parts[2].part_number, parts[2].start, parts[2].end), (3, 10, 12));
}

#[test]
fn part_count_is_size_over_part_size_rounded_up() {
    // all but the last part have the nominal length; the last takes the rest
    let parts = plan_parts(23, 4);
    assert_eq!(parts.len(), 6);
    for (i, p) in parts.iter().enumerate() {
        assert_eq!(p.part_number as usize, i + 1);
        if i + 1 < parts.len() {
            assert_eq!(p.end - p.start, 4);
        } else {
            assert_eq!(p.end - p.start, 23 - 4 * 5);
        }
    }
    let total: u64 = parts.iter().map(|p| p.end - p.start).sum();
    assert_eq!(total, 23);
}

#[test]
fn exact_multiple_has_full_last_part() {
    let parts = plan_parts(20, 5);
    assert_eq!(parts.len(), 4);
    assert_eq!(parts[3].end - parts[3].start, 5);
}

#[test]
fn one_part_when_file_fits() {
    let parts = plan_parts(3, 5);
    assert_eq!(parts.len(), 1);
    assert_eq!((parts[0].start, parts[0].end), (0, 3));
}

#[test]
fn stride_ranges_tile_and_clamp() {
    let ranges = stride_ranges(7, 3);
    assert_eq!(ranges, vec![(0, 3), (3, 6), (6, 7)]);
    assert_eq!(stride_ranges(0, 3), vec![]);
    assert_eq!(stride_ranges(6, 3), vec![(0, 3), (3, 6)]);
}

#[test]
fn adaptive_strategy_keeps_five_mib_parts_and_bounds_fanout() {
    let strat = DefaultLargeFileLoadStrategy.get_load_strategy(500 * MIB);
    assert_eq!(strat.part_size, 5 * MIB);
    // 100 parts over 200 target groups floors to 0, lifted to the minimum 3
    assert_eq!(strat.chunk_size, 3);

    // a very large file widens the groups: 4000 parts / 200 = 20 per group
    let strat = DefaultLargeFileLoadStrategy.get_load_strategy(20_000 * MIB);
    assert_eq!(strat.chunk_size, 20);

    // the width caps at the largest 16-bit count
    let strat = DefaultLargeFileLoadStrategy.get_load_strategy(u64::MAX);
    assert_eq!(strat.chunk_size, u16::MAX);
}

#[test]
fn five_hundred_mib_adaptive_plan_has_100_parts_in_34_groups() {
    let strat = LargeFileLoadStrategy::default().resolve(500 * MIB);
    let parts = plan_parts(500 * MIB, strat.part_size);
    assert_eq!(parts.len(), 100);
    let groups = stride_ranges(parts.len(), strat.chunk_size as usize);
    assert_eq!(groups.len(), 34);
    assert_eq!(groups[0], (0, 3));
    assert_eq!(groups[33], (99, 100));
}

#[test]
fn constant_strategy_validation() {
    assert!(ConstantLargeFileLoadStrategy { part_size: MIN_PART_SIZE, chunk_size: 1 }
        .is_valid()
        .is_ok());
    assert!(ConstantLargeFileLoadStrategy { part_size: MAX_PART_SIZE, chunk_size: 3 }
        .is_valid()
        .is_ok());
    let too_small = ConstantLargeFileLoadStrategy { part_size: MIN_PART_SIZE - 1, chunk_size: 3 };
    assert!(too_small.is_valid().is_err());
    let too_large = ConstantLargeFileLoadStrategy { part_size: MAX_PART_SIZE + 1, chunk_size: 3 };
    assert!(too_large.is_valid().is_err());
    let zero_chunk = ConstantLargeFileLoadStrategy { part_size: MIN_PART_SIZE, chunk_size: 0 };
    let err = zero_chunk.is_valid().unwrap_err();
    assert_eq!(err.value_name, "chunk_size");
}

#[test]
fn default_strategy_is_five_mib_parts_of_three() {
    let d = ConstantLargeFileLoadStrategy::default();
    assert_eq!(d.part_size, 5 * MIB);
    assert_eq!(d.chunk_size, 3);
}
