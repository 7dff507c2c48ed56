use fs_latency_exporter::align::align_padding;
use fs_latency_exporter::align::aligned_window;
use fs_latency_exporter::probe::record_cycle;
use fs_latency_exporter::probe::validate_target_size;
use fs_latency_exporter::probe::CycleOutcome;
use fs_latency_exporter::registry::MetricsRegistry;
use fs_latency_exporter::sampler::block_offset;
use fs_latency_exporter::sampler::sample_offset;

#[test]
fn sampled_offsets_are_aligned_and_in_bounds() {
    let sizes: [u64; 5] = [4096, 8191, 8192, 12288, (1 << 20) + 123];
    for &size in sizes.iter() {
        let mut i: usize = 0;
        while i < 200 {
            let offset: u64 = sample_offset(size);
            assert_eq!(offset % 4096, 0);
            assert!(offset + 4096 <= size);
            i += 1;
        }
    }
}

#[test]
fn block_offsets_are_exact_multiples() {
    assert_eq!(block_offset(0, 8192), 0);
    assert_eq!(block_offset(1, 8192), 4096);
    assert_eq!(block_offset(2, 20_000), 8192);
    assert_eq!(block_offset(255, 1 << 20), 255 * 4096);
}

#[test]
fn two_block_target_offsets_are_zero_or_one_block() {
    let mut saw_zero: bool = false;
    let mut saw_block: bool = false;
    let mut i: usize = 0;
    while i < 1000 {
        let offset: u64 = sample_offset(8192);
        assert!(offset == 0 || offset == 4096);
        if offset == 0 {
            saw_zero = true;
        } else {
            saw_block = true;
        }
        i += 1;
    }
    assert!(saw_zero);
    assert!(saw_block);
}

#[test]
fn failing_on_one_of_two_blocks_splits_the_tallies() {
    let mut reg: MetricsRegistry = MetricsRegistry::new();
    let mut i: usize = 0;
    while i < 1000 {
        let offset: u64 = sample_offset(8192);
        if offset == 4096 {
            record_cycle(&mut reg, CycleOutcome::ReadFailed);
        } else {
            record_cycle(&mut reg, CycleOutcome::ReadOk { latency_ns: 100 });
        }
        i += 1;
    }
    let errors: u64 = reg.errors_total();
    let count: u64 = reg.count();
    assert_eq!(errors + count, 1000);
    assert!(errors >= 350 && errors <= 650);
    assert!(count >= 350 && count <= 650);
}

#[test]
fn tallies_count_failures_and_successes_exactly() {
    let mut reg: MetricsRegistry = MetricsRegistry::new();
    record_cycle(&mut reg, CycleOutcome::SeekFailed);
    record_cycle(&mut reg, CycleOutcome::ReadOk { latency_ns: 1_000 });
    record_cycle(&mut reg, CycleOutcome::ReadFailed);
    record_cycle(&mut reg, CycleOutcome::ReadOk { latency_ns: 2_000 });
    record_cycle(&mut reg, CycleOutcome::ReadOk { latency_ns: 3_000 });
    record_cycle(&mut reg, CycleOutcome::SeekFailed);
    record_cycle(&mut reg, CycleOutcome::ReadFailed);
    record_cycle(&mut reg, CycleOutcome::ReadOk { latency_ns: 4_000 });
    record_cycle(&mut reg, CycleOutcome::ReadOk { latency_ns: 5_000 });
    record_cycle(&mut reg, CycleOutcome::ReadOk { latency_ns: 6_000 });
    assert_eq!(reg.errors_total(), 4);
    assert_eq!(reg.count(), 6);
    assert_eq!(reg.sum_ns(), 21_000);
}

#[test]
fn observation_of_300_microseconds_fills_the_right_buckets() {
    let mut reg: MetricsRegistry = MetricsRegistry::new();
    reg.observe_ns(300_000);
    assert_eq!(reg.bucket_count(0), 0);
    assert_eq!(reg.bucket_count(1), 0);
    let mut i: usize = 2;
    while i < 13 {
        assert_eq!(reg.bucket_count(i), 1);
        i += 1;
    }
    assert_eq!(reg.count(), 1);
    assert_eq!(reg.sum_ns(), 300_000);
    assert_eq!(reg.errors_total(), 0);
}

#[test]
fn observation_at_a_bound_lands_in_that_bucket() {
    let mut reg: MetricsRegistry = MetricsRegistry::new();
    reg.observe_ns(100_000);
    assert_eq!(reg.bucket_count(0), 1);
    assert_eq!(reg.bucket_count(1), 1);
    assert_eq!(reg.count(), 1);
}

#[test]
fn observation_beyond_one_second_counts_only_toward_inf() {
    let mut reg: MetricsRegistry = MetricsRegistry::new();
    reg.observe_ns(2_000_000_000);
    let mut i: usize = 0;
    while i < 13 {
        assert_eq!(reg.bucket_count(i), 0);
        i += 1;
    }
    assert_eq!(reg.count(), 1);
}

#[test]
fn cumulative_counts_are_monotone() {
    let mut reg: MetricsRegistry = MetricsRegistry::new();
    reg.observe_ns(50_000);
    reg.observe_ns(300_000);
    reg.observe_ns(7_000_000);
    reg.observe_ns(2_000_000_000);
    reg.increment_errors();
    let mut i: usize = 0;
    while i < 13 {
        let mut j: usize = i;
        while j < 13 {
            assert!(reg.bucket_count(i) <= reg.bucket_count(j));
            j += 1;
        }
        assert!(reg.bucket_count(i) <= reg.count());
        i += 1;
    }
    assert_eq!(reg.count(), 4);
}

#[test]
fn errors_leave_the_histogram_untouched() {
    let mut reg: MetricsRegistry = MetricsRegistry::new();
    reg.increment_errors();
    reg.increment_errors();
    assert_eq!(reg.errors_total(), 2);
    assert_eq!(reg.count(), 0);
    assert_eq!(reg.sum_ns(), 0);
    let mut i: usize = 0;
    while i < 13 {
        assert_eq!(reg.bucket_count(i), 0);
        i += 1;
    }
}

#[test]
fn aligned_window_is_block_aligned_and_one_block_long() {
    let addrs: [usize; 6] = [0, 1, 4095, 4096, 4097, 123_456_789];
    for &addr in addrs.iter() {
        let pad: usize = align_padding(addr);
        assert!(1 <= pad && pad <= 4096);
        assert_eq!((addr + pad) % 4096, 0);
        let (start, len): (usize, usize) = aligned_window(addr, 8192);
        assert_eq!(len, 4096);
        assert_eq!((addr + start) % 4096, 0);
        assert!(start + len <= 8192);
    }
}

#[test]
fn target_smaller_than_one_block_is_refused() {
    assert!(!validate_target_size(4095));
    assert!(!validate_target_size(0));
    assert!(validate_target_size(4096));
    assert!(validate_target_size(u64::MAX));
}
