use agg_spill::spill::{
    choose_spill_backend, record_file_io, record_file_release, record_managed_read,
    record_managed_release, record_managed_write, MemSpill, Spill, SpillBackendKind, SpillMetrics,
    SPILL_BUFFER_SIZE,
};

fn pattern_bytes(n: usize) -> Vec<u8> {
    (0..n).map(|i| (i % 251) as u8).collect()
}

fn read_all<S: Spill>(s: &mut S, chunk: usize) -> Vec<u8> {
    let mut out = Vec::new();
    loop {
        let part = s.read(chunk).unwrap();
        if part.is_empty() {
            return out;
        }
        out.extend_from_slice(&part);
    }
}

#[test]
fn spill_round_trip_empty() {
    let mut s = MemSpill::new();
    s.write(&Vec::new()).unwrap();
    s.complete().unwrap();
    let out = read_all(&mut s, 1024);
    assert!(out.is_empty());
}

#[test]
fn spill_round_trip_exceeding_buffer_size() {
    let data = pattern_bytes(SPILL_BUFFER_SIZE + 12345);
    let mut s = MemSpill::new();
    // write in several chunks
    for chunk in data.chunks(10_000) {
        let n = s.write(&chunk.to_vec()).unwrap();
        assert_eq!(n, chunk.len());
    }
    s.complete().unwrap();
    let out = read_all(&mut s, 4096);
    assert_eq!(out, data);
}

#[test]
fn spill_single_huge_read_returns_everything() {
    let data = pattern_bytes(1000);
    let mut s = MemSpill::new();
    s.write(&data).unwrap();
    s.complete().unwrap();
    let out = s.read(usize::MAX >> 1).unwrap();
    assert_eq!(out, data);
    assert!(s.read(16).unwrap().is_empty());
}

#[test]
fn spill_multiple_independent_readers() {
    let data = pattern_bytes(70_000);
    let mut s = MemSpill::new();
    s.write(&data).unwrap();
    s.complete().unwrap();
    let mut r1 = s.get_reader();
    let mut r2 = s.get_reader();
    // interleave the two cursors; each still sees the whole stream
    let mut out1 = Vec::new();
    let mut out2 = Vec::new();
    loop {
        let a = s.read_with(&mut r1, 7_000);
        let b = s.read_with(&mut r2, 13_000);
        let done = a.is_empty() && b.is_empty();
        out1.extend_from_slice(&a);
        out2.extend_from_slice(&b);
        if done {
            break;
        }
    }
    assert_eq!(out1, data);
    assert_eq!(out2, data);
}

#[test]
fn spill_release_with_failing_queries_reports_zero() {
    // a managed-memory spill holding 100000 bytes, torn down while the
    // end-of-life usage and IO-time queries fail
    let data = pattern_bytes(100_000);
    let mut s = MemSpill::new();
    let mut m = SpillMetrics::new();
    let n = s.write(&data).unwrap();
    record_managed_write(&mut m, n as u64, 5);
    s.complete().unwrap();
    record_managed_release(&mut m, None, None);
    assert_eq!(m.mem_spill_count, 1);
    assert_eq!(m.mem_spill_size, 100_000);
    assert_eq!(m.disk_spill_size, 0);
    assert_eq!(m.disk_spill_iotime, 0);
}

#[test]
fn spill_release_with_answered_queries_folds_them_in() {
    let mut m = SpillMetrics::new();
    record_managed_release(&mut m, Some(4096), Some(777));
    assert_eq!(m.mem_spill_count, 1);
    assert_eq!(m.disk_spill_size, 4096);
    assert_eq!(m.disk_spill_iotime, 777);
}

#[test]
fn spill_managed_write_and_read_feed_metrics() {
    let mut m = SpillMetrics::new();
    record_managed_write(&mut m, 64, 10);
    record_managed_write(&mut m, 36, 15);
    record_managed_read(&mut m, 5);
    assert_eq!(m.mem_spill_size, 100);
    assert_eq!(m.mem_spill_iotime, 30);
    assert_eq!(m.mem_spill_count, 0);
}

#[test]
fn spill_file_release_reports_size_to_both_counters() {
    let mut m = SpillMetrics::new();
    record_file_io(&mut m, 9);
    record_file_release(&mut m, 2048);
    assert_eq!(m.mem_spill_size, 2048);
    assert_eq!(m.disk_spill_size, 2048);
    assert_eq!(m.mem_spill_iotime, 9);
    assert_eq!(m.mem_spill_count, 0);
}

#[test]
fn spill_metrics_saturate_instead_of_overflowing() {
    let mut m = SpillMetrics::new();
    record_managed_write(&mut m, u64::MAX, 1);
    record_managed_write(&mut m, u64::MAX, 1);
    assert_eq!(m.mem_spill_size, u64::MAX);
}

#[test]
fn spill_backend_choice_follows_context() {
    assert_eq!(
        choose_spill_backend(false, false),
        SpillBackendKind::DiskBacked
    );
    assert_eq!(
        choose_spill_backend(false, true),
        SpillBackendKind::DiskBacked
    );
    assert_eq!(
        choose_spill_backend(true, true),
        SpillBackendKind::DiskBacked
    );
    assert_eq!(
        choose_spill_backend(true, false),
        SpillBackendKind::ManagedMemory
    );
}
