use leveldb::compaction::CompactRange;
use leveldb::error::{engine_result, Error};
use leveldb::options::{ReadOptions, WriteOptions};

#[test]
fn write_options_default_to_async() {
    assert!(!WriteOptions::new().sync);
}

#[test]
fn read_options_default_to_live_state() {
    let o: ReadOptions<u32> = ReadOptions::new();
    assert!(!o.verify_checksums);
    assert!(o.fill_cache);
    assert!(o.snapshot.is_none());
}

#[test]
fn binding_a_snapshot_keeps_the_other_settings() {
    let mut o: ReadOptions<&str> = ReadOptions::new();
    o.verify_checksums = true;
    o.fill_cache = false;
    let bound = o.with_snapshot("s1");
    assert!(bound.verify_checksums);
    assert!(!bound.fill_cache);
    assert_eq!(bound.snapshot, Some("s1"));
    let rebound = bound.with_snapshot("s2");
    assert_eq!(rebound.snapshot, Some("s2"));
}

#[test]
fn no_diagnostic_is_success() {
    assert_eq!(engine_result(None), Ok(()));
}

#[test]
fn diagnostic_becomes_error() {
    let r = engine_result(Some("IO error: lock held".to_string()));
    match r {
        Err(e) => assert_eq!(e.message(), "IO error: lock held"),
        Ok(()) => panic!("a diagnostic was taken for success"),
    }
    assert_eq!(Error::new(String::new()).message(), "");
}

#[test]
fn compaction_bounds_are_key_bytes() {
    let start = b"a".to_vec();
    let limit = b"zz".to_vec();
    let r = CompactRange::new(&start, &limit);
    assert_eq!(r.start, b"a".to_vec());
    assert_eq!(r.limit, b"zz".to_vec());
    let empty = CompactRange::new(&Vec::new(), &Vec::new());
    assert!(empty.start.is_empty() && empty.limit.is_empty());
}
