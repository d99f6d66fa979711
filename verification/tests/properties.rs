use core::marker::PhantomData;

use standard_checks::caps::{ExactSizeCap, FmtSink, HashCap, IterCap, LawIter, RecordingHasher};
use standard_checks::subject_raw::RawByte;
use standard_checks::trait_hack::RunCheck;
use standard_checks::StandardChecks;
use standard_checks::{eq, eq_hash};

#[test]
fn gate_resolution_is_deterministic() {
    let r1 = 0i32.run_check(true, eq::Checker::<bool>(PhantomData));
    let r2 = 0i32.run_check(true, eq::Checker::<bool>(PhantomData));
    assert_eq!(r1, r2);
    assert_eq!(r1, Some(Ok(())));
    let d1 = 0u32.run_check(
        (RawByte { value: 7 }, RawByte { value: 7 }),
        eq_hash::Checker::<RawByte>(PhantomData),
    );
    let d2 = 0u32.run_check(
        (RawByte { value: 7 }, RawByte { value: 7 }),
        eq_hash::Checker::<RawByte>(PhantomData),
    );
    assert_eq!(d1, d2);
}

#[test]
fn disabled_gate_never_runs_the_check() {
    // A type without the hashing capability: the hash-equality gate can
    // only resolve to the broad path, which yields no verdict at all.
    let outcome = 0u32.run_check(
        (RawByte { value: 0 }, RawByte { value: 1 }),
        eq_hash::Checker::<RawByte>(PhantomData),
    );
    assert_eq!(outcome, None);
}

#[test]
fn skip_on_missing_capability_never_aborts() {
    // Whatever the buffer holds, the hash-equality law never aborts an
    // iteration for a type that cannot hash.
    let buffers: [&[u8]; 6] = [&[], &[0], &[0, 1], &[255, 255, 255], &[1, 2, 3, 4], &[9, 9]];
    for dna in buffers {
        assert_eq!(RawByte::one_iteration(dna), Ok(()));
    }
}

#[test]
fn driver_is_idempotent() {
    let dna = [3, 1, 4, 1, 5];
    assert_eq!(bool::one_iteration(&dna), bool::one_iteration(&dna));
    assert_eq!(<[bool; 1]>::one_iteration(&dna), <[bool; 1]>::one_iteration(&dna));
    assert_eq!(RawByte::one_iteration(&dna), RawByte::one_iteration(&dna));
}

#[test]
fn insufficient_data_skips_every_law() {
    // A raw byte's value source needs at least one byte; an empty buffer
    // makes every law decode-fail, and the call returns normally.
    assert_eq!(RawByte::one_iteration(&[]), Ok(()));
}

#[test]
fn single_element_array_size_hint_is_exact() {
    let mut it = [true].into_iter_val();
    assert_eq!(it.size_hint(), (1, Some(1)));
    assert_eq!(it.len(), 1);
    let mut count = 0;
    while it.next().is_some() {
        count += 1;
    }
    assert_eq!(count, 1);
    let mut it2 = [false].into_iter_val();
    assert_eq!(it2.size_hint(), (1, Some(1)));
    assert_eq!(it2.next(), Some(false));
    assert_eq!(it2.next(), None);
}

#[test]
fn equal_values_from_distinct_encodings_hash_alike() {
    // The value source takes only the low bit of a byte, so the distinct
    // encodings 0 and 2 both decode to `false`; an iteration over them
    // runs the hash-equality law on that equal pair and passes.
    assert_eq!(bool::one_iteration(&[0, 2, 0]), Ok(()));
    // The recorded byte sequences of the two decoded values agree.
    let mut h1 = RecordingHasher::new();
    false.feed_hash(&mut h1);
    let mut h2 = RecordingHasher::new();
    false.feed_hash(&mut h2);
    assert_eq!(h1.bytes, h2.bytes);
    assert!(!h1.digest_requested);
    assert!(!h2.digest_requested);
}

#[test]
fn recording_hasher_accumulates_bytes() {
    let mut h = RecordingHasher::new();
    assert!(h.bytes.is_empty());
    true.feed_hash(&mut h);
    false.feed_hash(&mut h);
    assert_eq!(h.bytes, vec![1, 0]);
    assert!(!h.digest_requested);
    let d = h.finish();
    assert_eq!(d, 0);
    assert!(h.digest_requested);
}

#[test]
fn fmt_sink_tracks_only_real_output() {
    let mut sink = FmtSink::new();
    assert!(!sink.wrote);
    sink.write_str("");
    assert!(!sink.wrote);
    sink.write_str("x");
    assert!(sink.wrote);
    let mut sink2 = FmtSink::new();
    sink2.write_char('y');
    assert!(sink2.wrote);
}

#[test]
fn raw_byte_iterations_pass() {
    assert_eq!(RawByte::one_iteration(&[7]), Ok(()));
    assert_eq!(RawByte::one_iteration(&[7, 8]), Ok(()));
    assert_eq!(RawByte::one_iteration(&[7, 8, 9]), Ok(()));
    assert_eq!(RawByte::one_iteration(&[0, 0, 0, 0]), Ok(()));
}
