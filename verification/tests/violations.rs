use standard_checks::misbehaved::{Boast, Drift, Flip, Greedy, Loose, Mirror, Mute, Nand, Unequal, Zombie};
use standard_checks::StandardChecks;
use standard_checks::Violation;
use standard_checks::{
    clone_eq, clone_iterator_of_eq, debug, eq, eq_hash, exact_size_iterator, fused_iterator,
    iterator, partial_eq, partial_eq_into_iterator_partial_eq,
};

#[test]
fn clone_unequal_detected() {
    assert_eq!(clone_eq::test(Flip { on: true }), Err(Violation::CloneUnequal));
    assert_eq!(clone_eq::test(Flip { on: false }), Err(Violation::CloneUnequal));
}

#[test]
fn clone_eq_passes_for_bool() {
    assert_eq!(clone_eq::test(true), Ok(()));
    assert_eq!(clone_eq::test(false), Ok(()));
}

#[test]
fn not_reflexive_detected() {
    assert_eq!(eq::test(Unequal { value: 3 }), Err(Violation::NotReflexive));
    assert_eq!(eq::test(true), Ok(()));
}

#[test]
fn not_commutative_detected() {
    let vals = (Unequal { value: 1 }, Unequal { value: 2 }, Unequal { value: 3 });
    assert_eq!(partial_eq::test(vals), Err(Violation::NotCommutative));
}

#[test]
fn not_transitive_detected() {
    let vals = (Drift { value: 0 }, Drift { value: 1 }, Drift { value: 2 });
    assert_eq!(partial_eq::test(vals), Err(Violation::NotTransitive));
    let close = (Drift { value: 5 }, Drift { value: 5 }, Drift { value: 6 });
    assert_eq!(partial_eq::test(close), Ok(()));
    assert_eq!(partial_eq::test((true, true, true)), Ok(()));
}

#[test]
fn debug_empty_detected() {
    assert_eq!(debug::test(Mute { fail: false }), Err(Violation::DebugEmpty));
    assert_eq!(debug::test(true), Ok(()));
}

#[test]
fn debug_error_detected() {
    assert_eq!(debug::test(Mute { fail: true }), Err(Violation::DebugError));
}

#[test]
fn hash_mismatch_detected() {
    let vals = (Loose { key: 1, salt: 1 }, Loose { key: 1, salt: 2 });
    assert_eq!(eq_hash::test(vals), Err(Violation::HashMismatch));
    let same = (Loose { key: 1, salt: 9 }, Loose { key: 1, salt: 9 });
    assert_eq!(eq_hash::test(same), Ok(()));
    let unequal = (Loose { key: 1, salt: 1 }, Loose { key: 2, salt: 2 });
    assert_eq!(eq_hash::test(unequal), Ok(()));
}

#[test]
fn digest_request_detected() {
    let vals = (Greedy { value: 1 }, Greedy { value: 1 });
    assert_eq!(eq_hash::test(vals), Err(Violation::DigestRequested));
}

#[test]
fn size_hint_out_of_bounds_detected() {
    assert_eq!(iterator::test(Boast { on: true }), Err(Violation::SizeHintOutOfBounds));
    assert_eq!(iterator::test([true]), Ok(()));
}

#[test]
fn exact_size_mismatch_detected() {
    assert_eq!(exact_size_iterator::test(Boast { on: false }), Err(Violation::ExactSizeMismatch));
    assert_eq!(exact_size_iterator::test([false]), Ok(()));
}

#[test]
fn cloned_iterator_mismatch_detected() {
    assert_eq!(clone_iterator_of_eq::test(Mirror { on: true }), Err(Violation::CloneIterUnequal));
    assert_eq!(clone_iterator_of_eq::test([true]), Ok(()));
}

#[test]
fn iterable_equality_disagreement_detected() {
    let vals = (Mirror { on: true }, Mirror { on: false });
    assert_eq!(
        partial_eq_into_iterator_partial_eq::test(vals),
        Err(Violation::IterEqDisagreement)
    );
    assert_eq!(partial_eq_into_iterator_partial_eq::test(([true], [true])), Ok(()));
    assert_eq!(partial_eq_into_iterator_partial_eq::test(([true], [false])), Ok(()));
}

#[test]
fn driver_aborts_on_non_transitive_equality() {
    // A drifting triple spaced by one byte breaks the chain law, and the
    // iteration reports exactly that violation.
    assert_eq!(Drift::one_iteration(&[0, 1, 2]), Err(Violation::NotTransitive));
    assert_eq!(Drift::one_iteration(&[5, 6, 7]), Err(Violation::NotTransitive));
    // A tight triple keeps every pairwise distance within one unit.
    assert_eq!(Drift::one_iteration(&[0, 0, 0]), Ok(()));
    assert_eq!(Drift::one_iteration(&[9, 9, 10]), Ok(()));
    // Distant first and second values never compare equal, so the chain
    // law holds vacuously.
    assert_eq!(Drift::one_iteration(&[0, 100, 200]), Ok(()));
    // Too few bytes for the triple: the law is skipped.
    assert_eq!(Drift::one_iteration(&[0, 1]), Ok(()));
    assert_eq!(Drift::one_iteration(&[]), Ok(()));
}

#[test]
fn driver_outcome_follows_decoded_booleans() {
    // A flag triple decodes one boolean per byte, low bit only. A set
    // first flag next to a clear second one breaks the chain law's
    // reflexive-on-equal branch.
    assert_eq!(Nand::one_iteration(&[1, 0, 0]), Err(Violation::NotCommutative));
    assert_eq!(Nand::one_iteration(&[3, 2, 0]), Err(Violation::NotCommutative));
    // The byte 2 has a clear low bit, so it decodes to a clear flag.
    assert_eq!(Nand::one_iteration(&[2, 0, 0]), Ok(()));
    // Two set flags never compare equal, so the chain law holds vacuously.
    assert_eq!(Nand::one_iteration(&[1, 1, 0]), Ok(()));
    // This value source zero-fills, so an empty buffer still decodes:
    // three clear flags, which pass.
    assert_eq!(Nand::one_iteration(&[]), Ok(()));
}

#[test]
fn fused_iterator_stays_exhausted() {
    assert_eq!(fused_iterator::test([true]), Ok(()));
    assert_eq!(fused_iterator::test([false]), Ok(()));
}

#[test]
fn fused_violation_detected() {
    // The iterator claims to be fused, yet digs up one more element
    // after reporting exhaustion.
    assert_eq!(fused_iterator::test(Zombie { on: true }), Err(Violation::FusedYieldedMore));
    assert_eq!(fused_iterator::test(Zombie { on: false }), Err(Violation::FusedYieldedMore));
}
