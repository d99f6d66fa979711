//! # Standard trait-law test suite
//!
//! While not always explicitly documented, it is generally expected that the
//! implementations of common value-semantics interfaces (equality, hashing,
//! cloning, iteration, formatting) have certain algebraic properties that
//! cannot be expressed in the type system alone: a cloned value equals the
//! original, equal values feed equal bytes to a hasher, an iterator's
//! size hint brackets its true length, and so on.
//!
//! This crate provides a fixed, ordered battery of such law checks and a
//! capability-gated dispatch mechanism that attaches the battery to a
//! concrete type: for each law, its gate resolves to either an enabled
//! check (when the type has the capabilities the law requires) or a
//! disabled no-op, with the decision made once per (law, type) pair.
//!
//! The driver, [`StandardChecks::one_iteration`], takes one fuzz-supplied
//! byte buffer, and for every law in registry order decodes that law's
//! input shape from the start of the buffer, consults that law's gate, and runs
//! the enabled checks. A decode failure silently skips that law alone; a
//! detected law violation ends the iteration at once and is reported as
//! the structured [`Violation`] value that names the broken property.
//!
//! The registry order is: clone-equality, clone-iterator-consistency,
//! formatting-non-emptiness, equality-reflexivity, hash-equality
//! consistency, exact-size consistency, fused exhaustion, size-hint bound,
//! partial-equality chain, iterable-partial-equality agreement.

use vstd::prelude::*;

pub mod caps;
pub mod clone_eq;
pub mod clone_iterator_of_eq;
pub mod debug;
pub mod decode;
pub mod eq;
pub mod eq_hash;
pub mod exact_size_iterator;
pub mod fused_iterator;
pub mod iterator;
pub mod misbehaved;
pub mod partial_eq;
pub mod partial_eq_into_iterator_partial_eq;
pub mod subject_bool;
pub mod subject_bool_array;
pub mod subject_raw;
pub mod trait_hack;

verus! {

/// The fatal outcome of one law check: names the property that was broken.
///
/// A law check that observes an actual violation of the property it
/// enforces reports one of these instead of passing. The
/// `NotCommutative` label mirrors the diagnostic historically emitted for
/// a reflexive-on-equal failure of the partial-equality chain; the check
/// logic itself is a reflexivity test.
#[derive(Clone, Copy, PartialEq, Eq, Debug)]
pub enum Violation {
    /// A cloned value is not equal to the original.
    CloneUnequal,
    /// A cloned iterator yielded a value unequal to the original's.
    CloneIterUnequal,
    /// Formatting a value reported an error.
    DebugError,
    /// Formatting a value produced no output at all.
    DebugEmpty,
    /// A value is not equal to itself.
    NotReflexive,
    /// Equal values fed different byte sequences to the recording hasher.
    HashMismatch,
    /// A hashing implementation requested a finalized digest from the
    /// recording hasher, which only supports incremental byte feeding.
    DigestRequested,
    /// An exact-size iterator's size hint disagrees with its reported length.
    ExactSizeMismatch,
    /// A fused iterator yielded an element after reporting exhaustion.
    FusedYieldedMore,
    /// An iterator's element count lies outside its reported size-hint bounds.
    SizeHintOutOfBounds,
    /// Two values compared equal, yet one of them is not equal to itself.
    NotCommutative,
    /// Equality failed to carry over a chain of pairwise-equal values.
    NotTransitive,
    /// A type's own equality verdict disagrees with elementwise comparison
    /// of the sequences its values iterate into.
    IterEqDisagreement,
}

/// A trait implemented by types that have their trait laws auto-checked.
pub trait StandardChecks {
    /// The exact outcome of one driver iteration on the given bytes: `Ok`
    /// when every enabled, decodable law passed, and otherwise the first
    /// violation in registry order.
    spec fn iteration_spec(dna: Seq<u8>) -> Result<(), Violation>;

    /// Performs one test iteration.
    ///
    /// The bytes produced by a fuzzer are passed as `dna`. To properly
    /// check a type this needs to run many times over different inputs.
    /// Every law re-reads the same buffer from its start; a law whose
    /// input cannot be decoded is skipped, and the first law violation
    /// ends the iteration and is returned.
    fn one_iteration(dna: &[u8]) -> (r: Result<(), Violation>)
        ensures
            r == Self::iteration_spec(dna@),
    ;
}

/// Law: the driver is idempotent. Invoking it twice for the same type and
/// the same byte buffer produces identical outcomes.
pub proof fn lemma_call_idempotent<T: StandardChecks>(
    dna: Seq<u8>,
    r1: Result<(), Violation>,
    r2: Result<(), Violation>,
)
    requires
        r1 == T::iteration_spec(dna),
        r2 == T::iteration_spec(dna),
    ensures
        r1 == r2,
{
}

} // verus!
