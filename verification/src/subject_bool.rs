//! The boolean subject: comparable, cloneable, hashable and formattable,
//! but not iterable. Every law that applies to it holds, so an iteration
//! over any buffer passes.

use vstd::prelude::*;

use core::marker::PhantomData;

use crate::caps::{
    CloneCap, EqCap, FmtCap, FmtError, FmtSink, HashCap, PartialEqCap, RecordingHasher,
};
use crate::decode;
use crate::trait_hack::{gate_step, RunCheck};
use crate::{
    clone_eq, clone_iterator_of_eq, debug, eq, eq_hash, exact_size_iterator, fused_iterator,
    iterator, partial_eq, partial_eq_into_iterator_partial_eq,
};
use crate::{StandardChecks, Violation};

verus! {

impl PartialEqCap for bool {
    open spec fn eq_spec(self, other: Self) -> bool {
        self == other
    }

    fn eq_val(&self, other: &Self) -> (r: bool) {
        *self == *other
    }
}

impl EqCap for bool {

}

impl CloneCap for bool {
    open spec fn clone_spec(self) -> Self {
        self
    }

    fn clone_val(&self) -> (r: Self) {
        *self
    }
}

impl HashCap for bool {
    open spec fn hash_spec(self) -> Seq<u8> {
        seq![if self { 1u8 } else { 0u8 }]
    }

    open spec fn digest_misuse(self) -> bool {
        false
    }

    fn feed_hash(&self, h: &mut RecordingHasher) {
        h.write_byte(if *self { 1 } else { 0 });
        proof {
            assert(h.bytes@ =~= old(h).bytes@ + self.hash_spec());
        }
    }
}

impl FmtCap for bool {
    open spec fn fmt_spec(self) -> Seq<char> {
        if self {
            "true"@
        } else {
            "false"@
        }
    }

    open spec fn fmt_ok(self) -> bool {
        true
    }

    fn fmt_to(&self, sink: &mut FmtSink) -> (r: Result<(), FmtError>) {
        if *self {
            sink.write_str("true");
        } else {
            sink.write_str("false");
        }
        proof {
            reveal_strlit("true");
            reveal_strlit("false");
        }
        Ok(())
    }
}

impl StandardChecks for bool {
    open spec fn iteration_spec(dna: Seq<u8>) -> Result<(), Violation> {
        let single = decode::bool_at(dna, 0);
        let pair = (decode::bool_at(dna, 0), decode::bool_at(dna, 1));
        let triple = (decode::bool_at(dna, 0), decode::bool_at(dna, 1), decode::bool_at(dna, 2));
        let r = gate_step(
            Ok(()),
            <i32 as RunCheck<bool, clone_eq::Checker<bool>>>::outcome(single),
        );
        let r = gate_step(
            r,
            <u32 as RunCheck<bool, clone_iterator_of_eq::Checker<bool>>>::outcome(single),
        );
        let r = gate_step(r, <i32 as RunCheck<bool, debug::Checker<bool>>>::outcome(single));
        let r = gate_step(r, <i32 as RunCheck<bool, eq::Checker<bool>>>::outcome(single));
        let r = gate_step(
            r,
            <i32 as RunCheck<(bool, bool), eq_hash::Checker<bool>>>::outcome(pair),
        );
        let r = gate_step(
            r,
            <u32 as RunCheck<bool, exact_size_iterator::Checker<bool>>>::outcome(single),
        );
        let r = gate_step(
            r,
            <u32 as RunCheck<bool, fused_iterator::Checker<bool>>>::outcome(single),
        );
        let r = gate_step(r, <u32 as RunCheck<bool, iterator::Checker<bool>>>::outcome(single));
        let r = gate_step(
            r,
            <i32 as RunCheck<(bool, bool, bool), partial_eq::Checker<bool>>>::outcome(triple),
        );
        gate_step(
            r,
            <u32 as RunCheck<
                (bool, bool),
                partial_eq_into_iterator_partial_eq::Checker<bool>,
            >>::outcome(pair),
        )
    }

    fn one_iteration(dna: &[u8]) -> (r: Result<(), Violation>) {
        let mut result: Result<(), Violation> = Ok(());

        // clone-equality
        if result.is_ok() {
            let v = decode::decode_bool(dna);
            let gate: i32 = 0;
            if let Some(verdict) = gate.run_check(v, clone_eq::Checker::<bool>(PhantomData)) {
                result = verdict;
            }
        }
        // clone-iterator consistency: not iterable, disabled
        if result.is_ok() {
            let v = decode::decode_bool(dna);
            let gate: u32 = 0;
            if let Some(verdict) = gate.run_check(
                v,
                clone_iterator_of_eq::Checker::<bool>(PhantomData),
            ) {
                result = verdict;
            }
        }
        // formatting non-emptiness
        if result.is_ok() {
            let v = decode::decode_bool(dna);
            let gate: i32 = 0;
            if let Some(verdict) = gate.run_check(v, debug::Checker::<bool>(PhantomData)) {
                result = verdict;
            }
        }
        // equality reflexivity
        if result.is_ok() {
            let v = decode::decode_bool(dna);
            let gate: i32 = 0;
            if let Some(verdict) = gate.run_check(v, eq::Checker::<bool>(PhantomData)) {
                result = verdict;
            }
        }
        // hash-equality consistency
        if result.is_ok() {
            let v = decode::decode_bool_pair(dna);
            let gate: i32 = 0;
            if let Some(verdict) = gate.run_check(v, eq_hash::Checker::<bool>(PhantomData)) {
                result = verdict;
            }
        }
        // exact-size consistency: not iterable, disabled
        if result.is_ok() {
            let v = decode::decode_bool(dna);
            let gate: u32 = 0;
            if let Some(verdict) = gate.run_check(
                v,
                exact_size_iterator::Checker::<bool>(PhantomData),
            ) {
                result = verdict;
            }
        }
        // fused exhaustion: not iterable, disabled
        if result.is_ok() {
            let v = decode::decode_bool(dna);
            let gate: u32 = 0;
            if let Some(verdict) = gate.run_check(v, fused_iterator::Checker::<bool>(PhantomData))
            {
                result = verdict;
            }
        }
        // size-hint bound: not iterable, disabled
        if result.is_ok() {
            let v = decode::decode_bool(dna);
            let gate: u32 = 0;
            if let Some(verdict) = gate.run_check(v, iterator::Checker::<bool>(PhantomData)) {
                result = verdict;
            }
        }
        // partial-equality chain
        if result.is_ok() {
            let v = decode::decode_bool_triple(dna);
            let gate: i32 = 0;
            if let Some(verdict) = gate.run_check(v, partial_eq::Checker::<bool>(PhantomData)) {
                result = verdict;
            }
        }
        // iterable-partial-equality agreement: not iterable, disabled
        if result.is_ok() {
            let v = decode::decode_bool_pair(dna);
            let gate: u32 = 0;
            if let Some(verdict) = gate.run_check(
                v,
                partial_eq_into_iterator_partial_eq::Checker::<bool>(PhantomData),
            ) {
                result = verdict;
            }
        }
        result
    }
}

/// Gate resolution for booleans, law by law in registry order: the
/// narrow path wherever a boolean has the law's capabilities (those
/// entries compile only because it does), the broad path for the four
/// iteration laws, since a boolean is not iterable.
pub proof fn lemma_bool_gate_resolution()
    ensures
        <i32 as RunCheck<bool, clone_eq::Checker<bool>>>::enabled(),
        !<u32 as RunCheck<bool, clone_iterator_of_eq::Checker<bool>>>::enabled(),
        <i32 as RunCheck<bool, debug::Checker<bool>>>::enabled(),
        <i32 as RunCheck<bool, eq::Checker<bool>>>::enabled(),
        <i32 as RunCheck<(bool, bool), eq_hash::Checker<bool>>>::enabled(),
        !<u32 as RunCheck<bool, exact_size_iterator::Checker<bool>>>::enabled(),
        !<u32 as RunCheck<bool, fused_iterator::Checker<bool>>>::enabled(),
        !<u32 as RunCheck<bool, iterator::Checker<bool>>>::enabled(),
        <i32 as RunCheck<(bool, bool, bool), partial_eq::Checker<bool>>>::enabled(),
        !<u32 as RunCheck<
            (bool, bool),
            partial_eq_into_iterator_partial_eq::Checker<bool>,
        >>::enabled(),
{
}

/// Booleans satisfy every law that applies to them — equality is
/// reflexive, cloning is the identity, equal values hash alike — so an
/// iteration over any buffer ends without a violation.
pub proof fn lemma_bool_iteration_passes(dna: Seq<u8>)
    ensures
        <bool as StandardChecks>::iteration_spec(dna) == Ok::<(), Violation>(()),
{
    reveal_strlit("true");
    reveal_strlit("false");
}

} // verus!
