//! A registered subject without hashing or iteration capabilities, whose
//! value source takes whole bytes and needs at least one per value.
//!
//! It exercises the two skip paths of the driver: laws whose capability
//! requirements it lacks resolve to a disabled gate, and an exhausted
//! buffer makes every decode fail, so every law is skipped silently.

use vstd::prelude::*;

use core::marker::PhantomData;

use crate::caps::{CloneCap, EqCap, FmtCap, FmtError, FmtSink, PartialEqCap};
use crate::decode;
use crate::trait_hack::{gate_step, RunCheck};
use crate::{
    clone_eq, clone_iterator_of_eq, debug, eq, eq_hash, exact_size_iterator, fused_iterator,
    iterator, partial_eq, partial_eq_into_iterator_partial_eq,
};
use crate::{StandardChecks, Violation};

verus! {

/// One raw byte taken verbatim from the fuzz buffer. It can be compared,
/// cloned and formatted, but not hashed or iterated.
#[derive(Clone, Copy, PartialEq, Eq, Debug)]
pub struct RawByte {
    pub value: u8,
}

impl PartialEqCap for RawByte {
    open spec fn eq_spec(self, other: Self) -> bool {
        self.value == other.value
    }

    fn eq_val(&self, other: &Self) -> (r: bool) {
        self.value == other.value
    }
}

impl EqCap for RawByte {

}

impl CloneCap for RawByte {
    open spec fn clone_spec(self) -> Self {
        self
    }

    fn clone_val(&self) -> (r: Self) {
        RawByte { value: self.value }
    }
}

impl FmtCap for RawByte {
    open spec fn fmt_spec(self) -> Seq<char> {
        "RawByte"@
    }

    open spec fn fmt_ok(self) -> bool {
        true
    }

    fn fmt_to(&self, sink: &mut FmtSink) -> (r: Result<(), FmtError>) {
        sink.write_str("RawByte");
        proof {
            reveal_strlit("RawByte");
        }
        Ok(())
    }
}

impl StandardChecks for RawByte {
    open spec fn iteration_spec(dna: Seq<u8>) -> Result<(), Violation> {
        let single = decode::raw_single(dna);
        let pair = decode::raw_pair(dna);
        let triple = decode::raw_triple(dna);
        let r = gate_step(
            Ok(()),
            match single {
                Some(v) => <i32 as RunCheck<RawByte, clone_eq::Checker<RawByte>>>::outcome(v),
                None => None,
            },
        );
        let r = gate_step(
            r,
            match single {
                Some(v) => <u32 as RunCheck<
                    RawByte,
                    clone_iterator_of_eq::Checker<RawByte>,
                >>::outcome(v),
                None => None,
            },
        );
        let r = gate_step(
            r,
            match single {
                Some(v) => <i32 as RunCheck<RawByte, debug::Checker<RawByte>>>::outcome(v),
                None => None,
            },
        );
        let r = gate_step(
            r,
            match single {
                Some(v) => <i32 as RunCheck<RawByte, eq::Checker<RawByte>>>::outcome(v),
                None => None,
            },
        );
        let r = gate_step(
            r,
            match pair {
                Some(v) => <u32 as RunCheck<
                    (RawByte, RawByte),
                    eq_hash::Checker<RawByte>,
                >>::outcome(v),
                None => None,
            },
        );
        let r = gate_step(
            r,
            match single {
                Some(v) => <u32 as RunCheck<
                    RawByte,
                    exact_size_iterator::Checker<RawByte>,
                >>::outcome(v),
                None => None,
            },
        );
        let r = gate_step(
            r,
            match single {
                Some(v) => <u32 as RunCheck<RawByte, fused_iterator::Checker<RawByte>>>::outcome(
                    v,
                ),
                None => None,
            },
        );
        let r = gate_step(
            r,
            match single {
                Some(v) => <u32 as RunCheck<RawByte, iterator::Checker<RawByte>>>::outcome(v),
                None => None,
            },
        );
        let r = gate_step(
            r,
            match triple {
                Some(v) => <i32 as RunCheck<
                    (RawByte, RawByte, RawByte),
                    partial_eq::Checker<RawByte>,
                >>::outcome(v),
                None => None,
            },
        );
        gate_step(
            r,
            match pair {
                Some(v) => <u32 as RunCheck<
                    (RawByte, RawByte),
                    partial_eq_into_iterator_partial_eq::Checker<RawByte>,
                >>::outcome(v),
                None => None,
            },
        )
    }

    fn one_iteration(dna: &[u8]) -> (r: Result<(), Violation>) {
        let mut result: Result<(), Violation> = Ok(());

        // clone-equality
        if result.is_ok() {
            if let Some(v) = decode::decode_raw(dna) {
                let gate: i32 = 0;
                if let Some(verdict) = gate.run_check(v, clone_eq::Checker::<RawByte>(PhantomData))
                {
                    result = verdict;
                }
            }
        }
        // clone-iterator consistency: not iterable, disabled
        if result.is_ok() {
            if let Some(v) = decode::decode_raw(dna) {
                let gate: u32 = 0;
                if let Some(verdict) = gate.run_check(
                    v,
                    clone_iterator_of_eq::Checker::<RawByte>(PhantomData),
                ) {
                    result = verdict;
                }
            }
        }
        // formatting non-emptiness
        if result.is_ok() {
            if let Some(v) = decode::decode_raw(dna) {
                let gate: i32 = 0;
                if let Some(verdict) = gate.run_check(v, debug::Checker::<RawByte>(PhantomData)) {
                    result = verdict;
                }
            }
        }
        // equality reflexivity
        if result.is_ok() {
            if let Some(v) = decode::decode_raw(dna) {
                let gate: i32 = 0;
                if let Some(verdict) = gate.run_check(v, eq::Checker::<RawByte>(PhantomData)) {
                    result = verdict;
                }
            }
        }
        // hash-equality consistency: not hashable, disabled
        if result.is_ok() {
            if let Some(v) = decode::decode_raw_pair(dna) {
                let gate: u32 = 0;
                if let Some(verdict) = gate.run_check(v, eq_hash::Checker::<RawByte>(PhantomData))
                {
                    result = verdict;
                }
            }
        }
        // exact-size consistency: not iterable, disabled
        if result.is_ok() {
            if let Some(v) = decode::decode_raw(dna) {
                let gate: u32 = 0;
                if let Some(verdict) = gate.run_check(
                    v,
                    exact_size_iterator::Checker::<RawByte>(PhantomData),
                ) {
                    result = verdict;
                }
            }
        }
        // fused exhaustion: not iterable, disabled
        if result.is_ok() {
            if let Some(v) = decode::decode_raw(dna) {
                let gate: u32 = 0;
                if let Some(verdict) = gate.run_check(
                    v,
                    fused_iterator::Checker::<RawByte>(PhantomData),
                ) {
                    result = verdict;
                }
            }
        }
        // size-hint bound: not iterable, disabled
        if result.is_ok() {
            if let Some(v) = decode::decode_raw(dna) {
                let gate: u32 = 0;
                if let Some(verdict) = gate.run_check(v, iterator::Checker::<RawByte>(PhantomData))
                {
                    result = verdict;
                }
            }
        }
        // partial-equality chain
        if result.is_ok() {
            if let Some(v) = decode::decode_raw_triple(dna) {
                let gate: i32 = 0;
                if let Some(verdict) = gate.run_check(
                    v,
                    partial_eq::Checker::<RawByte>(PhantomData),
                ) {
                    result = verdict;
                }
            }
        }
        // iterable-partial-equality agreement: not iterable, disabled
        if result.is_ok() {
            if let Some(v) = decode::decode_raw_pair(dna) {
                let gate: u32 = 0;
                if let Some(verdict) = gate.run_check(
                    v,
                    partial_eq_into_iterator_partial_eq::Checker::<RawByte>(PhantomData),
                ) {
                    result = verdict;
                }
            }
        }
        result
    }
}

/// Gate resolution for raw bytes, law by law in registry order: the
/// narrow path for the four laws whose capabilities a raw byte has
/// (those entries compile only because it does), the broad path for the
/// iteration laws and for hash-equality, since a raw byte is neither
/// iterable nor hashable.
pub proof fn lemma_raw_byte_gate_resolution()
    ensures
        <i32 as RunCheck<RawByte, clone_eq::Checker<RawByte>>>::enabled(),
        !<u32 as RunCheck<RawByte, clone_iterator_of_eq::Checker<RawByte>>>::enabled(),
        <i32 as RunCheck<RawByte, debug::Checker<RawByte>>>::enabled(),
        <i32 as RunCheck<RawByte, eq::Checker<RawByte>>>::enabled(),
        !<u32 as RunCheck<(RawByte, RawByte), eq_hash::Checker<RawByte>>>::enabled(),
        !<u32 as RunCheck<RawByte, exact_size_iterator::Checker<RawByte>>>::enabled(),
        !<u32 as RunCheck<RawByte, fused_iterator::Checker<RawByte>>>::enabled(),
        !<u32 as RunCheck<RawByte, iterator::Checker<RawByte>>>::enabled(),
        <i32 as RunCheck<(RawByte, RawByte, RawByte), partial_eq::Checker<RawByte>>>::enabled(),
        !<u32 as RunCheck<
            (RawByte, RawByte),
            partial_eq_into_iterator_partial_eq::Checker<RawByte>,
        >>::enabled(),
{
}

/// Every law holds of a raw byte, so an iteration over any buffer ends
/// without a violation.
pub proof fn lemma_raw_byte_iteration_passes(dna: Seq<u8>)
    ensures
        RawByte::iteration_spec(dna) == Ok::<(), Violation>(()),
{
    reveal_strlit("RawByte");
}

/// Law: a type lacking the hashing capability resolves the
/// hash-equality gate to its disabled path, which never invokes the
/// check, so no iteration over any buffer can end in a hash violation.
pub proof fn lemma_raw_byte_hash_law_skipped(dna: Seq<u8>, vals: (RawByte, RawByte))
    ensures
        !<u32 as RunCheck<(RawByte, RawByte), eq_hash::Checker<RawByte>>>::enabled(),
        <u32 as RunCheck<(RawByte, RawByte), eq_hash::Checker<RawByte>>>::outcome(vals) is None,
        RawByte::iteration_spec(dna) != Err::<(), Violation>(Violation::HashMismatch),
        RawByte::iteration_spec(dna) != Err::<(), Violation>(Violation::DigestRequested),
{
    lemma_raw_byte_iteration_passes(dna);
}

/// Law: a buffer too short for a raw byte's value source makes every
/// law's decode fail, so every law is skipped and the iteration returns
/// normally.
pub proof fn lemma_raw_byte_empty_buffer_skips_all(dna: Seq<u8>)
    requires
        dna.len() == 0,
    ensures
        decode::raw_single(dna) is None,
        decode::raw_pair(dna) is None,
        decode::raw_triple(dna) is None,
        RawByte::iteration_spec(dna) == Ok::<(), Violation>(()),
{
}

} // verus!
