//! The one-element boolean array subject: it has every capability,
//! including iteration, so all ten laws are enabled for it, and all of
//! them hold.

use vstd::prelude::*;

use core::marker::PhantomData;

use crate::caps::{
    CloneCap, EqCap, ExactSizeCap, FmtCap, FmtError, FmtSink, FusedCap, HashCap, IterCap, LawIter,
    PartialEqCap, RecordingHasher,
};
use crate::decode;
use crate::trait_hack::{gate_step, RunCheck};
use crate::{
    clone_eq, clone_iterator_of_eq, debug, eq, eq_hash, exact_size_iterator, fused_iterator,
    iterator, partial_eq, partial_eq_into_iterator_partial_eq,
};
use crate::{StandardChecks, Violation};

verus! {

broadcast use vstd::array::group_array_axioms;

/// The iterator a one-element boolean array turns into: at most one
/// element left to yield.
pub struct BoolsIter {
    pub item: Option<bool>,
}

impl LawIter for BoolsIter {
    type Item = bool;

    open spec fn rem(self) -> Seq<bool> {
        match self.item {
            Some(b) => seq![b],
            None => Seq::empty(),
        }
    }

    open spec fn resurrected(self) -> Seq<bool> {
        Seq::empty()
    }

    proof fn rem_bounded(&self) {
    }

    fn next(&mut self) -> (r: Option<bool>) {
        let r = self.item;
        self.item = None;
        proof {
            if r is Some {
                assert(old(self).rem().drop_first() =~= self.rem());
            }
        }
        r
    }

    open spec fn size_hint_spec(self) -> (usize, Option<usize>) {
        (self.rem().len() as usize, Some(self.rem().len() as usize))
    }

    fn size_hint(&self) -> (r: (usize, Option<usize>)) {
        match self.item {
            Some(_) => (1, Some(1)),
            None => (0, Some(0)),
        }
    }
}

impl ExactSizeCap for BoolsIter {
    open spec fn len_spec(self) -> usize {
        self.rem().len() as usize
    }

    fn len(&self) -> (r: usize) {
        match self.item {
            Some(_) => 1,
            None => 0,
        }
    }
}

impl FusedCap for BoolsIter {

}

impl CloneCap for BoolsIter {
    open spec fn clone_spec(self) -> Self {
        self
    }

    fn clone_val(&self) -> (r: Self) {
        BoolsIter { item: self.item }
    }
}

impl PartialEqCap for [bool; 1] {
    open spec fn eq_spec(self, other: Self) -> bool {
        self@ == other@
    }

    fn eq_val(&self, other: &Self) -> (r: bool) {
        let a = *vstd::array::array_index_get(self, 0);
        let b = *vstd::array::array_index_get(other, 0);
        proof {
            if a == b {
                assert(self@ =~= other@);
            }
        }
        a == b
    }
}

impl EqCap for [bool; 1] {

}

impl CloneCap for [bool; 1] {
    open spec fn clone_spec(self) -> Self {
        self
    }

    fn clone_val(&self) -> (r: Self) {
        *self
    }
}

impl HashCap for [bool; 1] {
    open spec fn hash_spec(self) -> Seq<u8> {
        seq![if self@[0] { 1u8 } else { 0u8 }]
    }

    open spec fn digest_misuse(self) -> bool {
        false
    }

    fn feed_hash(&self, h: &mut RecordingHasher) {
        let b = *vstd::array::array_index_get(self, 0);
        h.write_byte(if b { 1 } else { 0 });
        proof {
            assert(h.bytes@ =~= old(h).bytes@ + self.hash_spec());
        }
    }
}

impl FmtCap for [bool; 1] {
    open spec fn fmt_spec(self) -> Seq<char> {
        if self@[0] {
            "[true]"@
        } else {
            "[false]"@
        }
    }

    open spec fn fmt_ok(self) -> bool {
        true
    }

    fn fmt_to(&self, sink: &mut FmtSink) -> (r: Result<(), FmtError>) {
        let b = *vstd::array::array_index_get(self, 0);
        if b {
            sink.write_str("[true]");
        } else {
            sink.write_str("[false]");
        }
        proof {
            reveal_strlit("[true]");
            reveal_strlit("[false]");
        }
        Ok(())
    }
}

impl IterCap for [bool; 1] {
    type It = BoolsIter;

    open spec fn iter_spec(self) -> BoolsIter {
        BoolsIter { item: Some(self@[0]) }
    }

    fn into_iter_val(self) -> (it: BoolsIter) {
        let b = *vstd::array::array_index_get(&self, 0);
        BoolsIter { item: Some(b) }
    }
}

impl StandardChecks for [bool; 1] {
    open spec fn iteration_spec(dna: Seq<u8>) -> Result<(), Violation> {
        let single = decode::array1(decode::bool_at(dna, 0));
        let pair = (decode::array1(decode::bool_at(dna, 0)), decode::array1(
            decode::bool_at(dna, 1),
        ));
        let triple = (decode::array1(decode::bool_at(dna, 0)), decode::array1(
            decode::bool_at(dna, 1),
        ), decode::array1(decode::bool_at(dna, 2)));
        let r = gate_step(
            Ok(()),
            <i32 as RunCheck<[bool; 1], clone_eq::Checker<[bool; 1]>>>::outcome(single),
        );
        let r = gate_step(
            r,
            <i32 as RunCheck<[bool; 1], clone_iterator_of_eq::Checker<[bool; 1]>>>::outcome(
                single,
            ),
        );
        let r = gate_step(
            r,
            <i32 as RunCheck<[bool; 1], debug::Checker<[bool; 1]>>>::outcome(single),
        );
        let r = gate_step(r, <i32 as RunCheck<[bool; 1], eq::Checker<[bool; 1]>>>::outcome(single));
        let r = gate_step(
            r,
            <i32 as RunCheck<([bool; 1], [bool; 1]), eq_hash::Checker<[bool; 1]>>>::outcome(pair),
        );
        let r = gate_step(
            r,
            <i32 as RunCheck<[bool; 1], exact_size_iterator::Checker<[bool; 1]>>>::outcome(single),
        );
        let r = gate_step(
            r,
            <i32 as RunCheck<[bool; 1], fused_iterator::Checker<[bool; 1]>>>::outcome(single),
        );
        let r = gate_step(
            r,
            <i32 as RunCheck<[bool; 1], iterator::Checker<[bool; 1]>>>::outcome(single),
        );
        let r = gate_step(
            r,
            <i32 as RunCheck<
                ([bool; 1], [bool; 1], [bool; 1]),
                partial_eq::Checker<[bool; 1]>,
            >>::outcome(triple),
        );
        gate_step(
            r,
            <i32 as RunCheck<
                ([bool; 1], [bool; 1]),
                partial_eq_into_iterator_partial_eq::Checker<[bool; 1]>,
            >>::outcome(pair),
        )
    }

    fn one_iteration(dna: &[u8]) -> (r: Result<(), Violation>) {
        let mut result: Result<(), Violation> = Ok(());

        // clone-equality
        if result.is_ok() {
            let v = decode::decode_bools(dna);
            let gate: i32 = 0;
            if let Some(verdict) = gate.run_check(v, clone_eq::Checker::<[bool; 1]>(PhantomData)) {
                result = verdict;
            }
        }
        // clone-iterator consistency
        if result.is_ok() {
            let v = decode::decode_bools(dna);
            let gate: i32 = 0;
            if let Some(verdict) = gate.run_check(
                v,
                clone_iterator_of_eq::Checker::<[bool; 1]>(PhantomData),
            ) {
                result = verdict;
            }
        }
        // formatting non-emptiness
        if result.is_ok() {
            let v = decode::decode_bools(dna);
            let gate: i32 = 0;
            if let Some(verdict) = gate.run_check(v, debug::Checker::<[bool; 1]>(PhantomData)) {
                result = verdict;
            }
        }
        // equality reflexivity
        if result.is_ok() {
            let v = decode::decode_bools(dna);
            let gate: i32 = 0;
            if let Some(verdict) = gate.run_check(v, eq::Checker::<[bool; 1]>(PhantomData)) {
                result = verdict;
            }
        }
        // hash-equality consistency
        if result.is_ok() {
            let v = decode::decode_bools_pair(dna);
            let gate: i32 = 0;
            if let Some(verdict) = gate.run_check(v, eq_hash::Checker::<[bool; 1]>(PhantomData)) {
                result = verdict;
            }
        }
        // exact-size consistency
        if result.is_ok() {
            let v = decode::decode_bools(dna);
            let gate: i32 = 0;
            if let Some(verdict) = gate.run_check(
                v,
                exact_size_iterator::Checker::<[bool; 1]>(PhantomData),
            ) {
                result = verdict;
            }
        }
        // fused exhaustion
        if result.is_ok() {
            let v = decode::decode_bools(dna);
            let gate: i32 = 0;
            if let Some(verdict) = gate.run_check(
                v,
                fused_iterator::Checker::<[bool; 1]>(PhantomData),
            ) {
                result = verdict;
            }
        }
        // size-hint bound
        if result.is_ok() {
            let v = decode::decode_bools(dna);
            let gate: i32 = 0;
            if let Some(verdict) = gate.run_check(v, iterator::Checker::<[bool; 1]>(PhantomData)) {
                result = verdict;
            }
        }
        // partial-equality chain
        if result.is_ok() {
            let v = decode::decode_bools_triple(dna);
            let gate: i32 = 0;
            if let Some(verdict) = gate.run_check(
                v,
                partial_eq::Checker::<[bool; 1]>(PhantomData),
            ) {
                result = verdict;
            }
        }
        // iterable-partial-equality agreement
        if result.is_ok() {
            let v = decode::decode_bools_pair(dna);
            let gate: i32 = 0;
            if let Some(verdict) = gate.run_check(
                v,
                partial_eq_into_iterator_partial_eq::Checker::<[bool; 1]>(PhantomData),
            ) {
                result = verdict;
            }
        }
        result
    }
}

/// Gate resolution for one-element boolean arrays, law by law in
/// registry order: the array has every capability, so every law resolves
/// to the narrow path (each entry compiles only because it does).
pub proof fn lemma_bools_gate_resolution()
    ensures
        <i32 as RunCheck<[bool; 1], clone_eq::Checker<[bool; 1]>>>::enabled(),
        <i32 as RunCheck<[bool; 1], clone_iterator_of_eq::Checker<[bool; 1]>>>::enabled(),
        <i32 as RunCheck<[bool; 1], debug::Checker<[bool; 1]>>>::enabled(),
        <i32 as RunCheck<[bool; 1], eq::Checker<[bool; 1]>>>::enabled(),
        <i32 as RunCheck<([bool; 1], [bool; 1]), eq_hash::Checker<[bool; 1]>>>::enabled(),
        <i32 as RunCheck<[bool; 1], exact_size_iterator::Checker<[bool; 1]>>>::enabled(),
        <i32 as RunCheck<[bool; 1], fused_iterator::Checker<[bool; 1]>>>::enabled(),
        <i32 as RunCheck<[bool; 1], iterator::Checker<[bool; 1]>>>::enabled(),
        <i32 as RunCheck<
            ([bool; 1], [bool; 1], [bool; 1]),
            partial_eq::Checker<[bool; 1]>,
        >>::enabled(),
        <i32 as RunCheck<
            ([bool; 1], [bool; 1]),
            partial_eq_into_iterator_partial_eq::Checker<[bool; 1]>,
        >>::enabled(),
{
}

/// Law: a one-element array's iterator always holds exactly one element,
/// and its size hint reports exactly (1, Some(1)).
pub proof fn lemma_bools_size_hint_exact(a: [bool; 1])
    ensures
        a.iter_spec().rem().len() == 1,
        a.iter_spec().size_hint_spec() == (1usize, Some(1usize)),
{
}

/// One-element boolean arrays satisfy all ten laws, so an iteration over
/// any buffer ends without a violation.
pub proof fn lemma_bools_iteration_passes(dna: Seq<u8>)
    ensures
        <[bool; 1] as StandardChecks>::iteration_spec(dna) == Ok::<(), Violation>(()),
{
    reveal_strlit("[true]");
    reveal_strlit("[false]");
    let b0 = decode::bool_at(dna, 0);
    let b1 = decode::bool_at(dna, 1);
    let a0 = decode::array1(b0);
    let a1 = decode::array1(b1);
    assert(clone_iterator_of_eq::holds(a0)) by {
        let s1 = a0.iter_spec().rem();
        let s2 = a0.iter_spec().clone_spec().rem();
        assert forall|i: int| 0 <= i < s1.len() && i < s2.len() implies #[trigger] s1[i].eq_spec(
            s2[i],
        ) by {
            assert(s1[i] == a0@[0]);
        };
    };
    assert(partial_eq_into_iterator_partial_eq::holds((a0, a1))) by {
        let s1 = a0.iter_spec().rem();
        let s2 = a1.iter_spec().rem();
        if a0.eq_spec(a1) {
            assert forall|i: int| 0 <= i < s1.len() && i < s2.len() implies #[trigger] s1[
                i
            ].eq_spec(s2[i]) by {
                assert(s1[i] == a0@[0] && s2[i] == a1@[0]);
            };
        } else {
            if b0 == b1 {
                assert(a0@ =~= a1@);
            }
            assert(s1[0] == b0 && s2[0] == b1);
            assert(!s1[0].eq_spec(s2[0]));
            assert(!partial_eq_into_iterator_partial_eq::zip_all_eq(s1, s2));
        }
    };
}

} // verus!
