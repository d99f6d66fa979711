//! Deliberately lawless capability implementations.
//!
//! Each type here satisfies its capability contracts — every executable
//! method agrees with its own specification — while the specification
//! itself breaks one of the laws. They demonstrate that the checks
//! detect genuine violations, and they give every violation a concrete
//! witness.

use vstd::prelude::*;

use core::marker::PhantomData;

use crate::caps::{
    CloneCap, EqCap, ExactSizeCap, FmtCap, FmtError, FmtSink, FusedCap, HashCap, IterCap, LawIter,
    PartialEqCap, RecordingHasher,
};
use crate::decode;
use crate::trait_hack::{gate_step, RunCheck};
use crate::{
    clone_eq, clone_iterator_of_eq, debug, eq, eq_hash, exact_size_iterator, fused_iterator,
    iterator, partial_eq, partial_eq_into_iterator_partial_eq,
};
use crate::{StandardChecks, Violation};

verus! {

/// Cloning flips the flag, so a clone never equals its original.
pub struct Flip {
    pub on: bool,
}

impl PartialEqCap for Flip {
    open spec fn eq_spec(self, other: Self) -> bool {
        self.on == other.on
    }

    fn eq_val(&self, other: &Self) -> (r: bool) {
        self.on == other.on
    }
}

impl EqCap for Flip {

}

impl CloneCap for Flip {
    open spec fn clone_spec(self) -> Self {
        Flip { on: !self.on }
    }

    fn clone_val(&self) -> (r: Self) {
        Flip { on: !self.on }
    }
}

/// Equality holds only between distinct values, so nothing equals
/// itself: reflexivity fails outright, and the chain law's
/// reflexive-on-equal branch fails too.
pub struct Unequal {
    pub value: u8,
}

impl PartialEqCap for Unequal {
    open spec fn eq_spec(self, other: Self) -> bool {
        self.value != other.value
    }

    fn eq_val(&self, other: &Self) -> (r: bool) {
        self.value != other.value
    }
}

impl EqCap for Unequal {

}

/// Values within one unit of each other compare equal: reflexive, yet
/// not transitive.
pub struct Drift {
    pub value: u8,
}

impl PartialEqCap for Drift {
    open spec fn eq_spec(self, other: Self) -> bool {
        -1 <= self.value - other.value <= 1
    }

    fn eq_val(&self, other: &Self) -> (r: bool) {
        if self.value >= other.value {
            self.value - other.value <= 1
        } else {
            other.value - self.value <= 1
        }
    }
}

/// The drifting value decoded from a buffer, or `None` when it is empty.
pub open spec fn drift_single(data: Seq<u8>) -> Option<Drift> {
    if data.len() >= 1 {
        Some(Drift { value: data[0] })
    } else {
        None
    }
}

/// The pair of drifting values decoded from a buffer, or `None` when
/// fewer than two bytes remain.
pub open spec fn drift_pair(data: Seq<u8>) -> Option<(Drift, Drift)> {
    if data.len() >= 2 {
        Some((Drift { value: data[0] }, Drift { value: data[1] }))
    } else {
        None
    }
}

/// The triple of drifting values decoded from a buffer, or `None` when
/// fewer than three bytes remain.
pub open spec fn drift_triple(data: Seq<u8>) -> Option<(Drift, Drift, Drift)> {
    if data.len() >= 3 {
        Some((Drift { value: data[0] }, Drift { value: data[1] }, Drift { value: data[2] }))
    } else {
        None
    }
}

fn decode_drift(data: &[u8]) -> (r: Option<Drift>)
    ensures
        r == drift_single(data@),
{
    match decode::decode_raw(data) {
        Some(b) => Some(Drift { value: b.value }),
        None => None,
    }
}

fn decode_drift_pair(data: &[u8]) -> (r: Option<(Drift, Drift)>)
    ensures
        r == drift_pair(data@),
{
    match decode::decode_raw_pair(data) {
        Some(b) => Some((Drift { value: b.0.value }, Drift { value: b.1.value })),
        None => None,
    }
}

fn decode_drift_triple(data: &[u8]) -> (r: Option<(Drift, Drift, Drift)>)
    ensures
        r == drift_triple(data@),
{
    match decode::decode_raw_triple(data) {
        Some(b) => Some(
            (Drift { value: b.0.value }, Drift { value: b.1.value }, Drift { value: b.2.value }),
        ),
        None => None,
    }
}

/// A drifting value claims only partial equality, so the chain law is
/// the one enabled law; buffers of three bytes spaced by one make it
/// fail, which exercises the driver's abort path end to end.
impl StandardChecks for Drift {
    open spec fn iteration_spec(dna: Seq<u8>) -> Result<(), Violation> {
        let single = drift_single(dna);
        let pair = drift_pair(dna);
        let triple = drift_triple(dna);
        let r = gate_step(
            Ok(()),
            match single {
                Some(v) => <u32 as RunCheck<Drift, clone_eq::Checker<Drift>>>::outcome(v),
                None => None,
            },
        );
        let r = gate_step(
            r,
            match single {
                Some(v) => <u32 as RunCheck<
                    Drift,
                    clone_iterator_of_eq::Checker<Drift>,
                >>::outcome(v),
                None => None,
            },
        );
        let r = gate_step(
            r,
            match single {
                Some(v) => <u32 as RunCheck<Drift, debug::Checker<Drift>>>::outcome(v),
                None => None,
            },
        );
        let r = gate_step(
            r,
            match single {
                Some(v) => <u32 as RunCheck<Drift, eq::Checker<Drift>>>::outcome(v),
                None => None,
            },
        );
        let r = gate_step(
            r,
            match pair {
                Some(v) => <u32 as RunCheck<(Drift, Drift), eq_hash::Checker<Drift>>>::outcome(v),
                None => None,
            },
        );
        let r = gate_step(
            r,
            match single {
                Some(v) => <u32 as RunCheck<
                    Drift,
                    exact_size_iterator::Checker<Drift>,
                >>::outcome(v),
                None => None,
            },
        );
        let r = gate_step(
            r,
            match single {
                Some(v) => <u32 as RunCheck<Drift, fused_iterator::Checker<Drift>>>::outcome(v),
                None => None,
            },
        );
        let r = gate_step(
            r,
            match single {
                Some(v) => <u32 as RunCheck<Drift, iterator::Checker<Drift>>>::outcome(v),
                None => None,
            },
        );
        let r = gate_step(
            r,
            match triple {
                Some(v) => <i32 as RunCheck<
                    (Drift, Drift, Drift),
                    partial_eq::Checker<Drift>,
                >>::outcome(v),
                None => None,
            },
        );
        gate_step(
            r,
            match pair {
                Some(v) => <u32 as RunCheck<
                    (Drift, Drift),
                    partial_eq_into_iterator_partial_eq::Checker<Drift>,
                >>::outcome(v),
                None => None,
            },
        )
    }

    fn one_iteration(dna: &[u8]) -> (r: Result<(), Violation>) {
        let mut result: Result<(), Violation> = Ok(());

        // clone-equality: not cloneable, disabled
        if result.is_ok() {
            if let Some(v) = decode_drift(dna) {
                let gate: u32 = 0;
                if let Some(verdict) = gate.run_check(v, clone_eq::Checker::<Drift>(PhantomData)) {
                    result = verdict;
                }
            }
        }
        // clone-iterator consistency: not iterable, disabled
        if result.is_ok() {
            if let Some(v) = decode_drift(dna) {
                let gate: u32 = 0;
                if let Some(verdict) = gate.run_check(
                    v,
                    clone_iterator_of_eq::Checker::<Drift>(PhantomData),
                ) {
                    result = verdict;
                }
            }
        }
        // formatting non-emptiness: not formattable, disabled
        if result.is_ok() {
            if let Some(v) = decode_drift(dna) {
                let gate: u32 = 0;
                if let Some(verdict) = gate.run_check(v, debug::Checker::<Drift>(PhantomData)) {
                    result = verdict;
                }
            }
        }
        // equality reflexivity: only partially equatable, disabled
        if result.is_ok() {
            if let Some(v) = decode_drift(dna) {
                let gate: u32 = 0;
                if let Some(verdict) = gate.run_check(v, eq::Checker::<Drift>(PhantomData)) {
                    result = verdict;
                }
            }
        }
        // hash-equality consistency: not hashable, disabled
        if result.is_ok() {
            if let Some(v) = decode_drift_pair(dna) {
                let gate: u32 = 0;
                if let Some(verdict) = gate.run_check(v, eq_hash::Checker::<Drift>(PhantomData)) {
                    result = verdict;
                }
            }
        }
        // exact-size consistency: not iterable, disabled
        if result.is_ok() {
            if let Some(v) = decode_drift(dna) {
                let gate: u32 = 0;
                if let Some(verdict) = gate.run_check(
                    v,
                    exact_size_iterator::Checker::<Drift>(PhantomData),
                ) {
                    result = verdict;
                }
            }
        }
        // fused exhaustion: not iterable, disabled
        if result.is_ok() {
            if let Some(v) = decode_drift(dna) {
                let gate: u32 = 0;
                if let Some(verdict) = gate.run_check(
                    v,
                    fused_iterator::Checker::<Drift>(PhantomData),
                ) {
                    result = verdict;
                }
            }
        }
        // size-hint bound: not iterable, disabled
        if result.is_ok() {
            if let Some(v) = decode_drift(dna) {
                let gate: u32 = 0;
                if let Some(verdict) = gate.run_check(v, iterator::Checker::<Drift>(PhantomData)) {
                    result = verdict;
                }
            }
        }
        // partial-equality chain: the one enabled law
        if result.is_ok() {
            if let Some(v) = decode_drift_triple(dna) {
                let gate: i32 = 0;
                if let Some(verdict) = gate.run_check(v, partial_eq::Checker::<Drift>(PhantomData))
                {
                    result = verdict;
                }
            }
        }
        // iterable-partial-equality agreement: not iterable, disabled
        if result.is_ok() {
            if let Some(v) = decode_drift_pair(dna) {
                let gate: u32 = 0;
                if let Some(verdict) = gate.run_check(
                    v,
                    partial_eq_into_iterator_partial_eq::Checker::<Drift>(PhantomData),
                ) {
                    result = verdict;
                }
            }
        }
        result
    }
}

/// Gate resolution for drifting values, law by law in registry
/// order: partial equality is their only capability, so the chain law
/// alone resolves to the narrow path (that entry compiles only because
/// the capability holds) and every other law to the broad one.
pub proof fn lemma_drift_gate_resolution()
    ensures
        !<u32 as RunCheck<Drift, clone_eq::Checker<Drift>>>::enabled(),
        !<u32 as RunCheck<Drift, clone_iterator_of_eq::Checker<Drift>>>::enabled(),
        !<u32 as RunCheck<Drift, debug::Checker<Drift>>>::enabled(),
        !<u32 as RunCheck<Drift, eq::Checker<Drift>>>::enabled(),
        !<u32 as RunCheck<(Drift, Drift), eq_hash::Checker<Drift>>>::enabled(),
        !<u32 as RunCheck<Drift, exact_size_iterator::Checker<Drift>>>::enabled(),
        !<u32 as RunCheck<Drift, fused_iterator::Checker<Drift>>>::enabled(),
        !<u32 as RunCheck<Drift, iterator::Checker<Drift>>>::enabled(),
        <i32 as RunCheck<(Drift, Drift, Drift), partial_eq::Checker<Drift>>>::enabled(),
        !<u32 as RunCheck<
            (Drift, Drift),
            partial_eq_into_iterator_partial_eq::Checker<Drift>,
        >>::enabled(),
{
}

/// Two flags compare equal unless both are set, so equality is symmetric
/// but not reflexive on a set flag: the chain law's reflexive-on-equal
/// branch fails exactly when a set flag meets a clear one.
pub struct Nand {
    pub on: bool,
}

impl PartialEqCap for Nand {
    open spec fn eq_spec(self, other: Self) -> bool {
        !(self.on && other.on)
    }

    fn eq_val(&self, other: &Self) -> (r: bool) {
        !(self.on && other.on)
    }
}

/// The flag triple decoded from a buffer: one boolean per value, so the
/// value source never fails.
pub open spec fn nand_triple(data: Seq<u8>) -> (Nand, Nand, Nand) {
    (
        Nand { on: decode::bool_at(data, 0) },
        Nand { on: decode::bool_at(data, 1) },
        Nand { on: decode::bool_at(data, 2) },
    )
}

fn decode_nand(data: &[u8]) -> (r: Nand)
    ensures
        r == (Nand { on: decode::bool_at(data@, 0) }),
{
    Nand { on: decode::decode_bool(data) }
}

fn decode_nand_pair(data: &[u8]) -> (r: (Nand, Nand))
    ensures
        r == (Nand { on: decode::bool_at(data@, 0) }, Nand { on: decode::bool_at(data@, 1) }),
{
    let pair = decode::decode_bool_pair(data);
    (Nand { on: pair.0 }, Nand { on: pair.1 })
}

fn decode_nand_triple(data: &[u8]) -> (r: (Nand, Nand, Nand))
    ensures
        r == nand_triple(data@),
{
    let triple = decode::decode_bool_triple(data);
    (Nand { on: triple.0 }, Nand { on: triple.1 }, Nand { on: triple.2 })
}

/// Like [`Drift`], a flag claims only partial equality, so the chain law
/// is the one enabled law; which buffers make it fail depends on the
/// decoded flags, exposing the boolean value source end to end.
impl StandardChecks for Nand {
    open spec fn iteration_spec(dna: Seq<u8>) -> Result<(), Violation> {
        let single = Nand { on: decode::bool_at(dna, 0) };
        let pair = (Nand { on: decode::bool_at(dna, 0) }, Nand { on: decode::bool_at(dna, 1) });
        let triple = nand_triple(dna);
        let r = gate_step(
            Ok(()),
            <u32 as RunCheck<Nand, clone_eq::Checker<Nand>>>::outcome(single),
        );
        let r = gate_step(
            r,
            <u32 as RunCheck<Nand, clone_iterator_of_eq::Checker<Nand>>>::outcome(single),
        );
        let r = gate_step(r, <u32 as RunCheck<Nand, debug::Checker<Nand>>>::outcome(single));
        let r = gate_step(r, <u32 as RunCheck<Nand, eq::Checker<Nand>>>::outcome(single));
        let r = gate_step(
            r,
            <u32 as RunCheck<(Nand, Nand), eq_hash::Checker<Nand>>>::outcome(pair),
        );
        let r = gate_step(
            r,
            <u32 as RunCheck<Nand, exact_size_iterator::Checker<Nand>>>::outcome(single),
        );
        let r = gate_step(
            r,
            <u32 as RunCheck<Nand, fused_iterator::Checker<Nand>>>::outcome(single),
        );
        let r = gate_step(r, <u32 as RunCheck<Nand, iterator::Checker<Nand>>>::outcome(single));
        let r = gate_step(
            r,
            <i32 as RunCheck<(Nand, Nand, Nand), partial_eq::Checker<Nand>>>::outcome(triple),
        );
        gate_step(
            r,
            <u32 as RunCheck<
                (Nand, Nand),
                partial_eq_into_iterator_partial_eq::Checker<Nand>,
            >>::outcome(pair),
        )
    }

    fn one_iteration(dna: &[u8]) -> (r: Result<(), Violation>) {
        let mut result: Result<(), Violation> = Ok(());

        // clone-equality: not cloneable, disabled
        if result.is_ok() {
            let v = decode_nand(dna);
            let gate: u32 = 0;
            if let Some(verdict) = gate.run_check(v, clone_eq::Checker::<Nand>(PhantomData)) {
                result = verdict;
            }
        }
        // clone-iterator consistency: not iterable, disabled
        if result.is_ok() {
            let v = decode_nand(dna);
            let gate: u32 = 0;
            if let Some(verdict) = gate.run_check(
                v,
                clone_iterator_of_eq::Checker::<Nand>(PhantomData),
            ) {
                result = verdict;
            }
        }
        // formatting non-emptiness: not formattable, disabled
        if result.is_ok() {
            let v = decode_nand(dna);
            let gate: u32 = 0;
            if let Some(verdict) = gate.run_check(v, debug::Checker::<Nand>(PhantomData)) {
                result = verdict;
            }
        }
        // equality reflexivity: only partially equatable, disabled
        if result.is_ok() {
            let v = decode_nand(dna);
            let gate: u32 = 0;
            if let Some(verdict) = gate.run_check(v, eq::Checker::<Nand>(PhantomData)) {
                result = verdict;
            }
        }
        // hash-equality consistency: not hashable, disabled
        if result.is_ok() {
            let v = decode_nand_pair(dna);
            let gate: u32 = 0;
            if let Some(verdict) = gate.run_check(v, eq_hash::Checker::<Nand>(PhantomData)) {
                result = verdict;
            }
        }
        // exact-size consistency: not iterable, disabled
        if result.is_ok() {
            let v = decode_nand(dna);
            let gate: u32 = 0;
            if let Some(verdict) = gate.run_check(
                v,
                exact_size_iterator::Checker::<Nand>(PhantomData),
            ) {
                result = verdict;
            }
        }
        // fused exhaustion: not iterable, disabled
        if result.is_ok() {
            let v = decode_nand(dna);
            let gate: u32 = 0;
            if let Some(verdict) = gate.run_check(v, fused_iterator::Checker::<Nand>(PhantomData))
            {
                result = verdict;
            }
        }
        // size-hint bound: not iterable, disabled
        if result.is_ok() {
            let v = decode_nand(dna);
            let gate: u32 = 0;
            if let Some(verdict) = gate.run_check(v, iterator::Checker::<Nand>(PhantomData)) {
                result = verdict;
            }
        }
        // partial-equality chain: the one enabled law
        if result.is_ok() {
            let v = decode_nand_triple(dna);
            let gate: i32 = 0;
            if let Some(verdict) = gate.run_check(v, partial_eq::Checker::<Nand>(PhantomData)) {
                result = verdict;
            }
        }
        // iterable-partial-equality agreement: not iterable, disabled
        if result.is_ok() {
            let v = decode_nand_pair(dna);
            let gate: u32 = 0;
            if let Some(verdict) = gate.run_check(
                v,
                partial_eq_into_iterator_partial_eq::Checker::<Nand>(PhantomData),
            ) {
                result = verdict;
            }
        }
        result
    }
}

/// Gate resolution for flags, law by law in registry order: like a
/// drifting value, a flag claims partial equality alone, so only the
/// chain law resolves to the narrow path (that entry compiles only
/// because the capability holds).
pub proof fn lemma_nand_gate_resolution()
    ensures
        !<u32 as RunCheck<Nand, clone_eq::Checker<Nand>>>::enabled(),
        !<u32 as RunCheck<Nand, clone_iterator_of_eq::Checker<Nand>>>::enabled(),
        !<u32 as RunCheck<Nand, debug::Checker<Nand>>>::enabled(),
        !<u32 as RunCheck<Nand, eq::Checker<Nand>>>::enabled(),
        !<u32 as RunCheck<(Nand, Nand), eq_hash::Checker<Nand>>>::enabled(),
        !<u32 as RunCheck<Nand, exact_size_iterator::Checker<Nand>>>::enabled(),
        !<u32 as RunCheck<Nand, fused_iterator::Checker<Nand>>>::enabled(),
        !<u32 as RunCheck<Nand, iterator::Checker<Nand>>>::enabled(),
        <i32 as RunCheck<(Nand, Nand, Nand), partial_eq::Checker<Nand>>>::enabled(),
        !<u32 as RunCheck<
            (Nand, Nand),
            partial_eq_into_iterator_partial_eq::Checker<Nand>,
        >>::enabled(),
{
}

/// Formatting writes nothing, and on demand reports an error instead.
pub struct Mute {
    pub fail: bool,
}

impl FmtCap for Mute {
    open spec fn fmt_spec(self) -> Seq<char> {
        Seq::empty()
    }

    open spec fn fmt_ok(self) -> bool {
        !self.fail
    }

    fn fmt_to(&self, _sink: &mut FmtSink) -> (r: Result<(), FmtError>) {
        if self.fail {
            Err(FmtError)
        } else {
            Ok(())
        }
    }
}

/// Equality looks only at the first field while hashing feeds the
/// second, so equal values can hash differently.
pub struct Loose {
    pub key: u8,
    pub salt: u8,
}

impl PartialEqCap for Loose {
    open spec fn eq_spec(self, other: Self) -> bool {
        self.key == other.key
    }

    fn eq_val(&self, other: &Self) -> (r: bool) {
        self.key == other.key
    }
}

impl EqCap for Loose {

}

impl HashCap for Loose {
    open spec fn hash_spec(self) -> Seq<u8> {
        seq![self.salt]
    }

    open spec fn digest_misuse(self) -> bool {
        false
    }

    fn feed_hash(&self, h: &mut RecordingHasher) {
        h.write_byte(self.salt);
        proof {
            assert(h.bytes@ =~= old(h).bytes@ + self.hash_spec());
        }
    }
}

/// Hashing requests a finalized digest from the sink, which the sink's
/// contract forbids.
pub struct Greedy {
    pub value: u8,
}

impl PartialEqCap for Greedy {
    open spec fn eq_spec(self, other: Self) -> bool {
        self.value == other.value
    }

    fn eq_val(&self, other: &Self) -> (r: bool) {
        self.value == other.value
    }
}

impl EqCap for Greedy {

}

impl HashCap for Greedy {
    open spec fn hash_spec(self) -> Seq<u8> {
        Seq::empty()
    }

    open spec fn digest_misuse(self) -> bool {
        true
    }

    fn feed_hash(&self, h: &mut RecordingHasher) {
        let _ = h.finish();
        proof {
            assert(h.bytes@ =~= old(h).bytes@ + self.hash_spec());
        }
    }
}

/// An iterable whose iterator is empty yet brags of one element in its
/// size hint and reports a length that contradicts the hint.
pub struct Boast {
    pub on: bool,
}

/// The iterator of [`Boast`]: already exhausted, hint notwithstanding.
pub struct BoastIter {
    pub done: bool,
}

impl LawIter for BoastIter {
    type Item = bool;

    open spec fn rem(self) -> Seq<bool> {
        Seq::empty()
    }

    open spec fn resurrected(self) -> Seq<bool> {
        Seq::empty()
    }

    proof fn rem_bounded(&self) {
    }

    fn next(&mut self) -> (r: Option<bool>) {
        None
    }

    open spec fn size_hint_spec(self) -> (usize, Option<usize>) {
        (1usize, Some(1usize))
    }

    fn size_hint(&self) -> (r: (usize, Option<usize>)) {
        (1, Some(1))
    }
}

impl ExactSizeCap for BoastIter {
    open spec fn len_spec(self) -> usize {
        0usize
    }

    fn len(&self) -> (r: usize) {
        0
    }
}

impl FusedCap for BoastIter {

}

impl IterCap for Boast {
    type It = BoastIter;

    open spec fn iter_spec(self) -> BoastIter {
        BoastIter { done: true }
    }

    fn into_iter_val(self) -> (it: BoastIter) {
        BoastIter { done: true }
    }
}

/// An iterable whose iterator claims to be fused but comes back to
/// life: after once reporting exhaustion, it yields one further element.
pub struct Zombie {
    pub on: bool,
}

/// The iterator of [`Zombie`]: `live` is what it yields before reporting
/// exhaustion, `buried` what it digs up afterwards.
pub struct ZombieIter {
    pub live: Option<bool>,
    pub buried: Option<bool>,
}

impl LawIter for ZombieIter {
    type Item = bool;

    open spec fn rem(self) -> Seq<bool> {
        match self.live {
            Some(b) => seq![b],
            None => Seq::empty(),
        }
    }

    open spec fn resurrected(self) -> Seq<bool> {
        match self.buried {
            Some(b) => seq![b],
            None => Seq::empty(),
        }
    }

    proof fn rem_bounded(&self) {
    }

    fn next(&mut self) -> (r: Option<bool>) {
        match self.live {
            Some(b) => {
                self.live = None;
                proof {
                    assert(old(self).rem().drop_first() =~= self.rem());
                }
                Some(b)
            },
            None => {
                self.live = self.buried;
                self.buried = None;
                None
            },
        }
    }

    open spec fn size_hint_spec(self) -> (usize, Option<usize>) {
        (self.rem().len() as usize, Some(self.rem().len() as usize))
    }

    fn size_hint(&self) -> (r: (usize, Option<usize>)) {
        match self.live {
            Some(_) => (1, Some(1)),
            None => (0, Some(0)),
        }
    }
}

impl FusedCap for ZombieIter {

}

impl IterCap for Zombie {
    type It = ZombieIter;

    open spec fn iter_spec(self) -> ZombieIter {
        ZombieIter { live: Some(self.on), buried: Some(!self.on) }
    }

    fn into_iter_val(self) -> (it: ZombieIter) {
        ZombieIter { live: Some(self.on), buried: Some(!self.on) }
    }
}

/// An iterable that always calls itself equal, while cloning its
/// iterator negates the element it will yield.
pub struct Mirror {
    pub on: bool,
}

/// The iterator of [`Mirror`]: yields one flag; a clone yields its
/// negation.
pub struct MirrorIter {
    pub item: Option<bool>,
}

impl LawIter for MirrorIter {
    type Item = bool;

    open spec fn rem(self) -> Seq<bool> {
        match self.item {
            Some(b) => seq![b],
            None => Seq::empty(),
        }
    }

    open spec fn resurrected(self) -> Seq<bool> {
        Seq::empty()
    }

    proof fn rem_bounded(&self) {
    }

    fn next(&mut self) -> (r: Option<bool>) {
        let r = self.item;
        self.item = None;
        proof {
            if r is Some {
                assert(old(self).rem().drop_first() =~= self.rem());
            }
        }
        r
    }

    open spec fn size_hint_spec(self) -> (usize, Option<usize>) {
        (self.rem().len() as usize, Some(self.rem().len() as usize))
    }

    fn size_hint(&self) -> (r: (usize, Option<usize>)) {
        match self.item {
            Some(_) => (1, Some(1)),
            None => (0, Some(0)),
        }
    }
}

impl CloneCap for MirrorIter {
    open spec fn clone_spec(self) -> Self {
        MirrorIter {
            item: match self.item {
                Some(b) => Some(!b),
                None => None,
            },
        }
    }

    fn clone_val(&self) -> (r: Self) {
        MirrorIter {
            item: match self.item {
                Some(b) => Some(!b),
                None => None,
            },
        }
    }
}

impl PartialEqCap for Mirror {
    open spec fn eq_spec(self, other: Self) -> bool {
        true
    }

    fn eq_val(&self, _other: &Self) -> (r: bool) {
        true
    }
}

impl IterCap for Mirror {
    type It = MirrorIter;

    open spec fn iter_spec(self) -> MirrorIter {
        MirrorIter { item: Some(self.on) }
    }

    fn into_iter_val(self) -> (it: MirrorIter) {
        MirrorIter { item: Some(self.on) }
    }
}

} // verus!
