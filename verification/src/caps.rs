//! The capabilities a type under test may offer.
//!
//! Each capability pairs the executable interface the law checks call with
//! a specification-level account of its behaviour. A law's property is
//! stated over the specification functions alone, so whether a given
//! implementation obeys a law is a fixed fact about the type, decided by
//! how it defines its capability specs.

use vstd::prelude::*;

verus! {

/// Partial equality: the capability the equality-chain laws require.
///
/// `eq_spec` is the type's own notion of equality; no law is assumed of
/// it here. The laws test it.
pub trait PartialEqCap: Sized {
    /// What `eq_val` returns, as a pure function of the two values.
    spec fn eq_spec(self, other: Self) -> bool;

    fn eq_val(&self, other: &Self) -> (r: bool)
        ensures
            r == self.eq_spec(*other),
    ;
}

/// Total equality: a marker refinement of [`PartialEqCap`], claimed by
/// types whose equality is meant to be an equivalence. The claim itself
/// is what the reflexivity law puts to the test.
pub trait EqCap: PartialEqCap {
}

/// Cloning. `clone_spec` is the value the clone produces; nothing forces
/// it to be the original, which is exactly what the clone-equality law
/// checks.
pub trait CloneCap: Sized {
    /// What `clone_val` returns.
    spec fn clone_spec(self) -> Self;

    fn clone_val(&self) -> (r: Self)
        ensures
            r == self.clone_spec(),
    ;
}

/// A recording hash sink: it accumulates every byte fed to it and flags a
/// request for a finalized digest, which hashing implementations must not
/// make (they communicate solely by feeding bytes).
pub struct RecordingHasher {
    pub bytes: Vec<u8>,
    pub digest_requested: bool,
}

impl RecordingHasher {
    pub fn new() -> (h: Self)
        ensures
            h.bytes@ == Seq::<u8>::empty(),
            !h.digest_requested,
    {
        RecordingHasher { bytes: Vec::new(), digest_requested: false }
    }

    /// Feed one byte to the sink.
    pub fn write_byte(&mut self, b: u8)
        ensures
            final(self).bytes@ == old(self).bytes@.push(b),
            final(self).digest_requested == old(self).digest_requested,
    {
        self.bytes.push(b);
    }

    /// Request a finalized digest. The sink records the request as a
    /// contract breach instead of computing anything.
    pub fn finish(&mut self) -> (d: u64)
        ensures
            final(self).bytes@ == old(self).bytes@,
            final(self).digest_requested,
    {
        self.digest_requested = true;
        0
    }
}

/// Hashing. `hash_spec` is the byte sequence the implementation feeds to
/// a sink; `digest_misuse` says whether it breaks the sink's contract by
/// requesting a finalized digest.
pub trait HashCap: Sized {
    /// The bytes `feed_hash` appends to the sink.
    spec fn hash_spec(self) -> Seq<u8>;

    /// Whether `feed_hash` requests a finalized digest from the sink.
    spec fn digest_misuse(self) -> bool;

    fn feed_hash(&self, h: &mut RecordingHasher)
        ensures
            final(h).bytes@ == old(h).bytes@ + self.hash_spec(),
            final(h).digest_requested == (old(h).digest_requested || self.digest_misuse()),
    ;
}

/// A recording text sink that only remembers whether any output arrived,
/// avoiding allocation.
pub struct FmtSink {
    pub wrote: bool,
}

/// The error a formatting implementation may report.
pub struct FmtError;

impl FmtSink {
    pub fn new() -> (s: Self)
        ensures
            !s.wrote,
    {
        FmtSink { wrote: false }
    }

    pub fn write_char(&mut self, _c: char)
        ensures
            final(self).wrote,
    {
        self.wrote = true;
    }

    pub fn write_str(&mut self, s: &str)
        ensures
            final(self).wrote == (old(self).wrote || s@.len() > 0),
    {
        if s.unicode_len() > 0 {
            self.wrote = true;
        }
    }
}

/// Text formatting (a debug representation). `fmt_spec` is the text the
/// implementation writes; `fmt_ok` says whether it reports success.
pub trait FmtCap: Sized {
    /// The characters `fmt_to` writes into the sink when it succeeds.
    spec fn fmt_spec(self) -> Seq<char>;

    /// Whether `fmt_to` returns without reporting an error.
    spec fn fmt_ok(self) -> bool;

    fn fmt_to(&self, sink: &mut FmtSink) -> (r: Result<(), FmtError>)
        ensures
            r is Ok <==> self.fmt_ok(),
            r is Ok ==> final(sink).wrote == (old(sink).wrote || self.fmt_spec().len() > 0),
    ;
}

/// The iterator interface the iteration laws drive.
///
/// `next` walks the remaining elements deterministically, while
/// `size_hint_spec` is left entirely to the implementation: the size-hint
/// laws exist to compare the two. `resurrected` is what the iterator
/// will yield again after it has once reported exhaustion — empty for a
/// lawful iterator, and exactly what the fused-exhaustion law probes
/// for. One burst of post-exhaustion elements is representable; the law
/// aborts at the first of them, so nothing beyond the first burst can
/// ever be observed.
pub trait LawIter: Sized {
    type Item;

    /// The elements still to be yielded, up to the first report of
    /// exhaustion.
    spec fn rem(self) -> Seq<Self::Item>;

    /// The elements the iterator comes back with after it has once
    /// reported exhaustion; a lawful iterator has none.
    spec fn resurrected(self) -> Seq<Self::Item>;

    /// The remaining elements can be counted in a machine word.
    proof fn rem_bounded(&self)
        ensures
            self.rem().len() <= usize::MAX,
    ;

    fn next(&mut self) -> (r: Option<Self::Item>)
        ensures
            match r {
                Option::None => old(self).rem().len() == 0
                    && final(self).rem() == old(self).resurrected()
                    && final(self).resurrected().len() == 0,
                Option::Some(x) => old(self).rem().len() > 0
                    && x == old(self).rem()[0]
                    && final(self).rem() == old(self).rem().drop_first()
                    && final(self).resurrected() == old(self).resurrected(),
            },
    ;

    /// What `size_hint` reports: a lower and an optional upper bound on
    /// the element count, with no promise here that either is right.
    spec fn size_hint_spec(self) -> (usize, Option<usize>);

    fn size_hint(&self) -> (r: (usize, Option<usize>))
        ensures
            r == self.size_hint_spec(),
    ;
}

/// An iterator that additionally reports an exact element count.
/// `len_spec` is what it reports, not necessarily the truth.
pub trait ExactSizeCap: LawIter {
    /// What `len` reports.
    spec fn len_spec(self) -> usize;

    fn len(&self) -> (r: usize)
        ensures
            r == self.len_spec(),
    ;
}

/// A marker for iterators that claim to stay exhausted once exhausted.
/// Nothing forces a claimant's `resurrected` sequence to be empty; the
/// fused-exhaustion law exists to put the claim to the test.
pub trait FusedCap: LawIter {
}

/// The capability of being iterable: the type turns into a [`LawIter`].
pub trait IterCap: Sized {
    type It: LawIter;

    /// The iterator `into_iter_val` produces.
    spec fn iter_spec(self) -> Self::It;

    fn into_iter_val(self) -> (it: Self::It)
        ensures
            it == self.iter_spec(),
    ;
}

} // verus!
