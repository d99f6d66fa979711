//! Checks that values which compare equal feed equal byte sequences to a
//! recording hash sink, and that hashing never requests a finalized
//! digest.

use vstd::prelude::*;

use core::marker::PhantomData;

use crate::caps::{EqCap, HashCap, PartialEqCap, RecordingHasher};
use crate::trait_hack::CheckerArg;
use crate::Violation;

verus! {

/// The hash-equality law: if the two values compare equal, both hash by
/// feeding bytes only, and they feed the very same bytes.
pub open spec fn holds<T: EqCap + HashCap>(vals: (T, T)) -> bool {
    vals.0.eq_spec(vals.1) ==> {
        &&& !vals.0.digest_misuse()
        &&& !vals.1.digest_misuse()
        &&& vals.0.hash_spec() == vals.1.hash_spec()
    }
}

/// The verdict of the check on one pair: a digest request is detected
/// while hashing, before the byte sequences can be compared.
pub open spec fn check_spec<T: EqCap + HashCap>(vals: (T, T)) -> Result<(), Violation> {
    if holds(vals) {
        Ok(())
    } else if vals.0.digest_misuse() || vals.1.digest_misuse() {
        Err(Violation::DigestRequested)
    } else {
        Err(Violation::HashMismatch)
    }
}

pub fn test<T: EqCap + HashCap>(vals: (T, T)) -> (r: Result<(), Violation>)
    ensures
        r == check_spec(vals),
{
    let (val1, val2) = vals;
    if val1.eq_val(&val2) {
        let mut hasher1 = RecordingHasher::new();
        val1.feed_hash(&mut hasher1);
        if hasher1.digest_requested {
            return Err(Violation::DigestRequested);
        }
        let mut hasher2 = RecordingHasher::new();
        val2.feed_hash(&mut hasher2);
        if hasher2.digest_requested {
            return Err(Violation::DigestRequested);
        }
        proof {
            assert(hasher1.bytes@ =~= val1.hash_spec());
            assert(hasher2.bytes@ =~= val2.hash_spec());
        }
        if !bytes_eq(&hasher1.bytes, &hasher2.bytes) {
            return Err(Violation::HashMismatch);
        }
    }
    Ok(())
}

/// Whether two byte vectors hold the same bytes.
fn bytes_eq(a: &Vec<u8>, b: &Vec<u8>) -> (r: bool)
    ensures
        r == (a@ == b@),
{
    if a.len() != b.len() {
        return false;
    }
    let mut i: usize = 0;
    while i < a.len()
        invariant
            i <= a@.len(),
            a@.len() == b@.len(),
            forall|j: int| 0 <= j < i ==> a@[j] == b@[j],
        decreases a@.len() - i,
    {
        if a[i] != b[i] {
            return false;
        }
        i = i + 1;
    }
    proof {
        assert(a@ =~= b@);
    }
    true
}

/// This law's gate marker.
pub struct Checker<T>(pub PhantomData<T>);

impl<T> CheckerArg for Checker<T> {
    type Arg = (T, T);
}

impl<T: EqCap + HashCap> crate::trait_hack::Checker for Checker<T> {
    open spec fn check_spec(arg: (T, T)) -> Result<(), Violation> {
        check_spec(arg)
    }

    fn run_check(arg: (T, T)) -> (r: Result<(), Violation>) {
        test(arg)
    }
}

} // verus!
