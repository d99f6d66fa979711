//! Checks that an iterator stays exhausted once it has reported
//! exhaustion: the iterator is drained to its first report of
//! exhaustion, and four further requests must all report exhaustion
//! again.

use vstd::prelude::*;

use core::marker::PhantomData;

use crate::caps::{FusedCap, IterCap, LawIter};
use crate::trait_hack::CheckerArg;
use crate::Violation;

verus! {

/// The fused-exhaustion law: once the iterator has reported exhaustion,
/// it has nothing to come back with.
pub open spec fn holds<T: IterCap>(val: T) -> bool
    where T::It: FusedCap
{
    val.iter_spec().resurrected().len() == 0
}

/// The verdict of the check on one iterable.
pub open spec fn check_spec<T: IterCap>(val: T) -> Result<(), Violation>
    where T::It: FusedCap
{
    if holds(val) {
        Ok(())
    } else {
        Err(Violation::FusedYieldedMore)
    }
}

pub fn test<T: IterCap>(val: T) -> (r: Result<(), Violation>)
    where T::It: FusedCap
    ensures
        r == check_spec(val),
{
    let mut iter = val.into_iter_val();
    let ghost res = iter.resurrected();
    loop
        invariant_except_break
            iter.resurrected() == res,
        ensures
            iter.rem() == res,
            iter.resurrected().len() == 0,
        decreases iter.rem().len(),
    {
        match iter.next() {
            Some(_) => {
            },
            None => {
                break ;
            },
        }
    }
    if iter.next().is_some() {
        return Err(Violation::FusedYieldedMore);
    }
    if iter.next().is_some() {
        return Err(Violation::FusedYieldedMore);
    }
    if iter.next().is_some() {
        return Err(Violation::FusedYieldedMore);
    }
    if iter.next().is_some() {
        return Err(Violation::FusedYieldedMore);
    }
    Ok(())
}

/// This law's gate marker.
pub struct Checker<T>(pub PhantomData<T>);

impl<T> CheckerArg for Checker<T> {
    type Arg = T;
}

impl<T: IterCap> crate::trait_hack::Checker for Checker<T>
    where T::It: FusedCap
{
    open spec fn check_spec(arg: T) -> Result<(), Violation> {
        check_spec(arg)
    }

    fn run_check(arg: T) -> (r: Result<(), Violation>) {
        test(arg)
    }
}

} // verus!
