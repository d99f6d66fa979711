//! Checks that an exact-size iterator's size hint matches the length it
//! reports.

use vstd::prelude::*;

use core::marker::PhantomData;

use crate::caps::{ExactSizeCap, IterCap, LawIter};
use crate::trait_hack::CheckerArg;
use crate::Violation;

verus! {

/// The exact-size law: the size hint is exactly (len, Some(len)) for the
/// reported length.
pub open spec fn holds<T: IterCap>(val: T) -> bool
    where T::It: ExactSizeCap
{
    let it = val.iter_spec();
    it.size_hint_spec() == (it.len_spec(), Some(it.len_spec()))
}

/// The verdict of the check on one iterable.
pub open spec fn check_spec<T: IterCap>(val: T) -> Result<(), Violation>
    where T::It: ExactSizeCap
{
    if holds(val) {
        Ok(())
    } else {
        Err(Violation::ExactSizeMismatch)
    }
}

pub fn test<T: IterCap>(val: T) -> (r: Result<(), Violation>)
    where T::It: ExactSizeCap
    ensures
        r == check_spec(val),
{
    let iter = val.into_iter_val();
    let size_hint = iter.size_hint();
    let len = iter.len();
    let hint_matches = match size_hint.1 {
        Some(max) => size_hint.0 == len && max == len,
        None => false,
    };
    if !hint_matches {
        return Err(Violation::ExactSizeMismatch);
    }
    Ok(())
}

/// This law's gate marker.
pub struct Checker<T>(pub PhantomData<T>);

impl<T> CheckerArg for Checker<T> {
    type Arg = T;
}

impl<T: IterCap> crate::trait_hack::Checker for Checker<T>
    where T::It: ExactSizeCap
{
    open spec fn check_spec(arg: T) -> Result<(), Violation> {
        check_spec(arg)
    }

    fn run_check(arg: T) -> (r: Result<(), Violation>) {
        test(arg)
    }
}

} // verus!
