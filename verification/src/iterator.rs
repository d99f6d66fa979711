//! Checks that an iterator's size hint brackets its actual element count.

use vstd::prelude::*;

use core::marker::PhantomData;

use crate::caps::{IterCap, LawIter};
use crate::trait_hack::CheckerArg;
use crate::Violation;

verus! {

/// The size-hint law: the element count lies at or above the reported
/// lower bound, and at or below the upper bound when one is reported.
pub open spec fn holds<T: IterCap>(val: T) -> bool {
    let it = val.iter_spec();
    let sh = it.size_hint_spec();
    &&& sh.0 <= it.rem().len()
    &&& match sh.1 {
        Some(max) => it.rem().len() <= max,
        None => true,
    }
}

/// The verdict of the check on one iterable.
pub open spec fn check_spec<T: IterCap>(val: T) -> Result<(), Violation> {
    if holds(val) {
        Ok(())
    } else {
        Err(Violation::SizeHintOutOfBounds)
    }
}

pub fn test<T: IterCap>(val: T) -> (r: Result<(), Violation>)
    ensures
        r == check_spec(val),
{
    let mut iter = val.into_iter_val();
    let (min, max) = iter.size_hint();
    let ghost total = iter.rem().len();
    proof {
        iter.rem_bounded();
    }
    let mut count: usize = 0;
    loop
        invariant_except_break
            count + iter.rem().len() == total,
        invariant
            total <= usize::MAX,
        ensures
            count == total,
        decreases iter.rem().len(),
    {
        match iter.next() {
            Some(_) => {
                count = count + 1;
            },
            None => {
                break ;
            },
        }
    }
    if count < min {
        return Err(Violation::SizeHintOutOfBounds);
    }
    if let Some(max) = max {
        if count > max {
            return Err(Violation::SizeHintOutOfBounds);
        }
    }
    Ok(())
}

/// This law's gate marker.
pub struct Checker<T>(pub PhantomData<T>);

impl<T> CheckerArg for Checker<T> {
    type Arg = T;
}

impl<T: IterCap> crate::trait_hack::Checker for Checker<T> {
    open spec fn check_spec(arg: T) -> Result<(), Violation> {
        check_spec(arg)
    }

    fn run_check(arg: T) -> (r: Result<(), Violation>) {
        test(arg)
    }
}

} // verus!
