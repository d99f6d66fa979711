//! Checks the combination of cloning and equality: a clone equals its
//! original.

use vstd::prelude::*;

use core::marker::PhantomData;

use crate::caps::{CloneCap, EqCap, PartialEqCap};
use crate::trait_hack::CheckerArg;
use crate::Violation;

verus! {

/// The clone-equality law: the value compares equal to its own clone.
pub open spec fn holds<T: CloneCap + EqCap>(val: T) -> bool {
    val.eq_spec(val.clone_spec())
}

/// The verdict of the check on one value.
pub open spec fn check_spec<T: CloneCap + EqCap>(val: T) -> Result<(), Violation> {
    if holds(val) {
        Ok(())
    } else {
        Err(Violation::CloneUnequal)
    }
}

pub fn test<T: CloneCap + EqCap>(val1: T) -> (r: Result<(), Violation>)
    ensures
        r == check_spec(val1),
{
    let val2 = val1.clone_val();
    if !val1.eq_val(&val2) {
        return Err(Violation::CloneUnequal);
    }
    Ok(())
}

/// This law's gate marker.
pub struct Checker<T>(pub PhantomData<T>);

impl<T> CheckerArg for Checker<T> {
    type Arg = T;
}

impl<T: CloneCap + EqCap> crate::trait_hack::Checker for Checker<T> {
    open spec fn check_spec(arg: T) -> Result<(), Violation> {
        check_spec(arg)
    }

    fn run_check(arg: T) -> (r: Result<(), Violation>) {
        test(arg)
    }
}

} // verus!
