//! Checks reflexivity of equality.

use vstd::prelude::*;

use core::marker::PhantomData;

use crate::caps::{EqCap, PartialEqCap};
use crate::trait_hack::CheckerArg;
use crate::Violation;

verus! {

/// The reflexivity law: every value equals itself.
pub open spec fn holds<T: EqCap>(val: T) -> bool {
    val.eq_spec(val)
}

/// The verdict of the check on one value.
pub open spec fn check_spec<T: EqCap>(val: T) -> Result<(), Violation> {
    if holds(val) {
        Ok(())
    } else {
        Err(Violation::NotReflexive)
    }
}

pub fn test<T: EqCap>(val: T) -> (r: Result<(), Violation>)
    ensures
        r == check_spec(val),
{
    if !val.eq_val(&val) {
        return Err(Violation::NotReflexive);
    }
    Ok(())
}

/// This law's gate marker.
pub struct Checker<T>(pub PhantomData<T>);

impl<T> CheckerArg for Checker<T> {
    type Arg = T;
}

impl<T: EqCap> crate::trait_hack::Checker for Checker<T> {
    open spec fn check_spec(arg: T) -> Result<(), Violation> {
        check_spec(arg)
    }

    fn run_check(arg: T) -> (r: Result<(), Violation>) {
        test(arg)
    }
}

} // verus!
