//! Checks the partial-equality chain: values that compare equal must be
//! self-equal, and equality must carry over a chain of equal values.
//!
//! The reflexive-on-equal failure reports [`Violation::NotCommutative`],
//! preserving the label this check has always used for that branch.

use vstd::prelude::*;

use core::marker::PhantomData;

use crate::caps::PartialEqCap;
use crate::trait_hack::CheckerArg;
use crate::Violation;

verus! {

/// The chain law: if `v1 == v2` then `v1 == v1`, and if additionally
/// `v2 == v3` then `v1 == v3`.
pub open spec fn holds<T: PartialEqCap>(vals: (T, T, T)) -> bool {
    vals.0.eq_spec(vals.1) ==> {
        &&& vals.0.eq_spec(vals.0)
        &&& (vals.1.eq_spec(vals.2) ==> vals.0.eq_spec(vals.2))
    }
}

/// The verdict of the check on one triple.
pub open spec fn check_spec<T: PartialEqCap>(vals: (T, T, T)) -> Result<(), Violation> {
    if holds(vals) {
        Ok(())
    } else if !vals.0.eq_spec(vals.0) {
        Err(Violation::NotCommutative)
    } else {
        Err(Violation::NotTransitive)
    }
}

pub fn test<T: PartialEqCap>(vals: (T, T, T)) -> (r: Result<(), Violation>)
    ensures
        r == check_spec(vals),
{
    let (val1, val2, val3) = vals;
    if val1.eq_val(&val2) {
        if !val1.eq_val(&val1) {
            return Err(Violation::NotCommutative);
        }
        if val2.eq_val(&val3) && !val1.eq_val(&val3) {
            return Err(Violation::NotTransitive);
        }
    }
    Ok(())
}

/// This law's gate marker.
pub struct Checker<T>(pub PhantomData<T>);

impl<T> CheckerArg for Checker<T> {
    type Arg = (T, T, T);
}

impl<T: PartialEqCap> crate::trait_hack::Checker for Checker<T> {
    open spec fn check_spec(arg: (T, T, T)) -> Result<(), Violation> {
        check_spec(arg)
    }

    fn run_check(arg: (T, T, T)) -> (r: Result<(), Violation>) {
        test(arg)
    }
}

} // verus!
