//! Checks that formatting a value never reports an error and always
//! produces some output.

use vstd::prelude::*;

use core::marker::PhantomData;

use crate::caps::{FmtCap, FmtSink};
use crate::trait_hack::CheckerArg;
use crate::Violation;

verus! {

/// The formatting law: formatting succeeds and writes at least one
/// character.
pub open spec fn holds<T: FmtCap>(val: T) -> bool {
    val.fmt_ok() && val.fmt_spec().len() > 0
}

/// The verdict of the check on one value: a reported formatting error
/// outranks empty output.
pub open spec fn check_spec<T: FmtCap>(val: T) -> Result<(), Violation> {
    if !val.fmt_ok() {
        Err(Violation::DebugError)
    } else if val.fmt_spec().len() == 0 {
        Err(Violation::DebugEmpty)
    } else {
        Ok(())
    }
}

pub fn test<T: FmtCap>(val: T) -> (r: Result<(), Violation>)
    ensures
        r == check_spec(val),
{
    let mut sink = FmtSink::new();
    if val.fmt_to(&mut sink).is_err() {
        return Err(Violation::DebugError);
    }
    if !sink.wrote {
        return Err(Violation::DebugEmpty);
    }
    Ok(())
}

/// This law's gate marker.
pub struct Checker<T>(pub PhantomData<T>);

impl<T> CheckerArg for Checker<T> {
    type Arg = T;
}

impl<T: FmtCap> crate::trait_hack::Checker for Checker<T> {
    open spec fn check_spec(arg: T) -> Result<(), Violation> {
        check_spec(arg)
    }

    fn run_check(arg: T) -> (r: Result<(), Violation>) {
        test(arg)
    }
}

} // verus!
