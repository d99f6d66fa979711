//! Checks that a cloned iterator yields the same values as the original,
//! compared pairwise over the shorter of the two runs.

use vstd::prelude::*;

use core::marker::PhantomData;

use crate::caps::{CloneCap, EqCap, IterCap, LawIter, PartialEqCap};
use crate::trait_hack::CheckerArg;
use crate::Violation;

verus! {

/// The clone-iterator law: zipping the iterator with its clone yields
/// only equal pairs.
pub open spec fn holds<T: IterCap>(val: T) -> bool
    where T::It: CloneCap, <T::It as LawIter>::Item: EqCap
{
    let s1 = val.iter_spec().rem();
    let s2 = val.iter_spec().clone_spec().rem();
    forall|i: int|
        0 <= i < s1.len() && i < s2.len() ==> #[trigger] s1[i].eq_spec(s2[i])
}

/// The verdict of the check on one iterable.
pub open spec fn check_spec<T: IterCap>(val: T) -> Result<(), Violation>
    where T::It: CloneCap, <T::It as LawIter>::Item: EqCap
{
    if holds(val) {
        Ok(())
    } else {
        Err(Violation::CloneIterUnequal)
    }
}

pub fn test<T: IterCap>(val: T) -> (r: Result<(), Violation>)
    where T::It: CloneCap, <T::It as LawIter>::Item: EqCap
    ensures
        r == check_spec(val),
{
    let mut val1 = val.into_iter_val();
    let mut val2 = val1.clone_val();
    let ghost s1 = val1.rem();
    let ghost s2 = val2.rem();
    let ghost mut k: int = 0;
    loop
        invariant_except_break
            val1.rem() == s1.skip(k),
            val2.rem() == s2.skip(k),
        invariant
            0 <= k <= s1.len(),
            k <= s2.len(),
            s1 == val.iter_spec().rem(),
            s2 == val.iter_spec().clone_spec().rem(),
            forall|j: int| 0 <= j < k ==> #[trigger] s1[j].eq_spec(s2[j]),
        ensures
            holds(val),
        decreases val1.rem().len(),
    {
        match val1.next() {
            None => {
                proof {
                    assert(k == s1.len());
                }
                break ;
            },
            Some(a) => {
                proof {
                    assert(a == s1.skip(k)[0]);
                    assert(a == s1[k]);
                }
                match val2.next() {
                    None => {
                        proof {
                            assert(k == s2.len());
                        }
                        break ;
                    },
                    Some(b) => {
                        proof {
                            assert(b == s2[k]);
                        }
                        if !a.eq_val(&b) {
                            proof {
                                assert(!s1[k].eq_spec(s2[k]));
                            }
                            return Err(Violation::CloneIterUnequal);
                        }
                        proof {
                            assert(s1.skip(k).drop_first() =~= s1.skip(k + 1));
                            assert(s2.skip(k).drop_first() =~= s2.skip(k + 1));
                            k = k + 1;
                        }
                    },
                }
            },
        }
    }
    Ok(())
}

/// This law's gate marker.
pub struct Checker<T>(pub PhantomData<T>);

impl<T> CheckerArg for Checker<T> {
    type Arg = T;
}

impl<T: IterCap> crate::trait_hack::Checker for Checker<T>
    where T::It: CloneCap, <T::It as LawIter>::Item: EqCap
{
    open spec fn check_spec(arg: T) -> Result<(), Violation> {
        check_spec(arg)
    }

    fn run_check(arg: T) -> (r: Result<(), Violation>) {
        test(arg)
    }
}

} // verus!
