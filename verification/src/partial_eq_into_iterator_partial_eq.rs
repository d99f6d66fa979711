//! Checks agreement between a type's own equality and elementwise
//! comparison of the sequences its values iterate into: equal values must
//! zip into all-equal pairs, unequal values must show at least one
//! unequal pair, in both cases judged over the shorter of the two runs.

use vstd::prelude::*;

use core::marker::PhantomData;

use crate::caps::{IterCap, LawIter, PartialEqCap};
use crate::trait_hack::CheckerArg;
use crate::Violation;

verus! {

/// Whether two element sequences are pairwise equal over the shorter
/// length.
pub open spec fn zip_all_eq<I: PartialEqCap>(s1: Seq<I>, s2: Seq<I>) -> bool {
    forall|i: int|
        0 <= i < s1.len() && i < s2.len() ==> #[trigger] s1[i].eq_spec(s2[i])
}

/// The agreement law: the pair compares equal exactly when its two
/// iteration sequences are pairwise equal.
pub open spec fn holds<T: IterCap + PartialEqCap>(vals: (T, T)) -> bool
    where <T::It as LawIter>::Item: PartialEqCap
{
    vals.0.eq_spec(vals.1) == zip_all_eq(vals.0.iter_spec().rem(), vals.1.iter_spec().rem())
}

/// The verdict of the check on one pair.
pub open spec fn check_spec<T: IterCap + PartialEqCap>(vals: (T, T)) -> Result<(), Violation>
    where <T::It as LawIter>::Item: PartialEqCap
{
    if holds(vals) {
        Ok(())
    } else {
        Err(Violation::IterEqDisagreement)
    }
}

pub fn test<T: IterCap + PartialEqCap>(vals: (T, T)) -> (r: Result<(), Violation>)
    where <T::It as LawIter>::Item: PartialEqCap
    ensures
        r == check_spec(vals),
{
    let (val1, val2) = vals;
    let values_equal = val1.eq_val(&val2);
    let mut iter1 = val1.into_iter_val();
    let mut iter2 = val2.into_iter_val();
    let ghost s1 = iter1.rem();
    let ghost s2 = iter2.rem();
    let ghost mut k: int = 0;
    let mut all_pairs_equal = true;
    loop
        invariant_except_break
            iter1.rem() == s1.skip(k),
            iter2.rem() == s2.skip(k),
            all_pairs_equal,
        invariant
            0 <= k <= s1.len(),
            k <= s2.len(),
            s1 == vals.0.iter_spec().rem(),
            s2 == vals.1.iter_spec().rem(),
            forall|j: int| 0 <= j < k ==> #[trigger] s1[j].eq_spec(s2[j]),
        ensures
            all_pairs_equal == zip_all_eq(s1, s2),
        decreases iter1.rem().len(),
    {
        match iter1.next() {
            None => {
                proof {
                    assert(k == s1.len());
                }
                break ;
            },
            Some(a) => {
                proof {
                    assert(a == s1.skip(k)[0]);
                    assert(a == s1[k]);
                }
                match iter2.next() {
                    None => {
                        proof {
                            assert(k == s2.len());
                        }
                        break ;
                    },
                    Some(b) => {
                        proof {
                            assert(b == s2[k]);
                        }
                        if !a.eq_val(&b) {
                            all_pairs_equal = false;
                            proof {
                                assert(!s1[k].eq_spec(s2[k]));
                                assert(!zip_all_eq(s1, s2));
                            }
                            break ;
                        }
                        proof {
                            assert(s1.skip(k).drop_first() =~= s1.skip(k + 1));
                            assert(s2.skip(k).drop_first() =~= s2.skip(k + 1));
                            k = k + 1;
                        }
                    },
                }
            },
        }
    }
    if values_equal != all_pairs_equal {
        return Err(Violation::IterEqDisagreement);
    }
    Ok(())
}

/// This law's gate marker.
pub struct Checker<T>(pub PhantomData<T>);

impl<T> CheckerArg for Checker<T> {
    type Arg = (T, T);
}

impl<T: IterCap + PartialEqCap> crate::trait_hack::Checker for Checker<T>
    where <T::It as LawIter>::Item: PartialEqCap
{
    open spec fn check_spec(arg: (T, T)) -> Result<(), Violation> {
        check_spec(arg)
    }

    fn run_check(arg: (T, T)) -> (r: Result<(), Violation>) {
        test(arg)
    }
}

} // verus!
