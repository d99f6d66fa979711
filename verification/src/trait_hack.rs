//! The capability gate.
//!
//! Every law module owns a `Checker<T>` marker type. The marker always
//! knows the input shape the law needs ([`CheckerArg`]), but it implements
//! [`Checker`] — the ability to actually run the check — only when `T`
//! satisfies the law's capability bounds.
//!
//! [`RunCheck`] turns that conditional implementation into a two-path
//! gate: the narrow path (the `i32` implementation) exists exactly when
//! the marker is a [`Checker`] and invokes the real check; the broad path
//! (the `u32` implementation) exists for every marker and never runs
//! anything. Which path a driver can name for a given (law, type) pair is
//! therefore settled by trait resolution at compile time, and the
//! outcome of either path is a pure function of the decoded value.
//!
//! Resolution must prefer the narrow path: a driver names it for every
//! law whose capabilities its subject has, and falls back to the broad
//! path only where no narrow path can be named (naming the narrow path
//! without the capabilities does not compile). Each registered subject
//! records its complete resolution, law by law in registry order, in a
//! gate-resolution lemma beside its driver; the narrow entries of such a
//! lemma compile only because the capability bounds hold, so the lemma
//! is the auditable list of what runs for that subject.

use vstd::prelude::*;

use crate::Violation;

verus! {

/// Names the input shape a law's check consumes: one value, a pair or a
/// triple of the type under test.
pub trait CheckerArg {
    type Arg;
}

/// The ability to run one law's check. A law's marker type implements
/// this only when the type under test has the capabilities the law
/// requires; `check_spec` is the exact verdict for a given input.
pub trait Checker: CheckerArg {
    /// The verdict the check reaches on `arg`: `Ok` when the law holds of
    /// it, and otherwise the violation that names the broken property.
    spec fn check_spec(arg: Self::Arg) -> Result<(), Violation>;

    fn run_check(arg: Self::Arg) -> (r: Result<(), Violation>)
        ensures
            r == Self::check_spec(arg),
    ;
}

/// One resolution path of the capability gate for a (law, type) pair.
///
/// `enabled` says which path this is; `outcome` is `Some(verdict)` on the
/// enabled path and `None` — the check never ran — on the disabled one.
pub trait RunCheck<T, C> {
    /// Whether this path runs the check.
    spec fn enabled() -> bool;

    /// This path's outcome on a decoded value: a verdict when enabled,
    /// nothing when disabled.
    spec fn outcome(value: T) -> Option<Result<(), Violation>>;

    /// A gate path yields a verdict exactly when it is enabled.
    proof fn gate_total(value: T)
        ensures
            Self::enabled() <==> Self::outcome(value) is Some,
    ;

    fn run_check(self, value: T, check: C) -> (r: Option<Result<(), Violation>>)
        ensures
            r == Self::outcome(value),
    ;
}

/// The narrow, capability-satisfying gate path: available exactly when
/// the law's marker implements [`Checker`], and runs the real check.
impl<T, C: Checker<Arg = T>> RunCheck<T, C> for i32 {
    open spec fn enabled() -> bool {
        true
    }

    open spec fn outcome(value: T) -> Option<Result<(), Violation>> {
        Some(C::check_spec(value))
    }

    proof fn gate_total(value: T) {
    }

    fn run_check(self, value: T, _check: C) -> (r: Option<Result<(), Violation>>) {
        Some(C::run_check(value))
    }
}

/// The broad, always-applicable gate path: discards the value and never
/// invokes any check.
impl<T, C> RunCheck<T, C> for u32 {
    open spec fn enabled() -> bool {
        false
    }

    open spec fn outcome(value: T) -> Option<Result<(), Violation>> {
        None
    }

    proof fn gate_total(value: T) {
    }

    fn run_check(self, _value: T, _check: C) -> (r: Option<Result<(), Violation>>) {
        None
    }
}

/// How a driver folds one gate outcome into the iteration's running
/// result: a violation already found is final, a skipped law changes
/// nothing, and an enabled law contributes its verdict.
pub open spec fn gate_step(
    prev: Result<(), Violation>,
    out: Option<Result<(), Violation>>,
) -> Result<(), Violation> {
    if prev is Err {
        prev
    } else {
        match out {
            Some(r) => r,
            None => Ok(()),
        }
    }
}

/// Law: gate resolution is deterministic. For one (law, type) pair and
/// one decoded value, any two resolutions yield the same outcome.
pub proof fn lemma_gate_deterministic<T, C, G: RunCheck<T, C>>(
    value: T,
    r1: Option<Result<(), Violation>>,
    r2: Option<Result<(), Violation>>,
)
    requires
        r1 == G::outcome(value),
        r2 == G::outcome(value),
    ensures
        r1 == r2,
{
}

/// Law: a disabled gate never invokes the check procedure — its outcome
/// carries no verdict, whatever the decoded value was.
pub proof fn lemma_disabled_gate_skips<T, C, G: RunCheck<T, C>>(value: T)
    requires
        !G::enabled(),
    ensures
        G::outcome(value) is None,
{
    G::gate_total(value);
}

} // verus!
