//! The escape-time evaluator: iterate `z = z*z + c` from a starting point
//! until the squared magnitude exceeds the threshold, up to a fixed cap.

use vstd::prelude::*;
use crate::complex::Complex;

verus! {

/// Iteration cap of the escape-time evaluator: a point that has not escaped
/// after this many steps is treated as bounded and gets the cap as its
/// count.
pub const ITER_CAP: u32 = 900;

/// The number of iterations of `z = z*z + c`, starting from `z`, before the
/// squared magnitude first compares greater than the threshold — or `fuel`,
/// if that does not happen within `fuel` steps.
pub open spec fn escape_steps(z: Complex, c: Complex, fuel: nat) -> nat
    decreases fuel,
{
    if fuel == 0 {
        0
    } else if z.spec_escaped() {
        0
    } else {
        1 + escape_steps(z.spec_square().spec_add(c), c, (fuel - 1) as nat)
    }
}

/// What `evaluate` returns: the escape step of `start` under the parameter
/// `c`, capped at [`ITER_CAP`].
pub open spec fn spec_evaluate(start: Complex, c: Complex) -> nat {
    escape_steps(start, c, ITER_CAP as nat)
}

/// The escape step never exceeds the fuel it was given.
pub proof fn lemma_escape_steps_le_fuel(z: Complex, c: Complex, fuel: nat)
    ensures
        escape_steps(z, c, fuel) <= fuel,
    decreases fuel,
{
    if fuel > 0 && !z.spec_escaped() {
        lemma_escape_steps_le_fuel(z.spec_square().spec_add(c), c, (fuel - 1) as nat);
    }
}

/// Run the recurrence `z = z*z + c` from `start` and return the number of
/// steps taken before the squared magnitude first compares greater than
/// 2.0, or [`ITER_CAP`] if that does not happen within [`ITER_CAP`] steps.
///
/// The count is a function of the two arguments alone, and always lies in
/// `[0, ITER_CAP]`.
pub fn evaluate(start: Complex, parameter: Complex) -> (count: u32)
    ensures
        count == spec_evaluate(start, parameter),
        count <= ITER_CAP,
{
    let mut z = start;
    let mut count: u32 = 0;
    while count < ITER_CAP
        invariant_except_break
            count <= ITER_CAP,
            spec_evaluate(start, parameter) == count + escape_steps(
                z,
                parameter,
                (ITER_CAP - count) as nat,
            ),
        ensures
            count == spec_evaluate(start, parameter),
            count <= ITER_CAP,
        decreases ITER_CAP - count,
    {
        if z.escaped() {
            break;
        }
        z = z.square().add(parameter);
        count = count + 1;
    }
    count
}

} // verus!
