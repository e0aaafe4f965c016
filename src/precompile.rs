use crate::exit::{ExitError, ExitSucceed, Log, PrecompileFailure, PrecompileOutput, PrecompileResult};
use evm::Context;
use vstd::prelude::*;

verus! {

/// The calling environment of a precompile. It is only passed through: no
/// routine here reads it.
#[verifier::external_type_specification]
#[verifier::external_body]
pub struct ExContext(Context);

/// Number of 32-byte words that `len` bytes occupy, rounded up.
pub open spec fn word_count(len: u64) -> int {
    (len + 31) / 32
}

/// The word count as the cost rule computes it: `len + 31` saturates at
/// `u64::MAX` before the division, so the last 31 lengths count one word less
/// than `word_count`.
pub open spec fn saturated_word_count(len: u64) -> int {
    if len + 31 <= u64::MAX {
        (len + 31) / 32
    } else {
        (u64::MAX as int) / 32
    }
}

/// The gas charged for `len` bytes under the linear rule, as an unbounded integer.
pub open spec fn linear_cost(len: u64, base: u64, word: u64) -> int {
    base + word * saturated_word_count(len)
}

/// The failure for a cost that exceeds the ceiling or cannot be represented.
pub open spec fn is_out_of_gas(f: PrecompileFailure) -> bool {
    f matches PrecompileFailure::Error { exit_status: ExitError::OutOfGas }
}

/// Whether `cost` stays within the optional ceiling `target_gas`.
pub open spec fn within_target(target_gas: Option<u64>, cost: int) -> bool {
    match target_gas {
        Some(g) => cost <= g,
        None => true,
    }
}

fn out_of_gas() -> (f: PrecompileFailure)
    ensures
        is_out_of_gas(f),
{
    PrecompileFailure::Error { exit_status: ExitError::OutOfGas }
}

/// Computes the gas charged for an input of `len` bytes: `base` plus `word`
/// for each started 32-byte word. Fails with out-of-gas where the sum does not
/// fit in a `u64` or exceeds `target_gas`.
pub fn ensure_linear_cost(target_gas: Option<u64>, len: u64, base: u64, word: u64) -> (r: Result<
    u64,
    PrecompileFailure,
>)
    ensures
        r is Ok <==> linear_cost(len, base, word) <= u64::MAX && within_target(
            target_gas,
            linear_cost(len, base, word),
        ),
        r is Ok ==> r->Ok_0 == linear_cost(len, base, word),
        r is Err ==> is_out_of_gas(r->Err_0),
        // away from the saturated lengths the charge is the exact linear formula
        len + 31 <= u64::MAX && base + word * word_count(len) <= u64::MAX && target_gas is None
            ==> r is Ok && r->Ok_0 == base + word * word_count(len),
        len + 31 <= u64::MAX && base + word * word_count(len) > u64::MAX ==> r is Err
            && is_out_of_gas(r->Err_0),
        // the ceiling alone decides between a charge that fits and out-of-gas
        target_gas is Some && linear_cost(len, base, word) > target_gas->0 ==> r is Err
            && is_out_of_gas(r->Err_0),
        target_gas is Some && linear_cost(len, base, word) <= target_gas->0 ==> r is Ok
            && r->Ok_0 == linear_cost(len, base, word),
{
    let words: u64 = len.saturating_add(31) / 32;
    proof {
        assert(words == saturated_word_count(len));
    }
    let per_word: u64 = match word.checked_mul(words) {
        Some(v) => v,
        None => {
            proof {
                lemma_cost_overflows(base, word, words as int);
            }
            return Err(out_of_gas());
        },
    };
    let cost: u64 = match base.checked_add(per_word) {
        Some(v) => v,
        None => return Err(out_of_gas()),
    };
    if let Some(target_gas) = target_gas {
        if cost > target_gas {
            return Err(out_of_gas());
        }
    }
    Ok(cost)
}


/// One precompile of the EVM engine.
pub trait Precompile {
    /// Runs the precompile on `input`, charging at most `target_gas` when it is
    /// given. On success the output says what was charged.
    fn execute(input: &[u8], target_gas: Option<u64>, context: &Context, is_static: bool) -> (r:
        PrecompileResult)
        ensures
            r is Ok ==> within_target(target_gas, r->Ok_0.cost as int),
    ;
}

/// A precompile whose cost depends on the length of its input alone: `BASE`
/// plus `WORD` for each started 32-byte word. Every such type is a
/// [`Precompile`].
pub trait LinearCostPrecompile {
    const BASE: u64;

    const WORD: u64;

    /// Computes the result of the precompile, once `cost` has been charged.
    fn execute(input: &[u8], cost: u64) -> Result<(ExitSucceed, Vec<u8>), PrecompileFailure>;
}

/// Whether a charge `cost` can be made: it fits in a `u64` and stays within
/// the optional ceiling.
pub open spec fn cost_fits(target_gas: Option<u64>, cost: int) -> bool {
    cost <= u64::MAX && within_target(target_gas, cost)
}

/// Whether `r` is the result `res` of a linear-cost routine charged `cost`,
/// as a precompile hands it back: a success carries the routine's status and
/// output, the charge and no logs; a failure is the routine's own.
pub open spec fn wraps_routine_result(
    r: PrecompileResult,
    res: Result<(ExitSucceed, Vec<u8>), PrecompileFailure>,
    cost: u64,
) -> bool {
    &&& res is Ok <==> r is Ok
    &&& r is Ok ==> r->Ok_0.exit_status == res->Ok_0.0 && r->Ok_0.cost == cost
        && r->Ok_0.output@ == res->Ok_0.1@ && r->Ok_0.logs@.len() == 0
    &&& r is Err ==> r->Err_0 == res->Err_0
}

/// Turns the result of a linear-cost routine that was charged `cost` into the
/// result of the precompile: a success carries the charge and no logs, a
/// failure is passed on as it came.
pub fn linear_output(result: Result<(ExitSucceed, Vec<u8>), PrecompileFailure>, cost: u64) -> (r:
    PrecompileResult)
    ensures
        wraps_routine_result(r, result, cost),
{
    match result {
        Ok((exit_status, output)) => Ok(
            PrecompileOutput { exit_status, cost, output, logs: Vec::new() },
        ),
        Err(failure) => Err(failure),
    }
}

/// Runs a linear-cost routine as a precompile: charges its linear cost against
/// `target_gas`, then hands the input and that charge to the routine.
pub fn execute_linear<T: LinearCostPrecompile>(input: &[u8], target_gas: Option<u64>) -> (r:
    PrecompileResult)
    ensures
        !cost_fits(target_gas, linear_cost(input@.len() as u64, T::BASE, T::WORD)) ==> r is Err
            && is_out_of_gas(r->Err_0),
        // where the charge fits, the routine runs on the input and that charge,
        // and its own result, wrapped, is the result
        cost_fits(target_gas, linear_cost(input@.len() as u64, T::BASE, T::WORD)) ==> exists|
            res: Result<(ExitSucceed, Vec<u8>), PrecompileFailure>,
        |
            #[trigger] call_ensures(
                <T as LinearCostPrecompile>::execute,
                (input, linear_cost(input@.len() as u64, T::BASE, T::WORD) as u64),
                res,
            ) && wraps_routine_result(
                r,
                res,
                linear_cost(input@.len() as u64, T::BASE, T::WORD) as u64,
            ),
        r is Ok ==> r->Ok_0.cost == linear_cost(input@.len() as u64, T::BASE, T::WORD)
            && r->Ok_0.logs@.len() == 0,
        r is Ok ==> within_target(target_gas, r->Ok_0.cost as int),
{
    let cost = ensure_linear_cost(target_gas, input.len() as u64, T::BASE, T::WORD)?;
    let result = T::execute(input, cost);
    let ghost routine_result = result;
    let r = linear_output(result, cost);
    assert(call_ensures(<T as LinearCostPrecompile>::execute, (input, cost), routine_result)
        && wraps_routine_result(r, routine_result, cost));
    r
}

impl<T: LinearCostPrecompile> Precompile for T {
    fn execute(input: &[u8], target_gas: Option<u64>, _context: &Context, _is_static: bool) -> (r:
        PrecompileResult) {
        execute_linear::<T>(input, target_gas)
    }
}

proof fn lemma_cost_overflows(base: u64, word: u64, words: int)
    requires
        words >= 0,
        word * words > u64::MAX,
    ensures
        base + word * words > u64::MAX,
{
}

} // verus!
