//! The function adapter: from a tuple of host values to a host value.
//!
//! The adapter checks arity before any conversion, converts each
//! positional argument left to right, runs the native operation, and
//! converts the native result back.  The overflow policy is checked
//! arithmetic: a sum that does not fit the native return type is reported
//! as `ArithmeticOverflow`, never wrapped.  The host's integers carry
//! every native result, so the conversion back cannot fail.

use vstd::prelude::*;

use crate::value::CallError;
use crate::value::HostValue;
use crate::value::convert_to_i32;
use crate::value::convert_to_i32_spec;
use crate::value::fits_i32;

verus! {

/// The native operation itself: pure 32-bit integer addition.
pub fn add_two_numbers(a: i32, b: i32) -> (r: i32)
    requires
        fits_i32(a + b),
    ensures
        r == a + b,
{
    a + b
}

/// What the adapted call returns for a given argument tuple from the host:
/// `ArityMismatch` unless exactly two arguments came, otherwise the first
/// failing conversion's error, otherwise the sum when it is representable
/// and `ArithmeticOverflow` when it is not.
pub open spec fn adapted_add_spec(args: Seq<HostValue>) -> Result<HostValue, CallError> {
    if args.len() != 2 {
        Err(CallError::ArityMismatch)
    } else {
        match convert_to_i32_spec(args[0]) {
            Err(e) => Err(e),
            Ok(a) => match convert_to_i32_spec(args[1]) {
                Err(e) => Err(e),
                Ok(b) => if fits_i32(a + b) {
                    Ok(HostValue::Int((a + b) as i128))
                } else {
                    Err(CallError::ArithmeticOverflow)
                },
            },
        }
    }
}

/// The host-callable form of [`add_two_numbers`]: validate arity, convert
/// both arguments, add with checked arithmetic, and hand the result back
/// as a host value.
pub fn call_add_two_numbers(args: &Vec<HostValue>) -> (r: Result<HostValue, CallError>)
    ensures
        r == adapted_add_spec(args@),
{
    if args.len() != 2 {
        return Err(CallError::ArityMismatch);
    }
    let a = match convert_to_i32(&args[0]) {
        Ok(v) => v,
        Err(e) => {
            return Err(e);
        },
    };
    let b = match convert_to_i32(&args[1]) {
        Ok(v) => v,
        Err(e) => {
            return Err(e);
        },
    };
    let wide: i64 = a as i64 + b as i64;
    if wide < i32::MIN as i64 || wide > i32::MAX as i64 {
        return Err(CallError::ArithmeticOverflow);
    }
    Ok(HostValue::Int(add_two_numbers(a, b) as i128))
}

/// For every representable pair whose sum is representable, the adapted
/// call returns exactly the sum.
pub proof fn lemma_adapted_add_exact(a: i32, b: i32)
    requires
        fits_i32(a + b),
    ensures
        adapted_add_spec(seq![HostValue::Int(a as i128), HostValue::Int(b as i128)])
            == Ok::<HostValue, CallError>(HostValue::Int((a + b) as i128)),
{
}

/// For every pair of arguments that both convert, the adapted call gives
/// the same outcome in either order.
pub proof fn lemma_adapted_add_commutative(x: HostValue, y: HostValue)
    requires
        convert_to_i32_spec(x) is Ok,
        convert_to_i32_spec(y) is Ok,
    ensures
        adapted_add_spec(seq![x, y]) == adapted_add_spec(seq![y, x]),
{
}

/// Any argument count other than two fails with `ArityMismatch`; no
/// conversion and no computation contribute to the outcome.
pub proof fn lemma_arity_mismatch(args: Seq<HostValue>)
    requires
        args.len() != 2,
    ensures
        adapted_add_spec(args) == Err::<HostValue, CallError>(CallError::ArityMismatch),
{
}

/// A two-argument call with an argument that does not convert fails with
/// that argument's own error, the first failing position deciding.
pub proof fn lemma_bad_argument_rejected(args: Seq<HostValue>)
    requires
        args.len() == 2,
        convert_to_i32_spec(args[0]) is Err || convert_to_i32_spec(args[1]) is Err,
    ensures
        adapted_add_spec(args) is Err,
        adapted_add_spec(args)->Err_0 == if convert_to_i32_spec(args[0]) is Err {
            convert_to_i32_spec(args[0])->Err_0
        } else {
            convert_to_i32_spec(args[1])->Err_0
        },
{
}

/// Two in-range operands whose sum leaves the native range fail with
/// `ArithmeticOverflow`: the checked policy, pinned.
pub proof fn lemma_overflow_reported(a: i32, b: i32)
    requires
        !fits_i32(a + b),
    ensures
        adapted_add_spec(seq![HostValue::Int(a as i128), HostValue::Int(b as i128)])
            == Err::<HostValue, CallError>(CallError::ArithmeticOverflow),
{
}

} // verus!
