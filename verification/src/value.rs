//! Values at the host boundary, and conversion to native parameters.
//!
//! A [`HostValue`] stands for a value as the host's dynamic type system
//! hands it over.  Host integers may be far wider than the native
//! parameter type, so they are carried as `i128`; conversion to the
//! native 32-bit parameter is an explicit, fallible step that classifies
//! every failure.

use vstd::prelude::*;

verus! {

/// A value originating from the host's dynamic type system.
#[derive(PartialEq, Eq, Debug)]
pub enum HostValue {
    /// An integral value; the host's integers may exceed any native width.
    Int(i128),
    /// A boolean value; not accepted where an integer is declared.
    Truth(bool),
    /// A piece of text.
    Text(String),
    /// The host's "no value".
    Nothing,
}

/// How a call from the host can fail before or during the native operation.
#[derive(Clone, Copy, PartialEq, Eq, Structural, Debug)]
pub enum CallError {
    /// The number of positional arguments does not match the declared signature.
    ArityMismatch,
    /// An argument's dynamic type cannot be converted to the declared native type.
    TypeMismatch,
    /// An argument is of a convertible type but exceeds the native type's range.
    OutOfRange,
    /// The native result does not fit in the declared native return type.
    ArithmeticOverflow,
}

/// How module registration can fail at load time.
#[derive(Clone, Copy, PartialEq, Eq, Structural, Debug)]
pub enum LoadError {
    /// Two exposed functions claimed the same external name.
    RegistrationConflict,
}

/// Whether a mathematical integer is representable in the native
/// 32-bit signed parameter and return type.
pub open spec fn fits_i32(n: int) -> bool {
    i32::MIN <= n <= i32::MAX
}

/// What converting one host value to the native 32-bit parameter yields:
/// the value itself when it is an integer in range, `OutOfRange` for an
/// integer of too great a magnitude, and `TypeMismatch` for every
/// non-integral host value.
pub open spec fn convert_to_i32_spec(v: HostValue) -> Result<i32, CallError> {
    match v {
        HostValue::Int(n) => if fits_i32(n as int) {
            Ok(n as i32)
        } else {
            Err(CallError::OutOfRange)
        },
        _ => Err(CallError::TypeMismatch),
    }
}

/// Convert a host value to the native 32-bit parameter type, rejecting
/// rather than coercing anything that does not fit.
pub fn convert_to_i32(v: &HostValue) -> (r: Result<i32, CallError>)
    ensures
        r == convert_to_i32_spec(*v),
{
    match v {
        HostValue::Int(n) => {
            if i32::MIN as i128 <= *n && *n <= i32::MAX as i128 {
                Ok(*n as i32)
            } else {
                Err(CallError::OutOfRange)
            }
        },
        _ => Err(CallError::TypeMismatch),
    }
}

/// A non-integral host value is always rejected as a type mismatch.
pub proof fn lemma_non_integral_rejected(v: HostValue)
    requires
        !(v is Int),
    ensures
        convert_to_i32_spec(v) == Err::<i32, CallError>(CallError::TypeMismatch),
{
}

/// An integral host value outside the native parameter's range is always
/// rejected as out of range, never truncated.
pub proof fn lemma_out_of_range_rejected(n: i128)
    requires
        !fits_i32(n as int),
    ensures
        convert_to_i32_spec(HostValue::Int(n)) == Err::<i32, CallError>(CallError::OutOfRange),
{
}

} // verus!
