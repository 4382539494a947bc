//! Conversions of values that need no help from the engine.
//!
//! The engine converts any value, and may run script to do so. For the
//! values that convert without script the answer is computed here; for the
//! others the caller has to ask the engine.

use vstd::prelude::*;
use crate::handle::HandleValue;
use crate::refs::StringRef;
use crate::value::double_is_nan;
use crate::value::double_is_zero;
use crate::value::Value;
use crate::value::DOUBLE_INFINITY;
use crate::value::DOUBLE_MAGNITUDE_MASK;

verus! {

/// The truth of a value, for the values whose truth is fixed by the value
/// alone: `None` for strings and objects, which the engine has to look into.
pub open spec fn truth_of(v: Value) -> Option<bool> {
    match v {
        Value::Boolean(b) => Some(b),
        Value::Int32(i) => Some(i != 0),
        Value::Null => Some(false),
        Value::Undefined => Some(false),
        Value::Double(bits) => Some(!double_is_nan(bits) && !double_is_zero(bits)),
        Value::Symbol(_) => Some(true),
        Value::String(_) => None,
        Value::Object(_) => None,
    }
}

/// Converts a value to a boolean if the value alone decides; `None` means
/// that the engine has to be asked.
#[allow(non_snake_case)]
pub fn ToBoolean(v: HandleValue) -> (r: Option<bool>)
    ensures
        r == truth_of(v.value()),
{
    let val = v.get();
    if val.is_boolean() {
        return Some(val.to_boolean());
    }
    if val.is_int32() {
        return Some(val.to_int32() != 0);
    }
    if val.is_null_or_undefined() {
        return Some(false);
    }
    if val.is_double() {
        let magnitude: u64 = val.to_double_bits() & DOUBLE_MAGNITUDE_MASK;
        return Some(magnitude <= DOUBLE_INFINITY && magnitude != 0);
    }
    if val.is_symbol() {
        return Some(true);
    }
    None
}

/// An integer type that an int32 value converts to by taking the low bits of
/// the sign-extended integer.
pub trait FromInt32: Sized {
    /// The integer that `i` converts to.
    spec fn of_int32(i: i32) -> Self;

    /// Converts `i`.
    fn from_int32(i: i32) -> (r: Self)
        ensures
            r == Self::of_int32(i),
    ;
}

impl FromInt32 for i32 {
    open spec fn of_int32(i: i32) -> i32 {
        i
    }

    fn from_int32(i: i32) -> (r: i32) {
        i
    }
}

impl FromInt32 for i64 {
    open spec fn of_int32(i: i32) -> i64 {
        i as i64
    }

    fn from_int32(i: i32) -> (r: i64) {
        i as i64
    }
}

impl FromInt32 for u32 {
    open spec fn of_int32(i: i32) -> u32 {
        if i >= 0 {
            i as u32
        } else {
            (i + 0x1_0000_0000) as u32
        }
    }

    fn from_int32(i: i32) -> (r: u32) {
        if i >= 0 {
            i as u32
        } else {
            (i as i64 + 0x1_0000_0000) as u32
        }
    }
}

impl FromInt32 for u64 {
    open spec fn of_int32(i: i32) -> u64 {
        if i >= 0 {
            i as u64
        } else {
            (i + 0x1_0000_0000_0000_0000) as u64
        }
    }

    fn from_int32(i: i32) -> (r: u64) {
        if i >= 0 {
            i as u64
        } else {
            u64::MAX - ((-(i as i64)) as u64 - 1)
        }
    }
}

impl FromInt32 for u16 {
    open spec fn of_int32(i: i32) -> u16 {
        (i as int % 0x1_0000) as u16
    }

    fn from_int32(i: i32) -> (r: u16) {
        let low: i32 = i % 0x1_0000;
        if low >= 0 {
            low as u16
        } else {
            (low + 0x1_0000) as u16
        }
    }
}

/// Converts a value to an integer if it is an int32; `None` means that the
/// engine has to be asked.
pub fn convert_from_int32<T: FromInt32>(v: HandleValue) -> (r: Option<T>)
    ensures
        r == match v.value() {
            Value::Int32(i) => Some(T::of_int32(i)),
            _ => None,
        },
{
    let val = v.get();
    if val.is_int32() {
        return Some(T::from_int32(val.to_int32()));
    }
    None
}

/// Converts a value to a 32-bit signed integer if it is an int32.
#[allow(non_snake_case)]
pub fn ToInt32(v: HandleValue) -> (r: Option<i32>)
    ensures
        r == match v.value() {
            Value::Int32(i) => Some(i),
            _ => None,
        },
{
    convert_from_int32::<i32>(v)
}

/// Converts a value to a 32-bit unsigned integer if it is an int32: a
/// negative integer wraps around.
#[allow(non_snake_case)]
pub fn ToUint32(v: HandleValue) -> (r: Option<u32>)
    ensures
        r == match v.value() {
            Value::Int32(i) => Some(u32::of_int32(i)),
            _ => None,
        },
{
    convert_from_int32::<u32>(v)
}

/// Converts a value to a 16-bit unsigned integer if it is an int32: the low
/// 16 bits of the integer.
#[allow(non_snake_case)]
pub fn ToUint16(v: HandleValue) -> (r: Option<u16>)
    ensures
        r == match v.value() {
            Value::Int32(i) => Some(u16::of_int32(i)),
            _ => None,
        },
{
    convert_from_int32::<u16>(v)
}

/// Converts a value to a 64-bit signed integer if it is an int32.
#[allow(non_snake_case)]
pub fn ToInt64(v: HandleValue) -> (r: Option<i64>)
    ensures
        r == match v.value() {
            Value::Int32(i) => Some(i as i64),
            _ => None,
        },
{
    convert_from_int32::<i64>(v)
}

/// Converts a value to a 64-bit unsigned integer if it is an int32: a
/// negative integer wraps around.
#[allow(non_snake_case)]
pub fn ToUint64(v: HandleValue) -> (r: Option<u64>)
    ensures
        r == match v.value() {
            Value::Int32(i) => Some(u64::of_int32(i)),
            _ => None,
        },
{
    convert_from_int32::<u64>(v)
}

/// Converts a value to a string if it is one; `None` means that the engine
/// has to be asked.
#[allow(non_snake_case)]
pub fn ToString(v: HandleValue) -> (r: Option<StringRef>)
    ensures
        r == match v.value() {
            Value::String(s) => Some(s),
            _ => None,
        },
{
    let val = v.get();
    if val.is_string() {
        return Some(val.to_string());
    }
    None
}

/// What the engine's own conversion gave: it reports success and leaves the
/// result in `out`.
pub fn converted_by_engine<T>(ok: bool, out: T) -> (r: Result<T, ()>)
    ensures
        ok ==> r == Ok::<T, ()>(out),
        !ok ==> r == Err::<T, ()>(()),
{
    if ok {
        Ok(out)
    } else {
        Err(())
    }
}

/// A success flag of the engine, as a result.
pub trait ToResult {
    /// Whether the flag reports success.
    spec fn succeeded(self) -> bool;

    /// `Ok` for success, `Err` for failure.
    fn to_result(self) -> (r: Result<(), ()>)
        ensures
            r is Ok <==> self.succeeded(),
    ;
}

impl ToResult for bool {
    open spec fn succeeded(self) -> bool {
        self
    }

    fn to_result(self) -> (r: Result<(), ()>) {
        if self {
            Ok(())
        } else {
            Err(())
        }
    }
}

} // verus!
