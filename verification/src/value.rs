//! The closed set of values that flow between the dispatcher, the delegate
//! methods, and the caller, together with the coercion contracts the
//! dispatcher relies on.

use crate::error::Error;
use crate::name::QName;
use vstd::prelude::*;

verus! {

/// A script-level value, as far as this core needs to distinguish them.
#[derive(Debug, PartialEq, Eq)]
pub enum Value {
    Undefined,
    Null,
    Bool(bool),
    UInt(u32),
    Str(String),
    /// A resolved qualified name, as handed to a delegate method.
    QName(QName),
    /// A reference to an object instance, by its arena index.
    Object(usize),
}

impl Clone for Value {
    fn clone(&self) -> (res: Self)
        ensures
            res == *self,
    {
        match self {
            Value::Undefined => Value::Undefined,
            Value::Null => Value::Null,
            Value::Bool(b) => Value::Bool(*b),
            Value::UInt(n) => Value::UInt(*n),
            Value::Str(s) => Value::Str(s.clone()),
            Value::QName(q) => Value::QName(q.clone()),
            Value::Object(i) => Value::Object(*i),
        }
    }
}

/// Boolean coercion: undefined and null are false, numbers are true when
/// nonzero, strings are true when nonempty, names and objects are true.
pub open spec fn spec_coerce_to_boolean(v: Value) -> bool {
    match v {
        Value::Undefined => false,
        Value::Null => false,
        Value::Bool(b) => b,
        Value::UInt(n) => n != 0,
        Value::Str(s) => s@.len() != 0,
        Value::QName(_) => true,
        Value::Object(_) => true,
    }
}

/// Boolean coercion never fails.
pub fn coerce_to_boolean(v: &Value) -> (r: bool)
    ensures
        r == spec_coerce_to_boolean(*v),
{
    match v {
        Value::Undefined => false,
        Value::Null => false,
        Value::Bool(b) => *b,
        Value::UInt(n) => *n != 0,
        Value::Str(s) => !s.as_str().is_empty(),
        Value::QName(_) => true,
        Value::Object(_) => true,
    }
}

/// Unsigned coercion: undefined and null coerce to zero, booleans to zero
/// or one, numbers to themselves; strings, names and objects do not
/// coerce.
pub open spec fn spec_coerce_to_u32(v: Value) -> Option<u32> {
    match v {
        Value::Undefined => Option::Some(0u32),
        Value::Null => Option::Some(0u32),
        Value::Bool(b) => Option::Some(if b { 1u32 } else { 0u32 }),
        Value::UInt(n) => Option::Some(n),
        Value::Str(_) => Option::None,
        Value::QName(_) => Option::None,
        Value::Object(_) => Option::None,
    }
}

/// Unsigned coercion fails exactly on the non-coercible values.
pub fn coerce_to_u32(v: &Value) -> (r: Result<u32, Error>)
    ensures
        match spec_coerce_to_u32(*v) {
            Option::Some(n) => r == Result::<u32, Error>::Ok(n),
            Option::None => r == Result::<u32, Error>::Err(Error::NonCoercible),
        },
{
    match v {
        Value::Undefined => Result::Ok(0),
        Value::Null => Result::Ok(0),
        Value::Bool(b) => Result::Ok(if *b { 1 } else { 0 }),
        Value::UInt(n) => Result::Ok(*n),
        Value::Str(_) => Result::Err(Error::NonCoercible),
        Value::QName(_) => Result::Err(Error::NonCoercible),
        Value::Object(_) => Result::Err(Error::NonCoercible),
    }
}

} // verus!
