use vstd::prelude::*;

use crate::values::AttributeValue;

verus! {

impl From<()> for AttributeValue {
    fn from(value: ()) -> (r: AttributeValue)
        ensures
            r == AttributeValue::Empty,
    {
        AttributeValue::Empty
    }
}

impl vstd::std_specs::convert::FromSpecImpl<()> for AttributeValue {
    open spec fn obeys_from_spec() -> bool {
        true
    }

    open spec fn from_spec(v: ()) -> AttributeValue {
        AttributeValue::Empty
    }
}

impl From<bool> for AttributeValue {
    fn from(value: bool) -> (r: AttributeValue)
        ensures
            r == AttributeValue::Boolean(value),
    {
        AttributeValue::Boolean(value)
    }
}

impl vstd::std_specs::convert::FromSpecImpl<bool> for AttributeValue {
    open spec fn obeys_from_spec() -> bool {
        true
    }

    open spec fn from_spec(v: bool) -> AttributeValue {
        AttributeValue::Boolean(v)
    }
}

impl From<u8> for AttributeValue {
    fn from(value: u8) -> (r: AttributeValue)
        ensures
            r == AttributeValue::Integer(value as i64),
    {
        AttributeValue::Integer(value as i64)
    }
}

impl vstd::std_specs::convert::FromSpecImpl<u8> for AttributeValue {
    open spec fn obeys_from_spec() -> bool {
        true
    }

    open spec fn from_spec(v: u8) -> AttributeValue {
        AttributeValue::Integer(v as i64)
    }
}

impl From<u16> for AttributeValue {
    fn from(value: u16) -> (r: AttributeValue)
        ensures
            r == AttributeValue::Integer(value as i64),
    {
        AttributeValue::Integer(value as i64)
    }
}

impl vstd::std_specs::convert::FromSpecImpl<u16> for AttributeValue {
    open spec fn obeys_from_spec() -> bool {
        true
    }

    open spec fn from_spec(v: u16) -> AttributeValue {
        AttributeValue::Integer(v as i64)
    }
}

impl From<u32> for AttributeValue {
    fn from(value: u32) -> (r: AttributeValue)
        ensures
            r == AttributeValue::Integer(value as i64),
    {
        AttributeValue::Integer(value as i64)
    }
}

impl vstd::std_specs::convert::FromSpecImpl<u32> for AttributeValue {
    open spec fn obeys_from_spec() -> bool {
        true
    }

    open spec fn from_spec(v: u32) -> AttributeValue {
        AttributeValue::Integer(v as i64)
    }
}

impl From<i8> for AttributeValue {
    fn from(value: i8) -> (r: AttributeValue)
        ensures
            r == AttributeValue::Integer(value as i64),
    {
        AttributeValue::Integer(value as i64)
    }
}

impl vstd::std_specs::convert::FromSpecImpl<i8> for AttributeValue {
    open spec fn obeys_from_spec() -> bool {
        true
    }

    open spec fn from_spec(v: i8) -> AttributeValue {
        AttributeValue::Integer(v as i64)
    }
}

impl From<i16> for AttributeValue {
    fn from(value: i16) -> (r: AttributeValue)
        ensures
            r == AttributeValue::Integer(value as i64),
    {
        AttributeValue::Integer(value as i64)
    }
}

impl vstd::std_specs::convert::FromSpecImpl<i16> for AttributeValue {
    open spec fn obeys_from_spec() -> bool {
        true
    }

    open spec fn from_spec(v: i16) -> AttributeValue {
        AttributeValue::Integer(v as i64)
    }
}

impl From<i32> for AttributeValue {
    fn from(value: i32) -> (r: AttributeValue)
        ensures
            r == AttributeValue::Integer(value as i64),
    {
        AttributeValue::Integer(value as i64)
    }
}

impl vstd::std_specs::convert::FromSpecImpl<i32> for AttributeValue {
    open spec fn obeys_from_spec() -> bool {
        true
    }

    open spec fn from_spec(v: i32) -> AttributeValue {
        AttributeValue::Integer(v as i64)
    }
}

impl From<i64> for AttributeValue {
    fn from(value: i64) -> (r: AttributeValue)
        ensures
            r == AttributeValue::Integer(value as i64),
    {
        AttributeValue::Integer(value)
    }
}

impl vstd::std_specs::convert::FromSpecImpl<i64> for AttributeValue {
    open spec fn obeys_from_spec() -> bool {
        true
    }

    open spec fn from_spec(v: i64) -> AttributeValue {
        AttributeValue::Integer(v as i64)
    }
}

/// Relies on `i64::try_from(u64)`: the same number where it is at most
/// `i64::MAX`, an error otherwise.
pub assume_specification[ <i64 as TryFrom<u64>>::try_from ](value: u64) -> (r: Result<i64, <i64 as TryFrom<u64>>::Error>)
    ensures
        r.is_ok() == (value <= i64::MAX),
        r.is_ok() ==> r.unwrap() == value as i64,
;

impl TryFrom<u64> for AttributeValue {
    type Error = core::num::TryFromIntError;

    /// An `Integer` holding the same number, or the overflow error where the
    /// number exceeds `i64::MAX`.
    fn try_from(value: u64) -> (r: Result<AttributeValue, core::num::TryFromIntError>)
        ensures
            value <= i64::MAX ==> r == Ok::<AttributeValue, core::num::TryFromIntError>(
                AttributeValue::Integer(value as i64),
            ),
            value > i64::MAX ==> r is Err,
    {
        match i64::try_from(value) {
            Ok(i) => Ok(AttributeValue::Integer(i)),
            Err(e) => Err(e),
        }
    }
}

impl vstd::std_specs::convert::TryFromSpecImpl<u64> for AttributeValue {
    /// The error value is not pinned down, so the generic law is not
    /// claimed; `try_from`'s own `ensures` gives the outcome.
    open spec fn obeys_try_from_spec() -> bool {
        false
    }

    open spec fn try_from_spec(v: u64) -> Result<AttributeValue, core::num::TryFromIntError> {
        if v <= i64::MAX {
            Ok(AttributeValue::Integer(v as i64))
        } else {
            Err(arbitrary())
        }
    }
}

} // verus!
