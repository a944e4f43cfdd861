use crate::header::index::RType;
use vstd::prelude::*;
use vstd::std_specs::convert::TryFromSpecImpl;

verus! {

impl TryFrom<RType> for String {
    type Error = &'static str;

    /// What `as_string` gives, or an error where it gives nothing.
    fn try_from(value: RType) -> (r: Result<Self, Self::Error>)
        ensures
            r is Ok <==> value@.as_string() is Some,
            r matches Ok(s) ==> s@ == value@.as_string()->0,
    {
        match value.as_string() {
            Some(s) => Ok(s),
            None => Err("can not convert to string"),
        }
    }
}

impl TryFromSpecImpl<RType> for String {
    /// Nothing is claimed through the operator: the contract stands on
    /// `try_from` itself.
    open spec fn obeys_try_from_spec() -> bool {
        false
    }

    open spec fn try_from_spec(value: RType) -> Result<Self, Self::Error> {
        Err("can not convert to string")
    }
}

impl TryFrom<RType> for Vec<String> {
    type Error = &'static str;

    /// What `as_string_array` gives, or an error where it gives nothing.
    fn try_from(value: RType) -> (r: Result<Self, Self::Error>)
        ensures
            r is Ok <==> value@.as_string_array() is Some,
            r matches Ok(s) ==> s.deep_view() == value@.as_string_array()->0,
    {
        match value.as_string_array() {
            Some(s) => Ok(s),
            None => Err("can not convert to string array"),
        }
    }
}

impl TryFromSpecImpl<RType> for Vec<String> {
    /// Nothing is claimed through the operator: the contract stands on
    /// `try_from` itself.
    open spec fn obeys_try_from_spec() -> bool {
        false
    }

    open spec fn try_from_spec(value: RType) -> Result<Self, Self::Error> {
        Err("can not convert to string array")
    }
}

impl TryFrom<RType> for u8 {
    type Error = &'static str;

    /// What `as_u8` gives, or an error where it gives nothing.
    fn try_from(value: RType) -> (r: Result<Self, Self::Error>)
        ensures
            r is Ok <==> value@.as_u8() is Some,
            r matches Ok(s) ==> s == value@.as_u8()->0,
    {
        match value.as_u8() {
            Some(s) => Ok(s),
            None => Err("can not convert to u8"),
        }
    }
}

impl TryFromSpecImpl<RType> for u8 {
    /// Nothing is claimed through the operator: the contract stands on
    /// `try_from` itself.
    open spec fn obeys_try_from_spec() -> bool {
        false
    }

    open spec fn try_from_spec(value: RType) -> Result<Self, Self::Error> {
        Err("can not convert to u8")
    }
}

impl TryFrom<RType> for Vec<u8> {
    type Error = &'static str;

    /// What `as_u8_array` gives, or an error where it gives nothing.
    fn try_from(value: RType) -> (r: Result<Self, Self::Error>)
        ensures
            r is Ok <==> value@.as_u8_array() is Some,
            r matches Ok(s) ==> s@ == value@.as_u8_array()->0,
    {
        match value.as_u8_array() {
            Some(s) => Ok(s),
            None => Err("can not convert to u8 array"),
        }
    }
}

impl TryFromSpecImpl<RType> for Vec<u8> {
    /// Nothing is claimed through the operator: the contract stands on
    /// `try_from` itself.
    open spec fn obeys_try_from_spec() -> bool {
        false
    }

    open spec fn try_from_spec(value: RType) -> Result<Self, Self::Error> {
        Err("can not convert to u8 array")
    }
}

impl TryFrom<RType> for u16 {
    type Error = &'static str;

    /// What `as_u16` gives, or an error where it gives nothing.
    fn try_from(value: RType) -> (r: Result<Self, Self::Error>)
        ensures
            r is Ok <==> value@.as_u16() is Some,
            r matches Ok(s) ==> s == value@.as_u16()->0,
    {
        match value.as_u16() {
            Some(s) => Ok(s),
            None => Err("can not convert to u16"),
        }
    }
}

impl TryFromSpecImpl<RType> for u16 {
    /// Nothing is claimed through the operator: the contract stands on
    /// `try_from` itself.
    open spec fn obeys_try_from_spec() -> bool {
        false
    }

    open spec fn try_from_spec(value: RType) -> Result<Self, Self::Error> {
        Err("can not convert to u16")
    }
}

impl TryFrom<RType> for Vec<u16> {
    type Error = &'static str;

    /// What `as_u16_array` gives, or an error where it gives nothing.
    fn try_from(value: RType) -> (r: Result<Self, Self::Error>)
        ensures
            r is Ok <==> value@.as_u16_array() is Some,
            r matches Ok(s) ==> s@ == value@.as_u16_array()->0,
    {
        match value.as_u16_array() {
            Some(s) => Ok(s),
            None => Err("can not convert to u16 array"),
        }
    }
}

impl TryFromSpecImpl<RType> for Vec<u16> {
    /// Nothing is claimed through the operator: the contract stands on
    /// `try_from` itself.
    open spec fn obeys_try_from_spec() -> bool {
        false
    }

    open spec fn try_from_spec(value: RType) -> Result<Self, Self::Error> {
        Err("can not convert to u16 array")
    }
}

impl TryFrom<RType> for u32 {
    type Error = &'static str;

    /// What `as_u32` gives, or an error where it gives nothing.
    fn try_from(value: RType) -> (r: Result<Self, Self::Error>)
        ensures
            r is Ok <==> value@.as_u32() is Some,
            r matches Ok(s) ==> s == value@.as_u32()->0,
    {
        match value.as_u32() {
            Some(s) => Ok(s),
            None => Err("can not convert to u32"),
        }
    }
}

impl TryFromSpecImpl<RType> for u32 {
    /// Nothing is claimed through the operator: the contract stands on
    /// `try_from` itself.
    open spec fn obeys_try_from_spec() -> bool {
        false
    }

    open spec fn try_from_spec(value: RType) -> Result<Self, Self::Error> {
        Err("can not convert to u32")
    }
}

impl TryFrom<RType> for Vec<u32> {
    type Error = &'static str;

    /// What `as_u32_array` gives, or an error where it gives nothing.
    fn try_from(value: RType) -> (r: Result<Self, Self::Error>)
        ensures
            r is Ok <==> value@.as_u32_array() is Some,
            r matches Ok(s) ==> s@ == value@.as_u32_array()->0,
    {
        match value.as_u32_array() {
            Some(s) => Ok(s),
            None => Err("can not convert to u32 array"),
        }
    }
}

impl TryFromSpecImpl<RType> for Vec<u32> {
    /// Nothing is claimed through the operator: the contract stands on
    /// `try_from` itself.
    open spec fn obeys_try_from_spec() -> bool {
        false
    }

    open spec fn try_from_spec(value: RType) -> Result<Self, Self::Error> {
        Err("can not convert to u32 array")
    }
}

impl TryFrom<RType> for u64 {
    type Error = &'static str;

    /// What `as_u64` gives, or an error where it gives nothing.
    fn try_from(value: RType) -> (r: Result<Self, Self::Error>)
        ensures
            r is Ok <==> value@.as_u64() is Some,
            r matches Ok(s) ==> s == value@.as_u64()->0,
    {
        match value.as_u64() {
            Some(s) => Ok(s),
            None => Err("can not convert to u64"),
        }
    }
}

impl TryFromSpecImpl<RType> for u64 {
    /// Nothing is claimed through the operator: the contract stands on
    /// `try_from` itself.
    open spec fn obeys_try_from_spec() -> bool {
        false
    }

    open spec fn try_from_spec(value: RType) -> Result<Self, Self::Error> {
        Err("can not convert to u64")
    }
}

impl TryFrom<RType> for Vec<u64> {
    type Error = &'static str;

    /// What `as_u64_array` gives, or an error where it gives nothing.
    fn try_from(value: RType) -> (r: Result<Self, Self::Error>)
        ensures
            r is Ok <==> value@.as_u64_array() is Some,
            r matches Ok(s) ==> s@ == value@.as_u64_array()->0,
    {
        match value.as_u64_array() {
            Some(s) => Ok(s),
            None => Err("can not convert to u64 array"),
        }
    }
}

impl TryFromSpecImpl<RType> for Vec<u64> {
    /// Nothing is claimed through the operator: the contract stands on
    /// `try_from` itself.
    open spec fn obeys_try_from_spec() -> bool {
        false
    }

    open spec fn try_from_spec(value: RType) -> Result<Self, Self::Error> {
        Err("can not convert to u64 array")
    }
}

} // verus!
