//! Element types, ownership and mutability tags, and the typed regions that a
//! container can describe.

use vstd::prelude::*;

verus! {

/// The closed set of element types that a container can describe.
#[derive(Clone, Copy, Debug, PartialEq, Eq, Structural)]
pub enum DTYPE {
    Float32,
    Float64,
    Unsigned8,
    Unsigned32,
    Unsigned64,
    Int8,
    Int32,
    Int64,
}

/// Whether a container is responsible for releasing its region.
#[derive(Clone, Copy, Debug, PartialEq, Eq, Structural)]
pub enum OWNERSHIP {
    Owner,
    NotOwner,
}

/// Whether a container's region may be written through it.
#[derive(Clone, Copy, Debug, PartialEq, Eq, Structural)]
pub enum MUTABILITY {
    Mutable,
    NotMutable,
}

/// An IEEE 754 binary32 number, held as its bit pattern.
#[derive(Clone, Copy, Debug, PartialEq, Eq, Structural)]
pub struct Binary32(pub u32);

/// An IEEE 754 binary64 number, held as its bit pattern.
#[derive(Clone, Copy, Debug, PartialEq, Eq, Structural)]
pub struct Binary64(pub u64);

/// Canonical size in bytes of one element of the given type.
pub open spec fn spec_itemsize(dtype: DTYPE) -> nat {
    match dtype {
        DTYPE::Float32 => 4,
        DTYPE::Float64 => 8,
        DTYPE::Unsigned8 => 1,
        DTYPE::Unsigned32 => 4,
        DTYPE::Unsigned64 => 8,
        DTYPE::Int8 => 1,
        DTYPE::Int32 => 4,
        DTYPE::Int64 => 8,
    }
}

/// Stable integer value of an element-type tag, as seen across the boundary.
pub open spec fn spec_dtype_code(dtype: DTYPE) -> u32 {
    match dtype {
        DTYPE::Float32 => 0,
        DTYPE::Float64 => 1,
        DTYPE::Unsigned8 => 2,
        DTYPE::Unsigned32 => 3,
        DTYPE::Unsigned64 => 4,
        DTYPE::Int8 => 5,
        DTYPE::Int32 => 6,
        DTYPE::Int64 => 7,
    }
}

/// Size in bytes of one element of the given type.
pub fn get_itemsize(dtype: DTYPE) -> (r: usize)
    ensures
        r as nat == spec_itemsize(dtype),
{
    match dtype {
        DTYPE::Float32 => 4,
        DTYPE::Float64 => 8,
        DTYPE::Unsigned8 => 1,
        DTYPE::Unsigned32 => 4,
        DTYPE::Unsigned64 => 8,
        DTYPE::Int8 => 1,
        DTYPE::Int32 => 4,
        DTYPE::Int64 => 8,
    }
}

impl DTYPE {
    /// The tag's stable integer value.
    pub fn code(self) -> (r: u32)
        ensures
            r == spec_dtype_code(self),
    {
        match self {
            DTYPE::Float32 => 0,
            DTYPE::Float64 => 1,
            DTYPE::Unsigned8 => 2,
            DTYPE::Unsigned32 => 3,
            DTYPE::Unsigned64 => 4,
            DTYPE::Int8 => 5,
            DTYPE::Int32 => 6,
            DTYPE::Int64 => 7,
        }
    }

    /// The tag whose stable integer value is `code`, if there is one.
    pub fn from_code(code: u32) -> (r: Option<DTYPE>)
        ensures
            r == spec_dtype_of_code(code),
    {
        match code {
            0 => Some(DTYPE::Float32),
            1 => Some(DTYPE::Float64),
            2 => Some(DTYPE::Unsigned8),
            3 => Some(DTYPE::Unsigned32),
            4 => Some(DTYPE::Unsigned64),
            5 => Some(DTYPE::Int8),
            6 => Some(DTYPE::Int32),
            7 => Some(DTYPE::Int64),
            _ => None,
        }
    }
}

/// The tag whose stable integer value is `code`, if there is one.
pub open spec fn spec_dtype_of_code(code: u32) -> Option<DTYPE> {
    match code {
        0 => Some(DTYPE::Float32),
        1 => Some(DTYPE::Float64),
        2 => Some(DTYPE::Unsigned8),
        3 => Some(DTYPE::Unsigned32),
        4 => Some(DTYPE::Unsigned64),
        5 => Some(DTYPE::Int8),
        6 => Some(DTYPE::Int32),
        7 => Some(DTYPE::Int64),
        _ => None,
    }
}

/// Every tag has its own integer value, below 8, and reading that value back
/// gives the tag; no other value names a tag.
pub proof fn lemma_dtype_code(d: DTYPE, code: u32)
    ensures
        spec_dtype_code(d) < 8,
        spec_dtype_of_code(spec_dtype_code(d)) == Some(d),
        spec_dtype_of_code(code) matches Some(e) ==> spec_dtype_code(e) == code,
{
}

} // verus!
