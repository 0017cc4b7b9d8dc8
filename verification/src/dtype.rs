//! Element types of arrays.
use vstd::prelude::*;

verus! {

/// The element type of an array.
#[derive(Debug, Clone, Copy, PartialEq, Eq, Structural)]
pub enum Dtype {
    Bool,
    Uint8,
    Uint16,
    Uint32,
    Uint64,
    Int8,
    Int16,
    Int32,
    Int64,
    Float16,
    Float32,
    Float64,
    Bfloat16,
    Complex64,
}

impl Dtype {
    /// The code of this element type in the native C API: the position of the
    /// variant in declaration order, from `Bool` = 0 to `Complex64` = 13.
    pub open spec fn code_spec(self) -> i32 {
        match self {
            Dtype::Bool => 0,
            Dtype::Uint8 => 1,
            Dtype::Uint16 => 2,
            Dtype::Uint32 => 3,
            Dtype::Uint64 => 4,
            Dtype::Int8 => 5,
            Dtype::Int16 => 6,
            Dtype::Int32 => 7,
            Dtype::Int64 => 8,
            Dtype::Float16 => 9,
            Dtype::Float32 => 10,
            Dtype::Float64 => 11,
            Dtype::Bfloat16 => 12,
            Dtype::Complex64 => 13,
        }
    }

    /// The code of this element type in the native C API.
    pub fn code(self) -> (c: i32)
        ensures
            c == self.code_spec(),
    {
        match self {
            Dtype::Bool => 0,
            Dtype::Uint8 => 1,
            Dtype::Uint16 => 2,
            Dtype::Uint32 => 3,
            Dtype::Uint64 => 4,
            Dtype::Int8 => 5,
            Dtype::Int16 => 6,
            Dtype::Int32 => 7,
            Dtype::Int64 => 8,
            Dtype::Float16 => 9,
            Dtype::Float32 => 10,
            Dtype::Float64 => 11,
            Dtype::Bfloat16 => 12,
            Dtype::Complex64 => 13,
        }
    }
}

/// Distinct element types have distinct native codes.
pub proof fn lemma_codes_distinct(a: Dtype, b: Dtype)
    requires
        a != b,
    ensures
        a.code_spec() != b.code_spec(),
{
}

} // verus!
