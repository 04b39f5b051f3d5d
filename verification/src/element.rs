//! The element types a device matrix can hold.

use vstd::prelude::*;

verus! {

/// A numeric element type. The program holds one kernel per operation and
/// element type, found by a name that ends in the type's name, so the names
/// must never change.
#[derive(Clone, Copy, Debug, PartialEq, Eq, Hash, Structural)]
pub enum ElementType {
    /// 32-bit floating point.
    Float,
    /// 64-bit floating point.
    Double,
    /// 32-bit signed integer.
    Int,
    /// 32-bit unsigned integer.
    UInt,
    /// 64-bit signed integer.
    Long,
    /// 64-bit unsigned integer.
    ULong,
}

impl ElementType {
    /// The type's name as kernel names spell it.
    pub open spec fn spec_name(self) -> Seq<char> {
        match self {
            ElementType::Float => "float"@,
            ElementType::Double => "double"@,
            ElementType::Int => "int"@,
            ElementType::UInt => "uint"@,
            ElementType::Long => "long"@,
            ElementType::ULong => "ulong"@,
        }
    }

    /// The type's name as kernel names spell it.
    pub fn name(self) -> (text: &'static str)
        ensures
            text@ == self.spec_name(),
    {
        match self {
            ElementType::Float => "float",
            ElementType::Double => "double",
            ElementType::Int => "int",
            ElementType::UInt => "uint",
            ElementType::Long => "long",
            ElementType::ULong => "ulong",
        }
    }
}

} // verus!
