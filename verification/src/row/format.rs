use vstd::prelude::*;

verus! {

/// The type of a value in a stored row.
#[derive(Debug, Clone, Copy, PartialEq, Eq, Structural)]
pub enum ColType {
    Int,
    BigInt,
    Float,
    BigFloat,
    Bool,
    String,
}

} // verus!
