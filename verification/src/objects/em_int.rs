use super::base::EmObject;
use super::base::IntoEmObject;
use vstd::prelude::*;

verus! {

/// The runtime's numeric value.
///
/// A float is kept as its IEEE 754 binary64 bit pattern, so that a value is
/// made of integers only and two values are equal exactly when their bits are.
#[derive(Debug, Clone, Copy)]
pub enum EmInt {
    /// A signed 64-bit integer.
    I64(i64),
    /// An unsigned 64-bit integer.
    U64(u64),
    /// A 64-bit float, as its bit pattern.
    F64(u64),
}

impl IntoEmObject for EmInt {

}

/// A handle that holds a clone of a number holds that number.
pub proof fn clone_of_number_is_equal(source: EmObject<EmInt>, copy: EmObject<EmInt>)
    requires
        cloned(source@, copy@),
    ensures
        copy@ == source@,
{
}

} // verus!
