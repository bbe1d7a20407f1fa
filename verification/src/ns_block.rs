//! Blocks runtime: the concrete block classes and `_Block_copy`. Blocks are
//! never copied to the heap: every block is treated as immortal, so copying
//! one gives it back and releasing one is left to the runtime as a no-op.
#![allow(non_snake_case)]

use vstd::prelude::*;

verus! {

/// The class `__NSConcreteGlobalBlock` points at.
pub fn __NSConcreteGlobalBlock() -> (name: &'static str)
    ensures
        name@ == "__NSGlobalBlock__"@,
{
    "__NSGlobalBlock__"
}

/// The class `__NSConcreteStackBlock` points at.
pub fn __NSConcreteStackBlock() -> (name: &'static str)
    ensures
        name@ == "__NSStackBlock__"@,
{
    "__NSStackBlock__"
}

/// The class `__NSConcreteMallocBlock` points at.
pub fn __NSConcreteMallocBlock() -> (name: &'static str)
    ensures
        name@ == "__NSMallocBlock__"@,
{
    "__NSMallocBlock__"
}

/// The class `__NSConcreteAutoBlock` points at.
pub fn __NSConcreteAutoBlock() -> (name: &'static str)
    ensures
        name@ == "__NSAutoBlock__"@,
{
    "__NSAutoBlock__"
}

/// `_Block_copy`: the block itself.
pub fn _Block_copy(block: u32) -> (r: u32)
    ensures
        r == block,
{
    block
}

} // verus!
