//! `CFSocket`: sockets are not supported; creating one gives NULL.
#![allow(non_snake_case)]
#![allow(non_upper_case_globals)]

use vstd::prelude::*;

verus! {

/// `kCFAllocatorDefault`, the null allocator reference.
pub const kCFAllocatorDefault: u32 = 0;

/// `CFSocketCreate`: only the default allocator is supported; no socket
/// is created and NULL is returned.
pub fn CFSocketCreate(
    allocator: u32,
    protocol_family: i32,
    type_: i32,
    protocol: i32,
    flags: u32,
    callout: u32,
    context: u32,
) -> (socket: u32)
    requires
        allocator == kCFAllocatorDefault,
    ensures
        socket == 0,
{
    0
}

/// CFStream property key `kCFStreamPropertyShouldCloseNativeSocket`.
pub fn kCFStreamPropertyShouldCloseNativeSocket() -> (s: &'static str)
    ensures
        s@ == "kCFStreamPropertyShouldCloseNativeSocket"@,
{
    "kCFStreamPropertyShouldCloseNativeSocket"
}

/// CFStream property key `kCFStreamPropertySocketNativeHandle`.
pub fn kCFStreamPropertySocketNativeHandle() -> (s: &'static str)
    ensures
        s@ == "kCFStreamPropertySocketNativeHandle"@,
{
    "kCFStreamPropertySocketNativeHandle"
}

} // verus!
