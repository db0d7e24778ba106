//! Size conversions from Rust lengths to the integer widths of MPI's C API.
use vstd::prelude::*;

verus! {

/// A length as an MPI `int` count; the length must fit in an `i32`.
pub fn sz2int(sz: usize) -> (r: i32)
    requires
        sz <= i32::MAX,
    ensures
        r == sz,
{
    sz as i32
}

/// A length as an MPI address-sized integer; the length must fit in an `i64`.
pub fn sz2longint(sz: usize) -> (r: i64)
    requires
        sz <= i64::MAX,
    ensures
        r == sz,
{
    sz as i64
}

} // verus!
