//! Sizing the executable region that receives generated code.
use vstd::prelude::*;

verus! {

/// The granularity of memory protection.
pub const PAGE_SIZE: usize = 4096;

/// The size of the page-aligned region that holds `len` bytes of code: the
/// least positive multiple of `PAGE_SIZE` that is at least `len`.
pub fn region_size(len: usize) -> (r: usize)
    requires
        len <= usize::MAX - PAGE_SIZE,
    ensures
        r % PAGE_SIZE == 0,
        r >= len,
        r > 0,
        r < len + PAGE_SIZE || (len == 0 && r == PAGE_SIZE),
{
    if len == 0 {
        PAGE_SIZE
    } else {
        (len + PAGE_SIZE - 1) / PAGE_SIZE * PAGE_SIZE
    }
}

} // verus!
