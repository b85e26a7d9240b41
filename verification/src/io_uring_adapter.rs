//! The io_uring read path's interpretation of a completion: the ring reports
//! a non-negative byte count, or a failure as the negated OS error number.

use vstd::prelude::*;

verus! {

/// What a read completion's result means: `Ok(bytes read)` for a
/// non-negative result, `Err(os error number)` for a negative one.
pub fn read_completion_result(res: i32) -> (r: Result<usize, i32>)
    requires
        res != i32::MIN,
    ensures
        res >= 0 ==> (r matches Ok(n) && n == res),
        res < 0 ==> (r matches Err(e) && e == -res),
{
    if res < 0 {
        Err(-res)
    } else {
        Ok(res as usize)
    }
}

} // verus!
