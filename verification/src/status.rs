//! The meaning of the integers that the C library answers its calls with.
//!
//! The C functions report failure in two ways: some answer a negative number
//! on failure and anything else on success, others answer zero on success and
//! anything else on failure. Queries of a yes/no property answer a negative
//! number on failure, one for yes and any other value for no. These
//! functions turn such answers into `Result`s that carry the C code of a
//! failure.

use vstd::prelude::*;

verus! {

/// The answer of a call that fails with a negative number: `Err` with that
/// number when it is negative, `Ok` otherwise.
pub fn error_if_negative(rval: i32) -> (res: Result<(), isize>)
    ensures
        res == (if rval < 0 { Err::<(), isize>(rval as isize) } else { Ok::<(), isize>(()) }),
{
    if rval < 0 {
        Err(rval as isize)
    } else {
        Ok(())
    }
}

/// The answer of a call that succeeds with zero: `Ok` for zero, `Err` with
/// the number otherwise.
pub fn error_if_nonzero(rval: i32) -> (res: Result<(), isize>)
    ensures
        res == (if rval != 0 { Err::<(), isize>(rval as isize) } else { Ok::<(), isize>(()) }),
{
    if rval != 0 {
        Err(rval as isize)
    } else {
        Ok(())
    }
}

/// The answer of a yes/no query: `Err` with the number when it is negative,
/// otherwise whether it is one.
pub fn flag_or_error(rval: i32) -> (res: Result<bool, isize>)
    ensures
        res == (if rval < 0 { Err::<bool, isize>(rval as isize) } else { Ok::<bool, isize>(rval == 1) }),
{
    if rval < 0 {
        Err(rval as isize)
    } else {
        Ok(rval == 1)
    }
}

} // verus!
