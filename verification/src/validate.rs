//! Which sequences of numbers are quaternions that can be turned into a rotation.

use vstd::prelude::*;

verus! {

/// Why a sequence of numbers is not a quaternion that can be turned into a rotation.
#[derive(Debug, Clone, Copy, PartialEq, Eq, Structural)]
pub enum QuatError {
    /// Fewer than four components were given.
    OutOfRange,
    /// The sum of the squares of the components is zero.
    InvalidArgument,
}

/// The number of components that a quaternion has.
pub const QUAT_LEN: usize = 4;

/// What `check_quaternion` answers for a sequence of `len` numbers whose sum of squares is
/// zero or not.
pub open spec fn quaternion_verdict(len: int, norm_is_zero: bool) -> Result<(), QuatError> {
    if len < QUAT_LEN {
        Err(QuatError::OutOfRange)
    } else if norm_is_zero {
        Err(QuatError::InvalidArgument)
    } else {
        Ok(())
    }
}

/// Decides whether a sequence of `len` numbers can be turned into a rotation: a short one
/// is out of range, whatever it holds; one whose sum of squares is zero is an invalid
/// argument.
pub fn check_quaternion(len: usize, norm_is_zero: bool) -> (verdict: Result<(), QuatError>)
    ensures
        verdict == quaternion_verdict(len as int, norm_is_zero),
{
    if len < QUAT_LEN {
        Err(QuatError::OutOfRange)
    } else if norm_is_zero {
        Err(QuatError::InvalidArgument)
    } else {
        Ok(())
    }
}

} // verus!
