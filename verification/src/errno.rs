use vstd::prelude::*;

verus! {

/// An error number, as the system or this library gives it.
#[derive(Clone, Copy, Debug, PartialEq, Eq)]
pub struct Errno(pub i32);

/// What a system call that only succeeds or fails left behind: its return value, and the
/// error number of the calling thread right after it.
#[derive(Clone, Copy, Debug, PartialEq, Eq)]
pub struct Status {
    pub ret: i32,
    pub errno: i32,
}

impl Status {
    /// The call's result: it failed if and only if its return value is not zero, and the error
    /// number is of interest only then.
    pub open spec fn result(self) -> Result<(), Errno> {
        if self.ret == 0 {
            Ok(())
        } else {
            Err(Errno(self.errno))
        }
    }

    pub fn into_result(self) -> (res: Result<(), Errno>)
        ensures
            res == self.result(),
    {
        if self.ret != 0 {
            return Err(Errno(self.errno));
        }
        Ok(())
    }
}

/// Value of `EINVAL` on Linux.
pub open spec fn invalid_argument() -> i32 {
    22
}

/// Reads the constant `libc::EINVAL`, which is 22 on every Linux target. (The crate builds on no
/// other system: `libc` declares `AF_XDP` there alone.)
#[verifier::external_body]
pub(crate) fn einval() -> (code: i32)
    ensures
        code == invalid_argument(),
{
    libc::EINVAL
}

} // verus!
