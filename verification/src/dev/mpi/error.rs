use vstd::prelude::*;

verus! {

/// The status code by which the transport reports that a call went well.
/// Every other code stands for a failure.
pub const MPI_SUCCESS: i32 = 0;

/// A call that the transport refused, with the status code it gave.
#[derive(Debug, Clone, Copy, PartialEq, Eq, Structural)]
pub struct MpiError {
    err: i32,
}

impl MpiError {
    /// The transport's status code.
    pub closed spec fn code(self) -> i32 {
        self.err
    }

    pub fn new(err: i32) -> (r: Self)
        ensures
            r.code() == err,
    {
        Self { err }
    }

    /// Reads a status code: success for `MPI_SUCCESS`, the code as an error
    /// for any other.
    pub fn check(ret: i32) -> (r: Result<(), MpiError>)
        ensures
            ret == MPI_SUCCESS ==> r is Ok,
            ret != MPI_SUCCESS ==> r is Err && r->Err_0.code() == ret,
    {
        if is_mpi_success(ret) {
            Ok(())
        } else {
            Err(MpiError::new(ret))
        }
    }

    /// The transport's status code, by which it can be asked for a
    /// description.
    pub fn err(&self) -> (r: i32)
        ensures
            r == self.code(),
    {
        self.err
    }
}

pub fn is_mpi_success(ret: i32) -> (r: bool)
    ensures
        r == (ret == MPI_SUCCESS),
{
    ret == MPI_SUCCESS
}

} // verus!
