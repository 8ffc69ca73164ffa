use crate::coll::traits::SystemOperation;
use crate::dev::mpi::datatype::Datatype;
use crate::dev::mpi::error::{MpiError, MPI_SUCCESS};
use vstd::prelude::*;

verus! {

/// The non-blocking barrier of the transport. It has no arguments.
#[derive(Clone, Copy, Debug, PartialEq, Eq, Structural)]
pub struct Ibarrier;

/// The arguments of the transport's non-blocking allgather: `send_count`
/// elements of `send_type` at `send_buf` go out, and `recv_count` elements of
/// `recv_type` from each process come in at `recv_buf`, in rank order.
#[derive(Clone, Copy, Debug, PartialEq, Eq, Structural)]
pub struct Iallgather {
    pub send_buf: usize,
    pub send_count: i32,
    pub send_type: Datatype,
    pub recv_buf: usize,
    pub recv_count: i32,
    pub recv_type: Datatype,
}

/// The arguments of the transport's non-blocking allreduce: the `count`
/// elements of `datatype` at `send_buf` are reduced with `op` over all
/// processes into `recv_buf`.
#[derive(Clone, Copy, Debug, PartialEq, Eq, Structural)]
pub struct Iallreduce {
    pub send_buf: usize,
    pub recv_buf: usize,
    pub count: i32,
    pub datatype: Datatype,
    pub op: SystemOperation,
}

/// Reads what issuing a non-blocking call gave: `ret` is the status code of
/// the call, `req` the completion token it filled in. The token counts only
/// where the call went well.
pub fn request<R>(ret: i32, req: R) -> (r: Result<R, MpiError>)
    ensures
        ret == MPI_SUCCESS ==> r == Ok::<R, MpiError>(req),
        ret != MPI_SUCCESS ==> r is Err && r->Err_0.code() == ret,
{
    match MpiError::check(ret) {
        Ok(_) => Ok(req),
        Err(e) => Err(e),
    }
}

} // verus!
