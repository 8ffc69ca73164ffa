use crate::dev::mpi::datatype::Datatype;
use crate::dev::mpi::error::{is_mpi_success, MpiError, MPI_SUCCESS};
use crate::util::ptr::{SendPtr, SendPtrMut};
use vstd::prelude::*;

verus! {

/// A process as the transport names it.
pub type Rank = i32;

/// An address or a byte count as the transport takes it.
pub type Address = isize;

/// The arguments of the transport's call that registers `size` bytes at
/// `base` with the window.
#[derive(Clone, Copy, Debug, PartialEq, Eq, Structural)]
pub struct WinAttach {
    pub base: usize,
    pub size: Address,
}

/// The arguments of the transport's call that ends the registration of the
/// region at `base`.
#[derive(Clone, Copy, Debug, PartialEq, Eq, Structural)]
pub struct WinDetach {
    pub base: usize,
}

/// The arguments of the transport's non-blocking put: `origin_count` elements
/// of `origin_datatype` at `origin_addr` go to process `target_rank`, where
/// they arrive as `target_count` elements of `target_datatype` at
/// `target_disp`.
#[derive(Clone, Copy, Debug, PartialEq, Eq, Structural)]
pub struct Rput {
    pub origin_addr: usize,
    pub origin_count: i32,
    pub origin_datatype: Datatype,
    pub target_rank: Rank,
    pub target_disp: Address,
    pub target_count: i32,
    pub target_datatype: Datatype,
}

/// The arguments of the transport's non-blocking get: `target_count` elements
/// of `target_datatype` at `target_disp` in process `target_rank` come in as
/// `origin_count` elements of `origin_datatype` at `origin_addr`.
#[derive(Clone, Copy, Debug, PartialEq, Eq, Structural)]
pub struct Rget {
    pub origin_addr: usize,
    pub origin_count: i32,
    pub origin_datatype: Datatype,
    pub target_rank: Rank,
    pub target_disp: Address,
    pub target_count: i32,
    pub target_datatype: Datatype,
}

/// The arguments of the transport's compare-and-swap on the element of
/// `datatype` at `target_disp` in process `target_rank`: it is compared with
/// the element at `compare_addr` and, where the two are equal, replaced by the
/// one at `origin_addr`; what it was before goes to `result_addr`.
#[derive(Clone, Copy, Debug, PartialEq, Eq, Structural)]
pub struct CompareAndSwap {
    pub origin_addr: usize,
    pub compare_addr: usize,
    pub result_addr: usize,
    pub datatype: Datatype,
    pub target_rank: Rank,
    pub target_disp: Address,
}

/// The put that moves `size` bytes, as bytes, from `src` to `dest_idx` in
/// process `dest_proc`.
pub open spec fn rput_byte_call(src: usize, dest_proc: Rank, dest_idx: Address, size: i32) -> Rput {
    Rput {
        origin_addr: src,
        origin_count: size,
        origin_datatype: Datatype::Int8,
        target_rank: dest_proc,
        target_disp: dest_idx,
        target_count: size,
        target_datatype: Datatype::Int8,
    }
}

/// The get that moves `size` bytes, as bytes, from `src_idx` in process
/// `src_proc` to `dest`.
pub open spec fn rget_byte_call(dest: usize, src_proc: Rank, src_idx: Address, size: i32) -> Rget {
    Rget {
        origin_addr: dest,
        origin_count: size,
        origin_datatype: Datatype::Int8,
        target_rank: src_proc,
        target_disp: src_idx,
        target_count: size,
        target_datatype: Datatype::Int8,
    }
}

pub fn rput_byte(src_ptr: SendPtr<u8>, dest_proc: Rank, dest_idx: Address, size: i32) -> (call: Rput)
    ensures
        call == rput_byte_call(src_ptr.addr(), dest_proc, dest_idx, size),
{
    Rput {
        origin_addr: src_ptr.get(),
        origin_count: size,
        origin_datatype: Datatype::Int8,
        target_rank: dest_proc,
        target_disp: dest_idx,
        target_count: size,
        target_datatype: Datatype::Int8,
    }
}

pub fn rget_byte(dest_ptr: SendPtrMut<u8>, src_proc: Rank, src_idx: Address, size: i32) -> (call:
    Rget)
    ensures
        call == rget_byte_call(dest_ptr.addr(), src_proc, src_idx, size),
{
    Rget {
        origin_addr: dest_ptr.get(),
        origin_count: size,
        origin_datatype: Datatype::Int8,
        target_rank: src_proc,
        target_disp: src_idx,
        target_count: size,
        target_datatype: Datatype::Int8,
    }
}

/// Reads the status code of a window call.
pub fn check_mpi_error(ret: i32) -> (r: Result<(), MpiError>)
    ensures
        ret == MPI_SUCCESS ==> r is Ok,
        ret != MPI_SUCCESS ==> r is Err && r->Err_0.code() == ret,
{
    if is_mpi_success(ret) {
        Ok(())
    } else {
        Err(MpiError::new(ret))
    }
}

} // verus!
