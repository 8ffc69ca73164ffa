use crate::dev::mpi::datatype::{datatype_of_size, get_datatype_from_size};
use crate::dev::mpi::error::MpiError;
use crate::dev::mpi::mpi_com::MpiCom;
use crate::dev::mpi::window::{
    rget_byte, rget_byte_call, rput_byte, rput_byte_call, Address, CompareAndSwap, Rank, Rget,
    Rput, WinAttach, WinDetach,
};
use crate::rma::ptr::{
    SimpleLocalAttach, SimpleLocalPtr, SimpleLocalPtrMut, SimpleProcRemotePtr,
    SimpleProcRemotePtrMut,
};
use crate::rma::traits::{
    NoKey, RmaDevice, RmaKeys, RmaLocalAttach, RmaLocalPtr, RmaLocalPtrMut, RmaPointable,
    RmaProcRemotePtr, RmaProcRemotePtrMut, RmaPtr, RmaRemotePtr, RmaRemotePtrMut,
};
use crate::structs::alltoall_mem::{lemma_prptr_is_lptr_there, made_together, AlltoallMem};
use crate::util::ptr::{signed_of, to_signed, SendPtr, SendPtrMut};
use crate::ProcInt;
use vstd::layout::size_of;
use vstd::prelude::*;

verus! {

/// The transport takes no keys: a region is reached by its address alone.
impl RmaKeys for MpiCom {
    type LocalKey = NoKey;

    type RemoteKey = NoKey;
}

impl RmaDevice for MpiCom {
    type Attach = WinAttach;

    type Detach = WinDetach;

    type Put = Rput;

    type Get = Rget;

    type Swap = CompareAndSwap;

    /// The transport takes the size as a signed number.
    open spec fn attach_void_ok(&self, addr: usize, size: nat) -> bool {
        size <= isize::MAX
    }

    open spec fn attach_void_call(&self, addr: usize, size: nat) -> WinAttach {
        WinAttach { base: addr, size: size as isize }
    }

    open spec fn attach_keys(&self, addr: usize) -> (NoKey, NoKey) {
        (NoKey, NoKey)
    }

    open spec fn detach_void_ok(&self, addr: usize, lkey: NoKey, rkey: NoKey) -> bool {
        true
    }

    open spec fn detach_void_call(&self, addr: usize, lkey: NoKey, rkey: NoKey) -> WinDetach {
        WinDetach { base: addr }
    }

    /// The transport takes the rank and the byte count as 32-bit signed
    /// numbers.
    open spec fn write_void_ok(
        &self,
        src: usize,
        proc: ProcInt,
        dest: usize,
        rkey: NoKey,
        size: nat,
    ) -> bool {
        proc <= i32::MAX && size <= i32::MAX
    }

    /// The remote address goes out as the displacement, read as a signed
    /// number.
    open spec fn write_void_call(
        &self,
        src: usize,
        lkey: NoKey,
        proc: ProcInt,
        dest: usize,
        rkey: NoKey,
        size: nat,
    ) -> Rput {
        rput_byte_call(src, proc as Rank, signed_of(dest) as Address, size as i32)
    }

    open spec fn buf_write_void_call(
        &self,
        src: usize,
        proc: ProcInt,
        dest: usize,
        rkey: NoKey,
        size: nat,
    ) -> Rput {
        rput_byte_call(src, proc as Rank, signed_of(dest) as Address, size as i32)
    }

    open spec fn read_void_ok(
        &self,
        proc: ProcInt,
        src: usize,
        rkey: NoKey,
        dest: usize,
        size: nat,
    ) -> bool {
        proc <= i32::MAX && size <= i32::MAX
    }

    open spec fn read_void_call(
        &self,
        proc: ProcInt,
        src: usize,
        rkey: NoKey,
        dest: usize,
        lkey: NoKey,
        size: nat,
    ) -> Rget {
        rget_byte_call(dest, proc as Rank, signed_of(src) as Address, size as i32)
    }

    /// The transport swaps elements of 1, 2, 4 and 8 bytes, and no others.
    open spec fn compare_and_swap_ok(
        &self,
        proc: ProcInt,
        target: usize,
        rkey: NoKey,
        size: nat,
    ) -> bool {
        proc <= i32::MAX && datatype_of_size(size) is Some
    }

    open spec fn compare_and_swap_call(
        &self,
        proc: ProcInt,
        target: usize,
        rkey: NoKey,
        expected: usize,
        desired: usize,
        result: usize,
        size: nat,
    ) -> CompareAndSwap {
        CompareAndSwap {
            origin_addr: desired,
            compare_addr: expected,
            result_addr: result,
            datatype: datatype_of_size(size)->Some_0,
            target_rank: proc as Rank,
            target_disp: signed_of(target) as Address,
        }
    }

    /// A plain get of one element.
    open spec fn atomic_read_call(
        &self,
        proc: ProcInt,
        src: usize,
        rkey: NoKey,
        result: usize,
        size: nat,
    ) -> Rget {
        self.read_void_call(proc, src, rkey, result, NoKey, size)
    }

    /// A plain put of one element.
    open spec fn atomic_write_call(
        &self,
        proc: ProcInt,
        dest: usize,
        rkey: NoKey,
        src: usize,
        size: nat,
    ) -> Rput {
        self.write_void_call(src, NoKey, proc, dest, rkey, size)
    }

    fn attach_void(&self, ptr: SendPtrMut<u8>, size: usize) -> (call: WinAttach) {
        WinAttach { base: ptr.get(), size: size as Address }
    }

    fn attached_void(&self, ptr: SendPtrMut<u8>, reply: Result<(), MpiError>) -> (r: Result<
        SimpleLocalAttach<u8, Self>,
        MpiError,
    >) {
        match reply {
            Ok(_) => Ok(SimpleLocalAttach::new(ptr.get(), NoKey, NoKey)),
            Err(e) => Err(e),
        }
    }

    fn detach_void(&self, la: SimpleLocalAttach<u8, Self>) -> (call: WinDetach) {
        let mut la = la;
        let base = la.lptr_mut().ptr_mut();
        la.reset();
        WinDetach { base: base }
    }

    fn write_void(
        &self,
        src_lptr: SimpleLocalPtr<u8, Self>,
        dest_rptr: SimpleProcRemotePtrMut<u8, Self>,
        size: usize,
    ) -> (call: Rput) {
        rput_byte(
            SendPtr::new(src_lptr.ptr()),
            dest_rptr.proc() as Rank,
            to_signed(dest_rptr.rptr_mut().ptr_mut()),
            size as i32,
        )
    }

    fn buf_write_void(
        &self,
        src_ptr: SendPtr<u8>,
        dest_rptr: SimpleProcRemotePtrMut<u8, Self>,
        size: usize,
    ) -> (call: Rput) {
        rput_byte(
            src_ptr,
            dest_rptr.proc() as Rank,
            to_signed(dest_rptr.rptr_mut().ptr_mut()),
            size as i32,
        )
    }

    fn read_void(
        &self,
        src_rptr: SimpleProcRemotePtr<u8, Self>,
        dest_lptr: SimpleLocalPtrMut<u8, Self>,
        size: usize,
    ) -> (call: Rget) {
        rget_byte(
            SendPtrMut::new(dest_lptr.ptr_mut()),
            src_rptr.proc() as Rank,
            to_signed(src_rptr.rptr().ptr()),
            size as i32,
        )
    }

    fn compare_and_swap<T: RmaPointable>(
        &self,
        target_rptr: SimpleProcRemotePtrMut<T, Self>,
        expected: SendPtr<T>,
        desired: SendPtr<T>,
        result: SendPtrMut<T>,
    ) -> (call: CompareAndSwap) {
        let datatype = get_datatype_from_size::<T>();
        CompareAndSwap {
            origin_addr: desired.get(),
            compare_addr: expected.get(),
            result_addr: result.get(),
            datatype,
            target_rank: target_rptr.proc() as Rank,
            target_disp: to_signed(target_rptr.rptr_mut().ptr_mut()),
        }
    }

    fn atomic_read<T: RmaPointable>(
        &self,
        src_rptr: SimpleProcRemotePtr<T, Self>,
        result: SendPtrMut<T>,
    ) -> (call: Rget) {
        self.read(src_rptr, SimpleLocalPtrMut::new(result.get(), NoKey), 1)
    }

    fn atomic_write<T: RmaPointable>(
        &self,
        dest_rptr: SimpleProcRemotePtrMut<T, Self>,
        src: SendPtr<T>,
    ) -> (call: Rput) {
        self.write(SimpleLocalPtr::new(src.get(), NoKey), dest_rptr, 1)
    }
}

/// Where a write into symmetric memory goes. In a group whose memories were
/// made together, the put that carries `size` bytes to what `prptr(to,
/// index)` points at on member `from` names process `to` and, as the
/// displacement, the address that `lptr(index)` points at on member `to`: it
/// fills the element that `to` reads there.
pub proof fn lemma_write_reaches_lptr<T: RmaPointable + Default + Clone>(
    dev: MpiCom,
    group: Seq<AlltoallMem<MpiCom, T>>,
    from: int,
    to: int,
    index: int,
    src: usize,
    size: nat,
)
    requires
        made_together(group),
        0 <= from < group.len(),
        0 <= to < group.len(),
        to <= i32::MAX,
        0 <= group[from].remote_addr(to, index) <= usize::MAX,
    ensures
        ({
            let put = dev.write_void_call(
                src,
                NoKey,
                to as ProcInt,
                group[from].remote_addr(to, index) as usize,
                NoKey,
                size,
            );
            &&& put.origin_addr == src
            &&& put.target_rank == to
            &&& put.target_disp == signed_of(group[to].local_addr(index) as usize)
        }),
{
    lemma_prptr_is_lptr_there(group, from, to, index);
}

} // verus!
