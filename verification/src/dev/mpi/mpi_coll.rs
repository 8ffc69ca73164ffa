use crate::coll::traits::{CollDevice, SystemOperation};
use crate::dev::mpi::communicator::{Iallgather, Iallreduce, Ibarrier};
use crate::dev::mpi::datatype::{get_datatype, Datatype, Equivalence};
use crate::dev::mpi::mpi_com::MpiCom;
use crate::traits::ComBaseDevice;
use crate::util::ptr::{SendPtr, SendPtrMut};
use vstd::layout::size_of;
use vstd::prelude::*;

verus! {

impl CollDevice for MpiCom {
    type Barrier = Ibarrier;

    type Allgather = Iallgather;

    type Allreduce = Iallreduce;

    open spec fn barrier_call(&self) -> Ibarrier {
        Ibarrier
    }

    /// The transport takes the byte count of one contribution as a 32-bit
    /// signed number.
    open spec fn allgather_ok(&self, len: usize, elem: nat) -> bool {
        len * elem <= i32::MAX
    }

    /// The contributions travel as bytes: each process sends, and receives
    /// from each process, as many bytes as one contribution has.
    open spec fn allgather_call(&self, send: usize, len: usize, recv: usize, elem: nat) -> Iallgather {
        Iallgather {
            send_buf: send,
            send_count: (len * elem) as i32,
            send_type: Datatype::Uint8,
            recv_buf: recv,
            recv_count: (len * elem) as i32,
            recv_type: Datatype::Uint8,
        }
    }

    /// The transport takes the element count as a 32-bit signed number.
    open spec fn allreduce_ok(&self, len: usize) -> bool {
        len <= i32::MAX
    }

    open spec fn allreduce_call(
        &self,
        send: usize,
        recv: usize,
        len: usize,
        datatype: Datatype,
        op: SystemOperation,
    ) -> Iallreduce {
        Iallreduce { send_buf: send, recv_buf: recv, count: len as i32, datatype, op }
    }

    fn barrier(&self) -> (call: Ibarrier) {
        Ibarrier
    }

    fn allgather<T: Copy>(
        &self,
        send_buf: SendPtr<T>,
        send_len: usize,
        recv_buf: SendPtrMut<T>,
        recv_len: usize,
    ) -> (call: Iallgather) {
        let count = (send_len * core::mem::size_of::<T>()) as i32;
        let datatype = Datatype::Uint8;
        Iallgather {
            send_buf: send_buf.get(),
            send_count: count,
            send_type: datatype,
            recv_buf: recv_buf.get(),
            recv_count: count,
            recv_type: datatype,
        }
    }

    fn allreduce<T: Copy + Equivalence>(
        &self,
        send_buf: SendPtr<T>,
        send_len: usize,
        recv_buf: SendPtrMut<T>,
        recv_len: usize,
        op: SystemOperation,
    ) -> (call: Iallreduce) {
        Iallreduce {
            send_buf: send_buf.get(),
            recv_buf: recv_buf.get(),
            count: send_len as i32,
            datatype: get_datatype::<T>(),
            op,
        }
    }
}

} // verus!
