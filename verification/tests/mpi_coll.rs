use lite_rma::coll::traits::{CollDevice, SystemOperation};
use lite_rma::dev::mpi::communicator::{Iallgather, Iallreduce, Ibarrier};
use lite_rma::dev::mpi::datatype::Datatype;
use lite_rma::dev::mpi::mpi_com::MpiCom;
use lite_rma::util::ptr::{SendPtr, SendPtrMut};

#[test]
fn barrier_has_no_arguments() {
    assert_eq!(MpiCom::coll_new(0, 1).barrier(), Ibarrier);
    assert_eq!(MpiCom::coll_new(3, 4).barrier(), Ibarrier);
}

#[test]
fn allgather_sends_one_contribution_as_bytes() {
    let dev = MpiCom::coll_new(1, 4);
    let call = dev.allgather(SendPtr::<u32>::new(0x40), 3, SendPtrMut::<u32>::new(0x80), 12);
    assert_eq!(
        call,
        Iallgather {
            send_buf: 0x40,
            send_count: 12,
            send_type: Datatype::Uint8,
            recv_buf: 0x80,
            recv_count: 12,
            recv_type: Datatype::Uint8,
        }
    );
}

#[test]
fn allgather_takes_a_receive_buffer_with_room_to_spare() {
    let dev = MpiCom::coll_new(0, 2);
    let call = dev.allgather(SendPtr::<u64>::new(0x40), 1, SendPtrMut::<u64>::new(0x80), 100);
    assert_eq!((call.send_count, call.recv_count), (8, 8));
}

#[test]
fn allgather_of_nothing_gathers_nothing() {
    let dev = MpiCom::coll_new(0, 3);
    let call = dev.allgather(SendPtr::<u64>::new(0x40), 0, SendPtrMut::<u64>::new(0x80), 0);
    assert_eq!((call.send_count, call.recv_count), (0, 0));
}

#[test]
fn allgather_in_a_group_of_one() {
    let dev = MpiCom::coll_new(0, 1);
    let call = dev.allgather(SendPtr::<u16>::new(0x40), 5, SendPtrMut::<u16>::new(0x80), 5);
    assert_eq!((call.send_count, call.recv_count), (10, 10));
}

#[test]
fn allreduce_counts_elements_of_the_type() {
    let dev = MpiCom::coll_new(1, 4);
    let call = dev.allreduce(
        SendPtr::<i64>::new(0x40),
        5,
        SendPtrMut::<i64>::new(0x80),
        5,
        SystemOperation::Sum,
    );
    assert_eq!(
        call,
        Iallreduce {
            send_buf: 0x40,
            recv_buf: 0x80,
            count: 5,
            datatype: Datatype::Int64,
            op: SystemOperation::Sum,
        }
    );
}

#[test]
fn allreduce_names_the_datatype_of_each_type() {
    let dev = MpiCom::coll_new(0, 2);
    let send = 0x40;
    let recv = 0x80;
    let op = SystemOperation::Max;
    assert_eq!(
        dev.allreduce(SendPtr::<u8>::new(send), 1, SendPtrMut::<u8>::new(recv), 1, op).datatype,
        Datatype::Uint8
    );
    assert_eq!(
        dev.allreduce(SendPtr::<i16>::new(send), 1, SendPtrMut::<i16>::new(recv), 1, op).datatype,
        Datatype::Int16
    );
    assert_eq!(
        dev.allreduce(SendPtr::<u32>::new(send), 1, SendPtrMut::<u32>::new(recv), 1, op).datatype,
        Datatype::Uint32
    );
    assert_eq!(
        dev.allreduce(SendPtr::<u64>::new(send), 1, SendPtrMut::<u64>::new(recv), 1, op).datatype,
        Datatype::Uint64
    );
}

#[test]
fn allreduce_hands_every_operation_on() {
    let dev = MpiCom::coll_new(0, 1);
    let ops = [
        SystemOperation::Max,
        SystemOperation::Min,
        SystemOperation::Sum,
        SystemOperation::Product,
        SystemOperation::LogicalAnd,
        SystemOperation::BitwiseAnd,
        SystemOperation::LogicalOr,
        SystemOperation::BitwiseOr,
        SystemOperation::LogicalXor,
        SystemOperation::BitwiseXor,
    ];
    for op in ops {
        let call =
            dev.allreduce(SendPtr::<u32>::new(8), 2, SendPtrMut::<u32>::new(16), 2, op);
        assert_eq!(call.op, op);
        assert_eq!(call.count, 2);
    }
}

#[test]
fn allreduce_does_not_depend_on_the_group() {
    let one = MpiCom::coll_new(0, 1);
    let many = MpiCom::coll_new(6, 7);
    let a = one.allreduce(
        SendPtr::<u32>::new(8),
        4,
        SendPtrMut::<u32>::new(64),
        4,
        SystemOperation::Product,
    );
    let b = many.allreduce(
        SendPtr::<u32>::new(8),
        4,
        SendPtrMut::<u32>::new(64),
        4,
        SystemOperation::Product,
    );
    assert_eq!(a, b);
}
