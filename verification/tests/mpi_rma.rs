use lite_rma::dev::mpi::datatype::Datatype;
use lite_rma::dev::mpi::error::MpiError;
use lite_rma::dev::mpi::mpi_com::MpiCom;
use lite_rma::dev::mpi::window::{CompareAndSwap, Rget, Rput, WinAttach, WinDetach};
use lite_rma::rma::{
    NoKey, RmaDevice, RmaLocalAttach, RmaLocalPtr, RmaLocalPtrMut, RmaProcRemotePtr,
    RmaProcRemotePtrMut, RmaRemotePtr, RmaRemotePtrMut, SimpleLocalAttach, SimpleLocalPtr,
    SimpleLocalPtrMut, SimpleProcRemotePtr, SimpleProcRemotePtrMut, SimpleRemotePtr,
    SimpleRemotePtrMut,
};
use lite_rma::traits::ComBaseDevice;
use lite_rma::util::ptr::{SendPtr, SendPtrMut};

fn dest<T: lite_rma::rma::RmaPointable>(proc: usize, addr: usize) -> SimpleProcRemotePtrMut<T, MpiCom> {
    SimpleProcRemotePtrMut::new(proc, SimpleRemotePtrMut::new(addr, NoKey))
}

fn source<T: lite_rma::rma::RmaPointable>(proc: usize, addr: usize) -> SimpleProcRemotePtr<T, MpiCom> {
    SimpleProcRemotePtr::new(proc, SimpleRemotePtr::new(addr, NoKey))
}

fn bytes_put(src: usize, rank: i32, disp: isize, size: i32) -> Rput {
    Rput {
        origin_addr: src,
        origin_count: size,
        origin_datatype: Datatype::Int8,
        target_rank: rank,
        target_disp: disp,
        target_count: size,
        target_datatype: Datatype::Int8,
    }
}

fn bytes_get(dest: usize, rank: i32, disp: isize, size: i32) -> Rget {
    Rget {
        origin_addr: dest,
        origin_count: size,
        origin_datatype: Datatype::Int8,
        target_rank: rank,
        target_disp: disp,
        target_count: size,
        target_datatype: Datatype::Int8,
    }
}

#[test]
fn device_knows_rank_and_group_size() {
    let dev = MpiCom::coll_new(2, 5);
    assert_eq!(dev.this_proc_id(), 2);
    assert_eq!(dev.num_procs(), 5);
    let alone = MpiCom::coll_new(0, 1);
    assert_eq!((alone.this_proc_id(), alone.num_procs()), (0, 1));
    let last = MpiCom::coll_new(i32::MAX - 1, i32::MAX);
    assert_eq!(last.this_proc_id(), i32::MAX as usize - 1);
    assert_eq!(last.num_procs(), i32::MAX as usize);
}

#[test]
fn attach_void_registers_the_bytes() {
    let dev = MpiCom::coll_new(0, 2);
    let call = dev.attach_void(SendPtrMut::new(0x8000), 4096);
    assert_eq!(call, WinAttach { base: 0x8000, size: 4096 });
}

#[test]
fn attach_scales_the_size_by_the_element() {
    let dev = MpiCom::coll_new(0, 2);
    assert_eq!(
        dev.attach(SendPtrMut::<u64>::new(0x8000), 10),
        WinAttach { base: 0x8000, size: 80 }
    );
    assert_eq!(
        dev.attach(SendPtrMut::<u16>::new(0x8000), 10),
        WinAttach { base: 0x8000, size: 20 }
    );
    assert_eq!(dev.attach(SendPtrMut::<u8>::new(0x10), 0), WinAttach { base: 0x10, size: 0 });
    assert_eq!(
        dev.attach(SendPtrMut::<()>::new(0x10), 1000),
        WinAttach { base: 0x10, size: 0 }
    );
}

#[test]
fn attached_gives_the_record_of_the_region() {
    let dev = MpiCom::coll_new(0, 2);
    let mut la = dev.attached(SendPtrMut::<u32>::new(0x8000), Ok(())).unwrap();
    assert!(!la.may_drop());
    assert_eq!(la.lptr_mut().ptr_mut(), 0x8000);
    assert_eq!(la.rptr_mut().ptr_mut(), 0x8000);
    la.reset();
    let mut bytes = dev.attached_void(SendPtrMut::new(0x8800), Ok(())).unwrap();
    assert_eq!(bytes.lptr().ptr(), 0x8800);
    bytes.reset();
}

#[test]
fn attached_hands_a_refusal_on() {
    let dev = MpiCom::coll_new(0, 2);
    let refused = dev.attached(SendPtrMut::<u32>::new(0x8000), Err(MpiError::new(16)));
    assert_eq!(refused.err(), Some(MpiError::new(16)));
    let refused = dev.attached_void(SendPtrMut::new(0x8000), Err(MpiError::new(2)));
    assert_eq!(refused.err(), Some(MpiError::new(2)));
}

#[test]
fn detach_names_the_start_of_the_region() {
    let dev = MpiCom::coll_new(0, 2);
    let la = SimpleLocalAttach::<u64, MpiCom>::new(0x8000, NoKey, NoKey);
    assert_eq!(dev.detach(la), WinDetach { base: 0x8000 });
    let la = SimpleLocalAttach::<u8, MpiCom>::new(0x9000, NoKey, NoKey);
    assert_eq!(dev.detach_void(la), WinDetach { base: 0x9000 });
}

#[test]
fn write_void_puts_the_bytes() {
    let dev = MpiCom::coll_new(0, 4);
    let src = SimpleLocalPtr::<u8, MpiCom>::new(0x1000, NoKey);
    assert_eq!(dev.write_void(src, dest(2, 0x2000), 24), bytes_put(0x1000, 2, 0x2000, 24));
}

#[test]
fn write_scales_the_size_by_the_element() {
    let dev = MpiCom::coll_new(0, 4);
    let src = SimpleLocalPtr::<u64, MpiCom>::new(0x1000, NoKey);
    assert_eq!(dev.write(src, dest(2, 0x2000), 3), bytes_put(0x1000, 2, 0x2000, 24));
    let src = SimpleLocalPtr::<u16, MpiCom>::new(0x1000, NoKey);
    assert_eq!(dev.write(src, dest(3, 0x2000), 3), bytes_put(0x1000, 3, 0x2000, 6));
    let src = SimpleLocalPtr::<u32, MpiCom>::new(0x1000, NoKey);
    assert_eq!(dev.write(src, dest(0, 0x2000), 0), bytes_put(0x1000, 0, 0x2000, 0));
}

#[test]
fn buf_write_puts_from_any_local_address() {
    let dev = MpiCom::coll_new(1, 4);
    assert_eq!(
        dev.buf_write(SendPtr::<u64>::new(0x7ff0), dest(0, 0x2008), 1),
        bytes_put(0x7ff0, 0, 0x2008, 8)
    );
    assert_eq!(
        dev.buf_write_void(SendPtr::new(0x7ff0), dest(3, 0x2008), 5),
        bytes_put(0x7ff0, 3, 0x2008, 5)
    );
}

#[test]
fn read_gets_into_the_local_address() {
    let dev = MpiCom::coll_new(1, 4);
    let into = SimpleLocalPtrMut::<u32, MpiCom>::new(0x3000, NoKey);
    assert_eq!(dev.read(source(2, 0x4000), into, 5), bytes_get(0x3000, 2, 0x4000, 20));
    let into = SimpleLocalPtrMut::<u8, MpiCom>::new(0x3000, NoKey);
    assert_eq!(dev.read_void(source(0, 0x4000), into, 9), bytes_get(0x3000, 0, 0x4000, 9));
}

#[test]
fn a_remote_address_in_the_upper_half_goes_out_negative() {
    let dev = MpiCom::coll_new(0, 2);
    let src = SimpleLocalPtr::<u8, MpiCom>::new(0x1000, NoKey);
    let put = dev.write_void(src, dest(1, usize::MAX - 7), 8);
    assert_eq!(put.target_disp, -8);
    let into = SimpleLocalPtrMut::<u8, MpiCom>::new(0x1000, NoKey);
    let get = dev.read_void(source(1, isize::MAX as usize + 1), into, 8);
    assert_eq!(get.target_disp, isize::MIN);
}

#[test]
fn the_largest_transfer_is_the_largest_count() {
    let dev = MpiCom::coll_new(0, i32::MAX);
    let src = SimpleLocalPtr::<u8, MpiCom>::new(0x1000, NoKey);
    let put = dev.write_void(src, dest(i32::MAX as usize - 1, 0x2000), i32::MAX as usize);
    assert_eq!(put.origin_count, i32::MAX);
    assert_eq!(put.target_count, i32::MAX);
    assert_eq!(put.target_rank, i32::MAX - 1);
}

#[test]
fn compare_and_swap_picks_the_datatype_by_width() {
    let dev = MpiCom::coll_new(0, 4);
    let call = dev.compare_and_swap(
        dest::<u32>(3, 0x2000),
        SendPtr::new(0x10),
        SendPtr::new(0x20),
        SendPtrMut::new(0x30),
    );
    assert_eq!(
        call,
        CompareAndSwap {
            origin_addr: 0x20,
            compare_addr: 0x10,
            result_addr: 0x30,
            datatype: Datatype::Int32,
            target_rank: 3,
            target_disp: 0x2000,
        }
    );
    let one = dev.compare_and_swap(
        dest::<u8>(0, 1),
        SendPtr::new(2),
        SendPtr::new(3),
        SendPtrMut::new(4),
    );
    assert_eq!(one.datatype, Datatype::Int8);
    let two = dev.compare_and_swap(
        dest::<i16>(0, 1),
        SendPtr::new(2),
        SendPtr::new(3),
        SendPtrMut::new(4),
    );
    assert_eq!(two.datatype, Datatype::Int16);
    let eight = dev.compare_and_swap(
        dest::<usize>(0, 1),
        SendPtr::new(2),
        SendPtr::new(3),
        SendPtrMut::new(4),
    );
    assert_eq!(eight.datatype, Datatype::Int64);
}

#[test]
fn atomic_read_is_a_get_of_one_element() {
    let dev = MpiCom::coll_new(0, 4);
    assert_eq!(
        dev.atomic_read(source::<u16>(1, 0x4000), SendPtrMut::new(0x50)),
        bytes_get(0x50, 1, 0x4000, 2)
    );
    assert_eq!(
        dev.atomic_read(source::<u64>(2, 0x4000), SendPtrMut::new(0x58)),
        bytes_get(0x58, 2, 0x4000, 8)
    );
}

#[test]
fn atomic_write_is_a_put_of_one_element() {
    let dev = MpiCom::coll_new(0, 4);
    assert_eq!(
        dev.atomic_write(dest::<u32>(1, 0x4000), SendPtr::new(0x60)),
        bytes_put(0x60, 1, 0x4000, 4)
    );
    assert_eq!(
        dev.atomic_write(dest::<[u8; 3]>(1, 0x4000), SendPtr::new(0x60)),
        bytes_put(0x60, 1, 0x4000, 3)
    );
}
