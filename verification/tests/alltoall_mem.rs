use lite_rma::dev::mpi::communicator::Iallgather;
use lite_rma::dev::mpi::datatype::Datatype;
use lite_rma::dev::mpi::error::MpiError;
use lite_rma::dev::mpi::mpi_com::MpiCom;
use lite_rma::dev::mpi::window::{WinAttach, WinDetach};
use lite_rma::rma::{
    NoKey, RmaDevice, RmaLocalAttach, RmaLocalPtrMut, RmaProcRemotePtrMut, RmaRemotePtrMut,
    SimpleRemotePtrMut,
};
use lite_rma::structs::alltoall_mem::{region_fits, table_fits, AlltoallMem};
use lite_rma::util::ptr::{SendPtr, SendPtrMut};

type Ptr = SimpleRemotePtrMut<u64, MpiCom>;

fn table(addrs: &[usize]) -> Vec<Ptr> {
    addrs.iter().map(|a| Ptr::new(*a, NoKey)).collect()
}

fn make(rank: i32, bases: &[usize], size: usize) -> AlltoallMem<MpiCom, u64> {
    let dev = MpiCom::coll_new(rank, bases.len() as i32);
    let base = SendPtrMut::<u64>::new(bases[rank as usize]);
    let (attaching, _) = AlltoallMem::<MpiCom, u64>::coll_new(&dev, base, size);
    let gathering = attaching.attached(&dev, Ok(())).unwrap();
    match gathering.gathered(Ok(()), table(bases)) {
        Ok(mem) => mem,
        Err(_) => panic!("the gather went well"),
    }
}

#[test]
fn region_fits_inside_the_address_space() {
    assert!(region_fits(0x1000, 4, 8));
    assert!(region_fits(0, 0, 8));
    assert!(region_fits(usize::MAX, 0, 8));
    assert!(region_fits(usize::MAX - 32, 4, 8));
    assert!(!region_fits(usize::MAX - 31, 4, 8));
    assert!(!region_fits(usize::MAX - 10, 4, 8));
}

#[test]
fn region_fits_up_to_the_largest_object() {
    assert!(region_fits(0, isize::MAX as usize, 1));
    assert!(!region_fits(0, isize::MAX as usize + 1, 1));
    assert!(!region_fits(0, isize::MAX as usize, 2));
    assert!(!region_fits(0, usize::MAX, usize::MAX));
    assert!(region_fits(1, isize::MAX as usize / 8, 8));
}

#[test]
fn region_of_zero_sized_elements_always_fits() {
    assert!(region_fits(0, usize::MAX, 0));
    assert!(region_fits(usize::MAX, usize::MAX, 0));
}

#[test]
fn table_fits_when_every_entry_does() {
    assert!(table_fits(&table(&[0x1000, 0x2000, 0x3000]), 16));
    assert!(table_fits(&table(&[]), 16));
    assert!(!table_fits(&table(&[0x1000, usize::MAX - 8, 0x3000]), 16));
    assert!(!table_fits(&table(&[0x1000, 0x2000, usize::MAX]), 1));
    assert!(table_fits(&table(&[0x1000, 0x2000, usize::MAX]), 0));
}

#[test]
fn new_buf_is_filled_with_defaults() {
    assert_eq!(AlltoallMem::<MpiCom, u64>::new_buf(3), vec![0, 0, 0]);
    assert_eq!(AlltoallMem::<MpiCom, u8>::new_buf(0), Vec::<u8>::new());
    assert_eq!(AlltoallMem::<MpiCom, String>::new_buf(2), vec![String::new(), String::new()]);
    assert_eq!(AlltoallMem::<MpiCom, (u8, bool)>::new_buf(1), vec![(0, false)]);
}

#[test]
fn coll_new_asks_for_the_buffer_to_be_registered() {
    let dev = MpiCom::coll_new(0, 2);
    let (_, call) = AlltoallMem::<MpiCom, u64>::coll_new(&dev, SendPtrMut::new(0x1000), 4);
    assert_eq!(call, WinAttach { base: 0x1000, size: 32 });
    let (_, call) = AlltoallMem::<MpiCom, u8>::coll_new(&dev, SendPtrMut::new(0x1000), 0);
    assert_eq!(call, WinAttach { base: 0x1000, size: 0 });
}

#[test]
fn a_refused_registration_ends_the_making() {
    let dev = MpiCom::coll_new(0, 2);
    let (attaching, _) = AlltoallMem::<MpiCom, u64>::coll_new(&dev, SendPtrMut::new(0x1000), 4);
    match attaching.attached(&dev, Err(MpiError::new(16))) {
        Ok(_) => panic!("the registration was refused"),
        Err(e) => assert_eq!(e, MpiError::new(16)),
    }
}

#[test]
fn gathering_contributes_the_pointer_to_its_own_buffer() {
    let dev = MpiCom::coll_new(1, 3);
    let (attaching, _) = AlltoallMem::<MpiCom, u64>::coll_new(&dev, SendPtrMut::new(0x5000), 4);
    let gathering = attaching.attached(&dev, Ok(())).unwrap();
    assert_eq!(gathering.send().ptr_mut(), 0x5000);
    let empty = gathering.table();
    assert_eq!(empty.len(), 3);
    assert!(empty.iter().all(|p| p.ptr_mut() == 0));
    let call = gathering.allgather(&dev, SendPtr::new(0x600), SendPtrMut::new(0x700));
    let width = std::mem::size_of::<Ptr>() as i32;
    assert_eq!(
        call,
        Iallgather {
            send_buf: 0x600,
            send_count: width,
            send_type: Datatype::Uint8,
            recv_buf: 0x700,
            recv_count: width,
            recv_type: Datatype::Uint8,
        }
    );
    match gathering.gathered(Ok(()), table(&[0x4000, 0x5000, 0x6000])) {
        Ok(mem) => assert_eq!(mem.detach(&dev), WinDetach { base: 0x5000 }),
        Err(_) => panic!("the gather went well"),
    }
}

#[test]
fn a_failed_gather_hands_the_registration_back() {
    let dev = MpiCom::coll_new(0, 2);
    let (attaching, _) = AlltoallMem::<MpiCom, u64>::coll_new(&dev, SendPtrMut::new(0x1000), 4);
    let gathering = attaching.attached(&dev, Ok(())).unwrap();
    let empty = gathering.table();
    match gathering.gathered(Err(MpiError::new(7)), empty) {
        Ok(_) => panic!("the gather failed"),
        Err((e, la)) => {
            assert_eq!(e, MpiError::new(7));
            assert!(!la.may_drop());
            assert_eq!(la.lptr_mut().ptr_mut(), 0x1000);
            assert_eq!(dev.detach(la), WinDetach { base: 0x1000 });
        },
    }
}

#[test]
fn the_memory_knows_its_sizes() {
    let mem = make(1, &[0x1000, 0x2000, 0x3000], 4);
    assert_eq!(mem.len(), 4);
    assert_eq!(mem.num_procs(), 3);
    let dev = MpiCom::coll_new(1, 3);
    mem.detach(&dev);
}

#[test]
fn lptr_points_into_the_own_buffer() {
    let mem = make(1, &[0x1000, 0x2000, 0x3000], 4);
    assert_eq!(mem.lptr(0).ptr_mut(), 0x2000);
    assert_eq!(mem.lptr(1).ptr_mut(), 0x2008);
    assert_eq!(mem.lptr(3).ptr_mut(), 0x2018);
    assert_eq!(mem.lptr(3).lkey(), NoKey);
    mem.detach(&MpiCom::coll_new(1, 3));
}

#[test]
fn prptr_points_into_the_buffer_of_the_process_named() {
    let mem = make(1, &[0x1000, 0x2000, 0x3000], 4);
    let p = mem.prptr(2, 3);
    assert_eq!((p.proc(), p.ptr_mut()), (2, 0x3018));
    let p = mem.prptr(0, 0);
    assert_eq!((p.proc(), p.ptr_mut()), (0, 0x1000));
    let own = mem.prptr(1, 2);
    assert_eq!((own.proc(), own.ptr_mut()), (1, 0x2010));
    assert_eq!(own.rkey(), NoKey);
    mem.detach(&MpiCom::coll_new(1, 3));
}

#[test]
fn a_memory_of_one_process_points_at_itself() {
    let mem = make(0, &[0x1000], 2);
    assert_eq!(mem.num_procs(), 1);
    assert_eq!(mem.prptr(0, 1).ptr_mut(), mem.lptr(1).ptr_mut());
    mem.detach(&MpiCom::coll_new(0, 1));
}

#[test]
fn detach_ends_the_registration_of_the_own_buffer() {
    let dev = MpiCom::coll_new(2, 3);
    let mem = make(2, &[0x1000, 0x2000, 0x3000], 4);
    assert_eq!(mem.detach(&dev), WinDetach { base: 0x3000 });
}
