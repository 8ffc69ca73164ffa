use lite_rma::dev::mpi::send::UnsafeSend;

#[test]
fn unsafe_send_hands_back_what_it_holds() {
    let s = UnsafeSend::new(0x55aau32);
    assert_eq!(s.get(), 0x55aa);
    assert_eq!(*s.as_ref(), 0x55aa);
    let copy = s;
    assert_eq!(copy.get(), s.get());
    assert_eq!(s.clone().get(), 0x55aa);
}

#[test]
fn unsafe_send_from_is_new() {
    let s: UnsafeSend<i64> = UnsafeSend::from(-9);
    assert_eq!(s.get(), -9);
    let t: UnsafeSend<u8> = 7.into();
    assert_eq!(t.get(), 7);
}

#[test]
fn unsafe_send_as_mut_writes_through() {
    let mut s = UnsafeSend::new(1u32);
    *s.as_mut() = 6;
    assert_eq!(s.get(), 6);
}
