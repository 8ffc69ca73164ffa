use lite_rma::dev::mpi::datatype::{
    datatype_for_size, get_datatype, get_datatype_from_size, Datatype, Equivalence,
};

#[test]
fn datatype_for_size_knows_four_sizes() {
    assert_eq!(datatype_for_size(1), Some(Datatype::Int8));
    assert_eq!(datatype_for_size(2), Some(Datatype::Int16));
    assert_eq!(datatype_for_size(4), Some(Datatype::Int32));
    assert_eq!(datatype_for_size(8), Some(Datatype::Int64));
}

#[test]
fn datatype_for_size_knows_no_other_size() {
    assert_eq!(datatype_for_size(0), None);
    assert_eq!(datatype_for_size(3), None);
    assert_eq!(datatype_for_size(5), None);
    assert_eq!(datatype_for_size(7), None);
    assert_eq!(datatype_for_size(16), None);
    assert_eq!(datatype_for_size(usize::MAX), None);
}

#[test]
fn get_datatype_from_size_goes_by_width_alone() {
    assert_eq!(get_datatype_from_size::<u8>(), Datatype::Int8);
    assert_eq!(get_datatype_from_size::<i8>(), Datatype::Int8);
    assert_eq!(get_datatype_from_size::<bool>(), Datatype::Int8);
    assert_eq!(get_datatype_from_size::<u16>(), Datatype::Int16);
    assert_eq!(get_datatype_from_size::<u32>(), Datatype::Int32);
    assert_eq!(get_datatype_from_size::<char>(), Datatype::Int32);
    assert_eq!(get_datatype_from_size::<i64>(), Datatype::Int64);
    assert_eq!(get_datatype_from_size::<[u16; 4]>(), Datatype::Int64);
}

#[test]
fn get_datatype_goes_by_the_type() {
    assert_eq!(get_datatype::<i8>(), Datatype::Int8);
    assert_eq!(get_datatype::<i16>(), Datatype::Int16);
    assert_eq!(get_datatype::<i32>(), Datatype::Int32);
    assert_eq!(get_datatype::<i64>(), Datatype::Int64);
    assert_eq!(get_datatype::<u8>(), Datatype::Uint8);
    assert_eq!(get_datatype::<u16>(), Datatype::Uint16);
    assert_eq!(get_datatype::<u32>(), Datatype::Uint32);
    assert_eq!(get_datatype::<u64>(), Datatype::Uint64);
}

#[test]
fn equivalence_agrees_with_get_datatype() {
    assert_eq!(<u32 as Equivalence>::datatype(), get_datatype::<u32>());
    assert_eq!(<i64 as Equivalence>::datatype(), get_datatype::<i64>());
}
