use mlx_rust::dtype::{check_element_type, check_slice_read, Dtype, DtypeMismatch, MlxType, SliceError};

#[test]
fn host_types_name_their_element_types() {
    assert_eq!(bool::dtype(), Dtype::Bool);
    assert_eq!(u8::dtype(), Dtype::Uint8);
    assert_eq!(u64::dtype(), Dtype::Uint64);
    assert_eq!(i16::dtype(), Dtype::Int16);
    assert_eq!(i32::dtype(), Dtype::Int32);
}

#[test]
fn matching_element_type_is_accepted() {
    assert_eq!(check_element_type::<i32>(Dtype::Int32), Ok(()));
    assert_eq!(check_element_type::<bool>(Dtype::Bool), Ok(()));
}

#[test]
fn mismatched_element_type_is_refused() {
    assert_eq!(
        check_element_type::<i32>(Dtype::Float32),
        Err(DtypeMismatch { requested: Dtype::Int32, actual: Dtype::Float32 })
    );
    assert_eq!(
        check_element_type::<u32>(Dtype::Int32),
        Err(DtypeMismatch { requested: Dtype::Uint32, actual: Dtype::Int32 })
    );
}

#[test]
fn slice_read_gives_the_element_count() {
    assert_eq!(check_slice_read::<i32>(Dtype::Int32, true, 2), Ok(2));
}

#[test]
fn slice_read_without_data_fails() {
    assert_eq!(check_slice_read::<i32>(Dtype::Int32, false, 2), Err(SliceError::NoData));
    assert_eq!(check_slice_read::<i32>(Dtype::Int32, true, 0), Err(SliceError::NoData));
}

#[test]
fn slice_read_of_another_type_fails() {
    assert_eq!(
        check_slice_read::<u8>(Dtype::Float16, true, 2),
        Err(SliceError::Mismatch(DtypeMismatch { requested: Dtype::Uint8, actual: Dtype::Float16 }))
    );
}
