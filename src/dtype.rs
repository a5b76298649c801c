use vstd::prelude::*;

verus! {

/// The element types a native array can hold.
#[derive(Debug, Clone, Copy, PartialEq, Eq, Structural)]
pub enum Dtype {
    Bool,
    Uint8,
    Uint16,
    Uint32,
    Uint64,
    Int8,
    Int16,
    Int32,
    Int64,
    Float16,
    Float32,
    Bfloat16,
}

/// A host element type and the array element type it reads.
pub trait MlxType {
    /// The array element type this host type stands for.
    spec fn spec_dtype() -> Dtype;

    fn dtype() -> (r: Dtype)
        ensures
            r == Self::spec_dtype(),
    ;
}

impl MlxType for bool {
    open spec fn spec_dtype() -> Dtype {
        Dtype::Bool
    }

    fn dtype() -> (r: Dtype) {
        Dtype::Bool
    }
}

impl MlxType for u8 {
    open spec fn spec_dtype() -> Dtype {
        Dtype::Uint8
    }

    fn dtype() -> (r: Dtype) {
        Dtype::Uint8
    }
}

impl MlxType for u16 {
    open spec fn spec_dtype() -> Dtype {
        Dtype::Uint16
    }

    fn dtype() -> (r: Dtype) {
        Dtype::Uint16
    }
}

impl MlxType for u32 {
    open spec fn spec_dtype() -> Dtype {
        Dtype::Uint32
    }

    fn dtype() -> (r: Dtype) {
        Dtype::Uint32
    }
}

impl MlxType for u64 {
    open spec fn spec_dtype() -> Dtype {
        Dtype::Uint64
    }

    fn dtype() -> (r: Dtype) {
        Dtype::Uint64
    }
}

impl MlxType for i8 {
    open spec fn spec_dtype() -> Dtype {
        Dtype::Int8
    }

    fn dtype() -> (r: Dtype) {
        Dtype::Int8
    }
}

impl MlxType for i16 {
    open spec fn spec_dtype() -> Dtype {
        Dtype::Int16
    }

    fn dtype() -> (r: Dtype) {
        Dtype::Int16
    }
}

impl MlxType for i32 {
    open spec fn spec_dtype() -> Dtype {
        Dtype::Int32
    }

    fn dtype() -> (r: Dtype) {
        Dtype::Int32
    }
}

impl MlxType for i64 {
    open spec fn spec_dtype() -> Dtype {
        Dtype::Int64
    }

    fn dtype() -> (r: Dtype) {
        Dtype::Int64
    }
}

/// A read of elements of one type from an array that holds another.
#[derive(Debug, Clone, Copy, PartialEq, Eq, Structural)]
pub struct DtypeMismatch {
    pub requested: Dtype,
    pub actual: Dtype,
}

/// Checks that elements of type `T` may be read from an array whose element
/// type is `actual`; no conversion is ever made in between.
pub fn check_element_type<T: MlxType>(actual: Dtype) -> (r: Result<(), DtypeMismatch>)
    ensures
        r.is_ok() == (T::spec_dtype() == actual),
        r matches Err(e) ==> e == (DtypeMismatch { requested: T::spec_dtype(), actual }),
{
    let requested = T::dtype();
    if requested == actual {
        Ok(())
    } else {
        Err(DtypeMismatch { requested, actual })
    }
}

/// Why elements cannot be read from an array as a slice.
#[derive(Debug, Clone, Copy, PartialEq, Eq, Structural)]
pub enum SliceError {
    /// The requested element type is not the array's.
    Mismatch(DtypeMismatch),
    /// The engine handed out no data, or the array has no elements.
    NoData,
}

/// Checks a read of an array's elements as a slice of `T`: the element types
/// must agree, and the engine must have handed out data for at least one
/// element. Gives the number of elements to read.
pub fn check_slice_read<T: MlxType>(actual: Dtype, has_data: bool, size: usize) -> (r: Result<
    usize,
    SliceError,
>)
    ensures
        T::spec_dtype() != actual ==> r == Err::<usize, SliceError>(
            SliceError::Mismatch(DtypeMismatch { requested: T::spec_dtype(), actual }),
        ),
        T::spec_dtype() == actual && (!has_data || size == 0) ==> r == Err::<usize, SliceError>(
            SliceError::NoData,
        ),
        T::spec_dtype() == actual && has_data && size > 0 ==> r == Ok::<usize, SliceError>(size),
{
    match check_element_type::<T>(actual) {
        Err(e) => Err(SliceError::Mismatch(e)),
        Ok(()) => {
            if !has_data || size == 0 {
                Err(SliceError::NoData)
            } else {
                Ok(size)
            }
        },
    }
}

} // verus!
