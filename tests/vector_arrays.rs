use mlx_rust::array::MlxArray;
use mlx_rust::closure::Marshal;
use mlx_rust::vector_array::VectorMLXArray;

#[test]
fn test_get_vector_array() {
    let array = MlxArray::from_raw(12);
    for _ in 0..1000 {
        let r = {
            let mut vec = VectorMLXArray::new();
            vec.add(array);
            assert_eq!(vec.len(), 1);
            vec.get(0).unwrap()
        };
        assert_eq!(array, r)
    }
}

#[test]
fn test_vector_array_size() {
    let array = MlxArray::from_raw(12);
    let mut vec = VectorMLXArray::new();
    vec.add(array);
    assert_eq!(vec.len(), 1);
}

#[test]
fn test_vector_array_from_array() {
    let array = MlxArray::from_raw(12);
    let vec = VectorMLXArray::from_array(array);
    assert_eq!(vec.len(), 1);
    assert_eq!(array, vec.get(0).unwrap());
}

#[test]
fn test_vector_array_from_vector() {
    let array = MlxArray::from_raw(12);
    let vec = (array, array).into_sequence();
    assert_eq!(vec.len(), 2);
    assert_eq!(array, vec.get(0).unwrap());
}

#[test]
fn test_vector_array_from_rust_array() {
    let array = MlxArray::from_raw(12);
    let vec = VectorMLXArray::from_vec(vec![array, array]);
    assert_eq!(vec.len(), 2);
    assert_eq!(array, vec.get(0).unwrap());
}

#[test]
fn appended_arrays_read_back_in_order() {
    let n: usize = 5;
    let mut vec = VectorMLXArray::new();
    for i in 0..n {
        vec.add(MlxArray::from_raw(100 + i));
    }
    assert_eq!(vec.len(), n);
    for i in 0..n {
        assert_eq!(vec.get(i), Some(MlxArray::from_raw(100 + i)));
    }
    assert_eq!(vec.get(n), None);
}

#[test]
fn empty_sequence_reads_nothing() {
    let vec = VectorMLXArray::new();
    assert_eq!(vec.len(), 0);
    assert_eq!(vec.get(0), None);
}

#[test]
fn add_arrays_appends_in_order() {
    let mut vec = VectorMLXArray::from_array(MlxArray::from_raw(1));
    vec.add_arrays(vec![MlxArray::from_raw(2), MlxArray::from_raw(3)]);
    assert_eq!(
        vec.to_vec(),
        vec![MlxArray::from_raw(1), MlxArray::from_raw(2), MlxArray::from_raw(3)]
    );
    vec.add_arrays(Vec::new());
    assert_eq!(vec.len(), 3);
}
