use mlx_rust::array::MlxArray;
use mlx_rust::closure::HostFunc;
use mlx_rust::transform::{grad, split_output_and_gradient, value_and_grad, GradFunc};
use mlx_rust::vector_array::VectorMLXArray;

fn identity() -> HostFunc<impl Fn(MlxArray) -> MlxArray, MlxArray, MlxArray> {
    HostFunc::new(|x: MlxArray| x, 1)
}

#[test]
fn split_gives_output_and_gradient() {
    let out = VectorMLXArray::from_array(MlxArray::from_raw(4));
    let gradient = VectorMLXArray::from_array(MlxArray::from_raw(1));
    let r = split_output_and_gradient::<MlxArray>(vec![out, gradient]);
    let (o, g) = r.unwrap();
    assert_eq!(o, MlxArray::from_raw(4));
    assert_eq!(g.to_vec(), vec![MlxArray::from_raw(1)]);
}

#[test]
fn split_needs_both_entries() {
    let out = VectorMLXArray::from_array(MlxArray::from_raw(4));
    assert!(split_output_and_gradient::<MlxArray>(vec![out]).is_none());
    assert!(split_output_and_gradient::<MlxArray>(Vec::new()).is_none());
}

#[test]
fn split_needs_an_output_array() {
    let r = split_output_and_gradient::<MlxArray>(vec![
        VectorMLXArray::new(),
        VectorMLXArray::from_array(MlxArray::from_raw(1)),
    ]);
    assert!(r.is_none());
}

#[test]
fn value_and_grad_keeps_the_given_positions() {
    let vg = value_and_grad(identity(), vec![0]);
    assert_eq!(vg.argument_positions(), vec![0]);
    let x = MlxArray::from_raw(3);
    assert_eq!(vg.closure().apply(x), x);
}

#[test]
fn grad_keeps_only_the_gradient() {
    let g = grad(identity());
    assert_eq!(g.value_and_grad().argument_positions(), vec![0]);
    let gradient = VectorMLXArray::from_array(MlxArray::from_raw(9));
    let kept = GradFunc::<HostFunc<fn(MlxArray) -> MlxArray, MlxArray, MlxArray>, MlxArray, MlxArray>::gradient(
        (MlxArray::from_raw(2), gradient),
    );
    assert_eq!(kept.to_vec(), vec![MlxArray::from_raw(9)]);
}

#[test]
fn value_and_grad_keeps_position_order() {
    let pair = HostFunc::new(|p: (MlxArray, MlxArray)| p.0, 2);
    let vg = value_and_grad(pair, vec![1, 0]);
    assert_eq!(vg.argument_positions(), vec![1, 0]);
}
