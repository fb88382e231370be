use ecc_gadget::circuit::Layouter;
use ecc_gadget::ecc::{FixedPoint, Point, Scalar};
use ecc_gadget::model::{ModelChip, ModelCurve, ModelLayouter, MODEL_ORDER};
use ecc_gadget::plonk::Error;

type ModelScalar = Scalar<ModelCurve, ModelChip>;
type ModelPoint = Point<ModelCurve, ModelChip>;
type ModelFixedPoint = FixedPoint<ModelCurve, ModelChip>;

#[test]
fn add_commutes() {
    let p: ModelPoint = Point::new(5);
    let q: ModelPoint = Point::new(9);
    let pq: u64 = p.add(ModelLayouter::new(1), &q).unwrap().into_inner();
    let qp: u64 = q.add(ModelLayouter::new(1), &p).unwrap().into_inner();
    assert_eq!(pq, qp);
    assert_eq!(pq, (5 + 9) % MODEL_ORDER);
}

#[test]
fn add_reduces_modulo_order() {
    let p: ModelPoint = Point::new(12);
    let q: ModelPoint = Point::new(5);
    let sum: u64 = p.add(ModelLayouter::new(1), &q).unwrap().into_inner();
    assert_eq!(sum, 4);
}

#[test]
fn double_matches_add_self() {
    let p: ModelPoint = Point::new(7);
    let doubled: u64 = p.double(ModelLayouter::new(1)).unwrap().into_inner();
    let q: ModelPoint = Point::new(7);
    let summed: u64 = p.add(ModelLayouter::new(1), &q).unwrap().into_inner();
    assert_eq!(doubled, summed);
    assert_eq!(doubled, 1);
}

#[test]
fn fixed_and_variable_mul_agree() {
    let s: ModelScalar = Scalar::new(6);
    let fixed: ModelFixedPoint = FixedPoint::new(4);
    let variable: ModelPoint = Point::new(4);
    let from_fixed: u64 = fixed.mul(ModelLayouter::new(1), &s).unwrap().into_inner();
    let from_variable: u64 = variable.mul(ModelLayouter::new(1), &s).unwrap().into_inner();
    assert_eq!(from_fixed, from_variable);
    assert_eq!(from_fixed, (6 * 4) % MODEL_ORDER);
}

#[test]
fn mul_by_zero_gives_identity() {
    let s: ModelScalar = Scalar::new(0);
    let p: ModelPoint = Point::new(8);
    let r: u64 = p.mul(ModelLayouter::new(1), &s).unwrap().into_inner();
    assert_eq!(r, 0);
}

#[test]
fn mul_by_one_gives_base() {
    let s: ModelScalar = Scalar::new(1);
    let p: ModelPoint = Point::new(8);
    let r: u64 = p.mul(ModelLayouter::new(1), &s).unwrap().into_inner();
    assert_eq!(r, 8);
}

#[test]
fn mul_exact_value() {
    let s: ModelScalar = Scalar::new(3);
    let p: ModelPoint = Point::new(5);
    let r: u64 = p.mul(ModelLayouter::new(1), &s).unwrap().into_inner();
    assert_eq!(r, 2);
}

#[test]
fn scalars_reduce_modulo_order() {
    let s: ModelScalar = Scalar::new(MODEL_ORDER + 1);
    let p: ModelPoint = Point::new(8);
    let r: u64 = p.mul(ModelLayouter::new(1), &s).unwrap().into_inner();
    assert_eq!(r, 8);
}

#[test]
fn add_identity_gives_point() {
    let p: ModelPoint = Point::new(11);
    let id: ModelPoint = Point::new(0);
    let r: u64 = p.add(ModelLayouter::new(1), &id).unwrap().into_inner();
    assert_eq!(r, 11);
}

#[test]
fn add_identity_to_identity_gives_identity() {
    let id_a: ModelPoint = Point::new(0);
    let id_b: ModelPoint = Point::new(0);
    let r: u64 = id_a.add(ModelLayouter::new(1), &id_b).unwrap().into_inner();
    assert_eq!(r, 0);
}

#[test]
fn allocation_failure_surfaces_from_add() {
    let p: ModelPoint = Point::new(5);
    let q: ModelPoint = Point::new(9);
    let r: Result<ModelPoint, Error> = p.add(ModelLayouter::new(0), &q);
    assert!(matches!(r, Err(Error::Synthesis)));
}

#[test]
fn allocation_failure_surfaces_from_double() {
    let p: ModelPoint = Point::new(5);
    let r: Result<ModelPoint, Error> = p.double(ModelLayouter::new(0));
    assert!(matches!(r, Err(Error::Synthesis)));
}

#[test]
fn allocation_failure_surfaces_from_mul() {
    let s: ModelScalar = Scalar::new(3);
    let p: ModelPoint = Point::new(5);
    let r: Result<ModelPoint, Error> = p.mul(ModelLayouter::new(0), &s);
    assert!(matches!(r, Err(Error::Synthesis)));
}

#[test]
fn allocation_failure_surfaces_from_fixed_mul() {
    let s: ModelScalar = Scalar::new(3);
    let f: ModelFixedPoint = FixedPoint::new(5);
    let r: Result<ModelPoint, Error> = f.mul(ModelLayouter::new(0), &s);
    assert!(matches!(r, Err(Error::Synthesis)));
}

#[test]
fn layouter_hands_out_exactly_its_capacity() {
    let mut l: ModelLayouter = ModelLayouter::new(2);
    let first: Result<(), Error> = Layouter::<ModelChip>::assign_region(&mut l);
    let second: Result<(), Error> = Layouter::<ModelChip>::assign_region(&mut l);
    let third: Result<(), Error> = Layouter::<ModelChip>::assign_region(&mut l);
    assert!(first.is_ok());
    assert!(second.is_ok());
    assert!(matches!(third, Err(Error::Synthesis)));
}
