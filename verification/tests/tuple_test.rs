use ray_tracer_challenge::scalar::Scalar;
use ray_tracer_challenge::tuples::{dot, Point, Tuple, Value, Vector};

/// One scalar from a raw count of millionths.
fn s(units: i64) -> Scalar {
    Scalar::from_units(units)
}

#[test]
fn it_creates_a_point() {
    let p = Point::new(s(1_000_000), s(2_000_000), s(3_000_000));
    let val: Vec<Scalar> = vec![s(1_000_000), s(2_000_000), s(3_000_000), s(1_000_000)];
    assert_eq!(val, p.value());
}

#[test]
fn it_creates_a_vector() {
    let v = Vector::new(s(1_000_000), s(2_000_000), s(3_000_000));
    let val: Vec<Scalar> = vec![s(1_000_000), s(2_000_000), s(3_000_000), s(0)];
    assert_eq!(val, v.value());
}

#[test]
fn it_compares_two_tuples_for_equality() {
    let p1 = Point::new(s(1_000_000), s(2_000_000), s(3_000_000));
    let p2 = Point::new(s(1_000_010), s(2_000_000), s(3_000_000));
    let p3 = Point::new(s(1_000_000 - 10), s(2_000_000), s(3_000_000));
    let v1 = Vector::new(s(1_000_000), s(2_000_000), s(3_000_000));
    let v2 = Vector::new(s(1_000_000), s(2_000_000), s(3_000_000));

    assert_eq!(false, p1.approx_eq(&p2));
    assert_eq!(false, p1.approx_eq(&p3));
    assert_eq!(false, !v1.approx_eq(&v2));
}

#[test]
fn it_adds_two_tuples() {
    let t1 = Tuple::new(s(3_000_000), s(-2_000_000), s(5_000_000), s(2_000_000));
    let t2 = Tuple::new(s(-2_000_000), s(3_000_000), s(1_000_000), s(2_000_000));
    let sum = t1.add_tuple(&t2);

    let result: Vec<Scalar> = vec![s(1_000_000), s(1_000_000), s(6_000_000), s(4_000_000)];

    assert_eq!(result, sum.value());
}

#[test]
fn it_adds_a_tuple_and_a_point() {
    let t = Tuple::new(s(3_000_000), s(-2_000_000), s(5_000_000), s(2_000_000));
    let p = Point::new(s(-2_000_000), s(3_000_000), s(1_000_000));
    let sum = t.add_point(&p);

    let result: Vec<Scalar> = vec![s(1_000_000), s(1_000_000), s(6_000_000), s(3_000_000)];

    assert_eq!(result, sum.value());
}

#[test]
fn it_adds_a_point_and_a_tuple() {
    let t = Tuple::new(s(3_000_000), s(-2_000_000), s(5_000_000), s(2_000_000));
    let p = Point::new(s(-2_000_000), s(3_000_000), s(1_000_000));
    let sum = p.add_tuple(&t);

    let result: Vec<Scalar> = vec![s(1_000_000), s(1_000_000), s(6_000_000), s(3_000_000)];

    assert_eq!(result, sum.value());
}

#[test]
fn it_adds_a_tuple_and_a_vector() {
    let t = Tuple::new(s(3_000_000), s(-2_000_000), s(5_000_000), s(2_000_000));
    let v = Vector::new(s(-2_000_000), s(3_000_000), s(1_000_000));
    let sum = t.add_vector(&v);

    let result: Vec<Scalar> = vec![s(1_000_000), s(1_000_000), s(6_000_000), s(2_000_000)];

    assert_eq!(result, sum.value());
}

#[test]
fn it_adds_a_vector_and_a_tuple() {
    let t = Tuple::new(s(3_000_000), s(-2_000_000), s(5_000_000), s(2_000_000));
    let v = Vector::new(s(-2_000_000), s(3_000_000), s(1_000_000));
    let sum = v.add_tuple(&t);

    let result: Vec<Scalar> = vec![s(1_000_000), s(1_000_000), s(6_000_000), s(2_000_000)];

    assert_eq!(result, sum.value());
}

#[test]
fn it_adds_two_vectors() {
    let v1 = Vector::new(s(3_000_000), s(-2_000_000), s(5_000_000));
    let v2 = Vector::new(s(-2_000_000), s(3_000_000), s(1_000_000));
    let sum = v1.add_vector(&v2);

    let result: Vec<Scalar> = vec![s(1_000_000), s(1_000_000), s(6_000_000), s(0)];

    assert_eq!(result, sum.value());
}

#[test]
fn it_adds_a_vector_and_a_point() {
    let v = Vector::new(s(3_000_000), s(-2_000_000), s(5_000_000));
    let p = Point::new(s(-2_000_000), s(3_000_000), s(1_000_000));
    let sum = v.add_point(&p);

    let result: Vec<Scalar> = vec![s(1_000_000), s(1_000_000), s(6_000_000), s(1_000_000)];

    assert_eq!(result, sum.value());
}

#[test]
fn it_adds_a_point_and_a_vector() {
    let v = Vector::new(s(3_000_000), s(-2_000_000), s(5_000_000));
    let p = Point::new(s(-2_000_000), s(3_000_000), s(1_000_000));
    let sum = p.add_vector(&v);

    let result: Vec<Scalar> = vec![s(1_000_000), s(1_000_000), s(6_000_000), s(1_000_000)];

    assert_eq!(result, sum.value());
}

#[test]
fn subtracting_two_points() {
    let p1 = Point::new(s(3_000_000), s(2_000_000), s(1_000_000));
    let p2 = Point::new(s(5_000_000), s(6_000_000), s(7_000_000));

    let result: Vec<Scalar> = vec![s(-2_000_000), s(-4_000_000), s(-6_000_000), s(0)];

    assert_eq!(result, p1.sub_point(&p2).value());
}

#[test]
fn subtracting_a_vector_from_a_point() {
    let p = Point::new(s(3_000_000), s(2_000_000), s(1_000_000));
    let v = Vector::new(s(5_000_000), s(6_000_000), s(7_000_000));

    let result: Vec<Scalar> = vec![s(-2_000_000), s(-4_000_000), s(-6_000_000), s(1_000_000)];

    assert_eq!(result, p.sub_vector(&v).value());
}

#[test]
fn subtracting_two_vectors() {
    let v1 = Vector::new(s(3_000_000), s(2_000_000), s(1_000_000));
    let v2 = Vector::new(s(5_000_000), s(6_000_000), s(7_000_000));

    let result: Vec<Scalar> = vec![s(-2_000_000), s(-4_000_000), s(-6_000_000), s(0)];

    assert_eq!(result, v1.sub_vector(&v2).value());
}

#[test]
fn negating_a_tuple() {
    let t = Tuple::new(s(1_000_000), s(-2_000_000), s(3_000_000), s(-4_000_000));

    let result: Vec<Scalar> = vec![s(-1_000_000), s(2_000_000), s(-3_000_000), s(4_000_000)];

    assert_eq!(result, t.neg().value());
}

#[test]
fn negating_a_vector() {
    let v = Vector::new(s(1_000_000), s(-2_000_000), s(3_000_000));

    let result: Vec<Scalar> = vec![s(-1_000_000), s(2_000_000), s(-3_000_000), s(0)];

    assert_eq!(result, v.neg().value());
}

#[test]
fn mulitplying_a_tuple_by_a_scalar() {
    let t = Tuple::new(s(1_000_000), s(-2_000_000), s(3_000_000), s(-4_000_000));

    let result: Vec<Scalar> = vec![s(3_500_000), s(-7_000_000), s(10_500_000), s(-14_000_000)];

    assert_eq!(result, t.mul(s(3_500_000)).value());
}

#[test]
fn mulitplying_a_vector_by_a_scalar() {
    let v = Vector::new(s(1_000_000), s(-2_000_000), s(3_000_000));

    let result: Vec<Scalar> = vec![s(3_500_000), s(-7_000_000), s(10_500_000), s(0)];

    assert_eq!(result, v.mul(s(3_500_000)).value());
}

#[test]
fn mulitplying_a_tuple_by_a_fraction() {
    let t = Tuple::new(s(1_000_000), s(-2_000_000), s(3_000_000), s(-4_000_000));

    let result: Vec<Scalar> = vec![s(500_000), s(-1_000_000), s(1_500_000), s(-2_000_000)];

    assert_eq!(result, t.mul(s(500_000)).value());
}

#[test]
fn mulitplying_a_vector_by_a_fraction() {
    let v = Vector::new(s(1_000_000), s(-2_000_000), s(3_000_000));

    let result: Vec<Scalar> = vec![s(500_000), s(-1_000_000), s(1_500_000), s(0)];

    assert_eq!(result, v.mul(s(500_000)).value());
}

#[test]
fn dividing_a_tuple_by_a_scalar() {
    let t = Tuple::new(s(1_000_000), s(-2_000_000), s(3_000_000), s(-4_000_000));

    let result: Vec<Scalar> = vec![s(500_000), s(-1_000_000), s(1_500_000), s(-2_000_000)];

    assert_eq!(result, t.div(s(2_000_000)).value());
}

#[test]
fn dividing_a_vector_by_a_scalar() {
    let v = Vector::new(s(1_000_000), s(-2_000_000), s(3_000_000));

    let result: Vec<Scalar> = vec![s(500_000), s(-1_000_000), s(1_500_000), s(0)];

    assert_eq!(result, v.div(s(2_000_000)).value());
}

#[test]
fn computing_the_magnitude_of_a_vector() {
    let v1 = Vector::new(s(1_000_000), s(0), s(0));
    let v2 = Vector::new(s(0), s(1_000_000), s(0));
    let v3 = Vector::new(s(0), s(0), s(1_000_000));
    let v4 = Vector::new(s(1_000_000), s(2_000_000), s(3_000_000));
    let v5 = Vector::new(s(-1_000_000), s(-2_000_000), s(-3_000_000));
    let value: f64 = 14.0;
    let root_14: i64 = (value.sqrt() * 1_000_000.0) as i64;

    assert_eq!(1_000_000, v1.magnitude().units);
    assert_eq!(1_000_000, v2.magnitude().units);
    assert_eq!(1_000_000, v3.magnitude().units);
    assert_eq!(root_14, v4.magnitude().units);
    assert_eq!(root_14, v5.magnitude().units);
}

#[test]
fn normalizing_a_vector() {
    let v1 = Vector::new(s(4_000_000), s(0), s(0));
    let v2 = Vector::new(s(1_000_000), s(2_000_000), s(3_000_000));

    let value: f64 = 14.0;
    let m = value.sqrt();

    let result_v1: Vec<Scalar> = vec![s(1_000_000), s(0), s(0), s(0)];
    let result_v2 = Vector::new(
        s((1_000_000.0 / m) as i64),
        s((2_000_000.0 / m) as i64),
        s((3_000_000.0 / m) as i64),
    );

    assert_eq!(result_v1, v1.normalize().value());
    assert_eq!(true, v2.normalize().approx_eq(&result_v2));
}

#[test]
fn the_magnitude_of_a_normalized_vector() {
    let v = Vector::new(s(1_000_000), s(2_000_000), s(3_000_000));

    assert_eq!(true, v.normalize().magnitude().approx_eq(Scalar::one()));
}

#[test]
fn the_dot_product_of_two_vectors() {
    let v1 = Vector::new(s(1_000_000), s(2_000_000), s(3_000_000));
    let v2 = Vector::new(s(2_000_000), s(3_000_000), s(4_000_000));

    assert_eq!(20_000_000, dot(&v1, &v2).units);
}
