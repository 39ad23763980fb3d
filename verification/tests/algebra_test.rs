use ray_tracer_challenge::projectile::{Environment, Projectile};
use ray_tracer_challenge::scalar::Scalar;
use ray_tracer_challenge::tuples::{cross, dot, Color, Point, Vector};

/// One scalar from a raw count of millionths.
fn s(units: i64) -> Scalar {
    Scalar::from_units(units)
}

#[test]
fn adding_a_point_and_a_vector_gives_the_displaced_point() {
    let p = Point::new(s(3_000_000), s(-2_000_000), s(5_000_000));
    let v = Vector::new(s(-2_000_000), s(3_000_000), s(1_000_000));
    let moved = p.add_vector(&v);
    let expected = Point::new(s(1_000_000), s(1_000_000), s(6_000_000));

    assert_eq!(1_000_000, moved.x.units);
    assert_eq!(1_000_000, moved.y.units);
    assert_eq!(6_000_000, moved.z.units);
    assert!(moved.approx_eq(&expected));
}

#[test]
fn the_cross_products_of_two_vectors() {
    let a = Vector::new(s(1_000_000), s(2_000_000), s(3_000_000));
    let b = Vector::new(s(2_000_000), s(3_000_000), s(4_000_000));

    let ab = cross(&a, &b);
    assert_eq!(-1_000_000, ab.x.units);
    assert_eq!(2_000_000, ab.y.units);
    assert_eq!(-1_000_000, ab.z.units);

    let ba = cross(&b, &a);
    assert_eq!(1_000_000, ba.x.units);
    assert_eq!(-2_000_000, ba.y.units);
    assert_eq!(1_000_000, ba.z.units);
}

#[test]
fn reversing_a_cross_product_negates_it() {
    let a = Vector::new(s(1_500_000), s(-700_000), s(2_250_000));
    let b = Vector::new(s(-400_000), s(900_000), s(5_000_000));

    let ab = cross(&a, &b);
    let ba = cross(&b, &a);
    let negated = ba.neg();

    assert_eq!(ab.x.units, negated.x.units);
    assert_eq!(ab.y.units, negated.y.units);
    assert_eq!(ab.z.units, negated.z.units);
}

#[test]
fn the_dot_product_is_commutative() {
    let a = Vector::new(s(1_000_000), s(2_000_000), s(3_000_000));
    let b = Vector::new(s(2_000_000), s(3_000_000), s(4_000_000));
    assert_eq!(dot(&a, &b).units, dot(&b, &a).units);

    let c = Vector::new(s(-1_234_567), s(777_777), s(3_141_592));
    let d = Vector::new(s(2_718_281), s(-5_555_555), s(123_456));
    assert_eq!(dot(&c, &d).units, dot(&d, &c).units);
}

#[test]
fn approximate_equality_is_reflexive() {
    let p = Point::new(s(1_000_000), s(2_000_000), s(3_000_000));
    let v = Vector::new(s(-4_300_000), s(0), s(999_999));
    assert!(p.approx_eq(&p));
    assert!(v.approx_eq(&v));
}

#[test]
fn approximate_equality_tolerates_half_an_epsilon() {
    let p1 = Point::new(s(1_000_000), s(2_000_000), s(3_000_000));
    let p2 = Point::new(s(1_000_005), s(2_000_000), s(3_000_000));
    let p3 = Point::new(s(1_000_010), s(2_000_000), s(3_000_000));

    assert_eq!(true, p1.approx_eq(&p2));
    assert_eq!(false, p1.approx_eq(&p3));
}

#[test]
fn adding_two_colors() {
    let c1 = Color::new(s(900_000), s(600_000), s(750_000));
    let c2 = Color::new(s(700_000), s(100_000), s(250_000));
    let sum = c1.add(&c2);

    assert_eq!(1_600_000, sum.red.units);
    assert_eq!(700_000, sum.green.units);
    assert_eq!(1_000_000, sum.blue.units);
}

#[test]
fn subtracting_two_colors() {
    let c1 = Color::new(s(900_000), s(600_000), s(750_000));
    let c2 = Color::new(s(700_000), s(100_000), s(250_000));
    let diff = c1.sub(&c2);

    assert_eq!(200_000, diff.red.units);
    assert_eq!(500_000, diff.green.units);
    assert_eq!(500_000, diff.blue.units);
}

#[test]
fn scaling_a_color() {
    let c = Color::new(s(200_000), s(300_000), s(400_000));
    let scaled = c.mul(s(2_000_000));

    assert_eq!(400_000, scaled.red.units);
    assert_eq!(600_000, scaled.green.units);
    assert_eq!(800_000, scaled.blue.units);
}

#[test]
fn the_hadamard_product_of_two_colors() {
    let c1 = Color::new(s(1_000_000), s(200_000), s(400_000));
    let c2 = Color::new(s(900_000), s(1_000_000), s(100_000));
    let blended = c1.hadamard(&c2);

    assert_eq!(900_000, blended.red.units);
    assert_eq!(200_000, blended.green.units);
    assert_eq!(40_000, blended.blue.units);
}

#[test]
fn dividing_a_scaled_vector_recovers_half() {
    let v = Vector::new(s(1_000_000), s(-2_000_000), s(3_000_000));
    let scaled = v.mul(s(3_500_000));

    assert_eq!(3_500_000, scaled.x.units);
    assert_eq!(-7_000_000, scaled.y.units);
    assert_eq!(10_500_000, scaled.z.units);

    let halved = scaled.div(s(2_000_000));
    assert_eq!(1_750_000, halved.x.units);
    assert_eq!(-3_500_000, halved.y.units);
    assert_eq!(5_250_000, halved.z.units);
}

#[test]
fn normalizing_a_short_vector() {
    let v = Vector::new(s(1_000), s(0), s(0));
    let n = v.normalize();

    assert_eq!(1_000_000, n.x.units);
    assert_eq!(0, n.y.units);
    assert_eq!(0, n.z.units);
    assert!(n.magnitude().approx_eq(Scalar::one()));
}

#[test]
fn the_magnitude_of_an_awkward_normalized_vector() {
    let v = Vector::new(s(-12_345_678), s(87_654_321), s(192_837));
    assert!(v.normalize().magnitude().approx_eq(Scalar::one()));
}

#[test]
fn a_projectile_lands_after_seventeen_ticks() {
    let start = Point::new(s(0), s(1_000_000), s(0));
    let velocity = Vector::new(s(1_000_000), s(1_000_000), s(0)).normalize();
    let mut p = Projectile::new(start, velocity);
    let e = Environment::new(
        Vector::new(s(0), s(-100_000), s(0)),
        Vector::new(s(-10_000), s(0), s(0)),
    );

    let mut heights: Vec<i64> = vec![p.position.y.units];
    let mut count: i64 = 0;
    while p.position.y.units > 0 {
        p.tick(&e);
        heights.push(p.position.y.units);
        count += 1;
        assert!(count <= 1_000);
    }

    assert_eq!(17, count);
    // after the early ticks the vertical component strictly decreases
    for i in 9..heights.len() {
        assert!(heights[i] < heights[i - 1]);
    }
}
