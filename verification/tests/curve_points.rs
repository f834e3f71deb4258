use curve_reveal::curve::{
    generate_polynomial_curve_points, sample_curve, sample_point, CurveError, COEFF_A_NUM,
    COEFF_B_NUM, COEFF_C_NUM, COEFF_DEN,
};
use curve_reveal::geometry::{Fraction, Point, Rect};

fn extent(x_start: i32, x_end: i32) -> Rect {
    Rect { x_start, x_end, y_start: 0, y_end: 0 }
}

fn value(f: Fraction) -> f64 {
    f.num as f64 / f.den as f64
}

#[test]
fn five_points_over_zero_to_hundred() {
    let points = generate_polynomial_curve_points(5, extent(0, 100)).unwrap();
    let xs: Vec<f64> = points.iter().map(|p| value(p.x)).collect();
    let ys: Vec<f64> = points.iter().map(|p| value(p.y)).collect();
    assert_eq!(xs, vec![0.0, 25.0, 50.0, 75.0, 100.0]);
    assert_eq!(ys, vec![0.0, 6.25, 25.0, 56.25, 100.0]);
}

#[test]
fn five_points_exact_fractions() {
    let points = generate_polynomial_curve_points(5, extent(0, 100)).unwrap();
    let expected: Vec<Point> = (0..5i128)
        .map(|i| Point {
            x: Fraction { num: 100 * i, den: 4 },
            y: Fraction { num: 10_000 * i * i, den: 1_600 },
        })
        .collect();
    assert_eq!(points, expected);
}

#[test]
fn returns_exactly_count_points() {
    for count in [2u32, 3, 5, 17, 200, 1000] {
        let points = generate_polynomial_curve_points(count, extent(-462, 462)).unwrap();
        assert_eq!(points.len(), count as usize);
    }
}

#[test]
fn first_and_last_abscissae_are_the_ends_of_the_extent() {
    for (x_start, x_end) in [(0, 100), (-462, 462), (-7, -3), (9, 9), (50, -50)] {
        for count in [2u32, 3, 200] {
            let points = generate_polynomial_curve_points(count, extent(x_start, x_end)).unwrap();
            let first = points[0];
            let last = points[points.len() - 1];
            assert!(first.x.den > 0 && last.x.den > 0);
            assert_eq!(first.x.num, x_start as i128 * first.x.den);
            assert_eq!(last.x.num, x_end as i128 * last.x.den);
        }
    }
}

#[test]
fn abscissae_never_decrease_from_left_to_right() {
    let points = generate_polynomial_curve_points(200, extent(-462, 462)).unwrap();
    for pair in points.windows(2) {
        assert!(pair[0].x.num * pair[1].x.den <= pair[1].x.num * pair[0].x.den);
        assert!(pair[0].x.num < pair[1].x.num);
    }
}

#[test]
fn abscissae_are_evenly_spaced() {
    let points = generate_polynomial_curve_points(200, extent(-462, 462)).unwrap();
    for pair in points.windows(2) {
        assert_eq!(pair[0].x.den, 199);
        assert_eq!(pair[1].x.num - pair[0].x.num, 924);
    }
}

#[test]
fn abscissae_of_a_reversed_extent_run_backwards() {
    let points = generate_polynomial_curve_points(3, extent(10, 0)).unwrap();
    let xs: Vec<f64> = points.iter().map(|p| value(p.x)).collect();
    assert_eq!(xs, vec![10.0, 5.0, 0.0]);
}

#[test]
fn every_point_lies_on_the_quadratic() {
    let points = generate_polynomial_curve_points(200, extent(-462, 462)).unwrap();
    for p in &points {
        let (xn, xd) = (p.x.num, p.x.den);
        let numerator = COEFF_A_NUM * xn * xn + COEFF_B_NUM * xn * xd + COEFF_C_NUM * xd * xd;
        let denominator = COEFF_DEN * xd * xd;
        assert!(p.y.den > 0);
        assert_eq!(p.y.num * denominator, numerator * p.y.den);
        let x = value(p.x);
        assert!((value(p.y) - 0.01 * x * x).abs() < 1e-9);
    }
}

#[test]
fn coefficients_are_one_hundredth_zero_zero() {
    assert_eq!((COEFF_A_NUM, COEFF_B_NUM, COEFF_C_NUM, COEFF_DEN), (1, 0, 0, 100));
}

#[test]
fn first_point_of_the_default_curve() {
    let points = generate_polynomial_curve_points(200, extent(-462, 462)).unwrap();
    assert_eq!(value(points[0].x), -462.0);
    assert_eq!(value(points[0].y), 2134.44);
    assert_eq!(value(points[199].x), 462.0);
    assert_eq!(value(points[199].y), 2134.44);
}

#[test]
fn same_inputs_give_the_same_curve() {
    let first = generate_polynomial_curve_points(200, extent(-462, 462)).unwrap();
    let second = generate_polynomial_curve_points(200, extent(-462, 462)).unwrap();
    assert_eq!(first, second);
}

#[test]
fn the_vertical_extent_does_not_matter() {
    let flat = generate_polynomial_curve_points(7, extent(-3, 11)).unwrap();
    let tall = generate_polynomial_curve_points(
        7,
        Rect { x_start: -3, x_end: 11, y_start: -1000, y_end: 1000 },
    )
    .unwrap();
    assert_eq!(flat, tall);
}

#[test]
fn fewer_than_two_points_are_refused() {
    assert_eq!(generate_polynomial_curve_points(0, extent(0, 100)), Err(CurveError::TooFewPoints));
    assert_eq!(generate_polynomial_curve_points(1, extent(0, 100)), Err(CurveError::TooFewPoints));
}

#[test]
fn two_points_sit_on_the_two_ends() {
    let points = generate_polynomial_curve_points(2, extent(-20, 30)).unwrap();
    assert_eq!(
        points,
        vec![
            Point { x: Fraction { num: -20, den: 1 }, y: Fraction { num: 400, den: 100 } },
            Point { x: Fraction { num: 30, den: 1 }, y: Fraction { num: 900, den: 100 } },
        ]
    );
}

#[test]
fn an_empty_extent_gives_one_place_many_times() {
    let points = generate_polynomial_curve_points(4, extent(9, 9)).unwrap();
    assert_eq!(points.len(), 4);
    for p in &points {
        assert_eq!(value(p.x), 9.0);
        assert_eq!(value(p.y), 0.81);
    }
}

#[test]
fn sample_curve_agrees_with_the_generator() {
    assert_eq!(
        sample_curve(5, 0, 100),
        generate_polynomial_curve_points(5, extent(0, 100)).unwrap()
    );
}

#[test]
fn sample_point_interpolates() {
    let p = sample_point(1, 4, 0, 100);
    assert_eq!(p, Point { x: Fraction { num: 100, den: 4 }, y: Fraction { num: 10_000, den: 1_600 } });
    let q = sample_point(3, 8, -4, 12);
    assert_eq!(q.x, Fraction { num: 16, den: 8 });
    assert_eq!(q.y, Fraction { num: 256, den: 6_400 });
}

#[test]
fn sample_point_at_the_limits_of_its_types() {
    let steps = u32::MAX;
    let low = sample_point(steps, steps, i32::MIN, i32::MIN);
    let magnitude = (1i128 << 31) * steps as i128;
    assert_eq!(low.x, Fraction { num: -magnitude, den: steps as i128 });
    assert_eq!(low.y.num, magnitude * magnitude);
    assert_eq!(low.y.den, 100 * steps as i128 * steps as i128);

    let across = sample_point(steps, steps, i32::MIN, i32::MAX);
    assert_eq!(across.x.num, i32::MAX as i128 * steps as i128);
    let back = sample_point(steps - 1, steps, i32::MAX, i32::MIN);
    assert_eq!(
        back.x.num,
        i32::MAX as i128 * steps as i128 - (steps as i128 - 1) * ((1i128 << 32) - 1)
    );
}
