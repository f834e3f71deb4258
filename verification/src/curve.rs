//! Sampling of the quadratic curve `y = a*x^2 + b*x + c` at evenly spaced
//! abscissae, in exact rational arithmetic.

use vstd::prelude::*;
use crate::geometry::{Fraction, Point, Rect};

verus! {

/// Numerator of the quadratic coefficient `a`.
pub const COEFF_A_NUM: i128 = 1;

/// Numerator of the linear coefficient `b`.
pub const COEFF_B_NUM: i128 = 0;

/// Numerator of the constant term `c`.
pub const COEFF_C_NUM: i128 = 0;

/// Common denominator of the three coefficients: `a = 1/100`, `b = c = 0`.
pub const COEFF_DEN: i128 = 100;

/// Why a curve could not be sampled.
#[derive(Clone, Copy, Debug, PartialEq, Eq)]
pub enum CurveError {
    /// Fewer than two points were asked for, so the first and the last sample
    /// cannot lie on the two ends of the extent.
    TooFewPoints,
}

/// Numerator, over the denominator `steps`, of the abscissa that lies `i`
/// steps out of `steps` on the way from `x_start` to `x_end`:
/// `x_start + (i / steps) * (x_end - x_start)`.
pub open spec fn interpolated_num(i: int, steps: int, x_start: int, x_end: int) -> int {
    x_start * steps + i * (x_end - x_start)
}

/// Numerator of `a*x^2 + b*x + c` at `x = x_num / x_den`, over the
/// denominator `quadratic_den(x_den)`.
pub open spec fn quadratic_num(x_num: int, x_den: int) -> int {
    COEFF_A_NUM * (x_num * x_num) + COEFF_B_NUM * (x_num * x_den) + COEFF_C_NUM * (x_den * x_den)
}

/// Denominator of `a*x^2 + b*x + c` at an abscissa with denominator `x_den`.
pub open spec fn quadratic_den(x_den: int) -> int {
    COEFF_DEN * (x_den * x_den)
}

/// `p` lies on the curve: `p.y = a * p.x^2 + b * p.x + c`, as an equation
/// between rational numbers.
pub open spec fn on_quadratic(p: Point) -> bool {
    p.y.num * quadratic_den(p.x.den as int) == quadratic_num(p.x.num as int, p.x.den as int)
        * p.y.den
}

/// `p` is sample number `i` of `count` samples over `[x_start, x_end]`: its
/// abscissa is interpolated over the denominator `count - 1`, its ordinate is
/// the quadratic at that abscissa.
pub open spec fn is_sample(p: Point, i: int, count: int, x_start: int, x_end: int) -> bool {
    &&& p.x.den == count - 1
    &&& p.x.num == interpolated_num(i, count - 1, x_start, x_end)
    &&& p.y.den == quadratic_den(count - 1)
    &&& p.y.num == quadratic_num(p.x.num as int, count - 1)
}

/// `points` is the curve of `count` samples over `[x_start, x_end]`, in order
/// of increasing sample number.
pub open spec fn is_curve(points: Seq<Point>, count: int, x_start: int, x_end: int) -> bool {
    &&& points.len() == count
    &&& forall|i: int|
        0 <= i < count ==> is_sample(#[trigger] points[i], i, count, x_start, x_end)
}

/// Bounds of an interpolated numerator: it lies between the two ends of the
/// extent, each taken `steps` times.
proof fn lemma_interpolated_bounds(i: int, steps: int, x_start: int, x_end: int)
    by (nonlinear_arith)
    requires
        0 <= i <= steps,
    ensures
        x_start <= x_end ==> x_start * steps <= interpolated_num(i, steps, x_start, x_end) <= x_end
            * steps,
        x_end <= x_start ==> x_end * steps <= interpolated_num(i, steps, x_start, x_end)
            <= x_start * steps,
{
}

/// Size of an interpolated numerator and of its square for 32-bit ends and a
/// 32-bit number of steps.
proof fn lemma_sample_fits(i: int, steps: int, x_start: int, x_end: int)
    requires
        0 <= i <= steps <= u32::MAX,
        i32::MIN <= x_start <= i32::MAX,
        i32::MIN <= x_end <= i32::MAX,
    ensures
        ({
            let xn = interpolated_num(i, steps, x_start, x_end);
            &&& -0x8000_0000_0000_0000 < xn < 0x8000_0000_0000_0000
            &&& 0 <= xn * xn <= 0x4000_0000_0000_0000_0000_0000_0000_0000
            &&& -0x8000_0000_0000_0000_0000_0000 < xn * steps < 0x8000_0000_0000_0000_0000_0000
            &&& 0 <= steps * steps < 0x1_0000_0000_0000_0000
        }),
{
    let xn = interpolated_num(i, steps, x_start, x_end);
    lemma_interpolated_bounds(i, steps, x_start, x_end);
    assert(-0x8000_0000 * steps <= x_start * steps <= 0x8000_0000 * steps) by (nonlinear_arith)
        requires
            0 <= steps,
            -0x8000_0000 <= x_start <= 0x8000_0000,
    ;
    assert(-0x8000_0000 * steps <= x_end * steps <= 0x8000_0000 * steps) by (nonlinear_arith)
        requires
            0 <= steps,
            -0x8000_0000 <= x_end <= 0x8000_0000,
    ;
    assert(-0x8000_0000_0000_0000 < xn < 0x8000_0000_0000_0000);
    assert(0 <= xn * xn <= 0x4000_0000_0000_0000_0000_0000_0000_0000) by (nonlinear_arith)
        requires
            -0x8000_0000_0000_0000 < xn < 0x8000_0000_0000_0000,
    ;
    assert(-0x8000_0000_0000_0000_0000_0000 < xn * steps < 0x8000_0000_0000_0000_0000_0000)
        by (nonlinear_arith)
        requires
            -0x8000_0000_0000_0000 < xn < 0x8000_0000_0000_0000,
            0 <= steps < 0x1_0000_0000,
    ;
    assert(0 <= steps * steps < 0x1_0000_0000_0000_0000) by (nonlinear_arith)
        requires
            0 <= steps < 0x1_0000_0000,
    ;
}

/// `points` spans the extent `[x_start, x_end]`: its first abscissa is
/// `x_start` and its last is `x_end`.
pub open spec fn spans_extent(points: Seq<Point>, x_start: int, x_end: int) -> bool {
    &&& points.len() >= 1
    &&& points.first().x.is_int(x_start)
    &&& points.last().x.is_int(x_end)
}

/// The abscissae of `points` never decrease along the sequence.
pub open spec fn abscissae_ordered(points: Seq<Point>) -> bool {
    forall|i: int, j: int|
        0 <= i <= j < points.len() ==> (#[trigger] points[i]).x.le((#[trigger] points[j]).x)
}

/// Every point of `points` has well-formed coordinates and lies on the
/// quadratic.
pub open spec fn all_on_quadratic(points: Seq<Point>) -> bool {
    forall|i: int| 0 <= i < points.len() ==> (#[trigger] points[i]).wf() && on_quadratic(points[i])
}

/// A curve of at least two samples has exactly `count` points, begins at
/// `x_start` and ends at `x_end`.
pub proof fn lemma_curve_spans_extent(points: Seq<Point>, count: int, x_start: int, x_end: int)
    requires
        count >= 2,
        is_curve(points, count, x_start, x_end),
    ensures
        points.len() == count,
        spans_extent(points, x_start, x_end),
{
    let steps = count - 1;
    assert(is_sample(points[0], 0, count, x_start, x_end));
    assert(is_sample(points[steps], steps, count, x_start, x_end));
    assert(x_start * steps + steps * (x_end - x_start) == x_end * steps) by (nonlinear_arith);
}

/// The samples of a curve are evenly spaced: all abscissae share one
/// denominator, and from each point to the next the numerator grows by the
/// length of the extent.
pub proof fn lemma_curve_evenly_spaced(
    points: Seq<Point>,
    count: int,
    x_start: int,
    x_end: int,
    i: int,
)
    requires
        is_curve(points, count, x_start, x_end),
        0 <= i < count - 1,
    ensures
        points[i].x.den == points[i + 1].x.den,
        points[i + 1].x.num - points[i].x.num == x_end - x_start,
{
    assert(is_sample(points[i], i, count, x_start, x_end));
    assert(is_sample(points[i + 1], i + 1, count, x_start, x_end));
    let span = x_end - x_start;
    assert((i + 1) * span == i * span + span) by (nonlinear_arith);
}

/// Over an extent that runs from left to right, the abscissae of a curve
/// never decrease along the sequence.
pub proof fn lemma_curve_abscissae_ordered(
    points: Seq<Point>,
    count: int,
    x_start: int,
    x_end: int,
)
    requires
        count >= 2,
        is_curve(points, count, x_start, x_end),
        x_start <= x_end,
    ensures
        abscissae_ordered(points),
{
    let steps = count - 1;
    let span = x_end - x_start;
    assert forall|i: int, j: int| 0 <= i <= j < points.len() implies (#[trigger] points[i]).x.le(
        (#[trigger] points[j]).x,
    ) by {
        assert(is_sample(points[i], i, count, x_start, x_end));
        assert(is_sample(points[j], j, count, x_start, x_end));
        assert(i * span <= j * span) by (nonlinear_arith)
            requires
                i <= j,
                0 <= span,
        ;
        let a = points[i].x.num as int;
        let b = points[j].x.num as int;
        assert(a * steps <= b * steps) by (nonlinear_arith)
            requires
                a <= b,
                0 <= steps,
        ;
    }
}

/// Every point of a curve of at least two samples lies on the quadratic: its
/// ordinate is `a*x^2 + b*x + c` at its abscissa, exactly.
pub proof fn lemma_curve_on_quadratic(points: Seq<Point>, count: int, x_start: int, x_end: int)
    requires
        count >= 2,
        is_curve(points, count, x_start, x_end),
    ensures
        all_on_quadratic(points),
{
    let steps = count - 1;
    assert(0 < steps * steps) by (nonlinear_arith)
        requires
            1 <= steps,
    ;
    assert forall|i: int| 0 <= i < points.len() implies (#[trigger] points[i]).wf()
        && on_quadratic(points[i]) by {
        let p = points[i];
        assert(is_sample(p, i, count, x_start, x_end));
        let n = quadratic_num(p.x.num as int, p.x.den as int);
        let d = quadratic_den(p.x.den as int);
        assert(n * d == d * n) by (nonlinear_arith);
    }
}

/// The curve is a function of the point count and the extent alone: two
/// curves sampled from the same inputs are the same sequence.
pub proof fn lemma_curve_unique(
    first: Seq<Point>,
    second: Seq<Point>,
    count: int,
    x_start: int,
    x_end: int,
)
    requires
        is_curve(first, count, x_start, x_end),
        is_curve(second, count, x_start, x_end),
    ensures
        first == second,
{
    assert forall|i: int| 0 <= i < count implies first[i] == second[i] by {
        assert(is_sample(first[i], i, count, x_start, x_end));
        assert(is_sample(second[i], i, count, x_start, x_end));
    }
    assert(first =~= second);
}

/// Sample number `i` of `steps + 1` samples over `[x_start, x_end]`.
pub fn sample_point(i: u32, steps: u32, x_start: i32, x_end: i32) -> (p: Point)
    requires
        1 <= steps,
        i <= steps,
    ensures
        is_sample(p, i as int, steps + 1, x_start as int, x_end as int),
        p.wf(),
{
    let x_den: i128 = steps as i128;
    let span: i128 = x_end as i128 - x_start as i128;
    proof {
        lemma_sample_fits(i as int, steps as int, x_start as int, x_end as int);
        assert(-0x8000_0000_0000_0000 <= x_start * x_den <= 0x8000_0000_0000_0000)
            by (nonlinear_arith)
            requires
                0 <= x_den < 0x1_0000_0000,
                -0x8000_0000 <= x_start <= 0x8000_0000,
        ;
        assert(-0x1_0000_0000_0000_0000 <= i * span <= 0x1_0000_0000_0000_0000)
            by (nonlinear_arith)
            requires
                0 <= i < 0x1_0000_0000,
                -0x1_0000_0000 <= span <= 0x1_0000_0000,
        ;
    }
    let x_num: i128 = x_start as i128 * x_den + i as i128 * span;
    let square: i128 = x_num * x_num;
    let cross: i128 = x_num * x_den;
    let unit: i128 = x_den * x_den;
    let y_num: i128 = COEFF_A_NUM * square + COEFF_B_NUM * cross + COEFF_C_NUM * unit;
    let y_den: i128 = COEFF_DEN * unit;
    proof {
        assert(0 < x_den * x_den) by (nonlinear_arith)
            requires
                1 <= x_den,
        ;
    }
    Point { x: Fraction { num: x_num, den: x_den }, y: Fraction { num: y_num, den: y_den } }
}

/// The curve of `count` samples over `[x_start, x_end]`.
pub fn sample_curve(count: u32, x_start: i32, x_end: i32) -> (points: Vec<Point>)
    requires
        count >= 2,
    ensures
        is_curve(points@, count as int, x_start as int, x_end as int),
{
    let steps: u32 = count - 1;
    let mut points: Vec<Point> = Vec::new();
    let mut i: u32 = 0;
    while i < count
        invariant
            count >= 2,
            steps == count - 1,
            i <= count,
            points@.len() == i,
            forall|k: int|
                0 <= k < i ==> is_sample(
                    #[trigger] points@[k],
                    k,
                    count as int,
                    x_start as int,
                    x_end as int,
                ),
        decreases count - i,
    {
        let p = sample_point(i, steps, x_start, x_end);
        points.push(p);
        i = i + 1;
    }
    points
}

/// The points of the curve over the horizontal extent of `rect`: `count`
/// samples, the first at `rect.x_start`, the last at `rect.x_end`, evenly
/// spaced in between, each on the quadratic. A request for fewer than two
/// points is refused.
pub fn generate_polynomial_curve_points(count: u32, rect: Rect) -> (r: Result<
    Vec<Point>,
    CurveError,
>)
    ensures
        match r {
            Ok(points) => {
                &&& count >= 2
                &&& is_curve(points@, count as int, rect.x_start as int, rect.x_end as int)
                &&& points@.len() == count
                &&& spans_extent(points@, rect.x_start as int, rect.x_end as int)
                &&& rect.x_start <= rect.x_end ==> abscissae_ordered(points@)
                &&& all_on_quadratic(points@)
            },
            Err(e) => count < 2 && e == CurveError::TooFewPoints,
        },
{
    if count < 2 {
        return Err(CurveError::TooFewPoints);
    }
    let points = sample_curve(count, rect.x_start, rect.x_end);
    proof {
        let (n, x_start, x_end) = (count as int, rect.x_start as int, rect.x_end as int);
        lemma_curve_spans_extent(points@, n, x_start, x_end);
        lemma_curve_on_quadratic(points@, n, x_start, x_end);
        if x_start <= x_end {
            lemma_curve_abscissae_ordered(points@, n, x_start, x_end);
        }
    }
    Ok(points)
}

} // verus!
