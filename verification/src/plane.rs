use vstd::prelude::*;

verus! {

/// The arithmetic of the plane on which the ink floats.
///
/// The library moves points about, and leaves it to the caller how points and
/// numbers are held and how exactly they are added, multiplied or rooted. An
/// implementation hands each operation on to the arithmetic it stands for,
/// one call for one operation: over floating-point numbers, `plus` to the
/// sum of the machine, `sqrt` to its square root, and so on.
///
/// Nothing is taken for granted of an implementation: no operation here has
/// a contract, so the library knows of a result only which operation gave it,
/// and from which operands. Its own contracts say just that, step by step:
/// they hold of every implementation, rounding or exact, and promise of the
/// numbers themselves no more than the implementation does. The same
/// operands need not give the same result twice.
pub trait Plane {
    /// A point of the plane, or the way from one point to another.
    type Point: Copy;

    /// A number of the precision of a point's coordinates.
    type Scalar: Copy;

    /// A number of a higher precision, for radii and angles.
    type Wide: Copy;

    /// The angle of one full turn.
    fn full_turn() -> Self::Wide;

    /// The whole number `n`.
    fn count(n: usize) -> Self::Wide;

    /// The product `a * b`.
    fn wide_times(a: Self::Wide, b: Self::Wide) -> Self::Wide;

    /// The quotient `a / b`.
    fn wide_over(a: Self::Wide, b: Self::Wide) -> Self::Wide;

    /// The cosine of `angle`.
    fn cos(angle: Self::Wide) -> Self::Wide;

    /// The sine of `angle`.
    fn sin(angle: Self::Wide) -> Self::Wide;

    /// The number `a` at the precision of a coordinate.
    fn narrow(a: Self::Wide) -> Self::Scalar;

    /// The number one.
    fn one() -> Self::Scalar;

    /// The number one half.
    fn half() -> Self::Scalar;

    /// The sum `a + b`.
    fn plus(a: Self::Scalar, b: Self::Scalar) -> Self::Scalar;

    /// The product `a * b`.
    fn times(a: Self::Scalar, b: Self::Scalar) -> Self::Scalar;

    /// The quotient `a / b`.
    fn over(a: Self::Scalar, b: Self::Scalar) -> Self::Scalar;

    /// The square root of `a`.
    fn sqrt(a: Self::Scalar) -> Self::Scalar;

    /// The power `base ^ exponent`.
    fn powf(base: Self::Scalar, exponent: Self::Scalar) -> Self::Scalar;

    /// The size of `a` without its sign.
    fn abs(a: Self::Scalar) -> Self::Scalar;

    /// Whether `a` is zero.
    fn is_zero(a: Self::Scalar) -> bool;

    /// Whether `a` is greater than zero.
    fn is_positive(a: Self::Scalar) -> bool;

    /// The point with the coordinates `x` and `y`.
    fn point(x: Self::Scalar, y: Self::Scalar) -> Self::Point;

    /// The point `a` moved by `b`: `a + b`.
    fn shift(a: Self::Point, b: Self::Point) -> Self::Point;

    /// The way to `a` from `b`: `a - b`.
    fn between(a: Self::Point, b: Self::Point) -> Self::Point;

    /// The way `v`, `factor` times as long: `v * factor`.
    fn scale(v: Self::Point, factor: Self::Scalar) -> Self::Point;

    /// The dot product of `a` and `b`.
    fn dot(a: Self::Point, b: Self::Point) -> Self::Scalar;

    /// The square of the length of `v`.
    fn length_squared(v: Self::Point) -> Self::Scalar;

    /// The way `v` turned by a quarter turn.
    fn perp(v: Self::Point) -> Self::Point;

    /// The way of length one that points where `v` points, or nothing where
    /// `v` has no length and so points nowhere.
    fn normalize(v: Self::Point) -> Option<Self::Point>;
}

} // verus!
