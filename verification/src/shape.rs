use vstd::prelude::*;
use crate::error::InkError;

verus! {

/// One filled triangle, as a renderer takes it: three corners and a colour.
#[derive(Debug, PartialEq)]
pub struct Triangle<P, C> {
    pub v1: P,
    pub v2: P,
    pub v3: P,
    pub color: C,
}

/// The index of the point that comes before point `i` on a closed outline of
/// `n` points: the last point comes before the first.
pub open spec fn before(i: int, n: int) -> int {
    if i == 0 {
        n - 1
    } else {
        i - 1
    }
}

/// The fan of triangles that fills the closed outline `points` around `pivot`:
/// one triangle for each point, spanned by the pivot, the point before it and
/// the point itself.
pub open spec fn fan<P, C>(points: Seq<P>, pivot: P, color: C) -> Seq<Triangle<P, C>> {
    Seq::new(
        points.len(),
        |i: int| Triangle { v1: pivot, v2: points[before(i, points.len() as int)], v3: points[i], color },
    )
}

/// What drawing the outline `points` around `pivot` gives: its fan, or a
/// refusal where there are too few points for a single triangle.
pub open spec fn shape_of<P, C>(points: Seq<P>, pivot: P, color: C) -> Result<
    Seq<Triangle<P, C>>,
    InkError,
> {
    if points.len() < 3 {
        Err(InkError::TooFewPoints)
    } else {
        Ok(fan(points, pivot, color))
    }
}

/// Turns a closed outline into the triangles that fill it, in the order of
/// its points. An outline of fewer than three points is refused and gives no
/// triangle.
pub fn draw_shape<P: Copy, C: Copy>(points: &Vec<P>, midpoint: P, color: C) -> (r: Result<
    Vec<Triangle<P, C>>,
    InkError,
>)
    ensures
        r is Ok <==> points@.len() >= 3,
        r matches Ok(triangles) ==> triangles@ == fan(points@, midpoint, color),
        r matches Err(e) ==> e == InkError::TooFewPoints,
{
    let n = points.len();
    if n < 3 {
        return Err(InkError::TooFewPoints);
    }
    let mut triangles: Vec<Triangle<P, C>> = Vec::with_capacity(n);
    let mut prev = points[n - 1];
    let mut i: usize = 0;
    while i < n
        invariant
            n == points@.len(),
            n >= 3,
            0 <= i <= n,
            triangles@.len() == i,
            prev == points@[before(i as int, n as int)],
            forall|k: int| 0 <= k < i ==> #[trigger] triangles@[k] == fan(points@, midpoint, color)[k],
        decreases n - i,
    {
        let point = points[i];
        triangles.push(Triangle { v1: midpoint, v2: prev, v3: point, color });
        prev = point;
        i += 1;
    }
    assert(triangles@ =~= fan(points@, midpoint, color));
    Ok(triangles)
}

} // verus!
