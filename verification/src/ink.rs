use vstd::prelude::*;
use crate::error::InkError;
use crate::plane::Plane;
use crate::shape::{draw_shape, fan, shape_of, Triangle};

verus! {

/// Number of perimeter points every ink drop is made with.
pub const NUM_POINTS: usize = 100;

/// What an ink drop is, to the contracts: its centre, its outline in order,
/// and its colour.
pub struct DropModel<P, C> {
    pub centre: P,
    pub points: Seq<P>,
    pub color: C,
}

/// What a tine line is, to the contracts.
pub struct LineModel<P, S> {
    /// A point on the line.
    pub point: P,
    /// The direction of the line, of length one.
    pub direction: P,
    /// How far a point on the line is moved.
    pub displacement: S,
    /// How quickly the movement falls off with the distance from the line.
    pub sharpness: S,
}

/// A blot of ink: a closed polygon around a centre.
///
/// A drop is made with `NUM_POINTS` points and keeps that many, in their
/// order, for as long as it lives. What changes it moves its points and
/// nothing else.
pub struct InkDrop<G: Plane, C> {
    centre: G::Point,
    perimeter_points: Vec<G::Point>,
    color: C,
}

/// The path of one tine of a comb that is dragged across the tray: a line,
/// the distance by which the ink on it is dragged along, and the sharpness
/// with which that distance falls off to both sides.
///
/// A line is made whole and never changes. Its direction has been brought to
/// length one, and its sharpness has been found greater than zero.
pub struct TineLine<G: Plane> {
    point: G::Point,
    direction: G::Point,
    displacement: G::Scalar,
    sharpness: G::Scalar,
}

impl<G: Plane, C> View for InkDrop<G, C> {
    type V = DropModel<G::Point, C>;

    closed spec fn view(&self) -> DropModel<G::Point, C> {
        DropModel { centre: self.centre, points: self.perimeter_points@, color: self.color }
    }
}

impl<G: Plane> View for TineLine<G> {
    type V = LineModel<G::Point, G::Scalar>;

    closed spec fn view(&self) -> LineModel<G::Point, G::Scalar> {
        LineModel {
            point: self.point,
            direction: self.direction,
            displacement: self.displacement,
            sharpness: self.sharpness,
        }
    }
}

/// The triangles that drawing a drop gives: the fan of its outline around its
/// centre, or none where the outline has too few points for one.
pub open spec fn outline<P, C>(drop: DropModel<P, C>) -> Seq<Triangle<P, C>> {
    match shape_of(drop.points, drop.centre, drop.color) {
        Ok(triangles) => triangles,
        Err(_) => Seq::empty(),
    }
}

/// `step` is the angle between neighbours among `n` points that are spaced
/// evenly round a circle: a full turn over `n`.
pub open spec fn is_angle_step<G: Plane>(n: usize, step: G::Wide) -> bool {
    exists|turn: G::Wide, parts: G::Wide|
        {
            &&& call_ensures(G::full_turn, (), turn)
            &&& call_ensures(G::count, (n,), parts)
            &&& call_ensures(G::wide_over, (turn, parts), step)
        }
}

/// `to` is the point at the angle `i * step` on the circle of `radius` round
/// `centre`: `(radius * cos(i * step), radius * sin(i * step)) + centre`.
pub open spec fn is_ring_point<G: Plane>(
    centre: G::Point,
    radius: G::Wide,
    step: G::Wide,
    i: usize,
    to: G::Point,
) -> bool {
    exists|
        k: G::Wide,
        angle: G::Wide,
        c: G::Wide,
        x: G::Wide,
        s: G::Wide,
        y: G::Wide,
        nx: G::Scalar,
        ny: G::Scalar,
        pos: G::Point,
    |
        {
            &&& call_ensures(G::count, (i,), k)
            &&& call_ensures(G::wide_times, (k, step), angle)
            &&& call_ensures(G::cos, (angle,), c)
            &&& call_ensures(G::wide_times, (radius, c), x)
            &&& call_ensures(G::sin, (angle,), s)
            &&& call_ensures(G::wide_times, (radius, s), y)
            &&& call_ensures(G::narrow, (x,), nx)
            &&& call_ensures(G::narrow, (y,), ny)
            &&& call_ensures(G::point, (nx, ny), pos)
            &&& call_ensures(G::shift, (pos, centre), to)
        }
}

/// `drop` is a fresh drop of the given colour round `centre`: `NUM_POINTS`
/// points on the circle of `radius`, the first at angle zero and each next
/// one a `NUM_POINTS`-th of a full turn further.
pub open spec fn ringed<G: Plane, C>(
    drop: DropModel<G::Point, C>,
    centre: G::Point,
    radius: G::Wide,
    color: C,
) -> bool {
    &&& drop.centre == centre
    &&& drop.color == color
    &&& drop.points.len() == NUM_POINTS
    &&& exists|step: G::Wide|
        {
            &&& #[trigger] is_angle_step::<G>(NUM_POINTS, step)
            &&& forall|i: int|
                0 <= i < NUM_POINTS ==> is_ring_point::<G>(
                    centre,
                    radius,
                    step,
                    i as usize,
                    #[trigger] drop.points[i],
                )
        }
}

/// `to` is `point` pushed away from `centre` by ink that covers a circle of
/// the squared radius `radius_squared` there:
/// `centre + v * sqrt(1 + radius_squared / |v|^2)` with `v = point - centre`,
/// where `|v|^2` was found not to be zero.
pub open spec fn is_pushed<G: Plane>(
    point: G::Point,
    centre: G::Point,
    radius_squared: G::Wide,
    to: G::Point,
) -> bool {
    exists|
        relative: G::Point,
        length_sq: G::Scalar,
        r2: G::Scalar,
        ratio: G::Scalar,
        unit: G::Scalar,
        sum: G::Scalar,
        multiplier: G::Scalar,
        offset: G::Point,
    |
        {
            &&& call_ensures(G::between, (point, centre), relative)
            &&& call_ensures(G::length_squared, (relative,), length_sq)
            &&& call_ensures(G::is_zero, (length_sq,), false)
            &&& call_ensures(G::narrow, (radius_squared,), r2)
            &&& call_ensures(G::over, (r2, length_sq), ratio)
            &&& call_ensures(G::one, (), unit)
            &&& call_ensures(G::plus, (unit, ratio), sum)
            &&& call_ensures(G::sqrt, (sum,), multiplier)
            &&& call_ensures(G::scale, (relative, multiplier), offset)
            &&& call_ensures(G::shift, (centre, offset), to)
        }
}

/// `point` lies on `centre`: the squared length of `point - centre` was found
/// to be zero, so there is no direction in which to push it.
pub open spec fn is_on_centre<G: Plane>(point: G::Point, centre: G::Point) -> bool {
    exists|relative: G::Point, length_sq: G::Scalar|
        {
            &&& call_ensures(G::between, (point, centre), relative)
            &&& call_ensures(G::length_squared, (relative,), length_sq)
            &&& call_ensures(G::is_zero, (length_sq,), true)
        }
}

/// `after` is `before` pushed aside by ink dropped at `centre` over a circle
/// of `radius`: the same centre, colour and number of points, and at each
/// place the point that stood there, pushed away from `centre`.
pub open spec fn marbled<G: Plane, C>(
    before: DropModel<G::Point, C>,
    after: DropModel<G::Point, C>,
    centre: G::Point,
    radius: G::Wide,
) -> bool {
    &&& after.centre == before.centre
    &&& after.color == before.color
    &&& after.points.len() == before.points.len()
    &&& exists|radius_squared: G::Wide|
        {
            &&& #[trigger] call_ensures(G::wide_times, (radius, radius), radius_squared)
            &&& forall|j: int|
                0 <= j < before.points.len() ==> is_pushed::<G>(
                    #[trigger] before.points[j],
                    centre,
                    radius_squared,
                    after.points[j],
                )
        }
}

/// Some point of `drop` lies on `centre`.
pub open spec fn touches<G: Plane, C>(drop: DropModel<G::Point, C>, centre: G::Point) -> bool {
    exists|j: int| 0 <= j < drop.points.len() && is_on_centre::<G>(#[trigger] drop.points[j], centre)
}

/// `unit` is some way brought to length one.
pub open spec fn is_unit<G: Plane>(unit: G::Point) -> bool {
    exists|way: G::Point| call_ensures(G::normalize, (way,), Some(unit))
}

/// `line` is the tine line through `at` along `direction`: its direction is
/// `direction` brought to length one, and its sharpness was found greater
/// than zero.
pub open spec fn is_line<G: Plane>(
    line: LineModel<G::Point, G::Scalar>,
    at: G::Point,
    direction: G::Point,
    displacement: G::Scalar,
    sharpness: G::Scalar,
) -> bool {
    &&& line.point == at
    &&& line.displacement == displacement
    &&& line.sharpness == sharpness
    &&& call_ensures(G::is_positive, (sharpness,), true)
    &&& call_ensures(G::normalize, (direction,), Some(line.direction))
}

/// There is no tine line along `direction` with `sharpness`: the sharpness
/// was found not to be greater than zero, or the direction to have no length.
pub open spec fn is_no_line<G: Plane>(direction: G::Point, sharpness: G::Scalar) -> bool {
    ||| call_ensures(G::is_positive, (sharpness,), false)
    ||| call_ensures(G::normalize, (direction,), None::<G::Point>)
}

/// `u` is the part of its pull that a tine of the given sharpness keeps at
/// one unit of distance: one half to the power of one over the sharpness.
pub open spec fn is_decay<G: Plane>(sharpness: G::Scalar, u: G::Scalar) -> bool {
    exists|base: G::Scalar, unit: G::Scalar, exponent: G::Scalar|
        {
            &&& call_ensures(G::half, (), base)
            &&& call_ensures(G::one, (), unit)
            &&& call_ensures(G::over, (unit, sharpness), exponent)
            &&& call_ensures(G::powf, (base, exponent), u)
        }
}

/// `to` is `point` dragged along `line`:
/// `point + u^d * displacement * direction`, where `d` is the distance of
/// `point` from the line, `|(point - line.point) . perp|`, and `u` is the
/// decay of the line.
pub open spec fn is_dragged<G: Plane>(
    line: LineModel<G::Point, G::Scalar>,
    point: G::Point,
    to: G::Point,
) -> bool {
    exists|
        relative: G::Point,
        normal: G::Point,
        along: G::Scalar,
        d: G::Scalar,
        u: G::Scalar,
        pull: G::Scalar,
        reach: G::Scalar,
        modifier: G::Point,
    |
        {
            &&& call_ensures(G::between, (point, line.point), relative)
            &&& call_ensures(G::perp, (line.direction,), normal)
            &&& call_ensures(G::dot, (relative, normal), along)
            &&& call_ensures(G::abs, (along,), d)
            &&& is_decay::<G>(line.sharpness, u)
            &&& call_ensures(G::powf, (u, d), pull)
            &&& call_ensures(G::times, (pull, line.displacement), reach)
            &&& call_ensures(G::scale, (line.direction, reach), modifier)
            &&& call_ensures(G::shift, (point, modifier), to)
        }
}

/// `after` is `before` dragged along `line`: the same centre, colour and
/// number of points, and at each place the point that stood there, dragged
/// along the line.
pub open spec fn tined<G: Plane, C>(
    before: DropModel<G::Point, C>,
    after: DropModel<G::Point, C>,
    line: LineModel<G::Point, G::Scalar>,
) -> bool {
    &&& after.centre == before.centre
    &&& after.color == before.color
    &&& after.points.len() == before.points.len()
    &&& forall|j: int|
        0 <= j < before.points.len() ==> is_dragged::<G>(
            line,
            #[trigger] before.points[j],
            after.points[j],
        )
}

/// The angle between neighbours among the `NUM_POINTS` points of a drop.
pub fn angle_step<G: Plane>() -> (step: G::Wide)
    ensures
        is_angle_step::<G>(NUM_POINTS, step),
{
    let turn = G::full_turn();
    let parts = G::count(NUM_POINTS);
    G::wide_over(turn, parts)
}

/// The `i`-th point of a drop of `radius` round `centre`, whose points lie
/// `step` apart by angle.
pub fn ring_point<G: Plane>(centre: G::Point, radius: G::Wide, step: G::Wide, i: usize) -> (to:
    G::Point)
    ensures
        is_ring_point::<G>(centre, radius, step, i, to),
{
    let angle = G::wide_times(G::count(i), step);
    let x = G::wide_times(radius, G::cos(angle));
    let y = G::wide_times(radius, G::sin(angle));
    let pos = G::point(G::narrow(x), G::narrow(y));
    G::shift(pos, centre)
}

/// Where new ink at `centre`, over a circle of the squared radius
/// `radius_squared`, pushes `point`; or nothing, where `point` lies on
/// `centre` and there is no direction in which to push it.
pub fn marble_point<G: Plane>(point: G::Point, centre: G::Point, radius_squared: G::Wide) -> (to:
    Option<G::Point>)
    ensures
        match to {
            Some(q) => is_pushed::<G>(point, centre, radius_squared, q),
            None => is_on_centre::<G>(point, centre),
        },
{
    let relative = G::between(point, centre);
    let length_sq = G::length_squared(relative);
    if G::is_zero(length_sq) {
        return None;
    }
    let ratio = G::over(G::narrow(radius_squared), length_sq);
    let multiplier = G::sqrt(G::plus(G::one(), ratio));
    Some(G::shift(centre, G::scale(relative, multiplier)))
}

impl<G: Plane, C> InkDrop<G, C> {
    #[verifier::type_invariant]
    spec fn well_formed(self) -> bool {
        self.perimeter_points@.len() == NUM_POINTS
    }
}

impl<G: Plane, C: Copy> InkDrop<G, C> {
    /// A drop of the given colour round `centre`: `NUM_POINTS` points on the
    /// circle of `radius`, in the order of their angles.
    pub fn new(centre: G::Point, radius: G::Wide, color: C) -> (drop: Self)
        ensures
            ringed::<G, C>(drop@, centre, radius, color),
    {
        let mut perimeter_points: Vec<G::Point> = Vec::with_capacity(NUM_POINTS);
        let step = angle_step::<G>();
        let mut i: usize = 0;
        while i < NUM_POINTS
            invariant
                0 <= i <= NUM_POINTS,
                perimeter_points@.len() == i,
                forall|k: int|
                    0 <= k < i ==> is_ring_point::<G>(
                        centre,
                        radius,
                        step,
                        k as usize,
                        #[trigger] perimeter_points@[k],
                    ),
            decreases NUM_POINTS - i,
        {
            let pos = ring_point::<G>(centre, radius, step, i);
            perimeter_points.push(pos);
            i += 1;
        }
        InkDrop { centre, perimeter_points, color }
    }

    /// The pivot of the drop.
    pub fn centre(&self) -> (p: G::Point)
        ensures
            p == self@.centre,
    {
        self.centre
    }

    /// The colour the drop was made with.
    pub fn color(&self) -> (c: C)
        ensures
            c == self@.color,
    {
        self.color
    }

    /// The outline of the drop, in the order in which it was made.
    pub fn perimeter_points(&self) -> (points: &Vec<G::Point>)
        ensures
            points@ == self@.points,
            points@.len() == NUM_POINTS,
    {
        proof {
            use_type_invariant(self);
        }
        &self.perimeter_points
    }

    /// This drop as `be_marbled_by` would leave it, or the failure that it
    /// would return.
    pub(crate) fn marbled_by(&self, other: &Self, other_radius: G::Wide) -> (r: Result<Self, InkError>)
        ensures
            match r {
                Ok(pushed) => marbled::<G, C>(self@, pushed@, other@.centre, other_radius),
                Err(e) => e == InkError::Degenerate && touches::<G, C>(self@, other@.centre),
            },
    {
        proof {
            use_type_invariant(self);
        }
        let radius_squared = G::wide_times(other_radius, other_radius);
        let n = self.perimeter_points.len();
        let mut moved: Vec<G::Point> = Vec::with_capacity(n);
        let mut j: usize = 0;
        while j < n
            invariant
                n == self.perimeter_points@.len(),
                0 <= j <= n,
                moved@.len() == j,
                forall|k: int|
                    0 <= k < j ==> is_pushed::<G>(
                        #[trigger] self.perimeter_points@[k],
                        other.centre,
                        radius_squared,
                        moved@[k],
                    ),
            decreases n - j,
        {
            match marble_point::<G>(self.perimeter_points[j], other.centre, radius_squared) {
                Some(q) => {
                    moved.push(q);
                },
                None => {
                    assert(is_on_centre::<G>(self@.points[j as int], other@.centre));
                    return Err(InkError::Degenerate);
                },
            }
            j += 1;
        }
        Ok(InkDrop { centre: self.centre, perimeter_points: moved, color: self.color })
    }

    /// Pushes this drop aside for ink that is dropped at the centre of
    /// `other`, over a circle of the radius `other_radius`.
    ///
    /// Every point `p` of the outline moves to
    /// `c + v * sqrt(1 + other_radius^2 / |v|^2)`, where `c` is the centre of
    /// `other` and `v = p - c`: straight away from `c`. A point that lies on
    /// `c` cannot be pushed in any direction: the input is then degenerate,
    /// the drop is left as it was, and the failure is returned. `other` is
    /// only read.
    pub fn be_marbled_by(&mut self, other: &Self, other_radius: G::Wide) -> (r: Result<
        (),
        InkError,
    >)
        ensures
            match r {
                Ok(_) => marbled::<G, C>(old(self)@, final(self)@, other@.centre, other_radius),
                Err(e) => {
                    &&& e == InkError::Degenerate
                    &&& *final(self) == *old(self)
                    &&& touches::<G, C>(old(self)@, other@.centre)
                },
            },
    {
        match self.marbled_by(other, other_radius) {
            Ok(pushed) => {
                *self = pushed;
                Ok(())
            },
            Err(e) => Err(e),
        }
    }

    /// Drags this drop along the path of a tine.
    ///
    /// Every point `p` of the outline moves to
    /// `p + u^d * displacement * direction`, where `d` is the distance of `p`
    /// from the line and `u` is the decay of the line: along the line, and
    /// the less the further from it `p` lies.
    pub fn be_tine_lined(&mut self, tine_line: &TineLine<G>)
        ensures
            tined::<G, C>(old(self)@, final(self)@, tine_line@),
    {
        proof {
            use_type_invariant(&*self);
        }
        let n = self.perimeter_points.len();
        let mut moved: Vec<G::Point> = Vec::with_capacity(n);
        let mut j: usize = 0;
        while j < n
            invariant
                n == self.perimeter_points@.len(),
                0 <= j <= n,
                moved@.len() == j,
                forall|k: int|
                    0 <= k < j ==> is_dragged::<G>(
                        tine_line@,
                        #[trigger] self.perimeter_points@[k],
                        moved@[k],
                    ),
            decreases n - j,
        {
            let q = tine_line.drag(self.perimeter_points[j]);
            moved.push(q);
            j += 1;
        }
        self.perimeter_points = moved;
    }

    /// Adding points where the outline has been stretched thin is not
    /// supported: the call says so and leaves the drop as it was.
    pub fn scale_points(&mut self) -> (r: Result<(), InkError>)
        ensures
            r == Err::<(), InkError>(InkError::Unsupported),
            *final(self) == *old(self),
    {
        Err(InkError::Unsupported)
    }

    /// The triangles that fill the drop: the fan of its outline around its
    /// centre, in its colour. An outline of fewer than three points would be
    /// refused; a drop always has points enough.
    pub fn draw(&self) -> (r: Result<Vec<Triangle<G::Point, C>>, InkError>)
        ensures
            self@.points.len() == NUM_POINTS,
            r is Ok <==> self@.points.len() >= 3,
            r matches Ok(triangles) ==> triangles@ == fan(self@.points, self@.centre, self@.color),
            r matches Err(e) ==> e == InkError::TooFewPoints,
    {
        proof {
            use_type_invariant(self);
        }
        draw_shape(&self.perimeter_points, self.centre, self.color)
    }
}

impl<G: Plane> TineLine<G> {
    #[verifier::type_invariant]
    spec fn well_formed(self) -> bool {
        &&& is_unit::<G>(self.direction)
        &&& call_ensures(G::is_positive, (self.sharpness,), true)
    }

    /// The tine line through `at` that runs along `direction`.
    ///
    /// The direction is brought to length one. A direction of no length
    /// cannot be, and a sharpness that is not greater than zero makes no
    /// tine: the input is then degenerate and no line is made.
    pub fn new(
        at: G::Point,
        direction: G::Point,
        displacement: G::Scalar,
        sharpness: G::Scalar,
    ) -> (r: Result<Self, InkError>)
        ensures
            match r {
                Ok(line) => is_line::<G>(line@, at, direction, displacement, sharpness),
                Err(e) => e == InkError::Degenerate && is_no_line::<G>(direction, sharpness),
            },
    {
        if !G::is_positive(sharpness) {
            return Err(InkError::Degenerate);
        }
        match G::normalize(direction) {
            Some(unit) => Ok(TineLine { point: at, direction: unit, displacement, sharpness }),
            None => Err(InkError::Degenerate),
        }
    }

    /// A point on the line.
    pub fn point(&self) -> (p: G::Point)
        ensures
            p == self@.point,
    {
        self.point
    }

    /// The direction of the line, of length one.
    pub fn direction(&self) -> (d: G::Point)
        ensures
            d == self@.direction,
            is_unit::<G>(d),
    {
        proof {
            use_type_invariant(self);
        }
        self.direction
    }

    /// How far a point on the line is moved.
    pub fn displacement(&self) -> (z: G::Scalar)
        ensures
            z == self@.displacement,
    {
        self.displacement
    }

    /// How quickly the movement falls off with the distance from the line:
    /// a number that was found greater than zero.
    pub fn sharpness(&self) -> (c: G::Scalar)
        ensures
            c == self@.sharpness,
            call_ensures(G::is_positive, (c,), true),
    {
        proof {
            use_type_invariant(self);
        }
        self.sharpness
    }

    /// The direction across the line: its direction turned by a quarter turn.
    pub fn perp(&self) -> (normal: G::Point)
        ensures
            call_ensures(G::perp, (self@.direction,), normal),
    {
        G::perp(self.direction)
    }

    /// The decay of the line: the part of its pull that is left at one unit
    /// of distance, one half to the power of one over the sharpness.
    pub fn u(&self) -> (u: G::Scalar)
        ensures
            is_decay::<G>(self@.sharpness, u),
    {
        let base = G::half();
        let exponent = G::over(G::one(), self.sharpness);
        G::powf(base, exponent)
    }

    /// Where the tine drags `point`.
    pub fn drag(&self, point: G::Point) -> (to: G::Point)
        ensures
            is_dragged::<G>(self@, point, to),
    {
        let relative = G::between(point, self.point);
        let d = G::abs(G::dot(relative, self.perp()));
        let reach = G::times(G::powf(self.u(), d), self.displacement);
        let modifier = G::scale(self.direction, reach);
        G::shift(point, modifier)
    }
}

} // verus!
