use vstd::prelude::*;
use crate::error::InkError;
use crate::ink::{
    is_line, is_no_line, marbled, outline, ringed, tined, touches, DropModel, InkDrop, LineModel,
    TineLine, NUM_POINTS,
};
use crate::plane::Plane;
use crate::settings::Settings;
use crate::shape::Triangle;
use crate::ui::UiEvent;

verus! {

/// A comb that has been set down on the tray and not yet lifted.
pub struct TineDrag<P> {
    /// Where it was set down.
    pub start: P,
}

/// What a tray is, to the contracts: its drops, oldest first, and the point
/// where a comb was set down, if one is down.
pub struct TrayModel<P, C> {
    pub drops: Seq<DropModel<P, C>>,
    pub drag: Option<P>,
}

/// The tray on which the ink floats. It owns the drops and is the only one
/// to change them: a new drop pushes all earlier ones aside, a comb drags
/// all of them along, and clearing the tray is the only way a drop leaves.
pub struct Tray<G: Plane, C> {
    droplets: Vec<InkDrop<G, C>>,
    tine_drag: Option<TineDrag<G::Point>>,
}

/// The models of a row of drops, in the same order.
pub open spec fn models<G: Plane, C>(drops: Seq<InkDrop<G, C>>) -> Seq<DropModel<G::Point, C>> {
    Seq::new(drops.len(), |i: int| drops[i]@)
}

impl<G: Plane, C> View for Tray<G, C> {
    type V = TrayModel<G::Point, C>;

    closed spec fn view(&self) -> TrayModel<G::Point, C> {
        TrayModel {
            drops: models(self.droplets@),
            drag: match self.tine_drag {
                Some(drag) => Some(drag.start),
                None => None,
            },
        }
    }
}

/// `after` holds the drops of `before`, each in its place and each pushed
/// aside by ink dropped at `centre` over a circle of `radius`.
pub open spec fn all_marbled<G: Plane, C>(
    before: Seq<DropModel<G::Point, C>>,
    after: Seq<DropModel<G::Point, C>>,
    centre: G::Point,
    radius: G::Wide,
) -> bool {
    &&& after.len() == before.len()
    &&& forall|i: int|
        0 <= i < before.len() ==> marbled::<G, C>(#[trigger] before[i], after[i], centre, radius)
}

/// Some point of some drop lies on `centre`.
pub open spec fn any_touches<G: Plane, C>(drops: Seq<DropModel<G::Point, C>>, centre: G::Point) -> bool {
    exists|i: int| 0 <= i < drops.len() && touches::<G, C>(#[trigger] drops[i], centre)
}

/// `after` holds the drops of `before`, each in its place and each dragged
/// along `line`.
pub open spec fn all_tined<G: Plane, C>(
    before: Seq<DropModel<G::Point, C>>,
    after: Seq<DropModel<G::Point, C>>,
    line: LineModel<G::Point, G::Scalar>,
) -> bool {
    &&& after.len() == before.len()
    &&& forall|i: int| 0 <= i < before.len() ==> tined::<G, C>(#[trigger] before[i], after[i], line)
}

/// `line` is the path of a comb that went down at `start` and came up at
/// `end` under `settings`: the tine line through `start` along `end - start`,
/// with the displacement and the sharpness that are set.
pub open spec fn is_path<G: Plane>(
    line: LineModel<G::Point, G::Scalar>,
    start: G::Point,
    end: G::Point,
    settings: Settings<G>,
) -> bool {
    exists|way: G::Point|
        {
            &&& #[trigger] call_ensures(G::between, (end, start), way)
            &&& is_line::<G>(
                line,
                start,
                way,
                settings.tine_displacement,
                settings.tine_sharpness,
            )
        }
}

/// A comb that went down at `start` and came up at `end` under `settings` has
/// no path: `end - start` has no length, or the sharpness that is set is not
/// greater than zero.
pub open spec fn is_no_path<G: Plane>(start: G::Point, end: G::Point, settings: Settings<G>) -> bool {
    exists|way: G::Point|
        {
            &&& #[trigger] call_ensures(G::between, (end, start), way)
            &&& is_no_line::<G>(way, settings.tine_sharpness)
        }
}

/// Every triangle that drawing the drops gives, drop after drop.
pub open spec fn scene<P, C>(drops: Seq<DropModel<P, C>>) -> Seq<Triangle<P, C>>
    decreases drops.len(),
{
    if drops.len() == 0 {
        Seq::empty()
    } else {
        scene(drops.drop_last()) + outline(drops.last())
    }
}

/// A tray without drops draws nothing.
pub proof fn law_empty_tray_draws_nothing<P, C>(tray: TrayModel<P, C>)
    requires
        tray.drops.len() == 0,
    ensures
        scene(tray.drops) == Seq::<Triangle<P, C>>::empty(),
{
}

/// Drops of `NUM_POINTS` points each draw `NUM_POINTS` triangles each.
pub proof fn law_scene_len<P, C>(drops: Seq<DropModel<P, C>>)
    requires
        forall|i: int| 0 <= i < drops.len() ==> (#[trigger] drops[i]).points.len() == NUM_POINTS,
    ensures
        scene(drops).len() == NUM_POINTS * drops.len(),
    decreases drops.len(),
{
    if drops.len() > 0 {
        law_scene_len(drops.drop_last());
    }
}

impl<G: Plane, C: Copy> Tray<G, C> {
    /// An empty tray with no comb on it.
    pub fn new() -> (tray: Self)
        ensures
            tray@.drops.len() == 0,
            tray@.drag is None,
    {
        Tray { droplets: Vec::new(), tine_drag: None }
    }

    /// The drops on the tray, oldest first.
    pub fn droplets(&self) -> (drops: &Vec<InkDrop<G, C>>)
        ensures
            models(drops@) == self@.drops,
    {
        &self.droplets
    }

    /// Where the comb was set down, if one is down.
    pub fn tine_drag(&self) -> (drag: &Option<TineDrag<G::Point>>)
        ensures
            match *drag {
                Some(d) => self@.drag == Some(d.start),
                None => self@.drag is None,
            },
    {
        &self.tine_drag
    }

    /// Drops new ink on the tray.
    ///
    /// Every drop that is on the tray is pushed aside by the new one, as
    /// `InkDrop::be_marbled_by` does it with `radius`, and then the new drop
    /// is put behind them as it came: it is never pushed aside by itself.
    /// Where a point of some drop lies on the centre of the new one, the
    /// input is degenerate and the tray is left as it was.
    pub fn add_drop(&mut self, new_drop: InkDrop<G, C>, radius: G::Wide) -> (r: Result<
        (),
        InkError,
    >)
        ensures
            final(self)@.drag == old(self)@.drag,
            match r {
                Ok(_) => {
                    &&& final(self)@.drops.len() == old(self)@.drops.len() + 1
                    &&& final(self)@.drops.last() == new_drop@
                    &&& all_marbled::<G, C>(
                        old(self)@.drops,
                        final(self)@.drops.drop_last(),
                        new_drop@.centre,
                        radius,
                    )
                },
                Err(e) => {
                    &&& e == InkError::Degenerate
                    &&& final(self)@ == old(self)@
                    &&& any_touches::<G, C>(old(self)@.drops, new_drop@.centre)
                },
            },
    {
        let n = self.droplets.len();
        let mut pushed: Vec<InkDrop<G, C>> = Vec::new();
        let mut i: usize = 0;
        while i < n
            invariant
                n == self.droplets@.len(),
                0 <= i <= n,
                pushed@.len() == i,
                *self == *old(self),
                forall|k: int|
                    0 <= k < i ==> marbled::<G, C>(
                        #[trigger] self@.drops[k],
                        pushed@[k]@,
                        new_drop@.centre,
                        radius,
                    ),
            decreases n - i,
        {
            assert(self@.drops[i as int] == self.droplets@[i as int]@);
            match self.droplets[i].marbled_by(&new_drop, radius) {
                Ok(drop) => {
                    pushed.push(drop);
                },
                Err(e) => {
                    return Err(e);
                },
            }
            i += 1;
        }
        let ghost before = models(pushed@);
        pushed.push(new_drop);
        self.droplets = pushed;
        assert(self@.drops.drop_last() =~= before);
        Ok(())
    }

    /// Drags the path of a tine through every drop on the tray, as
    /// `InkDrop::be_tine_lined` does it.
    pub fn comb(&mut self, tine_line: &TineLine<G>)
        ensures
            final(self)@.drag == old(self)@.drag,
            all_tined::<G, C>(old(self)@.drops, final(self)@.drops, tine_line@),
    {
        let n = self.droplets.len();
        let mut i: usize = 0;
        while i < n
            invariant
                n == self.droplets@.len(),
                n == old(self).droplets@.len(),
                0 <= i <= n,
                self.tine_drag == old(self).tine_drag,
                forall|k: int|
                    0 <= k < i ==> tined::<G, C>(
                        #[trigger] old(self).droplets@[k]@,
                        self.droplets@[k]@,
                        tine_line@,
                    ),
                forall|k: int| i <= k < n ==> self.droplets@[k] == old(self).droplets@[k],
            decreases n - i,
        {
            let drop = &mut self.droplets[i];
            drop.be_tine_lined(tine_line);
            i += 1;
        }
    }

    /// The pointer's first button went down at `pos`.
    ///
    /// While the pointer is free to act on the tray this drops ink there: a
    /// fresh drop of the given radius and colour, which pushes aside all that
    /// is on the tray and is put behind it. The answer is then `true`. While
    /// the pointer is not free, nothing happens and the answer is `false`.
    pub fn on_left_press(
        &mut self,
        settings: &Settings<G>,
        pos: G::Point,
        radius: G::Wide,
        color: C,
    ) -> (r: Result<bool, InkError>)
        ensures
            final(self)@.drag == old(self)@.drag,
            !settings.mouse_enabled ==> r == Ok::<bool, InkError>(false) && final(self)@ == old(
                self,
            )@,
            settings.mouse_enabled ==> match r {
                Ok(added) => {
                    &&& added
                    &&& final(self)@.drops.len() == old(self)@.drops.len() + 1
                    &&& ringed::<G, C>(final(self)@.drops.last(), pos, radius, color)
                    &&& all_marbled::<G, C>(
                        old(self)@.drops,
                        final(self)@.drops.drop_last(),
                        pos,
                        radius,
                    )
                },
                Err(e) => {
                    &&& e == InkError::Degenerate
                    &&& final(self)@ == old(self)@
                    &&& any_touches::<G, C>(old(self)@.drops, pos)
                },
            },
    {
        if !settings.mouse_enabled {
            return Ok(false);
        }
        let new_drop = InkDrop::new(pos, radius, color);
        match self.add_drop(new_drop, radius) {
            Ok(_) => Ok(true),
            Err(e) => Err(e),
        }
    }

    /// The pointer's second button went down at `pos`.
    ///
    /// While the pointer is free to act on the tray this sets a comb down
    /// there, in place of one that may be down already, and the answer is
    /// `true`. While it is not free, nothing happens and the answer is `false`.
    pub fn on_right_press(&mut self, settings: &Settings<G>, pos: G::Point) -> (started: bool)
        ensures
            started == settings.mouse_enabled,
            final(self)@.drops == old(self)@.drops,
            final(self)@.drag == if settings.mouse_enabled {
                Some(pos)
            } else {
                old(self)@.drag
            },
    {
        if settings.mouse_enabled {
            self.tine_drag = Some(TineDrag { start: pos });
            true
        } else {
            false
        }
    }

    /// The pointer's second button came up at `end`.
    ///
    /// While the pointer is free to act on the tray this lifts the comb. If
    /// one was down, at `start`, its path is the tine line through `start`
    /// along `end - start`, with the displacement and the sharpness of
    /// `settings`, and it is dragged through every drop on the tray; the
    /// answer is then `true`. A comb that comes up where it went down has no
    /// direction, and a sharpness that is not greater than zero makes no
    /// tine: the input is then degenerate and the drops are left as they
    /// were. With no comb down, or while the pointer is not free, nothing
    /// happens and the answer is `false`; a comb that is down then stays down.
    pub fn on_right_release(&mut self, settings: &Settings<G>, end: G::Point) -> (r: Result<
        bool,
        InkError,
    >)
        ensures
            match old(self)@.drag {
                Some(start) if settings.mouse_enabled => {
                    &&& final(self)@.drag is None
                    &&& match r {
                        Ok(combed) => {
                            &&& combed
                            &&& exists|line: LineModel<G::Point, G::Scalar>|
                                {
                                    &&& is_path::<G>(line, start, end, *settings)
                                    &&& #[trigger] all_tined::<G, C>(
                                        old(self)@.drops,
                                        final(self)@.drops,
                                        line,
                                    )
                                }
                        },
                        Err(e) => {
                            &&& e == InkError::Degenerate
                            &&& final(self)@.drops == old(self)@.drops
                            &&& is_no_path::<G>(start, end, *settings)
                        },
                    }
                },
                _ => {
                    &&& r == Ok::<bool, InkError>(false)
                    &&& final(self)@ == old(self)@
                },
            },
    {
        if !settings.mouse_enabled {
            return Ok(false);
        }
        let start = match self.tine_drag {
            Some(TineDrag { start }) => start,
            None => {
                return Ok(false);
            },
        };
        self.tine_drag = None;
        assert(self@.drops == old(self)@.drops);
        let way = G::between(end, start);
        match TineLine::<G>::new(start, way, settings.tine_displacement, settings.tine_sharpness) {
            Ok(tine_line) => {
                self.comb(&tine_line);
                Ok(true)
            },
            Err(e) => Err(e),
        }
    }

    /// Takes every drop off the tray. A comb that is down stays down.
    pub fn clear(&mut self)
        ensures
            final(self)@.drops == Seq::<DropModel<G::Point, C>>::empty(),
            final(self)@.drag == old(self)@.drag,
            scene(final(self)@.drops) == Seq::<Triangle<G::Point, C>>::empty(),
    {
        self.droplets.clear();
        assert(self@.drops =~= Seq::<DropModel<G::Point, C>>::empty());
    }

    /// Asks every drop, oldest first, to add points where its outline has
    /// been stretched thin. As no drop can, the tray is left as it was, and
    /// only an empty tray is scaled without complaint.
    pub fn scale(&mut self) -> (r: Result<(), InkError>)
        ensures
            final(self)@ == old(self)@,
            r == if old(self)@.drops.len() == 0 {
                Ok::<(), InkError>(())
            } else {
                Err::<(), InkError>(InkError::Unsupported)
            },
    {
        let n = self.droplets.len();
        let mut outcome: Result<(), InkError> = Ok(());
        let mut i: usize = 0;
        while i < n
            invariant
                n == self.droplets@.len(),
                0 <= i <= n,
                self.droplets@ == old(self).droplets@,
                self.tine_drag == old(self).tine_drag,
                outcome == if i == 0 {
                    Ok::<(), InkError>(())
                } else {
                    Err::<(), InkError>(InkError::Unsupported)
                },
            decreases n - i,
        {
            let drop = &mut self.droplets[i];
            if let Err(e) = drop.scale_points() {
                outcome = Err(e);
            }
            i += 1;
        }
        outcome
    }

    /// Does on the tray what the user asked for through the controls, and
    /// says whether the picture is to be kept.
    ///
    /// To save changes nothing here: the answer is `true`, and keeping the
    /// picture is left to the caller. To clear empties the tray. To scale
    /// is `scale`.
    pub fn on_ui(&mut self, event: UiEvent) -> (r: Result<bool, InkError>)
        ensures
            final(self)@.drag == old(self)@.drag,
            match event {
                UiEvent::Save => r == Ok::<bool, InkError>(true) && final(self)@ == old(self)@,
                UiEvent::Clear => {
                    &&& r == Ok::<bool, InkError>(false)
                    &&& final(self)@.drops == Seq::<DropModel<G::Point, C>>::empty()
                },
                UiEvent::Scale => {
                    &&& final(self)@ == old(self)@
                    &&& r == if old(self)@.drops.len() == 0 {
                        Ok::<bool, InkError>(false)
                    } else {
                        Err::<bool, InkError>(InkError::Unsupported)
                    }
                },
            },
    {
        match event {
            UiEvent::Save => Ok(true),
            UiEvent::Clear => {
                self.clear();
                Ok(false)
            },
            UiEvent::Scale => match self.scale() {
                Ok(_) => Ok(false),
                Err(e) => Err(e),
            },
        }
    }

    /// The picture of the tray: the triangles of every drop, oldest drop
    /// first, each drop as `InkDrop::draw` gives it.
    pub fn draw(&self) -> (triangles: Vec<Triangle<G::Point, C>>)
        ensures
            triangles@ == scene(self@.drops),
            triangles@.len() == NUM_POINTS * self@.drops.len(),
    {
        let n = self.droplets.len();
        let mut triangles: Vec<Triangle<G::Point, C>> = Vec::new();
        let mut i: usize = 0;
        while i < n
            invariant
                n == self.droplets@.len(),
                0 <= i <= n,
                triangles@ == scene(self@.drops.take(i as int)),
                forall|k: int|
                    0 <= k < i ==> (#[trigger] self@.drops[k]).points.len() == NUM_POINTS,
            decreases n - i,
        {
            let ghost upto = self@.drops.take(i + 1);
            assert(upto.drop_last() =~= self@.drops.take(i as int));
            match self.droplets[i].draw() {
                Ok(mut fan) => {
                    triangles.append(&mut fan);
                },
                Err(_) => {},
            }
            i += 1;
        }
        proof {
            assert(self@.drops.take(n as int) =~= self@.drops);
            law_scene_len(self@.drops);
        }
        triangles
    }
}

} // verus!
