use vstd::prelude::*;
use crate::plane::Plane;

verus! {

/// The least displacement that the controls offer.
pub const MIN_TINE_DISPLACEMENT: usize = 10;

/// The greatest displacement that the controls offer.
pub const MAX_TINE_DISPLACEMENT: usize = 200;

/// The least sharpness that the controls offer.
pub const MIN_TINE_SHARPNESS: usize = 2;

/// The greatest sharpness that the controls offer.
pub const MAX_TINE_SHARPNESS: usize = 30;

/// The displacement of the comb before the user has set one.
pub const DEFAULT_TINE_DISPLACEMENT: usize = 10;

/// The sharpness of the comb before the user has set one.
pub const DEFAULT_TINE_SHARPNESS: usize = 2;

/// What the user has set at the moment of an event: the two parameters of
/// the comb, and whether the pointer is free to act on the tray.
pub struct Settings<G: Plane> {
    /// How far the comb drags the ink that lies right under a tine.
    pub tine_displacement: G::Scalar,
    /// How quickly that distance falls off to the sides of a tine.
    pub tine_sharpness: G::Scalar,
    /// False while the pointer is busy with the controls: the tray then
    /// takes no drop and no comb.
    pub mouse_enabled: bool,
}

/// `to` is the whole number `n` as a scalar.
pub open spec fn is_whole<G: Plane>(n: usize, to: G::Scalar) -> bool {
    exists|wide: G::Wide|
        #[trigger] call_ensures(G::count, (n,), wide) && call_ensures(G::narrow, (wide,), to)
}

/// The whole number `n` as a scalar.
pub fn whole<G: Plane>(n: usize) -> (to: G::Scalar)
    ensures
        is_whole::<G>(n, to),
{
    G::narrow(G::count(n))
}

impl<G: Plane> Default for Settings<G> {
    /// The comb as it is before the user has set it, and a pointer that is
    /// not yet free to act on the tray.
    fn default() -> (settings: Self)
        ensures
            is_whole::<G>(DEFAULT_TINE_DISPLACEMENT, settings.tine_displacement),
            is_whole::<G>(DEFAULT_TINE_SHARPNESS, settings.tine_sharpness),
            !settings.mouse_enabled,
    {
        Settings {
            tine_displacement: whole::<G>(DEFAULT_TINE_DISPLACEMENT),
            tine_sharpness: whole::<G>(DEFAULT_TINE_SHARPNESS),
            mouse_enabled: false,
        }
    }
}

impl<G: Plane> Settings<G> {
    /// Takes note of where the pointer is: over the controls it is not free
    /// to act on the tray, anywhere else it is.
    pub fn pointer_over_controls(&mut self, over: bool)
        ensures
            final(self).mouse_enabled == !over,
            final(self).tine_displacement == old(self).tine_displacement,
            final(self).tine_sharpness == old(self).tine_sharpness,
    {
        self.mouse_enabled = !over;
    }
}

} // verus!
