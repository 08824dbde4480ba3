//! Paper-marbling patterns: ink drops floating on a tray, pushed aside by
//! every new drop and dragged along by the tines of a comb.
//!
//! The library owns the shapes and the rules by which they change:
//!
//! - `ink` holds the drop, the tine line, and the two formulas that move the
//!   points of a drop;
//! - `tray` holds the drops and answers the pointer and the controls;
//! - `shape` turns an outline into the triangles that fill it;
//! - `settings` and `ui` hold what the user has set and asked for.
//!
//! The arithmetic of the plane that the drops live in is the caller's, see
//! `plane::Plane`. Every contract here says by which steps of that arithmetic
//! a point came to be where it is.
//!
//! Input whose geometry has no answer is refused: a point that lies on the
//! centre it is to be pushed away from, a comb without direction, a sharpness
//! that is not greater than zero. The operation then returns
//! `error::InkError::Degenerate` and leaves every drop as it was. No failure
//! is worse than that: the caller may always go on with the next event.

pub mod error;
pub mod ink;
pub mod plane;
pub mod settings;
pub mod shape;
pub mod tray;
pub mod ui;
