//! A 2D sprite scene graph animated by a declarative action system.
//!
//! Sprites carry a transform (position, rotation, scale, anchor, flip flags,
//! opacity, visibility) and may own child sprites, forming a tree addressed by
//! stable identifiers. Actions describe timed transformations — moves,
//! rotations, scales, fades, blinks, visibility switches — together with
//! composition: sequences, explicit waits, and easing wrappers. Binding an
//! action to a sprite yields a running action state; advancing that state by a
//! time step mutates the sprite and reports completion together with any
//! left-over time, which sequences carry into their next step within the same
//! tick.
//!
//! All quantities are fixed-point integers: see [`easing`] for the
//! representation.

pub mod action;
pub mod easing;
pub mod laws;
pub mod scene;
pub mod sprite;
pub mod tree;
