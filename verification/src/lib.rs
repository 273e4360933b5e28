//! Shared UI state bound to several controls at once.
//!
//! A single in-process store holds a handful of plain values (a toggle, a
//! three-way choice, a bounded scalar, a color, a text line, an animation
//! flag). Once per redraw a synchronization pass presents each value through
//! its bound controls and commits any user edit back into the store, in a
//! fixed presentation order, so that every binding of the same field settles
//! on one committed value by the end of the frame.

pub mod store;
pub mod sync;
