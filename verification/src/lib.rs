//! Places an application window on whichever display monitor currently
//! holds the mouse cursor.
//!
//! The library is pure computation: geometry over monitor rectangles and
//! cursor points, the rule that selects a target monitor, the centering
//! formula, and the decision of whether a move is needed at all.  The
//! surrounding application shell performs the actual windowing-system
//! calls and feeds their results in as plain values.

pub mod geometry;
pub mod greeting;
pub mod placement;
