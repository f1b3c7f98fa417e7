//! A step indicator: a row or column of steps, each drawn as a circle
//! with a label, joined by connector lines, with completed steps checked and the
//! current step in bold.
//!
//! The library turns the indicator's state into a [`geometry::DrawPlan`], a list
//! of primitives whose coordinates are exact fractions of the target bounds, so
//! that the layout can be stated and proved without floating point. A host
//! resolves those coordinates against its bounds and paints them.

pub mod geometry;
pub mod progress_step;
pub mod laws;
pub mod installer;
