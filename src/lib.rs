//! Per-frame state keeping for an interactive view of a non-rotating black
//! hole: which text input has the focus, which input sets the mass, what the
//! window record holds, and the fixed order in which the stages of a frame
//! refresh the shared records.
pub mod focus;
pub mod params;
pub mod schedule;
pub mod window;
