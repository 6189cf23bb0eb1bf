//! A small drag-interaction library: a table of panel positions and a
//! single-pointer drag session, with every operation verified against a
//! mathematical model of the controller state.

pub mod drag;
pub mod laws;
