//! Match state for a Splatoon broadcast dashboard: scores, teams, map slots and
//! the pick/ban grid, the transitions the operator's controls make on it, and
//! the payload that overlay clients receive.

pub mod text;
pub mod model;
pub mod controls;
pub mod teams;
pub mod board;
pub mod payload;
pub mod laws;
pub mod behaviour;
