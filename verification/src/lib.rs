//! Core logic of a star-map viewer: the data model of systems and waypoints,
//! the page-by-page download of the full system list from a rate-limited
//! service, and the decisions behind start-up and pointer input.

pub mod extent;
pub mod fetch;
pub mod input;
pub mod model;
pub mod startup;
pub mod symbol;
pub mod wire;
