//! Records of the star map as the remote service describes them.

use crate::symbol::Symbol;
use vstd::prelude::*;

verus! {

/// The player's agent.
#[derive(Debug)]
pub struct Agent {
    pub account_id: String,
    pub symbol: Symbol,
    pub headquarters: String,
    pub credits: i32,
    pub starting_faction: String,
    pub ship_count: i8,
}

/// What kind of place a waypoint is.
#[derive(Debug, Clone, Copy, PartialEq, Eq, Structural)]
pub enum WaypointType {
    Planet,
    GasGiant,
    Moon,
    OrbitalStation,
    JumpGate,
    AsteroidField,
    Asteroid,
    EngineeredAsteroid,
    AsteroidBase,
    Nebula,
    DebrisField,
    GravityWell,
    ArtificialGravityWell,
    FuelStation,
}

/// A place within a system. Its coordinates are relative to the system.
#[derive(Debug)]
pub struct Waypoint {
    pub symbol: Symbol,
    pub waypoint_type: WaypointType,
    pub x: i32,
    pub y: i32,
}

/// What kind of star, or other body, a system is built around.
#[derive(Debug, Clone, Copy, PartialEq, Eq, Structural)]
pub enum SystemType {
    NeutronStar,
    RedStar,
    OrangeStar,
    BlueStar,
    YoungStar,
    WhiteDwarf,
    BlackHole,
    Hypergiant,
    Nebula,
    Unstable,
}

/// A system of the galaxy with its waypoints, in the order the service
/// lists them.
#[derive(Debug)]
pub struct System {
    pub symbol: Symbol,
    pub sector_symbol: Symbol,
    pub system_type: SystemType,
    pub x: i32,
    pub y: i32,
    pub waypoints: Vec<Waypoint>,
}

} // verus!
