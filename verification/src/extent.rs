//! Exact integer measures of the map: how far systems lie from the origin
//! and how far waypoints lie from their system.

use crate::model::{System, Waypoint};
use vstd::prelude::*;

verus! {

/// The absolute value of a coordinate.
pub open spec fn magnitude(v: int) -> int {
    if v < 0 {
        -v
    } else {
        v
    }
}

/// The squared distance of a system from the origin of the map.
pub open spec fn distance_squared(system: System) -> int {
    system.x * system.x + system.y * system.y
}

/// `r` is the largest squared distance among `systems`, or zero when there
/// are none.
pub open spec fn is_radius_squared(systems: Seq<System>, r: int) -> bool {
    &&& forall|i: int| 0 <= i < systems.len() ==> distance_squared(#[trigger] systems[i]) <= r
    &&& if systems.len() == 0 {
        r == 0
    } else {
        exists|i: int| 0 <= i < systems.len() && distance_squared(#[trigger] systems[i]) == r
    }
}

/// How far a waypoint reaches from its system along either axis.
pub open spec fn reach(waypoint: Waypoint) -> int {
    if magnitude(waypoint.x as int) >= magnitude(waypoint.y as int) {
        magnitude(waypoint.x as int)
    } else {
        magnitude(waypoint.y as int)
    }
}

/// `e` is the largest reach among `waypoints`, or zero when there are none.
pub open spec fn is_orbit_extent(waypoints: Seq<Waypoint>, e: int) -> bool {
    &&& forall|i: int| 0 <= i < waypoints.len() ==> reach(#[trigger] waypoints[i]) <= e
    &&& if waypoints.len() == 0 {
        e == 0
    } else {
        exists|i: int| 0 <= i < waypoints.len() && reach(#[trigger] waypoints[i]) == e
    }
}

fn magnitude_of(v: i32) -> (m: u32)
    ensures
        m == magnitude(v as int),
{
    if v < 0 {
        let wide: i64 = -(v as i64);
        wide as u32
    } else {
        v as u32
    }
}

fn distance_squared_of(system: &System) -> (d: u64)
    ensures
        d == distance_squared(*system),
{
    let ax: u64 = magnitude_of(system.x) as u64;
    let ay: u64 = magnitude_of(system.y) as u64;
    assert(ax * ax <= 0x4000_0000_0000_0000 && ax * ax == system.x * system.x) by (nonlinear_arith)
        requires
            ax <= 0x8000_0000,
            ax == magnitude(system.x as int),
    ;
    assert(ay * ay <= 0x4000_0000_0000_0000 && ay * ay == system.y * system.y) by (nonlinear_arith)
        requires
            ay <= 0x8000_0000,
            ay == magnitude(system.y as int),
    ;
    ax * ax + ay * ay
}

/// The square of the radius of the smallest circle around the origin that
/// holds every system.
pub fn radius_squared(systems: &Vec<System>) -> (r: u64)
    ensures
        is_radius_squared(systems@, r as int),
{
    let mut r: u64 = 0;
    let mut i: usize = 0;
    while i < systems.len()
        invariant
            i <= systems.len(),
            is_radius_squared(systems@.take(i as int), r as int),
        decreases systems.len() - i,
    {
        let d: u64 = distance_squared_of(&systems[i]);
        proof {
            let before = systems@.take(i as int);
            let after = systems@.take(i + 1);
            assert(forall|j: int| 0 <= j < i ==> after[j] == before[j]);
            assert(after[i as int] == systems@[i as int]);
            if i > 0 && d <= r {
                let k = choose|k: int| 0 <= k < before.len() && distance_squared(before[k]) == r;
                assert(distance_squared(after[k]) == r);
            }
        }
        if d > r {
            r = d;
        }
        i = i + 1;
    }
    proof {
        assert(systems@.take(i as int) =~= systems@);
    }
    r
}

/// The fit of the map to a window: `None` when the map is degenerate (no
/// system, or all of them at the origin) and the scale stays at its default
/// of one; otherwise the squared radius to fit.
pub fn fit_radius_squared(systems: &Vec<System>) -> (fit: Option<u64>)
    ensures
        match fit {
            Some(r) => r > 0 && is_radius_squared(systems@, r as int),
            None => is_radius_squared(systems@, 0),
        },
        systems@.len() == 0 ==> fit is None,
{
    let r: u64 = radius_squared(systems);
    if r == 0 {
        None
    } else {
        Some(r)
    }
}

impl System {
    /// The size of the system: the largest reach among its waypoints.
    pub fn orbit_extent(&self) -> (e: u32)
        ensures
            is_orbit_extent(self.waypoints@, e as int),
    {
        let mut e: u32 = 0;
        let mut i: usize = 0;
        while i < self.waypoints.len()
            invariant
                i <= self.waypoints.len(),
                is_orbit_extent(self.waypoints@.take(i as int), e as int),
            decreases self.waypoints.len() - i,
        {
            let ax: u32 = magnitude_of(self.waypoints[i].x);
            let ay: u32 = magnitude_of(self.waypoints[i].y);
            let d: u32 = if ax >= ay {
                ax
            } else {
                ay
            };
            proof {
                let before = self.waypoints@.take(i as int);
                let after = self.waypoints@.take(i + 1);
                assert(forall|j: int| 0 <= j < i ==> after[j] == before[j]);
                assert(after[i as int] == self.waypoints@[i as int]);
                if i > 0 && d <= e {
                    let k = choose|k: int| 0 <= k < before.len() && reach(before[k]) == e;
                    assert(reach(after[k]) == e);
                }
            }
            if d > e {
                e = d;
            }
            i = i + 1;
        }
        proof {
            assert(self.waypoints@.take(i as int) =~= self.waypoints@);
        }
        e
    }
}

} // verus!
