use galaxy_map::extent::{fit_radius_squared, radius_squared};
use galaxy_map::model::{System, SystemType, Waypoint, WaypointType};
use galaxy_map::symbol::Symbol;

fn system_at(x: i32, y: i32) -> System {
    System {
        symbol: Symbol::parse("X1-A"),
        sector_symbol: Symbol::parse("X1"),
        system_type: SystemType::BlueStar,
        x,
        y,
        waypoints: Vec::new(),
    }
}

fn system_with(waypoints: &[(i32, i32)]) -> System {
    let mut system = system_at(0, 0);
    for (x, y) in waypoints {
        system.waypoints.push(Waypoint {
            symbol: Symbol::parse("X1-A-W"),
            waypoint_type: WaypointType::Moon,
            x: *x,
            y: *y,
        });
    }
    system
}

#[test]
fn radius_of_no_systems_is_zero() {
    assert_eq!(radius_squared(&Vec::new()), 0);
}

#[test]
fn radius_is_that_of_the_farthest_system() {
    let systems = vec![system_at(3, 4), system_at(-6, 8), system_at(0, -9), system_at(1, 1)];
    assert_eq!(radius_squared(&systems), 100);
}

#[test]
fn radius_of_a_single_system() {
    assert_eq!(radius_squared(&vec![system_at(-5, 12)]), 169);
}

#[test]
fn radius_at_the_edge_of_the_coordinates() {
    let systems = vec![system_at(i32::MIN, i32::MIN), system_at(i32::MAX, i32::MAX)];
    assert_eq!(radius_squared(&systems), 1u64 << 63);
    assert_eq!(radius_squared(&vec![system_at(i32::MAX, 0)]), 4611686014132420609);
}

#[test]
fn empty_map_has_no_fit() {
    assert_eq!(fit_radius_squared(&Vec::new()), None);
}

#[test]
fn map_at_the_origin_has_no_fit() {
    assert_eq!(fit_radius_squared(&vec![system_at(0, 0), system_at(0, 0)]), None);
}

#[test]
fn map_with_extent_is_fitted() {
    assert_eq!(fit_radius_squared(&vec![system_at(0, 0), system_at(0, -2)]), Some(4));
}

#[test]
fn system_without_waypoints_has_no_extent() {
    assert_eq!(system_with(&[]).orbit_extent(), 0);
}

#[test]
fn extent_is_the_largest_reach_of_a_waypoint() {
    assert_eq!(system_with(&[(3, -4), (-7, 2), (5, 5)]).orbit_extent(), 7);
    assert_eq!(system_with(&[(0, 0)]).orbit_extent(), 0);
    assert_eq!(system_with(&[(1, -30)]).orbit_extent(), 30);
}

#[test]
fn extent_at_the_edge_of_the_coordinates() {
    assert_eq!(system_with(&[(i32::MIN, 0), (i32::MAX, 1)]).orbit_extent(), 2147483648);
    assert_eq!(system_with(&[(0, i32::MAX)]).orbit_extent(), 2147483647);
}
