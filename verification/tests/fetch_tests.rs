use galaxy_map::fetch::{FetchError, Fetcher, Outcome, FIRST_PAGE};
use galaxy_map::model::{System, SystemType, Waypoint, WaypointType};
use galaxy_map::symbol::Symbol;
use galaxy_map::wire::{FailureKind, Reply};
use std::time::Duration;

fn system(index: usize) -> System {
    System {
        symbol: Symbol::parse(&format!("X1-S{}", index)),
        sector_symbol: Symbol::parse("X1"),
        system_type: SystemType::OrangeStar,
        x: index as i32,
        y: -(index as i32),
        waypoints: vec![Waypoint {
            symbol: Symbol::parse(&format!("X1-S{}-W0", index)),
            waypoint_type: WaypointType::Planet,
            x: 3,
            y: -4,
        }],
    }
}

fn page(from: usize, count: usize, total: i32) -> Reply {
    Reply::Page { data: (from..from + count).map(system).collect(), total }
}

/// What a download ended with, and what it asked for on the way.
struct Trace {
    requests: Vec<u64>,
    waits: Vec<Duration>,
    end: Result<Vec<System>, FetchError>,
}

fn drive(replies: Vec<Reply>) -> Trace {
    let mut requests = Vec::new();
    let mut waits = Vec::new();
    let mut fetcher = Fetcher::start();
    for reply in replies {
        requests.push(fetcher.page());
        match fetcher.on_reply(reply) {
            Outcome::Retry { fetcher: same, wait } => {
                waits.push(wait);
                fetcher = same;
            }
            Outcome::Next { fetcher: next } => fetcher = next,
            Outcome::Complete { systems } => return Trace { requests, waits, end: Ok(systems) },
            Outcome::Failed { error } => return Trace { requests, waits, end: Err(error) },
        }
    }
    panic!("the replies ran out before the download ended");
}

fn names(systems: &[System]) -> Vec<String> {
    systems.iter().map(|s| s.symbol.to_string()).collect()
}

#[test]
fn a_download_starts_with_the_first_page() {
    let fetcher = Fetcher::start();
    assert_eq!(FIRST_PAGE, 1);
    assert_eq!(fetcher.page(), 1);
    assert_eq!(fetcher.received(), 0);
    assert_eq!(fetcher.remaining(), None);
}

#[test]
fn forty_five_systems_come_in_three_pages() {
    let trace = drive(vec![page(0, 20, 45), page(20, 20, 45), page(40, 5, 45)]);
    assert_eq!(trace.requests, vec![1, 2, 3]);
    assert!(trace.waits.is_empty());
    let systems = trace.end.unwrap();
    assert_eq!(systems.len(), 45);
    let expected: Vec<String> = (0..45).map(|i| format!("X1-S{}", i)).collect();
    assert_eq!(names(&systems), expected);
    for (i, s) in systems.iter().enumerate() {
        assert_eq!(s.x, i as i32);
        assert_eq!(s.y, -(i as i32));
        assert_eq!(s.waypoints.len(), 1);
    }
}

#[test]
fn remaining_counts_down_to_the_last_page() {
    let fetcher = Fetcher::start();
    let fetcher = match fetcher.on_reply(page(0, 20, 45)) {
        Outcome::Next { fetcher } => fetcher,
        _ => panic!("the download should go on"),
    };
    assert_eq!(fetcher.page(), 2);
    assert_eq!(fetcher.received(), 20);
    assert_eq!(fetcher.remaining(), Some(25));
    let fetcher = match fetcher.on_reply(page(20, 20, 45)) {
        Outcome::Next { fetcher } => fetcher,
        _ => panic!("the download should go on"),
    };
    assert_eq!(fetcher.page(), 3);
    assert_eq!(fetcher.received(), 40);
    assert_eq!(fetcher.remaining(), Some(5));
    match fetcher.on_reply(page(40, 5, 45)) {
        Outcome::Complete { systems } => assert_eq!(systems.len(), 45),
        _ => panic!("the download should be complete"),
    }
}

#[test]
fn a_rate_limited_page_is_asked_for_again() {
    let wait = Duration::from_millis(750);
    let trace = drive(vec![
        page(0, 20, 45),
        Reply::RateLimited { wait },
        page(20, 20, 45),
        page(40, 5, 45),
    ]);
    assert_eq!(trace.requests, vec![1, 2, 2, 3]);
    assert_eq!(trace.waits, vec![wait]);
    let plain = drive(vec![page(0, 20, 45), page(20, 20, 45), page(40, 5, 45)]);
    let limited = trace.end.unwrap();
    let plain = plain.end.unwrap();
    assert_eq!(limited.len(), plain.len());
    assert_eq!(names(&limited), names(&plain));
    for (a, b) in limited.iter().zip(plain.iter()) {
        assert!(a.symbol == b.symbol);
        assert!(a.sector_symbol == b.sector_symbol);
        assert_eq!(a.system_type, b.system_type);
        assert_eq!((a.x, a.y), (b.x, b.y));
        assert_eq!(a.waypoints.len(), b.waypoints.len());
    }
}

#[test]
fn a_rate_limit_signal_leaves_the_download_as_it_was() {
    let fetcher = match Fetcher::start().on_reply(page(0, 20, 45)) {
        Outcome::Next { fetcher } => fetcher,
        _ => panic!("the download should go on"),
    };
    let wait = Duration::new(2, 500_000_000);
    match fetcher.on_reply(Reply::RateLimited { wait }) {
        Outcome::Retry { fetcher, wait: got } => {
            assert_eq!(got, wait);
            assert_eq!(fetcher.page(), 2);
            assert_eq!(fetcher.received(), 20);
            assert_eq!(fetcher.remaining(), Some(25));
        }
        _ => panic!("the page should be asked for again"),
    }
}

#[test]
fn the_first_page_is_retried_too() {
    let first = Duration::from_secs(1);
    let second = Duration::from_secs(2);
    let trace = drive(vec![
        Reply::RateLimited { wait: first },
        Reply::RateLimited { wait: second },
        page(0, 3, 3),
    ]);
    assert_eq!(trace.requests, vec![1, 1, 1]);
    assert_eq!(trace.waits, vec![first, second]);
    assert_eq!(names(&trace.end.unwrap()), vec!["X1-S0", "X1-S1", "X1-S2"]);
}

#[test]
fn a_failure_names_its_page() {
    let trace = drive(vec![
        page(0, 20, 45),
        Reply::Failed { kind: FailureKind::Decode },
        page(20, 20, 45),
        page(40, 5, 45),
    ]);
    assert_eq!(trace.requests, vec![1, 2]);
    assert_eq!(trace.end.unwrap_err(), FetchError { page: 2, kind: FailureKind::Decode });
}

#[test]
fn a_failure_on_the_first_page_names_it() {
    let trace = drive(vec![Reply::Failed { kind: FailureKind::Auth }]);
    assert_eq!(trace.requests, vec![1]);
    assert_eq!(trace.end.unwrap_err(), FetchError { page: 1, kind: FailureKind::Auth });
}

#[test]
fn a_failure_after_a_retry_names_the_retried_page() {
    let trace = drive(vec![
        page(0, 20, 45),
        page(20, 20, 45),
        Reply::RateLimited { wait: Duration::from_millis(10) },
        Reply::Failed { kind: FailureKind::Transport },
    ]);
    assert_eq!(trace.requests, vec![1, 2, 3, 3]);
    assert_eq!(trace.end.unwrap_err(), FetchError { page: 3, kind: FailureKind::Transport });
}

#[test]
fn the_total_is_taken_from_the_first_page_alone() {
    let trace = drive(vec![page(0, 2, 5), page(2, 2, 100), page(4, 1, 0)]);
    assert_eq!(trace.requests, vec![1, 2, 3]);
    assert_eq!(trace.end.unwrap().len(), 5);
}

#[test]
fn one_page_is_enough_when_it_holds_everything() {
    let trace = drive(vec![page(0, 7, 7)]);
    assert_eq!(trace.requests, vec![1]);
    assert_eq!(trace.end.unwrap().len(), 7);
}

#[test]
fn an_empty_list_is_complete_at_once() {
    let trace = drive(vec![page(0, 0, 0)]);
    assert_eq!(trace.requests, vec![1]);
    assert!(trace.end.unwrap().is_empty());
}

#[test]
fn a_negative_total_is_complete_at_once() {
    let trace = drive(vec![page(0, 2, -3)]);
    assert_eq!(trace.requests, vec![1]);
    assert_eq!(trace.end.unwrap().len(), 2);
}

#[test]
fn more_systems_than_announced_are_all_kept() {
    let trace = drive(vec![page(0, 20, 25), page(20, 20, 25)]);
    assert_eq!(trace.requests, vec![1, 2]);
    assert_eq!(trace.end.unwrap().len(), 40);
}

#[test]
fn an_empty_page_moves_on_to_the_next() {
    let trace = drive(vec![page(0, 2, 3), page(2, 0, 3), page(2, 1, 3)]);
    assert_eq!(trace.requests, vec![1, 2, 3]);
    assert_eq!(names(&trace.end.unwrap()), vec!["X1-S0", "X1-S1", "X1-S2"]);
}
