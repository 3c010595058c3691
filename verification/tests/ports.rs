use shell_scene::net::find_free_port;
use shell_scene::net::PortScan;
use shell_scene::net::ScanStep;
use shell_scene::net::MAX_PORT;

/// Runs a scan to its end against a set of free ports; returns what it
/// found and how many ports it tried.
fn scan_against(start: u16, free: &[u16]) -> (Option<u16>, u32) {
    let mut scan = PortScan::begin(start);
    let mut tried: u32 = 0;
    loop {
        tried += 1;
        assert!(tried <= 65535, "a scan tries no port twice");
        match find_free_port(scan, free.contains(&scan.candidate)) {
            ScanStep::Found(port) => return (Some(port), tried),
            ScanStep::Exhausted => return (None, tried),
            ScanStep::Probe(next) => scan = next,
        }
    }
}

#[test]
fn scan_starts_at_requested_port() {
    let scan = PortScan::begin(7681);
    assert_eq!(scan, PortScan { first: 7681, candidate: 7681 });
}

#[test]
fn start_zero_means_port_one() {
    assert_eq!(PortScan::begin(0), PortScan { first: 1, candidate: 1 });
    assert_eq!(PortScan::begin(0), PortScan::begin(1));
}

#[test]
fn bound_candidate_is_the_result() {
    let scan = PortScan::begin(7681);
    assert_eq!(find_free_port(scan, true), ScanStep::Found(7681));
}

#[test]
fn taken_candidate_moves_one_port_up() {
    let scan = PortScan::begin(7681);
    assert_eq!(
        find_free_port(scan, false),
        ScanStep::Probe(PortScan { first: 7681, candidate: 7682 })
    );
}

#[test]
fn taken_start_port_gives_the_next() {
    let free: Vec<u16> = (1..=MAX_PORT).filter(|p| *p != 7681).collect();
    assert_eq!(scan_against(7681, &free), (Some(7682), 2));
}

#[test]
fn run_of_taken_ports_is_skipped() {
    assert_eq!(scan_against(7681, &[7690, 7700, 12]), (Some(7690), 10));
}

#[test]
fn scan_wraps_from_highest_port_to_one() {
    let scan = PortScan { first: 65000, candidate: 65535 };
    assert_eq!(
        find_free_port(scan, false),
        ScanStep::Probe(PortScan { first: 65000, candidate: 1 })
    );
    assert_eq!(scan_against(65000, &[3, 64999]), (Some(3), 539));
}

#[test]
fn port_just_below_start_is_tried_last() {
    assert_eq!(scan_against(7681, &[7680]), (Some(7680), 65535));
}

#[test]
fn scan_back_at_its_start_is_exhausted() {
    let scan = PortScan { first: 7681, candidate: 7680 };
    assert_eq!(find_free_port(scan, false), ScanStep::Exhausted);
    let scan = PortScan { first: 1, candidate: 65535 };
    assert_eq!(find_free_port(scan, false), ScanStep::Exhausted);
}

#[test]
fn full_port_space_is_tried_once_and_given_up() {
    assert_eq!(scan_against(7681, &[]), (None, 65535));
    assert_eq!(scan_against(1, &[]), (None, 65535));
    assert_eq!(scan_against(65535, &[]), (None, 65535));
}

#[test]
fn start_zero_and_start_one_find_the_same() {
    for free in [vec![], vec![1], vec![2, 9], vec![65535], vec![7681, 7682]] {
        assert_eq!(scan_against(0, &free), scan_against(1, &free));
    }
}

#[test]
fn every_start_finds_the_first_free_port_upward() {
    let free = [100u16, 200, 300];
    for start in [1u16, 99, 100, 101, 200, 201, 300, 301, 65535] {
        let expected = if start <= 100 || start > 300 {
            100
        } else if start <= 200 {
            200
        } else {
            300
        };
        assert_eq!(scan_against(start, &free).0, Some(expected), "from {}", start);
    }
}

#[test]
fn free_start_port_is_found_at_once() {
    assert_eq!(scan_against(7681, &[7681, 7682]), (Some(7681), 1));
    assert_eq!(scan_against(0, &[1]), (Some(1), 1));
}

/// The first free port at or after `first`, going up and on from 1 after
/// the highest port, found the slow way.
fn first_free_by_search(first: u16, free: &[u16]) -> Option<u16> {
    let mut port = first;
    for _ in 0..65535u32 {
        if free.contains(&port) {
            return Some(port);
        }
        port = if port == 65535 { 1 } else { port + 1 };
    }
    None
}

#[test]
fn scan_agrees_with_a_plain_search() {
    let mut seed: u32 = 0x2545_f491;
    for round in 0..40u32 {
        let mut free = Vec::new();
        for _ in 0..(round % 5) {
            seed = seed.wrapping_mul(1_664_525).wrapping_add(1_013_904_223);
            let port = (seed >> 16) as u16;
            if port != 0 {
                free.push(port);
            }
        }
        seed = seed.wrapping_mul(1_664_525).wrapping_add(1_013_904_223);
        let start = (seed >> 16) as u16;
        let first = if start == 0 { 1 } else { start };
        assert_eq!(scan_against(start, &free).0, first_free_by_search(first, &free));
    }
}
