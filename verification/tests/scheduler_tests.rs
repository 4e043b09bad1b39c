use quiche_mp::mp_scheduler::{Error, Scheduler};
use quiche_mp::path::{Path, PathMap, PathState};
use quiche_mp::recovery::CongestionControlAlgorithm;

fn usable_path(id: u64, delivery_rate: u64, rtt: u64) -> Path {
    let mut p = Path::new(id, CongestionControlAlgorithm::CUBIC, true);
    p.stats.delivery_rate = delivery_rate;
    p.stats.rtt = rtt;
    p
}

fn unusable_path(id: u64, delivery_rate: u64, rtt: u64) -> Path {
    let mut p = Path::new(id, CongestionControlAlgorithm::CUBIC, false);
    p.stats.delivery_rate = delivery_rate;
    p.stats.rtt = rtt;
    p
}

#[test]
fn empty_map_has_no_path() {
    let paths = PathMap::new();
    assert_eq!(Scheduler::select_path_for_data(&paths), Err(Error::UnavailablePath));
    assert_eq!(Scheduler::select_path_for_ack(&paths), Err(Error::UnavailablePath));
}

#[test]
fn only_unusable_paths_give_error() {
    let mut paths = PathMap::new();
    paths.insert_path(unusable_path(3, 100, 5));
    paths.insert_path(unusable_path(4, 200, 1));
    assert_eq!(Scheduler::select_path_for_data(&paths), Err(Error::UnavailablePath));
    assert_eq!(Scheduler::select_path_for_ack(&paths), Err(Error::UnavailablePath));
}

#[test]
fn data_takes_highest_rate_and_ack_lowest_rtt() {
    let mut paths = PathMap::new();
    // Path 0: 100 Mbit/s, 200 ms; path 1: 5 Mbit/s, 5 ms.
    paths.insert_path(usable_path(0, 12_500_000, 200_000_000));
    paths.insert_path(usable_path(1, 625_000, 5_000_000));
    assert_eq!(Scheduler::select_path_for_data(&paths), Ok(0));
    assert_eq!(Scheduler::select_path_for_ack(&paths), Ok(1));
}

#[test]
fn unusable_paths_are_skipped() {
    let mut paths = PathMap::new();
    paths.insert_path(usable_path(7, 10, 50));
    paths.insert_path(unusable_path(8, 1000, 1));
    paths.insert_path(usable_path(9, 20, 40));
    assert_eq!(Scheduler::select_path_for_data(&paths), Ok(9));
    assert_eq!(Scheduler::select_path_for_ack(&paths), Ok(9));
}

#[test]
fn ties_go_last_for_data_and_first_for_ack() {
    let mut paths = PathMap::new();
    paths.insert_path(usable_path(1, 500, 30));
    paths.insert_path(usable_path(2, 500, 30));
    paths.insert_path(usable_path(3, 100, 30));
    assert_eq!(Scheduler::select_path_for_data(&paths), Ok(2));
    assert_eq!(Scheduler::select_path_for_ack(&paths), Ok(1));
}

#[test]
fn single_usable_path_carries_both() {
    let mut paths = PathMap::new();
    paths.insert_path(unusable_path(1, 900, 1));
    paths.insert_path(usable_path(2, 1, 900));
    assert_eq!(Scheduler::select_path_for_data(&paths), Ok(2));
    assert_eq!(Scheduler::select_path_for_ack(&paths), Ok(2));
}

#[test]
fn data_path_never_slower_than_ack_path() {
    let mut paths = PathMap::new();
    paths.insert_path(usable_path(1, 300, 20));
    paths.insert_path(usable_path(2, 700, 90));
    paths.insert_path(usable_path(3, 100, 10));
    let d = Scheduler::select_path_for_data(&paths).unwrap();
    let a = Scheduler::select_path_for_ack(&paths).unwrap();
    assert_eq!((d, a), (2, 3));
    assert!(paths.get(1).unwrap().stats.delivery_rate >= paths.get(2).unwrap().stats.delivery_rate);
    assert!(paths.get(2).unwrap().stats.rtt <= paths.get(1).unwrap().stats.rtt);
}

#[test]
fn usability_follows_path_state() {
    // Validated with a connection id but not active: usable.
    let mut p = Path::new(1, CongestionControlAlgorithm::CUBIC, true);
    p.active = false;
    assert!(p.usable());
    // Active with a connection id but failed: not usable.
    let mut q = Path::new(2, CongestionControlAlgorithm::CUBIC, true);
    q.state = PathState::Failed;
    assert!(!q.usable());
    // Active, validating, with a connection id: usable.
    let mut r = Path::new(3, CongestionControlAlgorithm::CUBIC, true);
    r.state = PathState::Validating;
    assert!(r.usable());
    // Validated but without a connection id: not usable.
    let mut t = Path::new(4, CongestionControlAlgorithm::CUBIC, true);
    t.active_dcid_seq = None;
    assert!(!t.usable());
    // A fresh non-initial path is not usable.
    assert!(!Path::new(5, CongestionControlAlgorithm::BBR, false).usable());
    assert_eq!(p.path_id(), 1);
}

#[test]
fn path_map_slots() {
    let mut paths = PathMap::new();
    assert_eq!(paths.len(), 0);
    assert_eq!(paths.insert_path(usable_path(10, 1, 1)), 0);
    assert_eq!(paths.insert_path(usable_path(11, 1, 1)), 1);
    assert_eq!(paths.len(), 2);
    assert_eq!(paths.get(1).unwrap().path_id, 11);
    assert!(paths.get(2).is_none());
    assert!(paths.get_mut(2).is_none());
    paths.get_mut(0).unwrap().stats.rtt = 77;
    assert_eq!(paths.get(0).unwrap().stats.rtt, 77);
}
