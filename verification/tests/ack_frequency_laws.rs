use quiche_mp::ack_frequency::{
    Connection, FREQUENT_ACK_ELICITING_THRESHOLD, RELAXED_ACK_ELICITING_THRESHOLD,
};
use quiche_mp::path::{Path, PathMap};
use quiche_mp::recovery::{
    BBR2StateMachine, BBRStateMachine, CongestionControlAlgorithm, Congestion, CubicState,
};

fn connection_with(algorithm: CongestionControlAlgorithm) -> Connection {
    let mut paths = PathMap::new();
    paths.insert_path(Path::new(0, algorithm, true));
    let mut conn = Connection::new(paths);
    conn.handshake_completed = true;
    conn
}

#[test]
fn fresh_connection_defaults() {
    let conn = Connection::new(PathMap::new());
    assert!(!conn.handshake_completed);
    assert_eq!(conn.requested_ack_eliciting_threshold, FREQUENT_ACK_ELICITING_THRESHOLD);
    assert!(!conn.needs_ack_frequency_update);
    assert_eq!(FREQUENT_ACK_ELICITING_THRESHOLD, 1);
    assert_eq!(RELAXED_ACK_ELICITING_THRESHOLD, 10);
}

#[test]
fn fresh_controllers_start_in_their_startup_phase() {
    let c = Congestion::new(CongestionControlAlgorithm::CUBIC);
    assert_eq!(c.cubic_state.state, CubicState::SlowStart);
    assert_eq!(c.bbr_state.state, BBRStateMachine::ProbeBW);
    assert_eq!(c.bbr2_state.state, BBR2StateMachine::ProbeBWCRUISE);
    let b = Congestion::new(CongestionControlAlgorithm::BBR);
    assert_eq!(b.cubic_state.state, CubicState::CongestionAvoidance);
    assert_eq!(b.bbr_state.state, BBRStateMachine::Startup);
    let b2 = Congestion::new(CongestionControlAlgorithm::BBR2);
    assert_eq!(b2.bbr2_state.state, BBR2StateMachine::Startup);
    assert_eq!(b2.bbr_state.state, BBRStateMachine::ProbeBW);
}

#[test]
fn no_request_before_handshake() {
    let mut conn = connection_with(CongestionControlAlgorithm::CUBIC);
    conn.handshake_completed = false;
    conn.paths.get_mut(0).unwrap().recovery.congestion.cubic_state.state = CubicState::CongestionAvoidance;
    conn.check_ack_frequency_triggers_on_data_path(0);
    assert_eq!(conn.requested_ack_eliciting_threshold, 1);
    assert!(!conn.needs_ack_frequency_update);
}

#[test]
fn missing_path_changes_nothing() {
    let mut conn = connection_with(CongestionControlAlgorithm::CUBIC);
    conn.requested_ack_eliciting_threshold = 10;
    conn.check_ack_frequency_triggers_on_data_path(5);
    assert_eq!(conn.requested_ack_eliciting_threshold, 10);
    assert!(!conn.needs_ack_frequency_update);
}

#[test]
fn check_twice_is_check_once() {
    let mut conn = connection_with(CongestionControlAlgorithm::CUBIC);
    conn.paths.get_mut(0).unwrap().recovery.congestion.cubic_state.state = CubicState::CongestionAvoidance;
    conn.check_ack_frequency_triggers_on_data_path(0);
    let after_once = (conn.requested_ack_eliciting_threshold, conn.needs_ack_frequency_update);
    conn.check_ack_frequency_triggers_on_data_path(0);
    assert_eq!(after_once, (10, true));
    assert_eq!((conn.requested_ack_eliciting_threshold, conn.needs_ack_frequency_update), after_once);
}

#[test]
fn cubic_recovery_requests_frequent_acks() {
    let mut conn = connection_with(CongestionControlAlgorithm::CUBIC);
    conn.requested_ack_eliciting_threshold = 10;
    conn.paths.get_mut(0).unwrap().recovery.congestion.cubic_state.state = CubicState::Recovery;
    let analysis = conn.analyze_congestion_state(&conn.paths.get(0).unwrap().recovery.congestion);
    assert_eq!(analysis, (false, true, true));
    conn.check_ack_frequency_triggers_on_data_path(0);
    assert_eq!(conn.requested_ack_eliciting_threshold, 1);
    assert!(conn.needs_ack_frequency_update);
}

#[test]
fn bbr_path_follows_bbr_phase() {
    let mut conn = connection_with(CongestionControlAlgorithm::BBR);
    let analysis = conn.analyze_congestion_state(&conn.paths.get(0).unwrap().recovery.congestion);
    assert_eq!(analysis, (true, false, true));
    conn.paths.get_mut(0).unwrap().recovery.congestion.bbr_state.state = BBRStateMachine::ProbeBW;
    let analysis = conn.analyze_congestion_state(&conn.paths.get(0).unwrap().recovery.congestion);
    assert_eq!(analysis, (false, false, false));
    conn.check_ack_frequency_triggers_on_data_path(0);
    assert_eq!(conn.requested_ack_eliciting_threshold, 10);
    conn.paths.get_mut(0).unwrap().recovery.congestion.bbr_state.state = BBRStateMachine::ProbeRTT;
    conn.check_ack_frequency_triggers_on_data_path(0);
    assert_eq!(conn.requested_ack_eliciting_threshold, 1);
}

#[test]
fn bbr2_path_follows_bbr2_phase() {
    let mut conn = connection_with(CongestionControlAlgorithm::BBR2);
    conn.paths.get_mut(0).unwrap().recovery.congestion.bbr2_state.state = BBR2StateMachine::ProbeBWUP;
    let analysis = conn.analyze_congestion_state(&conn.paths.get(0).unwrap().recovery.congestion);
    assert_eq!(analysis, (false, false, false));
    conn.check_ack_frequency_triggers_on_data_path(0);
    assert_eq!(conn.requested_ack_eliciting_threshold, 10);
    assert!(conn.needs_ack_frequency_update);
    conn.needs_ack_frequency_update = false;
    conn.paths.get_mut(0).unwrap().recovery.congestion.bbr2_state.state = BBR2StateMachine::ProbeRTT;
    conn.check_ack_frequency_triggers_on_data_path(0);
    assert_eq!(conn.requested_ack_eliciting_threshold, 1);
    assert!(conn.needs_ack_frequency_update);
}

#[test]
fn bbr_drain_needs_frequent_acks() {
    let conn = connection_with(CongestionControlAlgorithm::CUBIC);
    let mut c = Congestion::new(CongestionControlAlgorithm::BBR);
    c.bbr_state.state = BBRStateMachine::Drain;
    assert!(conn.check_bbr_states(&c));
    c.bbr_state.state = BBRStateMachine::ProbeBW;
    assert!(!conn.check_bbr_states(&c));
    c.bbr2_state.state = BBR2StateMachine::ProbeBWDOWN;
    assert!(!conn.check_bbr_states(&c));
    c.bbr2_state.state = BBR2StateMachine::Startup;
    assert!(conn.check_bbr_states(&c));
}
