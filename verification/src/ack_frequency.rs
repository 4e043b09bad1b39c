//! ACK-frequency control on the data path.
//!
//! While a path's congestion controller is probing for capacity or
//! recovering from loss it needs acknowledgements quickly, so the
//! connection asks the peer to acknowledge every ack-eliciting packet. In a
//! steady phase it asks for fewer acknowledgements, which relieves the ACK
//! path. A new request is raised only when the wanted threshold changes.
use vstd::prelude::*;

use crate::path::{Path, PathMap};
use crate::recovery::{
    BBR2StateMachine, BBRStateMachine, CongestionControlAlgorithm, Congestion, CubicState,
};

verus! {

/// Threshold requested while the controller needs frequent acknowledgements.
pub const FREQUENT_ACK_ELICITING_THRESHOLD: u64 = 1;

/// Threshold requested while the controller is in a steady phase.
pub const RELAXED_ACK_ELICITING_THRESHOLD: u64 = 10;

/// CUBIC needs frequent acknowledgements in slow start and in recovery.
pub open spec fn cubic_needs_frequent_acks(state: CubicState) -> bool {
    state == CubicState::SlowStart || state == CubicState::Recovery
}

/// BBR needs frequent acknowledgements outside its bandwidth-probing phase.
pub open spec fn bbr_needs_frequent_acks(state: BBRStateMachine) -> bool {
    state != BBRStateMachine::ProbeBW
}

/// BBRv2 needs frequent acknowledgements in start-up, drain and RTT probing.
pub open spec fn bbr2_needs_frequent_acks(state: BBR2StateMachine) -> bool {
    ||| state == BBR2StateMachine::Startup
    ||| state == BBR2StateMachine::Drain
    ||| state == BBR2StateMachine::ProbeRTT
}

/// One of the two BBR state machines is in a phase that needs frequent
/// acknowledgements.
pub open spec fn bbr_family_needs_frequent_acks(c: Congestion) -> bool {
    bbr_needs_frequent_acks(c.bbr_state.state) || bbr2_needs_frequent_acks(c.bbr2_state.state)
}

/// The analysis of a controller: whether it is in slow start, whether it
/// is recovering from loss, and whether its algorithm's phase calls for
/// frequent acknowledgements.
pub open spec fn congestion_analysis(c: Congestion) -> (bool, bool, bool) {
    match c.algorithm {
        CongestionControlAlgorithm::CUBIC => (
            c.cubic_state.state == CubicState::SlowStart,
            c.cubic_state.state == CubicState::Recovery,
            cubic_needs_frequent_acks(c.cubic_state.state),
        ),
        CongestionControlAlgorithm::BBR => (
            c.bbr_state.state == BBRStateMachine::Startup,
            false,
            bbr_family_needs_frequent_acks(c),
        ),
        CongestionControlAlgorithm::BBR2 => (
            c.bbr2_state.state == BBR2StateMachine::Startup,
            false,
            bbr_family_needs_frequent_acks(c),
        ),
    }
}

/// The controller needs frequent acknowledgements.
pub open spec fn needs_frequent_acks(c: Congestion) -> bool {
    let (in_slow_start, in_recovery, algorithm_specific) = congestion_analysis(c);
    in_slow_start || in_recovery || algorithm_specific
}

/// The ack-eliciting threshold that suits the controller's phase.
pub open spec fn wanted_threshold(c: Congestion) -> u64 {
    if needs_frequent_acks(c) {
        FREQUENT_ACK_ELICITING_THRESHOLD
    } else {
        RELAXED_ACK_ELICITING_THRESHOLD
    }
}

/// The path in slot `slot` of `paths`, if there is one.
pub open spec fn path_at(paths: Seq<Path>, slot: int) -> Option<Path> {
    if 0 <= slot < paths.len() {
        Some(paths[slot])
    } else {
        None
    }
}

/// The requested threshold and the pending-update flag after the trigger
/// check: once the handshake is complete and the path exists, the
/// threshold becomes the one its controller wants, and the flag is raised
/// when that changes the threshold; otherwise both stay as they are.
pub open spec fn ack_frequency_after(
    handshake_completed: bool,
    path: Option<Path>,
    threshold: u64,
    pending: bool,
) -> (u64, bool) {
    if handshake_completed && path is Some {
        let wanted = wanted_threshold(path->0.recovery.congestion);
        if wanted != threshold {
            (wanted, true)
        } else {
            (threshold, pending)
        }
    } else {
        (threshold, pending)
    }
}

/// The ACK-frequency state of a connection and its paths.
pub struct Connection {
    /// The connection's paths.
    pub paths: PathMap,
    /// Whether the handshake has completed; before that no ACK-frequency
    /// request is made.
    pub handshake_completed: bool,
    /// The ack-eliciting threshold last requested from the peer.
    pub requested_ack_eliciting_threshold: u64,
    /// Whether a new ACK_FREQUENCY request waits to be sent.
    pub needs_ack_frequency_update: bool,
}

/// The state of `conn` after the trigger check on the path in `slot`.
pub open spec fn check_outcome(conn: &Connection, slot: int) -> (u64, bool) {
    ack_frequency_after(
        conn.handshake_completed,
        path_at(conn.paths@, slot),
        conn.requested_ack_eliciting_threshold,
        conn.needs_ack_frequency_update,
    )
}

impl Connection {
    /// Creates the connection over `paths`, before the handshake, with the
    /// default ack-eliciting threshold and no request pending.
    pub fn new(paths: PathMap) -> (conn: Connection)
        ensures
            conn.paths@ == paths@,
            !conn.handshake_completed,
            conn.requested_ack_eliciting_threshold == FREQUENT_ACK_ELICITING_THRESHOLD,
            !conn.needs_ack_frequency_update,
    {
        Connection {
            paths,
            handshake_completed: false,
            requested_ack_eliciting_threshold: FREQUENT_ACK_ELICITING_THRESHOLD,
            needs_ack_frequency_update: false,
        }
    }

    /// Whether the BBR or BBRv2 state machine of `congestion` is in a phase
    /// that needs frequent acknowledgements (start-up, drain, RTT probing).
    pub fn check_bbr_states(&self, congestion: &Congestion) -> (b: bool)
        ensures
            b == bbr_family_needs_frequent_acks(*congestion),
            b == (congestion.bbr_state.state != BBRStateMachine::ProbeBW
                || congestion.bbr2_state.state == BBR2StateMachine::Startup
                || congestion.bbr2_state.state == BBR2StateMachine::Drain
                || congestion.bbr2_state.state == BBR2StateMachine::ProbeRTT),
    {
        let bbr = match congestion.bbr_state.state {
            BBRStateMachine::ProbeBW => false,
            _ => true,
        };
        let bbr2 = match congestion.bbr2_state.state {
            BBR2StateMachine::Startup => true,
            BBR2StateMachine::Drain => true,
            BBR2StateMachine::ProbeRTT => true,
            _ => false,
        };
        bbr || bbr2
    }

    /// Analyses `congestion`: returns whether it is in slow start, whether
    /// it is in loss recovery, and whether its algorithm's phase calls for
    /// frequent acknowledgements.
    pub fn analyze_congestion_state(&self, congestion: &Congestion) -> (r: (bool, bool, bool))
        ensures
            r == congestion_analysis(*congestion),
            congestion.algorithm == CongestionControlAlgorithm::CUBIC ==> r == (
                congestion.cubic_state.state == CubicState::SlowStart,
                congestion.cubic_state.state == CubicState::Recovery,
                congestion.cubic_state.state == CubicState::SlowStart
                    || congestion.cubic_state.state == CubicState::Recovery,
            ),
            congestion.algorithm == CongestionControlAlgorithm::BBR ==> r == (
                congestion.bbr_state.state == BBRStateMachine::Startup,
                false,
                (congestion.bbr_state.state != BBRStateMachine::ProbeBW
                || congestion.bbr2_state.state == BBR2StateMachine::Startup
                || congestion.bbr2_state.state == BBR2StateMachine::Drain
                || congestion.bbr2_state.state == BBR2StateMachine::ProbeRTT),
            ),
            congestion.algorithm == CongestionControlAlgorithm::BBR2 ==> r == (
                congestion.bbr2_state.state == BBR2StateMachine::Startup,
                false,
                (congestion.bbr_state.state != BBRStateMachine::ProbeBW
                || congestion.bbr2_state.state == BBR2StateMachine::Startup
                || congestion.bbr2_state.state == BBR2StateMachine::Drain
                || congestion.bbr2_state.state == BBR2StateMachine::ProbeRTT),
            ),
    {
        match congestion.algorithm {
            CongestionControlAlgorithm::CUBIC => {
                let (slow_start, recovery) = match congestion.cubic_state.state {
                    CubicState::SlowStart => (true, false),
                    CubicState::CongestionAvoidance => (false, false),
                    CubicState::Recovery => (false, true),
                };
                (slow_start, recovery, slow_start || recovery)
            },
            CongestionControlAlgorithm::BBR => {
                let startup = match congestion.bbr_state.state {
                    BBRStateMachine::Startup => true,
                    _ => false,
                };
                (startup, false, self.check_bbr_states(congestion))
            },
            CongestionControlAlgorithm::BBR2 => {
                let startup = match congestion.bbr2_state.state {
                    BBR2StateMachine::Startup => true,
                    _ => false,
                };
                (startup, false, self.check_bbr_states(congestion))
            },
        }
    }

    /// Checks the congestion phase of the data path in `slot` and, once the
    /// handshake is complete, requests frequent acknowledgements while the
    /// controller needs them and relaxed ones otherwise. A request is
    /// raised only when the requested threshold changes.
    pub fn check_ack_frequency_triggers_on_data_path(&mut self, slot: usize)
        ensures
            final(self).paths@ == old(self).paths@,
            final(self).handshake_completed == old(self).handshake_completed,
            (final(self).requested_ack_eliciting_threshold, final(self).needs_ack_frequency_update)
                == check_outcome(old(self), slot as int),
            old(self).handshake_completed && slot < old(self).paths@.len()
                ==> final(self).requested_ack_eliciting_threshold == wanted_threshold(
                old(self).paths@[slot as int].recovery.congestion,
            ),
            old(self).handshake_completed && slot < old(self).paths@.len() ==> ({
                let c = old(self).paths@[slot as int].recovery.congestion;
                final(self).requested_ack_eliciting_threshold == if (c.algorithm
                    == CongestionControlAlgorithm::CUBIC && (c.cubic_state.state
                    == CubicState::SlowStart || c.cubic_state.state == CubicState::Recovery)) || (
                c.algorithm != CongestionControlAlgorithm::CUBIC && (c.bbr_state.state != BBRStateMachine::ProbeBW
                || c.bbr2_state.state == BBR2StateMachine::Startup
                || c.bbr2_state.state == BBR2StateMachine::Drain
                || c.bbr2_state.state == BBR2StateMachine::ProbeRTT)) {
                    1u64
                } else {
                    10u64
                }
            }),
            !old(self).handshake_completed || slot >= old(self).paths@.len() ==> (
                final(self).requested_ack_eliciting_threshold
                    == old(self).requested_ack_eliciting_threshold
                    && final(self).needs_ack_frequency_update
                    == old(self).needs_ack_frequency_update),
            final(self).requested_ack_eliciting_threshold
                != old(self).requested_ack_eliciting_threshold
                ==> final(self).needs_ack_frequency_update,
            final(self).requested_ack_eliciting_threshold
                == old(self).requested_ack_eliciting_threshold
                ==> final(self).needs_ack_frequency_update == old(self).needs_ack_frequency_update,
    {
        if !self.handshake_completed {
            return;
        }
        let congestion = match self.paths.get(slot) {
            Some(p) => p.recovery.congestion,
            None => {
                return;
            },
        };
        let (in_slow_start, in_recovery, algorithm_specific) = self.analyze_congestion_state(
            &congestion,
        );
        let wanted = if in_slow_start || in_recovery || algorithm_specific {
            FREQUENT_ACK_ELICITING_THRESHOLD
        } else {
            RELAXED_ACK_ELICITING_THRESHOLD
        };
        if wanted != self.requested_ack_eliciting_threshold {
            self.requested_ack_eliciting_threshold = wanted;
            self.needs_ack_frequency_update = true;
        }
    }
}

/// The BBR family calls for frequent acknowledgements exactly when the BBR
/// machine is outside ProbeBW or the BBRv2 machine is in start-up, drain or
/// RTT probing. With BBR in ProbeBW, every ProbeBW sub-phase of BBRv2 (DOWN,
/// CRUISE, REFILL, UP) allows relaxed acknowledgements.
pub proof fn lemma_bbr_family_phases(c: Congestion)
    ensures
        bbr_family_needs_frequent_acks(c) <==> (c.bbr_state.state != BBRStateMachine::ProbeBW
                || c.bbr2_state.state == BBR2StateMachine::Startup
                || c.bbr2_state.state == BBR2StateMachine::Drain
                || c.bbr2_state.state == BBR2StateMachine::ProbeRTT),
        c.bbr_state.state == BBRStateMachine::ProbeBW ==> (bbr_family_needs_frequent_acks(c) <==> (
        c.bbr2_state.state == BBR2StateMachine::Startup || c.bbr2_state.state
            == BBR2StateMachine::Drain || c.bbr2_state.state == BBR2StateMachine::ProbeRTT)),
        c.bbr_state.state == BBRStateMachine::ProbeBW && (c.bbr2_state.state
            == BBR2StateMachine::ProbeBWDOWN || c.bbr2_state.state
            == BBR2StateMachine::ProbeBWCRUISE || c.bbr2_state.state
            == BBR2StateMachine::ProbeBWREFILL || c.bbr2_state.state
            == BBR2StateMachine::ProbeBWUP) ==> !bbr_family_needs_frequent_acks(c),
        c.bbr_state.state != BBRStateMachine::ProbeBW ==> bbr_family_needs_frequent_acks(c),
        c.bbr2_state.state == BBR2StateMachine::Drain ==> bbr_family_needs_frequent_acks(c),
{
}

/// For a BBR or BBRv2 controller the analysis reports slow start during the
/// algorithm's start-up, never loss recovery, and a frequent-ACK phase
/// exactly when the BBR-family check says so.
pub proof fn lemma_bbr_analysis(c: Congestion)
    requires
        c.algorithm == CongestionControlAlgorithm::BBR || c.algorithm
            == CongestionControlAlgorithm::BBR2,
    ensures
        congestion_analysis(c).1 == false,
        congestion_analysis(c).2 == (c.bbr_state.state != BBRStateMachine::ProbeBW
                || c.bbr2_state.state == BBR2StateMachine::Startup
                || c.bbr2_state.state == BBR2StateMachine::Drain
                || c.bbr2_state.state == BBR2StateMachine::ProbeRTT),
        c.algorithm == CongestionControlAlgorithm::BBR ==> congestion_analysis(c).0 == (
        c.bbr_state.state == BBRStateMachine::Startup),
        c.algorithm == CongestionControlAlgorithm::BBR2 ==> congestion_analysis(c).0 == (
        c.bbr2_state.state == BBR2StateMachine::Startup),
        c.algorithm == CongestionControlAlgorithm::BBR2 && c.bbr2_state.state
            == BBR2StateMachine::Drain ==> congestion_analysis(c).2,
{
}

/// The wanted threshold is 1 exactly when the analysis reports slow start,
/// recovery or a frequent-ACK phase, and 10 otherwise. Over the phases: a
/// CUBIC controller wants 1 in slow start and recovery; a BBR or BBRv2
/// controller wants 1 when the BBR machine is outside ProbeBW or the BBRv2
/// machine is in start-up, drain or RTT probing. So a BBRv2 controller in
/// drain, and a BBR controller in start-up, drain or RTT probing, want 1.
pub proof fn lemma_wanted_threshold(c: Congestion)
    ensures
        ({
            let (a, b, d) = congestion_analysis(c);
            needs_frequent_acks(c) == (a || b || d)
        }),
        wanted_threshold(c) == FREQUENT_ACK_ELICITING_THRESHOLD || wanted_threshold(c)
            == RELAXED_ACK_ELICITING_THRESHOLD,
        wanted_threshold(c) == 1 <==> needs_frequent_acks(c),
        c.algorithm == CongestionControlAlgorithm::CUBIC ==> (wanted_threshold(c) == 1 <==> (
        c.cubic_state.state == CubicState::SlowStart || c.cubic_state.state
            == CubicState::Recovery)),
        c.algorithm != CongestionControlAlgorithm::CUBIC ==> (wanted_threshold(c) == 1
            <==> (c.bbr_state.state != BBRStateMachine::ProbeBW
                || c.bbr2_state.state == BBR2StateMachine::Startup
                || c.bbr2_state.state == BBR2StateMachine::Drain
                || c.bbr2_state.state == BBR2StateMachine::ProbeRTT)),
        wanted_threshold(c) != 1 ==> wanted_threshold(c) == 10,
        c.algorithm == CongestionControlAlgorithm::BBR2 && c.bbr2_state.state
            == BBR2StateMachine::Drain ==> wanted_threshold(c) == FREQUENT_ACK_ELICITING_THRESHOLD,
        c.algorithm == CongestionControlAlgorithm::BBR && (c.bbr_state.state
            == BBRStateMachine::Startup || c.bbr_state.state == BBRStateMachine::Drain
            || c.bbr_state.state == BBRStateMachine::ProbeRTT) ==> wanted_threshold(c)
            == FREQUENT_ACK_ELICITING_THRESHOLD,
{
}

/// On a connection past its handshake, the trigger check on a BBRv2 path
/// in drain requests threshold 1, raising an update if it was not 1.
pub proof fn lemma_draining_bbr2_path_gets_frequent_acks(conn: &Connection, slot: int)
    requires
        conn.handshake_completed,
        0 <= slot < conn.paths@.len(),
        conn.paths@[slot].recovery.congestion.algorithm == CongestionControlAlgorithm::BBR2,
        conn.paths@[slot].recovery.congestion.bbr2_state.state == BBR2StateMachine::Drain,
    ensures
        check_outcome(conn, slot).0 == 1,
        conn.requested_ack_eliciting_threshold != 1 ==> check_outcome(conn, slot).1,
{
}

/// Running the trigger check twice on the same path changes nothing the
/// second time: the check is idempotent.
pub proof fn lemma_check_idempotent(conn: &Connection, slot: int)
    ensures
        ({
            let (t, p) = check_outcome(conn, slot);
            ack_frequency_after(conn.handshake_completed, path_at(conn.paths@, slot), t, p) == (
            t,
            p,
            )
        }),
{
}

/// The requested threshold is always one of the two levels, provided it
/// started as one: the check only ever requests those two.
pub proof fn lemma_threshold_stays_in_levels(conn: &Connection, slot: int)
    requires
        conn.requested_ack_eliciting_threshold == FREQUENT_ACK_ELICITING_THRESHOLD
            || conn.requested_ack_eliciting_threshold == RELAXED_ACK_ELICITING_THRESHOLD,
    ensures
        check_outcome(conn, slot).0 == FREQUENT_ACK_ELICITING_THRESHOLD || check_outcome(
            conn,
            slot,
        ).0 == RELAXED_ACK_ELICITING_THRESHOLD,
{
}

/// A CUBIC path needs frequent acknowledgements exactly in slow start and
/// in recovery, and relaxed ones in congestion avoidance.
pub proof fn lemma_cubic_frequent_acks(c: Congestion)
    requires
        c.algorithm == CongestionControlAlgorithm::CUBIC,
    ensures
        needs_frequent_acks(c) <==> (c.cubic_state.state == CubicState::SlowStart
            || c.cubic_state.state == CubicState::Recovery),
        wanted_threshold(c) == RELAXED_ACK_ELICITING_THRESHOLD <==> c.cubic_state.state
            == CubicState::CongestionAvoidance,
{
}

} // verus!
