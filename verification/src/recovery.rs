//! Congestion-control state that a path's recovery keeps.
//!
//! Each path runs one congestion-control algorithm. The phase of each
//! algorithm's state machine is kept as an enum; the ACK-frequency logic
//! reads these phases to decide how often the peer should acknowledge.
use vstd::prelude::*;

verus! {

/// The congestion-control algorithms a path can run.
#[derive(Clone, Copy, PartialEq, Eq, Debug, Structural)]
pub enum CongestionControlAlgorithm {
    CUBIC,
    BBR,
    BBR2,
}

/// Phases of the CUBIC window controller.
#[derive(Clone, Copy, PartialEq, Eq, Debug, Structural)]
pub enum CubicState {
    SlowStart,
    CongestionAvoidance,
    Recovery,
}

/// Phases of the BBR state machine.
#[derive(Clone, Copy, PartialEq, Eq, Debug, Structural)]
pub enum BBRStateMachine {
    Startup,
    Drain,
    ProbeBW,
    ProbeRTT,
}

/// Phases of the BBRv2 state machine.
#[derive(Clone, Copy, PartialEq, Eq, Debug, Structural)]
pub enum BBR2StateMachine {
    Startup,
    Drain,
    ProbeBWDOWN,
    ProbeBWCRUISE,
    ProbeBWREFILL,
    ProbeBWUP,
    ProbeRTT,
}

/// The CUBIC controller's state.
#[derive(Clone, Copy, PartialEq, Eq, Debug, Structural)]
pub struct CubicMachine {
    pub state: CubicState,
}

/// The BBR controller's state.
#[derive(Clone, Copy, PartialEq, Eq, Debug, Structural)]
pub struct BbrMachine {
    pub state: BBRStateMachine,
}

/// The BBRv2 controller's state.
#[derive(Clone, Copy, PartialEq, Eq, Debug, Structural)]
pub struct Bbr2Machine {
    pub state: BBR2StateMachine,
}

/// Congestion-control state of one path: the algorithm in use and the
/// phase of each algorithm's state machine.
#[derive(Clone, Copy, PartialEq, Eq, Debug, Structural)]
pub struct Congestion {
    pub algorithm: CongestionControlAlgorithm,
    pub cubic_state: CubicMachine,
    pub bbr_state: BbrMachine,
    pub bbr2_state: Bbr2Machine,
}

/// Loss recovery of one path.
#[derive(Clone, Copy, PartialEq, Eq, Debug, Structural)]
pub struct Recovery {
    pub congestion: Congestion,
}

/// A fresh controller: the machine of the algorithm in use starts in its
/// start-up phase, the machines of the other algorithms rest in their
/// steady phase.
pub open spec fn fresh_congestion(algorithm: CongestionControlAlgorithm) -> Congestion {
    Congestion {
        algorithm,
        cubic_state: CubicMachine {
            state: if algorithm == CongestionControlAlgorithm::CUBIC {
                CubicState::SlowStart
            } else {
                CubicState::CongestionAvoidance
            },
        },
        bbr_state: BbrMachine {
            state: if algorithm == CongestionControlAlgorithm::BBR {
                BBRStateMachine::Startup
            } else {
                BBRStateMachine::ProbeBW
            },
        },
        bbr2_state: Bbr2Machine {
            state: if algorithm == CongestionControlAlgorithm::BBR2 {
                BBR2StateMachine::Startup
            } else {
                BBR2StateMachine::ProbeBWCRUISE
            },
        },
    }
}

impl Congestion {
    /// Creates the controller state of a path that runs `algorithm`.
    pub fn new(algorithm: CongestionControlAlgorithm) -> (c: Congestion)
        ensures
            c == fresh_congestion(algorithm),
    {
        let cubic = match algorithm {
            CongestionControlAlgorithm::CUBIC => CubicState::SlowStart,
            _ => CubicState::CongestionAvoidance,
        };
        let bbr = match algorithm {
            CongestionControlAlgorithm::BBR => BBRStateMachine::Startup,
            _ => BBRStateMachine::ProbeBW,
        };
        let bbr2 = match algorithm {
            CongestionControlAlgorithm::BBR2 => BBR2StateMachine::Startup,
            _ => BBR2StateMachine::ProbeBWCRUISE,
        };
        Congestion {
            algorithm,
            cubic_state: CubicMachine { state: cubic },
            bbr_state: BbrMachine { state: bbr },
            bbr2_state: Bbr2Machine { state: bbr2 },
        }
    }
}

impl Recovery {
    /// Creates the recovery state of a path that runs `algorithm`.
    pub fn new(algorithm: CongestionControlAlgorithm) -> (r: Recovery)
        ensures
            r.congestion == fresh_congestion(algorithm),
    {
        Recovery { congestion: Congestion::new(algorithm) }
    }
}

} // verus!
