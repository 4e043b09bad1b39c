//! Network paths of a multipath connection and the map that holds them.
use vstd::prelude::*;

use crate::recovery::{fresh_congestion, CongestionControlAlgorithm, Recovery};

verus! {

/// Identifier that a path carries on the wire.
pub type PathId = u64;

/// Validation progress of a path, from worst to best.
#[derive(Clone, Copy, PartialEq, Eq, Debug, Structural)]
pub enum PathState {
    /// Validation of the path failed.
    Failed,
    /// Nothing is known about the path yet.
    Unknown,
    /// A path challenge is outstanding.
    Validating,
    /// The path is being checked for a sufficient MTU.
    ValidatingMTU,
    /// The peer answered a challenge on this path.
    Validated,
}

/// Measurements a scheduler reads to pick a path.
#[derive(Clone, Copy, PartialEq, Eq, Debug, Structural)]
pub struct PathStats {
    /// Estimated delivery rate, in bytes per second.
    pub delivery_rate: u64,
    /// Round-trip time, in nanoseconds.
    pub rtt: u64,
}

/// One network path of a connection.
#[derive(Clone, Copy, PartialEq, Eq, Debug, Structural)]
pub struct Path {
    /// The path's identifier.
    pub path_id: PathId,
    /// How far validation of the path has come.
    pub state: PathState,
    /// Whether the application marked the path as one to send on.
    pub active: bool,
    /// Sequence number of the destination connection id bound to the path.
    pub active_dcid_seq: Option<u64>,
    /// Measurements of the path.
    pub stats: PathStats,
    /// Loss recovery and congestion control of the path.
    pub recovery: Recovery,
}

impl Path {
    /// The path has not failed validation.
    pub open spec fn is_working(&self) -> bool {
        self.state != PathState::Failed
    }

    /// The path can carry non-probing packets.
    pub open spec fn is_active(&self) -> bool {
        self.active && self.is_working() && self.active_dcid_seq.is_some()
    }

    /// The path can be used to send on: it is active, or it was validated
    /// and has a destination connection id.
    pub open spec fn is_usable(&self) -> bool {
        self.is_active() || (self.state == PathState::Validated
            && self.active_dcid_seq.is_some())
    }

    /// Creates a path with fresh measurements and recovery state.
    ///
    /// The initial path of a connection is validated and active from the
    /// start, with destination connection id 0; any other path starts
    /// unknown, inactive and without a destination connection id.
    pub fn new(path_id: PathId, algorithm: CongestionControlAlgorithm, is_initial: bool) -> (p: Path)
        ensures
            p.path_id == path_id,
            p.state == (if is_initial { PathState::Validated } else { PathState::Unknown }),
            p.active == is_initial,
            p.active_dcid_seq == (if is_initial { Some(0u64) } else { None }),
            p.stats == (PathStats { delivery_rate: 0, rtt: 0 }),
            p.recovery.congestion == fresh_congestion(algorithm),
    {
        let (state, dcid) = if is_initial {
            (PathState::Validated, Some(0u64))
        } else {
            (PathState::Unknown, None)
        };
        Path {
            path_id,
            state,
            active: is_initial,
            active_dcid_seq: dcid,
            stats: PathStats { delivery_rate: 0, rtt: 0 },
            recovery: Recovery::new(algorithm),
        }
    }

    /// Returns the path's identifier.
    pub fn path_id(&self) -> (id: PathId)
        ensures
            id == self.path_id,
    {
        self.path_id
    }

    /// Returns whether the path can be used to send on.
    pub fn usable(&self) -> (b: bool)
        ensures
            b == self.is_usable(),
            b == ((self.active && self.state != PathState::Failed && self.active_dcid_seq is Some)
                || (self.state == PathState::Validated && self.active_dcid_seq is Some)),
    {
        let working = match self.state {
            PathState::Failed => false,
            _ => true,
        };
        let validated = match self.state {
            PathState::Validated => true,
            _ => false,
        };
        let has_dcid = self.active_dcid_seq.is_some();
        (self.active && working && has_dcid) || (validated && has_dcid)
    }
}

/// A path is usable exactly when it has a destination connection id and
/// is either active and not failed, or validated. In particular a path that
/// is neither active nor validated (one still being probed) is not usable,
/// and neither is one without a destination connection id.
pub proof fn lemma_usable_paths(p: Path)
    ensures
        p.is_usable() <==> ((p.active && p.state != PathState::Failed && p.active_dcid_seq is Some)
            || (p.state == PathState::Validated && p.active_dcid_seq is Some)),
        !p.active && p.state != PathState::Validated ==> !p.is_usable(),
        p.active_dcid_seq is None ==> !p.is_usable(),
        p.state == PathState::Failed ==> !p.is_usable(),
{
}

/// The paths of a connection, indexed by their slot.
pub struct PathMap {
    paths: Vec<Path>,
}

impl View for PathMap {
    type V = Seq<Path>;

    closed spec fn view(&self) -> Seq<Path> {
        self.paths@
    }
}

impl PathMap {
    /// Creates a map without paths.
    pub fn new() -> (m: PathMap)
        ensures
            m@ == Seq::<Path>::empty(),
    {
        PathMap { paths: Vec::new() }
    }

    /// Number of paths in the map.
    pub fn len(&self) -> (n: usize)
        ensures
            n == self@.len(),
    {
        self.paths.len()
    }

    /// Adds a path and returns the slot it was given.
    pub fn insert_path(&mut self, path: Path) -> (slot: usize)
        ensures
            final(self)@ == old(self)@.push(path),
            slot == old(self)@.len(),
    {
        let slot = self.paths.len();
        self.paths.push(path);
        slot
    }

    /// The path in slot `slot`, if there is one.
    pub fn get(&self, slot: usize) -> (r: Option<&Path>)
        ensures
            slot < self@.len() ==> r == Some(&self@[slot as int]),
            slot >= self@.len() ==> r is None,
    {
        if slot < self.paths.len() {
            Some(&self.paths[slot])
        } else {
            None
        }
    }

    /// The path in slot `slot`, for changing it, if there is one.
    pub fn get_mut(&mut self, slot: usize) -> (r: Option<&mut Path>)
        ensures
            slot < old(self)@.len() ==> r is Some && *r->0 == old(self)@[slot as int]
                && final(self)@ == old(self)@.update(slot as int, *final(r->0)),
            slot >= old(self)@.len() ==> r is None && final(self)@ == old(self)@,
    {
        if slot < self.paths.len() {
            Some(&mut self.paths[slot])
        } else {
            None
        }
    }
}

} // verus!
