//! Path schedulers for data/ACK separation: data goes on the usable path
//! with the highest delivery rate, acknowledgements on the usable path with
//! the lowest round-trip time.
use vstd::prelude::*;

use crate::path::{Path, PathId, PathMap, PathState};

verus! {

/// Errors of the schedulers.
#[derive(Clone, Copy, PartialEq, Eq, Debug, Structural)]
pub enum Error {
    /// No usable path is available.
    UnavailablePath,
}

/// Some path of `s` is usable.
pub open spec fn has_usable(s: Seq<Path>) -> bool {
    exists|i: int| 0 <= i < s.len() && #[trigger] s[i].is_usable()
}

/// Among the first `k` paths of `s`, `i` is the data path: it is usable,
/// no usable path has a higher delivery rate, and every later usable path
/// has a lower one (of equal rates the last path wins).
pub open spec fn data_choice_within(s: Seq<Path>, k: int, i: int) -> bool {
    &&& 0 <= i < k <= s.len()
    &&& s[i].is_usable()
    &&& forall|j: int|
        0 <= j < k && #[trigger] s[j].is_usable() ==> s[j].stats.delivery_rate
            <= s[i].stats.delivery_rate
    &&& forall|j: int|
        i < j < k && #[trigger] s[j].is_usable() ==> s[j].stats.delivery_rate
            < s[i].stats.delivery_rate
}

/// Path `i` is the one the data scheduler picks from `s`.
pub open spec fn is_data_choice(s: Seq<Path>, i: int) -> bool {
    data_choice_within(s, s.len() as int, i)
}

/// Among the first `k` paths of `s`, `i` is the ACK path: it is usable,
/// no usable path has a lower round-trip time, and every earlier usable
/// path has a higher one (of equal times the first path wins).
pub open spec fn ack_choice_within(s: Seq<Path>, k: int, i: int) -> bool {
    &&& 0 <= i < k <= s.len()
    &&& s[i].is_usable()
    &&& forall|j: int|
        0 <= j < k && #[trigger] s[j].is_usable() ==> s[i].stats.rtt <= s[j].stats.rtt
    &&& forall|j: int| 0 <= j < i && #[trigger] s[j].is_usable() ==> s[i].stats.rtt < s[j].stats.rtt
}

/// Path `i` is the one the ACK scheduler picks from `s`.
pub open spec fn is_ack_choice(s: Seq<Path>, i: int) -> bool {
    ack_choice_within(s, s.len() as int, i)
}

/// Scanning the first `k` paths either finds no usable path or yields a
/// data choice among them.
proof fn lemma_data_choice_prefix(s: Seq<Path>, k: int)
    requires
        0 <= k <= s.len(),
    ensures
        (exists|i: int| data_choice_within(s, k, i)) || (forall|j: int|
            0 <= j < k ==> !(#[trigger] s[j].is_usable())),
    decreases k,
{
    if k > 0 {
        let km = k - 1;
        lemma_data_choice_prefix(s, km);
        if exists|i: int| data_choice_within(s, km, i) {
            let i = choose|i: int| data_choice_within(s, km, i);
            if s[k - 1].is_usable() && s[k - 1].stats.delivery_rate >= s[i].stats.delivery_rate {
                assert(data_choice_within(s, k, k - 1));
            } else {
                assert(data_choice_within(s, k, i));
            }
        } else if s[k - 1].is_usable() {
            assert(data_choice_within(s, k, k - 1));
        }
    }
}

/// Scanning the first `k` paths either finds no usable path or yields an
/// ACK choice among them.
proof fn lemma_ack_choice_prefix(s: Seq<Path>, k: int)
    requires
        0 <= k <= s.len(),
    ensures
        (exists|i: int| ack_choice_within(s, k, i)) || (forall|j: int|
            0 <= j < k ==> !(#[trigger] s[j].is_usable())),
    decreases k,
{
    if k > 0 {
        let km = k - 1;
        lemma_ack_choice_prefix(s, km);
        if exists|i: int| ack_choice_within(s, km, i) {
            let i = choose|i: int| ack_choice_within(s, km, i);
            if s[k - 1].is_usable() && s[k - 1].stats.rtt < s[i].stats.rtt {
                assert(ack_choice_within(s, k, k - 1));
            } else {
                assert(ack_choice_within(s, k, i));
            }
        } else if s[k - 1].is_usable() {
            assert(ack_choice_within(s, k, k - 1));
        }
    }
}

/// Both schedulers find a path exactly when some path is usable, so the
/// data scheduler and the ACK scheduler fail on the same path maps.
pub proof fn lemma_schedulers_fail_together(paths: &PathMap)
    ensures
        has_usable(paths@) <==> exists|i: int| is_data_choice(paths@, i),
        has_usable(paths@) <==> exists|i: int| is_ack_choice(paths@, i),
{
    let s = paths@;
    lemma_data_choice_prefix(s, s.len() as int);
    lemma_ack_choice_prefix(s, s.len() as int);
    let n = s.len() as int;
    if has_usable(s) {
        let j = choose|j: int| 0 <= j < s.len() && #[trigger] s[j].is_usable();
        assert(s[j].is_usable());
        let i = choose|i: int| data_choice_within(s, n, i);
        assert(is_data_choice(s, i));
        let a = choose|a: int| ack_choice_within(s, n, a);
        assert(is_ack_choice(s, a));
    }
    if exists|i: int| is_data_choice(s, i) {
        let i = choose|i: int| is_data_choice(s, i);
        assert(s[i].is_usable());
    }
    if exists|i: int| is_ack_choice(s, i) {
        let i = choose|i: int| is_ack_choice(s, i);
        assert(s[i].is_usable());
    }
}

/// The data scheduler's choice is unique: it names one path of the map.
pub proof fn lemma_data_choice_unique(paths: &PathMap, i: int, k: int)
    requires
        is_data_choice(paths@, i),
        is_data_choice(paths@, k),
    ensures
        i == k,
{
    let s = paths@;
    if i < k {
        assert(s[k].is_usable());
    } else if k < i {
        assert(s[i].is_usable());
    }
}

/// The ACK scheduler's choice is unique: it names one path of the map.
pub proof fn lemma_ack_choice_unique(paths: &PathMap, i: int, k: int)
    requires
        is_ack_choice(paths@, i),
        is_ack_choice(paths@, k),
    ensures
        i == k,
{
    let s = paths@;
    if i < k {
        assert(s[i].is_usable());
    } else if k < i {
        assert(s[k].is_usable());
    }
}

/// The data path delivers at least as fast as the ACK path, and the ACK
/// path answers at least as quickly as the data path.
pub proof fn lemma_data_and_ack_paths_compare(paths: &PathMap, d: int, a: int)
    requires
        is_data_choice(paths@, d),
        is_ack_choice(paths@, a),
    ensures
        paths@[d].stats.delivery_rate >= paths@[a].stats.delivery_rate,
        paths@[a].stats.rtt <= paths@[d].stats.rtt,
{
    let s = paths@;
    assert(s[a].is_usable());
    assert(s[d].is_usable());
}

/// A path either scheduler picks has a destination connection id and is
/// active and not failed, or validated: a path still being probed is never
/// picked.
pub proof fn lemma_chosen_path_is_usable(paths: &PathMap, i: int)
    requires
        is_data_choice(paths@, i) || is_ack_choice(paths@, i),
    ensures
        paths@[i].active_dcid_seq is Some,
        (paths@[i].active && paths@[i].state != PathState::Failed) || paths@[i].state
            == PathState::Validated,
{
}

/// The data path is usable, no usable path delivers faster, and of usable
/// paths with the same rate it is the last in the map.
pub proof fn lemma_data_choice_properties(paths: &PathMap, i: int)
    requires
        is_data_choice(paths@, i),
    ensures
        0 <= i < paths@.len(),
        paths@[i].is_usable(),
        forall|j: int|
            0 <= j < paths@.len() && #[trigger] paths@[j].is_usable() ==> paths@[j].stats.delivery_rate
                <= paths@[i].stats.delivery_rate,
        forall|j: int|
            0 <= j < paths@.len() && #[trigger] paths@[j].is_usable()
                && paths@[j].stats.delivery_rate == paths@[i].stats.delivery_rate ==> j <= i,
{
}

/// The ACK path is usable, no usable path has a lower RTT, and of usable
/// paths with the same RTT it is the first in the map.
pub proof fn lemma_ack_choice_properties(paths: &PathMap, i: int)
    requires
        is_ack_choice(paths@, i),
    ensures
        0 <= i < paths@.len(),
        paths@[i].is_usable(),
        forall|j: int|
            0 <= j < paths@.len() && #[trigger] paths@[j].is_usable() ==> paths@[i].stats.rtt
                <= paths@[j].stats.rtt,
        forall|j: int|
            0 <= j < paths@.len() && #[trigger] paths@[j].is_usable() && paths@[j].stats.rtt
                == paths@[i].stats.rtt ==> i <= j,
{
}

/// With a single usable path, data and acknowledgements both go on it.
pub proof fn lemma_single_usable_path(paths: &PathMap, i: int)
    requires
        0 <= i < paths@.len(),
        paths@[i].is_usable(),
        forall|j: int| 0 <= j < paths@.len() && j != i ==> !(#[trigger] paths@[j].is_usable()),
    ensures
        is_data_choice(paths@, i),
        is_ack_choice(paths@, i),
{
}

/// Chooses paths for the two kinds of traffic.
pub struct Scheduler;

impl Scheduler {
    /// Selects the path with the highest delivery rate (i.e. best for data).
    ///
    /// Only usable paths are considered; of several with the highest rate
    /// the last one in the map is taken. Fails with
    /// `Error::UnavailablePath` when no path is usable.
    pub fn select_path_for_data(paths: &PathMap) -> (r: Result<PathId, Error>)
        ensures
            r is Err <==> !has_usable(paths@),
            r is Err <==> forall|j: int| 0 <= j < paths@.len() ==> !(#[trigger] paths@[j].is_usable()),
            r matches Err(e) ==> e == Error::UnavailablePath,
            r matches Ok(id) ==> exists|i: int| #[trigger]
                is_data_choice(paths@, i) && paths@[i].path_id == id,
    {
        let n = paths.len();
        let mut best: Option<usize> = None;
        let mut best_rate: u64 = 0;
        let mut k: usize = 0;
        while k < n
            invariant
                n == paths@.len(),
                k <= n,
                best matches Some(b) ==> data_choice_within(paths@, k as int, b as int)
                    && best_rate == paths@[b as int].stats.delivery_rate,
                best is None ==> forall|j: int| 0 <= j < k ==> !(#[trigger] paths@[j].is_usable()),
            decreases n - k,
        {
            match paths.get(k) {
                Some(p) => {
                    if p.usable() && (best.is_none() || p.stats.delivery_rate >= best_rate) {
                        best = Some(k);
                        best_rate = p.stats.delivery_rate;
                    }
                },
                None => {},
            }
            k = k + 1;
        }
        match best {
            Some(b) => {
                let p = paths.get(b).unwrap();
                assert(is_data_choice(paths@, b as int));
                Ok(p.path_id())
            },
            None => Err(Error::UnavailablePath),
        }
    }

    /// Selects the path with the lowest RTT (i.e. best for ACKs).
    ///
    /// Only usable paths are considered; of several with the lowest RTT
    /// the first one in the map is taken. Fails with
    /// `Error::UnavailablePath` when no path is usable.
    pub fn select_path_for_ack(paths: &PathMap) -> (r: Result<PathId, Error>)
        ensures
            r is Err <==> !has_usable(paths@),
            r is Err <==> forall|j: int| 0 <= j < paths@.len() ==> !(#[trigger] paths@[j].is_usable()),
            r matches Err(e) ==> e == Error::UnavailablePath,
            r matches Ok(id) ==> exists|i: int| #[trigger]
                is_ack_choice(paths@, i) && paths@[i].path_id == id,
    {
        let n = paths.len();
        let mut best: Option<usize> = None;
        let mut best_rtt: u64 = 0;
        let mut k: usize = 0;
        while k < n
            invariant
                n == paths@.len(),
                k <= n,
                best matches Some(b) ==> ack_choice_within(paths@, k as int, b as int)
                    && best_rtt == paths@[b as int].stats.rtt,
                best is None ==> forall|j: int| 0 <= j < k ==> !(#[trigger] paths@[j].is_usable()),
            decreases n - k,
        {
            match paths.get(k) {
                Some(p) => {
                    if p.usable() && (best.is_none() || p.stats.rtt < best_rtt) {
                        best = Some(k);
                        best_rtt = p.stats.rtt;
                    }
                },
                None => {},
            }
            k = k + 1;
        }
        match best {
            Some(b) => {
                let p = paths.get(b).unwrap();
                assert(is_ack_choice(paths@, b as int));
                Ok(p.path_id())
            },
            None => Err(Error::UnavailablePath),
        }
    }
}

} // verus!
