//! A model of the disk the guard's actions act on, and what a whole run of
//! the guard does to it.
//!
//! [`perform`] is a host that does what each action asks, except where the
//! run's fault sequence makes an operation fail. [`run_from`] drives the
//! guard against it until the guard finishes.

use crate::guard::{
    after_target, next, probe, purge_targets, start, ActionView, EventView, GuardConfigView,
    GuardView, Location, Outcome, Phase, PurgeStrategy, PURGE_TARGET_COUNT,
};
use crate::version::{lemma_trimmed_idempotent, trimmed};
use vstd::prelude::*;

verus! {

/// The part of the disk the guard looks at: whether the local-data directory
/// exists, the marker's content, and the directory names under each base
/// directory.
pub struct Disk {
    pub local_exists: bool,
    pub marker: Option<Seq<char>>,
    pub local: Set<Seq<char>>,
    pub cache: Set<Seq<char>>,
}

impl Disk {
    /// Nothing lies in a local-data directory that does not exist.
    pub open spec fn wf(self) -> bool {
        !self.local_exists ==> self.marker is None && self.local.is_empty()
    }

    /// The directory names under `at`.
    pub open spec fn dirs(self, at: Location) -> Set<Seq<char>> {
        match at {
            Location::LocalData => self.local,
            Location::Cache => self.cache,
        }
    }

    /// The disk after directory `name` under `at` is removed.
    pub open spec fn remove_dir(self, at: Location, name: Seq<char>) -> Disk {
        match at {
            Location::LocalData => Disk { local: self.local.remove(name), ..self },
            Location::Cache => Disk { cache: self.cache.remove(name), ..self },
        }
    }
}

/// Performs `a` on `d`. With `fail` set the operation fails and leaves the
/// disk as it was; a marker that cannot be read reads as missing.
pub open spec fn perform(d: Disk, a: ActionView, fail: bool) -> (Disk, EventView) {
    match a {
        ActionView::CreateLocalDataDir => if fail {
            (d, EventView::Failed(seq![]))
        } else {
            (Disk { local_exists: true, ..d }, EventView::Completed)
        },
        ActionView::ReadMarker => if fail {
            (d, EventView::Marker(None))
        } else {
            (d, EventView::Marker(d.marker))
        },
        ActionView::CheckDir { at, name } => (d, EventView::Exists(d.dirs(at).contains(name))),
        ActionView::RemoveDir { at, name } => if fail {
            (d, EventView::Failed(seq![]))
        } else if d.dirs(at).contains(name) {
            (d.remove_dir(at, name), EventView::Completed)
        } else {
            (d, EventView::Absent)
        },
        ActionView::WriteMarker { content } => if fail || !d.local_exists {
            (d, EventView::Failed(seq![]))
        } else {
            (Disk { marker: Some(content), ..d }, EventView::Completed)
        },
        ActionView::Finish(_) => (d, EventView::Completed),
    }
}

/// More steps than any run takes: the local-data directory, the marker, a
/// check and a removal for each target under both base directories, and
/// the new marker.
pub open spec fn run_steps() -> nat {
    (4 * PURGE_TARGET_COUNT + 4) as nat
}

/// The final action and disk when the guard, in state `g` and asking for
/// `a`, runs against `d` for at most `fuel` steps. Step `k` fails where
/// `faults[k]` is set.
pub open spec fn run(g: GuardView, a: ActionView, d: Disk, faults: Seq<bool>, fuel: nat) -> (ActionView, Disk)
    decreases fuel,
{
    if fuel == 0 || a is Finish {
        (a, d)
    } else {
        let fail = faults.len() > 0 && faults[0];
        let (d2, e) = perform(d, a, fail);
        let (g2, a2) = next(g, e);
        run(g2, a2, d2, later(faults), (fuel - 1) as nat)
    }
}

/// The final action and disk of a whole run under `c` against `d`.
pub open spec fn run_from(c: GuardConfigView, d: Disk, faults: Seq<bool>) -> (ActionView, Disk) {
    let (g, a) = start(c);
    run(g, a, d, faults, run_steps())
}

/// The marker does not name the running version, so a run purges.
pub open spec fn differs(c: GuardConfigView, d: Disk) -> bool {
    d.marker is None || trimmed(d.marker->0) != trimmed(c.version)
}

/// No purge target is left under `at` from `from` on.
pub open spec fn cleared(s: Set<Seq<char>>, from: int) -> bool {
    forall|j: int| from <= j < PURGE_TARGET_COUNT ==> !s.contains(#[trigger] purge_targets()[j])
}

/// No purge target is left in the local-data directory, nor in the cache
/// directory when it is purged.
pub open spec fn purged(d: Disk, cache: bool) -> bool {
    cleared(d.local, 0) && (cache ==> cleared(d.cache, 0))
}

/// The faults of the steps after the first.
pub open spec fn later(f: Seq<bool>) -> Seq<bool> {
    if f.len() > 0 {
        f.drop_first()
    } else {
        f
    }
}

/// No step of the run fails.
pub open spec fn no_faults(f: Seq<bool>) -> bool {
    forall|k: int| 0 <= k < f.len() ==> !#[trigger] f[k]
}

spec fn steps_left(at: Location, index: usize, cache: bool) -> nat {
    (2 * (PURGE_TARGET_COUNT - index) + (if at == Location::LocalData && cache {
        2 * PURGE_TARGET_COUNT
    } else {
        0
    }) + 1) as nat
}

proof fn lemma_no_faults_rest(f: Seq<bool>)
    requires
        no_faults(f),
    ensures
        no_faults(later(f)),
        !(f.len() > 0 && f[0]),
{
    if f.len() > 0 {
        assert forall|k: int| 0 <= k < later(f).len() implies !#[trigger] later(f)[k] by {
            assert(later(f)[k] == f[k + 1]);
        }
    }
}

spec fn commit_post(g: GuardView, d: Disk, faults: Seq<bool>, out: (ActionView, Disk)) -> bool {
    let (r, d2) = out;
    &&& r is Finish
    &&& d2.local_exists
    &&& d2.local == d.local
    &&& d2.cache == d.cache
    &&& r->Finish_0 is Ok ==> r == ActionView::Finish(Ok(Outcome::Purged)) && d2.marker == Some(g.version)
    &&& no_faults(faults) ==> r->Finish_0 is Ok
}

spec fn commit_action(g: GuardView) -> ActionView {
    ActionView::WriteMarker { content: g.version }
}

proof fn lemma_run_commit(g: GuardView, d: Disk, faults: Seq<bool>, fuel: nat)
    requires
        g.phase == Phase::Commit,
        d.local_exists,
        fuel >= 1,
    ensures
        commit_post(g, d, faults, run(g, commit_action(g), d, faults, fuel)),
{
    reveal_with_fuel(run, 2);
    if no_faults(faults) {
        lemma_no_faults_rest(faults);
    }
}

spec fn purge_post(g: GuardView, at: Location, index: usize, d: Disk, faults: Seq<bool>, out: (ActionView, Disk)) -> bool {
    let (r, d2) = out;
    &&& r is Finish
    &&& d2.local_exists
    &&& d2.local.subset_of(d.local)
    &&& d2.cache.subset_of(d.cache)
    &&& r->Finish_0 is Ok ==> r == ActionView::Finish(Ok(Outcome::Purged))
        && d2.marker == Some(g.version)
        && cleared(d2.dirs(at), index as int)
        && (at == Location::LocalData && g.cache ==> cleared(d2.cache, 0))
    &&& no_faults(faults) ==> r->Finish_0 is Ok
}

proof fn lemma_run_purge(g: GuardView, at: Location, index: usize, d: Disk, faults: Seq<bool>, fuel: nat)
    requires
        g.phase == (Phase::Probe { at, index }),
        index < PURGE_TARGET_COUNT,
        at == Location::Cache ==> g.cache,
        d.local_exists,
        fuel >= steps_left(at, index, g.cache),
    ensures
        purge_post(g, at, index, d, faults, run(g, probe(g, at, index).1, d, faults, fuel)),
    decreases steps_left(at, index, g.cache),
{
    reveal_with_fuel(run, 3);
    let name = purge_targets()[index as int];
    let a = probe(g, at, index).1;
    let fail0 = faults.len() > 0 && faults[0];
    let f1 = later(faults);
    if no_faults(faults) {
        lemma_no_faults_rest(faults);
    }
    // The check itself never fails; after it the guard either removes the
    // target or moves on.
    let (d1, e1) = perform(d, a, fail0);
    assert(d1 == d);
    let (g1, a1) = next(g, e1);
    let present = d.dirs(at).contains(name);
    let (g_on, a_on, d_on, f_on, fuel_on) = if present {
        let fail1 = f1.len() > 0 && f1[0];
        if no_faults(f1) {
            lemma_no_faults_rest(f1);
        }
        let (d2, e2) = perform(d, a1, fail1);
        let (g2, a2) = next(g1, e2);
        if fail1 {
            assert(a2 is Finish);
            return;
        }
        assert(d2.dirs(at) == d.dirs(at).remove(name));
        (g2, a2, d2, later(f1), (fuel - 2) as nat)
    } else {
        (g1, a1, d, f1, (fuel - 1) as nat)
    };
    assert(!d_on.dirs(at).contains(name));
    assert((g_on, a_on) == after_target(g, at, index));
    assert(d_on.local.subset_of(d.local));
    assert(d_on.cache.subset_of(d.cache));
    assert(run(g, a, d, faults, fuel) == run(g_on, a_on, d_on, f_on, fuel_on));
    if index + 1 < PURGE_TARGET_COUNT {
        lemma_run_purge(g_on, at, (index + 1) as usize, d_on, f_on, fuel_on);
        let (r, d3) = run(g_on, a_on, d_on, f_on, fuel_on);
        if r->Finish_0 is Ok {
            assert forall|j: int| index <= j < PURGE_TARGET_COUNT implies !d3.dirs(at).contains(
                #[trigger] purge_targets()[j],
            ) by {
                if j == index {
                    assert(!d_on.dirs(at).contains(name));
                }
            }
        }
    } else if at == Location::LocalData && g.cache {
        lemma_run_purge(g_on, Location::Cache, 0, d_on, f_on, fuel_on);
        let (r, d3) = run(g_on, a_on, d_on, f_on, fuel_on);
        if r->Finish_0 is Ok {
            assert forall|j: int| index <= j < PURGE_TARGET_COUNT implies !d3.dirs(at).contains(
                #[trigger] purge_targets()[j],
            ) by {
                assert(j == index);
            }
        }
    } else {
        assert(a_on == commit_action(g_on));
        lemma_run_commit(g_on, d_on, f_on, fuel_on);
        let (r, d3) = run(g_on, a_on, d_on, f_on, fuel_on);
        if r->Finish_0 is Ok {
            assert forall|j: int| index <= j < PURGE_TARGET_COUNT implies !d3.dirs(at).contains(
                #[trigger] purge_targets()[j],
            ) by {
                assert(j == index);
            }
        }
    }
}

/// The run ended without error.
pub open spec fn succeeded(r: ActionView) -> bool {
    r is Finish && r->Finish_0 is Ok
}

spec fn active_post(c: GuardConfigView, d: Disk, faults: Seq<bool>, out: (ActionView, Disk)) -> bool {
    let (r, d2) = out;
    &&& r is Finish
    &&& succeeded(r) ==> d2.local_exists && d2.marker is Some && trimmed(d2.marker->0) == trimmed(c.version)
    &&& succeeded(r) && differs(c, d) ==> r == ActionView::Finish(Ok(Outcome::Purged))
        && d2.marker == Some(trimmed(c.version)) && purged(d2, c.cache_resolved)
    &&& !differs(c, d) && no_faults(faults) ==> r == ActionView::Finish(Ok(Outcome::Current)) && d2 == d
    &&& no_faults(faults) ==> succeeded(r)
}

proof fn lemma_run_active(c: GuardConfigView, d: Disk, faults: Seq<bool>)
    requires
        c.strategy == PurgeStrategy::Active,
        c.local_data_resolved,
        d.wf(),
    ensures
        active_post(c, d, faults, run_from(c, d, faults)),
{
    reveal_with_fuel(run, 3);
    let (g, a) = start(c);
    let v = trimmed(c.version);
    lemma_trimmed_idempotent(c.version);
    let f1 = later(faults);
    if no_faults(faults) {
        lemma_no_faults_rest(faults);
        lemma_no_faults_rest(f1);
    }
    if faults.len() > 0 && faults[0] {
        return;
    }
    let d1 = Disk { local_exists: true, ..d };
    let g1 = GuardView { phase: Phase::ReadMarker, ..g };
    let fail1 = f1.len() > 0 && f1[0];
    let (d2, e2) = perform(d1, ActionView::ReadMarker, fail1);
    let (g2, a2) = next(g1, e2);
    assert(run_from(c, d, faults) == run(g2, a2, d1, later(f1), (run_steps() - 2) as nat));
    if a2 is Finish {
        assert(d.local_exists);
        assert(d1 == d);
    } else {
        assert((g2, a2) == probe(g1, Location::LocalData, 0));
        lemma_run_purge(g2, Location::LocalData, 0, d1, later(f1), (run_steps() - 2) as nat);
    }
}

/// A guard that has once run without error does nothing when it runs again
/// on the same version: the second run changes nothing on disk and purges
/// nothing.
pub proof fn lemma_second_run_is_noop(c: GuardConfigView, d: Disk, faults: Seq<bool>)
    requires
        d.wf(),
    ensures
        succeeded(run_from(c, d, faults).0) ==> run_from(c, run_from(c, d, faults).1, seq![]).1
            == run_from(c, d, faults).1,
        succeeded(run_from(c, d, faults).0) ==> run_from(c, run_from(c, d, faults).1, seq![]).0
            == ActionView::Finish(Ok(
            if c.strategy == PurgeStrategy::Active {
                Outcome::Current
            } else {
                Outcome::Skipped
            },
        )),
{
    reveal_with_fuel(run, 2);
    let (r1, d1) = run_from(c, d, faults);
    if c.strategy == PurgeStrategy::Active && c.local_data_resolved {
        lemma_run_active(c, d, faults);
        if succeeded(r1) {
            lemma_run_active(c, d1, seq![]);
        }
    }
}

/// A run on a version other than the one the marker names, if it ends
/// without error, leaves no purge target under either base directory and
/// records the trimmed running version.
pub proof fn lemma_differing_run_purges(c: GuardConfigView, d: Disk, faults: Seq<bool>)
    requires
        c.strategy == PurgeStrategy::Active,
        d.wf(),
        differs(c, d),
    ensures
        succeeded(run_from(c, d, faults).0) ==> run_from(c, d, faults).0 == ActionView::Finish(
            Ok(Outcome::Purged),
        ),
        succeeded(run_from(c, d, faults).0) ==> purged(run_from(c, d, faults).1, c.cache_resolved),
        succeeded(run_from(c, d, faults).0) ==> run_from(c, d, faults).1.marker == Some(
            trimmed(c.version),
        ),
{
    reveal_with_fuel(run, 2);
    if c.local_data_resolved {
        lemma_run_active(c, d, faults);
    }
}

/// Purge targets that are absent are no error: where the local-data
/// directory can be resolved and no operation fails, a run ends without
/// error whichever targets exist.
pub proof fn lemma_absent_targets_are_no_error(c: GuardConfigView, d: Disk)
    requires
        c.local_data_resolved,
        d.wf(),
    ensures
        succeeded(run_from(c, d, seq![]).0),
{
    reveal_with_fuel(run, 2);
    if c.strategy == PurgeStrategy::Active {
        lemma_run_active(c, d, seq![]);
    }
}

/// A target that vanishes between the check and its removal is handled as
/// one that was removed.
pub proof fn lemma_vanished_target_is_no_error(g: GuardView, at: Location, index: usize)
    requires
        g.phase == (Phase::Remove { at, index }),
    ensures
        next(g, EventView::Absent) == next(g, EventView::Completed),
        !(next(g, EventView::Absent).1 is Finish),
{
}

/// After a run of the active guard that ends without error, the marker,
/// trimmed, is the running version, trimmed.
pub proof fn lemma_success_records_version(c: GuardConfigView, d: Disk, faults: Seq<bool>)
    requires
        c.strategy == PurgeStrategy::Active,
        d.wf(),
    ensures
        succeeded(run_from(c, d, faults).0) ==> run_from(c, d, faults).1.marker is Some,
        succeeded(run_from(c, d, faults).0) ==> trimmed(run_from(c, d, faults).1.marker->0)
            == trimmed(c.version),
{
    reveal_with_fuel(run, 2);
    if c.local_data_resolved {
        lemma_run_active(c, d, faults);
    }
}

/// A marker that differs from the running version only in surrounding
/// whitespace purges nothing: the run leaves the disk as it was.
pub proof fn lemma_whitespace_is_no_change(c: GuardConfigView, d: Disk)
    requires
        d.wf(),
        d.marker is Some,
        trimmed(d.marker->0) == trimmed(c.version),
    ensures
        run_from(c, d, seq![]).1 == d,
        run_from(c, d, seq![]).0 != ActionView::Finish(Ok(Outcome::Purged)),
        c.strategy == PurgeStrategy::Active && c.local_data_resolved ==> run_from(c, d, seq![]).0
            == ActionView::Finish(Ok(Outcome::Current)),
{
    reveal_with_fuel(run, 2);
    if c.strategy == PurgeStrategy::Active && c.local_data_resolved {
        lemma_run_active(c, d, seq![]);
    }
}

} // verus!
