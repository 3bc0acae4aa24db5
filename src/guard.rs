//! The startup cache guard: a single-shot state machine that compares the
//! stored version marker with the running version and, when they differ,
//! purges the known cache directories under each base directory before it
//! records the new version.
//!
//! The guard performs no I/O. Each call hands back the next [`Action`] for
//! the host to perform, and the host reports what came of it as an
//! [`Event`]. The run ends with [`Action::Finish`].

use crate::version::{trim_text, trimmed};
use vstd::prelude::*;

verus! {

/// The marker's file name in the local-data directory.
pub const MARKER_FILE_NAME: &'static str = "last-webview-cache-version.txt";

/// How many directory names the purge looks for under each base directory.
pub const PURGE_TARGET_COUNT: usize = 3;

/// The directory names under which embedded browser engines keep their
/// render and script caches.
pub open spec fn purge_targets() -> Seq<Seq<char>> {
    seq!["EBWebView"@, "WebView2"@, "webview2"@]
}

/// The name of the purge target at `index`.
pub fn purge_target(index: usize) -> (r: &'static str)
    requires
        index < PURGE_TARGET_COUNT,
    ensures
        r@ == purge_targets()[index as int],
{
    if index == 0 {
        "EBWebView"
    } else if index == 1 {
        "WebView2"
    } else {
        "webview2"
    }
}

/// Whether the guard does its work on this platform. Only the browser engine
/// used on Windows keeps caches that break across application versions.
#[derive(Clone, Copy, Debug, PartialEq, Eq, Structural)]
pub enum PurgeStrategy {
    Active,
    Noop,
}

/// The strategy for a platform named as `std::env::consts::OS` names it.
pub open spec fn strategy_for(os: Seq<char>) -> PurgeStrategy {
    if os == "windows"@ {
        PurgeStrategy::Active
    } else {
        PurgeStrategy::Noop
    }
}

impl PurgeStrategy {
    /// Picks the strategy for the platform named `os`.
    pub fn for_platform(os: &str) -> (r: PurgeStrategy)
        ensures
            r == strategy_for(os@),
    {
        if String::from_str(os) == String::from_str("windows") {
            PurgeStrategy::Active
        } else {
            PurgeStrategy::Noop
        }
    }
}

/// One of the two base directories under which caches are purged.
#[derive(Clone, Copy, Debug, PartialEq, Eq, Structural)]
pub enum Location {
    /// The durable per-user application directory, which also holds the
    /// marker.
    LocalData,
    /// The ephemeral cache directory, which may not be resolvable.
    Cache,
}

/// How a run that met no error ended.
#[derive(Clone, Copy, Debug, PartialEq, Eq, Structural)]
pub enum Outcome {
    /// The strategy is [`PurgeStrategy::Noop`]: nothing was looked at.
    Skipped,
    /// The marker already named the running version: nothing was touched.
    Current,
    /// The caches were purged and the marker rewritten.
    Purged,
}

/// Why a run stopped early.
#[derive(Debug)]
pub enum GuardError {
    /// The local-data directory could not be determined.
    PathResolution,
    /// A filesystem operation failed; the host's description of the failure.
    Io(String),
    /// The host reported an event that does not answer the last action.
    Unexpected,
}

pub enum GuardErrorView {
    PathResolution,
    Io(Seq<char>),
    Unexpected,
}

impl View for GuardError {
    type V = GuardErrorView;

    open spec fn view(&self) -> GuardErrorView {
        match self {
            GuardError::PathResolution => GuardErrorView::PathResolution,
            GuardError::Io(m) => GuardErrorView::Io(m@),
            GuardError::Unexpected => GuardErrorView::Unexpected,
        }
    }
}

/// The one-line description of an error that the host logs.
pub open spec fn describe(e: GuardErrorView) -> Seq<char> {
    match e {
        GuardErrorView::PathResolution => "the local-data directory could not be determined"@,
        GuardErrorView::Io(m) => "a filesystem operation failed: "@ + m,
        GuardErrorView::Unexpected => "the host reported an event that does not answer the last action"@,
    }
}

impl GuardError {
    /// Describes the error in one line, for the log.
    pub fn message(&self) -> (r: String)
        ensures
            r@ == describe(self@),
    {
        match self {
            GuardError::PathResolution => String::from_str("the local-data directory could not be determined"),
            GuardError::Io(m) => String::from_str("a filesystem operation failed: ").concat(m.as_str()),
            GuardError::Unexpected => String::from_str(
                "the host reported an event that does not answer the last action",
            ),
        }
    }
}

/// What the host passes to the guard: the running version, the platform's
/// strategy, and which base directories it could resolve.
pub struct GuardConfig {
    pub version: String,
    pub strategy: PurgeStrategy,
    pub local_data_resolved: bool,
    pub cache_resolved: bool,
}

pub struct GuardConfigView {
    pub version: Seq<char>,
    pub strategy: PurgeStrategy,
    pub local_data_resolved: bool,
    pub cache_resolved: bool,
}

impl View for GuardConfig {
    type V = GuardConfigView;

    open spec fn view(&self) -> GuardConfigView {
        GuardConfigView {
            version: self.version@,
            strategy: self.strategy,
            local_data_resolved: self.local_data_resolved,
            cache_resolved: self.cache_resolved,
        }
    }
}

/// An operation the host performs for the guard.
pub enum Action {
    /// Create the local-data directory and its parents if absent.
    CreateLocalDataDir,
    /// Read the marker from the local-data directory.
    ReadMarker,
    /// Tell whether the directory `name` exists under `at`.
    CheckDir { at: Location, name: String },
    /// Remove the directory `name` under `at` with all its contents.
    RemoveDir { at: Location, name: String },
    /// Write `content` as the marker, replacing what it held.
    WriteMarker { content: String },
    /// The run is over, with this result.
    Finish(Result<Outcome, GuardError>),
}

pub enum ActionView {
    CreateLocalDataDir,
    ReadMarker,
    CheckDir { at: Location, name: Seq<char> },
    RemoveDir { at: Location, name: Seq<char> },
    WriteMarker { content: Seq<char> },
    Finish(Result<Outcome, GuardErrorView>),
}

impl View for Action {
    type V = ActionView;

    open spec fn view(&self) -> ActionView {
        match self {
            Action::CreateLocalDataDir => ActionView::CreateLocalDataDir,
            Action::ReadMarker => ActionView::ReadMarker,
            Action::CheckDir { at, name } => ActionView::CheckDir { at: *at, name: name@ },
            Action::RemoveDir { at, name } => ActionView::RemoveDir { at: *at, name: name@ },
            Action::WriteMarker { content } => ActionView::WriteMarker { content: content@ },
            Action::Finish(r) => ActionView::Finish(
                match r {
                    Ok(o) => Ok(*o),
                    Err(e) => Err(e@),
                },
            ),
        }
    }
}

/// What came of the last action, as the host reports it.
pub enum Event {
    /// The operation succeeded.
    Completed,
    /// The marker's content; `None` when it is missing or unreadable.
    Marker(Option<String>),
    /// Whether the directory that was asked about exists.
    Exists(bool),
    /// The directory to remove was already gone.
    Absent,
    /// The operation failed, for the reason given.
    Failed(String),
}

pub enum EventView {
    Completed,
    Marker(Option<Seq<char>>),
    Exists(bool),
    Absent,
    Failed(Seq<char>),
}

impl View for Event {
    type V = EventView;

    open spec fn view(&self) -> EventView {
        match self {
            Event::Completed => EventView::Completed,
            Event::Marker(m) => EventView::Marker(
                match m {
                    Some(s) => Some(s@),
                    None => None,
                },
            ),
            Event::Exists(b) => EventView::Exists(*b),
            Event::Absent => EventView::Absent,
            Event::Failed(m) => EventView::Failed(m@),
        }
    }
}

/// Where a run stands.
#[derive(Clone, Copy, Debug, PartialEq, Eq, Structural)]
pub enum Phase {
    /// Waiting for the local-data directory to be created.
    Prepare,
    /// Waiting for the marker.
    ReadMarker,
    /// Waiting to learn whether target `index` exists under `at`.
    Probe { at: Location, index: usize },
    /// Waiting for target `index` under `at` to be removed.
    Remove { at: Location, index: usize },
    /// Waiting for the marker to be written.
    Commit,
    /// The run is over.
    Finished,
}

/// The guard's state: the trimmed running version, whether the cache
/// directory is to be purged too, and the phase.
pub struct Guard {
    version: String,
    cache: bool,
    phase: Phase,
}

pub struct GuardView {
    pub version: Seq<char>,
    pub cache: bool,
    pub phase: Phase,
}

impl GuardView {
    /// Target indices are in range.
    pub open spec fn wf(self) -> bool {
        match self.phase {
            Phase::Probe { index, .. } => index < PURGE_TARGET_COUNT,
            Phase::Remove { index, .. } => index < PURGE_TARGET_COUNT,
            _ => true,
        }
    }
}

impl View for Guard {
    type V = GuardView;

    closed spec fn view(&self) -> GuardView {
        GuardView { version: self.version@, cache: self.cache, phase: self.phase }
    }
}

/// Ends the run with `r`.
pub open spec fn finish(g: GuardView, r: Result<Outcome, GuardErrorView>) -> (GuardView, ActionView) {
    (GuardView { phase: Phase::Finished, ..g }, ActionView::Finish(r))
}

/// Asks whether target `index` exists under `at`.
pub open spec fn probe(g: GuardView, at: Location, index: usize) -> (GuardView, ActionView) {
    (
        GuardView { phase: Phase::Probe { at, index }, ..g },
        ActionView::CheckDir { at, name: purge_targets()[index as int] },
    )
}

/// Moves past target `index` under `at`: to the next target, to the cache
/// directory, or to writing the marker.
pub open spec fn after_target(g: GuardView, at: Location, index: usize) -> (GuardView, ActionView) {
    if index + 1 < PURGE_TARGET_COUNT {
        probe(g, at, (index + 1) as usize)
    } else if at == Location::LocalData && g.cache {
        probe(g, Location::Cache, 0)
    } else {
        (GuardView { phase: Phase::Commit, ..g }, ActionView::WriteMarker { content: g.version })
    }
}

/// The state and first action of a run under `c`.
pub open spec fn start(c: GuardConfigView) -> (GuardView, ActionView) {
    let g = GuardView { version: trimmed(c.version), cache: c.cache_resolved, phase: Phase::Prepare };
    if c.strategy == PurgeStrategy::Noop {
        finish(g, Ok(Outcome::Skipped))
    } else if !c.local_data_resolved {
        finish(g, Err(GuardErrorView::PathResolution))
    } else {
        (g, ActionView::CreateLocalDataDir)
    }
}

/// The state and action that follow event `e` in state `g`.
pub open spec fn next(g: GuardView, e: EventView) -> (GuardView, ActionView) {
    let unexpected = finish(g, Err(GuardErrorView::Unexpected));
    match g.phase {
        Phase::Finished => unexpected,
        _ => match e {
            EventView::Failed(m) => finish(g, Err(GuardErrorView::Io(m))),
            _ => match g.phase {
                Phase::Prepare => if e is Completed {
                    (GuardView { phase: Phase::ReadMarker, ..g }, ActionView::ReadMarker)
                } else {
                    unexpected
                },
                Phase::ReadMarker => match e {
                    EventView::Marker(m) => if m is Some && trimmed(m->0) == g.version {
                        finish(g, Ok(Outcome::Current))
                    } else {
                        probe(g, Location::LocalData, 0)
                    },
                    _ => unexpected,
                },
                Phase::Probe { at, index } => match e {
                    EventView::Exists(present) => if present {
                        (
                            GuardView { phase: Phase::Remove { at, index }, ..g },
                            ActionView::RemoveDir { at, name: purge_targets()[index as int] },
                        )
                    } else {
                        after_target(g, at, index)
                    },
                    _ => unexpected,
                },
                Phase::Remove { at, index } => if e is Completed || e is Absent {
                    after_target(g, at, index)
                } else {
                    unexpected
                },
                Phase::Commit => if e is Completed {
                    finish(g, Ok(Outcome::Purged))
                } else {
                    unexpected
                },
                Phase::Finished => unexpected,
            },
        },
    }
}

impl Guard {
    /// Begins a run under `config`: the guard and the first action.
    pub fn start(config: GuardConfig) -> (r: (Guard, Action))
        ensures
            (r.0@, r.1@) == start(config@),
            r.0@.wf(),
    {
        let g = Guard { version: trim_text(config.version.as_str()), cache: config.cache_resolved, phase: Phase::Prepare };
        match config.strategy {
            PurgeStrategy::Noop => {
                let mut g = g;
                let a = g.finish(Ok(Outcome::Skipped));
                (g, a)
            },
            PurgeStrategy::Active => {
                if !config.local_data_resolved {
                    let mut g = g;
                    let a = g.finish(Err(GuardError::PathResolution));
                    (g, a)
                } else {
                    (g, Action::CreateLocalDataDir)
                }
            },
        }
    }

    /// Whether the run is over.
    pub fn is_finished(&self) -> (r: bool)
        ensures
            r == (self@.phase == Phase::Finished),
    {
        self.phase == Phase::Finished
    }

    fn finish(&mut self, r: Result<Outcome, GuardError>) -> (a: Action)
        ensures
            (final(self)@, a@) == finish(old(self)@, a@->Finish_0),
            a@ == ActionView::Finish(
                match r {
                    Ok(o) => Ok(o),
                    Err(e) => Err(e@),
                },
            ),
    {
        self.phase = Phase::Finished;
        Action::Finish(r)
    }

    fn probe(&mut self, at: Location, index: usize) -> (a: Action)
        requires
            index < PURGE_TARGET_COUNT,
        ensures
            (final(self)@, a@) == probe(old(self)@, at, index),
            final(self)@.wf(),
    {
        self.phase = Phase::Probe { at, index };
        Action::CheckDir { at, name: String::from_str(purge_target(index)) }
    }

    fn after_target(&mut self, at: Location, index: usize) -> (a: Action)
        requires
            index < PURGE_TARGET_COUNT,
        ensures
            (final(self)@, a@) == after_target(old(self)@, at, index),
            final(self)@.wf(),
    {
        if index + 1 < PURGE_TARGET_COUNT {
            self.probe(at, index + 1)
        } else if at == Location::LocalData && self.cache {
            self.probe(Location::Cache, 0)
        } else {
            self.phase = Phase::Commit;
            Action::WriteMarker { content: self.version.clone() }
        }
    }

    /// Takes what came of the last action and returns the next one.
    pub fn step(&mut self, event: Event) -> (a: Action)
        requires
            old(self)@.wf(),
        ensures
            (final(self)@, a@) == next(old(self)@, event@),
            final(self)@.wf(),
    {
        if self.phase == Phase::Finished {
            return self.finish(Err(GuardError::Unexpected));
        }
        match event {
            Event::Failed(m) => self.finish(Err(GuardError::Io(m))),
            Event::Completed => match self.phase {
                Phase::Prepare => {
                    self.phase = Phase::ReadMarker;
                    Action::ReadMarker
                },
                Phase::Remove { at, index } => self.after_target(at, index),
                Phase::Commit => self.finish(Ok(Outcome::Purged)),
                _ => self.finish(Err(GuardError::Unexpected)),
            },
            Event::Absent => match self.phase {
                Phase::Remove { at, index } => self.after_target(at, index),
                _ => self.finish(Err(GuardError::Unexpected)),
            },
            Event::Marker(m) => match self.phase {
                Phase::ReadMarker => {
                    let current = match &m {
                        Some(stored) => trim_text(stored.as_str()) == self.version,
                        None => false,
                    };
                    if current {
                        self.finish(Ok(Outcome::Current))
                    } else {
                        self.probe(Location::LocalData, 0)
                    }
                },
                _ => self.finish(Err(GuardError::Unexpected)),
            },
            Event::Exists(present) => match self.phase {
                Phase::Probe { at, index } => {
                    if present {
                        self.phase = Phase::Remove { at, index };
                        Action::RemoveDir { at, name: String::from_str(purge_target(index)) }
                    } else {
                        self.after_target(at, index)
                    }
                },
                _ => self.finish(Err(GuardError::Unexpected)),
            },
        }
    }
}

} // verus!
