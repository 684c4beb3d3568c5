//! Serialized rebuilds: one build at a time, a generation per completed build.

use vstd::prelude::*;
use crate::protocol::{BuildResult, BuildStatus};

verus! {

/// What the build pipeline reported for one run.
#[derive(Debug)]
pub enum BuildOutcome {
    Success {
        pages: u64,
        components: u64,
        /// The output paths the run changed, when the pipeline knows them.
        changed_assets: Option<Vec<String>>,
    },
    Failure { message: String },
}

/// Owner of the build generation and of the "a build is running" flag.
#[derive(Clone, Copy, Debug, PartialEq, Eq, Structural)]
pub struct BuildCoordinator {
    /// How many builds have completed, successful or not.
    pub generation: u64,
    /// Whether a build is running.
    pub in_flight: bool,
    /// Whether a change was seen while the running build was under way.
    pub dirty: bool,
}

/// The coordinator after a build is asked for: one starts unless one runs,
/// in which case another is owed after it.
pub open spec fn requested(c: BuildCoordinator) -> BuildCoordinator {
    BuildCoordinator { generation: c.generation, in_flight: true, dirty: c.dirty || c.in_flight }
}

/// The coordinator after a file change is seen.
pub open spec fn noticed(c: BuildCoordinator) -> BuildCoordinator {
    BuildCoordinator { dirty: c.dirty || c.in_flight, ..c }
}

/// The coordinator after the running build completes: the generation
/// advances, and a change seen meanwhile starts the next build at once.
pub open spec fn finished(c: BuildCoordinator) -> BuildCoordinator {
    BuildCoordinator { generation: (c.generation + 1) as u64, in_flight: c.dirty, dirty: false }
}

pub open spec fn changed_view(assets: Option<Vec<String>>) -> Seq<Seq<char>> {
    match assets {
        Some(v) => v.deep_view(),
        None => Seq::empty(),
    }
}

/// Whether `r` records `outcome` as the build of the given generation.
pub open spec fn records(r: BuildResult, outcome: BuildOutcome, generation: u64, duration_ms: u64) -> bool {
    &&& r.generation == generation
    &&& r.duration_ms == duration_ms
    &&& match outcome {
        BuildOutcome::Success { changed_assets, .. } => {
            &&& r.status == BuildStatus::Success
            &&& r.changed_assets.deep_view() == changed_view(changed_assets)
            &&& r.error is None
        },
        BuildOutcome::Failure { message } => {
            &&& r.status == BuildStatus::Failure
            &&& r.changed_assets.deep_view() == Seq::<Seq<char>>::empty()
            &&& r.error matches Some(e) && e@ == message@
        },
    }
}

impl BuildCoordinator {
    /// Nothing owed, and a build is owed only while one runs.
    pub open spec fn wf(&self) -> bool {
        self.dirty ==> self.in_flight
    }

    /// No build has run yet.
    pub fn new() -> (c: BuildCoordinator)
        ensures
            c.wf(),
            c.generation == 0,
            !c.in_flight,
            !c.dirty,
    {
        BuildCoordinator { generation: 0, in_flight: false, dirty: false }
    }

    /// Asks for a build; returns whether the caller is to start one now.
    /// While a build runs no second one starts: the request is kept for
    /// when the running one completes.
    pub fn request_rebuild(&mut self) -> (start: bool)
        requires
            old(self).wf(),
        ensures
            final(self).wf(),
            start == !old(self).in_flight,
            *final(self) == requested(*old(self)),
    {
        if self.in_flight {
            self.dirty = true;
            false
        } else {
            self.in_flight = true;
            true
        }
    }

    /// Records a file change; one seen while a build runs owes another build.
    pub fn note_change(&mut self)
        requires
            old(self).wf(),
        ensures
            final(self).wf(),
            *final(self) == noticed(*old(self)),
    {
        if self.in_flight {
            self.dirty = true;
        }
    }

    /// Records the completion of the running build. Returns its result,
    /// tagged with the next generation, and whether the next build is to
    /// start at once because a change came in meanwhile.
    pub fn finish(&mut self, outcome: BuildOutcome, duration_ms: u64) -> (r: (BuildResult, bool))
        requires
            old(self).wf(),
            old(self).in_flight,
            old(self).generation < u64::MAX,
        ensures
            final(self).wf(),
            *final(self) == finished(*old(self)),
            final(self).generation > old(self).generation,
            records(r.0, outcome, final(self).generation, duration_ms),
            r.1 == old(self).dirty,
            r.1 == final(self).in_flight,
    {
        self.generation = self.generation + 1;
        let restart = self.dirty;
        self.in_flight = restart;
        self.dirty = false;
        let result = match outcome {
            BuildOutcome::Success { changed_assets, .. } => {
                let changed = match changed_assets {
                    Some(v) => v,
                    None => Vec::new(),
                };
                assert(changed.deep_view() =~= changed_view(changed_assets));
                BuildResult {
                    generation: self.generation,
                    status: BuildStatus::Success,
                    changed_assets: changed,
                    error: None,
                    duration_ms,
                }
            },
            BuildOutcome::Failure { message } => {
                let none: Vec<String> = Vec::new();
                assert(none.deep_view() =~= Seq::<Seq<char>>::empty());
                BuildResult {
                    generation: self.generation,
                    status: BuildStatus::Failure,
                    changed_assets: none,
                    error: Some(message),
                    duration_ms,
                }
            },
        };
        (result, restart)
    }
}

/// A file change seen while a build runs is never lost: when that build
/// completes, the next one starts at once, and at no point do two run.
pub proof fn lemma_change_during_build_reruns(c: BuildCoordinator)
    requires
        c.wf(),
        c.in_flight,
        c.generation < u64::MAX,
    ensures
        noticed(c).in_flight,
        finished(noticed(c)).in_flight,
        finished(noticed(c)).generation == c.generation + 1,
        !finished(noticed(c)).dirty,
{
}

/// Generations of completed builds strictly increase, whatever each build's outcome.
pub proof fn lemma_generations_increase(c: BuildCoordinator, completions: nat)
    requires
        c.generation + completions <= u64::MAX,
    ensures
        finishes(c, completions).generation == c.generation + completions,
        completions > 0 ==> finishes(c, completions).generation > c.generation,
    decreases completions,
{
    if completions > 0 {
        lemma_generations_increase(c, (completions - 1) as nat);
    }
}

/// The coordinator after `completions` builds complete one after another.
pub open spec fn finishes(c: BuildCoordinator, completions: nat) -> BuildCoordinator
    decreases completions,
{
    if completions == 0 {
        c
    } else {
        finished(requested(finishes(c, (completions - 1) as nat)))
    }
}

} // verus!
