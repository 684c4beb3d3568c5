//! The decisions of a live-development session: when to build, what to
//! announce, what to serve, and how to shut down.
//!
//! The caller runs the loop: it feeds file events, timer checks, build
//! completions and client connections in, and carries out what comes back.

use vstd::prelude::*;
use crate::coordinator::{finished, noticed, records, requested, BuildCoordinator, BuildOutcome};
use crate::debounce::{after_event, after_tick, fires_at, DebounceState, Debouncer};
use crate::hub::{advanced, ids_of, HmrHub};
use crate::protocol::{BuildResult, BuildStatus, HmrMessage, MessageView};

verus! {

/// The state of one live-development session.
#[derive(Debug)]
pub struct DevSession {
    pub debouncer: Debouncer,
    pub coordinator: BuildCoordinator,
    pub hub: HmrHub,
    pub shutting_down: bool,
    /// The generation of the output served to ordinary requests: the latest
    /// successful build, if any.
    pub served_generation: Option<u64>,
}

/// What to do once a build has completed.
#[derive(Debug)]
pub struct BuildStep {
    pub result: BuildResult,
    /// The message to send and the clients to send it to; none after shutdown.
    pub broadcast: Option<(HmrMessage, Vec<u64>)>,
    /// Whether the next build is to start at once.
    pub rebuild_now: bool,
}

impl DevSession {
    pub open spec fn wf(&self) -> bool {
        &&& self.coordinator.wf()
        &&& self.hub.wf()
        &&& self.hub.generation <= self.coordinator.generation
        &&& !self.shutting_down ==> self.hub.generation == self.coordinator.generation
        &&& self.served_generation matches Some(g) ==> 1 <= g <= self.coordinator.generation
        &&& self.shutting_down ==> {
            &&& !self.coordinator.dirty
            &&& self.hub.clients@.len() == 0
            &&& self.debouncer.state == DebounceState::Idle
        }
    }

    /// A session with no build yet and no clients.
    pub fn new(window_ms: u64) -> (s: DevSession)
        ensures
            s.wf(),
            s.debouncer == (Debouncer { window_ms, state: DebounceState::Idle }),
            s.coordinator == (BuildCoordinator { generation: 0, in_flight: false, dirty: false }),
            s.hub.clients@.len() == 0,
            !s.shutting_down,
            s.served_generation is None,
    {
        DevSession {
            debouncer: Debouncer::new(window_ms),
            coordinator: BuildCoordinator::new(),
            hub: HmrHub::new(0),
            shutting_down: false,
            served_generation: None,
        }
    }

    /// Asks for a build, as at start-up before any client is accepted.
    /// Returns whether the caller is to start one now.
    pub fn request_build(&mut self) -> (start: bool)
        requires
            old(self).wf(),
        ensures
            final(self).wf(),
            start == (!old(self).shutting_down && !old(self).coordinator.in_flight),
            !old(self).shutting_down ==> final(self).coordinator == requested(old(self).coordinator),
            old(self).shutting_down ==> final(self).coordinator == old(self).coordinator,
            final(self).debouncer == old(self).debouncer,
            final(self).served_generation == old(self).served_generation,
    {
        if self.shutting_down {
            return false;
        }
        self.coordinator.request_rebuild()
    }

    /// A file changed at `now`: restart the quiet period, and owe another
    /// build if one is running. Ignored once shutting down.
    pub fn on_file_event(&mut self, now: u64)
        requires
            old(self).wf(),
        ensures
            final(self).wf(),
            !old(self).shutting_down ==> final(self).debouncer == after_event(old(self).debouncer, now),
            !old(self).shutting_down ==> final(self).coordinator == noticed(old(self).coordinator),
            old(self).shutting_down ==> final(self).debouncer == old(self).debouncer,
            old(self).shutting_down ==> final(self).coordinator == old(self).coordinator,
            final(self).shutting_down == old(self).shutting_down,
            final(self).served_generation == old(self).served_generation,
            final(self).hub.clients@ == old(self).hub.clients@,
    {
        if self.shutting_down {
            return;
        }
        self.debouncer.event_received(now);
        self.coordinator.note_change();
    }

    /// The timer was checked at `now`. Returns whether the caller is to start
    /// a build: only when the quiet period has passed and none is running;
    /// if one is running, the next is owed after it.
    pub fn on_tick(&mut self, now: u64) -> (start: bool)
        requires
            old(self).wf(),
        ensures
            final(self).wf(),
            !old(self).shutting_down ==> final(self).debouncer == after_tick(old(self).debouncer, now),
            !old(self).shutting_down && fires_at(old(self).debouncer, now) ==> final(self).coordinator
                == requested(old(self).coordinator),
            old(self).shutting_down || !fires_at(old(self).debouncer, now) ==> final(self).coordinator
                == old(self).coordinator,
            start == (!old(self).shutting_down && fires_at(old(self).debouncer, now)
                && !old(self).coordinator.in_flight),
            final(self).shutting_down == old(self).shutting_down,
            final(self).served_generation == old(self).served_generation,
            final(self).hub.clients@ == old(self).hub.clients@,
    {
        if self.shutting_down {
            return false;
        }
        if self.debouncer.timer_fired(now) {
            self.coordinator.request_rebuild()
        } else {
            false
        }
    }

    /// The running build completed with `outcome`. The result takes the next
    /// generation. Unless shutting down it is announced to every client, a
    /// success becomes the served output (a failure leaves the previous one
    /// served), and a change seen meanwhile starts the next build at once.
    pub fn on_build_finished(&mut self, outcome: BuildOutcome, duration_ms: u64) -> (step: BuildStep)
        requires
            old(self).wf(),
            old(self).coordinator.in_flight,
            old(self).coordinator.generation < u64::MAX,
        ensures
            final(self).wf(),
            final(self).coordinator == finished(old(self).coordinator),
            records(step.result, outcome, final(self).coordinator.generation, duration_ms),
            step.rebuild_now == old(self).coordinator.dirty,
            old(self).shutting_down ==> step.broadcast is None && !step.rebuild_now,
            old(self).shutting_down ==> final(self).hub.clients@.len() == 0,
            !old(self).shutting_down ==> (step.broadcast matches Some((m, ids)) && m@
                == step.result.spec_announcement() && ids@ == ids_of(old(self).hub.clients@)),
            !old(self).shutting_down ==> final(self).hub.clients@ == advanced(
                old(self).hub.clients@,
                final(self).coordinator.generation,
            ),
            final(self).served_generation == if !old(self).shutting_down
                && step.result.status == BuildStatus::Success {
                Some(final(self).coordinator.generation)
            } else {
                old(self).served_generation
            },
            step.rebuild_now ==> final(self).debouncer.state == DebounceState::Idle,
            !step.rebuild_now ==> final(self).debouncer == old(self).debouncer,
            final(self).shutting_down == old(self).shutting_down,
    {
        let (result, restart) = self.coordinator.finish(outcome, duration_ms);
        if self.shutting_down {
            return BuildStep { result, broadcast: None, rebuild_now: false };
        }
        let announced = self.hub.announce(&result);
        if result.status == BuildStatus::Success {
            self.served_generation = Some(result.generation);
        }
        if restart {
            self.debouncer.cancel();
        }
        BuildStep { result, broadcast: Some(announced), rebuild_now: restart }
    }

    /// A client asks to connect. Unless shutting down (or out of ids) it is
    /// registered and sent the one message `Connected` with the number of
    /// builds completed so far, and no backlog of earlier ones.
    pub fn connect(&mut self) -> (r: Option<(u64, HmrMessage)>)
        requires
            old(self).wf(),
        ensures
            final(self).wf(),
            r is Some <==> (!old(self).shutting_down && old(self).hub.next_id < u64::MAX),
            r matches Some((id, m)) ==> {
                &&& m@ == (MessageView::Connected { generation: old(self).coordinator.generation })
                &&& id == old(self).hub.next_id
                &&& final(self).hub.has(id)
            },
            final(self).coordinator == old(self).coordinator,
            final(self).served_generation == old(self).served_generation,
    {
        if self.shutting_down || self.hub.next_id == u64::MAX {
            return None;
        }
        let (id, message) = self.hub.register();
        proof {
            let n = final(self).hub.clients@.len() - 1;
            assert(self.hub.clients@[n as int].id == id);
        }
        Some((id, message))
    }

    /// A client went away, or a send to it failed or timed out: drop it.
    /// Returns whether it was connected. The other clients are untouched.
    pub fn disconnect(&mut self, id: u64) -> (removed: bool)
        requires
            old(self).wf(),
        ensures
            final(self).wf(),
            removed == old(self).hub.has(id),
            !final(self).hub.has(id),
            forall|c| old(self).hub.clients@.contains(c) && c.id != id ==> final(self).hub.clients@.contains(c),
            final(self).coordinator == old(self).coordinator,
            final(self).served_generation == old(self).served_generation,
    {
        let ghost before = self.hub.clients@;
        let removed = self.hub.unregister(id);
        proof {
            assert forall|c| before.contains(c) && c.id != id implies self.hub.clients@.contains(c) by {
                let k = choose|k: int| 0 <= k < before.len() && before[k] == c;
                if removed {
                    let i = choose|i: int|
                        0 <= i < before.len() && before[i].id == id && self.hub.clients@ == before.remove(i);
                    if k < i {
                        assert(self.hub.clients@[k] == c);
                    } else {
                        assert(k != i);
                        assert(self.hub.clients@[k - 1] == c);
                    }
                }
            }
        }
        removed
    }

    /// Shuts the session down: no further builds start or are announced,
    /// the pending quiet period is dropped, and every client is to be closed
    /// normally. Returns their ids. A build already running may complete.
    pub fn shutdown(&mut self) -> (ids: Vec<u64>)
        requires
            old(self).wf(),
        ensures
            final(self).wf(),
            final(self).shutting_down,
            ids@ == ids_of(old(self).hub.clients@),
            final(self).hub.clients@.len() == 0,
            final(self).debouncer.state == DebounceState::Idle,
            final(self).coordinator.in_flight == old(self).coordinator.in_flight,
            final(self).coordinator.generation == old(self).coordinator.generation,
            !final(self).coordinator.dirty,
            final(self).served_generation == old(self).served_generation,
    {
        self.shutting_down = true;
        self.debouncer.cancel();
        self.coordinator.dirty = false;
        self.hub.close_all()
    }
}

} // verus!
