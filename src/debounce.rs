//! Quiet-period debouncing of file-change events.

use vstd::prelude::*;

verus! {

/// Whether a rebuild is owed, and from when on it may be triggered.
#[derive(Clone, Copy, Debug, PartialEq, Eq, Structural)]
pub enum DebounceState {
    Idle,
    Pending { deadline: u64 },
}

/// Collapses bursts of file events into one rebuild trigger after a quiet period.
#[derive(Clone, Copy, Debug, PartialEq, Eq, Structural)]
pub struct Debouncer {
    pub window_ms: u64,
    pub state: DebounceState,
}

/// One input to a debouncer, at a time in milliseconds.
#[derive(Clone, Copy, Debug, PartialEq, Eq, Structural)]
pub enum DebounceInput {
    /// A file event was observed.
    Event(u64),
    /// The timer was checked.
    Tick(u64),
}

/// `a + b`, held at `u64::MAX`.
pub open spec fn saturating(a: u64, b: u64) -> u64 {
    if a + b > u64::MAX { u64::MAX } else { (a + b) as u64 }
}

/// The debouncer after an event at `now`: a rebuild is owed once `now` plus
/// the window has passed quietly.
pub open spec fn after_event(d: Debouncer, now: u64) -> Debouncer {
    Debouncer { window_ms: d.window_ms, state: DebounceState::Pending { deadline: saturating(now, d.window_ms) } }
}

/// Whether a check of the timer at `now` triggers a rebuild.
pub open spec fn fires_at(d: Debouncer, now: u64) -> bool {
    match d.state {
        DebounceState::Pending { deadline } => now >= deadline,
        DebounceState::Idle => false,
    }
}

/// The debouncer after a check of the timer at `now`.
pub open spec fn after_tick(d: Debouncer, now: u64) -> Debouncer {
    if fires_at(d, now) { Debouncer { window_ms: d.window_ms, state: DebounceState::Idle } } else { d }
}

/// The debouncer after one input, and whether that input triggered a rebuild.
pub open spec fn step(d: Debouncer, input: DebounceInput) -> (Debouncer, bool) {
    match input {
        DebounceInput::Event(t) => (after_event(d, t), false),
        DebounceInput::Tick(t) => (after_tick(d, t), fires_at(d, t)),
    }
}

/// The debouncer after a sequence of inputs, and how many rebuilds they triggered.
pub open spec fn run(d: Debouncer, inputs: Seq<DebounceInput>) -> (Debouncer, nat)
    decreases inputs.len(),
{
    if inputs.len() == 0 {
        (d, 0)
    } else {
        let (before, fired) = run(d, inputs.drop_last());
        let (after, now_fired) = step(before, inputs.last());
        (after, if now_fired { fired + 1 } else { fired })
    }
}

/// The deadline that the latest event of `inputs` set, if any event came.
pub open spec fn quiet_deadline(window_ms: u64, inputs: Seq<DebounceInput>) -> Option<u64>
    decreases inputs.len(),
{
    if inputs.len() == 0 {
        None
    } else {
        match inputs.last() {
            DebounceInput::Event(t) => Some(saturating(t, window_ms)),
            DebounceInput::Tick(_) => quiet_deadline(window_ms, inputs.drop_last()),
        }
    }
}

/// Every check of the timer came after some event and before the latest
/// event's window had passed: the events never paused for a whole window.
pub open spec fn storming(window_ms: u64, inputs: Seq<DebounceInput>) -> bool {
    forall|j: int|
        0 <= j < inputs.len() ==> match #[trigger] inputs[j] {
            DebounceInput::Tick(t) => match quiet_deadline(window_ms, inputs.take(j)) {
                Some(deadline) => t < deadline,
                None => false,
            },
            DebounceInput::Event(_) => true,
        }
}

pub open spec fn all_ticks(inputs: Seq<DebounceInput>) -> bool {
    forall|j: int| 0 <= j < inputs.len() ==> (#[trigger] inputs[j]) is Tick
}

impl Debouncer {
    /// A debouncer with nothing owed.
    pub fn new(window_ms: u64) -> (d: Debouncer)
        ensures
            d.window_ms == window_ms,
            d.state == DebounceState::Idle,
    {
        Debouncer { window_ms, state: DebounceState::Idle }
    }

    /// Records a file event at `now`, restarting the quiet period.
    pub fn event_received(&mut self, now: u64)
        ensures
            *final(self) == after_event(*old(self), now),
    {
        let deadline = if now > u64::MAX - self.window_ms { u64::MAX } else { now + self.window_ms };
        self.state = DebounceState::Pending { deadline };
    }

    /// Checks the timer at `now`; returns whether a rebuild is triggered,
    /// which clears the owed rebuild.
    pub fn timer_fired(&mut self, now: u64) -> (fire: bool)
        ensures
            fire == fires_at(*old(self), now),
            *final(self) == after_tick(*old(self), now),
    {
        match self.state {
            DebounceState::Pending { deadline } => {
                if now >= deadline {
                    self.state = DebounceState::Idle;
                    true
                } else {
                    false
                }
            },
            DebounceState::Idle => false,
        }
    }

    /// Drops any owed rebuild, as when one starts for another reason.
    pub fn cancel(&mut self)
        ensures
            final(self).window_ms == old(self).window_ms,
            final(self).state == DebounceState::Idle,
    {
        self.state = DebounceState::Idle;
    }

    /// When the next rebuild may be triggered, if one is owed.
    pub fn deadline(&self) -> (r: Option<u64>)
        ensures
            r == match self.state {
                DebounceState::Pending { deadline } => Some(deadline),
                DebounceState::Idle => None,
            },
    {
        match self.state {
            DebounceState::Pending { deadline } => Some(deadline),
            DebounceState::Idle => None,
        }
    }
}

/// Checking the timer of an idle debouncer, any number of times, triggers nothing.
pub proof fn lemma_idle_ticks(d: Debouncer, ticks: Seq<DebounceInput>)
    requires
        d.state == DebounceState::Idle,
        all_ticks(ticks),
    ensures
        run(d, ticks) == (d, 0nat),
    decreases ticks.len(),
{
    if ticks.len() > 0 {
        assert(all_ticks(ticks.drop_last()));
        lemma_idle_ticks(d, ticks.drop_last());
        assert(ticks.last() is Tick);
    }
}

/// A run over `a + b` is the run over `b` from where the run over `a` ended.
pub proof fn lemma_run_append(d: Debouncer, a: Seq<DebounceInput>, b: Seq<DebounceInput>)
    ensures
        run(d, a + b) == ({
            let (mid, n) = run(d, a);
            let (end, m) = run(mid, b);
            (end, n + m)
        }),
    decreases b.len(),
{
    if b.len() == 0 {
        assert(a + b =~= a);
    } else {
        assert((a + b).drop_last() =~= a + b.drop_last());
        lemma_run_append(d, a, b.drop_last());
    }
}

/// While events keep arriving faster than the window closes, no rebuild is
/// triggered, yet one stays owed from the latest event's deadline on.
pub proof fn lemma_storm_defers(d: Debouncer, inputs: Seq<DebounceInput>)
    requires
        inputs.len() > 0,
        storming(d.window_ms, inputs),
    ensures
        run(d, inputs).1 == 0,
        run(d, inputs).0.window_ms == d.window_ms,
        quiet_deadline(d.window_ms, inputs) is Some,
        run(d, inputs).0.state == (DebounceState::Pending {
            deadline: quiet_deadline(d.window_ms, inputs)->Some_0,
        }),
    decreases inputs.len(),
{
    let w = d.window_ms;
    let prefix = inputs.drop_last();
    let last_index = inputs.len() - 1;
    assert(inputs.take(last_index) =~= prefix);
    assert(match inputs[last_index] {
        DebounceInput::Tick(t) => match quiet_deadline(w, inputs.take(last_index)) {
            Some(deadline) => t < deadline,
            None => false,
        },
        DebounceInput::Event(_) => true,
    });
    if prefix.len() > 0 {
        assert forall|j: int| 0 <= j < prefix.len() implies match #[trigger] prefix[j] {
            DebounceInput::Tick(t) => match quiet_deadline(w, prefix.take(j)) {
                Some(deadline) => t < deadline,
                None => false,
            },
            DebounceInput::Event(_) => true,
        } by {
            assert(prefix.take(j) =~= inputs.take(j));
            assert(prefix[j] == inputs[j]);
        }
        lemma_storm_defers(d, prefix);
    } else {
        assert(quiet_deadline(w, prefix) is None);
        assert(inputs.last() is Event);
    }
    assert(run(d, inputs) == ({
        let (before, fired) = run(d, prefix);
        let (after, now_fired) = step(before, inputs.last());
        (after, if now_fired { fired + 1 } else { fired })
    }));
    assert(!step(run(d, prefix).0, inputs.last()).1);
}

/// A burst of events, however long and however often the timer is checked
/// during it, triggers exactly one rebuild once a whole window passes
/// without a further event, and none on any later check.
pub proof fn lemma_burst_fires_once(
    d: Debouncer,
    burst: Seq<DebounceInput>,
    quiet_check: u64,
    later: Seq<DebounceInput>,
)
    requires
        burst.len() > 0,
        storming(d.window_ms, burst),
        quiet_deadline(d.window_ms, burst) matches Some(deadline) && quiet_check >= deadline,
        all_ticks(later),
    ensures
        run(d, burst.push(DebounceInput::Tick(quiet_check)) + later).1 == 1,
        run(d, burst.push(DebounceInput::Tick(quiet_check)) + later).0.state == DebounceState::Idle,
{
    let inputs = burst.push(DebounceInput::Tick(quiet_check));
    lemma_storm_defers(d, burst);
    assert(inputs.drop_last() =~= burst);
    let (mid, n) = run(d, inputs);
    assert(n == 1);
    assert(mid.state == DebounceState::Idle);
    lemma_idle_ticks(mid, later);
    lemma_run_append(d, inputs, later);
}

} // verus!
