//! The countdown state machine: phase status, remaining seconds, and the
//! transitions applied by the ticker and by the host's commands.

use vstd::prelude::*;

verus! {

/// The phase status. Exactly one value holds at a time.
#[derive(Clone, Copy, PartialEq, Eq, Structural, Debug)]
pub enum Status {
    /// Idle; the initial state.
    Wait,
    /// Work phase active.
    Running,
    /// Work phase paused.
    Stop,
    /// Work phase just expired, awaiting rest-phase initialization.
    Rest,
    /// Rest phase active.
    RestRunning,
    /// Rest phase expired, awaiting the next action.
    RestWait,
}

/// The configuration the engine consumes: lengths of the two phases and
/// whether a finished rest phase auto-starts the next work phase.
#[derive(Clone, Copy, PartialEq, Eq, Structural, Debug)]
pub struct Setting {
    pub run_secs: usize,
    pub rest_secs: usize,
    pub auto_next: bool,
}

impl Setting {
    /// The built-in defaults: a 45 second work phase, a 30 second rest phase,
    /// no auto-start.
    pub fn new() -> (s: Setting)
        ensures
            s.run_secs == 45,
            s.rest_secs == 30,
            !s.auto_next,
    {
        Setting { run_secs: 45, rest_secs: 30, auto_next: false }
    }
}

/// A trigger of the transition table: one ticker iteration, or one of the
/// host's commands (`Poll` is the per-redraw `check_status` call).
#[derive(Clone, Copy, PartialEq, Eq, Structural, Debug)]
pub enum Event {
    Tick,
    Start,
    Pause,
    Resume,
    Poll,
}

/// The countdown state the two actors share, together with the configuration
/// read when a phase begins.
#[derive(Clone, Copy, PartialEq, Eq, Structural, Debug)]
pub struct Clock {
    /// Seconds left in the current phase; whole seconds, never negative.
    pub remaining: usize,
    /// The current phase status.
    pub status: Status,
    /// The configuration consumed at `start` and `check_status` time.
    pub setting: Setting,
}

/// One ticker iteration: decrement while a phase is active, advance the phase
/// once the counter reaches zero, and fall back to `Wait` from any unexpected
/// state at zero so the ticker stays total and idempotent.
pub open spec fn tick_step(c: Clock) -> Clock {
    if c.remaining > 0 {
        if c.status == Status::Running || c.status == Status::RestRunning {
            Clock { remaining: (c.remaining - 1) as usize, ..c }
        } else {
            c
        }
    } else {
        match c.status {
            Status::Running => Clock { status: Status::Rest, ..c },
            Status::RestRunning => Clock { status: Status::RestWait, ..c },
            _ => Clock { status: Status::Wait, ..c },
        }
    }
}

/// The whole transition table as one total function: given a state and a
/// trigger, the next state is uniquely determined.
///
/// `Start` always resets the work phase. `Pause` and `Resume` act only in
/// `Running` and `Stop` respectively and are no-ops elsewhere, as the host
/// offers them only in those states. `Poll` initializes the rest phase from
/// the current setting the moment `Rest` is observed, and auto-starts the
/// next work phase from `RestWait` when configured to.
pub open spec fn step(c: Clock, e: Event) -> Clock {
    match e {
        Event::Tick => tick_step(c),
        Event::Start => Clock { remaining: c.setting.run_secs, status: Status::Running, ..c },
        Event::Pause => if c.status == Status::Running {
            Clock { status: Status::Stop, ..c }
        } else {
            c
        },
        Event::Resume => if c.status == Status::Stop {
            Clock { status: Status::Running, ..c }
        } else {
            c
        },
        Event::Poll => if c.status == Status::Rest {
            Clock { remaining: c.setting.rest_secs, status: Status::RestRunning, ..c }
        } else if c.status == Status::RestWait && c.setting.auto_next {
            Clock { remaining: c.setting.run_secs, status: Status::Running, ..c }
        } else {
            c
        },
    }
}

impl Clock {
    /// A fresh engine: idle with nothing on the counter.
    pub fn new(setting: Setting) -> (c: Clock)
        ensures
            c.remaining == 0,
            c.status == Status::Wait,
            c.setting == setting,
    {
        Clock { remaining: 0, status: Status::Wait, setting }
    }

    /// Start (or restart) the work phase: the counter is reset to `run_secs`
    /// and the status becomes `Running`, whatever held before.
    pub fn start(&mut self)
        ensures
            *final(self) == step(*old(self), Event::Start),
    {
        self.remaining = self.setting.run_secs;
        self.status = Status::Running;
    }

    /// Pause the work phase: `Running` becomes `Stop` and the counter keeps
    /// its value; in any other status nothing changes.
    pub fn pause(&mut self)
        ensures
            *final(self) == step(*old(self), Event::Pause),
    {
        if self.status == Status::Running {
            self.status = Status::Stop;
        }
    }

    /// Resume a paused work phase: `Stop` becomes `Running` and the counter
    /// keeps its value; in any other status nothing changes.
    pub fn resume(&mut self)
        ensures
            *final(self) == step(*old(self), Event::Resume),
    {
        if self.status == Status::Stop {
            self.status = Status::Running;
        }
    }

    /// The host's per-redraw poll. On `Rest` it initializes the rest phase,
    /// reading `rest_secs` fresh so a live edit of the rest length takes
    /// effect; on `RestWait` with `auto_next` set it starts the next work
    /// phase; otherwise it changes nothing.
    pub fn check_status(&mut self)
        ensures
            *final(self) == step(*old(self), Event::Poll),
    {
        if self.status == Status::Rest {
            self.remaining = self.setting.rest_secs;
            self.status = Status::RestRunning;
        } else if self.status == Status::RestWait && self.setting.auto_next {
            self.start();
        }
    }

    /// One ticker iteration applied to the state.
    pub fn tick(&mut self)
        ensures
            *final(self) == step(*old(self), Event::Tick),
    {
        if self.remaining > 0 {
            if self.status == Status::Running || self.status == Status::RestRunning {
                self.remaining = self.remaining - 1;
            }
        } else {
            if self.status == Status::Running {
                self.status = Status::Rest;
            } else if self.status == Status::RestRunning {
                self.status = Status::RestWait;
            } else {
                self.status = Status::Wait;
            }
        }
    }

    /// One ticker cycle under the non-blocking access discipline: every
    /// access to the shared state is an attempt that may fail on contention,
    /// and a cycle that fails to obtain access skips the tick entirely. The
    /// skipped second is lost by design, never queued or caught up.
    pub fn tick_cycle(&mut self, access: bool)
        ensures
            access ==> *final(self) == step(*old(self), Event::Tick),
            !access ==> *final(self) == *old(self),
    {
        if access {
            self.tick();
        }
    }
}

/// The states the engine can actually reach: the counter carries a value only
/// while a phase is running or paused. `Wait`, `Rest` and `RestWait` all mean
/// a phase has ended (or never began), so the counter stands at zero.
pub open spec fn inv(c: Clock) -> bool {
    (c.status == Status::Wait || c.status == Status::Rest || c.status == Status::RestWait)
        ==> c.remaining == 0
}

/// The transition table is deterministic: equal states under equal triggers
/// step to equal states. It is exhaustive as well: `step` is a total
/// function, defined for every `(state, trigger)` pair.
pub proof fn lemma_step_deterministic(c1: Clock, e1: Event, c2: Clock, e2: Event)
    requires
        c1 == c2,
        e1 == e2,
    ensures
        step(c1, e1) == step(c2, e2),
{
}

/// Polling is idempotent once the rest phase has expired and auto-next is
/// off: any number of further `check_status` calls leaves the state alone.
pub proof fn lemma_poll_idempotent(c: Clock)
    requires
        c.status == Status::RestWait,
        !c.setting.auto_next,
    ensures
        step(c, Event::Poll) == c,
        step(step(c, Event::Poll), Event::Poll) == c,
{
}

/// A tick never raises the counter, so the counter only falls between
/// resets; being unsigned it can never go negative.
pub proof fn lemma_tick_never_raises(c: Clock)
    ensures
        step(c, Event::Tick).remaining <= c.remaining,
{
}

/// Once the counter reaches zero during an active phase, the very next tick
/// changes the status and does not decrement again.
pub proof fn lemma_tick_at_zero_advances(c: Clock)
    requires
        c.remaining == 0,
        c.status == Status::Running || c.status == Status::RestRunning,
    ensures
        step(c, Event::Tick).status != c.status,
        step(c, Event::Tick).remaining == 0,
{
}

/// Every trigger preserves the reachable-state invariant, so no transition
/// ever produces an illegal `(status, remaining)` combination.
pub proof fn lemma_step_preserves_inv(c: Clock, e: Event)
    requires
        inv(c),
    ensures
        inv(step(c, e)),
{
}

/// A tick and a pause racing on the same cycle: both transitions are total,
/// so neither serialization can block, and whichever order the race resolves
/// to, the state after the cycle is a legal one and stays legal on the next
/// cycle. No torn combination persists.
pub proof fn lemma_tick_pause_race(c: Clock)
    requires
        inv(c),
    ensures
        inv(step(step(c, Event::Tick), Event::Pause)),
        inv(step(step(c, Event::Pause), Event::Tick)),
        inv(step(step(step(c, Event::Tick), Event::Pause), Event::Tick)),
        inv(step(step(step(c, Event::Pause), Event::Tick), Event::Tick)),
{
}

} // verus!
