use vstd::prelude::*;

verus! {

/// What the engine thread is asked to do next.
#[derive(Clone, Copy, Debug, PartialEq, Eq, Structural)]
pub enum Step {
    /// Read the engine's clock and answer with `Event::Clock`.
    ReadClock,
    /// Run the engine's event loop once and answer with `Event::Done`.
    PollEngine,
    /// Try to take one item off the work queue, hand it to the engine if
    /// there is one, and answer with `Event::Item`, `Event::Empty`, or
    /// `Event::Closed` once the queue is closed and empty.
    TryRecv,
    /// Take and reset the statistics of the window that ended; answer with `Event::Done`.
    Bookkeeping,
    /// Tear down the session; answer with `Event::Done`.
    DestroySession(i32),
    /// Acknowledge the shutdown to whoever asked for it; answer with `Event::Done`.
    SignalShutdown,
    /// Stop: the thread ends.
    Halt,
}

/// What the engine thread reports of the step it was asked to do.
#[derive(Clone, Copy, Debug, PartialEq, Eq, Structural)]
pub enum Event {
    Done,
    Clock(u64),
    Item,
    Empty,
    Closed,
}

/// Where the loop stands.
#[derive(Clone, Copy, Debug, PartialEq, Eq, Structural)]
pub enum Stage {
    /// A new time window starts at the next clock reading.
    StartWindow,
    /// The engine was polled; the queue is drained next.
    Polled,
    /// Items are taken off the queue.
    Draining,
    /// The clock is compared with the window's budget.
    CheckBudget,
    /// The window's statistics were taken.
    Booked,
    /// Sessions are torn down.
    TearDown,
    /// The shutdown was acknowledged.
    Signalled,
    /// The loop has ended.
    Halted,
}

/// The whole state of a poll loop, as the contracts see it.
pub struct PollState {
    pub sessions: Seq<i32>,
    pub timeout_ticks: u64,
    pub max_burst: usize,
    pub window_start: u64,
    pub burst: usize,
    pub torn: usize,
    pub stage: Stage,
    pub last: Step,
}

/// Whether the clock reading `now` ends a window that began at `start`.
pub open spec fn budget_spent(start: u64, now: u64, timeout_ticks: u64) -> bool {
    now > start && now - start > timeout_ticks
}

/// The step that tears down the sessions from the `torn`-th on, or
/// acknowledges the shutdown once none is left.
pub open spec fn teardown(s: PollState, torn: usize) -> (PollState, Step) {
    if torn < s.sessions.len() {
        let st = Step::DestroySession(s.sessions[torn as int]);
        (PollState { torn: (torn + 1) as usize, stage: Stage::TearDown, last: st, ..s }, st)
    } else {
        (PollState { torn, stage: Stage::Signalled, last: Step::SignalShutdown, ..s }, Step::SignalShutdown)
    }
}

/// The next state and step after `ev`. While the loop serves work, an event
/// that does not answer the step last asked for changes nothing and that
/// step is asked again. Once teardown has begun, every answer moves it on,
/// so that no session is torn down twice and the shutdown is acknowledged once.
pub open spec fn step_spec(s: PollState, ev: Event) -> (PollState, Step) {
    let again = (s, s.last);
    match s.stage {
        Stage::StartWindow => match ev {
            Event::Clock(t) => (
                PollState { window_start: t, stage: Stage::Polled, last: Step::PollEngine, ..s },
                Step::PollEngine,
            ),
            _ => again,
        },
        Stage::Polled => match ev {
            Event::Done => (
                PollState { burst: 0, stage: Stage::Draining, last: Step::TryRecv, ..s },
                Step::TryRecv,
            ),
            _ => again,
        },
        Stage::Draining => match ev {
            Event::Item => if s.burst + 1 < s.max_burst {
                (PollState { burst: (s.burst + 1) as usize, last: Step::TryRecv, ..s }, Step::TryRecv)
            } else {
                (
                    PollState {
                        burst: (s.burst + 1) as usize,
                        stage: Stage::CheckBudget,
                        last: Step::ReadClock,
                        ..s
                    },
                    Step::ReadClock,
                )
            },
            Event::Empty => (
                PollState { stage: Stage::CheckBudget, last: Step::ReadClock, ..s },
                Step::ReadClock,
            ),
            Event::Closed => teardown(s, 0),
            _ => again,
        },
        Stage::CheckBudget => match ev {
            Event::Clock(t) => if budget_spent(s.window_start, t, s.timeout_ticks) {
                (PollState { stage: Stage::Booked, last: Step::Bookkeeping, ..s }, Step::Bookkeeping)
            } else {
                (PollState { stage: Stage::Polled, last: Step::PollEngine, ..s }, Step::PollEngine)
            },
            _ => again,
        },
        Stage::Booked => match ev {
            Event::Done => (
                PollState { stage: Stage::StartWindow, last: Step::ReadClock, ..s },
                Step::ReadClock,
            ),
            _ => again,
        },
        Stage::TearDown => teardown(s, s.torn),
        Stage::Signalled => (PollState { stage: Stage::Halted, last: Step::Halt, ..s }, Step::Halt),
        Stage::Halted => (PollState { last: Step::Halt, ..s }, Step::Halt),
    }
}

/// The loop an engine thread runs once its sessions are connected: it polls
/// the engine, drains a bounded burst of work from its queue, and checks a
/// time budget, over and over; at the end of each window it takes the
/// window's statistics. When the queue is closed and drained, it tears
/// down every session in order, acknowledges the shutdown once, and stops.
pub struct PollLoop {
    sessions: Vec<i32>,
    timeout_ticks: u64,
    max_burst: usize,
    window_start: u64,
    burst: usize,
    torn: usize,
    stage: Stage,
    last: Step,
}

impl View for PollLoop {
    type V = PollState;

    closed spec fn view(&self) -> PollState {
        PollState {
            sessions: self.sessions@,
            timeout_ticks: self.timeout_ticks,
            max_burst: self.max_burst,
            window_start: self.window_start,
            burst: self.burst,
            torn: self.torn,
            stage: self.stage,
            last: self.last,
        }
    }
}

/// Whether a step only serves work: reading the clock, polling the engine,
/// taking work, or taking statistics.
pub open spec fn is_service_step(st: Step) -> bool {
    match st {
        Step::ReadClock | Step::PollEngine | Step::TryRecv | Step::Bookkeeping => true,
        _ => false,
    }
}

/// Whether the loop is still serving work.
pub open spec fn is_running(st: Stage) -> bool {
    match st {
        Stage::TearDown | Stage::Signalled | Stage::Halted => false,
        _ => true,
    }
}

/// The invariant of a poll loop.
pub open spec fn poll_wf(s: PollState) -> bool {
    &&& s.max_burst > 0
    &&& s.burst < s.max_burst || s.stage != Stage::Draining
    &&& s.torn <= s.sessions.len()
    &&& s.sessions.len() <= usize::MAX
    &&& is_running(s.stage) ==> is_service_step(s.last)
}

impl PollLoop {
    /// A loop over the sessions `sessions`, with a window of `timeout_ticks`
    /// clock ticks and at most `max_burst` items taken per poll. Its first
    /// step is to read the clock.
    pub fn new(sessions: Vec<i32>, timeout_ticks: u64, max_burst: usize) -> (r: PollLoop)
        requires
            max_burst > 0,
        ensures
            poll_wf(r@),
            r@.sessions == sessions@,
            r@.timeout_ticks == timeout_ticks,
            r@.max_burst == max_burst,
            r@.burst == 0,
            r@.torn == 0,
            r@.stage == Stage::StartWindow,
            r@.last == Step::ReadClock,
    {
        // A vector's length fits in a usize.
        let count = sessions.len();
        assert(sessions@.len() == count);
        PollLoop {
            sessions,
            timeout_ticks,
            max_burst,
            window_start: 0,
            burst: 0,
            torn: 0,
            stage: Stage::StartWindow,
            last: Step::ReadClock,
        }
    }

    /// The step asked for last; the first step of a new loop.
    pub fn current(&self) -> (r: Step)
        ensures
            r == self@.last,
    {
        self.last
    }

    /// Whether the loop has ended.
    pub fn is_halted(&self) -> (r: bool)
        ensures
            r == (self@.stage == Stage::Halted),
    {
        match self.stage {
            Stage::Halted => true,
            _ => false,
        }
    }

    fn tear_down_from(&mut self, torn: usize) -> (r: Step)
        requires
            poll_wf(old(self)@),
            torn <= old(self)@.sessions.len(),
        ensures
            poll_wf(final(self)@),
            (final(self)@, r) == teardown(old(self)@, torn),
    {
        if torn < self.sessions.len() {
            let st = Step::DestroySession(self.sessions[torn]);
            self.torn = torn + 1;
            self.stage = Stage::TearDown;
            self.last = st;
            st
        } else {
            self.torn = torn;
            self.stage = Stage::Signalled;
            self.last = Step::SignalShutdown;
            Step::SignalShutdown
        }
    }

    fn set(&mut self, stage: Stage, st: Step) -> (r: Step)
        ensures
            final(self)@ == (PollState { stage, last: st, ..old(self)@ }),
            r == st,
    {
        self.stage = stage;
        self.last = st;
        st
    }

    /// Takes the answer to the last step and gives the next one.
    pub fn next(&mut self, ev: Event) -> (r: Step)
        requires
            poll_wf(old(self)@),
        ensures
            poll_wf(final(self)@),
            (final(self)@, r) == step_spec(old(self)@, ev),
    {
        match self.stage {
            Stage::StartWindow => match ev {
                Event::Clock(t) => {
                    self.window_start = t;
                    self.set(Stage::Polled, Step::PollEngine)
                },
                _ => self.last,
            },
            Stage::Polled => match ev {
                Event::Done => {
                    self.burst = 0;
                    self.set(Stage::Draining, Step::TryRecv)
                },
                _ => self.last,
            },
            Stage::Draining => match ev {
                Event::Item => {
                    self.burst = self.burst + 1;
                    if self.burst < self.max_burst {
                        self.set(Stage::Draining, Step::TryRecv)
                    } else {
                        self.set(Stage::CheckBudget, Step::ReadClock)
                    }
                },
                Event::Empty => self.set(Stage::CheckBudget, Step::ReadClock),
                Event::Closed => self.tear_down_from(0),
                _ => self.last,
            },
            Stage::CheckBudget => match ev {
                Event::Clock(t) => {
                    if t > self.window_start && t - self.window_start > self.timeout_ticks {
                        self.set(Stage::Booked, Step::Bookkeeping)
                    } else {
                        self.set(Stage::Polled, Step::PollEngine)
                    }
                },
                _ => self.last,
            },
            Stage::Booked => match ev {
                Event::Done => self.set(Stage::StartWindow, Step::ReadClock),
                _ => self.last,
            },
            Stage::TearDown => {
                let torn = self.torn;
                self.tear_down_from(torn)
            },
            Stage::Signalled => self.set(Stage::Halted, Step::Halt),
            Stage::Halted => self.set(Stage::Halted, Step::Halt),
        }
    }
}

/// The state after the events `evs`, in order.
pub open spec fn after_events(s: PollState, evs: Seq<Event>) -> PollState
    decreases evs.len(),
{
    if evs.len() == 0 {
        s
    } else {
        step_spec(after_events(s, evs.drop_last()), evs.last()).0
    }
}

/// The `k`-th step given after a draining loop is told that its queue
/// closed, the steps after the first being answered with `evs`: the 0-th is
/// the answer to the closing itself, the `k`-th the answer to `evs[k - 1]`.
pub open spec fn step_after_close(s: PollState, evs: Seq<Event>, k: nat) -> Step {
    let s1 = step_spec(s, Event::Closed);
    if k == 0 {
        s1.1
    } else {
        step_spec(after_events(s1.0, evs.take(k - 1)), evs[k - 1]).1
    }
}

proof fn lemma_teardown_states(s: PollState, evs: Seq<Event>, j: nat)
    requires
        poll_wf(s),
        s.stage == Stage::Draining,
        j <= evs.len(),
    ensures
        ({
            let n = s.sessions.len();
            let a = after_events(step_spec(s, Event::Closed).0, evs.take(j as int));
            &&& a.sessions == s.sessions
            &&& j < n ==> a.stage == Stage::TearDown && a.torn == j + 1
            &&& j == n ==> a.stage == Stage::Signalled
            &&& j > n ==> a.stage == Stage::Halted
        }),
    decreases j,
{
    if j > 0 {
        lemma_teardown_states(s, evs, (j - 1) as nat);
        assert(evs.take(j as int).drop_last() =~= evs.take(j - 1));
    }
}

/// Once a draining loop learns that its queue is closed (and so drained),
/// whatever it is told next, it tears down every session, in order and each
/// once, then acknowledges the shutdown exactly once, and then asks for
/// nothing but to stop.
pub proof fn lemma_shutdown_sequence(s: PollState, evs: Seq<Event>, k: nat)
    requires
        poll_wf(s),
        s.stage == Stage::Draining,
        k <= evs.len(),
    ensures
        k < s.sessions.len() ==> step_after_close(s, evs, k) == Step::DestroySession(
            s.sessions[k as int],
        ),
        k == s.sessions.len() ==> step_after_close(s, evs, k) == Step::SignalShutdown,
        k > s.sessions.len() ==> step_after_close(s, evs, k) == Step::Halt,
{
    if k > 0 {
        lemma_teardown_states(s, evs, (k - 1) as nat);
    }
}

/// Until its queue is reported closed, and so drained, a running loop
/// tears down no session, acknowledges no shutdown and does not stop: it
/// only reads the clock, polls the engine, takes work, and takes statistics.
pub proof fn lemma_no_teardown_before_close(s: PollState, ev: Event)
    requires
        poll_wf(s),
        is_running(s.stage),
        !(s.stage == Stage::Draining && ev == Event::Closed),
    ensures
        is_running(step_spec(s, ev).0.stage),
        is_service_step(step_spec(s, ev).1),
{
}

/// A loop that has acknowledged its shutdown stops at the next event and
/// stays stopped whatever it is told: a second shutdown acknowledges nothing
/// and tears down nothing.
pub proof fn lemma_halted_stays(s: PollState, ev: Event)
    requires
        s.stage == Stage::Signalled || s.stage == Stage::Halted,
    ensures
        step_spec(s, ev).0.stage == Stage::Halted,
        step_spec(s, ev).1 == Step::Halt,
{
}

} // verus!
