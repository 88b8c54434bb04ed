//! Scheduling of connectivity checks: an adaptive polling interval, the
//! fixed priority among wake-up sources, the filter on network changes,
//! and the loop that ties them together.

use vstd::prelude::*;
use vstd::arithmetic::div_mod::lemma_div_denominator;
use vstd::arithmetic::power2::{lemma_pow2_pos, lemma_pow2_unfold, pow2};

verus! {

/// Longest pause between two checks, in seconds.
pub const MAX_DELAY_SECS: u64 = 1800;

/// Shortest pause between two checks, in seconds.
pub const MIN_DELAY_SECS: u64 = 10;

/// How many signals of a network change may wait to be handled: one.
/// Further ones are dropped, so that a burst of changes leaves a single
/// check to be made.
pub const CHANNEL_CAPACITY: usize = 1;

/// The pause between a network change and the check that it triggers, in
/// seconds.
pub const NETWORK_SETTLE_SECS: u64 = 3;

/// The interval that follows `current` after a cycle: the longest pause
/// after a confirmed success, otherwise half of `current` but never less
/// than the shortest pause.
pub open spec fn next_interval(current: u64, success: bool) -> u64 {
    if success {
        MAX_DELAY_SECS
    } else if current / 2 >= MIN_DELAY_SECS {
        (current / 2) as u64
    } else {
        MIN_DELAY_SECS
    }
}

/// An interval between the shortest and the longest pause is followed by
/// one between them.
pub proof fn interval_stays_within_limits(current: u64, success: bool)
    requires
        MIN_DELAY_SECS <= current <= MAX_DELAY_SECS,
    ensures
        MIN_DELAY_SECS <= next_interval(current, success) <= MAX_DELAY_SECS,
{
}

/// The interval after `n` cycles in a row without a confirmed success,
/// starting from `start`.
pub open spec fn after_failures(start: u64, n: nat) -> u64
    decreases n,
{
    if n == 0 {
        start
    } else {
        next_interval(after_failures(start, (n - 1) as nat), false)
    }
}

/// After `n` cycles in a row without a confirmed success, the interval is
/// the starting interval divided by the n-th power of two, or the shortest
/// pause where that is less. One confirmed success brings the longest
/// pause back, whatever the interval was.
pub proof fn interval_halves_until_shortest(start: u64, n: nat)
    requires
        MIN_DELAY_SECS <= start,
    ensures
        after_failures(start, n) == (if start as int / pow2(n) as int >= MIN_DELAY_SECS {
            start as int / pow2(n) as int
        } else {
            MIN_DELAY_SECS as int
        }),
        forall|current: u64| next_interval(current, true) == MAX_DELAY_SECS,
    decreases n,
{
    if n == 0 {
        assert(pow2(0) == 1) by {
            vstd::arithmetic::power2::lemma2_to64();
        }
    } else {
        let m = (n - 1) as nat;
        interval_halves_until_shortest(start, m);
        lemma_pow2_pos(m);
        lemma_pow2_unfold(n);
        lemma_div_denominator(start as int, pow2(m) as int, 2);
        assert(pow2(m) as int * 2 == pow2(n) as int);
    }
}

/// What the polling loop remembers from one iteration to the next.
#[derive(Clone, Copy, Debug)]
pub struct ScheduleState {
    current_interval: u64,
    last_outcome: bool,
}

impl ScheduleState {
    /// The interval stays between the shortest and the longest pause.
    #[verifier::type_invariant]
    spec fn in_range(&self) -> bool {
        MIN_DELAY_SECS <= self.current_interval <= MAX_DELAY_SECS
    }

    /// Seconds until the next timed check.
    pub closed spec fn interval(&self) -> u64 {
        self.current_interval
    }

    /// Whether the last cycle ended in a confirmed success.
    pub closed spec fn succeeded(&self) -> bool {
        self.last_outcome
    }

    /// The state at start-up: check again after the shortest pause.
    pub fn new() -> (s: Self)
        ensures
            s.interval() == MIN_DELAY_SECS,
            !s.succeeded(),
    {
        ScheduleState { current_interval: MIN_DELAY_SECS, last_outcome: false }
    }

    /// Seconds until the next timed check.
    pub fn current_interval(&self) -> (secs: u64)
        ensures
            secs == self.interval(),
            MIN_DELAY_SECS <= secs <= MAX_DELAY_SECS,
    {
        proof {
            use_type_invariant(self);
        }
        self.current_interval
    }

    /// Whether the last cycle ended in a confirmed success.
    pub fn last_outcome(&self) -> (b: bool)
        ensures
            b == self.succeeded(),
    {
        self.last_outcome
    }

    /// Folds the result of a finished cycle into the schedule.
    pub fn after_cycle(&mut self, success: bool)
        ensures
            final(self).interval() == next_interval(old(self).interval(), success),
            final(self).succeeded() == success,
    {
        proof {
            use_type_invariant(&*self);
        }
        if success {
            self.current_interval = MAX_DELAY_SECS;
        } else {
            let half: u64 = self.current_interval / 2;
            self.current_interval = if half >= MIN_DELAY_SECS {
                half
            } else {
                MIN_DELAY_SECS
            };
        }
        self.last_outcome = success;
    }
}

/// What can end a wait.
#[derive(Clone, Copy, Debug, PartialEq, Eq, Structural)]
pub enum Wakeup {
    /// The process was asked to stop.
    Shutdown,
    /// An interface or an address was added.
    NetworkChange,
    /// The polling interval is over.
    Timer,
}

/// Of the sources that are ready, the one that is served: a request to
/// stop before a network change, a network change before the timer.
pub open spec fn first_ready(shutdown: bool, network_change: bool, timer: bool) -> Option<Wakeup> {
    if shutdown {
        Some(Wakeup::Shutdown)
    } else if network_change {
        Some(Wakeup::NetworkChange)
    } else if timer {
        Some(Wakeup::Timer)
    } else {
        None
    }
}

/// Picks the source to serve among those that are ready.
pub fn select_wakeup(shutdown: bool, network_change: bool, timer: bool) -> (w: Option<Wakeup>)
    ensures
        w == first_ready(shutdown, network_change, timer),
{
    if shutdown {
        Some(Wakeup::Shutdown)
    } else if network_change {
        Some(Wakeup::NetworkChange)
    } else if timer {
        Some(Wakeup::Timer)
    } else {
        None
    }
}

/// What changed on one interface that was there before.
#[derive(Clone, Copy, Debug, PartialEq, Eq)]
pub struct InterfaceDiff {
    pub addrs_added: usize,
    pub addrs_removed: usize,
}

/// What a report of the interface watcher holds.
#[derive(Debug, PartialEq, Eq)]
pub struct NetworkUpdate {
    /// Whether the watcher marks this report as its first, which lists
    /// what is there rather than what changed.
    pub initial: bool,
    /// How many interfaces came.
    pub added: usize,
    /// How many interfaces went.
    pub removed: usize,
    /// The interfaces that stayed and changed.
    pub modified: Vec<InterfaceDiff>,
}

/// What a report of the interface watcher means to the loop.
#[derive(Clone, Copy, Debug, PartialEq, Eq, Structural)]
pub enum ChangeKind {
    /// The watcher's first report, or a report in which nothing changed.
    Initial,
    /// An interface or an address was added: a check is due.
    Relevant,
    /// Something went or changed without anything being added.
    Irrelevant,
}

/// One of the modified interfaces gained an address.
pub open spec fn gained_address(modified: Seq<InterfaceDiff>) -> bool {
    exists|i: int| 0 <= i < modified.len() && modified[i].addrs_added > 0
}

/// What `update` means to the loop.
pub open spec fn change_kind(update: NetworkUpdate) -> ChangeKind {
    if update.initial || (update.added == 0 && update.removed == 0 && update.modified@.len()
        == 0) {
        ChangeKind::Initial
    } else if update.added > 0 || gained_address(update.modified@) {
        ChangeKind::Relevant
    } else {
        ChangeKind::Irrelevant
    }
}

/// Tells what a report of the interface watcher means to the loop.
pub fn classify_update(update: &NetworkUpdate) -> (kind: ChangeKind)
    ensures
        kind == change_kind(*update),
{
    if update.initial || (update.added == 0 && update.removed == 0 && update.modified.len()
        == 0) {
        return ChangeKind::Initial;
    }
    if update.added > 0 {
        return ChangeKind::Relevant;
    }
    let mut i: usize = 0;
    while i < update.modified.len()
        invariant
            !update.initial,
            update.added == 0,
            i <= update.modified@.len(),
            forall|k: int| 0 <= k < i ==> update.modified@[k].addrs_added == 0,
        decreases update.modified@.len() - i,
    {
        if update.modified[i].addrs_added > 0 {
            return ChangeKind::Relevant;
        }
        i += 1;
    }
    ChangeKind::Irrelevant
}

/// Where the loop stands.
#[derive(Clone, Copy, Debug, PartialEq, Eq, Structural)]
pub enum LoopPhase {
    /// Nothing has run yet.
    Starting,
    /// A sign-in cycle is under way.
    Checking,
    /// The loop waits for the first of its wake-up sources.
    Waiting,
    /// A network change came; the pause before the check runs.
    Settling,
    /// The loop has ended.
    Stopped,
}

/// What the caller reports to the loop.
#[derive(Clone, Copy, Debug, PartialEq, Eq, Structural)]
pub enum LoopEvent {
    /// The process has started.
    Started,
    /// The sign-in cycle asked for last is over. `confirmed` tells whether
    /// it ended with the internet confirmed reachable.
    CycleFinished { confirmed: bool },
    /// The wait asked for last has ended.
    Woke { by: Wakeup },
    /// The pause asked for last is over.
    SettleElapsed,
}

/// What the caller is to do next.
#[derive(Clone, Copy, Debug, PartialEq, Eq, Structural)]
pub enum LoopAction {
    /// Run one sign-in cycle and report how it ended.
    RunCycle,
    /// Wait for a request to stop, for a network change, or for `secs`
    /// seconds, whichever is first, and report which it was.
    Wait { secs: u64 },
    /// Pause for `secs` seconds.
    Settle { secs: u64 },
    /// Write the final status and leave the loop.
    Exit,
    /// The event does not belong to this point of the loop: do nothing.
    Ignore,
}

/// The loop, as contracts see it.
pub struct DaemonView {
    pub phase: LoopPhase,
    pub interval: u64,
    pub last_outcome: bool,
}

/// The loop after `event`, and what the caller is to do next.
pub open spec fn loop_step(d: DaemonView, event: LoopEvent) -> (DaemonView, LoopAction) {
    match (d.phase, event) {
        (LoopPhase::Starting, LoopEvent::Started) => (
            DaemonView { phase: LoopPhase::Checking, ..d },
            LoopAction::RunCycle,
        ),
        (LoopPhase::Checking, LoopEvent::CycleFinished { confirmed }) => (
            DaemonView {
                phase: LoopPhase::Waiting,
                interval: next_interval(d.interval, confirmed),
                last_outcome: confirmed,
            },
            LoopAction::Wait { secs: next_interval(d.interval, confirmed) },
        ),
        (LoopPhase::Waiting, LoopEvent::Woke { by: Wakeup::Shutdown }) => (
            DaemonView { phase: LoopPhase::Stopped, ..d },
            LoopAction::Exit,
        ),
        (LoopPhase::Waiting, LoopEvent::Woke { by: Wakeup::NetworkChange }) => (
            DaemonView { phase: LoopPhase::Settling, ..d },
            LoopAction::Settle { secs: NETWORK_SETTLE_SECS },
        ),
        (LoopPhase::Waiting, LoopEvent::Woke { by: Wakeup::Timer }) => (
            DaemonView { phase: LoopPhase::Checking, ..d },
            LoopAction::RunCycle,
        ),
        (LoopPhase::Settling, LoopEvent::SettleElapsed) => (
            DaemonView { phase: LoopPhase::Checking, ..d },
            LoopAction::RunCycle,
        ),
        _ => (d, LoopAction::Ignore),
    }
}

/// A sign-in cycle is started only while none is under way, and only the
/// end of that cycle lets the loop go on.
pub proof fn one_cycle_at_a_time(d: DaemonView, event: LoopEvent)
    ensures
        loop_step(d, event).1 == LoopAction::RunCycle ==> d.phase != LoopPhase::Checking
            && loop_step(d, event).0.phase == LoopPhase::Checking,
        d.phase == LoopPhase::Checking && !(event is CycleFinished) ==> loop_step(d, event) == (
            d,
            LoopAction::Ignore,
        ),
{
}

/// The loop that decides when a sign-in cycle runs.
#[derive(Clone, Copy, Debug)]
pub struct Daemon {
    phase: LoopPhase,
    schedule: ScheduleState,
}

impl View for Daemon {
    type V = DaemonView;

    closed spec fn view(&self) -> DaemonView {
        DaemonView {
            phase: self.phase,
            interval: self.schedule.interval(),
            last_outcome: self.schedule.succeeded(),
        }
    }
}

impl Daemon {
    /// The loop before the process has started, with the shortest pause
    /// as its interval.
    pub fn new() -> (d: Daemon)
        ensures
            d@ == (DaemonView {
                phase: LoopPhase::Starting,
                interval: MIN_DELAY_SECS,
                last_outcome: false,
            }),
    {
        Daemon { phase: LoopPhase::Starting, schedule: ScheduleState::new() }
    }

    /// Where the loop stands.
    pub fn phase(&self) -> (phase: LoopPhase)
        ensures
            phase == self@.phase,
    {
        self.phase
    }

    /// What the loop remembers of the schedule.
    pub fn schedule(&self) -> (schedule: ScheduleState)
        ensures
            schedule.interval() == self@.interval,
            schedule.succeeded() == self@.last_outcome,
    {
        self.schedule
    }

    /// Takes what the caller reports and returns what to do next.
    pub fn step(&mut self, event: LoopEvent) -> (action: LoopAction)
        ensures
            (final(self)@, action) == loop_step(old(self)@, event),
    {
        match (self.phase, event) {
            (LoopPhase::Starting, LoopEvent::Started) => {
                self.phase = LoopPhase::Checking;
                LoopAction::RunCycle
            },
            (LoopPhase::Checking, LoopEvent::CycleFinished { confirmed }) => {
                self.schedule.after_cycle(confirmed);
                self.phase = LoopPhase::Waiting;
                LoopAction::Wait { secs: self.schedule.current_interval() }
            },
            (LoopPhase::Waiting, LoopEvent::Woke { by: Wakeup::Shutdown }) => {
                self.phase = LoopPhase::Stopped;
                LoopAction::Exit
            },
            (LoopPhase::Waiting, LoopEvent::Woke { by: Wakeup::NetworkChange }) => {
                self.phase = LoopPhase::Settling;
                LoopAction::Settle { secs: NETWORK_SETTLE_SECS }
            },
            (LoopPhase::Waiting, LoopEvent::Woke { by: Wakeup::Timer }) => {
                self.phase = LoopPhase::Checking;
                LoopAction::RunCycle
            },
            (LoopPhase::Settling, LoopEvent::SettleElapsed) => {
                self.phase = LoopPhase::Checking;
                LoopAction::RunCycle
            },
            _ => LoopAction::Ignore,
        }
    }
}

} // verus!
