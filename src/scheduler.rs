use vstd::prelude::*;

verus! {

/// Where the scheduler stands.
#[derive(Debug, Clone, Copy, PartialEq, Eq)]
pub enum Phase {
    /// Waiting for the next tick; no dispatch is in flight.
    Idle,
    /// The dispatch of the monitor at `current` is in flight.
    Ticking { current: usize },
}

/// What happens to the scheduler.
#[derive(Debug, Clone, Copy, PartialEq, Eq)]
pub enum Event {
    /// The periodic timer fired.
    Tick,
    /// The dispatch in flight completed (successfully or not).
    Done,
}

/// What the scheduler asks its driver to do next.
#[derive(Debug, Clone, Copy, PartialEq, Eq)]
pub enum Action {
    /// Nothing: wait for the next event.
    Wait,
    /// Dispatch the monitor at `index` of the configuration.
    Dispatch { index: usize },
}

/// The scheduler's decision on one event: a tick starts the walk over the
/// monitors when none is in flight (and is otherwise dropped, so ticks never
/// overlap); each completion starts the next monitor in configuration order,
/// until the last one has completed.
pub open spec fn step_spec(p: Phase, n: usize, e: Event) -> (Phase, Action) {
    match (p, e) {
        (Phase::Idle, Event::Tick) => if n == 0 {
            (Phase::Idle, Action::Wait)
        } else {
            (Phase::Ticking { current: 0 }, Action::Dispatch { index: 0 })
        },
        (Phase::Ticking { current }, Event::Done) => if current + 1 < n {
            (
                Phase::Ticking { current: (current + 1) as usize },
                Action::Dispatch { index: (current + 1) as usize },
            )
        } else {
            (Phase::Idle, Action::Wait)
        },
        _ => (p, Action::Wait),
    }
}

/// The phase reached and the actions asked for, event after event.
pub open spec fn run(p: Phase, n: usize, events: Seq<Event>) -> (Phase, Seq<Action>)
    decreases events.len(),
{
    if events.len() == 0 {
        (p, Seq::empty())
    } else {
        let (q, acts) = run(p, n, events.drop_last());
        let (q2, a) = step_spec(q, n, events.last());
        (q2, acts.push(a))
    }
}

/// One tick followed by the completion of `k` dispatches.
pub open spec fn tick_then_done(k: nat) -> Seq<Event> {
    seq![Event::Tick] + Seq::new(k, |i: int| Event::Done)
}

/// The dispatches of the monitors `0..k`, in that order.
pub open spec fn dispatches(k: nat) -> Seq<Action> {
    Seq::new(k, |i: int| Action::Dispatch { index: i as usize })
}

/// Drives the monitors of a configuration, one at a time, once per tick.
#[derive(Debug, Clone, Copy)]
pub struct Scheduler {
    pub phase: Phase,
    pub n_monitors: usize,
}

impl Scheduler {
    /// The monitor in flight is one of the configuration's.
    pub open spec fn wf(&self) -> bool {
        match self.phase {
            Phase::Idle => true,
            Phase::Ticking { current } => current < self.n_monitors,
        }
    }

    /// A scheduler for `n_monitors` monitors, waiting for its first tick.
    pub fn new(n_monitors: usize) -> (r: Scheduler)
        ensures
            r.wf(),
            r.phase == Phase::Idle,
            r.n_monitors == n_monitors,
    {
        Scheduler { phase: Phase::Idle, n_monitors }
    }

    /// Takes one event and says what to do next. A dispatch is only ever
    /// asked for when none is in flight: on a tick while idle (the first
    /// monitor), or on the completion of the previous monitor's dispatch.
    pub fn step(&mut self, e: Event) -> (a: Action)
        requires
            old(self).wf(),
        ensures
            final(self).wf(),
            final(self).n_monitors == old(self).n_monitors,
            (final(self).phase, a) == step_spec(old(self).phase, old(self).n_monitors, e),
            a matches Action::Dispatch { index } ==> final(self).phase == (Phase::Ticking {
                current: index,
            }) && ((old(self).phase == Phase::Idle && e == Event::Tick && index == 0) || (
            old(self).phase == (Phase::Ticking { current: (index - 1) as usize }) && e
                == Event::Done && index > 0)),
    {
        let n = self.n_monitors;
        match (self.phase, e) {
            (Phase::Idle, Event::Tick) => {
                if n == 0 {
                    Action::Wait
                } else {
                    self.phase = Phase::Ticking { current: 0 };
                    Action::Dispatch { index: 0 }
                }
            },
            (Phase::Ticking { current }, Event::Done) => {
                if current + 1 < n {
                    self.phase = Phase::Ticking { current: current + 1 };
                    Action::Dispatch { index: current + 1 }
                } else {
                    self.phase = Phase::Idle;
                    Action::Wait
                }
            },
            _ => Action::Wait,
        }
    }
}

/// Within a tick, the monitors are dispatched one after another in
/// configuration order: after the tick and `k` completions (`k < n`), the
/// monitors `0..=k` have been asked for in that order and the `k`-th is the
/// only one in flight.
pub proof fn lemma_tick_prefix(n: usize, k: nat)
    requires
        k < n,
    ensures
        run(Phase::Idle, n, tick_then_done(k)) == (Phase::Ticking { current: k as usize }, dispatches(
            k + 1,
        )),
    decreases k,
{
    let evs = tick_then_done(k);
    assert(evs.len() == k + 1);
    if k == 0 {
        assert(evs.last() == Event::Tick);
        assert(evs.drop_last() =~= Seq::<Event>::empty());
        assert(run(Phase::Idle, n, evs.drop_last()) == (Phase::Idle, Seq::<Action>::empty()));
        assert(Seq::<Action>::empty().push(Action::Dispatch { index: 0 }) =~= dispatches(1));
    } else {
        lemma_tick_prefix(n, (k - 1) as nat);
        assert(evs.drop_last() =~= tick_then_done((k - 1) as nat));
        assert(evs.last() == Event::Done);
        assert(dispatches(k).push(Action::Dispatch { index: k as usize }) =~= dispatches(k + 1));
    }
}

/// One whole tick: with `n` monitors, a tick followed by `n` completions asks
/// for the dispatch of every monitor exactly once, in configuration order,
/// each only after the previous one completed, and leaves the scheduler idle.
pub proof fn lemma_tick_dispatches_in_order(n: usize)
    requires
        n > 0,
    ensures
        run(Phase::Idle, n, tick_then_done(n as nat)) == (Phase::Idle, dispatches(n as nat).push(
            Action::Wait,
        )),
{
    lemma_tick_prefix(n, (n - 1) as nat);
    assert(tick_then_done(n as nat).len() == n + 1);
    assert(tick_then_done(n as nat).drop_last() =~= tick_then_done((n - 1) as nat));
    assert(tick_then_done(n as nat).last() == Event::Done);
}

/// A tick that arrives while a dispatch is in flight starts nothing and
/// leaves the walk where it was: ticks never overlap.
pub proof fn lemma_busy_tick_ignored(p: Phase, n: usize)
    requires
        p is Ticking,
    ensures
        step_spec(p, n, Event::Tick) == (p, Action::Wait),
{
}

} // verus!
