//! A capacity-bounded dispatcher of scan tasks, written as a state machine.
//!
//! The driver (which owns the worker threads) asks for the next task with
//! [`Scheduler::dispatch`] and reports each completed task with
//! [`Scheduler::finish`]; the batch is complete when [`Scheduler::is_done`].
use vstd::prelude::*;

verus! {

/// What the driver reports to the scheduler.
#[derive(Clone, Copy, Debug, PartialEq, Eq, Structural)]
pub enum Event {
    /// The driver asks for another task to start.
    Dispatch,
    /// One running task reached a terminal outcome (whatever it was).
    Finish,
}

/// Dispatch state over targets `0..total`, with at most `limit` running at once.
#[derive(Clone, Copy, Debug, PartialEq, Eq, Structural)]
pub struct Scheduler {
    pub total: usize,
    pub limit: usize,
    /// Targets `0..next` have been dispatched, in order.
    pub next: usize,
    pub running: usize,
    pub finished: usize,
}

impl Scheduler {
    pub open spec fn initial(total: usize, limit: usize) -> Scheduler {
        Scheduler { total, limit, next: 0, running: 0, finished: 0 }
    }

    pub open spec fn wf(self) -> bool {
        &&& self.limit >= 1
        &&& self.next <= self.total
        &&& self.running <= self.limit
        &&& self.finished + self.running == self.next
    }

    pub open spec fn can_dispatch(self) -> bool {
        self.running < self.limit && self.next < self.total
    }

    pub open spec fn done(self) -> bool {
        self.finished == self.total
    }

    /// The state after one event; an event that cannot apply leaves it unchanged.
    pub open spec fn step(self, e: Event) -> Scheduler {
        match e {
            Event::Dispatch => if self.can_dispatch() {
                Scheduler { next: (self.next + 1) as usize, running: (self.running + 1) as usize, ..self }
            } else {
                self
            },
            Event::Finish => if self.running > 0 {
                Scheduler { running: (self.running - 1) as usize, finished: (self.finished + 1) as usize, ..self }
            } else {
                self
            },
        }
    }

    /// The target index that one event starts, if any.
    pub open spec fn started_by(self, e: Event) -> Seq<nat> {
        if e == Event::Dispatch && self.can_dispatch() {
            seq![self.next as nat]
        } else {
            Seq::empty()
        }
    }

    /// The state after a sequence of events.
    pub open spec fn run(self, evs: Seq<Event>) -> Scheduler
        decreases evs.len(),
    {
        if evs.len() == 0 {
            self
        } else {
            self.step(evs[0]).run(evs.drop_first())
        }
    }

    /// The target indices started along a sequence of events, in order.
    pub open spec fn starts(self, evs: Seq<Event>) -> Seq<nat>
        decreases evs.len(),
    {
        if evs.len() == 0 {
            Seq::empty()
        } else {
            self.started_by(evs[0]) + self.step(evs[0]).starts(evs.drop_first())
        }
    }

    /// What the driver does next: start a target while a slot is free and one
    /// is left, else wait for a running task to finish.
    pub open spec fn next_event_of(self) -> Event {
        if self.can_dispatch() {
            Event::Dispatch
        } else {
            Event::Finish
        }
    }

    /// The state after the driver has followed its policy `n` times.
    pub open spec fn drive(self, n: nat) -> Scheduler
        decreases n,
    {
        if n == 0 {
            self
        } else {
            self.step(self.next_event_of()).drive((n - 1) as nat)
        }
    }

    /// How many policy steps are left: a start and a finish for each target not
    /// yet started, a finish for each running one.
    pub open spec fn steps_left(self) -> nat {
        (2 * (self.total - self.next) + self.running) as nat
    }

    /// A scheduler for `total` targets and at most `limit` concurrent tasks.
    pub fn new(total: usize, limit: usize) -> (r: Scheduler)
        requires
            limit >= 1,
        ensures
            r == Scheduler::initial(total, limit),
            r.wf(),
    {
        Scheduler { total, limit, next: 0, running: 0, finished: 0 }
    }

    /// Starts the next target if a slot is free and one is left; returns its index.
    pub fn dispatch(&mut self) -> (r: Option<usize>)
        requires
            old(self).wf(),
        ensures
            *final(self) == old(self).step(Event::Dispatch),
            final(self).wf(),
            r == (if old(self).can_dispatch() { Some(old(self).next) } else { None::<usize> }),
    {
        if self.running < self.limit && self.next < self.total {
            let i = self.next;
            self.next = self.next + 1;
            self.running = self.running + 1;
            Some(i)
        } else {
            None
        }
    }

    /// Records that one running task reached a terminal outcome.
    pub fn finish(&mut self)
        requires
            old(self).wf(),
        ensures
            *final(self) == old(self).step(Event::Finish),
            final(self).wf(),
    {
        if self.running > 0 {
            self.running = self.running - 1;
            self.finished = self.finished + 1;
        }
    }

    /// The driver's next move under its policy.
    pub fn next_event(&self) -> (r: Event)
        ensures
            r == self.next_event_of(),
    {
        if self.running < self.limit && self.next < self.total {
            Event::Dispatch
        } else {
            Event::Finish
        }
    }

    /// Whether every target has reached a terminal outcome.
    pub fn is_done(&self) -> (r: bool)
        ensures
            r == self.done(),
    {
        self.finished == self.total
    }

    /// Whether a task is in flight (so the driver may wait for one to finish).
    pub fn has_running(&self) -> (r: bool)
        ensures
            r == (self.running > 0),
    {
        self.running > 0
    }
}

/// Every event keeps a well-formed scheduler well-formed.
pub proof fn lemma_step_wf(s: Scheduler, e: Event)
    requires
        s.wf(),
    ensures
        s.step(e).wf(),
        s.step(e).total == s.total,
        s.step(e).limit == s.limit,
        s.step(e).next == s.next + s.started_by(e).len(),
        s.started_by(e).len() <= 1,
        s.started_by(e).len() == 1 ==> s.started_by(e)[0] == s.next,
{
}

/// Along any sequence of events the state stays well-formed, and the indices
/// started are exactly `s.next, s.next + 1, ...` up to the final `next`.
pub proof fn lemma_run(s: Scheduler, evs: Seq<Event>)
    requires
        s.wf(),
    ensures
        s.run(evs).wf(),
        s.run(evs).total == s.total,
        s.run(evs).limit == s.limit,
        s.run(evs).next >= s.next,
        s.starts(evs) =~= Seq::new((s.run(evs).next - s.next) as nat, |i: int| (s.next + i) as nat),
    decreases evs.len(),
{
    if evs.len() > 0 {
        let t = s.step(evs[0]);
        lemma_step_wf(s, evs[0]);
        lemma_run(t, evs.drop_first());
    }
}

/// Whatever events the driver reports, starting from a fresh scheduler: at no
/// point are more than `limit` tasks running, no target is started twice, the
/// targets start in list order, and once the batch is done every one of the
/// `total` targets was started exactly once.
pub proof fn lemma_each_target_once(total: usize, limit: usize, evs: Seq<Event>)
    requires
        limit >= 1,
    ensures
        Scheduler::initial(total, limit).run(evs).running <= limit,
        Scheduler::initial(total, limit).starts(evs).len() <= total,
        forall|i: int| 0 <= i < Scheduler::initial(total, limit).starts(evs).len()
            ==> Scheduler::initial(total, limit).starts(evs)[i] == i,
        Scheduler::initial(total, limit).run(evs).done()
            ==> Scheduler::initial(total, limit).starts(evs).len() == total,
{
    lemma_run(Scheduler::initial(total, limit), evs);
}

/// A well-formed batch that is not done can always move: either a task is
/// running and may finish, or a slot is free and a target is left to start.
pub proof fn lemma_progress(s: Scheduler)
    requires
        s.wf(),
        !s.done(),
    ensures
        s.running > 0 || s.can_dispatch(),
{
}

/// An empty batch is done before anything happens, and no event ever starts a task.
pub proof fn lemma_empty_batch(limit: usize, evs: Seq<Event>)
    requires
        limit >= 1,
    ensures
        Scheduler::initial(0, limit).done(),
        Scheduler::initial(0, limit).starts(evs).len() == 0,
{
    lemma_run(Scheduler::initial(0, limit), evs);
}

/// A driver that follows its policy finishes the batch, whatever the outcome
/// of each task: after `steps_left` moves from any well-formed state every
/// target has been started and has finished.
pub proof fn lemma_drive_completes(s: Scheduler)
    requires
        s.wf(),
    ensures
        s.drive(s.steps_left()).done(),
        s.drive(s.steps_left()).wf(),
        s.drive(s.steps_left()).next == s.total,
    decreases s.steps_left(),
{
    if s.steps_left() > 0 {
        let t = s.step(s.next_event_of());
        if !s.done() {
            lemma_progress(s);
        }
        lemma_step_wf(s, s.next_event_of());
        assert(t.steps_left() + 1 == s.steps_left());
        lemma_drive_completes(t);
        assert(s.drive(s.steps_left()) == t.drive(t.steps_left()));
    }
}

} // verus!
