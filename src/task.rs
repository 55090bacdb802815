//! The deferred task: a unit of work that is started at most once, lazily, and
//! whose single result is taken by a blocking wait, a non-blocking poll or a
//! cooperative scheduler.
use vstd::prelude::*;

use crate::channel::{channel_recv, channel_try_recv, RecvFailure};
use crossbeam_channel::Receiver;
use std::task::Waker;

verus! {

/// What a cooperative poll reports.
pub enum TaskPoll<T> {
    /// The task's outcome.
    Ready(T),
    /// No outcome yet; the scheduler is woken when there is one.
    Pending,
}

/// The ways a task is consumed; the model of a task's lifecycle is stated over them.
#[derive(PartialEq, Eq, Structural, Clone, Copy, Debug)]
pub enum Op {
    TryRecv,
    Recv,
    ShowDialog,
    Poll,
}

/// The abstract state of a task.
pub struct TaskView {
    /// The dispatch closure has left its slot. Only `show_dialog` and `poll`
    /// take it out, and each calls it as it does (see their contracts).
    pub started: bool,
    /// Cooperative polling may still make progress.
    pub future_eligible: bool,
    /// The one value has already been handed to the caller.
    pub delivered: bool,
}

impl TaskView {
    /// A task as it is constructed: inert.
    pub open spec fn fresh() -> TaskView {
        TaskView { started: false, future_eligible: true, delivered: false }
    }

    /// Whether `op` dispatches the worker when applied in this state.
    pub open spec fn spawns(self, op: Op) -> bool {
        !self.started && (op == Op::ShowDialog || (op == Op::Poll && self.future_eligible))
    }

    /// Whether a cooperative poll in this state goes to the channel and reports ready.
    pub open spec fn poll_ready(self) -> bool {
        self.started && self.future_eligible
    }

    /// The failure that a receive in this state reports without looking at the channel.
    pub open spec fn forced_failure(self) -> Option<RecvFailure> {
        if !self.started {
            Some(RecvFailure::Empty)
        } else if self.delivered {
            Some(RecvFailure::Disconnected)
        } else {
            None
        }
    }

    /// The state after `op`, where `received` says whether it handed out the value.
    pub open spec fn after(self, op: Op, received: bool) -> TaskView {
        TaskView {
            started: self.started || self.spawns(op),
            future_eligible: self.future_eligible && op != Op::ShowDialog,
            delivered: self.delivered || received,
        }
    }
}

/// The state after each step of `steps` in turn, starting from `s`.
pub open spec fn run(s: TaskView, steps: Seq<(Op, bool)>) -> TaskView
    decreases steps.len(),
{
    if steps.len() == 0 {
        s
    } else {
        run(s, steps.drop_last()).after(steps.last().0, steps.last().1)
    }
}

/// How many times the worker is dispatched over `steps`, starting from `s`.
pub open spec fn spawn_count(s: TaskView, steps: Seq<(Op, bool)>) -> nat
    decreases steps.len(),
{
    if steps.len() == 0 {
        0
    } else {
        let prev = run(s, steps.drop_last());
        spawn_count(s, steps.drop_last()) + if prev.spawns(steps.last().0) {
            1nat
        } else {
            0nat
        }
    }
}

/// Running one more step after a prefix of `steps` is the next prefix.
proof fn lemma_run_prefix(s: TaskView, steps: Seq<(Op, bool)>, i: int)
    requires
        0 <= i < steps.len(),
    ensures
        run(s, steps.take(i + 1)) == run(s, steps.take(i)).after(steps[i].0, steps[i].1),
{
    assert(steps.take(i + 1).drop_last() =~= steps.take(i));
}

/// Whatever operations are applied to a task, in whatever order and however
/// often, its worker is dispatched at most once, and not at all if it had
/// already been dispatched; it has been dispatched afterwards exactly when it
/// was before or this happened once.
pub proof fn lemma_dispatch_at_most_once(s: TaskView, steps: Seq<(Op, bool)>)
    ensures
        spawn_count(s, steps) <= (if s.started { 0nat } else { 1nat }),
        run(s, steps).started == (s.started || spawn_count(s, steps) == 1),
    decreases steps.len(),
{
    if steps.len() > 0 {
        lemma_dispatch_at_most_once(s, steps.drop_last());
    }
}

/// Applying the same sequence of operations twice to a fresh task dispatches
/// its worker at most once.
pub proof fn lemma_repeated_sequence_dispatches_once(steps: Seq<(Op, bool)>)
    ensures
        spawn_count(TaskView::fresh(), steps + steps) <= 1,
{
    lemma_dispatch_at_most_once(TaskView::fresh(), steps + steps);
}

/// A task taken out of cooperative polling never comes back to it.
proof fn lemma_ineligible_stays(s: TaskView, steps: Seq<(Op, bool)>)
    requires
        !s.future_eligible,
    ensures
        !run(s, steps).future_eligible,
    decreases steps.len(),
{
    if steps.len() > 0 {
        lemma_ineligible_stays(s, steps.drop_last());
    }
}

/// Once a task has been started by `show_dialog`, every cooperative poll that
/// follows reports pending, whatever else is done to the task in between and
/// whether or not its value has arrived.
pub proof fn lemma_show_dialog_freezes_poll(s: TaskView, steps: Seq<(Op, bool)>)
    ensures
        forall|i: int|
            0 <= i <= steps.len() ==> !(#[trigger] run(
                s.after(Op::ShowDialog, false),
                steps.take(i),
            )).poll_ready(),
{
    let t = s.after(Op::ShowDialog, false);
    assert forall|i: int| 0 <= i <= steps.len() implies !(#[trigger] run(
        t,
        steps.take(i),
    )).poll_ready() by {
        lemma_ineligible_stays(t, steps.take(i));
    }
}

/// A fresh task driven by cooperative polls alone reports pending on the
/// first poll, which dispatches the worker, and ready on every later one.
pub proof fn lemma_cooperative_liveness(steps: Seq<(Op, bool)>)
    requires
        forall|i: int| 0 <= i < steps.len() ==> (#[trigger] steps[i]).0 == Op::Poll,
    ensures
        forall|i: int|
            0 <= i <= steps.len() ==> ((#[trigger] run(TaskView::fresh(), steps.take(i))).poll_ready()
                <==> i >= 1),
{
    assert forall|i: int| 0 <= i <= steps.len() implies ((#[trigger] run(
        TaskView::fresh(),
        steps.take(i),
    )).poll_ready() <==> i >= 1) by {
        lemma_polls_keep_eligible(steps, i);
    }
}

/// Over polls alone, a fresh task stays eligible and is started after the first.
proof fn lemma_polls_keep_eligible(steps: Seq<(Op, bool)>, i: int)
    requires
        forall|j: int| 0 <= j < steps.len() ==> (#[trigger] steps[j]).0 == Op::Poll,
        0 <= i <= steps.len(),
    ensures
        run(TaskView::fresh(), steps.take(i)).future_eligible,
        run(TaskView::fresh(), steps.take(i)).started == (i >= 1),
    decreases i,
{
    if i == 0 {
        assert(steps.take(0) =~= Seq::<(Op, bool)>::empty());
    } else {
        lemma_polls_keep_eligible(steps, i - 1);
        lemma_run_prefix(TaskView::fresh(), steps, i - 1);
        assert(steps[i - 1].0 == Op::Poll);
    }
}

/// A task hands out its value once: after a receive that returned the value,
/// every later receive reports `Disconnected` without waiting.
pub proof fn lemma_single_delivery(s: TaskView, op: Op)
    requires
        op == Op::TryRecv || op == Op::Recv || op == Op::Poll,
        s.forced_failure() is None,
    ensures
        s.after(op, true).forced_failure() == Some(RecvFailure::Disconnected),
{
}

/// A task that no operation has started yet reports `Empty` to a receive.
pub proof fn lemma_unstarted_is_empty(steps: Seq<(Op, bool)>)
    requires
        forall|i: int|
            0 <= i < steps.len() ==> (#[trigger] steps[i]).0 == Op::TryRecv || steps[i].0 == Op::Recv,
    ensures
        run(TaskView::fresh(), steps).forced_failure() == Some(RecvFailure::Empty),
    decreases steps.len(),
{
    if steps.len() > 0 {
        let init = steps.drop_last();
        assert forall|i: int| 0 <= i < init.len() implies (#[trigger] init[i]).0 == Op::TryRecv
            || init[i].0 == Op::Recv by {
            assert(init[i] == steps[i]);
        }
        lemma_unstarted_is_empty(init);
        assert(steps[steps.len() - 1] == steps.last());
    }
}

/// A task whose worker is started by `dispatch`, at most once, and whose result
/// arrives on `receiver`.
///
/// `dispatch` is handed the scheduler's wake handle, if there is one; it must
/// start a worker that sends exactly one value and then wakes that handle.
/// `dispatcher()` is the closure while it waits in its slot. `show_dialog` and
/// `poll` state that when they empty the slot they call the closure, with no
/// wake handle and with the scheduler's handle respectively. Being `FnOnce`,
/// the closure cannot be called a second time.
#[verifier::reject_recursive_types(T)]
#[verifier::reject_recursive_types(S)]
pub struct AsyncDialog<T, S: FnOnce(Option<Waker>)> {
    dispatch: Option<S>,
    receiver: Receiver<T>,
    future_eligible: bool,
    delivered: bool,
}

impl<T, S: FnOnce(Option<Waker>)> View for AsyncDialog<T, S> {
    type V = TaskView;

    closed spec fn view(&self) -> TaskView {
        TaskView {
            started: self.dispatch is None,
            future_eligible: self.future_eligible,
            delivered: self.delivered,
        }
    }
}

impl<T, S: FnOnce(Option<Waker>)> AsyncDialog<T, S> {
    /// The dispatch closure, while it has not been called.
    pub closed spec fn dispatcher(&self) -> Option<S> {
        self.dispatch
    }

    /// A task is started exactly when its dispatch closure has left the slot.
    pub proof fn lemma_started_iff_dispatched(&self)
        ensures
            self@.started <==> self.dispatcher() is None,
    {
    }

    #[verifier::type_invariant]
    closed spec fn dispatch_callable(self) -> bool {
        self.dispatch matches Some(f) ==> forall|w: Option<Waker>| f.requires((w,))
    }

    /// An inert task: nothing runs until it is first consumed.
    pub fn new(dispatch: S, receiver: Receiver<T>) -> (r: Self)
        requires
            forall|w: Option<Waker>| dispatch.requires((w,)),
        ensures
            r@ == TaskView::fresh(),
            r.dispatcher() == Some(dispatch),
    {
        AsyncDialog { dispatch: Some(dispatch), receiver, future_eligible: true, delivered: false }
    }

    /// Dispatches the worker unless that already happened; says whether it did now.
    fn trigger(&mut self, waker: Option<Waker>) -> (spawned: bool)
        ensures
            spawned == !old(self)@.started,
            old(self).dispatcher() matches Some(f) ==> f.ensures((waker,), ()),
            final(self).dispatcher() is None,
            final(self)@ == (TaskView { started: true, ..old(self)@ }),
    {
        proof {
            use_type_invariant(&*self);
        }
        let mut slot: Option<S> = None;
        std::mem::swap(&mut slot, &mut self.dispatch);
        match slot {
            Some(f) => {
                f(waker);
                true
            },
            None => false,
        }
    }

    /// Takes the result if it is already there, without blocking and without
    /// starting the task.
    pub fn try_recv(&mut self) -> (r: Result<T, RecvFailure>)
        ensures
            old(self)@.forced_failure() matches Some(e) ==> r == Err::<T, RecvFailure>(e),
            final(self)@ == old(self)@.after(Op::TryRecv, r is Ok),
    {
        if self.dispatch.is_some() {
            return Err(RecvFailure::Empty);
        }
        if self.delivered {
            return Err(RecvFailure::Disconnected);
        }
        let r = channel_try_recv(&self.receiver);
        if r.is_ok() {
            self.delivered = true;
        }
        r
    }

    /// Waits for the result of a started task. A task that was never started has
    /// nothing to wait for and reports `Empty` at once.
    pub fn recv(&mut self) -> (r: Result<T, RecvFailure>)
        ensures
            old(self)@.forced_failure() matches Some(e) ==> r == Err::<T, RecvFailure>(e),
            old(self)@.forced_failure() is None ==> (r is Ok || r == Err::<T, RecvFailure>(
                RecvFailure::Disconnected,
            )),
            final(self)@ == old(self)@.after(Op::Recv, r is Ok),
    {
        if self.dispatch.is_some() {
            return Err(RecvFailure::Empty);
        }
        if self.delivered {
            return Err(RecvFailure::Disconnected);
        }
        let r = channel_recv(&self.receiver);
        if r.is_ok() {
            self.delivered = true;
        }
        r
    }

    /// Starts the task without a scheduler, and takes it out of cooperative
    /// polling for good: from now on `poll` reports `Pending` whatever happens.
    pub fn show_dialog(&mut self)
        ensures
            old(self).dispatcher() matches Some(f) ==> f.ensures((None::<Waker>,), ()),
            final(self).dispatcher() is None,
            final(self)@ == old(self)@.after(Op::ShowDialog, false),
    {
        self.trigger(None);
        self.future_eligible = false;
    }

    /// One cooperative poll. The first one starts the worker with `waker` and
    /// reports `Pending`; a later one waits for the result, which is there once
    /// the worker has woken the scheduler.
    pub fn poll(&mut self, waker: Waker) -> (r: TaskPoll<Result<T, RecvFailure>>)
        ensures
            r is Pending <==> !old(self)@.poll_ready(),
            old(self)@.future_eligible ==> (old(self).dispatcher() matches Some(f) ==> f.ensures(
                (Some(waker),),
                (),
            )),
            !old(self)@.future_eligible ==> final(self).dispatcher() == old(self).dispatcher(),
            r matches TaskPoll::Ready(x) ==> {
                &&& old(self)@.forced_failure() matches Some(e) ==> x == Err::<T, RecvFailure>(e)
                &&& old(self)@.forced_failure() is None ==> (x is Ok || x == Err::<T, RecvFailure>(
                    RecvFailure::Disconnected,
                ))
            },
            final(self)@ == old(self)@.after(Op::Poll, r matches TaskPoll::Ready(Ok(_))),
    {
        if !self.future_eligible {
            return TaskPoll::Pending;
        }
        if self.trigger(Some(waker)) {
            TaskPoll::Pending
        } else {
            TaskPoll::Ready(self.recv())
        }
    }
}

} // verus!
