use vstd::prelude::*;

verus! {

/// How long `stop` waits, after firing the cancellation notifier, before it
/// tears the execution context down, in milliseconds.
pub const STOP_GRACE_MILLIS: u64 = 500;

/// How long the teardown of an execution context may take before its
/// unfinished work is abandoned, in milliseconds.
pub const TEARDOWN_TIMEOUT_MILLIS: u64 = 1000;

/// Why a start request was refused.
#[derive(Clone, Copy, Debug, PartialEq, Eq, Structural)]
pub enum StartError {
    /// A previous start succeeded and its run has not ended yet.
    AlreadyRunning,
    /// An execution context from a previous start is still held.
    AlreadyInitialized,
}

/// The abstract state of a lifecycle manager.
pub struct LifecycleView {
    pub running: bool,
    pub has_context: bool,
    pub has_notifier: bool,
}

/// A run in progress always holds its execution context.
pub open spec fn lifecycle_wf(s: LifecycleView) -> bool {
    s.running ==> s.has_context
}

/// What `start` decides on a state.
pub open spec fn start_outcome(s: LifecycleView) -> Result<(), StartError> {
    if s.running {
        Err(StartError::AlreadyRunning)
    } else if s.has_context {
        Err(StartError::AlreadyInitialized)
    } else {
        Ok(())
    }
}

/// The state after `start`, successful or not.
pub open spec fn after_start(s: LifecycleView) -> LifecycleView {
    if start_outcome(s) is Ok {
        LifecycleView { running: true, has_context: true, has_notifier: true }
    } else {
        s
    }
}

/// The state after the first half of `stop`: the cancellation notifier is fired and dropped.
pub open spec fn after_cancel(s: LifecycleView) -> LifecycleView {
    LifecycleView { has_notifier: false, ..s }
}

/// The state after the second half of `stop`: the context is gone and the run flag is clear.
pub open spec fn after_teardown(s: LifecycleView) -> LifecycleView {
    LifecycleView { running: false, has_context: false, ..s }
}

/// The state after a whole `stop`.
pub open spec fn after_stop(s: LifecycleView) -> LifecycleView {
    after_teardown(after_cancel(s))
}

/// The state after the orchestrated run has joined all of its tasks.
pub open spec fn after_completion(s: LifecycleView) -> LifecycleView {
    LifecycleView { running: false, ..s }
}

/// A call on a lifecycle manager, for reasoning about sequences of calls.
pub enum LifecycleOp {
    /// `start`, whatever its outcome.
    Start,
    /// A whole `stop`.
    Stop,
    /// The run's tasks all joined.
    Complete,
}

pub open spec fn idle_view() -> LifecycleView {
    LifecycleView { running: false, has_context: false, has_notifier: false }
}

pub open spec fn apply_op(s: LifecycleView, op: LifecycleOp) -> LifecycleView {
    match op {
        LifecycleOp::Start => after_start(s),
        LifecycleOp::Stop => after_stop(s),
        LifecycleOp::Complete => after_completion(s),
    }
}

/// The state after the calls, in order, from `s`.
pub open spec fn replay(s: LifecycleView, ops: Seq<LifecycleOp>) -> LifecycleView
    decreases ops.len(),
{
    if ops.len() == 0 {
        s
    } else {
        apply_op(replay(s, ops.drop_last()), ops.last())
    }
}

/// Some call of `ops` was a successful start on a fresh manager, and only
/// starts came after it.
pub open spec fn start_left_open(ops: Seq<LifecycleOp>) -> bool {
    exists|i: int|
        #![trigger ops[i]]
        0 <= i < ops.len() && ops[i] is Start && start_outcome(replay(idle_view(), ops.take(i)))
            is Ok && forall|j: int| #![trigger ops[j]] i < j < ops.len() ==> ops[j] is Start
}

/// Appending a refused start keeps whether a start was left open.
proof fn lemma_refused_start_keeps_open(ops: Seq<LifecycleOp>)
    requires
        ops.len() > 0,
        ops.last() is Start,
        !(start_outcome(replay(idle_view(), ops.drop_last())) is Ok),
    ensures
        start_left_open(ops) == start_left_open(ops.drop_last()),
{
    let prefix = ops.drop_last();
    let n = prefix.len() as int;
    if start_left_open(prefix) {
        let i = choose|i: int|
            #![trigger prefix[i]]
            0 <= i < prefix.len() && prefix[i] is Start && start_outcome(
                replay(idle_view(), prefix.take(i)),
            ) is Ok && forall|j: int| #![trigger prefix[j]] i < j < prefix.len() ==> prefix[j] is Start;
        assert(ops[i] == prefix[i]);
        assert(ops.take(i) =~= prefix.take(i));
        assert forall|j: int| #![trigger ops[j]] i < j < ops.len() implies ops[j] is Start by {
            if j < n {
                assert(ops[j] == prefix[j]);
            } else {
                assert(ops[j] == ops.last());
            }
        }
    }
    if start_left_open(ops) {
        let i = choose|i: int|
            #![trigger ops[i]]
            0 <= i < ops.len() && ops[i] is Start && start_outcome(
                replay(idle_view(), ops.take(i)),
            ) is Ok && forall|j: int| #![trigger ops[j]] i < j < ops.len() ==> ops[j] is Start;
        if i == n {
            assert(ops.take(i) =~= prefix);
        } else {
            assert(prefix[i] == ops[i]);
            assert(ops.take(i) =~= prefix.take(i));
            assert forall|j: int| #![trigger prefix[j]] i < j < prefix.len() implies prefix[j] is Start by {
                assert(prefix[j] == ops[j]);
            }
        }
    }
}

/// On a fresh manager, after any sequence of calls, `start` fails with
/// `AlreadyRunning` exactly when an earlier start succeeded and neither a stop
/// nor the end of that run has come since.
pub proof fn lemma_already_running_iff_start_left_open(ops: Seq<LifecycleOp>)
    ensures
        (start_outcome(replay(idle_view(), ops)) == Err::<(), StartError>(
            StartError::AlreadyRunning,
        )) <==> start_left_open(ops),
    decreases ops.len(),
{
    if ops.len() > 0 {
        let prefix = ops.drop_last();
        let n = prefix.len() as int;
        assert(ops[n] == ops.last());
        lemma_already_running_iff_start_left_open(prefix);
        if ops.last() is Start {
            if start_outcome(replay(idle_view(), prefix)) is Ok {
                assert(ops.take(n) =~= prefix);
                assert(ops[n] is Start);
            } else {
                lemma_refused_start_keeps_open(ops);
            }
        }
    }
}

/// Once a stop has returned, a start succeeds, whatever came before.
pub proof fn lemma_start_after_stop(s: LifecycleView)
    ensures
        start_outcome(after_stop(s)) is Ok,
        after_start(after_stop(s)).running,
{
}

/// Owns the run flag, the execution context `C` of the current run and its
/// cancellation notifier `N`.
pub struct Lifecycle<C, N> {
    running: bool,
    context: Option<C>,
    notifier: Option<N>,
}

impl<C, N> Lifecycle<C, N> {
    pub closed spec fn view(&self) -> LifecycleView {
        LifecycleView {
            running: self.running,
            has_context: self.context is Some,
            has_notifier: self.notifier is Some,
        }
    }

    /// An idle manager that holds no context.
    pub fn new() -> (r: Self)
        ensures
            r@ == (LifecycleView { running: false, has_context: false, has_notifier: false }),
            lifecycle_wf(r@),
    {
        Lifecycle { running: false, context: None, notifier: None }
    }

    /// Tells whether `start` would succeed now, without changing anything.
    pub fn check_start(&self) -> (r: Result<(), StartError>)
        ensures
            r == start_outcome(self@),
    {
        if self.running {
            Err(StartError::AlreadyRunning)
        } else if self.context.is_some() {
            Err(StartError::AlreadyInitialized)
        } else {
            Ok(())
        }
    }

    /// Begins a run that owns `context` and is cancelled through `notifier`.
    /// A refused start changes nothing and drops both.
    pub fn start(&mut self, context: C, notifier: N) -> (r: Result<(), StartError>)
        ensures
            r == start_outcome(old(self)@),
            final(self)@ == after_start(old(self)@),
            lifecycle_wf(old(self)@) ==> lifecycle_wf(final(self)@),
    {
        let checked = self.check_start();
        match checked {
            Err(e) => Err(e),
            Ok(()) => {
                self.running = true;
                self.context = Some(context);
                self.notifier = Some(notifier);
                Ok(())
            },
        }
    }

    /// First half of `stop`: hands out the notifier of the current run, to be
    /// fired. The next run gets a fresh one.
    pub fn take_notifier(&mut self) -> (r: Option<N>)
        ensures
            r is Some <==> old(self)@.has_notifier,
            final(self)@ == after_cancel(old(self)@),
            lifecycle_wf(old(self)@) ==> lifecycle_wf(final(self)@),
    {
        self.notifier.take()
    }

    /// Second half of `stop`: hands out the execution context, to be shut down,
    /// and clears the run flag whether or not a context was held.
    pub fn take_context(&mut self) -> (r: Option<C>)
        ensures
            r is Some <==> old(self)@.has_context,
            final(self)@ == after_teardown(old(self)@),
            lifecycle_wf(old(self)@) ==> lifecycle_wf(final(self)@),
    {
        self.running = false;
        self.context.take()
    }

    /// Records that the run has joined all of its tasks.
    pub fn complete_run(&mut self)
        ensures
            final(self)@ == after_completion(old(self)@),
            lifecycle_wf(old(self)@) ==> lifecycle_wf(final(self)@),
    {
        self.running = false;
    }

    /// Whether an execution context is held.
    pub fn has_context(&self) -> (r: bool)
        ensures
            r == self@.has_context,
    {
        self.context.is_some()
    }

    /// Whether a run is in progress.
    pub fn is_running(&self) -> (r: bool)
        ensures
            r == self@.running,
    {
        self.running
    }
}

/// Whether an execution context is held by `lifecycle`.
pub fn runtime_started<C, N>(lifecycle: &Lifecycle<C, N>) -> (r: bool)
    ensures
        r == lifecycle@.has_context,
{
    lifecycle.has_context()
}

} // verus!
