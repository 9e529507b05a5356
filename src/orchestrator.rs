use vstd::prelude::*;

verus! {

/// What one of the three tasks of a run reports.
#[derive(Clone, Copy, Debug, PartialEq, Eq, Structural)]
pub enum TaskEvent {
    /// The engine's run returned, with success or with an error.
    EngineReturned,
    /// The stop watcher saw the cancellation notifier fire.
    CancelObserved,
    /// The backdoor relay left its loop.
    RelayExited,
}

/// What the runner of the tasks must do after an event.
#[derive(Clone, Copy, Debug, PartialEq, Eq, Structural)]
pub struct JoinActions {
    /// Fire the cancellation notifier, so that the watcher and the relay unwind.
    pub fire_cancel: bool,
    /// Ask the engine to stop.
    pub stop_engine: bool,
    /// Clear the run flag and close the outbound sink.
    pub finish: bool,
}

/// The abstract state of a run's join.
pub struct JoinView {
    pub engine_done: bool,
    pub watcher_done: bool,
    pub relay_done: bool,
    pub sink_closed: bool,
}

pub open spec fn all_done(s: JoinView) -> bool {
    s.engine_done && s.watcher_done && s.relay_done
}

/// The sink is closed exactly when all three tasks are done.
pub open spec fn join_wf(s: JoinView) -> bool {
    s.sink_closed == all_done(s)
}

/// One step of the join: the next state and what to do.
pub open spec fn join_next(s: JoinView, e: TaskEvent) -> (JoinView, JoinActions) {
    let (t, fire, stop) = match e {
        TaskEvent::EngineReturned => (JoinView { engine_done: true, ..s }, !s.engine_done, false),
        TaskEvent::CancelObserved => (JoinView { watcher_done: true, ..s }, false, !s.watcher_done),
        TaskEvent::RelayExited => (JoinView { relay_done: true, ..s }, false, false),
    };
    let finish = all_done(t) && !s.sink_closed;
    (
        JoinView { sink_closed: s.sink_closed || all_done(t), ..t },
        JoinActions { fire_cancel: fire, stop_engine: stop, finish },
    )
}

/// The actions performed, one per event, starting in state `s`.
pub open spec fn join_trace(s: JoinView, events: Seq<TaskEvent>) -> Seq<JoinActions>
    decreases events.len(),
{
    if events.len() == 0 {
        Seq::empty()
    } else {
        let (t, a) = join_next(s, events[0]);
        seq![a] + join_trace(t, events.subrange(1, events.len() as int))
    }
}

/// The state reached after the events.
pub open spec fn join_after(s: JoinView, events: Seq<TaskEvent>) -> JoinView
    decreases events.len(),
{
    if events.len() == 0 {
        s
    } else {
        join_after(join_next(s, events[0]).0, events.subrange(1, events.len() as int))
    }
}

/// How many actions of a trace close the sink.
pub open spec fn finish_count(actions: Seq<JoinActions>) -> nat
    decreases actions.len(),
{
    if actions.len() == 0 {
        0
    } else {
        (if actions[0].finish { 1nat } else { 0nat }) + finish_count(
            actions.subrange(1, actions.len() as int),
        )
    }
}

/// Over any sequence of task reports, the sink is closed at most once, only
/// once the engine-run task and the relay have both stopped producing, and
/// once closed it stays closed.
pub proof fn lemma_sink_closes_once_after_producers(s: JoinView, events: Seq<TaskEvent>)
    requires
        join_wf(s),
    ensures
        finish_count(join_trace(s, events)) <= (if s.sink_closed { 0nat } else { 1nat }),
        s.sink_closed ==> join_after(s, events).sink_closed,
        join_wf(join_after(s, events)),
        join_after(s, events).sink_closed ==> join_after(s, events).engine_done && join_after(
            s,
            events,
        ).relay_done,
    decreases events.len(),
{
    if events.len() > 0 {
        let rest = events.subrange(1, events.len() as int);
        let (t, a) = join_next(s, events[0]);
        lemma_sink_closes_once_after_producers(t, rest);
        let tr = join_trace(s, events);
        assert(tr == seq![a] + join_trace(t, rest));
        assert(tr[0] == a);
        assert(tr.subrange(1, tr.len() as int) =~= join_trace(t, rest));
    }
}

/// Joins the engine-run task, the stop watcher and the backdoor relay of one run.
pub struct RunJoin {
    engine_done: bool,
    watcher_done: bool,
    relay_done: bool,
    sink_closed: bool,
}

impl RunJoin {
    pub closed spec fn view(&self) -> JoinView {
        JoinView {
            engine_done: self.engine_done,
            watcher_done: self.watcher_done,
            relay_done: self.relay_done,
            sink_closed: self.sink_closed,
        }
    }

    /// A run whose three tasks are all still going.
    pub fn new() -> (r: Self)
        ensures
            r@ == (JoinView {
                engine_done: false,
                watcher_done: false,
                relay_done: false,
                sink_closed: false,
            }),
            join_wf(r@),
    {
        RunJoin { engine_done: false, watcher_done: false, relay_done: false, sink_closed: false }
    }

    /// Takes one task's report and says what to do.
    pub fn on_event(&mut self, e: TaskEvent) -> (r: JoinActions)
        ensures
            (final(self)@, r) == join_next(old(self)@, e),
            join_wf(old(self)@) ==> join_wf(final(self)@),
            r.finish ==> final(self)@.engine_done && final(self)@.relay_done,
    {
        let mut fire_cancel = false;
        let mut stop_engine = false;
        match e {
            TaskEvent::EngineReturned => {
                fire_cancel = !self.engine_done;
                self.engine_done = true;
            },
            TaskEvent::CancelObserved => {
                stop_engine = !self.watcher_done;
                self.watcher_done = true;
            },
            TaskEvent::RelayExited => {
                self.relay_done = true;
            },
        }
        let done = self.engine_done && self.watcher_done && self.relay_done;
        let finish = done && !self.sink_closed;
        self.sink_closed = self.sink_closed || done;
        JoinActions { fire_cancel, stop_engine, finish }
    }

    /// Whether a message may still go to the outbound sink.
    pub fn may_deliver(&self) -> (r: bool)
        ensures
            r == !self@.sink_closed,
    {
        !self.sink_closed
    }
}

} // verus!
