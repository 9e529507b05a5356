use vstd::prelude::*;

verus! {

/// Where the backdoor relay stands.
#[derive(Clone, Copy, Debug, PartialEq, Eq, Structural)]
pub enum RelayPhase {
    /// Waiting for the frontend-ready signal or for cancellation.
    AwaitingReady,
    /// The frontend is ready; the backdoor surface has been asked for.
    Acquiring,
    /// Forwarding inbound commands and surface events.
    Relaying,
    /// Finished; nothing more is done.
    Exited,
}

/// What the relay observed, whichever source became ready first.
#[derive(Clone, Debug, PartialEq, Eq)]
pub enum RelayEvent {
    /// The frontend signalled that the engine attached it.
    FrontendReady,
    /// The cancellation notifier fired.
    Cancelled,
    /// The engine handed out its backdoor surface.
    SurfaceFound,
    /// The engine has no backdoor surface.
    SurfaceMissing,
    /// A command text arrived on the inbound bus.
    Command(String),
    /// The inbound bus has no producers left.
    InboundClosed,
    /// The surface's event stream yielded a message.
    SurfaceMessage(String),
    /// The surface's event stream ended.
    SurfaceEnded,
}

/// What the relay asks its runner to do next.
#[derive(Clone, Debug, PartialEq, Eq)]
pub enum RelayAction {
    /// Nothing; keep waiting on the current sources.
    Wait,
    /// Ask the engine for its backdoor surface.
    AcquireSurface,
    /// Start a detached task that parses the command on the surface and
    /// delivers the one response it yields to the outbound sink.
    SpawnParse(String),
    /// Deliver the message to the outbound sink.
    Deliver(String),
    /// Leave the relay; in-flight parse tasks are abandoned.
    Exit,
}

/// Whether an action calls into the backdoor surface or sends something it produced.
pub open spec fn touches_surface(a: RelayAction) -> bool {
    a is AcquireSurface || a is SpawnParse || a is Deliver
}

/// One step of the relay: its next phase and the action to perform.
pub open spec fn relay_next(p: RelayPhase, e: RelayEvent) -> (RelayPhase, RelayAction) {
    match p {
        RelayPhase::AwaitingReady => match e {
            RelayEvent::FrontendReady => (RelayPhase::Acquiring, RelayAction::AcquireSurface),
            RelayEvent::Cancelled => (RelayPhase::Exited, RelayAction::Exit),
            _ => (p, RelayAction::Wait),
        },
        RelayPhase::Acquiring => match e {
            RelayEvent::SurfaceFound => (RelayPhase::Relaying, RelayAction::Wait),
            RelayEvent::SurfaceMissing => (RelayPhase::Exited, RelayAction::Exit),
            RelayEvent::Cancelled => (RelayPhase::Exited, RelayAction::Exit),
            _ => (p, RelayAction::Wait),
        },
        RelayPhase::Relaying => match e {
            RelayEvent::Command(t) => (p, RelayAction::SpawnParse(t)),
            RelayEvent::SurfaceMessage(m) => (p, RelayAction::Deliver(m)),
            RelayEvent::InboundClosed => (RelayPhase::Exited, RelayAction::Exit),
            RelayEvent::SurfaceEnded => (RelayPhase::Exited, RelayAction::Exit),
            RelayEvent::Cancelled => (RelayPhase::Exited, RelayAction::Exit),
            _ => (p, RelayAction::Wait),
        },
        RelayPhase::Exited => (p, RelayAction::Wait),
    }
}

/// The actions that the relay performs, one per event, starting in phase `p`.
pub open spec fn relay_trace(p: RelayPhase, events: Seq<RelayEvent>) -> Seq<RelayAction>
    decreases events.len(),
{
    if events.len() == 0 {
        Seq::empty()
    } else {
        let (q, a) = relay_next(p, events[0]);
        seq![a] + relay_trace(q, events.subrange(1, events.len() as int))
    }
}

/// One action per event.
pub proof fn lemma_relay_trace_len(p: RelayPhase, events: Seq<RelayEvent>)
    ensures
        relay_trace(p, events).len() == events.len(),
    decreases events.len(),
{
    if events.len() > 0 {
        lemma_relay_trace_len(relay_next(p, events[0]).0, events.subrange(1, events.len() as int));
    }
}

/// An exited relay does nothing more.
pub proof fn lemma_exited_relay_is_quiet(events: Seq<RelayEvent>)
    ensures
        forall|k: int|
            0 <= k < relay_trace(RelayPhase::Exited, events).len() ==> #[trigger] relay_trace(
                RelayPhase::Exited,
                events,
            )[k] == RelayAction::Wait,
    decreases events.len(),
{
    if events.len() > 0 {
        let rest = events.subrange(1, events.len() as int);
        lemma_exited_relay_is_quiet(rest);
        let t = relay_trace(RelayPhase::Exited, events);
        assert(t == seq![RelayAction::Wait] + relay_trace(RelayPhase::Exited, rest));
        assert forall|k: int| 0 <= k < t.len() implies #[trigger] t[k] == RelayAction::Wait by {
            if k > 0 {
                assert(t[k] == relay_trace(RelayPhase::Exited, rest)[k - 1]);
            }
        }
    }
}

/// When cancellation comes before the frontend-ready signal, the relay never
/// calls into the backdoor surface nor delivers anything, whatever follows.
pub proof fn lemma_cancel_before_ready_never_touches_surface(events: Seq<RelayEvent>, i: int)
    requires
        0 <= i < events.len(),
        events[i] is Cancelled,
        forall|j: int| 0 <= j < i ==> !(#[trigger] events[j] is FrontendReady),
    ensures
        forall|k: int|
            0 <= k < relay_trace(RelayPhase::AwaitingReady, events).len() ==> !touches_surface(
                #[trigger] relay_trace(RelayPhase::AwaitingReady, events)[k],
            ),
    decreases events.len(),
{
    let rest = events.subrange(1, events.len() as int);
    let t = relay_trace(RelayPhase::AwaitingReady, events);
    let (q, a) = relay_next(RelayPhase::AwaitingReady, events[0]);
    assert(t == seq![a] + relay_trace(q, rest));
    if events[0] is Cancelled {
        assert(q == RelayPhase::Exited);
        lemma_exited_relay_is_quiet(rest);
    } else {
        assert(i > 0 && !(events[0] is FrontendReady));
        assert(q == RelayPhase::AwaitingReady);
        assert forall|j: int| 0 <= j < i - 1 implies !(#[trigger] rest[j] is FrontendReady) by {
            assert(rest[j] == events[j + 1]);
        }
        assert(rest[i - 1] == events[i]);
        lemma_cancel_before_ready_never_touches_surface(rest, i - 1);
    }
    assert forall|k: int| 0 <= k < t.len() implies !touches_surface(#[trigger] t[k]) by {
        if k > 0 {
            assert(t[k] == relay_trace(q, rest)[k - 1]);
        }
    }
}

/// A command, well-formed or not, is handed to its own parse task and the
/// relay keeps relaying: a second command after it is handled too.
pub proof fn lemma_command_keeps_relay_alive(first: String, second: String)
    ensures
        relay_next(RelayPhase::Relaying, RelayEvent::Command(first)) == (
            RelayPhase::Relaying,
            RelayAction::SpawnParse(first),
        ),
        relay_trace(
            RelayPhase::Relaying,
            seq![RelayEvent::Command(first), RelayEvent::Command(second)],
        ) == seq![RelayAction::SpawnParse(first), RelayAction::SpawnParse(second)],
{
    let events = seq![RelayEvent::Command(first), RelayEvent::Command(second)];
    let rest = events.subrange(1, 2);
    assert(rest =~= seq![RelayEvent::Command(second)]);
    assert(rest.subrange(1, 1) =~= Seq::<RelayEvent>::empty());
    reveal_with_fuel(relay_trace, 3);
    assert(relay_trace(RelayPhase::Relaying, rest) =~= seq![RelayAction::SpawnParse(second)]);
    assert(relay_trace(RelayPhase::Relaying, events) =~= seq![
        RelayAction::SpawnParse(first),
        RelayAction::SpawnParse(second),
    ]);
}

/// The backdoor relay's decisions.
pub struct Relay {
    phase: RelayPhase,
}

impl Relay {
    pub closed spec fn phase(&self) -> RelayPhase {
        self.phase
    }

    /// A relay that waits for the frontend-ready signal.
    pub fn new() -> (r: Self)
        ensures
            r.phase() == RelayPhase::AwaitingReady,
    {
        Relay { phase: RelayPhase::AwaitingReady }
    }

    /// The current phase.
    pub fn current_phase(&self) -> (r: RelayPhase)
        ensures
            r == self.phase(),
    {
        self.phase
    }

    /// Takes one observed event and says what to do.
    pub fn handle(&mut self, e: RelayEvent) -> (r: RelayAction)
        ensures
            (final(self).phase(), r) == relay_next(old(self).phase(), e),
    {
        let (next, action) = match self.phase {
            RelayPhase::AwaitingReady => match e {
                RelayEvent::FrontendReady => (RelayPhase::Acquiring, RelayAction::AcquireSurface),
                RelayEvent::Cancelled => (RelayPhase::Exited, RelayAction::Exit),
                _ => (RelayPhase::AwaitingReady, RelayAction::Wait),
            },
            RelayPhase::Acquiring => match e {
                RelayEvent::SurfaceFound => (RelayPhase::Relaying, RelayAction::Wait),
                RelayEvent::SurfaceMissing => (RelayPhase::Exited, RelayAction::Exit),
                RelayEvent::Cancelled => (RelayPhase::Exited, RelayAction::Exit),
                _ => (RelayPhase::Acquiring, RelayAction::Wait),
            },
            RelayPhase::Relaying => match e {
                RelayEvent::Command(t) => (RelayPhase::Relaying, RelayAction::SpawnParse(t)),
                RelayEvent::SurfaceMessage(m) => (RelayPhase::Relaying, RelayAction::Deliver(m)),
                RelayEvent::InboundClosed => (RelayPhase::Exited, RelayAction::Exit),
                RelayEvent::SurfaceEnded => (RelayPhase::Exited, RelayAction::Exit),
                RelayEvent::Cancelled => (RelayPhase::Exited, RelayAction::Exit),
                _ => (RelayPhase::Relaying, RelayAction::Wait),
            },
            RelayPhase::Exited => (RelayPhase::Exited, RelayAction::Wait),
        };
        self.phase = next;
        action
    }
}

} // verus!
