use intiface_engine_flutter_bridge::relay::{Relay, RelayAction, RelayEvent, RelayPhase};

fn ready_relay() -> Relay {
    let mut relay = Relay::new();
    assert_eq!(relay.handle(RelayEvent::FrontendReady), RelayAction::AcquireSurface);
    assert_eq!(relay.handle(RelayEvent::SurfaceFound), RelayAction::Wait);
    assert_eq!(relay.current_phase(), RelayPhase::Relaying);
    relay
}

#[test]
fn cancel_before_ready_never_acquires_surface() {
    let mut relay = Relay::new();
    assert_eq!(relay.handle(RelayEvent::Cancelled), RelayAction::Exit);
    let later = vec![
        RelayEvent::FrontendReady,
        RelayEvent::SurfaceFound,
        RelayEvent::Command("{}".to_string()),
        RelayEvent::SurfaceMessage("m".to_string()),
    ];
    for e in later {
        assert_eq!(relay.handle(e), RelayAction::Wait);
    }
    assert_eq!(relay.current_phase(), RelayPhase::Exited);
}

#[test]
fn missing_surface_exits() {
    let mut relay = Relay::new();
    assert_eq!(relay.handle(RelayEvent::FrontendReady), RelayAction::AcquireSurface);
    assert_eq!(relay.handle(RelayEvent::SurfaceMissing), RelayAction::Exit);
    assert_eq!(relay.current_phase(), RelayPhase::Exited);
}

#[test]
fn bad_command_then_good_command_both_parsed() {
    let mut relay = ready_relay();
    assert_eq!(
        relay.handle(RelayEvent::Command("bad json".to_string())),
        RelayAction::SpawnParse("bad json".to_string())
    );
    assert_eq!(relay.current_phase(), RelayPhase::Relaying);
    let good = "[{\"RequestServerInfo\":{\"Id\":1}}]".to_string();
    assert_eq!(relay.handle(RelayEvent::Command(good.clone())), RelayAction::SpawnParse(good));
}

#[test]
fn surface_message_is_delivered() {
    let mut relay = ready_relay();
    assert_eq!(
        relay.handle(RelayEvent::SurfaceMessage("event".to_string())),
        RelayAction::Deliver("event".to_string())
    );
}

#[test]
fn relay_exits_on_cancel_closed_or_ended() {
    for e in [RelayEvent::Cancelled, RelayEvent::InboundClosed, RelayEvent::SurfaceEnded] {
        let mut relay = ready_relay();
        assert_eq!(relay.handle(e), RelayAction::Exit);
        assert_eq!(relay.current_phase(), RelayPhase::Exited);
    }
}

#[test]
fn events_before_ready_are_ignored() {
    let mut relay = Relay::new();
    assert_eq!(relay.handle(RelayEvent::Command("x".to_string())), RelayAction::Wait);
    assert_eq!(relay.current_phase(), RelayPhase::AwaitingReady);
}
