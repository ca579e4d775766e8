use flicfun::config::{Config, DEFAULT_AUTO_DISCONNECT_TIME, DEFAULT_CHANNEL_ID, DEFAULT_LIGHT_ID};
use flicfun::coordinator::{after_join, handle_event, Phase, TaskEnd, ToggleGate};
use flicfun::dispatch::{dispatch, ClickKind, ConnectionState, Event, Reaction};
use flicfun::handshake::{Command, HandshakeState, HandshakeStep, LatencyMode, Sequencer};
use flicfun::light::{
    after_listing, after_set, find_light, mirek_to_kelvin, plan_toggle, LightStatus, SetState,
    ToggleError, ToggleStep,
};

fn click(kind: ClickKind) -> Event {
    Event::ButtonClickOrHold { channel_id: 0, click: kind, time_diff: 5, was_queued: false }
}

fn status(s: ConnectionState) -> Event {
    Event::ConnectionStatusChanged { channel_id: 0, status: s }
}

#[test]
fn ready_status_logs_only() {
    assert_eq!(dispatch(&status(ConnectionState::Ready)), Reaction::ReadyLog);
}

#[test]
fn other_statuses_are_ignored() {
    assert_eq!(dispatch(&status(ConnectionState::Connected)), Reaction::Ignore);
    assert_eq!(dispatch(&status(ConnectionState::Disconnected)), Reaction::Ignore);
}

#[test]
fn click_triggers_toggle() {
    assert_eq!(dispatch(&click(ClickKind::ButtonClick)), Reaction::Toggle);
}

#[test]
fn hold_and_double_click_are_ignored() {
    for kind in [
        ClickKind::ButtonHold,
        ClickKind::ButtonDoubleClick,
        ClickKind::ButtonSingleClick,
        ClickKind::ButtonDown,
        ClickKind::ButtonUp,
    ] {
        assert_eq!(dispatch(&click(kind)), Reaction::Ignore);
    }
    assert_eq!(dispatch(&Event::Other), Reaction::Ignore);
}

#[test]
fn every_event_gets_one_reaction() {
    let events = [
        status(ConnectionState::Ready),
        status(ConnectionState::Connected),
        click(ClickKind::ButtonClick),
        click(ClickKind::ButtonHold),
        Event::Other,
    ];
    let expected = [
        Reaction::ReadyLog,
        Reaction::Ignore,
        Reaction::Toggle,
        Reaction::Ignore,
        Reaction::Ignore,
    ];
    for (e, r) in events.iter().zip(expected.iter()) {
        assert_eq!(dispatch(e), *r);
    }
}

#[test]
fn click_with_nothing_in_flight_toggles_once() {
    let mut gate = ToggleGate::new();
    assert_eq!(handle_event(&mut gate, &click(ClickKind::ButtonClick)), Reaction::Toggle);
    assert_eq!(gate.pending(), 1);
    assert!(gate.try_begin());
    assert!(!gate.try_begin());
    assert!(gate.finish());
    assert!(!gate.try_begin());
    assert_eq!(gate.pending(), 0);
}

#[test]
fn queued_clicks_run_one_at_a_time() {
    let mut gate = ToggleGate::new();
    for _ in 0..5 {
        handle_event(&mut gate, &click(ClickKind::ButtonClick));
    }
    assert_eq!(gate.pending(), 5);
    let mut started = 0;
    for _ in 0..5 {
        assert!(gate.try_begin());
        started += 1;
        assert!(gate.is_active());
        assert!(!gate.try_begin());
        assert!(gate.finish());
    }
    assert_eq!(started, 5);
    assert!(!gate.try_begin());
    assert!(!gate.finish());
}

#[test]
fn non_click_events_spawn_nothing() {
    let mut gate = ToggleGate::new();
    handle_event(&mut gate, &status(ConnectionState::Ready));
    handle_event(&mut gate, &click(ClickKind::ButtonHold));
    assert_eq!(gate.pending(), 0);
    assert!(!gate.try_begin());
}

#[test]
fn handshake_runs_in_fixed_order() {
    let config = Config::default();
    let mut s = Sequencer::new(config, "80:e4:da:71:83:42".to_string());
    assert_eq!(s.state(), HandshakeState::Idle);
    assert!(matches!(s.next_step(), HandshakeStep::Submit(Command::GetInfo)));
    assert_eq!(s.state(), HandshakeState::InfoRequested);
    match s.next_step() {
        HandshakeStep::Wait(ms) => assert_eq!(ms, 1000),
        other => panic!("expected a wait, got {:?}", other),
    }
    match s.next_step() {
        HandshakeStep::Submit(Command::CreateConnectionChannel {
            channel_id,
            device,
            latency,
            auto_disconnect_time,
        }) => {
            assert_eq!(channel_id, 0);
            assert_eq!(device, "80:e4:da:71:83:42");
            assert_eq!(latency, LatencyMode::Normal);
            assert_eq!(auto_disconnect_time, 11111);
        }
        other => panic!("expected the channel creation, got {:?}", other),
    }
    assert_eq!(s.state(), HandshakeState::Subscribed);
    for _ in 0..3 {
        assert!(matches!(s.next_step(), HandshakeStep::Park));
    }
}

#[test]
fn default_config_values() {
    let c = Config::default();
    assert_eq!(c.channel_id, DEFAULT_CHANNEL_ID);
    assert_eq!(c.light_id, 12);
    assert_eq!(c.light_id, DEFAULT_LIGHT_ID);
    assert_eq!(c.auto_disconnect_time, DEFAULT_AUTO_DISCONNECT_TIME);
    assert_eq!(c.settle_delay_ms, 1000);
}

#[test]
fn zero_settle_delay_is_refused() {
    let c = Config::default();
    assert_eq!(c.with_settle_delay(0), None);
    assert_eq!(c.with_settle_delay(300).map(|c| c.settle_delay_ms), Some(300));
}

#[test]
fn find_light_returns_first_match() {
    let lights = vec![
        LightStatus { id: 4, on: true },
        LightStatus { id: 12, on: false },
        LightStatus { id: 12, on: true },
    ];
    assert_eq!(find_light(&lights, 12), Some(1));
    assert_eq!(find_light(&lights, 4), Some(0));
    assert_eq!(find_light(&lights, 7), None);
    assert_eq!(find_light(&Vec::new(), 7), None);
}

#[test]
fn toggle_of_absent_light_is_not_found() {
    let lights = vec![LightStatus { id: 1, on: true }, LightStatus { id: 2, on: false }];
    assert_eq!(plan_toggle(&lights, 12), Err(ToggleError::NotFound));
    assert_eq!(after_listing(Some(&lights), 12), ToggleStep::Failed(ToggleError::NotFound));
    assert_eq!(after_listing(Some(&Vec::new()), 12), ToggleStep::Failed(ToggleError::NotFound));
}

#[test]
fn failed_listing_is_backend_error() {
    assert_eq!(after_listing(None, 12), ToggleStep::Failed(ToggleError::BackendError));
}

#[test]
fn toggle_inverts_the_light() {
    let on = vec![LightStatus { id: 12, on: true }];
    let off = vec![LightStatus { id: 12, on: false }];
    assert_eq!(plan_toggle(&on, 12), Ok(SetState { index: 0, id: 12, on: false }));
    assert_eq!(plan_toggle(&off, 12), Ok(SetState { index: 0, id: 12, on: true }));
}

#[test]
fn toggling_twice_restores_the_state() {
    let original = vec![LightStatus { id: 3, on: false }, LightStatus { id: 12, on: true }];
    let mut lights = original.clone();
    for _ in 0..2 {
        let s = plan_toggle(&lights, 12).unwrap();
        lights[s.index] = LightStatus { id: s.id, on: s.on };
    }
    assert_eq!(lights, original);
}

#[test]
fn click_on_lit_light_switches_it_off() {
    let config = Config::default();
    let mut gate = ToggleGate::new();
    assert_eq!(handle_event(&mut gate, &click(ClickKind::ButtonClick)), Reaction::Toggle);
    assert!(gate.try_begin());
    let listing = vec![LightStatus { id: 5, on: false }, LightStatus { id: 12, on: true }];
    let step = after_listing(Some(&listing), config.light_id);
    let set = match step {
        ToggleStep::SetLightState(s) => s,
        other => panic!("expected one set-state call, got {:?}", other),
    };
    assert_eq!(set, SetState { index: 1, id: 12, on: false });
    assert_eq!(after_set(&set, true), Ok(false));
    assert!(gate.finish());
    assert!(!gate.try_begin());
}

#[test]
fn failed_set_is_backend_error() {
    let set = SetState { index: 0, id: 12, on: true };
    assert_eq!(after_set(&set, false), Err(ToggleError::BackendError));
    assert_eq!(after_set(&set, true), Ok(true));
}

#[test]
fn ready_then_close_waits_for_sequencer() {
    assert_eq!(dispatch(&status(ConnectionState::Ready)), Reaction::ReadyLog);
    let phase = after_join(Phase::AwaitPump, TaskEnd::Completed);
    assert_eq!(phase, Phase::AwaitSequencer);
    assert_eq!(after_join(phase, TaskEnd::Completed), Phase::Done);
}

#[test]
fn failed_join_is_fatal() {
    assert_eq!(after_join(Phase::AwaitPump, TaskEnd::JoinFailed), Phase::Failed);
    assert_eq!(after_join(Phase::AwaitSequencer, TaskEnd::JoinFailed), Phase::Failed);
    assert_eq!(after_join(Phase::Done, TaskEnd::JoinFailed), Phase::Done);
}

#[test]
fn kelvin_from_mirek() {
    assert_eq!(mirek_to_kelvin(0), 0);
    assert_eq!(mirek_to_kelvin(250), 4000);
    assert_eq!(mirek_to_kelvin(153), 6535);
    assert_eq!(mirek_to_kelvin(u16::MAX), 15);
}
