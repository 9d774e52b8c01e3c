//! The worker's state machine: reconfiguration, liveness, shutdown.

use daw_out::msg::Message;
use daw_out::settings::{
    apply_editor_event, plan_configure, reconfigure_messages, ConfigurePlan, DawOutEditorEvent,
    OscSettings,
};
use daw_out::worker::{note_connect_result, worker_step, WorkerAction, WorkerState};

fn sample(value: f32) -> Message {
    Message::AudioSample { value_bits: value.to_bits() }
}

#[test]
fn connection_change_points_later_samples_at_the_new_destination() {
    let mut state = WorkerState::new("", "old.example".to_string(), 1000);
    let action = worker_step(
        &mut state,
        Message::ConnectionChange { host: "new.example".to_string(), port: 2000 },
    );
    match action {
        WorkerAction::Reconnect { host, port } => {
            assert_eq!(host, "new.example");
            assert_eq!(port, 2000);
        }
        _ => panic!("expected a reconnect request"),
    }
    note_connect_result(&mut state, true);
    assert_eq!(state.host, "new.example");
    assert_eq!(state.port, 2000);
    assert!(state.connected);
    // the sample enqueued after the connection change transmits to the new
    // destination, which is the state's current one
    assert!(matches!(
        worker_step(&mut state, sample(0.5)),
        WorkerAction::Transmit { .. }
    ));
}

#[test]
fn failed_reconnect_drops_data_instead_of_using_the_old_destination() {
    let mut state = WorkerState::new("", "old.example".to_string(), 1000);
    worker_step(
        &mut state,
        Message::ConnectionChange { host: "unreachable.example".to_string(), port: 9 },
    );
    note_connect_result(&mut state, false);
    assert!(!state.connected);
    assert!(matches!(worker_step(&mut state, sample(0.5)), WorkerAction::Idle));
    // a later successful reconnect restores transmission
    note_connect_result(&mut state, true);
    assert!(matches!(
        worker_step(&mut state, sample(0.5)),
        WorkerAction::Transmit { .. }
    ));
}

#[test]
fn address_base_change_rewrites_subsequent_addresses() {
    let mut state = WorkerState::new("before", "127.0.0.1".to_string(), 9000);
    assert!(matches!(
        worker_step(
            &mut state,
            Message::AddressBaseChange { namespace: "after".to_string() }
        ),
        WorkerAction::Idle
    ));
    assert_eq!(state.prefix, "/after");
    let packet = match worker_step(&mut state, sample(0.5)) {
        WorkerAction::Transmit { packet } => packet,
        _ => panic!("expected a transmission"),
    };
    let (_, decoded) = rosc::decoder::decode_udp(&packet).expect("packet must decode");
    match decoded {
        rosc::OscPacket::Message(m) => assert_eq!(m.addr, "/after/audio"),
        _ => panic!("expected a message"),
    }
}

#[test]
fn address_base_change_to_empty_removes_the_prefix() {
    let mut state = WorkerState::new("before", "127.0.0.1".to_string(), 9000);
    worker_step(&mut state, Message::AddressBaseChange { namespace: String::new() });
    assert_eq!(state.prefix, "");
}

#[test]
fn shutdown_exits_and_leaves_state_alone() {
    let mut state = WorkerState::new("ns", "127.0.0.1".to_string(), 9000);
    assert!(matches!(
        worker_step(&mut state, Message::Shutdown),
        WorkerAction::Exit
    ));
    assert_eq!(state.prefix, "/ns");
    assert!(state.connected);
}

#[test]
fn edits_update_settings_without_messaging() {
    let mut settings = OscSettings {
        osc_server_address: "127.0.0.1".to_string(),
        osc_server_port: 9000,
        osc_address_base: "daw-out".to_string(),
    };
    assert!(apply_editor_event(
        &mut settings,
        DawOutEditorEvent::SetOscServerAddress("10.0.0.1".to_string())
    )
    .is_none());
    assert!(apply_editor_event(&mut settings, DawOutEditorEvent::SetOscServerPort(7001)).is_none());
    assert!(apply_editor_event(
        &mut settings,
        DawOutEditorEvent::SetOscAddressBase("live".to_string())
    )
    .is_none());
    assert_eq!(settings.osc_server_address, "10.0.0.1");
    assert_eq!(settings.osc_server_port, 7001);
    assert_eq!(settings.osc_address_base, "live");
}

#[test]
fn commits_produce_the_matching_control_messages() {
    let mut settings = OscSettings {
        osc_server_address: "10.0.0.1".to_string(),
        osc_server_port: 7001,
        osc_address_base: "live".to_string(),
    };
    match apply_editor_event(&mut settings, DawOutEditorEvent::ConnectionChange) {
        Some(Message::ConnectionChange { host, port }) => {
            assert_eq!(host, "10.0.0.1");
            assert_eq!(port, 7001);
        }
        _ => panic!("expected a connection-change message"),
    }
    match apply_editor_event(&mut settings, DawOutEditorEvent::AddressBaseChange) {
        Some(Message::AddressBaseChange { namespace }) => assert_eq!(namespace, "live"),
        _ => panic!("expected an address-base-change message"),
    }
}

#[test]
fn configure_rejects_without_realtime_guarantees() {
    assert!(matches!(plan_configure(false, false), ConfigurePlan::Reject));
    assert!(matches!(plan_configure(false, true), ConfigurePlan::Reject));
    assert!(matches!(plan_configure(true, false), ConfigurePlan::StartWorker));
    assert!(matches!(plan_configure(true, true), ConfigurePlan::UpdateWorker));
}

#[test]
fn reconfiguration_sends_connection_before_address_base() {
    let settings = OscSettings {
        osc_server_address: "10.0.0.2".to_string(),
        osc_server_port: 8000,
        osc_address_base: "deck".to_string(),
    };
    let msgs = reconfigure_messages(&settings);
    assert_eq!(msgs.len(), 2);
    assert!(matches!(
        &msgs[0],
        Message::ConnectionChange { host, port } if host == "10.0.0.2" && *port == 8000
    ));
    assert!(matches!(
        &msgs[1],
        Message::AddressBaseChange { namespace } if namespace == "deck"
    ));
}
