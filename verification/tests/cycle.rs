//! The real-time side: dirty tracking, cycle message building, non-blocking
//! enqueueing.

use daw_out::dirty::DirtySet;
use daw_out::driver::{
    audio_messages, cycle_messages, enqueue_messages, note_messages, param_messages,
    process_cycle, request_shutdown,
};
use daw_out::msg::{Message, NoteEvent};

#[test]
fn default_params_have_host_visible_names() {
    let set = DirtySet::with_default_params();
    assert_eq!(set.names.len(), 8);
    assert_eq!(set.names[0], "param1");
    assert_eq!(set.names[7], "param8");
    assert!(set.dirty.iter().all(|d| !d));
}

#[test]
fn mark_then_drain_returns_current_value_once() {
    let mut set = DirtySet::with_default_params();
    set.mark(3);
    assert_eq!(set.drain(3), Some(0));
    assert_eq!(set.drain(3), None);
}

#[test]
fn rapid_writes_coalesce_into_one_message_with_latest_value() {
    let mut set = DirtySet::with_default_params();
    let v1 = 0.1f32.to_bits();
    let v2 = 0.9f32.to_bits();
    set.set_value(0, v1);
    set.set_value(0, v2);
    let msgs = param_messages(&mut set);
    assert_eq!(msgs.len(), 1);
    match &msgs[0] {
        Message::ParamChange { name, value_bits } => {
            assert_eq!(name, "param1");
            assert_eq!(*value_bits, v2);
        }
        _ => panic!("expected a parameter change"),
    }
    // the interval ended: the next drain has nothing to report
    assert!(param_messages(&mut set).is_empty());
}

#[test]
fn drain_emits_in_parameter_order() {
    let mut set = DirtySet::with_default_params();
    set.set_value(5, 5);
    set.set_value(1, 1);
    set.set_value(7, 7);
    let msgs = param_messages(&mut set);
    let names: Vec<String> = msgs
        .iter()
        .map(|m| match m {
            Message::ParamChange { name, .. } => name.clone(),
            _ => panic!("expected a parameter change"),
        })
        .collect();
    assert_eq!(names, vec!["param2", "param6", "param8"]);
}

#[test]
fn note_messages_keep_delivery_order() {
    let events = vec![
        NoteEvent::On { channel: 0, note: 60, velocity_bits: 0.5f32.to_bits() },
        NoteEvent::Other,
        NoteEvent::On { channel: 0, note: 64, velocity_bits: 0.5f32.to_bits() },
        NoteEvent::Off { channel: 0, note: 60, velocity_bits: 0.0f32.to_bits() },
    ];
    let msgs = note_messages(&events);
    assert_eq!(msgs.len(), 3);
    assert!(matches!(&msgs[0], Message::NoteOn(p) if p.note == 60));
    assert!(matches!(&msgs[1], Message::NoteOn(p) if p.note == 64));
    assert!(matches!(&msgs[2], Message::NoteOff(p) if p.note == 60));
}

#[test]
fn zero_samples_are_suppressed_in_order() {
    let samples = vec![
        0.0f32.to_bits(),
        0.25f32.to_bits(),
        (-0.0f32).to_bits(),
        (-0.5f32).to_bits(),
    ];
    let msgs = audio_messages(&samples);
    assert_eq!(msgs.len(), 2);
    assert!(matches!(&msgs[0], Message::AudioSample { value_bits } if *value_bits == 0.25f32.to_bits()));
    assert!(matches!(&msgs[1], Message::AudioSample { value_bits } if *value_bits == (-0.5f32).to_bits()));
}

#[test]
fn cycle_orders_params_then_notes_then_audio() {
    let mut set = DirtySet::with_default_params();
    set.set_value(0, 0.3f32.to_bits());
    let events = vec![NoteEvent::On { channel: 1, note: 61, velocity_bits: 0.7f32.to_bits() }];
    let samples = vec![0.5f32.to_bits()];
    let msgs = cycle_messages(&mut set, true, &events, true, &samples);
    assert_eq!(msgs.len(), 3);
    assert!(matches!(&msgs[0], Message::ParamChange { .. }));
    assert!(matches!(&msgs[1], Message::NoteOn(_)));
    assert!(matches!(&msgs[2], Message::AudioSample { .. }));
}

#[test]
fn disabled_forwarding_suppresses_notes_and_audio() {
    let mut set = DirtySet::with_default_params();
    let events = vec![NoteEvent::On { channel: 1, note: 61, velocity_bits: 0.7f32.to_bits() }];
    let samples = vec![0.5f32.to_bits()];
    let msgs = cycle_messages(&mut set, false, &events, false, &samples);
    assert!(msgs.is_empty());
}

#[test]
fn a_quiet_cycle_sends_nothing() {
    let mut set = DirtySet::with_default_params();
    let events: Vec<NoteEvent> = Vec::new();
    let samples: Vec<u32> = Vec::new();
    let msgs = cycle_messages(&mut set, true, &events, true, &samples);
    assert!(msgs.is_empty());
}

#[test]
fn full_channel_drops_and_counts_without_blocking() {
    let (sender, receiver) = crossbeam_channel::bounded::<Message>(1);
    let msgs = vec![
        Message::AudioSample { value_bits: 1 },
        Message::AudioSample { value_bits: 2 },
        Message::AudioSample { value_bits: 3 },
    ];
    let dropped = enqueue_messages(&sender, msgs);
    assert_eq!(dropped, 2);
    // the first message made it through untouched
    assert!(matches!(
        receiver.try_recv(),
        Ok(Message::AudioSample { value_bits: 1 })
    ));
    assert!(receiver.try_recv().is_err());
}

#[test]
fn disconnected_channel_drops_everything() {
    let (sender, receiver) = crossbeam_channel::bounded::<Message>(8);
    drop(receiver);
    let msgs = vec![Message::AudioSample { value_bits: 1 }, Message::Shutdown];
    assert_eq!(enqueue_messages(&sender, msgs), 2);
}

#[test]
fn process_cycle_delivers_in_order_and_clears_flags() {
    let (sender, receiver) = crossbeam_channel::bounded::<Message>(64);
    let mut set = DirtySet::with_default_params();
    set.set_value(2, 0.6f32.to_bits());
    let events = vec![NoteEvent::Off { channel: 0, note: 30, velocity_bits: 0 }];
    let samples = vec![0.0f32.to_bits(), 0.1f32.to_bits()];
    let dropped = process_cycle(&mut set, &sender, true, &events, true, &samples);
    assert_eq!(dropped, 0);
    assert!(matches!(receiver.try_recv(), Ok(Message::ParamChange { .. })));
    assert!(matches!(receiver.try_recv(), Ok(Message::NoteOff(_))));
    assert!(matches!(receiver.try_recv(), Ok(Message::AudioSample { .. })));
    assert!(receiver.try_recv().is_err());
    // nothing left dirty
    assert!(param_messages(&mut set).is_empty());
}

#[test]
fn shutdown_request_reaches_the_worker_side() {
    let (sender, receiver) = crossbeam_channel::bounded::<Message>(4);
    assert!(request_shutdown(&sender));
    assert!(matches!(receiver.try_recv(), Ok(Message::Shutdown)));
}

#[test]
fn shutdown_request_reports_a_gone_worker() {
    let (sender, receiver) = crossbeam_channel::bounded::<Message>(4);
    drop(receiver);
    assert!(!request_shutdown(&sender));
}
