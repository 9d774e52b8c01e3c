//! The wire format, checked against an independent OSC implementation.

use daw_out::msg::Message;
use daw_out::osc::{encode_osc_message, encode_packet, OscArg};
use daw_out::worker::{format_osc_address_base, worker_step, WorkerAction, WorkerState};

use rosc::{OscPacket, OscType};

fn decode_message(packet: &[u8]) -> rosc::OscMessage {
    let (rest, decoded) = rosc::decoder::decode_udp(packet).expect("packet must decode");
    assert!(rest.is_empty());
    match decoded {
        OscPacket::Message(m) => m,
        OscPacket::Bundle(_) => panic!("expected a message, not a bundle"),
    }
}

#[test]
fn address_base_empty_input_gives_empty_prefix() {
    assert_eq!(format_osc_address_base(""), "");
}

#[test]
fn address_base_nonempty_input_gets_leading_slash() {
    assert_eq!(format_osc_address_base("daw-out"), "/daw-out");
}

#[test]
fn param_change_round_trips_through_independent_decoder() {
    let mut state = WorkerState::new("daw-out", "127.0.0.1".to_string(), 9000);
    let msg = Message::ParamChange {
        name: "param1".to_string(),
        value_bits: 0.42f32.to_bits(),
    };
    let action = worker_step(&mut state, msg);
    let packet = match action {
        WorkerAction::Transmit { packet } => packet,
        _ => panic!("expected a transmission"),
    };
    let decoded = decode_message(&packet);
    assert_eq!(decoded.addr, "/daw-out/param/param1");
    assert_eq!(decoded.args, vec![OscType::Float(0.42)]);
}

#[test]
fn encoding_agrees_byte_for_byte_with_independent_encoder() {
    let msg = Message::ParamChange {
        name: "param1".to_string(),
        value_bits: 0.42f32.to_bits(),
    };
    let ours = encode_packet("/daw-out", &msg);
    let theirs = rosc::encoder::encode(&OscPacket::Message(rosc::OscMessage {
        addr: "/daw-out/param/param1".to_string(),
        args: vec![OscType::Float(0.42)],
    }))
    .expect("encoding must succeed");
    assert_eq!(ours, theirs);
}

#[test]
fn note_on_without_namespace_has_bare_address_and_three_args() {
    let mut state = WorkerState::new("", "127.0.0.1".to_string(), 9000);
    let msg = Message::NoteOn(daw_out::msg::NotePayload {
        channel: 3,
        note: 64,
        velocity_bits: 0.5f32.to_bits(),
    });
    let packet = match worker_step(&mut state, msg) {
        WorkerAction::Transmit { packet } => packet,
        _ => panic!("expected a transmission"),
    };
    let decoded = decode_message(&packet);
    assert_eq!(decoded.addr, "/note_on");
    assert_eq!(
        decoded.args,
        vec![OscType::Int(3), OscType::Int(64), OscType::Float(0.5)]
    );
}

#[test]
fn note_off_and_audio_addresses() {
    let mut state = WorkerState::new("ns", "127.0.0.1".to_string(), 9000);
    let off = Message::NoteOff(daw_out::msg::NotePayload {
        channel: 0,
        note: 127,
        velocity_bits: 0f32.to_bits(),
    });
    let packet = match worker_step(&mut state, off) {
        WorkerAction::Transmit { packet } => packet,
        _ => panic!("expected a transmission"),
    };
    assert_eq!(decode_message(&packet).addr, "/ns/note_off");

    let audio = Message::AudioSample {
        value_bits: 0.25f32.to_bits(),
    };
    let packet = match worker_step(&mut state, audio) {
        WorkerAction::Transmit { packet } => packet,
        _ => panic!("expected a transmission"),
    };
    let decoded = decode_message(&packet);
    assert_eq!(decoded.addr, "/ns/audio");
    assert_eq!(decoded.args, vec![OscType::Float(0.25)]);
}

#[test]
fn encoded_strings_are_null_padded_to_four_bytes() {
    // "/audio" is six bytes: two nulls bring it to eight; the tag string
    // ",f" takes two more nulls; one float argument closes the packet.
    let args = vec![OscArg::FloatBits(1.5f32.to_bits())];
    let bytes = encode_osc_message("/audio", &args);
    assert_eq!(bytes.len() % 4, 0);
    assert_eq!(&bytes[0..8], b"/audio\0\0");
    assert_eq!(&bytes[8..12], b",f\0\0");
    assert_eq!(&bytes[12..16], &1.5f32.to_bits().to_be_bytes());
}

#[test]
fn address_exactly_multiple_of_four_still_gets_null_terminator() {
    let args: Vec<OscArg> = vec![OscArg::Int(-7)];
    let bytes = encode_osc_message("/abc", &args);
    // four address bytes, then a full block of four nulls
    assert_eq!(&bytes[0..8], b"/abc\0\0\0\0");
    assert_eq!(&bytes[8..12], b",i\0\0");
    assert_eq!(&bytes[12..16], &(-7i32).to_be_bytes());
    let decoded = decode_message(&bytes);
    assert_eq!(decoded.addr, "/abc");
    assert_eq!(decoded.args, vec![OscType::Int(-7)]);
}
