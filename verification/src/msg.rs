//! The typed messages that travel from the real-time side to the worker.
//!
//! Float payloads (parameter values, note velocities, audio samples) are
//! carried as their IEEE 754 bit patterns, so that the verified core never
//! touches floating-point arithmetic; the unverified shell converts at the
//! boundary and the wire encoding uses the bit pattern directly.

use vstd::prelude::*;

verus! {

/// Payload of a note-on or note-off event: small integers plus the velocity's
/// bit pattern.
pub struct NotePayload {
    pub channel: u8,
    pub note: u8,
    pub velocity_bits: u32,
}

/// One message on the channel between the real-time side and the worker.
pub enum Message {
    /// Terminates the worker loop.
    Shutdown,
    /// Asks the worker to re-point its socket at a new destination.
    ConnectionChange { host: String, port: u16 },
    /// Asks the worker to recompute the address-namespace prefix.
    AddressBaseChange { namespace: String },
    /// A tracked parameter's new value.
    ParamChange { name: String, value_bits: u32 },
    /// A discrete note-on event.
    NoteOn(NotePayload),
    /// A discrete note-off event.
    NoteOff(NotePayload),
    /// One decimated audio sample.
    AudioSample { value_bits: u32 },
}

/// One host-delivered event of a processing cycle: a note-on, a note-off, or
/// an event of some other kind, which this bridge does not forward.
#[derive(Clone, Copy, PartialEq, Eq, Structural)]
pub enum NoteEvent {
    On { channel: u8, note: u8, velocity_bits: u32 },
    Off { channel: u8, note: u8, velocity_bits: u32 },
    Other,
}

/// Spec-level picture of a note payload.
#[verifier::ext_equal]
pub ghost struct NoteModel {
    pub channel: u8,
    pub note: u8,
    pub velocity_bits: u32,
}

/// Spec-level picture of a message, with every string abstracted to its
/// character sequence.
#[verifier::ext_equal]
pub ghost enum MessageModel {
    Shutdown,
    ConnectionChange { host: Seq<char>, port: u16 },
    AddressBaseChange { namespace: Seq<char> },
    ParamChange { name: Seq<char>, value_bits: u32 },
    NoteOn(NoteModel),
    NoteOff(NoteModel),
    AudioSample { value_bits: u32 },
}

impl View for NotePayload {
    type V = NoteModel;

    open spec fn view(&self) -> NoteModel {
        NoteModel { channel: self.channel, note: self.note, velocity_bits: self.velocity_bits }
    }
}

impl View for Message {
    type V = MessageModel;

    open spec fn view(&self) -> MessageModel {
        match self {
            Message::Shutdown => MessageModel::Shutdown,
            Message::ConnectionChange { host, port } => MessageModel::ConnectionChange {
                host: host@,
                port: *port,
            },
            Message::AddressBaseChange { namespace } => MessageModel::AddressBaseChange {
                namespace: namespace@,
            },
            Message::ParamChange { name, value_bits } => MessageModel::ParamChange {
                name: name@,
                value_bits: *value_bits,
            },
            Message::NoteOn(p) => MessageModel::NoteOn(p@),
            Message::NoteOff(p) => MessageModel::NoteOff(p@),
            Message::AudioSample { value_bits } => MessageModel::AudioSample {
                value_bits: *value_bits,
            },
        }
    }
}

/// The character sequences of a message list, in order.
pub open spec fn views_of(msgs: Seq<Message>) -> Seq<MessageModel> {
    msgs.map_values(|m: Message| m@)
}

/// True of the models of data messages: the ones the worker formats into OSC
/// packets, as opposed to the control messages it consumes itself.
pub open spec fn spec_is_data(m: MessageModel) -> bool {
    match m {
        MessageModel::ParamChange { .. } => true,
        MessageModel::NoteOn(_) => true,
        MessageModel::NoteOff(_) => true,
        MessageModel::AudioSample { .. } => true,
        _ => false,
    }
}

/// True of the bit patterns that compare equal to floating-point zero
/// (positive and negative zero); such audio samples are suppressed.
pub open spec fn spec_is_silent(bits: u32) -> bool {
    bits & 0x7fff_ffffu32 == 0
}

/// Executable twin of [`spec_is_silent`].
pub fn is_silent(bits: u32) -> (r: bool)
    ensures
        r == spec_is_silent(bits),
{
    bits & 0x7fff_ffffu32 == 0
}

} // verus!
