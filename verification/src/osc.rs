//! The OSC wire format for the packets this bridge emits.
//!
//! Every outgoing message becomes a single datagram holding one OSC message:
//! the address string, then the type-tag string, then the arguments, each
//! 32-bit argument in big-endian byte order. Strings are null-terminated and
//! padded with zero bytes to a four-byte boundary, with at least one null.
//! Float arguments are carried as bit patterns ([`OscArg::FloatBits`]): the
//! four bytes on the wire are exactly the big-endian bytes of the pattern.

use vstd::prelude::*;
use vstd::string::StringExecFns;
use vstd::string::StringSliceAdditionalSpecFns;
use vstd::utf8::encode_utf8;

use crate::msg::Message;
use crate::msg::MessageModel;
use crate::msg::spec_is_data;

verus! {

/// One argument of an outgoing OSC message: a 32-bit integer, or a 32-bit
/// float represented by its IEEE 754 bit pattern.
#[derive(Clone, Copy, PartialEq, Eq, Debug)]
pub enum OscArg {
    Int(i32),
    FloatBits(u32),
}

/// The four big-endian bytes of a 32-bit word.
pub open spec fn spec_be_bytes(x: u32) -> Seq<u8> {
    seq![(x >> 24) as u8, (x >> 16) as u8, (x >> 8) as u8, x as u8]
}

/// Number of zero bytes that terminate and pad a string of `n` bytes:
/// at least one null, and as many more as it takes to reach a multiple
/// of four.
pub open spec fn spec_pad_len(n: nat) -> nat {
    (4 - n % 4) as nat
}

/// A run of `n` zero bytes.
pub open spec fn spec_zeros(n: nat) -> Seq<u8> {
    Seq::new(n, |i: int| 0u8)
}

/// An OSC-encoded string: the bytes followed by their null padding.
pub open spec fn spec_osc_string(s: Seq<u8>) -> Seq<u8> {
    s + spec_zeros(spec_pad_len(s.len()))
}

/// The type tag of one argument: `i` for an integer, `f` for a float.
pub open spec fn spec_arg_tag(a: OscArg) -> u8 {
    match a {
        OscArg::Int(_) => 105u8,  // 'i'
        OscArg::FloatBits(_) => 102u8,  // 'f'
    }
}

/// The unpadded type-tag string: a comma followed by one tag per argument.
pub open spec fn spec_tag_string(args: Seq<OscArg>) -> Seq<u8> {
    seq![44u8] + args.map_values(|a: OscArg| spec_arg_tag(a))
}

/// The four data bytes of one argument.
pub open spec fn spec_arg_data(a: OscArg) -> Seq<u8> {
    match a {
        OscArg::Int(x) => spec_be_bytes(x as u32),
        OscArg::FloatBits(bits) => spec_be_bytes(bits),
    }
}

/// The concatenated data bytes of an argument list.
pub open spec fn spec_args_data(args: Seq<OscArg>) -> Seq<u8>
    decreases args.len(),
{
    if args.len() == 0 {
        Seq::<u8>::empty()
    } else {
        spec_args_data(args.drop_last()) + spec_arg_data(args.last())
    }
}

/// A whole OSC message as it goes on the wire, for an address already encoded
/// as bytes: padded address, padded type-tag string, then the argument data.
pub open spec fn spec_osc_message_bytes(addr: Seq<u8>, args: Seq<OscArg>) -> Seq<u8> {
    spec_osc_string(addr) + spec_osc_string(spec_tag_string(args)) + spec_args_data(args)
}

/// The path segment before a parameter's name.
pub open spec fn spec_param_path() -> Seq<char> {
    seq!['/', 'p', 'a', 'r', 'a', 'm', '/']
}

/// The path segment of a note-on message.
pub open spec fn spec_note_on_path() -> Seq<char> {
    seq!['/', 'n', 'o', 't', 'e', '_', 'o', 'n']
}

/// The path segment of a note-off message.
pub open spec fn spec_note_off_path() -> Seq<char> {
    seq!['/', 'n', 'o', 't', 'e', '_', 'o', 'f', 'f']
}

/// The path segment of an audio-sample message.
pub open spec fn spec_audio_path() -> Seq<char> {
    seq!['/', 'a', 'u', 'd', 'i', 'o']
}

/// The OSC address of a data message under the given namespace prefix.
pub open spec fn spec_message_address(prefix: Seq<char>, m: MessageModel) -> Seq<char>
    recommends
        spec_is_data(m),
{
    match m {
        MessageModel::ParamChange { name, .. } => prefix + spec_param_path() + name,
        MessageModel::NoteOn(_) => prefix + spec_note_on_path(),
        MessageModel::NoteOff(_) => prefix + spec_note_off_path(),
        MessageModel::AudioSample { .. } => prefix + spec_audio_path(),
        _ => Seq::<char>::empty(),
    }
}

/// The argument list of a data message: one float for a parameter change or
/// an audio sample; channel, note and velocity for a note event.
pub open spec fn spec_message_args(m: MessageModel) -> Seq<OscArg>
    recommends
        spec_is_data(m),
{
    match m {
        MessageModel::ParamChange { value_bits, .. } => seq![OscArg::FloatBits(value_bits)],
        MessageModel::NoteOn(p) => seq![
            OscArg::Int(p.channel as i32),
            OscArg::Int(p.note as i32),
            OscArg::FloatBits(p.velocity_bits),
        ],
        MessageModel::NoteOff(p) => seq![
            OscArg::Int(p.channel as i32),
            OscArg::Int(p.note as i32),
            OscArg::FloatBits(p.velocity_bits),
        ],
        MessageModel::AudioSample { value_bits } => seq![OscArg::FloatBits(value_bits)],
        _ => Seq::<OscArg>::empty(),
    }
}

/// The complete wire packet of a data message under a namespace prefix.
pub open spec fn spec_packet_bytes(prefix: Seq<char>, m: MessageModel) -> Seq<u8>
    recommends
        spec_is_data(m),
{
    spec_osc_message_bytes(encode_utf8(spec_message_address(prefix, m)), spec_message_args(m))
}

/// Builds the OSC address string of a data message under the given prefix.
pub fn message_address(prefix: &str, m: &Message) -> (r: String)
    requires
        spec_is_data(m@),
    ensures
        r@ == spec_message_address(prefix@, m@),
{
    let mut a = String::from_str(prefix);
    match m {
        Message::ParamChange { name, .. } => {
            a.append("/param/");
            a.append(name.as_str());
            proof {
                reveal_strlit("/param/");
                assert(a@ =~= spec_message_address(prefix@, m@));
            }
        },
        Message::NoteOn(_) => {
            a.append("/note_on");
            proof {
                reveal_strlit("/note_on");
                assert(a@ =~= spec_message_address(prefix@, m@));
            }
        },
        Message::NoteOff(_) => {
            a.append("/note_off");
            proof {
                reveal_strlit("/note_off");
                assert(a@ =~= spec_message_address(prefix@, m@));
            }
        },
        Message::AudioSample { .. } => {
            a.append("/audio");
            proof {
                reveal_strlit("/audio");
                assert(a@ =~= spec_message_address(prefix@, m@));
            }
        },
        _ => {
            proof {
                assert(false);
            }
        },
    }
    a
}

/// Builds the argument list of a data message.
pub fn message_args(m: &Message) -> (r: Vec<OscArg>)
    requires
        spec_is_data(m@),
    ensures
        r@ == spec_message_args(m@),
{
    let mut r: Vec<OscArg> = Vec::new();
    match m {
        Message::ParamChange { value_bits, .. } => {
            r.push(OscArg::FloatBits(*value_bits));
        },
        Message::NoteOn(p) => {
            r.push(OscArg::Int(p.channel as i32));
            r.push(OscArg::Int(p.note as i32));
            r.push(OscArg::FloatBits(p.velocity_bits));
        },
        Message::NoteOff(p) => {
            r.push(OscArg::Int(p.channel as i32));
            r.push(OscArg::Int(p.note as i32));
            r.push(OscArg::FloatBits(p.velocity_bits));
        },
        Message::AudioSample { value_bits } => {
            r.push(OscArg::FloatBits(*value_bits));
        },
        _ => {
            proof {
                assert(false);
            }
        },
    }
    proof {
        assert(r@ =~= spec_message_args(m@));
    }
    r
}

/// Formats one data message into its complete wire packet under the given
/// namespace prefix.
pub fn encode_packet(prefix: &str, m: &Message) -> (r: Vec<u8>)
    requires
        spec_is_data(m@),
    ensures
        r@ == spec_packet_bytes(prefix@, m@),
{
    let addr = message_address(prefix, m);
    let args = message_args(m);
    encode_osc_message(addr.as_str(), &args)
}

/// Appends the big-endian bytes of `x`.
fn push_be_u32(out: &mut Vec<u8>, x: u32)
    ensures
        final(out)@ == old(out)@ + spec_be_bytes(x),
{
    out.push((x >> 24) as u8);
    out.push((x >> 16) as u8);
    out.push((x >> 8) as u8);
    out.push(x as u8);
    proof {
        assert(out@ =~= old(out)@ + spec_be_bytes(x));
    }
}

/// Appends an OSC-encoded string: the bytes of `s`, a null terminator, and
/// zero padding to a four-byte boundary.
fn push_osc_string(out: &mut Vec<u8>, s: &[u8])
    ensures
        final(out)@ == old(out)@ + spec_osc_string(s@),
{
    let n = s.len();
    let mut i: usize = 0;
    while i < n
        invariant
            i <= n,
            n == s@.len(),
            out@ == old(out)@ + s@.take(i as int),
        decreases n - i,
    {
        let b = s[i];
        out.push(b);
        i = i + 1;
        proof {
            assert(out@ =~= old(out)@ + s@.take(i as int));
        }
    }
    proof {
        assert(s@.take(n as int) =~= s@);
    }
    let pad: usize = 4 - (n % 4);
    proof {
        assert(pad == spec_pad_len(s@.len()));
    }
    let mut j: usize = 0;
    while j < pad
        invariant
            j <= pad,
            out@ == old(out)@ + s@ + spec_zeros(j as nat),
        decreases pad - j,
    {
        out.push(0u8);
        j = j + 1;
        proof {
            assert(out@ =~= old(out)@ + s@ + spec_zeros(j as nat));
        }
    }
    proof {
        assert(out@ =~= old(out)@ + spec_osc_string(s@));
    }
}

/// Encodes one OSC message with the given address string and arguments.
///
/// The result is exactly the datagram payload: the padded address, the padded
/// type-tag string, and the big-endian data of each argument in order.
pub fn encode_osc_message(addr: &str, args: &Vec<OscArg>) -> (r: Vec<u8>)
    ensures
        r@ == spec_osc_message_bytes(addr.spec_bytes(), args@),
{
    let mut out: Vec<u8> = Vec::new();
    push_osc_string(&mut out, addr.as_bytes());

    let mut tags: Vec<u8> = Vec::new();
    tags.push(44u8);  // ','
    let n = args.len();
    let mut i: usize = 0;
    while i < n
        invariant
            i <= n,
            n == args@.len(),
            tags@ == spec_tag_string(args@.take(i as int)),
        decreases n - i,
    {
        match args[i] {
            OscArg::Int(_) => tags.push(105u8),   // 'i'
            OscArg::FloatBits(_) => tags.push(102u8),  // 'f'
        }
        i = i + 1;
        proof {
            assert(tags@ =~= spec_tag_string(args@.take(i as int)));
        }
    }
    proof {
        assert(args@.take(n as int) =~= args@);
    }
    push_osc_string(&mut out, tags.as_slice());

    let mut k: usize = 0;
    while k < n
        invariant
            k <= n,
            n == args@.len(),
            out@ == spec_osc_string(addr.spec_bytes()) + spec_osc_string(spec_tag_string(args@))
                + spec_args_data(args@.take(k as int)),
        decreases n - k,
    {
        match args[k] {
            OscArg::Int(x) => push_be_u32(&mut out, x as u32),
            OscArg::FloatBits(bits) => push_be_u32(&mut out, bits),
        }
        k = k + 1;
        proof {
            assert(args@.take(k as int).drop_last() =~= args@.take(k - 1));
            assert(out@ =~= spec_osc_string(addr.spec_bytes())
                + spec_osc_string(spec_tag_string(args@)) + spec_args_data(args@.take(k as int)));
        }
    }
    proof {
        assert(args@.take(n as int) =~= args@);
    }
    out
}

} // verus!
