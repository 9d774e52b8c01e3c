//! The network worker's state machine.
//!
//! The worker dequeues messages in enqueue order. Control messages mutate its
//! thread-local state (destination, namespace prefix, liveness); data messages
//! are formatted into OSC packets and transmitted while the connection is
//! live, and dropped while it is not. A shutdown message ends the loop, and
//! nothing pending behind it is ever transmitted.
//!
//! The socket itself is unverifiable I/O and lives with the caller: each
//! [`worker_step`] says what to do next ([`WorkerAction`]), and the outcome of
//! a reconnect attempt is reported back through [`note_connect_result`].

use vstd::prelude::*;
use vstd::string::StringExecFns;

use crate::msg::Message;
use crate::msg::MessageModel;
use crate::msg::spec_is_data;
use crate::osc::encode_packet;
use crate::osc::spec_packet_bytes;

verus! {

/// The address-namespace prefix used for a raw base string: empty input gives
/// an empty prefix, anything else is the input with a leading path separator.
pub open spec fn spec_address_base(raw: Seq<char>) -> Seq<char> {
    if raw.len() == 0 {
        Seq::<char>::empty()
    } else {
        seq!['/'] + raw
    }
}

/// Formats the raw address-namespace base into the prefix prepended to every
/// outgoing OSC address.
pub fn format_osc_address_base(raw_base: &str) -> (r: String)
    ensures
        r@ == spec_address_base(raw_base@),
{
    if raw_base.is_empty() {
        let r = String::new();
        proof {
            assert(r@ =~= spec_address_base(raw_base@));
        }
        r
    } else {
        let mut r = String::from_str("/");
        r.append(raw_base);
        proof {
            reveal_strlit("/");
            assert(r@ =~= seq!['/'] + raw_base@);
        }
        r
    }
}

/// Spec-level picture of the worker's state.
#[verifier::ext_equal]
pub ghost struct WorkerModel {
    pub connected: bool,
    pub prefix: Seq<char>,
    pub host: Seq<char>,
    pub port: u16,
}

/// The worker's thread-local state: whether the last reconnect attempt
/// succeeded, the address-namespace prefix, and the destination the socket
/// currently points at. Only the worker thread touches it; configuration
/// reaches it solely through messages on the channel, which serializes
/// reconfiguration with data.
pub struct WorkerState {
    pub connected: bool,
    pub prefix: String,
    pub host: String,
    pub port: u16,
}

impl View for WorkerState {
    type V = WorkerModel;

    open spec fn view(&self) -> WorkerModel {
        WorkerModel {
            connected: self.connected,
            prefix: self.prefix@,
            host: self.host@,
            port: self.port,
        }
    }
}

impl WorkerState {
    /// The state at worker start: the prefix computed from the raw base, the
    /// initial destination, and the connection assumed live (the caller hands
    /// the worker a socket it has already connected).
    pub fn new(raw_base: &str, host: String, port: u16) -> (s: WorkerState)
        ensures
            s@ == (WorkerModel {
                connected: true,
                prefix: spec_address_base(raw_base@),
                host: host@,
                port: port,
            }),
    {
        WorkerState { connected: true, prefix: format_osc_address_base(raw_base), host, port }
    }
}

/// What the caller of [`worker_step`] must do next.
pub enum WorkerAction {
    /// Stop the loop and let the thread end.
    Exit,
    /// Re-point the socket at this destination, then report the outcome via
    /// [`note_connect_result`].
    Reconnect { host: String, port: u16 },
    /// Send this packet to the current destination.
    Transmit { packet: Vec<u8> },
    /// Nothing to do for this message.
    Idle,
}

/// The worker state after consuming one message. A connection change adopts
/// the new destination and leaves the connection in the state the reconnect
/// attempt produced (`conn_ok`); an address-base change recomputes the
/// prefix; every other message leaves the state alone.
pub open spec fn spec_step_state(s: WorkerModel, m: MessageModel, conn_ok: bool) -> WorkerModel {
    match m {
        MessageModel::ConnectionChange { host, port } => WorkerModel {
            connected: conn_ok,
            prefix: s.prefix,
            host: host,
            port: port,
        },
        MessageModel::AddressBaseChange { namespace } => WorkerModel {
            connected: s.connected,
            prefix: spec_address_base(namespace),
            host: s.host,
            port: s.port,
        },
        _ => s,
    }
}

/// One transmission of a worker run: the destination it was sent to and the
/// datagram payload.
#[verifier::ext_equal]
pub ghost struct SpecTransmission {
    pub host: Seq<char>,
    pub port: u16,
    pub payload: Seq<u8>,
}

/// What consuming one message transmits: a data message goes out while the
/// connection is live, as one packet aimed at the current destination;
/// everything else transmits nothing.
pub open spec fn spec_step_emits(s: WorkerModel, m: MessageModel) -> Seq<SpecTransmission> {
    if spec_is_data(m) && s.connected {
        seq![
            SpecTransmission { host: s.host, port: s.port, payload: spec_packet_bytes(s.prefix, m) },
        ]
    } else {
        Seq::<SpecTransmission>::empty()
    }
}

/// Everything a worker run transmits, given the queue of pending messages in
/// enqueue order, each paired with the outcome a reconnect attempt would
/// have. The run stops at the first shutdown message.
pub open spec fn spec_worker_run(s: WorkerModel, steps: Seq<(MessageModel, bool)>) -> Seq<
    SpecTransmission,
>
    decreases steps.len(),
{
    if steps.len() == 0 {
        Seq::<SpecTransmission>::empty()
    } else if steps[0].0 is Shutdown {
        Seq::<SpecTransmission>::empty()
    } else {
        spec_step_emits(s, steps[0].0) + spec_worker_run(
            spec_step_state(s, steps[0].0, steps[0].1),
            steps.drop_first(),
        )
    }
}

/// Consumes one dequeued message: applies control messages to the state and
/// returns what the caller must do — exit, re-point the socket, transmit one
/// packet, or nothing. Data messages that arrive while the connection is not
/// live are dropped, not queued.
pub fn worker_step(state: &mut WorkerState, m: Message) -> (a: WorkerAction)
    ensures
        final(state)@ == spec_step_state(old(state)@, m@, old(state)@.connected),
        match m@ {
            MessageModel::Shutdown => a is Exit,
            MessageModel::ConnectionChange { host, port } => a matches WorkerAction::Reconnect {
                host: h,
                port: p,
            } && h@ == host && p == port,
            MessageModel::AddressBaseChange { .. } => a is Idle,
            _ => if old(state)@.connected {
                a matches WorkerAction::Transmit { packet } && packet@ == spec_packet_bytes(
                    old(state)@.prefix,
                    m@,
                )
            } else {
                a is Idle
            },
        },
{
    match m {
        Message::Shutdown => WorkerAction::Exit,
        Message::ConnectionChange { host, port } => {
            state.host = host.clone();
            state.port = port;
            WorkerAction::Reconnect { host, port }
        },
        Message::AddressBaseChange { namespace } => {
            state.prefix = format_osc_address_base(namespace.as_str());
            WorkerAction::Idle
        },
        data => {
            if state.connected {
                let packet = encode_packet(state.prefix.as_str(), &data);
                WorkerAction::Transmit { packet }
            } else {
                WorkerAction::Idle
            }
        },
    }
}

/// Records whether the reconnect asked for by the last
/// [`WorkerAction::Reconnect`] succeeded. While it did not, data messages are
/// dropped rather than attempted against a dead destination.
pub fn note_connect_result(state: &mut WorkerState, ok: bool)
    ensures
        final(state)@ == (WorkerModel { connected: ok, ..old(state)@ }),
{
    state.connected = ok;
}

/// A [`worker_step`] on a connection change followed by
/// [`note_connect_result`] lands exactly on the spec step with that outcome.
pub proof fn lemma_step_then_connect(s: WorkerModel, m: MessageModel, ok: bool)
    requires
        m is ConnectionChange,
    ensures
        (WorkerModel { connected: ok, ..spec_step_state(s, m, s.connected) }) == spec_step_state(
            s,
            m,
            ok,
        ),
{
}

/// After a shutdown message is processed, the worker transmits nothing
/// further: whatever is still pending behind the shutdown contributes nothing
/// to the run.
pub proof fn lemma_shutdown_stops_run(
    s: WorkerModel,
    before: Seq<(MessageModel, bool)>,
    shutdown_ok: bool,
    after: Seq<(MessageModel, bool)>,
)
    ensures
        spec_worker_run(s, before + seq![(MessageModel::Shutdown, shutdown_ok)] + after)
            == spec_worker_run(s, before + seq![(MessageModel::Shutdown, shutdown_ok)]),
    decreases before.len(),
{
    let mid = seq![(MessageModel::Shutdown, shutdown_ok)];
    let whole = before + mid + after;
    let stopped = before + mid;
    if before.len() == 0 {
        assert(whole[0].0 is Shutdown);
        assert(stopped[0].0 is Shutdown);
    } else {
        assert(whole[0] == before[0]);
        assert(stopped[0] == before[0]);
        if before[0].0 is Shutdown {
        } else {
            let s1 = spec_step_state(s, before[0].0, before[0].1);
            assert(whole.drop_first() =~= before.drop_first() + mid + after);
            assert(stopped.drop_first() =~= before.drop_first() + mid);
            lemma_shutdown_stops_run(s1, before.drop_first(), shutdown_ok, after);
        }
    }
}

/// While no further connection change arrives, every transmission of a run
/// goes to the destination the state already holds — and while the
/// connection is down, nothing is transmitted at all.
pub proof fn lemma_run_keeps_destination(s: WorkerModel, steps: Seq<(MessageModel, bool)>)
    requires
        forall|i: int|
            0 <= i < steps.len() ==> !((#[trigger] steps[i]).0 is ConnectionChange),
    ensures
        !s.connected ==> spec_worker_run(s, steps) == Seq::<SpecTransmission>::empty(),
        forall|j: int|
            0 <= j < spec_worker_run(s, steps).len() ==> (#[trigger] spec_worker_run(s, steps)[j]).host
                == s.host && spec_worker_run(s, steps)[j].port == s.port,
    decreases steps.len(),
{
    if steps.len() > 0 && !(steps[0].0 is Shutdown) {
        let m = steps[0].0;
        let s1 = spec_step_state(s, m, steps[0].1);
        assert(s1.connected == s.connected && s1.host == s.host && s1.port == s.port);
        assert(forall|i: int|
            0 <= i < steps.drop_first().len() ==> !((#[trigger] steps.drop_first()[i]).0
                is ConnectionChange));
        lemma_run_keeps_destination(s1, steps.drop_first());
        let emitted = spec_step_emits(s, m);
        let rest = spec_worker_run(s1, steps.drop_first());
        assert(spec_worker_run(s, steps) == emitted + rest);
        if !s.connected {
            assert(spec_worker_run(s, steps) =~= Seq::<SpecTransmission>::empty());
        }
    }
}

/// Once a connection change has been applied, everything transmitted before
/// the next connection change goes to its destination: with a successful
/// reconnect every following transmission is aimed at the new host and port,
/// and with a failed one nothing is transmitted at all — never the old
/// destination either way.
pub proof fn lemma_connection_change_directs_following(
    s: WorkerModel,
    host: Seq<char>,
    port: u16,
    conn_ok: bool,
    rest: Seq<(MessageModel, bool)>,
)
    requires
        forall|i: int| 0 <= i < rest.len() ==> !((#[trigger] rest[i]).0 is ConnectionChange),
    ensures
        ({
            let run = spec_worker_run(
                s,
                seq![(MessageModel::ConnectionChange { host, port }, conn_ok)] + rest,
            );
            &&& (!conn_ok ==> run == Seq::<SpecTransmission>::empty())
            &&& forall|j: int|
                0 <= j < run.len() ==> (#[trigger] run[j]).host == host && run[j].port == port
        }),
{
    let cc = MessageModel::ConnectionChange { host, port };
    let steps = seq![(cc, conn_ok)] + rest;
    let s1 = spec_step_state(s, cc, conn_ok);
    assert(steps[0] == (cc, conn_ok));
    assert(!(cc is Shutdown));
    assert(steps.drop_first() =~= rest);
    assert(spec_step_emits(s, cc) =~= Seq::<SpecTransmission>::empty());
    assert(spec_worker_run(s, steps) == spec_step_emits(s, cc) + spec_worker_run(s1, rest));
    assert(s1.host == host && s1.port == port && s1.connected == conn_ok);
    lemma_run_keeps_destination(s1, rest);
    let run = spec_worker_run(s, steps);
    assert(run =~= spec_worker_run(s1, rest));
    if !conn_ok {
        assert(run =~= Seq::<SpecTransmission>::empty());
    }
}

/// A connection change applied before a later-enqueued data message directs
/// that message at the new destination, never the old one: when the reconnect
/// succeeded, the run transmits the single packet to the new host and port;
/// when it failed, nothing is transmitted at all.
pub proof fn lemma_connection_change_redirects(
    s: WorkerModel,
    host: Seq<char>,
    port: u16,
    conn_ok: bool,
    m: MessageModel,
    data_ok: bool,
)
    requires
        spec_is_data(m),
    ensures
        conn_ok ==> spec_worker_run(
            s,
            seq![(MessageModel::ConnectionChange { host, port }, conn_ok), (m, data_ok)],
        ) == seq![
            SpecTransmission { host, port, payload: spec_packet_bytes(s.prefix, m) },
        ],
        !conn_ok ==> spec_worker_run(
            s,
            seq![(MessageModel::ConnectionChange { host, port }, conn_ok), (m, data_ok)],
        ) == Seq::<SpecTransmission>::empty(),
{
    let cc = MessageModel::ConnectionChange { host, port };
    let steps = seq![(cc, conn_ok), (m, data_ok)];
    let rest = seq![(m, data_ok)];
    let s1 = spec_step_state(s, cc, conn_ok);
    let s2 = spec_step_state(s1, m, data_ok);

    assert(steps[0] == (cc, conn_ok));
    assert(!(cc is Shutdown));
    assert(steps.drop_first() =~= rest);
    assert(spec_worker_run(s, steps) == spec_step_emits(s, cc) + spec_worker_run(s1, rest));
    assert(spec_step_emits(s, cc) =~= Seq::<SpecTransmission>::empty());

    assert(rest[0] == (m, data_ok));
    assert(!(m is Shutdown));
    assert(rest.drop_first() =~= Seq::<(MessageModel, bool)>::empty());
    assert(spec_worker_run(s1, rest) == spec_step_emits(s1, m) + spec_worker_run(
        s2,
        Seq::<(MessageModel, bool)>::empty(),
    ));
    assert(spec_worker_run(s2, Seq::<(MessageModel, bool)>::empty())
        == Seq::<SpecTransmission>::empty());

    assert(s1.connected == conn_ok && s1.host == host && s1.port == port && s1.prefix == s.prefix);
    if conn_ok {
        assert(spec_step_emits(s1, m) =~= seq![
            SpecTransmission { host, port, payload: spec_packet_bytes(s.prefix, m) },
        ]);
        assert(spec_worker_run(s, steps) =~= seq![
            SpecTransmission { host, port, payload: spec_packet_bytes(s.prefix, m) },
        ]);
    } else {
        assert(spec_step_emits(s1, m) =~= Seq::<SpecTransmission>::empty());
        assert(spec_worker_run(s, steps) =~= Seq::<SpecTransmission>::empty());
    }
}

} // verus!
