//! The bridge driver: what the real-time thread does each processing cycle.
//!
//! In fixed order, a cycle drains the dirty set into parameter-change
//! messages, translates the cycle's note events into note messages in
//! delivery order, turns the decimated audio into sample messages with exact
//! zeroes suppressed, and hands everything to the worker. Enqueueing never
//! blocks: a message the full channel cannot take is dropped and counted,
//! never retried.

use vstd::prelude::*;

use crate::chan::EnqueueResult;
use crate::chan::try_send_message;
use crate::chan::send_message_blocking;
use crate::dirty::DirtySet;
use crate::dirty::ParamModel;
use crate::dirty::spec_all_clean;
use crate::dirty::spec_apply_writes;
use crate::dirty::spec_last_write_to;
use crate::dirty::spec_unique_names;
use crate::dirty::lemma_apply_writes_at;
use crate::msg::Message;
use crate::msg::MessageModel;
use crate::msg::NoteEvent;
use crate::msg::NoteModel;
use crate::msg::spec_is_silent;
use crate::msg::is_silent;
use crate::msg::views_of;

verus! {

/// The messages a drain of the dirty set produces: one parameter-change
/// message per dirty parameter, in parameter order, carrying the current
/// value.
pub open spec fn spec_param_messages(s: Seq<ParamModel>) -> Seq<MessageModel>
    decreases s.len(),
{
    if s.len() == 0 {
        Seq::<MessageModel>::empty()
    } else {
        spec_param_messages(s.drop_last()) + if s.last().dirty {
            seq![
                MessageModel::ParamChange {
                    name: s.last().name,
                    value_bits: s.last().value_bits,
                },
            ]
        } else {
            Seq::<MessageModel>::empty()
        }
    }
}

/// The messages a cycle's note events produce: one message per note-on or
/// note-off, in delivery order; other event kinds are not forwarded.
pub open spec fn spec_note_messages(events: Seq<NoteEvent>) -> Seq<MessageModel>
    decreases events.len(),
{
    if events.len() == 0 {
        Seq::<MessageModel>::empty()
    } else {
        spec_note_messages(events.drop_last()) + match events.last() {
            NoteEvent::On { channel, note, velocity_bits } => seq![
                MessageModel::NoteOn(NoteModel { channel, note, velocity_bits }),
            ],
            NoteEvent::Off { channel, note, velocity_bits } => seq![
                MessageModel::NoteOff(NoteModel { channel, note, velocity_bits }),
            ],
            NoteEvent::Other => Seq::<MessageModel>::empty(),
        }
    }
}

/// The messages a cycle's decimated audio produces: one message per sample,
/// in order, except that samples equal to floating-point zero are suppressed
/// (the silence-skip policy — deliberate and lossy, since a signal crossing
/// zero is indistinguishable from no signal).
pub open spec fn spec_audio_messages(samples: Seq<u32>) -> Seq<MessageModel>
    decreases samples.len(),
{
    if samples.len() == 0 {
        Seq::<MessageModel>::empty()
    } else {
        spec_audio_messages(samples.drop_last()) + if spec_is_silent(samples.last()) {
            Seq::<MessageModel>::empty()
        } else {
            seq![MessageModel::AudioSample { value_bits: samples.last() }]
        }
    }
}

/// Everything one processing cycle enqueues, in order: parameter changes
/// first, then note messages when note forwarding is on, then audio messages
/// when audio forwarding is on.
pub open spec fn spec_cycle_messages(
    params: Seq<ParamModel>,
    send_midi: bool,
    events: Seq<NoteEvent>,
    send_audio: bool,
    samples: Seq<u32>,
) -> Seq<MessageModel> {
    spec_param_messages(params) + (if send_midi {
        spec_note_messages(events)
    } else {
        Seq::<MessageModel>::empty()
    }) + (if send_audio {
        spec_audio_messages(samples)
    } else {
        Seq::<MessageModel>::empty()
    })
}

/// Note translation is a homomorphism over concatenation: the messages of
/// two event batches delivered one after the other are the messages of the
/// first followed by the messages of the second. Together with the per-batch
/// equality this pins down FIFO preservation: delivery order is emission
/// order.
pub proof fn lemma_note_messages_concat(a: Seq<NoteEvent>, b: Seq<NoteEvent>)
    ensures
        spec_note_messages(a + b) == spec_note_messages(a) + spec_note_messages(b),
    decreases b.len(),
{
    if b.len() == 0 {
        assert(a + b =~= a);
        assert(spec_note_messages(a) + spec_note_messages(b) =~= spec_note_messages(a));
    } else {
        lemma_note_messages_concat(a, b.drop_last());
        assert((a + b).drop_last() =~= a + b.drop_last());
        assert((a + b).last() == b.last());
        assert(spec_note_messages(a + b) =~= spec_note_messages(a) + spec_note_messages(b));
    }
}

/// True of an audio-sample message whose value is not floating-point zero.
pub open spec fn spec_is_live_audio(m: MessageModel) -> bool {
    match m {
        MessageModel::AudioSample { value_bits } => !spec_is_silent(value_bits),
        _ => false,
    }
}

/// Zero-valued samples are never emitted: every message the audio path
/// produces is an audio sample other than floating-point zero.
pub proof fn lemma_no_silent_audio(samples: Seq<u32>)
    ensures
        forall|j: int|
            0 <= j < spec_audio_messages(samples).len() ==> spec_is_live_audio(
                #[trigger] spec_audio_messages(samples)[j],
            ),
    decreases samples.len(),
{
    if samples.len() > 0 {
        lemma_no_silent_audio(samples.drop_last());
        let sub = spec_audio_messages(samples.drop_last());
        let whole = spec_audio_messages(samples);
        assert forall|j: int| 0 <= j < whole.len() implies spec_is_live_audio(whole[j]) by {
            if j < sub.len() {
                assert(whole[j] == sub[j]);
            } else {
                assert(whole[j] == whole.last());
            }
        }
    }
}

/// True of a parameter-change message that carries the given name.
pub open spec fn spec_is_param_change_for(name: Seq<char>) -> spec_fn(MessageModel) -> bool {
    |m: MessageModel|
        match m {
            MessageModel::ParamChange { name: n, .. } => n == name,
            _ => false,
        }
}

/// A tracker in which no parameter bears a name contributes no
/// parameter-change message carrying it.
proof fn lemma_param_messages_absent(s: Seq<ParamModel>, name: Seq<char>)
    requires
        forall|i: int| 0 <= i < s.len() ==> (#[trigger] s[i]).name != name,
    ensures
        spec_param_messages(s).filter(spec_is_param_change_for(name)) == Seq::<
            MessageModel,
        >::empty(),
    decreases s.len(),
{
    reveal(Seq::filter);
    let pred = spec_is_param_change_for(name);
    if s.len() == 0 {
        assert(spec_param_messages(s).filter(pred) =~= Seq::<MessageModel>::empty());
    } else {
        assert(forall|i: int|
            0 <= i < s.drop_last().len() ==> (#[trigger] s.drop_last()[i]).name != name);
        lemma_param_messages_absent(s.drop_last(), name);
        let head = spec_param_messages(s.drop_last());
        let tail = if s.last().dirty {
            seq![
                MessageModel::ParamChange { name: s.last().name, value_bits: s.last().value_bits },
            ]
        } else {
            Seq::<MessageModel>::empty()
        };
        Seq::filter_distributes_over_add(head, tail, pred);
        if s.last().dirty {
            assert(s.last() == s[s.len() - 1]);
            assert(tail.drop_last() =~= Seq::<MessageModel>::empty());
            assert(!pred(tail.last()));
            assert(tail.filter(pred) =~= Seq::<MessageModel>::empty());
        }
        assert(spec_param_messages(s).filter(pred) =~= Seq::<MessageModel>::empty());
    }
}

/// For any parameter of a tracker whose names are unique, the drain messages
/// contain exactly one change message bearing its name when its flag is set
/// — carrying the current value — and none when it is clear.
pub proof fn lemma_param_messages_exactly_one(s: Seq<ParamModel>, p: int)
    requires
        spec_unique_names(s),
        0 <= p < s.len(),
    ensures
        spec_param_messages(s).filter(spec_is_param_change_for(s[p].name)) == (if s[p].dirty {
            seq![MessageModel::ParamChange { name: s[p].name, value_bits: s[p].value_bits }]
        } else {
            Seq::<MessageModel>::empty()
        }),
    decreases s.len(),
{
    reveal(Seq::filter);
    let pred = spec_is_param_change_for(s[p].name);
    let head = spec_param_messages(s.drop_last());
    let tail = if s.last().dirty {
        seq![MessageModel::ParamChange { name: s.last().name, value_bits: s.last().value_bits }]
    } else {
        Seq::<MessageModel>::empty()
    };
    Seq::filter_distributes_over_add(head, tail, pred);
    if p == s.len() - 1 {
        assert(forall|i: int|
            0 <= i < s.drop_last().len() ==> (#[trigger] s.drop_last()[i]).name != s[p].name);
        lemma_param_messages_absent(s.drop_last(), s[p].name);
        if s[p].dirty {
            assert(tail.drop_last() =~= Seq::<MessageModel>::empty());
            assert(pred(tail.last()));
            assert(tail.filter(pred) =~= tail);
            assert(spec_param_messages(s).filter(pred) =~= tail);
        } else {
            assert(spec_param_messages(s).filter(pred) =~= Seq::<MessageModel>::empty());
        }
    } else {
        assert(s.drop_last()[p] == s[p]);
        lemma_param_messages_exactly_one(s.drop_last(), p);
        if s.last().dirty {
            assert(s.last() == s[s.len() - 1]);
            assert(s[s.len() - 1].name != s[p].name);
            assert(tail.drop_last() =~= Seq::<MessageModel>::empty());
            assert(!pred(tail.last()));
            assert(tail.filter(pred) =~= Seq::<MessageModel>::empty());
        }
        if s[p].dirty {
            assert(spec_param_messages(s).filter(pred) =~= seq![
                MessageModel::ParamChange { name: s[p].name, value_bits: s[p].value_bits },
            ]);
        } else {
            assert(spec_param_messages(s).filter(pred) =~= Seq::<MessageModel>::empty());
        }
    }
}

/// However many times a parameter was written between two drains, the next
/// drain emits exactly one change message for it, and that message carries
/// the value of the latest write: the intermediate values are lost by
/// design.
pub proof fn lemma_param_change_coalescing(s: Seq<ParamModel>, ws: Seq<(int, u32)>, p: int)
    requires
        spec_unique_names(s),
        0 <= p < s.len(),
        forall|k: int| 0 <= k < ws.len() ==> 0 <= (#[trigger] ws[k]).0 < s.len(),
        spec_last_write_to(ws, p) is Some,
    ensures
        ({
            let s1 = spec_apply_writes(s, ws);
            spec_param_messages(s1).filter(spec_is_param_change_for(s[p].name)) == seq![
                MessageModel::ParamChange {
                    name: s[p].name,
                    value_bits: spec_last_write_to(ws, p)->Some_0,
                },
            ]
        }),
{
    let s1 = spec_apply_writes(s, ws);
    lemma_apply_writes_at(s, ws, p);
    assert forall|q: int| 0 <= q < s.len() implies (#[trigger] s1[q]).name == s[q].name by {
        lemma_apply_writes_at(s, ws, q);
    }
    assert(spec_unique_names(s1));
    lemma_param_messages_exactly_one(s1, p);
    assert(s1[p].name == s[p].name);
    assert(s1[p].dirty);
    assert(s1[p].value_bits == spec_last_write_to(ws, p)->Some_0);
}

/// Drains every parameter's flag, producing the cycle's parameter-change
/// messages in parameter order; each message carries the parameter's current
/// value, whatever intermediate values were written since the last drain.
pub fn param_messages(set: &mut DirtySet) -> (msgs: Vec<Message>)
    requires
        old(set).wf(),
    ensures
        final(set).wf(),
        final(set)@ == spec_all_clean(old(set)@),
        views_of(msgs@) == spec_param_messages(old(set)@),
{
    let mut msgs: Vec<Message> = Vec::new();
    let n = set.len();
    let mut i: usize = 0;
    while i < n
        invariant
            i <= n,
            set.wf(),
            n == set@.len(),
            set@.len() == old(set)@.len(),
            forall|j: int|
                0 <= j < i ==> set@[j] == (ParamModel { dirty: false, ..old(set)@[j] }),
            forall|j: int| i <= j < n ==> set@[j] == old(set)@[j],
            views_of(msgs@) == spec_param_messages(old(set)@.take(i as int)),
        decreases n - i,
    {
        let ghost msgs_before = msgs@;
        let ghost was_dirty = set@[i as int].dirty;
        match set.drain(i) {
            Some(value_bits) => {
                proof {
                    assert(set@.len() == set.names@.len());
                }
                let name = set.names[i].clone();
                proof {
                    assert(set@[i as int].name == set.names@[i as int]@);
                    assert(name@ == old(set)@[i as int].name);
                    assert(value_bits == old(set)@[i as int].value_bits);
                }
                msgs.push(Message::ParamChange { name, value_bits });
                proof {
                    assert(views_of(msgs@) =~~= views_of(msgs_before) + seq![
                        MessageModel::ParamChange {
                            name: old(set)@[i as int].name,
                            value_bits: old(set)@[i as int].value_bits,
                        },
                    ]);
                }
            },
            None => {},
        }
        i = i + 1;
        proof {
            assert(was_dirty == old(set)@[i - 1].dirty);
            assert(old(set)@.take(i as int).drop_last() =~= old(set)@.take(i - 1));
            assert(old(set)@.take(i as int).last() == old(set)@[i - 1]);
            assert(spec_param_messages(old(set)@.take(i as int)) == spec_param_messages(
                old(set)@.take(i - 1),
            ) + (if old(set)@[i - 1].dirty {
                seq![
                    MessageModel::ParamChange {
                        name: old(set)@[i - 1].name,
                        value_bits: old(set)@[i - 1].value_bits,
                    },
                ]
            } else {
                Seq::<MessageModel>::empty()
            }));
            assert(views_of(msgs@) =~~= spec_param_messages(old(set)@.take(i as int)));
        }
    }
    proof {
        assert(old(set)@.take(n as int) =~= old(set)@);
        assert(set@ =~= spec_all_clean(old(set)@));
    }
    msgs
}

/// Translates the cycle's note events into messages, keeping the host's
/// delivery order; event kinds other than note-on and note-off produce
/// nothing.
pub fn note_messages(events: &Vec<NoteEvent>) -> (msgs: Vec<Message>)
    ensures
        views_of(msgs@) == spec_note_messages(events@),
{
    let mut msgs: Vec<Message> = Vec::new();
    let n = events.len();
    let mut i: usize = 0;
    while i < n
        invariant
            i <= n,
            n == events@.len(),
            views_of(msgs@) == spec_note_messages(events@.take(i as int)),
        decreases n - i,
    {
        match events[i] {
            NoteEvent::On { channel, note, velocity_bits } => {
                msgs.push(Message::NoteOn(crate::msg::NotePayload { channel, note, velocity_bits }));
            },
            NoteEvent::Off { channel, note, velocity_bits } => {
                msgs.push(
                    Message::NoteOff(crate::msg::NotePayload { channel, note, velocity_bits }),
                );
            },
            NoteEvent::Other => {},
        }
        i = i + 1;
        proof {
            assert(events@.take(i as int).drop_last() =~= events@.take(i - 1));
            assert(views_of(msgs@) =~= spec_note_messages(events@.take(i as int)));
        }
    }
    proof {
        assert(events@.take(n as int) =~= events@);
    }
    msgs
}

/// Turns the cycle's decimated audio samples into messages, in order,
/// suppressing samples equal to floating-point zero.
pub fn audio_messages(samples: &Vec<u32>) -> (msgs: Vec<Message>)
    ensures
        views_of(msgs@) == spec_audio_messages(samples@),
{
    let mut msgs: Vec<Message> = Vec::new();
    let n = samples.len();
    let mut i: usize = 0;
    while i < n
        invariant
            i <= n,
            n == samples@.len(),
            views_of(msgs@) == spec_audio_messages(samples@.take(i as int)),
        decreases n - i,
    {
        let s = samples[i];
        if !is_silent(s) {
            msgs.push(Message::AudioSample { value_bits: s });
        }
        i = i + 1;
        proof {
            assert(samples@.take(i as int).drop_last() =~= samples@.take(i - 1));
            assert(views_of(msgs@) =~= spec_audio_messages(samples@.take(i as int)));
        }
    }
    proof {
        assert(samples@.take(n as int) =~= samples@);
    }
    msgs
}

/// Builds everything one processing cycle sends, in its fixed order, and
/// leaves the dirty set fully drained.
pub fn cycle_messages(
    set: &mut DirtySet,
    send_midi: bool,
    events: &Vec<NoteEvent>,
    send_audio: bool,
    samples: &Vec<u32>,
) -> (msgs: Vec<Message>)
    requires
        old(set).wf(),
    ensures
        final(set).wf(),
        final(set)@ == spec_all_clean(old(set)@),
        views_of(msgs@) == spec_cycle_messages(old(set)@, send_midi, events@, send_audio, samples@),
{
    let mut msgs = param_messages(set);
    let ghost params_part = msgs@;
    if send_midi {
        let mut notes = note_messages(events);
        let ghost notes_part = notes@;
        msgs.append(&mut notes);
        proof {
            assert(views_of(params_part + notes_part) =~= views_of(params_part) + views_of(
                notes_part,
            ));
        }
    }
    let ghost mid_part = msgs@;
    if send_audio {
        let mut audio = audio_messages(samples);
        let ghost audio_part = audio@;
        msgs.append(&mut audio);
        proof {
            assert(views_of(mid_part + audio_part) =~= views_of(mid_part) + views_of(audio_part));
        }
    }
    proof {
        assert(views_of(msgs@) =~= spec_cycle_messages(
            old(set)@,
            send_midi,
            events@,
            send_audio,
            samples@,
        ));
    }
    msgs
}

/// Attempts to enqueue every message in order. Each attempt is a single
/// bounded check that never waits: a message the channel cannot take — full
/// or with the worker gone — is dropped on the spot and counted, so the
/// caller's deadline is never at risk and the drop is observable.
pub fn enqueue_messages(
    sender: &crossbeam_channel::Sender<Message>,
    msgs: Vec<Message>,
) -> (dropped: usize)
    ensures
        dropped <= msgs@.len(),
{
    let total = msgs.len();
    let mut rest = msgs;
    let mut dropped: usize = 0;
    while rest.len() > 0
        invariant
            dropped + rest@.len() <= total,
        decreases rest@.len(),
    {
        let m = rest.remove(0);
        match try_send_message(sender, m) {
            EnqueueResult::Accepted => {},
            EnqueueResult::Full(_) => {
                dropped = dropped + 1;
            },
            EnqueueResult::Closed(_) => {
                dropped = dropped + 1;
            },
        }
    }
    dropped
}

/// One whole processing cycle for the real-time thread: drain the dirty set,
/// translate the cycle's note events and decimated audio into messages, and
/// hand them to the worker in the fixed order, without ever blocking.
/// Returns how many messages had to be dropped.
pub fn process_cycle(
    set: &mut DirtySet,
    sender: &crossbeam_channel::Sender<Message>,
    send_midi: bool,
    events: &Vec<NoteEvent>,
    send_audio: bool,
    samples: &Vec<u32>,
) -> (dropped: usize)
    requires
        old(set).wf(),
    ensures
        final(set).wf(),
        final(set)@ == spec_all_clean(old(set)@),
        dropped <= spec_cycle_messages(
            old(set)@,
            send_midi,
            events@,
            send_audio,
            samples@,
        ).len(),
{
    let msgs = cycle_messages(set, send_midi, events, send_audio, samples);
    proof {
        assert(views_of(msgs@).len() == msgs@.len());
    }
    enqueue_messages(sender, msgs)
}

/// Enqueues the shutdown sentinel for the worker at stream teardown, waiting
/// for room if it must (teardown does not run on the real-time thread).
/// Reports whether the worker side was still there to take it.
pub fn request_shutdown(sender: &crossbeam_channel::Sender<Message>) -> bool {
    match send_message_blocking(sender, Message::Shutdown) {
        None => true,
        Some(_) => false,
    }
}

} // verus!
