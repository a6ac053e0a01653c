//! Every note-on that a distribute stage sends on a channel is answered by
//! a note-off on that channel.

use vstd::multiset::Multiset;
use vstd::prelude::*;

use super::distribute_transform::{releases, DistributeModel, DistributeTransform};
use super::held_notes::{has_note, lemma_split_is_clean, with_note};
use super::transform::{Step, Transform};
use crate::midi_event::{MIDIEvent, NoteEvent, RouterEventView};
use crate::scheduler::ScheduledView;

verus! {

/// The events that a stage was asked to emit, at once or later, in order.
pub open spec fn requested(sent: Seq<ScheduledView>) -> Seq<MIDIEvent> {
    sent.map_values(
        |request: ScheduledView|
            match request {
                ScheduledView::Now(message) => message.event,
                ScheduledView::Later(message, _) => message.event,
            },
    )
}

/// All events that a step lets out of a stage: the one handed on, then the
/// ones asked of the scheduler.
pub open spec fn let_out(step: Step<DistributeModel>) -> Seq<MIDIEvent> {
    (match step.output {
        Some(message) => seq![message.event],
        None => Seq::empty(),
    }) + requested(step.sent)
}

/// A distribute stage after a list of events, and all it let out for them.
pub struct Trace {
    pub state: DistributeModel,
    pub emitted: Seq<MIDIEvent>,
}

/// What a list of events, taken one after the other, does to a distribute
/// stage.
pub open spec fn after_all(state: DistributeModel, messages: Seq<RouterEventView>) -> Trace
    decreases messages.len(),
{
    if messages.len() == 0 {
        Trace { state, emitted: Seq::empty() }
    } else {
        let before = after_all(state, messages.drop_last());
        let step = DistributeTransform::message(before.state, messages.last());
        Trace { state: step.state, emitted: before.emitted + let_out(step) }
    }
}

/// The channels of a list of notes, each as often as it occurs.
pub open spec fn channels_of(notes: Seq<NoteEvent>) -> Multiset<u8>
    decreases notes.len(),
{
    if notes.len() == 0 {
        Multiset::empty()
    } else {
        channels_of(notes.drop_last()).insert(notes.last().channel)
    }
}

/// The channels on which notes of pitch `note` are held.
pub open spec fn held_channels(held: Seq<NoteEvent>, note: u8) -> Multiset<u8> {
    channels_of(with_note(held, note))
}

/// The channels of the note-ons of pitch `note` among a list of events.
pub open spec fn on_channels(events: Seq<MIDIEvent>, note: u8) -> Multiset<u8>
    decreases events.len(),
{
    if events.len() == 0 {
        Multiset::empty()
    } else {
        match events.last() {
            MIDIEvent::NoteOn(on) => if on.note == note {
                on_channels(events.drop_last(), note).insert(on.channel)
            } else {
                on_channels(events.drop_last(), note)
            },
            _ => on_channels(events.drop_last(), note),
        }
    }
}

/// The channels of the note-offs of pitch `note` among a list of events.
pub open spec fn off_channels(events: Seq<MIDIEvent>, note: u8) -> Multiset<u8>
    decreases events.len(),
{
    if events.len() == 0 {
        Multiset::empty()
    } else {
        match events.last() {
            MIDIEvent::NoteOff(off) => if off.note == note {
                off_channels(events.drop_last(), note).insert(off.channel)
            } else {
                off_channels(events.drop_last(), note)
            },
            _ => off_channels(events.drop_last(), note),
        }
    }
}

proof fn lemma_channels_join(first: Seq<MIDIEvent>, second: Seq<MIDIEvent>, note: u8)
    ensures
        on_channels(first + second, note) == on_channels(first, note).add(
            on_channels(second, note),
        ),
        off_channels(first + second, note) == off_channels(first, note).add(
            off_channels(second, note),
        ),
    decreases second.len(),
{
    broadcast use vstd::multiset::group_multiset_axioms;

    if second.len() > 0 {
        lemma_channels_join(first, second.drop_last(), note);
        assert((first + second).drop_last() =~= first + second.drop_last());
    }
}

/// The note-offs for a list of held notes are note-offs on the channels of
/// those notes, and no note-on is among them.
proof fn lemma_channels_of_releases(held: Seq<NoteEvent>, note: u8)
    ensures
        on_channels(requested(releases(held)), note) == Multiset::<u8>::empty(),
        off_channels(requested(releases(held)), note) == channels_of(with_note(held, note)),
    decreases held.len(),
{
    reveal(Seq::filter);
    let events = requested(releases(held));
    if held.len() > 0 {
        let front = held.drop_last();
        let last = held.last();
        lemma_channels_of_releases(front, note);
        front.lemma_filter_push(last, has_note(note));
        assert(events.drop_last() =~= requested(releases(front)));
        if last.note == note {
            assert(with_note(held, note).drop_last() =~= with_note(front, note));
        }
    }
}

/// One event keeps the balance: for each pitch, the channels of the
/// note-ons let out for it, together with the channels held before, are the
/// channels of the note-offs let out together with the channels held after.
proof fn lemma_step_balances(state: DistributeModel, message: RouterEventView, note: u8)
    ensures
        ({
            let step = DistributeTransform::message(state, message);
            on_channels(let_out(step), note).add(held_channels(state.held, note)) == off_channels(
                let_out(step),
                note,
            ).add(held_channels(step.state.held, note))
        }),
{
    broadcast use vstd::multiset::group_multiset_axioms;

    let step = DistributeTransform::message(state, message);
    let out = let_out(step);
    match message.event {
        MIDIEvent::NoteOn(on) => {
            let assigned = state.assigned(on);
            assert(on_channels(out.drop_last(), note) == Multiset::<u8>::empty());
            assert(off_channels(out.drop_last(), note) == Multiset::<u8>::empty());
            state.held.lemma_filter_push(assigned, has_note(note));
            if assigned.note == note {
                assert(with_note(step.state.held, note).drop_last() =~= with_note(
                    state.held,
                    note,
                ));
            }
        },
        MIDIEvent::NoteOff(off) => {
            let gone = with_note(state.held, off.note);
            lemma_channels_of_releases(gone, note);
            lemma_split_is_clean(state.held, off.note);
        },
        _ => {},
    }
}

/// Whatever events come in whatever order, for each pitch the channels of
/// the note-ons that the stage lets out, each as often as a note-on went to
/// it, are the channels of the note-offs that it lets out, together with
/// the channels on which notes of that pitch are still held. This is so
/// from a stage that holds no note.
pub proof fn lemma_note_offs_match(
    state: DistributeModel,
    messages: Seq<RouterEventView>,
    note: u8,
)
    requires
        state.held.len() == 0,
    ensures
        ({
            let trace = after_all(state, messages);
            on_channels(trace.emitted, note) == off_channels(trace.emitted, note).add(
                held_channels(trace.state.held, note),
            )
        }),
{
    broadcast use vstd::multiset::group_multiset_axioms;

    reveal(Seq::filter);
    lemma_balance(state, messages, note);
}

/// Once no note of a pitch is held any more, the note-ons and the
/// note-offs that the stage has let out for that pitch are on the same
/// channels, each channel as often for the one as for the other.
pub proof fn lemma_released_notes_are_matched(
    state: DistributeModel,
    messages: Seq<RouterEventView>,
    note: u8,
)
    requires
        state.held.len() == 0,
        with_note(after_all(state, messages).state.held, note).len() == 0,
    ensures
        on_channels(after_all(state, messages).emitted, note) == off_channels(
            after_all(state, messages).emitted,
            note,
        ),
{
    broadcast use vstd::multiset::group_multiset_axioms;

    lemma_note_offs_match(state, messages, note);
}

/// The balance over a list of events, from any state.
proof fn lemma_balance(state: DistributeModel, messages: Seq<RouterEventView>, note: u8)
    ensures
        ({
            let trace = after_all(state, messages);
            on_channels(trace.emitted, note).add(held_channels(state.held, note)) == off_channels(
                trace.emitted,
                note,
            ).add(held_channels(trace.state.held, note))
        }),
    decreases messages.len(),
{
    broadcast use vstd::multiset::group_multiset_axioms;

    if messages.len() > 0 {
        let before = after_all(state, messages.drop_last());
        let step = DistributeTransform::message(before.state, messages.last());
        lemma_balance(state, messages.drop_last(), note);
        lemma_step_balances(before.state, messages.last(), note);
        lemma_channels_join(before.emitted, let_out(step), note);
        let on_before = on_channels(before.emitted, note);
        let on_step = on_channels(let_out(step), note);
        let off_before = off_channels(before.emitted, note);
        let off_step = off_channels(let_out(step), note);
        let held_first = held_channels(state.held, note);
        let held_before = held_channels(before.state.held, note);
        let held_after = held_channels(step.state.held, note);
        assert forall|channel: u8|
            on_before.add(on_step).add(held_first).count(channel) == off_before.add(off_step).add(
                held_after,
            ).count(channel) by {
            assert(on_before.add(held_first).count(channel) == off_before.add(held_before).count(
                channel,
            ));
            assert(on_step.add(held_before).count(channel) == off_step.add(held_after).count(
                channel,
            ));
        }
    }
}

} // verus!
