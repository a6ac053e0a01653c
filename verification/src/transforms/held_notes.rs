//! The notes that a transform holds: picking out those of one pitch.

use vstd::prelude::*;

use crate::midi_event::NoteEvent;

verus! {

/// Whether a held note has the pitch `note`.
pub open spec fn has_note(note: u8) -> spec_fn(NoteEvent) -> bool {
    |held: NoteEvent| held.note == note
}

/// Whether a held note has another pitch than `note`.
pub open spec fn lacks_note(note: u8) -> spec_fn(NoteEvent) -> bool {
    |held: NoteEvent| held.note != note
}

/// The held notes of pitch `note`, in the order in which they are held.
pub open spec fn with_note(held: Seq<NoteEvent>, note: u8) -> Seq<NoteEvent> {
    held.filter(has_note(note))
}

/// The held notes of any other pitch than `note`, in the order in which
/// they are held.
pub open spec fn without_note(held: Seq<NoteEvent>, note: u8) -> Seq<NoteEvent> {
    held.filter(lacks_note(note))
}

/// Parts the held notes into those of another pitch than `note` and those
/// of pitch `note`, each in the order in which they are held.
pub fn split_by_note(held: &Vec<NoteEvent>, note: u8) -> (parts: (Vec<NoteEvent>, Vec<NoteEvent>))
    ensures
        parts.0@ == without_note(held@, note),
        parts.1@ == with_note(held@, note),
{
    let mut kept: Vec<NoteEvent> = Vec::new();
    let mut removed: Vec<NoteEvent> = Vec::new();
    let mut at: usize = 0;
    proof {
        reveal(Seq::filter);
    }
    while at < held.len()
        invariant
            at <= held.len(),
            kept@ == without_note(held@.take(at as int), note),
            removed@ == with_note(held@.take(at as int), note),
        decreases held.len() - at,
    {
        let entry: NoteEvent = held[at];
        proof {
            held@.lemma_take_succ_push(at as int);
            held@.take(at as int).lemma_filter_push(entry, has_note(note));
            held@.take(at as int).lemma_filter_push(entry, lacks_note(note));
        }
        if entry.note != note {
            kept.push(entry);
        } else {
            removed.push(entry);
        }
        at += 1;
    }
    proof {
        held@.lemma_take_len();
    }
    (kept, removed)
}

/// A copy of the held notes.
pub fn copy_notes(held: &Vec<NoteEvent>) -> (copy: Vec<NoteEvent>)
    ensures
        copy@ == held@,
{
    let mut copy: Vec<NoteEvent> = Vec::new();
    let mut at: usize = 0;
    while at < held.len()
        invariant
            at <= held.len(),
            copy@ == held@.take(at as int),
        decreases held.len() - at,
    {
        copy.push(held[at]);
        at += 1;
    }
    proof {
        held@.lemma_take_len();
    }
    copy
}

/// No note of pitch `note` is left among the notes of other pitches, and
/// none of another pitch among those of pitch `note`.
pub proof fn lemma_split_is_clean(held: Seq<NoteEvent>, note: u8)
    ensures
        with_note(without_note(held, note), note) == Seq::<NoteEvent>::empty(),
        forall|other: u8|
            other != note ==> #[trigger] with_note(with_note(held, note), other) == Seq::<
                NoteEvent,
            >::empty(),
        forall|other: u8|
            other != note ==> #[trigger] with_note(without_note(held, note), other) == with_note(
                held,
                other,
            ),
        with_note(with_note(held, note), note) == with_note(held, note),
    decreases held.len(),
{
    reveal(Seq::filter);
    if held.len() > 0 {
        let front = held.drop_last();
        let last = held.last();
        lemma_split_is_clean(front, note);
        front.lemma_filter_push(last, has_note(note));
        front.lemma_filter_push(last, lacks_note(note));
        without_note(front, note).lemma_filter_push(last, has_note(note));
        with_note(front, note).lemma_filter_push(last, has_note(note));
        assert forall|other: u8| other != note implies #[trigger] with_note(
            with_note(held, note),
            other,
        ) == Seq::<NoteEvent>::empty() by {
            with_note(front, note).lemma_filter_push(last, has_note(other));
            assert(with_note(with_note(front, note), other) == Seq::<NoteEvent>::empty());
        }
        assert forall|other: u8| other != note implies #[trigger] with_note(
            without_note(held, note),
            other,
        ) == with_note(held, other) by {
            without_note(front, note).lemma_filter_push(last, has_note(other));
            front.lemma_filter_push(last, has_note(other));
            assert(with_note(without_note(front, note), other) == with_note(front, other));
        }
    }
}

} // verus!
