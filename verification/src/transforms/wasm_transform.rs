//! The script stage, as far as the pipeline sees it: its options, and the
//! four numbers by which an event goes to a script and comes back from it.
//! Running the script is left to the program that hosts the pipeline.

use vstd::prelude::*;

use crate::midi_event::{Controller, MIDIEvent, NoteEvent};

verus! {

#[derive(Debug)]
pub struct WasmTransformOptions {
    /// Where the script is.
    pub path: String,
    /// How many base ticks of the clock make one tick of the script.
    pub subdivision: u64,
}

/// The code of a note-on.
pub const NOTE_ON_CODE: i32 = 0;

/// The code of a note-off.
pub const NOTE_OFF_CODE: i32 = 1;

/// The code of a controller change.
pub const CONTROLLER_CODE: i32 = 3;

/// A number from a script as a byte: itself where it is one, 0 otherwise.
pub open spec fn byte_of(value: i32) -> u8 {
    if 0 <= value <= 255 {
        value as u8
    } else {
        0
    }
}

/// The event that four numbers from a script stand for: a code, and the
/// three fields. A note-off has velocity 0 whatever the last number is.
/// Other codes stand for no event.
pub open spec fn event_of_values(m: i32, v1: i32, v2: i32, v3: i32) -> Option<MIDIEvent> {
    if m == NOTE_ON_CODE {
        Some(
            MIDIEvent::NoteOn(
                NoteEvent { channel: byte_of(v1), note: byte_of(v2), velocity: byte_of(v3) },
            ),
        )
    } else if m == NOTE_OFF_CODE {
        Some(MIDIEvent::NoteOff(NoteEvent { channel: byte_of(v1), note: byte_of(v2), velocity: 0 }))
    } else if m == CONTROLLER_CODE {
        Some(
            MIDIEvent::Controller(
                Controller { channel: byte_of(v1), controller: byte_of(v2), value: byte_of(v3) },
            ),
        )
    } else {
        None
    }
}

/// Whether an event can be handed to a script: notes and controller changes
/// can.
pub open spec fn has_values(event: MIDIEvent) -> bool {
    event is NoteOn || event is NoteOff || event is Controller
}

/// The four numbers that stand for an event: its code and its three fields.
pub open spec fn values_of_event(event: MIDIEvent) -> Seq<i32> {
    match event {
        MIDIEvent::NoteOff(note) => seq![
            NOTE_OFF_CODE,
            note.channel as i32,
            note.note as i32,
            note.velocity as i32,
        ],
        MIDIEvent::NoteOn(note) => seq![
            NOTE_ON_CODE,
            note.channel as i32,
            note.note as i32,
            note.velocity as i32,
        ],
        MIDIEvent::Controller(change) => seq![
            CONTROLLER_CODE,
            change.channel as i32,
            change.controller as i32,
            change.value as i32,
        ],
        _ => Seq::empty(),
    }
}

fn to_byte(value: i32) -> (byte: u8)
    ensures
        byte == byte_of(value),
{
    if 0 <= value && value <= 255 {
        value as u8
    } else {
        0
    }
}

/// Reads an event from the four numbers that a script hands over.
pub fn values_to_midi_event(m: i32, v1: i32, v2: i32, v3: i32) -> (event: Option<MIDIEvent>)
    ensures
        event == event_of_values(m, v1, v2, v3),
{
    let local_v1: u8 = to_byte(v1);
    let local_v2: u8 = to_byte(v2);
    let local_v3: u8 = to_byte(v3);
    if m == NOTE_ON_CODE {
        Some(MIDIEvent::NoteOn(NoteEvent { channel: local_v1, note: local_v2, velocity: local_v3 }))
    } else if m == NOTE_OFF_CODE {
        Some(MIDIEvent::NoteOff(NoteEvent { channel: local_v1, note: local_v2, velocity: 0 }))
    } else if m == CONTROLLER_CODE {
        Some(
            MIDIEvent::Controller(
                Controller { channel: local_v1, controller: local_v2, value: local_v3 },
            ),
        )
    } else {
        None
    }
}

/// Writes a note or a controller change as the four numbers that a script
/// takes.
pub fn midi_event_to_values(m: MIDIEvent) -> (values: [i32; 4])
    requires
        has_values(m),
    ensures
        values@ == values_of_event(m),
{
    let values: [i32; 4] = match m {
        MIDIEvent::NoteOff(note) => [
            NOTE_OFF_CODE,
            note.channel as i32,
            note.note as i32,
            note.velocity as i32,
        ],
        MIDIEvent::NoteOn(note) => [
            NOTE_ON_CODE,
            note.channel as i32,
            note.note as i32,
            note.velocity as i32,
        ],
        MIDIEvent::Controller(change) => [
            CONTROLLER_CODE,
            change.channel as i32,
            change.controller as i32,
            change.value as i32,
        ],
        _ => [0, 0, 0, 0],
    };
    values
}

/// A note-on or a controller change that went to a script as four numbers
/// comes back from them as it was; a note-off comes back with velocity 0.
pub proof fn lemma_values_round_trip(event: MIDIEvent)
    requires
        has_values(event),
    ensures
        ({
            let values = values_of_event(event);
            event_of_values(values[0], values[1], values[2], values[3]) == Some(
                match event {
                    MIDIEvent::NoteOff(note) => MIDIEvent::NoteOff(note.released()),
                    other => other,
                },
            )
        }),
{
}

} // verus!
