//! What holds between reading and writing events.

use vstd::prelude::*;

use super::utils::DecodeError;
use super::{data_bytes, decode, MIDIEvent, ToMidi};

verus! {

/// Whatever the codec reads is a valid event, and the count of bytes it
/// reports is the length of the buffer's message, which the buffer holds.
pub proof fn lemma_decoded_is_valid(bytes: Seq<u8>)
    requires
        decode(bytes) is Ok,
    ensures
        decode(bytes)->Ok_0.0.valid(),
        decode(bytes)->Ok_0.1 <= bytes.len(),
        decode(bytes)->Ok_0.1 == decode(bytes)->Ok_0.0.wire().len(),
{
}

/// Writing a valid event and reading the bytes back gives the canonical form
/// of the event, and reads all the bytes written.
pub proof fn lemma_write_then_read(event: MIDIEvent)
    requires
        event.valid(),
    ensures
        decode(event.wire()) == Ok::<(MIDIEvent, usize), DecodeError>(
            (event.canonical(), event.wire().len() as usize),
        ),
{
}

/// Round trip: an event that the codec has read, written and read again, is
/// the event itself, in every field. The one exception is a note-on with
/// velocity 0, which comes back as the note-off of the same channel, pitch
/// and velocity.
pub proof fn lemma_round_trip(bytes: Seq<u8>)
    requires
        decode(bytes) is Ok,
    ensures
        ({
            let event = decode(bytes)->Ok_0.0;
            &&& decode(event.wire()) is Ok
            &&& decode(event.wire())->Ok_0.0 == if event is NoteOn && event->NoteOn_0.velocity
                == 0 {
                MIDIEvent::NoteOff(event->NoteOn_0)
            } else {
                event
            }
            &&& decode(event.wire())->Ok_0.1 == decode(bytes)->Ok_0.1
        }),
{
    lemma_decoded_is_valid(bytes);
    lemma_write_then_read(decode(bytes)->Ok_0.0);
}

/// Writing back an event that the codec has read gives the bytes that were
/// read: the status byte, then the data bytes in their order. The one
/// exception is a note-on with velocity 0, which is written as a note-off.
pub proof fn lemma_read_then_write(bytes: Seq<u8>)
    requires
        decode(bytes) is Ok,
        !(decode(bytes)->Ok_0.0 is NoteOn && decode(bytes)->Ok_0.0->NoteOn_0.velocity == 0),
    ensures
        decode(bytes)->Ok_0.0.wire() == bytes.take(decode(bytes)->Ok_0.1 as int),
{
    let event = decode(bytes)->Ok_0.0;
    assert(event.wire() =~= bytes.take(decode(bytes)->Ok_0.1 as int));
}

/// A data byte of 128 or more, among those that the status byte asks for and
/// the buffer holds, makes the codec refuse the buffer for that reason.
pub proof fn lemma_large_data_byte_is_refused(bytes: Seq<u8>, at: int)
    requires
        bytes.len() > 0,
        data_bytes(bytes[0]) is Some,
        1 <= at <= data_bytes(bytes[0])->Some_0,
        at < bytes.len(),
        bytes[at] >= 128,
    ensures
        decode(bytes) == Err::<(MIDIEvent, usize), DecodeError>(DecodeError::DataByteTooLarge),
{
}

/// A message cut short, whose data bytes as far as they are there are all
/// below 128, is reported as incomplete.
pub proof fn lemma_truncated_is_incomplete(bytes: Seq<u8>)
    requires
        bytes.len() > 0,
        data_bytes(bytes[0]) is Some,
        bytes.len() < 1 + data_bytes(bytes[0])->Some_0,
        forall|at: int| 1 <= at < bytes.len() ==> bytes[at] < 128,
    ensures
        decode(bytes) == Err::<(MIDIEvent, usize), DecodeError>(DecodeError::Incomplete),
{
}

/// The codec looks at no byte behind the message it reads.
pub proof fn lemma_decode_reads_prefix(bytes: Seq<u8>, more: Seq<u8>)
    requires
        decode(bytes) is Ok,
    ensures
        decode(bytes + more) == decode(bytes),
{
}

} // verus!
