//! The MIDI event model and the binary codec for channel-voice and
//! system-realtime messages.

use vstd::prelude::*;
use vstd::string::StringExecFns;

pub mod round_trip;
pub mod utils;

use self::utils::{be_u7, be_u8, DecodeError};

verus! {

/// A value that has a canonical MIDI byte form.
pub trait ToMidi {
    /// Whether every field lies in the range that the byte form can carry.
    spec fn encodable(&self) -> bool;

    /// The canonical bytes of the value.
    spec fn wire(&self) -> Seq<u8>;

    fn to_midi(&self) -> (bytes: Vec<u8>)
        requires
            self.encodable(),
        ensures
            bytes@ == self.wire(),
    ;
}

/// A value that can be turned into a router event of the router's own.
pub trait Wrap: Sized {
    /// The router event that `wrap` gives.
    spec fn wrapped(self) -> RouterEventView;

    fn wrap(self) -> (event: MIDIRouterEvent)
        ensures
            event@ == self.wrapped(),
    ;
}

#[derive(Debug, Clone, Copy, PartialEq, Eq, Structural)]
pub struct NoteEvent {
    pub channel: u8,
    pub note: u8,
    pub velocity: u8,
}

impl NoteEvent {
    pub open spec fn valid(&self) -> bool {
        self.channel < 16 && self.note < 128 && self.velocity < 128
    }

    /// The same note with velocity 0.
    pub open spec fn released(self) -> NoteEvent {
        NoteEvent { channel: self.channel, note: self.note, velocity: 0 }
    }

    /// The event that this note stands for: a note-off when the velocity is
    /// 0, a note-on otherwise.
    pub open spec fn as_event(self) -> MIDIEvent {
        if self.velocity == 0 {
            MIDIEvent::NoteOff(self)
        } else {
            MIDIEvent::NoteOn(self)
        }
    }

    pub fn get_note_off(&self) -> (off: NoteEvent)
        ensures
            off == self.released(),
    {
        NoteEvent { channel: self.channel, note: self.note, velocity: 0 }
    }
}

impl ToMidi for NoteEvent {
    open spec fn encodable(&self) -> bool {
        self.valid()
    }

    /// A note with velocity 0 is written as a note-off.
    open spec fn wire(&self) -> Seq<u8> {
        if self.velocity == 0 {
            seq![(0x80 + self.channel) as u8, self.note, self.velocity]
        } else {
            seq![(0x90 + self.channel) as u8, self.note, self.velocity]
        }
    }

    fn to_midi(&self) -> (bytes: Vec<u8>) {
        let status: u8 = if self.velocity == 0 {
            0x80 + self.channel
        } else {
            0x90 + self.channel
        };
        let bytes = vec![status, self.note, self.velocity];
        bytes
    }
}

impl Wrap for NoteEvent {
    open spec fn wrapped(self) -> RouterEventView {
        RouterEventView { device: "self"@, event: self.as_event() }
    }

    fn wrap(self) -> (event: MIDIRouterEvent) {
        MIDIRouterEvent {
            device: "self".to_owned(),
            event: if self.velocity == 0 {
                MIDIEvent::NoteOff(self)
            } else {
                MIDIEvent::NoteOn(self)
            },
        }
    }
}

#[derive(Debug, Clone, Copy, PartialEq, Eq, Structural)]
pub struct PolyphonicPressure {
    pub channel: u8,
    pub note: u8,
    pub pressure: u8,
}

impl PolyphonicPressure {
    pub open spec fn valid(&self) -> bool {
        self.channel < 16 && self.note < 128 && self.pressure < 128
    }
}

impl ToMidi for PolyphonicPressure {
    open spec fn encodable(&self) -> bool {
        self.valid()
    }

    open spec fn wire(&self) -> Seq<u8> {
        seq![(0xA0 + self.channel) as u8, self.note, self.pressure]
    }

    fn to_midi(&self) -> (bytes: Vec<u8>) {
        let bytes = vec![0xA0 + self.channel, self.note, self.pressure];
        bytes
    }
}

#[derive(Debug, Clone, Copy, PartialEq, Eq, Structural)]
pub struct Controller {
    pub channel: u8,
    pub controller: u8,
    pub value: u8,
}

impl Controller {
    pub open spec fn valid(&self) -> bool {
        self.channel < 16 && self.controller < 128 && self.value < 128
    }
}

impl ToMidi for Controller {
    open spec fn encodable(&self) -> bool {
        self.valid()
    }

    open spec fn wire(&self) -> Seq<u8> {
        seq![(0xB0 + self.channel) as u8, self.controller, self.value]
    }

    fn to_midi(&self) -> (bytes: Vec<u8>) {
        let bytes = vec![0xB0 + self.channel, self.controller, self.value];
        bytes
    }
}

#[derive(Debug, Clone, Copy, PartialEq, Eq, Structural)]
pub struct ProgramChange {
    pub channel: u8,
    pub program: u8,
}

impl ProgramChange {
    pub open spec fn valid(&self) -> bool {
        self.channel < 16 && self.program < 128
    }
}

impl ToMidi for ProgramChange {
    open spec fn encodable(&self) -> bool {
        self.valid()
    }

    open spec fn wire(&self) -> Seq<u8> {
        seq![(0xC0 + self.channel) as u8, self.program]
    }

    fn to_midi(&self) -> (bytes: Vec<u8>) {
        let bytes = vec![0xC0 + self.channel, self.program];
        bytes
    }
}

#[derive(Debug, Clone, Copy, PartialEq, Eq, Structural)]
pub struct ChannelPressure {
    pub channel: u8,
    pub pressure: u8,
}

impl ChannelPressure {
    pub open spec fn valid(&self) -> bool {
        self.channel < 16 && self.pressure < 128
    }
}

impl ToMidi for ChannelPressure {
    open spec fn encodable(&self) -> bool {
        self.valid()
    }

    open spec fn wire(&self) -> Seq<u8> {
        seq![(0xD0 + self.channel) as u8, self.pressure]
    }

    fn to_midi(&self) -> (bytes: Vec<u8>) {
        let bytes = vec![0xD0 + self.channel, self.pressure];
        bytes
    }
}

#[derive(Debug, Clone, Copy, PartialEq, Eq, Structural)]
pub struct PitchBend {
    pub channel: u8,
    pub lsb: u8,
    pub msb: u8,
}

impl PitchBend {
    pub open spec fn valid(&self) -> bool {
        self.channel < 16 && self.lsb < 128 && self.msb < 128
    }
}

impl ToMidi for PitchBend {
    open spec fn encodable(&self) -> bool {
        self.valid()
    }

    open spec fn wire(&self) -> Seq<u8> {
        seq![(0xE0 + self.channel) as u8, self.lsb, self.msb]
    }

    fn to_midi(&self) -> (bytes: Vec<u8>) {
        let bytes = vec![0xE0 + self.channel, self.lsb, self.msb];
        bytes
    }
}

/// A MIDI event: seven channel-voice messages and five system-realtime
/// messages, which carry no channel.
#[derive(Debug, Clone, Copy, PartialEq, Eq, Structural)]
pub enum MIDIEvent {
    NoteOff(NoteEvent),
    NoteOn(NoteEvent),
    PolyphonicPressure(PolyphonicPressure),
    Controller(Controller),
    ChannelPressure(ChannelPressure),
    ProgramChange(ProgramChange),
    PitchBend(PitchBend),
    TimingClock,
    PlaybackStart,
    PlaybackStop,
    PlaybackContinue,
    /// The song position, a 14-bit count.
    PlaybackPosition(u16),
}

/// The kind of an event, without its fields.
#[derive(Debug, Clone, Copy, PartialEq, Eq, Structural)]
pub enum MIDIEventIdentity {
    NoteOff,
    NoteOn,
    PolyphonicPressure,
    Controller,
    ChannelPressure,
    ProgramChange,
    PitchBend,
    TimingClock,
    PlaybackStart,
    PlaybackStop,
    PlaybackContinue,
    PlaybackPosition,
}

impl MIDIEvent {
    pub open spec fn valid(self) -> bool {
        match self {
            MIDIEvent::NoteOff(v) => v.valid(),
            MIDIEvent::NoteOn(v) => v.valid(),
            MIDIEvent::PolyphonicPressure(v) => v.valid(),
            MIDIEvent::Controller(v) => v.valid(),
            MIDIEvent::ChannelPressure(v) => v.valid(),
            MIDIEvent::ProgramChange(v) => v.valid(),
            MIDIEvent::PitchBend(v) => v.valid(),
            MIDIEvent::PlaybackPosition(position) => position < 0x4000,
            _ => true,
        }
    }

    pub open spec fn identity(self) -> MIDIEventIdentity {
        match self {
            MIDIEvent::NoteOff(_) => MIDIEventIdentity::NoteOff,
            MIDIEvent::NoteOn(_) => MIDIEventIdentity::NoteOn,
            MIDIEvent::PolyphonicPressure(_) => MIDIEventIdentity::PolyphonicPressure,
            MIDIEvent::Controller(_) => MIDIEventIdentity::Controller,
            MIDIEvent::ChannelPressure(_) => MIDIEventIdentity::ChannelPressure,
            MIDIEvent::ProgramChange(_) => MIDIEventIdentity::ProgramChange,
            MIDIEvent::PitchBend(_) => MIDIEventIdentity::PitchBend,
            MIDIEvent::TimingClock => MIDIEventIdentity::TimingClock,
            MIDIEvent::PlaybackStart => MIDIEventIdentity::PlaybackStart,
            MIDIEvent::PlaybackStop => MIDIEventIdentity::PlaybackStop,
            MIDIEvent::PlaybackContinue => MIDIEventIdentity::PlaybackContinue,
            MIDIEvent::PlaybackPosition(_) => MIDIEventIdentity::PlaybackPosition,
        }
    }

    /// The five system-realtime messages.
    pub open spec fn realtime(self) -> bool {
        match self {
            MIDIEvent::TimingClock
            | MIDIEvent::PlaybackStart
            | MIDIEvent::PlaybackStop
            | MIDIEvent::PlaybackContinue
            | MIDIEvent::PlaybackPosition(_) => true,
            _ => false,
        }
    }

    /// The channel of a channel-voice message; a realtime message has none.
    pub open spec fn channel(self) -> Option<u8> {
        match self {
            MIDIEvent::NoteOff(v) => Some(v.channel),
            MIDIEvent::NoteOn(v) => Some(v.channel),
            MIDIEvent::PolyphonicPressure(v) => Some(v.channel),
            MIDIEvent::Controller(v) => Some(v.channel),
            MIDIEvent::ChannelPressure(v) => Some(v.channel),
            MIDIEvent::ProgramChange(v) => Some(v.channel),
            MIDIEvent::PitchBend(v) => Some(v.channel),
            _ => None,
        }
    }

    /// The event with its channel replaced; a realtime message stays as it is.
    pub open spec fn with_channel(self, channel: u8) -> MIDIEvent {
        match self {
            MIDIEvent::NoteOff(v) => MIDIEvent::NoteOff(NoteEvent { channel, ..v }),
            MIDIEvent::NoteOn(v) => MIDIEvent::NoteOn(NoteEvent { channel, ..v }),
            MIDIEvent::PolyphonicPressure(v) => MIDIEvent::PolyphonicPressure(
                PolyphonicPressure { channel, ..v },
            ),
            MIDIEvent::Controller(v) => MIDIEvent::Controller(Controller { channel, ..v }),
            MIDIEvent::ChannelPressure(v) => MIDIEvent::ChannelPressure(
                ChannelPressure { channel, ..v },
            ),
            MIDIEvent::ProgramChange(v) => MIDIEvent::ProgramChange(
                ProgramChange { channel, ..v },
            ),
            MIDIEvent::PitchBend(v) => MIDIEvent::PitchBend(PitchBend { channel, ..v }),
            other => other,
        }
    }

    /// What an event becomes when it is written and read back: a note-on
    /// with velocity 0 is a note-off, and every other event is itself.
    pub open spec fn canonical(self) -> MIDIEvent {
        match self {
            MIDIEvent::NoteOn(v) => v.as_event(),
            other => other,
        }
    }

    pub fn get_identity(&self) -> (identity: MIDIEventIdentity)
        ensures
            identity == self.identity(),
    {
        match self {
            MIDIEvent::NoteOff(_) => MIDIEventIdentity::NoteOff,
            MIDIEvent::NoteOn(_) => MIDIEventIdentity::NoteOn,
            MIDIEvent::PolyphonicPressure(_) => MIDIEventIdentity::PolyphonicPressure,
            MIDIEvent::Controller(_) => MIDIEventIdentity::Controller,
            MIDIEvent::ChannelPressure(_) => MIDIEventIdentity::ChannelPressure,
            MIDIEvent::ProgramChange(_) => MIDIEventIdentity::ProgramChange,
            MIDIEvent::PitchBend(_) => MIDIEventIdentity::PitchBend,
            MIDIEvent::TimingClock => MIDIEventIdentity::TimingClock,
            MIDIEvent::PlaybackStart => MIDIEventIdentity::PlaybackStart,
            MIDIEvent::PlaybackStop => MIDIEventIdentity::PlaybackStop,
            MIDIEvent::PlaybackContinue => MIDIEventIdentity::PlaybackContinue,
            MIDIEvent::PlaybackPosition(_) => MIDIEventIdentity::PlaybackPosition,
        }
    }

    pub fn is_realtime(&self) -> (realtime: bool)
        ensures
            realtime == self.realtime(),
    {
        match self {
            MIDIEvent::TimingClock
            | MIDIEvent::PlaybackStart
            | MIDIEvent::PlaybackStop
            | MIDIEvent::PlaybackContinue
            | MIDIEvent::PlaybackPosition(_) => true,
            _ => false,
        }
    }

    pub fn is_valid(&self) -> (valid: bool)
        ensures
            valid == self.valid(),
    {
        match self {
            MIDIEvent::NoteOff(v) => v.channel < 16 && v.note < 128 && v.velocity < 128,
            MIDIEvent::NoteOn(v) => v.channel < 16 && v.note < 128 && v.velocity < 128,
            MIDIEvent::PolyphonicPressure(v) => v.channel < 16 && v.note < 128 && v.pressure < 128,
            MIDIEvent::Controller(v) => v.channel < 16 && v.controller < 128 && v.value < 128,
            MIDIEvent::ChannelPressure(v) => v.channel < 16 && v.pressure < 128,
            MIDIEvent::ProgramChange(v) => v.channel < 16 && v.program < 128,
            MIDIEvent::PitchBend(v) => v.channel < 16 && v.lsb < 128 && v.msb < 128,
            MIDIEvent::PlaybackPosition(position) => *position < 0x4000,
            _ => true,
        }
    }

    /// The channel of a channel-voice message, and `None` for a realtime
    /// message, which has none.
    pub fn channel_of(&self) -> (channel: Option<u8>)
        ensures
            channel == self.channel(),
    {
        match self {
            MIDIEvent::NoteOn(note) => Some(note.channel),
            MIDIEvent::NoteOff(v) => Some(v.channel),
            MIDIEvent::PolyphonicPressure(v) => Some(v.channel),
            MIDIEvent::Controller(v) => Some(v.channel),
            MIDIEvent::ChannelPressure(v) => Some(v.channel),
            MIDIEvent::ProgramChange(v) => Some(v.channel),
            MIDIEvent::PitchBend(v) => Some(v.channel),
            _ => None,
        }
    }

    /// The channel of a channel-voice message. For an event that may be a
    /// realtime message there is `channel_of`.
    pub fn get_channel(&self) -> (channel: u8)
        requires
            !self.realtime(),
        ensures
            self.channel() == Some(channel),
    {
        match self {
            MIDIEvent::NoteOn(note) => note.channel,
            MIDIEvent::NoteOff(v) => v.channel,
            MIDIEvent::PolyphonicPressure(v) => v.channel,
            MIDIEvent::Controller(v) => v.channel,
            MIDIEvent::ChannelPressure(v) => v.channel,
            MIDIEvent::ProgramChange(v) => v.channel,
            MIDIEvent::PitchBend(v) => v.channel,
            _ => 0,
        }
    }

    /// Replaces the channel of a channel-voice message.
    pub fn set_channel(&mut self, new_channel: u8)
        requires
            !old(self).realtime(),
        ensures
            *final(self) == old(self).with_channel(new_channel),
    {
        match self {
            MIDIEvent::NoteOn(note) => note.channel = new_channel,
            MIDIEvent::NoteOff(v) => v.channel = new_channel,
            MIDIEvent::PolyphonicPressure(v) => v.channel = new_channel,
            MIDIEvent::Controller(v) => v.channel = new_channel,
            MIDIEvent::ChannelPressure(v) => v.channel = new_channel,
            MIDIEvent::ProgramChange(v) => v.channel = new_channel,
            MIDIEvent::PitchBend(v) => v.channel = new_channel,
            _ => {},
        }
    }

    /// Reads the first event of a buffer, dropping the count of bytes read.
    pub fn try_from(i: &[u8]) -> (r: Result<MIDIEvent, ()>)
        ensures
            match r {
                Ok(event) => decode(i@) matches Ok(found) && found.0 == event,
                Err(_) => decode(i@) is Err,
            },
    {
        match parse_midi_event(i) {
            Ok((event, _)) => Ok(event),
            Err(_) => Err(()),
        }
    }
}

impl ToMidi for MIDIEvent {
    open spec fn encodable(&self) -> bool {
        self.valid()
    }

    /// The status byte, then the data fields in their order. A note-off
    /// has the status of a note-off whatever its velocity, and keeps the
    /// velocity.
    open spec fn wire(&self) -> Seq<u8> {
        match *self {
            MIDIEvent::NoteOff(v) => seq![(0x80 + v.channel) as u8, v.note, v.velocity],
            MIDIEvent::NoteOn(v) => v.wire(),
            MIDIEvent::PolyphonicPressure(v) => v.wire(),
            MIDIEvent::Controller(v) => v.wire(),
            MIDIEvent::ChannelPressure(v) => v.wire(),
            MIDIEvent::ProgramChange(v) => v.wire(),
            MIDIEvent::PitchBend(v) => v.wire(),
            MIDIEvent::TimingClock => seq![0xF8u8],
            MIDIEvent::PlaybackStart => seq![0xFAu8],
            MIDIEvent::PlaybackContinue => seq![0xFBu8],
            MIDIEvent::PlaybackStop => seq![0xFCu8],
            MIDIEvent::PlaybackPosition(position) => seq![
                0xF2u8,
                (position % 128) as u8,
                (position / 128) as u8,
            ],
        }
    }

    fn to_midi(&self) -> (bytes: Vec<u8>) {
        match self {
            MIDIEvent::NoteOff(v) => vec![0x80 + v.channel, v.note, v.velocity],
            MIDIEvent::NoteOn(v) => v.to_midi(),
            MIDIEvent::PolyphonicPressure(v) => v.to_midi(),
            MIDIEvent::Controller(v) => v.to_midi(),
            MIDIEvent::ChannelPressure(v) => v.to_midi(),
            MIDIEvent::ProgramChange(v) => v.to_midi(),
            MIDIEvent::PitchBend(v) => v.to_midi(),
            MIDIEvent::TimingClock => {
                let bytes = vec![0xF8u8];
                bytes
            },
            MIDIEvent::PlaybackStart => {
                let bytes = vec![0xFAu8];
                bytes
            },
            MIDIEvent::PlaybackContinue => {
                let bytes = vec![0xFBu8];
                bytes
            },
            MIDIEvent::PlaybackStop => {
                let bytes = vec![0xFCu8];
                bytes
            },
            MIDIEvent::PlaybackPosition(position) => {
                let p: u16 = *position;
                let lsb: u8 = (p & 0x7F) as u8;
                let msb: u8 = (p >> 7) as u8;
                assert(p & 0x7F == p % 128 && p >> 7 == p / 128 && p >> 7 < 128) by (bit_vector)
                    requires
                        p < 0x4000,
                ;
                let bytes = vec![0xF2u8, lsb, msb];
                bytes
            },
        }
    }
}

/// An event together with the alias of the device it came from or goes to.
#[derive(Debug, PartialEq, Eq)]
pub struct MIDIRouterEvent {
    pub device: String,
    pub event: MIDIEvent,
}

/// A router event as contracts see it: the device alias as a sequence of
/// characters.
pub struct RouterEventView {
    pub device: Seq<char>,
    pub event: MIDIEvent,
}

impl View for MIDIRouterEvent {
    type V = RouterEventView;

    open spec fn view(&self) -> RouterEventView {
        RouterEventView { device: self.device@, event: self.event }
    }
}

/// The text of an event as `Debug` writes it.
pub uninterp spec fn debug_text(event: MIDIEvent) -> Seq<char>;

/// Calls std's `format!` with `{:?}` on an event, which writes it through
/// the `Debug` that is derived for `MIDIEvent`. Taken on trust: the text is
/// a function of the event alone, the one that `debug_text` names. What
/// the text reads is not claimed.
#[verifier::external_body]
fn format_event(event: &MIDIEvent) -> (text: String)
    ensures
        text@ == debug_text(*event),
{
    format!("{:?}", event)
}

impl RouterEventView {
    /// The text of a router event: the device in square brackets, a space,
    /// and the event.
    pub open spec fn text(self) -> Seq<char> {
        "["@ + self.device + "] "@ + debug_text(self.event)
    }
}

impl MIDIRouterEvent {
    /// The event as a line of text.
    pub fn to_string(&self) -> (text: String)
        ensures
            text@ == self@.text(),
    {
        let mut text = String::from_str("[");
        text.append(self.device.as_str());
        text.append("] ");
        let event_text = format_event(&self.event);
        text.append(event_text.as_str());
        text
    }
}

impl Clone for MIDIRouterEvent {
    fn clone(&self) -> (copy: MIDIRouterEvent)
        ensures
            copy@ == self@,
    {
        MIDIRouterEvent { device: self.device.clone(), event: self.event }
    }
}

/// How many data bytes follow a status byte; `None` for a status that the
/// codec does not read (a data byte in status position, system exclusive and
/// the other system messages).
pub open spec fn data_bytes(status: u8) -> Option<nat> {
    if 0x80 <= status < 0xC0 || 0xE0 <= status < 0xF0 || status == 0xF2 {
        Some(2)
    } else if 0xC0 <= status < 0xE0 {
        Some(1)
    } else if status == 0xF8 || status == 0xFA || status == 0xFB || status == 0xFC {
        Some(0)
    } else {
        None
    }
}

/// What is wrong with the first `needed` data bytes of a message, read one
/// after the other: a byte that is missing, or one with its top bit set.
pub open spec fn data_fault(bytes: Seq<u8>, needed: nat) -> Option<DecodeError> {
    if needed == 0 {
        None
    } else if bytes.len() < 2 {
        Some(DecodeError::Incomplete)
    } else if bytes[1] > 127 {
        Some(DecodeError::DataByteTooLarge)
    } else if needed == 1 {
        None
    } else if bytes.len() < 3 {
        Some(DecodeError::Incomplete)
    } else if bytes[2] > 127 {
        Some(DecodeError::DataByteTooLarge)
    } else {
        None
    }
}

/// The event that a supported status byte and its data bytes stand for. The
/// high nibble of a channel-voice status is the kind, the low nibble the
/// channel.
pub open spec fn assemble(status: u8, first: u8, second: u8) -> MIDIEvent {
    let channel = (status % 16) as u8;
    if status == 0xF8 {
        MIDIEvent::TimingClock
    } else if status == 0xFA {
        MIDIEvent::PlaybackStart
    } else if status == 0xFB {
        MIDIEvent::PlaybackContinue
    } else if status == 0xFC {
        MIDIEvent::PlaybackStop
    } else if status == 0xF2 {
        MIDIEvent::PlaybackPosition((first + second * 128) as u16)
    } else if status / 16 == 0x8 {
        MIDIEvent::NoteOff(NoteEvent { channel, note: first, velocity: second })
    } else if status / 16 == 0x9 {
        MIDIEvent::NoteOn(NoteEvent { channel, note: first, velocity: second })
    } else if status / 16 == 0xA {
        MIDIEvent::PolyphonicPressure(PolyphonicPressure { channel, note: first, pressure: second })
    } else if status / 16 == 0xB {
        MIDIEvent::Controller(Controller { channel, controller: first, value: second })
    } else if status / 16 == 0xC {
        MIDIEvent::ProgramChange(ProgramChange { channel, program: first })
    } else if status / 16 == 0xD {
        MIDIEvent::ChannelPressure(ChannelPressure { channel, pressure: first })
    } else {
        MIDIEvent::PitchBend(PitchBend { channel, lsb: first, msb: second })
    }
}

/// The first event of a buffer and the number of bytes it takes, or why
/// there is none.
pub open spec fn decode(bytes: Seq<u8>) -> Result<(MIDIEvent, usize), DecodeError> {
    if bytes.len() == 0 {
        Err(DecodeError::Incomplete)
    } else {
        match data_bytes(bytes[0]) {
            None => Err(DecodeError::UnsupportedStatus),
            Some(needed) => match data_fault(bytes, needed) {
                Some(fault) => Err(fault),
                None => Ok(
                    (
                        assemble(
                            bytes[0],
                            if needed >= 1 {
                                bytes[1]
                            } else {
                                0
                            },
                            if needed >= 2 {
                                bytes[2]
                            } else {
                                0
                            },
                        ),
                        (1 + needed) as usize,
                    ),
                ),
            },
        }
    }
}

/// Reads the first event of a buffer. Gives the event and the number of
/// bytes read, or the reason why no event could be read. Data bytes are read
/// one after the other, so the first fault met is the one reported.
pub fn parse_midi_event(i: &[u8]) -> (r: Result<(MIDIEvent, usize), DecodeError>)
    ensures
        r == decode(i@),
{
    let (i1, code_chan) = be_u8(i)?;
    let event_type: u8 = code_chan >> 4;
    let channel: u8 = code_chan & 0x0F;
    assert(code_chan >> 4 == code_chan / 16 && code_chan & 0x0F == code_chan % 16) by (bit_vector);

    if code_chan == 0xF8 {
        return Ok((MIDIEvent::TimingClock, 1));
    }
    if code_chan == 0xFA {
        return Ok((MIDIEvent::PlaybackStart, 1));
    }
    if code_chan == 0xFB {
        return Ok((MIDIEvent::PlaybackContinue, 1));
    }
    if code_chan == 0xFC {
        return Ok((MIDIEvent::PlaybackStop, 1));
    }
    if code_chan == 0xF2 {
        let (i2, lsb) = be_u7(i1)?;
        let (_i3, msb) = be_u7(i2)?;
        let position: u16 = (lsb as u16) | ((msb as u16) << 7);
        assert((lsb as u16) | ((msb as u16) << 7) == lsb + msb * 128) by (bit_vector)
            requires
                lsb < 128,
                msb < 128,
        ;
        return Ok((MIDIEvent::PlaybackPosition(position), 3));
    }
    match event_type {
        0x8 => {
            let (i2, note_code) = be_u7(i1)?;
            let (_i3, velocity) = be_u7(i2)?;
            Ok((MIDIEvent::NoteOff(NoteEvent { channel, note: note_code, velocity }), 3))
        },
        0x9 => {
            let (i2, note_code) = be_u7(i1)?;
            let (_i3, velocity) = be_u7(i2)?;
            Ok((MIDIEvent::NoteOn(NoteEvent { channel, note: note_code, velocity }), 3))
        },
        0xA => {
            let (i2, note_code) = be_u7(i1)?;
            let (_i3, pressure) = be_u7(i2)?;
            Ok(
                (
                    MIDIEvent::PolyphonicPressure(
                        PolyphonicPressure { channel, note: note_code, pressure },
                    ),
                    3,
                ),
            )
        },
        0xB => {
            let (i2, controller) = be_u7(i1)?;
            let (_i3, value) = be_u7(i2)?;
            Ok((MIDIEvent::Controller(Controller { channel, controller, value }), 3))
        },
        0xC => {
            let (_i2, program) = be_u7(i1)?;
            Ok((MIDIEvent::ProgramChange(ProgramChange { channel, program }), 2))
        },
        0xD => {
            let (_i2, pressure) = be_u7(i1)?;
            Ok((MIDIEvent::ChannelPressure(ChannelPressure { channel, pressure }), 2))
        },
        0xE => {
            let (i2, lsb) = be_u7(i1)?;
            let (_i3, msb) = be_u7(i2)?;
            Ok((MIDIEvent::PitchBend(PitchBend { channel, lsb, msb }), 3))
        },
        _ => Err(DecodeError::UnsupportedStatus),
    }
}

} // verus!
