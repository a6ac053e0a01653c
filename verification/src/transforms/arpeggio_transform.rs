//! Plays the held notes one after the other, one at each tick.

use vstd::prelude::*;

use super::held_notes::{copy_notes, split_by_note, without_note};
use super::transform::{Step, Transform};
use crate::iter_utils::{Cycle, CycleDirection, CycleView};
use crate::midi_event::{MIDIEvent, MIDIRouterEvent, NoteEvent, RouterEventView, Wrap};
use crate::scheduler::{ScheduledView, SchedulerHandler};

verus! {

/// The length of a note where none is configured, in milliseconds.
pub const DEFAULT_NOTE_DURATION: u64 = 250;

#[derive(Debug)]
pub struct ArpeggioTransformOptions {
    /// How many base ticks of the clock lie between two notes.
    pub subdivision: u64,
    pub direction: CycleDirection,
    pub repeat: Option<u64>,
    /// The length of a note in milliseconds.
    pub note_duration: Option<u64>,
}

#[derive(Debug)]
pub struct ArpeggioTransform {
    tempo_subdiv: Option<u64>,
    pressed_keys: Vec<NoteEvent>,
    note_duration: u64,
    cycle_iter: Cycle<NoteEvent>,
}

/// The state of an arpeggio stage.
pub struct ArpeggioModel {
    pub tempo_subdiv: Option<u64>,
    /// The notes that are held, in the order in which they came.
    pub held: Seq<NoteEvent>,
    pub note_duration: u64,
    /// The cycle over the held notes.
    pub cycle: CycleView<NoteEvent>,
}

impl ArpeggioModel {
    /// The cycle runs over the held notes and is well-formed.
    pub open spec fn wf(self) -> bool {
        self.cycle.items == self.held && self.cycle.wf()
    }

    /// The state with other notes held: the cycle starts over on them.
    pub open spec fn holding(self, held: Seq<NoteEvent>) -> ArpeggioModel {
        ArpeggioModel { held, cycle: self.cycle.updated(held), ..self }
    }
}

impl ArpeggioTransformOptions {
    /// The stage that the options ask for, with no note held.
    pub open spec fn model(self) -> ArpeggioModel {
        ArpeggioModel {
            tempo_subdiv: Some(self.subdivision),
            held: Seq::empty(),
            note_duration: match self.note_duration {
                Some(duration) => duration,
                None => DEFAULT_NOTE_DURATION,
            },
            cycle: CycleView::fresh(Seq::empty(), self.direction, self.repeat),
        }
    }
}

impl ArpeggioTransform {
    pub fn from_config(config: ArpeggioTransformOptions) -> (transform: ArpeggioTransform)
        ensures
            transform.model() == config.model(),
            transform.model().wf(),
    {
        ArpeggioTransform {
            tempo_subdiv: Some(config.subdivision),
            pressed_keys: Vec::new(),
            note_duration: match config.note_duration {
                Some(duration) => duration,
                None => DEFAULT_NOTE_DURATION,
            },
            cycle_iter: Cycle::new(Vec::new(), config.direction, config.repeat),
        }
    }
}

impl Transform for ArpeggioTransform {
    type Model = ArpeggioModel;

    closed spec fn model(&self) -> ArpeggioModel {
        ArpeggioModel {
            tempo_subdiv: self.tempo_subdiv,
            held: self.pressed_keys@,
            note_duration: self.note_duration,
            cycle: self.cycle_iter@,
        }
    }

    open spec fn wf(state: ArpeggioModel) -> bool {
        state.wf()
    }

    open spec fn tempo_subdiv(state: ArpeggioModel) -> Option<u64> {
        state.tempo_subdiv
    }

    /// With no note held a tick does nothing. Otherwise the note under the
    /// play head is played: the note itself is to be emitted at once and its
    /// note-off after the note duration, and the play head moves on. Nothing
    /// is handed on.
    open spec fn tick(state: ArpeggioModel) -> Step<ArpeggioModel> {
        if state.held.len() == 0 {
            Step::silent(state)
        } else {
            Step {
                state: ArpeggioModel { cycle: state.cycle.after_next(), ..state },
                output: None,
                sent: seq![
                    ScheduledView::Now(state.cycle.current().wrapped()),
                    ScheduledView::Later(
                        state.cycle.current().released().wrapped(),
                        state.note_duration,
                    ),
                ],
            }
        }
    }

    /// A note-on is held, behind the notes held already. A note-off ends
    /// the holding of every note of its pitch. Either way the cycle starts
    /// over and nothing is handed on. Any other event goes on unchanged.
    open spec fn message(state: ArpeggioModel, message: RouterEventView) -> Step<ArpeggioModel> {
        match message.event {
            MIDIEvent::NoteOff(off) => Step::silent(
                state.holding(without_note(state.held, off.note)),
            ),
            MIDIEvent::NoteOn(note) => Step::silent(state.holding(state.held.push(note))),
            _ => Step::forward(state, message),
        }
    }

    fn get_tempo_subdiv(&self) -> (period: Option<u64>) {
        self.tempo_subdiv
    }

    fn on_tick(&mut self, scheduler: &mut SchedulerHandler) -> (output: Option<MIDIRouterEvent>) {
        if self.pressed_keys.len() == 0 {
            return None;
        }
        let note_on: NoteEvent = *self.cycle_iter.next();
        let note_off: NoteEvent = note_on.get_note_off();
        scheduler.send_now(note_on.wrap());
        scheduler.send_later(note_off.wrap(), self.note_duration);
        None
    }

    fn on_message(&mut self, message: MIDIRouterEvent, scheduler: &mut SchedulerHandler) -> (output:
        Option<MIDIRouterEvent>) {
        match message.event {
            MIDIEvent::NoteOff(off) => {
                let (kept, _removed) = split_by_note(&self.pressed_keys, off.note);
                self.cycle_iter.update_vec(copy_notes(&kept));
                self.pressed_keys = kept;
                None
            },
            MIDIEvent::NoteOn(note) => {
                let mut held = copy_notes(&self.pressed_keys);
                held.push(note);
                self.cycle_iter.update_vec(copy_notes(&held));
                self.pressed_keys = held;
                None
            },
            _ => Some(message),
        }
    }
}

/// At a tick with a note held, whose velocity is not 0, exactly two events
/// are asked for: the note-on of the note under the play head, at once, and
/// a note-off of the same channel and pitch, after the note duration.
pub proof fn lemma_tick_pairs_on_and_off(state: ArpeggioModel)
    requires
        state.wf(),
        state.held.len() > 0,
        state.cycle.current().velocity != 0,
    ensures
        ({
            let played = state.cycle.current();
            let sent = ArpeggioTransform::tick(state).sent;
            &&& state.held.contains(played)
            &&& sent.len() == 2
            &&& sent[0] == ScheduledView::Now(
                RouterEventView { device: "self"@, event: MIDIEvent::NoteOn(played) },
            )
            &&& sent[1] == ScheduledView::Later(
                RouterEventView {
                    device: "self"@,
                    event: MIDIEvent::NoteOff(
                        NoteEvent { channel: played.channel, note: played.note, velocity: 0 },
                    ),
                },
                state.note_duration,
            )
            &&& ArpeggioTransform::tick(state).output is None
        }),
{
}

} // verus!
