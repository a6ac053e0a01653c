//! Spreads note-ons over a list of channels, one after the other, and
//! answers each note-off with a note-off on every channel that a held note
//! of that pitch was sent to.

use vstd::prelude::*;

use super::held_notes::{split_by_note, with_note, without_note};
use super::transform::{Step, Transform};
use crate::iter_utils::{Cycle, CycleDirection, CycleView};
use crate::midi_event::{MIDIEvent, MIDIRouterEvent, NoteEvent, RouterEventView, Wrap};
use crate::scheduler::{ScheduledView, SchedulerHandler};

verus! {

#[derive(Debug)]
pub struct DistributeTransformOptions {
    pub between: Vec<u8>,
}

pub struct DistributeTransform {
    pressed_keys: Vec<NoteEvent>,
    between_iter: Cycle<u8>,
}

/// The state of a distribute stage.
pub struct DistributeModel {
    /// The notes that are held, each with the channel it was sent to, in
    /// the order in which they came.
    pub held: Seq<NoteEvent>,
    /// The channels to send to, and which of them is next.
    pub cycle: CycleView<u8>,
}

/// The request to emit the note-off of a held note at once.
pub open spec fn release() -> spec_fn(NoteEvent) -> ScheduledView {
    |held: NoteEvent| ScheduledView::Now(held.released().wrapped())
}

/// The requests to emit the note-offs of held notes at once, in their order.
pub open spec fn releases(held: Seq<NoteEvent>) -> Seq<ScheduledView> {
    held.map_values(release())
}

impl DistributeModel {
    /// There is a channel to send to, and the cycle over the channels is
    /// well-formed.
    pub open spec fn wf(self) -> bool {
        self.cycle.items.len() > 0 && self.cycle.wf()
    }

    /// The note as it is sent on: on the channel that is next.
    pub open spec fn assigned(self, note: NoteEvent) -> NoteEvent {
        NoteEvent { channel: self.cycle.current(), ..note }
    }
}

fn send_releases(removed: &Vec<NoteEvent>, scheduler: &mut SchedulerHandler)
    ensures
        final(scheduler)@ == old(scheduler)@ + releases(removed@),
{
    let mut at: usize = 0;
    while at < removed.len()
        invariant
            at <= removed.len(),
            scheduler@ == old(scheduler)@ + releases(removed@.take(at as int)),
        decreases removed.len() - at,
    {
        let held: NoteEvent = removed[at];
        proof {
            removed@.lemma_take_succ_push(at as int);
            removed@.take(at as int).lemma_push_map_commute(release(), held);
        }
        scheduler.send_now(held.get_note_off().wrap());
        at += 1;
    }
    proof {
        removed@.lemma_take_len();
    }
}

impl DistributeTransform {
    /// Makes the stage for a list of channels, which must not be empty.
    pub fn from_config(config: DistributeTransformOptions) -> (transform: Self)
        requires
            config.between.len() > 0,
        ensures
            transform.model() == (DistributeModel {
                held: Seq::empty(),
                cycle: CycleView::fresh(config.between@, CycleDirection::Forward, None),
            }),
            transform.model().wf(),
    {
        Self {
            between_iter: Cycle::new(config.between, CycleDirection::Forward, None),
            pressed_keys: Vec::new(),
        }
    }
}

impl Transform for DistributeTransform {
    type Model = DistributeModel;

    closed spec fn model(&self) -> DistributeModel {
        DistributeModel { held: self.pressed_keys@, cycle: self.between_iter@ }
    }

    open spec fn wf(state: DistributeModel) -> bool {
        state.wf()
    }

    open spec fn tempo_subdiv(state: DistributeModel) -> Option<u64> {
        None
    }

    open spec fn tick(state: DistributeModel) -> Step<DistributeModel> {
        Step::silent(state)
    }

    /// A note-on goes on, on the channel that is next, and is held with
    /// that channel. A note-off is not handed on: for each held note of its
    /// pitch a note-off on that note's channel is to be emitted at once, and
    /// those notes are held no longer. Any other event is dropped.
    open spec fn message(state: DistributeModel, message: RouterEventView) -> Step<
        DistributeModel,
    > {
        match message.event {
            MIDIEvent::NoteOn(note) => Step {
                state: DistributeModel {
                    held: state.held.push(state.assigned(note)),
                    cycle: state.cycle.after_next(),
                },
                output: Some(
                    RouterEventView {
                        device: message.device,
                        event: MIDIEvent::NoteOn(state.assigned(note)),
                    },
                ),
                sent: Seq::empty(),
            },
            MIDIEvent::NoteOff(off) => Step {
                state: DistributeModel { held: without_note(state.held, off.note), ..state },
                output: None,
                sent: releases(with_note(state.held, off.note)),
            },
            _ => Step::silent(state),
        }
    }

    fn get_tempo_subdiv(&self) -> (period: Option<u64>) {
        None
    }

    fn on_tick(&mut self, scheduler: &mut SchedulerHandler) -> (output: Option<MIDIRouterEvent>) {
        None
    }

    fn on_message(&mut self, message: MIDIRouterEvent, scheduler: &mut SchedulerHandler) -> (output:
        Option<MIDIRouterEvent>) {
        let mut message = message;
        match message.event {
            MIDIEvent::NoteOn(note) => {
                let channel: u8 = *self.between_iter.next();
                let assigned = NoteEvent { channel, note: note.note, velocity: note.velocity };
                self.pressed_keys.push(assigned);
                message.event = MIDIEvent::NoteOn(assigned);
                Some(message)
            },
            MIDIEvent::NoteOff(off) => {
                let (kept, removed) = split_by_note(&self.pressed_keys, off.note);
                send_releases(&removed, scheduler);
                self.pressed_keys = kept;
                None
            },
            _ => None,
        }
    }
}

} // verus!
