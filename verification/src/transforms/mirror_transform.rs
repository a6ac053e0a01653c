//! Copies every event onto each channel of a list.

use vstd::prelude::*;

use super::transform::{Step, Transform};
use crate::midi_event::{MIDIRouterEvent, RouterEventView};
use crate::scheduler::{ScheduledView, SchedulerHandler};

verus! {

#[derive(Debug)]
pub struct MirrorTransformOptions {
    pub channels: Option<Vec<u8>>,
}

pub struct MirrorTransform {
    channels: Vec<u8>,
}

/// The channels of a mirror.
pub struct MirrorModel {
    pub channels: Seq<u8>,
}

/// The request to emit `message` at once on `channel`.
pub open spec fn copy_on(message: RouterEventView) -> spec_fn(u8) -> ScheduledView {
    |channel: u8|
        ScheduledView::Now(
            RouterEventView { device: message.device, event: message.event.with_channel(channel) },
        )
}

impl MirrorTransformOptions {
    /// The channels asked for: none where the list is left out.
    pub open spec fn model(self) -> MirrorModel {
        MirrorModel {
            channels: match self.channels {
                Some(channels) => channels@,
                None => Seq::empty(),
            },
        }
    }
}

impl MirrorTransform {
    pub fn from_config(options: MirrorTransformOptions) -> (transform: Self)
        ensures
            transform.model() == options.model(),
    {
        Self {
            channels: match options.channels {
                Some(channels) => channels,
                None => Vec::new(),
            },
        }
    }
}

impl Transform for MirrorTransform {
    type Model = MirrorModel;

    closed spec fn model(&self) -> MirrorModel {
        MirrorModel { channels: self.channels@ }
    }

    open spec fn wf(state: MirrorModel) -> bool {
        true
    }

    open spec fn tempo_subdiv(state: MirrorModel) -> Option<u64> {
        None
    }

    open spec fn tick(state: MirrorModel) -> Step<MirrorModel> {
        Step::silent(state)
    }

    /// One copy of the event for each channel of the list, in the order of
    /// the list, each to be emitted at once; the event itself is not handed
    /// on. A realtime event has no channel and is not copied.
    open spec fn message(state: MirrorModel, message: RouterEventView) -> Step<MirrorModel> {
        Step {
            state,
            output: None,
            sent: if message.event.realtime() {
                Seq::empty()
            } else {
                state.channels.map_values(copy_on(message))
            },
        }
    }

    fn get_tempo_subdiv(&self) -> (period: Option<u64>) {
        None
    }

    fn on_tick(&mut self, scheduler: &mut SchedulerHandler) -> (output: Option<MIDIRouterEvent>) {
        None
    }

    fn on_message(&mut self, message: MIDIRouterEvent, scheduler: &mut SchedulerHandler) -> (output:
        Option<MIDIRouterEvent>) {
        if message.event.is_realtime() {
            return None;
        }
        let mut at: usize = 0;
        while at < self.channels.len()
            invariant
                at <= self.channels.len(),
                !message.event.realtime(),
                scheduler@ == old(scheduler)@ + self.channels@.take(at as int).map_values(
                    copy_on(message@),
                ),
            decreases self.channels.len() - at,
        {
            let channel: u8 = self.channels[at];
            let mut current = message.clone();
            current.event.set_channel(channel);
            proof {
                self.channels@.lemma_take_succ_push(at as int);
                self.channels@.take(at as int).lemma_push_map_commute(copy_on(message@), channel);
            }
            scheduler.send_now(current);
            at += 1;
        }
        proof {
            self.channels@.lemma_take_len();
        }
        None
    }
}

} // verus!
