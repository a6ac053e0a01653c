//! Moves events from one channel to another, and controller changes from
//! one controller number to another.

use std::collections::HashMap;
use vstd::prelude::*;
use vstd::std_specs::hash::group_hash_axioms;

use super::transform::{Step, Transform};
use crate::midi_event::{Controller, MIDIEvent, MIDIRouterEvent, RouterEventView};
use crate::scheduler::SchedulerHandler;

verus! {

broadcast use group_hash_axioms;

#[derive(Debug)]
pub struct MapTransformOptions {
    pub channels: Option<Vec<(u8, u8)>>,
    pub cc: Option<Vec<(u8, u8)>>,
}

pub struct MapTransform {
    channels: HashMap<u8, u8>,
    cc: HashMap<u8, u8>,
}

/// The two tables of a map stage.
pub struct MapModel {
    pub channels: Map<u8, u8>,
    pub cc: Map<u8, u8>,
}

/// The table that a list of pairs stands for. Where a key occurs more than
/// once, its last pair counts.
pub open spec fn table_of(pairs: Seq<(u8, u8)>) -> Map<u8, u8>
    decreases pairs.len(),
{
    if pairs.len() == 0 {
        Map::empty()
    } else {
        table_of(pairs.drop_last()).insert(pairs.last().0, pairs.last().1)
    }
}

/// The table that an optional list of pairs stands for: empty where the
/// list is left out.
pub open spec fn optional_table(pairs: Option<Vec<(u8, u8)>>) -> Map<u8, u8> {
    match pairs {
        Some(pairs) => table_of(pairs@),
        None => Map::empty(),
    }
}

impl MapModel {
    /// The event on the channel that the channel table gives for its
    /// channel; unchanged where it has no channel or the table has no entry.
    pub open spec fn channel_mapped(self, event: MIDIEvent) -> MIDIEvent {
        match event.channel() {
            Some(channel) => if self.channels.contains_key(channel) {
                event.with_channel(self.channels[channel])
            } else {
                event
            },
            None => event,
        }
    }

    /// A controller change with the number that the controller table gives
    /// for its number; any other event, and one without an entry, unchanged.
    pub open spec fn controller_mapped(self, event: MIDIEvent) -> MIDIEvent {
        match event {
            MIDIEvent::Controller(change) => if self.cc.contains_key(change.controller) {
                MIDIEvent::Controller(
                    Controller { controller: self.cc[change.controller], ..change },
                )
            } else {
                event
            },
            _ => event,
        }
    }

    /// Both tables applied, the channel table first.
    pub open spec fn mapped(self, event: MIDIEvent) -> MIDIEvent {
        self.controller_mapped(self.channel_mapped(event))
    }
}

fn build_table(pairs: Option<Vec<(u8, u8)>>) -> (table: HashMap<u8, u8>)
    ensures
        table@ == optional_table(pairs),
{
    let mut table: HashMap<u8, u8> = HashMap::new();
    match pairs {
        Some(pairs) => {
            let mut at: usize = 0;
            while at < pairs.len()
                invariant
                    at <= pairs.len(),
                    table@ == table_of(pairs@.take(at as int)),
                decreases pairs.len() - at,
            {
                let pair: (u8, u8) = pairs[at];
                proof {
                    pairs@.lemma_take_succ_push(at as int);
                    assert(pairs@.take(at + 1).drop_last() =~= pairs@.take(at as int));
                }
                table.insert(pair.0, pair.1);
                at += 1;
            }
            proof {
                pairs@.lemma_take_len();
            }
        },
        None => {},
    }
    table
}

impl MapTransform {
    pub fn from_config(options: MapTransformOptions) -> (transform: Self)
        ensures
            transform.model() == (MapModel {
                channels: optional_table(options.channels),
                cc: optional_table(options.cc),
            }),
    {
        Self { channels: build_table(options.channels), cc: build_table(options.cc) }
    }
}

impl Transform for MapTransform {
    type Model = MapModel;

    closed spec fn model(&self) -> MapModel {
        MapModel { channels: self.channels@, cc: self.cc@ }
    }

    open spec fn wf(state: MapModel) -> bool {
        true
    }

    open spec fn tempo_subdiv(state: MapModel) -> Option<u64> {
        None
    }

    open spec fn tick(state: MapModel) -> Step<MapModel> {
        Step::silent(state)
    }

    /// Every event goes on, with both tables applied.
    open spec fn message(state: MapModel, message: RouterEventView) -> Step<MapModel> {
        Step::forward(
            state,
            RouterEventView { device: message.device, event: state.mapped(message.event) },
        )
    }

    fn get_tempo_subdiv(&self) -> (period: Option<u64>) {
        None
    }

    fn on_tick(&mut self, scheduler: &mut SchedulerHandler) -> (output: Option<MIDIRouterEvent>) {
        None
    }

    fn on_message(&mut self, message: MIDIRouterEvent, scheduler: &mut SchedulerHandler) -> (output:
        Option<MIDIRouterEvent>) {
        let mut message = message;
        if let Some(current_channel) = message.event.channel_of() {
            if let Some(target_channel) = self.channels.get(&current_channel) {
                message.event.set_channel(*target_channel);
            }
        }
        if let MIDIEvent::Controller(controller) = message.event {
            if let Some(target_cc) = self.cc.get(&controller.controller) {
                message.event = MIDIEvent::Controller(
                    Controller {
                        channel: controller.channel,
                        controller: *target_cc,
                        value: controller.value,
                    },
                );
            }
        }
        Some(message)
    }
}

} // verus!
