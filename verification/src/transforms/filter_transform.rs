//! Lets an event pass if its device, its channel and its kind are each on
//! the list configured for them. An empty list allows everything.

use vstd::prelude::*;

use super::transform::{Step, Transform};
use crate::midi_event::{MIDIEventIdentity, MIDIRouterEvent, RouterEventView};
use crate::scheduler::SchedulerHandler;

verus! {

#[derive(Debug)]
pub struct FilterTransformOptions {
    pub devices: Option<Vec<String>>,
    pub channels: Option<Vec<u8>>,
    pub event_types: Option<Vec<MIDIEventIdentity>>,
}

pub struct FilterTransform {
    devices: Vec<String>,
    channels: Vec<u8>,
    event_types: Vec<MIDIEventIdentity>,
}

/// The three lists of a filter.
pub struct FilterModel {
    pub devices: Seq<Seq<char>>,
    pub channels: Seq<u8>,
    pub event_types: Seq<MIDIEventIdentity>,
}

/// The aliases of a list of aliases.
pub open spec fn aliases(devices: Seq<String>) -> Seq<Seq<char>> {
    devices.map_values(|device: String| device@)
}

impl FilterTransformOptions {
    /// The filter that the options ask for: a list left out is empty.
    pub open spec fn model(self) -> FilterModel {
        FilterModel {
            devices: match self.devices {
                Some(devices) => aliases(devices@),
                None => Seq::empty(),
            },
            channels: match self.channels {
                Some(channels) => channels@,
                None => Seq::empty(),
            },
            event_types: match self.event_types {
                Some(event_types) => event_types@,
                None => Seq::empty(),
            },
        }
    }
}

impl FilterModel {
    /// The device is allowed.
    pub open spec fn allows_device(self, message: RouterEventView) -> bool {
        self.devices.len() == 0 || self.devices.contains(message.device)
    }

    /// The kind of event is allowed.
    pub open spec fn allows_kind(self, message: RouterEventView) -> bool {
        self.event_types.len() == 0 || self.event_types.contains(message.event.identity())
    }

    /// The channel is allowed. An event without a channel is allowed only
    /// where no channels are listed.
    pub open spec fn allows_channel(self, message: RouterEventView) -> bool {
        self.channels.len() == 0 || (message.event.channel() is Some && self.channels.contains(
            message.event.channel()->Some_0,
        ))
    }

    /// The event passes: all three lists allow it.
    pub open spec fn passes(self, message: RouterEventView) -> bool {
        self.allows_device(message) && self.allows_kind(message) && self.allows_channel(message)
    }
}

impl FilterTransform {
    pub fn from_config(options: FilterTransformOptions) -> (transform: Self)
        ensures
            transform.model() == options.model(),
    {
        let devices: Vec<String> = match options.devices {
            Some(devices) => devices,
            None => Vec::new(),
        };
        let channels: Vec<u8> = match options.channels {
            Some(channels) => channels,
            None => Vec::new(),
        };
        let event_types: Vec<MIDIEventIdentity> = match options.event_types {
            Some(event_types) => event_types,
            None => Vec::new(),
        };
        let transform = Self { devices, channels, event_types };
        assert(transform.model().devices =~= options.model().devices);
        transform
    }

    fn device_listed(&self, device: &String) -> (listed: bool)
        ensures
            listed == self.model().devices.contains(device@),
    {
        let mut at: usize = 0;
        while at < self.devices.len()
            invariant
                at <= self.devices.len(),
                forall|j: int| 0 <= j < at ==> self.model().devices[j] != device@,
            decreases self.devices.len() - at,
        {
            if self.devices[at] == *device {
                assert(self.model().devices[at as int] == device@);
                return true;
            }
            at += 1;
        }
        false
    }

    fn channel_listed(&self, channel: u8) -> (listed: bool)
        ensures
            listed == self.model().channels.contains(channel),
    {
        let mut at: usize = 0;
        while at < self.channels.len()
            invariant
                at <= self.channels.len(),
                forall|j: int| 0 <= j < at ==> self.channels@[j] != channel,
            decreases self.channels.len() - at,
        {
            if self.channels[at] == channel {
                return true;
            }
            at += 1;
        }
        false
    }

    fn kind_listed(&self, kind: MIDIEventIdentity) -> (listed: bool)
        ensures
            listed == self.model().event_types.contains(kind),
    {
        let mut at: usize = 0;
        while at < self.event_types.len()
            invariant
                at <= self.event_types.len(),
                forall|j: int| 0 <= j < at ==> self.event_types@[j] != kind,
            decreases self.event_types.len() - at,
        {
            if self.event_types[at] == kind {
                return true;
            }
            at += 1;
        }
        false
    }

    /// Hands the event back if it passes, and nothing if it does not.
    pub fn should_pass(&self, midi_router_event: MIDIRouterEvent) -> (passed: Option<
        MIDIRouterEvent,
    >)
        ensures
            passed == if self.model().passes(midi_router_event@) {
                Some(midi_router_event)
            } else {
                None
            },
    {
        if self.devices.len() > 0 && !self.device_listed(&midi_router_event.device) {
            return None;
        }
        if self.event_types.len() > 0 && !self.kind_listed(midi_router_event.event.get_identity()) {
            return None;
        }
        if self.channels.len() > 0 {
            match midi_router_event.event.channel_of() {
                Some(channel) => {
                    if !self.channel_listed(channel) {
                        return None;
                    }
                },
                None => {
                    return None;
                },
            }
        }
        Some(midi_router_event)
    }
}

impl Transform for FilterTransform {
    type Model = FilterModel;

    closed spec fn model(&self) -> FilterModel {
        FilterModel {
            devices: aliases(self.devices@),
            channels: self.channels@,
            event_types: self.event_types@,
        }
    }

    open spec fn wf(state: FilterModel) -> bool {
        true
    }

    open spec fn tempo_subdiv(state: FilterModel) -> Option<u64> {
        None
    }

    open spec fn tick(state: FilterModel) -> Step<FilterModel> {
        Step::silent(state)
    }

    /// An event that passes goes on unchanged; any other is dropped.
    open spec fn message(state: FilterModel, message: RouterEventView) -> Step<FilterModel> {
        if state.passes(message) {
            Step::forward(state, message)
        } else {
            Step::silent(state)
        }
    }

    fn get_tempo_subdiv(&self) -> (period: Option<u64>) {
        None
    }

    fn on_tick(&mut self, scheduler: &mut SchedulerHandler) -> (output: Option<MIDIRouterEvent>) {
        None
    }

    fn on_message(&mut self, message: MIDIRouterEvent, scheduler: &mut SchedulerHandler) -> (output:
        Option<MIDIRouterEvent>) {
        self.should_pass(message)
    }
}

/// With all three lists empty, every event goes on unchanged.
pub proof fn lemma_empty_filter_forwards(state: FilterModel, message: RouterEventView)
    requires
        state.devices.len() == 0,
        state.channels.len() == 0,
        state.event_types.len() == 0,
    ensures
        FilterTransform::message(state, message) == Step::forward(state, message),
{
}

} // verus!
