//! What every transform of a pipeline offers.

use vstd::prelude::*;

use super::arpeggio_transform::ArpeggioTransformOptions;
use super::distribute_transform::DistributeTransformOptions;
use super::filter_transform::FilterTransformOptions;
use super::inspect_transform::InspectTransformOptions;
use super::map_transform::MapTransformOptions;
use super::mirror_transform::MirrorTransformOptions;
use super::output_transform::OutputTransformOptions;
use super::wasm_transform::WasmTransformOptions;
use crate::app::{MIDIMapperEvent, MapperEventView};
use crate::midi_event::{MIDIRouterEvent, RouterEventView};
use crate::scheduler::{ScheduledView, SchedulerHandler};

verus! {

/// A transform as a configuration names it: its kind and its options.
#[derive(Debug)]
pub enum SerializedTransform {
    Filter(FilterTransformOptions),
    Arpeggio(ArpeggioTransformOptions),
    /// A map stage.
    Mapping(MapTransformOptions),
    Distribute(DistributeTransformOptions),
    Wasm(WasmTransformOptions),
    Output(OutputTransformOptions),
    Inspect(InspectTransformOptions),
    Mirror(MirrorTransformOptions),
}

/// What one input does to a stage: the state it leaves, the event it hands
/// on, and the requests it makes of the scheduler, in the order made.
pub struct Step<M> {
    pub state: M,
    pub output: Option<RouterEventView>,
    pub sent: Seq<ScheduledView>,
}

impl<M> Step<M> {
    /// The step that changes nothing, hands nothing on and asks for nothing.
    pub open spec fn silent(state: M) -> Step<M> {
        Step { state, output: None, sent: Seq::empty() }
    }

    /// The step that hands `message` on as it is.
    pub open spec fn forward(state: M, message: RouterEventView) -> Step<M> {
        Step { state, output: Some(message), sent: Seq::empty() }
    }
}

/// An output as contracts see it.
pub open spec fn output_view(output: Option<MIDIRouterEvent>) -> Option<RouterEventView> {
    match output {
        Some(event) => Some(event@),
        None => None,
    }
}

/// A stateful stage of a pipeline. It takes events and ticks, hands on at
/// most one event for each, and may ask the scheduler for more.
pub trait Transform {
    /// The state of the stage as contracts see it.
    type Model;

    spec fn model(&self) -> Self::Model;

    /// The states that the stage can be in.
    spec fn wf(state: Self::Model) -> bool;

    /// How many base ticks of the clock make one tick of this stage, if it
    /// listens to the clock at all.
    spec fn tempo_subdiv(state: Self::Model) -> Option<u64>;

    /// What a tick does.
    spec fn tick(state: Self::Model) -> Step<Self::Model>;

    /// What an event does.
    spec fn message(state: Self::Model, message: RouterEventView) -> Step<Self::Model>;

    fn get_tempo_subdiv(&self) -> (period: Option<u64>)
        ensures
            period == Self::tempo_subdiv(self.model()),
    ;

    fn on_tick(&mut self, scheduler: &mut SchedulerHandler) -> (output: Option<MIDIRouterEvent>)
        requires
            Self::wf(old(self).model()),
        ensures
            Self::wf(final(self).model()),
            final(self).model() == Self::tick(old(self).model()).state,
            output_view(output) == Self::tick(old(self).model()).output,
            final(scheduler)@ == old(scheduler)@ + Self::tick(old(self).model()).sent,
    ;

    fn on_message(&mut self, message: MIDIRouterEvent, scheduler: &mut SchedulerHandler) -> (output:
        Option<MIDIRouterEvent>)
        requires
            Self::wf(old(self).model()),
        ensures
            Self::wf(final(self).model()),
            final(self).model() == Self::message(old(self).model(), message@).state,
            output_view(output) == Self::message(old(self).model(), message@).output,
            final(scheduler)@ == old(scheduler)@ + Self::message(old(self).model(), message@).sent,
    ;

    /// Hands a tick to `on_tick` and an event to `on_message`.
    fn process_message(
        &mut self,
        message: MIDIMapperEvent,
        scheduler: &mut SchedulerHandler,
    ) -> (output: Option<MIDIRouterEvent>)
        requires
            Self::wf(old(self).model()),
        ensures
            Self::wf(final(self).model()),
            final(self).model() == (match message@ {
                MapperEventView::Tick => Self::tick(old(self).model()),
                MapperEventView::RouterMessage(event) => Self::message(old(self).model(), event),
            }).state,
            output_view(output) == (match message@ {
                MapperEventView::Tick => Self::tick(old(self).model()),
                MapperEventView::RouterMessage(event) => Self::message(old(self).model(), event),
            }).output,
            final(scheduler)@ == old(scheduler)@ + (match message@ {
                MapperEventView::Tick => Self::tick(old(self).model()),
                MapperEventView::RouterMessage(event) => Self::message(old(self).model(), event),
            }).sent,
    {
        match message {
            MIDIMapperEvent::Tick => self.on_tick(scheduler),
            MIDIMapperEvent::RouterMessage(message) => self.on_message(message, scheduler),
        }
    }
}

/// What an input does to a stage: a tick what `tick` says, an event what
/// `message` says.
pub open spec fn process<T: Transform + ?Sized>(state: T::Model, input: MapperEventView) -> Step<
    T::Model,
> {
    match input {
        MapperEventView::Tick => T::tick(state),
        MapperEventView::RouterMessage(message) => T::message(state, message),
    }
}

} // verus!
