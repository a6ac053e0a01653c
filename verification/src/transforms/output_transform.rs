//! Stamps every event with the alias of an output device.

use vstd::prelude::*;

use super::transform::{Step, Transform};
use crate::midi_event::{MIDIRouterEvent, RouterEventView};
use crate::scheduler::SchedulerHandler;

verus! {

#[derive(Debug)]
pub struct OutputTransformOptions {
    pub output_device: String,
}

pub struct OutputTransform {
    output_device: String,
}

/// The state of an output stage: the alias it stamps.
pub struct OutputModel {
    pub output_device: Seq<char>,
}

impl OutputTransform {
    pub fn from_config(options: OutputTransformOptions) -> (transform: Self)
        ensures
            transform.model() == (OutputModel { output_device: options.output_device@ }),
    {
        Self { output_device: options.output_device }
    }
}

impl Transform for OutputTransform {
    type Model = OutputModel;

    closed spec fn model(&self) -> OutputModel {
        OutputModel { output_device: self.output_device@ }
    }

    open spec fn wf(state: OutputModel) -> bool {
        true
    }

    open spec fn tempo_subdiv(state: OutputModel) -> Option<u64> {
        None
    }

    open spec fn tick(state: OutputModel) -> Step<OutputModel> {
        Step::silent(state)
    }

    /// The event goes on with the device replaced by the alias.
    open spec fn message(state: OutputModel, message: RouterEventView) -> Step<OutputModel> {
        Step::forward(
            state,
            RouterEventView { device: state.output_device, event: message.event },
        )
    }

    fn get_tempo_subdiv(&self) -> (period: Option<u64>) {
        None
    }

    fn on_tick(&mut self, scheduler: &mut SchedulerHandler) -> (output: Option<MIDIRouterEvent>) {
        None
    }

    fn on_message(&mut self, v: MIDIRouterEvent, scheduler: &mut SchedulerHandler) -> (output:
        Option<MIDIRouterEvent>) {
        let mut v = v;
        v.device = self.output_device.clone();
        Some(v)
    }
}

} // verus!
