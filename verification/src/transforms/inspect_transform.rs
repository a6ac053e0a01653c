//! Hands every event on unchanged and describes it in a line of text, for
//! whoever runs the stage to print.

use vstd::prelude::*;
use vstd::string::StringExecFns;

use super::transform::{Step, Transform};
use crate::midi_event::{MIDIRouterEvent, RouterEventView};
use crate::scheduler::SchedulerHandler;

verus! {

#[derive(Debug)]
pub struct InspectTransformOptions {
    pub prefix: Option<String>,
}

pub struct InspectTransform {
    pub prefix: String,
}

/// The state of an inspect stage: what its lines begin with.
pub struct InspectModel {
    pub prefix: Seq<char>,
}

impl InspectTransformOptions {
    /// What the lines begin with: the prefix in square brackets, and
    /// nothing where no prefix is given.
    pub open spec fn model(self) -> InspectModel {
        InspectModel {
            prefix: match self.prefix {
                Some(prefix) => "["@ + prefix@ + "]"@,
                None => Seq::empty(),
            },
        }
    }
}

impl InspectModel {
    /// The line for an event: the prefix and the text of the event.
    pub open spec fn line(self, message: RouterEventView) -> Seq<char> {
        self.prefix + message.text()
    }
}

impl InspectTransform {
    pub fn from_config(options: InspectTransformOptions) -> (transform: Self)
        ensures
            transform.model() == options.model(),
    {
        let prefix: String = match options.prefix {
            Some(prefix) => {
                let mut bracketed = String::from_str("[");
                bracketed.append(prefix.as_str());
                bracketed.append("]");
                bracketed
            },
            None => String::new(),
        };
        Self { prefix }
    }

    /// The line that describes `message`.
    pub fn describe(&self, message: &MIDIRouterEvent) -> (line: String)
        ensures
            line@ == self.model().line(message@),
    {
        let mut line = self.prefix.clone();
        let text = message.to_string();
        line.append(text.as_str());
        line
    }
}

impl Transform for InspectTransform {
    type Model = InspectModel;

    open spec fn model(&self) -> InspectModel {
        InspectModel { prefix: self.prefix@ }
    }

    open spec fn wf(state: InspectModel) -> bool {
        true
    }

    open spec fn tempo_subdiv(state: InspectModel) -> Option<u64> {
        None
    }

    open spec fn tick(state: InspectModel) -> Step<InspectModel> {
        Step::silent(state)
    }

    /// Every event goes on unchanged.
    open spec fn message(state: InspectModel, message: RouterEventView) -> Step<InspectModel> {
        Step::forward(state, message)
    }

    fn get_tempo_subdiv(&self) -> (period: Option<u64>) {
        None
    }

    fn on_tick(&mut self, scheduler: &mut SchedulerHandler) -> (output: Option<MIDIRouterEvent>) {
        None
    }

    fn on_message(&mut self, v: MIDIRouterEvent, scheduler: &mut SchedulerHandler) -> (output:
        Option<MIDIRouterEvent>) {
        Some(v)
    }
}

} // verus!
