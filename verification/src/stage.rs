//! A stage of a pipeline: one transform of the catalog, whichever it is.

use vstd::prelude::*;

use crate::midi_event::{MIDIRouterEvent, RouterEventView};
use crate::scheduler::SchedulerHandler;
use crate::transforms::arpeggio_transform::{ArpeggioModel, ArpeggioTransform};
use crate::transforms::distribute_transform::{DistributeModel, DistributeTransform};
use crate::transforms::filter_transform::{FilterModel, FilterTransform};
use crate::transforms::inspect_transform::{InspectModel, InspectTransform};
use crate::transforms::map_transform::{MapModel, MapTransform};
use crate::transforms::mirror_transform::{MirrorModel, MirrorTransform};
use crate::transforms::output_transform::{OutputModel, OutputTransform};
use crate::transforms::transform::{Step, Transform};
use crate::transforms::wasm_transform::WasmTransformOptions;

verus! {

/// The transform of a stage.
pub enum Stage {
    Filter(FilterTransform),
    Arpeggio(ArpeggioTransform),
    /// A map stage.
    Mapping(MapTransform),
    Distribute(DistributeTransform),
    Mirror(MirrorTransform),
    Inspect(InspectTransform),
    Output(OutputTransform),
    /// A script, which the host of the pipeline runs.
    Wasm(WasmTransformOptions),
}

/// A script stage as contracts see it.
pub struct WasmModel {
    pub path: Seq<char>,
    pub subdivision: u64,
}

/// The state of a stage as contracts see it.
pub enum StageModel {
    Filter(FilterModel),
    Arpeggio(ArpeggioModel),
    /// A map stage.
    Mapping(MapModel),
    Distribute(DistributeModel),
    Mirror(MirrorModel),
    Inspect(InspectModel),
    Output(OutputModel),
    Wasm(WasmModel),
}

/// A step of a transform as a step of the stage that holds it.
pub open spec fn lifted<M>(step: Step<M>, stage: spec_fn(M) -> StageModel) -> Step<StageModel> {
    Step { state: stage(step.state), output: step.output, sent: step.sent }
}

impl Transform for Stage {
    type Model = StageModel;

    open spec fn model(&self) -> StageModel {
        match self {
            Stage::Filter(transform) => StageModel::Filter(transform.model()),
            Stage::Arpeggio(transform) => StageModel::Arpeggio(transform.model()),
            Stage::Mapping(transform) => StageModel::Mapping(transform.model()),
            Stage::Distribute(transform) => StageModel::Distribute(transform.model()),
            Stage::Mirror(transform) => StageModel::Mirror(transform.model()),
            Stage::Inspect(transform) => StageModel::Inspect(transform.model()),
            Stage::Output(transform) => StageModel::Output(transform.model()),
            Stage::Wasm(options) => StageModel::Wasm(
                WasmModel { path: options.path@, subdivision: options.subdivision },
            ),
        }
    }

    open spec fn wf(state: StageModel) -> bool {
        match state {
            StageModel::Filter(state) => FilterTransform::wf(state),
            StageModel::Arpeggio(state) => ArpeggioTransform::wf(state),
            StageModel::Mapping(state) => MapTransform::wf(state),
            StageModel::Distribute(state) => DistributeTransform::wf(state),
            StageModel::Mirror(state) => MirrorTransform::wf(state),
            StageModel::Inspect(state) => InspectTransform::wf(state),
            StageModel::Output(state) => OutputTransform::wf(state),
            StageModel::Wasm(_) => true,
        }
    }

    /// A script listens to the clock, as an arpeggio does.
    open spec fn tempo_subdiv(state: StageModel) -> Option<u64> {
        match state {
            StageModel::Filter(state) => FilterTransform::tempo_subdiv(state),
            StageModel::Arpeggio(state) => ArpeggioTransform::tempo_subdiv(state),
            StageModel::Mapping(state) => MapTransform::tempo_subdiv(state),
            StageModel::Distribute(state) => DistributeTransform::tempo_subdiv(state),
            StageModel::Mirror(state) => MirrorTransform::tempo_subdiv(state),
            StageModel::Inspect(state) => InspectTransform::tempo_subdiv(state),
            StageModel::Output(state) => OutputTransform::tempo_subdiv(state),
            StageModel::Wasm(state) => Some(state.subdivision),
        }
    }

    /// A tick does what it does to the transform of the stage. A script
    /// stage itself does nothing: what the script does is up to its host.
    open spec fn tick(state: StageModel) -> Step<StageModel> {
        match state {
            StageModel::Filter(state) => lifted(
                FilterTransform::tick(state),
                |s: FilterModel| StageModel::Filter(s),
            ),
            StageModel::Arpeggio(state) => lifted(
                ArpeggioTransform::tick(state),
                |s: ArpeggioModel| StageModel::Arpeggio(s),
            ),
            StageModel::Mapping(state) => lifted(
                MapTransform::tick(state),
                |s: MapModel| StageModel::Mapping(s),
            ),
            StageModel::Distribute(state) => lifted(
                DistributeTransform::tick(state),
                |s: DistributeModel| StageModel::Distribute(s),
            ),
            StageModel::Mirror(state) => lifted(
                MirrorTransform::tick(state),
                |s: MirrorModel| StageModel::Mirror(s),
            ),
            StageModel::Inspect(state) => lifted(
                InspectTransform::tick(state),
                |s: InspectModel| StageModel::Inspect(s),
            ),
            StageModel::Output(state) => lifted(
                OutputTransform::tick(state),
                |s: OutputModel| StageModel::Output(s),
            ),
            StageModel::Wasm(_) => Step::silent(state),
        }
    }

    /// An event does what it does to the transform of the stage. A script
    /// stage itself hands nothing on.
    open spec fn message(state: StageModel, message: RouterEventView) -> Step<StageModel> {
        match state {
            StageModel::Filter(state) => lifted(
                FilterTransform::message(state, message),
                |s: FilterModel| StageModel::Filter(s),
            ),
            StageModel::Arpeggio(state) => lifted(
                ArpeggioTransform::message(state, message),
                |s: ArpeggioModel| StageModel::Arpeggio(s),
            ),
            StageModel::Mapping(state) => lifted(
                MapTransform::message(state, message),
                |s: MapModel| StageModel::Mapping(s),
            ),
            StageModel::Distribute(state) => lifted(
                DistributeTransform::message(state, message),
                |s: DistributeModel| StageModel::Distribute(s),
            ),
            StageModel::Mirror(state) => lifted(
                MirrorTransform::message(state, message),
                |s: MirrorModel| StageModel::Mirror(s),
            ),
            StageModel::Inspect(state) => lifted(
                InspectTransform::message(state, message),
                |s: InspectModel| StageModel::Inspect(s),
            ),
            StageModel::Output(state) => lifted(
                OutputTransform::message(state, message),
                |s: OutputModel| StageModel::Output(s),
            ),
            StageModel::Wasm(_) => Step::silent(state),
        }
    }

    fn get_tempo_subdiv(&self) -> (period: Option<u64>) {
        match self {
            Stage::Filter(transform) => transform.get_tempo_subdiv(),
            Stage::Arpeggio(transform) => transform.get_tempo_subdiv(),
            Stage::Mapping(transform) => transform.get_tempo_subdiv(),
            Stage::Distribute(transform) => transform.get_tempo_subdiv(),
            Stage::Mirror(transform) => transform.get_tempo_subdiv(),
            Stage::Inspect(transform) => transform.get_tempo_subdiv(),
            Stage::Output(transform) => transform.get_tempo_subdiv(),
            Stage::Wasm(options) => Some(options.subdivision),
        }
    }

    fn on_tick(&mut self, scheduler: &mut SchedulerHandler) -> (output: Option<MIDIRouterEvent>) {
        match self {
            Stage::Filter(transform) => transform.on_tick(scheduler),
            Stage::Arpeggio(transform) => transform.on_tick(scheduler),
            Stage::Mapping(transform) => transform.on_tick(scheduler),
            Stage::Distribute(transform) => transform.on_tick(scheduler),
            Stage::Mirror(transform) => transform.on_tick(scheduler),
            Stage::Inspect(transform) => transform.on_tick(scheduler),
            Stage::Output(transform) => transform.on_tick(scheduler),
            Stage::Wasm(_) => None,
        }
    }

    fn on_message(&mut self, message: MIDIRouterEvent, scheduler: &mut SchedulerHandler) -> (output:
        Option<MIDIRouterEvent>) {
        match self {
            Stage::Filter(transform) => transform.on_message(message, scheduler),
            Stage::Arpeggio(transform) => transform.on_message(message, scheduler),
            Stage::Mapping(transform) => transform.on_message(message, scheduler),
            Stage::Distribute(transform) => transform.on_message(message, scheduler),
            Stage::Mirror(transform) => transform.on_message(message, scheduler),
            Stage::Inspect(transform) => transform.on_message(message, scheduler),
            Stage::Output(transform) => transform.on_message(message, scheduler),
            Stage::Wasm(_) => None,
        }
    }
}

} // verus!
