//! The engine of a pipeline: a chain of stages, through which events and
//! ticks run from the first stage to the last.
//!
//! The engine decides and its host acts. Each call takes one input, runs it
//! through the stages it concerns, and gives back what is to be done: events
//! to emit, events to bring back after a delay, lines to print, scripts to
//! run.

use vstd::prelude::*;

use crate::app::{MIDIMapperEvent, MapperEventView};
use crate::midi_event::{MIDIRouterEvent, RouterEventView};
use crate::scheduler::{requests_view, Scheduled, ScheduledView, SchedulerHandler};
use crate::stage::{Stage, StageModel};
use crate::tempo::{every, ClockEvent, Every, EveryView};
use crate::iter_utils::{CycleDirection, CycleView};
use crate::stage::WasmModel;
use crate::transforms::distribute_transform::DistributeModel;
use crate::transforms::map_transform::{optional_table, MapModel};
use crate::transforms::output_transform::OutputModel;
use crate::transforms::transform::{process, SerializedTransform, Transform};
use crate::transforms::{
    ArpeggioTransform, DistributeTransform, FilterTransform, InspectTransform, MapTransform,
    MirrorTransform, OutputTransform,
};

verus! {

/// What the host of a pipeline is to do.
#[derive(Debug, PartialEq, Eq)]
pub enum Action {
    /// Emit the event: it has left the last stage.
    Emit(MIDIRouterEvent),
    /// Hand the event to `resume` for stage `stage` once `delay_ms`
    /// milliseconds have passed.
    Delay { stage: usize, event: MIDIRouterEvent, delay_ms: u64 },
    /// Print the line.
    Print(String),
    /// Run the script of stage `stage` on the input. What the script asks to
    /// have emitted goes to `resume` for the stage after it.
    Script { stage: usize, input: MIDIMapperEvent },
}

/// An action as contracts see it.
pub enum ActionView {
    Emit(RouterEventView),
    Delay { stage: int, event: RouterEventView, delay_ms: u64 },
    Print(Seq<char>),
    Script { stage: int, input: MapperEventView },
}

impl View for Action {
    type V = ActionView;

    open spec fn view(&self) -> ActionView {
        match self {
            Action::Emit(event) => ActionView::Emit(event@),
            Action::Delay { stage, event, delay_ms } => ActionView::Delay {
                stage: *stage as int,
                event: event@,
                delay_ms: *delay_ms,
            },
            Action::Print(line) => ActionView::Print(line@),
            Action::Script { stage, input } => ActionView::Script {
                stage: *stage as int,
                input: input@,
            },
        }
    }
}

/// A list of actions as contracts see it.
pub open spec fn actions_view(actions: Seq<Action>) -> Seq<ActionView> {
    actions.map_values(|action: Action| action@)
}

/// A list of events as contracts see it.
pub open spec fn events_view(events: Seq<MIDIRouterEvent>) -> Seq<RouterEventView> {
    events.map_values(|event: MIDIRouterEvent| event@)
}

/// The events that a stage asked to have emitted at once, in the order
/// asked.
pub open spec fn immediate(sent: Seq<ScheduledView>) -> Seq<RouterEventView>
    decreases sent.len(),
{
    if sent.len() == 0 {
        Seq::empty()
    } else {
        match sent.last() {
            ScheduledView::Now(event) => immediate(sent.drop_last()).push(event),
            ScheduledView::Later(_, _) => immediate(sent.drop_last()),
        }
    }
}

/// The delays that a stage asked for, in the order asked, each to come back
/// at stage `stage`.
pub open spec fn delayed(sent: Seq<ScheduledView>, stage: int) -> Seq<ActionView>
    decreases sent.len(),
{
    if sent.len() == 0 {
        Seq::empty()
    } else {
        match sent.last() {
            ScheduledView::Now(_) => delayed(sent.drop_last(), stage),
            ScheduledView::Later(event, delay_ms) => delayed(sent.drop_last(), stage).push(
                ActionView::Delay { stage, event, delay_ms },
            ),
        }
    }
}

/// What the host is to do for an input of stage `at` besides what the
/// scheduler was asked: print the line of an inspect stage, run the script
/// of a script stage.
pub open spec fn side_actions(stage: StageModel, at: int, input: MapperEventView) -> Seq<
    ActionView,
> {
    match stage {
        StageModel::Inspect(state) => match input {
            MapperEventView::RouterMessage(message) => seq![ActionView::Print(state.line(message))],
            MapperEventView::Tick => Seq::empty(),
        },
        StageModel::Wasm(_) => seq![ActionView::Script { stage: at, input }],
        _ => Seq::empty(),
    }
}

/// What a stage made of its inputs.
pub struct Handled {
    /// The state of the stage afterwards.
    pub stage: StageModel,
    /// What goes to the next stage, in order.
    pub forwarded: Seq<RouterEventView>,
    /// What the host is to do, in order.
    pub actions: Seq<ActionView>,
}

/// What stage `at` makes of one input. The event that the transform hands
/// on goes to the next stage first, then the events that it asked to have
/// emitted at once. What it asked to have emitted later comes back at the
/// next stage: nothing that a stage emits passes through that stage again.
pub open spec fn handle(stage: StageModel, at: int, input: MapperEventView) -> Handled {
    let step = process::<Stage>(stage, input);
    Handled {
        stage: step.state,
        forwarded: (match step.output {
            Some(event) => seq![event],
            None => Seq::empty(),
        }) + immediate(step.sent),
        actions: side_actions(stage, at, input) + delayed(step.sent, at + 1),
    }
}

/// What stage `at` makes of a list of events, taken one after the other.
pub open spec fn handle_all(stage: StageModel, at: int, events: Seq<RouterEventView>) -> Handled
    decreases events.len(),
{
    if events.len() == 0 {
        Handled { stage, forwarded: Seq::empty(), actions: Seq::empty() }
    } else {
        let before = handle_all(stage, at, events.drop_last());
        let last = handle(before.stage, at, MapperEventView::RouterMessage(events.last()));
        Handled {
            stage: last.stage,
            forwarded: before.forwarded + last.forwarded,
            actions: before.actions + last.actions,
        }
    }
}

/// A stage with its subscription to the clock, if it has one.
pub struct StageSlot {
    transform: Stage,
    ticker: Option<Every>,
}

/// A stage with its subscription, as contracts see it.
pub struct SlotView {
    pub transform: StageModel,
    pub ticker: Option<EveryView>,
}

impl SlotView {
    pub open spec fn wf(self) -> bool {
        &&& Stage::wf(self.transform)
        &&& self.ticker is Some ==> self.ticker->Some_0.wf()
    }
}

impl View for StageSlot {
    type V = SlotView;

    closed spec fn view(&self) -> SlotView {
        SlotView {
            transform: self.transform.model(),
            ticker: match self.ticker {
                Some(ticker) => Some(ticker@),
                None => None,
            },
        }
    }
}

/// The stages with the state of stage `at` replaced.
pub open spec fn with_stage(stages: Seq<SlotView>, at: int, stage: StageModel) -> Seq<SlotView> {
    stages.update(at, SlotView { transform: stage, ticker: stages[at].ticker })
}

/// The actions that emit a list of events.
pub open spec fn emitted(events: Seq<RouterEventView>) -> Seq<ActionView> {
    events.map_values(|event: RouterEventView| ActionView::Emit(event))
}

/// The stages after an input, and what the host is to do for it.
pub struct Outcome {
    pub stages: Seq<SlotView>,
    pub actions: Seq<ActionView>,
}

/// What becomes of a list of events that arrive at stage `at`: the stage
/// takes them one after the other, what it forwards arrives at the next
/// stage in the same way, and what leaves the last stage is emitted.
pub open spec fn flow(stages: Seq<SlotView>, at: int, events: Seq<RouterEventView>) -> Outcome
    decreases stages.len() - at,
{
    if at < 0 || at >= stages.len() {
        Outcome { stages, actions: emitted(events) }
    } else {
        let here = handle_all(stages[at].transform, at, events);
        let rest = flow(with_stage(stages, at, here.stage), at + 1, here.forwarded);
        Outcome { stages: rest.stages, actions: here.actions + rest.actions }
    }
}

/// What becomes of an input of stage `at`. An event that is fed in behind
/// the last stage is emitted, a tick there is lost.
pub open spec fn feed(stages: Seq<SlotView>, at: int, input: MapperEventView) -> Outcome {
    if at < 0 || at >= stages.len() {
        Outcome {
            stages,
            actions: match input {
                MapperEventView::RouterMessage(event) => seq![ActionView::Emit(event)],
                MapperEventView::Tick => Seq::empty(),
            },
        }
    } else {
        let here = handle(stages[at].transform, at, input);
        let rest = flow(with_stage(stages, at, here.stage), at + 1, here.forwarded);
        Outcome { stages: rest.stages, actions: here.actions + rest.actions }
    }
}

/// A stage whose subscription has seen a clock event.
pub open spec fn ticked(slot: SlotView, event: ClockEvent) -> SlotView {
    match slot.ticker {
        Some(ticker) => SlotView { ticker: Some(ticker.step(event).state), ..slot },
        None => slot,
    }
}

/// Whether a clock event makes a tick for a stage.
pub open spec fn fires(slot: SlotView, event: ClockEvent) -> bool {
    slot.ticker is Some && slot.ticker->Some_0.step(event).emits
}

/// What becomes of the ticks of the first `upto` stages, taken from the
/// first stage on: where `fired` says so, a tick is fed into the stage.
pub open spec fn pulse(stages: Seq<SlotView>, fired: Seq<bool>, upto: nat) -> Outcome
    decreases upto,
{
    if upto == 0 {
        Outcome { stages, actions: Seq::empty() }
    } else {
        let before = pulse(stages, fired, (upto - 1) as nat);
        if fired[upto - 1] {
            let fed = feed(before.stages, upto - 1, MapperEventView::Tick);
            Outcome { stages: fed.stages, actions: before.actions + fed.actions }
        } else {
            before
        }
    }
}

/// What a clock event does to a pipeline: every subscription counts it,
/// and then each stage whose subscription lets it through gets a tick, the
/// stages taken from the first on.
pub open spec fn clocked(stages: Seq<SlotView>, event: ClockEvent) -> Outcome {
    pulse(all_ticked(stages, event), all_fires(stages, event), stages.len())
}

/// The stages with every subscription having seen a clock event.
pub open spec fn all_ticked(stages: Seq<SlotView>, event: ClockEvent) -> Seq<SlotView> {
    stages.map_values(|slot: SlotView| ticked(slot, event))
}

/// For each stage, whether a clock event makes a tick for it.
pub open spec fn all_fires(stages: Seq<SlotView>, event: ClockEvent) -> Seq<bool> {
    stages.map_values(|slot: SlotView| fires(slot, event))
}

/// Why a stage cannot be made from its options.
#[derive(Debug, Clone, Copy, PartialEq, Eq, Structural)]
pub enum StageFault {
    /// A distribute stage has no channel to send to.
    NoChannels,
    /// A stage asks for a tick every 0 base ticks.
    ZeroSubdivision,
}

/// Why a pipeline cannot be made from its options.
#[derive(Debug, Clone, Copy, PartialEq, Eq, Structural)]
pub enum PipelineError {
    /// The pipeline has no stage.
    NoTransforms,
    /// Stage `stage`, numbered from 0, is the first that cannot be made.
    Stage { stage: usize, fault: StageFault },
}

impl SerializedTransform {
    /// The stage that the options ask for, as it is when made.
    pub open spec fn model(self) -> StageModel {
        match self {
            SerializedTransform::Filter(options) => StageModel::Filter(options.model()),
            SerializedTransform::Arpeggio(options) => StageModel::Arpeggio(options.model()),
            SerializedTransform::Mapping(options) => StageModel::Mapping(
                MapModel {
                    channels: optional_table(options.channels),
                    cc: optional_table(options.cc),
                },
            ),
            SerializedTransform::Distribute(options) => StageModel::Distribute(
                DistributeModel {
                    held: Seq::empty(),
                    cycle: CycleView::fresh(options.between@, CycleDirection::Forward, None),
                },
            ),
            SerializedTransform::Wasm(options) => StageModel::Wasm(
                WasmModel { path: options.path@, subdivision: options.subdivision },
            ),
            SerializedTransform::Output(options) => StageModel::Output(
                OutputModel { output_device: options.output_device@ },
            ),
            SerializedTransform::Inspect(options) => StageModel::Inspect(options.model()),
            SerializedTransform::Mirror(options) => StageModel::Mirror(options.model()),
        }
    }

    /// What is wrong with the options, if anything.
    pub open spec fn fault(self) -> Option<StageFault> {
        match self {
            SerializedTransform::Distribute(options) => if options.between.len() == 0 {
                Some(StageFault::NoChannels)
            } else {
                None
            },
            SerializedTransform::Arpeggio(options) => if options.subdivision == 0 {
                Some(StageFault::ZeroSubdivision)
            } else {
                None
            },
            SerializedTransform::Wasm(options) => if options.subdivision == 0 {
                Some(StageFault::ZeroSubdivision)
            } else {
                None
            },
            _ => None,
        }
    }

    /// The stage with its subscription, as it is when made: a stage that
    /// listens to the clock has a counter that has seen no tick.
    pub open spec fn slot(self) -> SlotView {
        SlotView {
            transform: self.model(),
            ticker: match Stage::tempo_subdiv(self.model()) {
                Some(period) => Some(EveryView::fresh(period as int)),
                None => None,
            },
        }
    }
}

/// The stages that a list of options asks for.
pub open spec fn slots_of(transforms: Seq<SerializedTransform>) -> Seq<SlotView> {
    transforms.map_values(|config: SerializedTransform| config.slot())
}

#[derive(Debug)]
pub struct PipelineOptions {
    pub name: String,
    pub transforms: Vec<SerializedTransform>,
}

impl PipelineOptions {
    /// A pipeline can be made from the options: there is a stage, and
    /// nothing is wrong with any.
    pub open spec fn sound(self) -> bool {
        &&& self.transforms.len() > 0
        &&& forall|at: int|
            0 <= at < self.transforms.len() ==> (#[trigger] self.transforms[at]).fault() is None
    }

    /// The reason why no pipeline can be made from the options is `error`:
    /// there is no stage, or the first stage that something is wrong with
    /// is the one that `error` names, with the fault it names.
    pub open spec fn refused_with(self, error: PipelineError) -> bool {
        match error {
            PipelineError::NoTransforms => self.transforms.len() == 0,
            PipelineError::Stage { stage, fault } => {
                &&& stage < self.transforms.len()
                &&& self.transforms[stage as int].fault() == Some(fault)
                &&& forall|at: int|
                    0 <= at < stage ==> (#[trigger] self.transforms[at]).fault() is None
            },
        }
    }
}

/// Makes a stage and its subscription from options.
fn build_stage(config: SerializedTransform) -> (made: Result<StageSlot, StageFault>)
    ensures
        match made {
            Ok(slot) => config.fault() is None && slot@ == config.slot() && slot@.wf(),
            Err(fault) => config.fault() == Some(fault),
        },
{
    let transform: Stage = match config {
        SerializedTransform::Filter(options) => Stage::Filter(FilterTransform::from_config(options)),
        SerializedTransform::Arpeggio(options) => Stage::Arpeggio(
            ArpeggioTransform::from_config(options),
        ),
        SerializedTransform::Mapping(options) => Stage::Mapping(MapTransform::from_config(options)),
        SerializedTransform::Distribute(options) => {
            if options.between.len() == 0 {
                return Err(StageFault::NoChannels);
            }
            Stage::Distribute(DistributeTransform::from_config(options))
        },
        SerializedTransform::Wasm(options) => Stage::Wasm(options),
        SerializedTransform::Output(options) => Stage::Output(OutputTransform::from_config(options)),
        SerializedTransform::Inspect(options) => Stage::Inspect(
            InspectTransform::from_config(options),
        ),
        SerializedTransform::Mirror(options) => Stage::Mirror(MirrorTransform::from_config(options)),
    };
    let ticker: Option<Every> = match transform.get_tempo_subdiv() {
        Some(period) => {
            if period == 0 {
                return Err(StageFault::ZeroSubdivision);
            }
            Some(every(period))
        },
        None => None,
    };
    Ok(StageSlot { transform, ticker })
}

/// A pipeline as contracts see it.
pub struct PipelineView {
    pub name: Seq<char>,
    pub stages: Seq<SlotView>,
}

impl PipelineView {
    /// A pipeline has a stage, and all its stages are well-formed.
    pub open spec fn wf(self) -> bool {
        &&& self.stages.len() > 0
        &&& forall|at: int| 0 <= at < self.stages.len() ==> (#[trigger] self.stages[at]).wf()
    }
}

/// A named chain of stages.
pub struct Pipeline {
    pub name: String,
    stages: Vec<StageSlot>,
}

impl View for Pipeline {
    type V = PipelineView;

    closed spec fn view(&self) -> PipelineView {
        PipelineView {
            name: self.name@,
            stages: self.stages@.map_values(|slot: StageSlot| slot@),
        }
    }
}

/// Sorts what a stage asked of its scheduler: what is to be emitted at once
/// goes to the next stage, what is to be emitted later to the host.
fn sort_requests(
    requests: &Vec<Scheduled>,
    next: usize,
    forwarded: &mut Vec<MIDIRouterEvent>,
    actions: &mut Vec<Action>,
)
    ensures
        events_view(final(forwarded)@) == events_view(old(forwarded)@) + immediate(
            requests_view(requests@),
        ),
        actions_view(final(actions)@) == actions_view(old(actions)@) + delayed(
            requests_view(requests@),
            next as int,
        ),
{
    let mut at: usize = 0;
    while at < requests.len()
        invariant
            at <= requests.len(),
            events_view(forwarded@) == events_view(old(forwarded)@) + immediate(
                requests_view(requests@).take(at as int),
            ),
            actions_view(actions@) == actions_view(old(actions)@) + delayed(
                requests_view(requests@).take(at as int),
                next as int,
            ),
        decreases requests.len() - at,
    {
        let ghost sent = requests_view(requests@);
        proof {
            sent.lemma_take_succ_push(at as int);
            assert(sent.take(at + 1).drop_last() =~= sent.take(at as int));
        }
        match &requests[at] {
            Scheduled::Now(event) => {
                let ghost before = forwarded@;
                forwarded.push(event.clone());
                assert(events_view(forwarded@) =~= events_view(before).push(event@));
            },
            Scheduled::Later(event, delay_ms) => {
                let ghost before = actions@;
                actions.push(Action::Delay { stage: next, event: event.clone(), delay_ms: *delay_ms });
                assert(actions_view(actions@) =~= actions_view(before).push(
                    ActionView::Delay { stage: next as int, event: event@, delay_ms: *delay_ms },
                ));
            },
        }
        at += 1;
    }
    proof {
        requests_view(requests@).lemma_take_len();
    }
}

/// Notes what the host is to do for an input of stage `at` besides what the
/// scheduler is asked.
fn note_side_actions(stage: &Stage, at: usize, input: &MIDIMapperEvent, actions: &mut Vec<Action>)
    ensures
        actions_view(final(actions)@) == actions_view(old(actions)@) + side_actions(
            stage.model(),
            at as int,
            input@,
        ),
{
    match stage {
        Stage::Inspect(transform) => {
            if let MIDIMapperEvent::RouterMessage(message) = input {
                actions.push(Action::Print(transform.describe(message)));
            }
        },
        Stage::Wasm(_) => {
            actions.push(Action::Script { stage: at, input: input.clone() });
        },
        _ => {},
    }
}

/// Hands one input to a stage and sorts what comes of it.
fn handle_one(
    stage: &mut Stage,
    at: usize,
    input: MIDIMapperEvent,
    forwarded: &mut Vec<MIDIRouterEvent>,
    actions: &mut Vec<Action>,
)
    requires
        Stage::wf(old(stage).model()),
        at < usize::MAX,
    ensures
        Stage::wf(final(stage).model()),
        final(stage).model() == handle(old(stage).model(), at as int, input@).stage,
        events_view(final(forwarded)@) == events_view(old(forwarded)@) + handle(
            old(stage).model(),
            at as int,
            input@,
        ).forwarded,
        actions_view(final(actions)@) == actions_view(old(actions)@) + handle(
            old(stage).model(),
            at as int,
            input@,
        ).actions,
{
    note_side_actions(stage, at, &input, actions);
    let mut scheduler = SchedulerHandler::new();
    let output = stage.process_message(input, &mut scheduler);
    if let Some(event) = output {
        forwarded.push(event);
    }
    let requests = scheduler.into_requests();
    sort_requests(&requests, at + 1, forwarded, actions);
}

impl Pipeline {
    pub open spec fn wf(&self) -> bool {
        self@.wf()
    }

    /// The number of stages.
    pub fn len(&self) -> (len: usize)
        ensures
            len == self@.stages.len(),
    {
        self.stages.len()
    }

    /// Runs a list of events through the stages from `from` on.
    fn run(&mut self, from: usize, events: Vec<MIDIRouterEvent>, actions: &mut Vec<Action>)
        requires
            old(self).wf(),
        ensures
            final(self).wf(),
            final(self)@.name == old(self)@.name,
            final(self)@.stages == flow(old(self)@.stages, from as int, events_view(events@)).stages,
            actions_view(final(actions)@) == actions_view(old(actions)@) + flow(
                old(self)@.stages,
                from as int,
                events_view(events@),
            ).actions,
    {
        let mut batch: Vec<MIDIRouterEvent> = events;
        let mut at: usize = from;
        let ghost mut done: Seq<ActionView> = Seq::empty();
        while at < self.stages.len()
            invariant
                from <= at,
                self.wf(),
                self@.name == old(self)@.name,
                self@.stages.len() == old(self)@.stages.len(),
                actions_view(actions@) == actions_view(old(actions)@) + done,
                flow(old(self)@.stages, from as int, events_view(events@)).stages == flow(
                    self@.stages,
                    at as int,
                    events_view(batch@),
                ).stages,
                flow(old(self)@.stages, from as int, events_view(events@)).actions == done + flow(
                    self@.stages,
                    at as int,
                    events_view(batch@),
                ).actions,
            decreases self.stages.len() - at,
        {
            let ghost stages = self@.stages;
            let ghost inputs = events_view(batch@);
            let ghost start = stages[at as int].transform;
            let mut next: Vec<MIDIRouterEvent> = Vec::new();
            let ghost mut local: Seq<ActionView> = Seq::empty();
            let mut i: usize = 0;
            while i < batch.len()
                invariant
                    i <= batch.len(),
                    at < self.stages.len(),
                    inputs == events_view(batch@),
                    stages.len() == self.stages.len(),
                    start == stages[at as int].transform,
                    self@.name == old(self)@.name,
                    self.wf(),
                    self@.stages == with_stage(
                        stages,
                        at as int,
                        handle_all(start, at as int, inputs.take(i as int)).stage,
                    ),
                    events_view(next@) == handle_all(start, at as int, inputs.take(i as int)).forwarded,
                    local == handle_all(start, at as int, inputs.take(i as int)).actions,
                    actions_view(actions@) == actions_view(old(actions)@) + done + local,
                decreases batch.len() - i,
            {
                let ghost before = self@.stages;
                let ghost prior = handle_all(start, at as int, inputs.take(i as int));
                let input = MIDIMapperEvent::RouterMessage(batch[i].clone());
                proof {
                    inputs.lemma_take_succ_push(i as int);
                    assert(inputs.take(i + 1).drop_last() =~= inputs.take(i as int));
                    assert(self.stages@[at as int]@ == before[at as int]);
                }
                let ghost slots = self.stages@;
                let slot = &mut self.stages[at];
                handle_one(&mut slot.transform, at, input, &mut next, actions);
                proof {
                    let one = handle(prior.stage, at as int, input@);
                    local = local + one.actions;
                    assert forall|k: int| 0 <= k < slots.len() && k != at implies self.stages@[k]
                        == slots[k] by {}
                    let target = with_stage(stages, at as int, one.stage);
                    assert forall|k: int| 0 <= k < target.len() implies self@.stages[k]
                        == target[k] by {
                        assert(before[k] == slots[k]@);
                    }
                    assert forall|k: int| 0 <= k < self@.stages.len() implies (
                    #[trigger] self@.stages[k]).wf() by {
                        if k != at {
                            assert(self@.stages[k] == before[k]);
                        }
                    }
                }
                i += 1;
            }
            proof {
                inputs.lemma_take_len();
                done = done + local;
            }
            batch = next;
            at += 1;
        }
        let ghost ran = actions_view(actions@);
        let ghost left = events_view(batch@);
        let mut i: usize = 0;
        while i < batch.len()
            invariant
                i <= batch.len(),
                left == events_view(batch@),
                actions_view(actions@) == ran + emitted(left.take(i as int)),
            decreases batch.len() - i,
        {
            let ghost acted = actions@;
            proof {
                left.lemma_take_succ_push(i as int);
            }
            actions.push(Action::Emit(batch[i].clone()));
            assert(actions_view(actions@) =~= actions_view(acted).push(
                ActionView::Emit(batch@[i as int]@),
            ));
            i += 1;
        }
        proof {
            left.lemma_take_len();
        }
    }

    /// Feeds an input into stage `stage`, numbered from 0, and runs what
    /// comes of it through the stages behind. Says what the host is to do,
    /// in order.
    pub fn feed(&mut self, stage: usize, input: MIDIMapperEvent) -> (actions: Vec<Action>)
        requires
            old(self).wf(),
        ensures
            final(self).wf(),
            final(self)@.name == old(self)@.name,
            final(self)@.stages == feed(old(self)@.stages, stage as int, input@).stages,
            actions_view(actions@) == feed(old(self)@.stages, stage as int, input@).actions,
    {
        let mut actions: Vec<Action> = Vec::new();
        if stage >= self.stages.len() {
            if let MIDIMapperEvent::RouterMessage(event) = input {
                actions.push(Action::Emit(event));
            }
            return actions;
        }
        let ghost before = self@.stages;
        let mut forwarded: Vec<MIDIRouterEvent> = Vec::new();
        let slot = &mut self.stages[stage];
        handle_one(&mut slot.transform, stage, input, &mut forwarded, &mut actions);
        proof {
            let here = handle(before[stage as int].transform, stage as int, input@);
            assert(self@.stages =~= with_stage(before, stage as int, here.stage));
            assert forall|k: int| 0 <= k < self@.stages.len() implies (
            #[trigger] self@.stages[k]).wf() by {}
        }
        self.run(stage + 1, forwarded, &mut actions);
        actions
    }

    /// Takes an event that has reached the pipeline.
    pub fn on_message(&mut self, message: MIDIRouterEvent) -> (actions: Vec<Action>)
        requires
            old(self).wf(),
        ensures
            final(self).wf(),
            final(self)@.name == old(self)@.name,
            final(self)@.stages == feed(
                old(self)@.stages,
                0,
                MapperEventView::RouterMessage(message@),
            ).stages,
            actions_view(actions@) == feed(
                old(self)@.stages,
                0,
                MapperEventView::RouterMessage(message@),
            ).actions,
    {
        self.feed(0, MIDIMapperEvent::RouterMessage(message))
    }

    /// Takes an event that a delay or a script has brought to stage `stage`.
    pub fn resume(&mut self, stage: usize, event: MIDIRouterEvent) -> (actions: Vec<Action>)
        requires
            old(self).wf(),
        ensures
            final(self).wf(),
            final(self)@.name == old(self)@.name,
            final(self)@.stages == feed(
                old(self)@.stages,
                stage as int,
                MapperEventView::RouterMessage(event@),
            ).stages,
            actions_view(actions@) == feed(
                old(self)@.stages,
                stage as int,
                MapperEventView::RouterMessage(event@),
            ).actions,
    {
        self.feed(stage, MIDIMapperEvent::RouterMessage(event))
    }

    /// Makes a pipeline from its options. A pipeline must have a stage, a
    /// distribute stage a channel, and a stage that listens to the clock a
    /// subdivision other than 0. The first stage that cannot be made is
    /// reported.
    pub fn from_config(config: PipelineOptions) -> (made: Result<Pipeline, PipelineError>)
        ensures
            match made {
                Ok(pipeline) => {
                    &&& config.sound()
                    &&& pipeline.wf()
                    &&& pipeline@.name == config.name@
                    &&& pipeline@.stages == slots_of(config.transforms@)
                },
                Err(error) => config.refused_with(error),
            },
    {
        let mut transforms: Vec<SerializedTransform> = config.transforms;
        if transforms.len() == 0 {
            return Err(PipelineError::NoTransforms);
        }
        let ghost all = transforms@;
        let mut stages: Vec<StageSlot> = Vec::new();
        let mut at: usize = 0;
        while transforms.len() > 0
            invariant
                all == config.transforms@,
                all.len() == config.transforms.len(),
                at + transforms.len() == all.len(),
                transforms@ == all.skip(at as int),
                stages.len() == at,
                forall|k: int| 0 <= k < at ==> (#[trigger] all[k]).fault() is None,
                forall|k: int| 0 <= k < at ==> (#[trigger] stages@[k])@ == all[k].slot(),
                forall|k: int| 0 <= k < at ==> (#[trigger] stages@[k])@.wf(),
            decreases transforms.len(),
        {
            let transform = transforms.remove(0);
            match build_stage(transform) {
                Ok(slot) => {
                    stages.push(slot);
                },
                Err(fault) => {
                    return Err(PipelineError::Stage { stage: at, fault });
                },
            }
            at += 1;
        }
        let pipeline = Pipeline { name: config.name, stages };
        Ok(pipeline)
    }

    /// Takes an event of the clock. Every subscription counts it; each
    /// stage whose subscription lets it through gets a tick.
    pub fn on_clock(&mut self, event: ClockEvent) -> (actions: Vec<Action>)
        requires
            old(self).wf(),
        ensures
            final(self).wf(),
            final(self)@.name == old(self)@.name,
            final(self)@.stages == clocked(old(self)@.stages, event).stages,
            actions_view(actions@) == clocked(old(self)@.stages, event).actions,
    {
        let ghost before = self@.stages;
        let ghost stepped = all_ticked(before, event);
        let ghost firing = all_fires(before, event);
        let mut fired: Vec<bool> = Vec::new();
        let mut at: usize = 0;
        while at < self.stages.len()
            invariant
                at <= self.stages.len(),
                self.stages.len() == before.len(),
                self@.name == old(self)@.name,
                stepped == all_ticked(before, event),
                firing == all_fires(before, event),
                fired@ == firing.take(at as int),
                forall|k: int| 0 <= k < at ==> (#[trigger] self@.stages[k]) == stepped[k],
                forall|k: int| at <= k < before.len() ==> (#[trigger] self@.stages[k]) == before[k],
                forall|k: int| 0 <= k < before.len() ==> (#[trigger] before[k]).wf(),
                forall|k: int| 0 <= k < before.len() ==> (#[trigger] self@.stages[k]).wf(),
            decreases self.stages.len() - at,
        {
            let ghost slots = self.stages@;
            let ghost here = self@.stages;
            assert(here[at as int].wf());
            let slot = &mut self.stages[at];
            let emits: bool = match &mut slot.ticker {
                Some(ticker) => ticker.step(event),
                None => false,
            };
            fired.push(emits);
            proof {
                assert forall|k: int| 0 <= k < before.len() implies (#[trigger] self@.stages[k])
                    == if k <= at {
                    stepped[k]
                } else {
                    before[k]
                } by {
                    if k != at {
                        assert(here[k] == slots[k]@);
                    }
                }
            }
            at += 1;
        }
        proof {
            firing.lemma_take_len();
        }
        let mut actions: Vec<Action> = Vec::new();
        let mut at: usize = 0;
        while at < self.stages.len()
            invariant
                at <= self.stages.len(),
                self.stages.len() == before.len(),
                fired@ == firing,
                firing.len() == before.len(),
                stepped.len() == before.len(),
                self.wf(),
                self@.name == old(self)@.name,
                self@.stages == pulse(stepped, firing, at as nat).stages,
                actions_view(actions@) == pulse(stepped, firing, at as nat).actions,
            decreases self.stages.len() - at,
        {
            if fired[at] {
                let mut more = self.feed(at, MIDIMapperEvent::Tick);
                actions.append(&mut more);
                proof {
                    lemma_feed_keeps_len(
                        pulse(stepped, firing, at as nat).stages,
                        at as int,
                        MapperEventView::Tick,
                    );
                }
            }
            at += 1;
        }
        actions
    }
}

/// A run through the stages leaves as many stages as there were, each with
/// the subscription it had.
pub proof fn lemma_flow_keeps_len(stages: Seq<SlotView>, at: int, events: Seq<RouterEventView>)
    ensures
        flow(stages, at, events).stages.len() == stages.len(),
        forall|k: int|
            0 <= k < stages.len() ==> (#[trigger] flow(stages, at, events).stages[k]).ticker
                == stages[k].ticker,
    decreases stages.len() - at,
{
    if 0 <= at < stages.len() {
        let here = handle_all(stages[at].transform, at, events);
        lemma_flow_keeps_len(with_stage(stages, at, here.stage), at + 1, here.forwarded);
    }
}

/// An input leaves as many stages as there were, each with the
/// subscription it had, and leaves the stages before the one it was fed
/// into as they were.
pub proof fn lemma_feed_keeps_len(stages: Seq<SlotView>, at: int, input: MapperEventView)
    ensures
        feed(stages, at, input).stages.len() == stages.len(),
        forall|k: int|
            0 <= k < stages.len() ==> (#[trigger] feed(stages, at, input).stages[k]).ticker
                == stages[k].ticker,
{
    if 0 <= at < stages.len() {
        let here = handle(stages[at].transform, at, input);
        lemma_flow_keeps_len(with_stage(stages, at, here.stage), at + 1, here.forwarded);
    }
}

/// Whether an action that came of an input of stage `at` keeps to the
/// stages behind: a delay comes back at a later stage, a script is one of
/// stage `at` or a later one.
pub open spec fn keeps_behind(action: ActionView, at: int) -> bool {
    match action {
        ActionView::Delay { stage, .. } => stage > at,
        ActionView::Script { stage, .. } => stage >= at,
        _ => true,
    }
}

proof fn lemma_delayed_keeps_behind(sent: Seq<ScheduledView>, at: int)
    ensures
        forall|k: int|
            0 <= k < delayed(sent, at + 1).len() ==> keeps_behind(
                #[trigger] delayed(sent, at + 1)[k],
                at,
            ),
    decreases sent.len(),
{
    if sent.len() > 0 {
        lemma_delayed_keeps_behind(sent.drop_last(), at);
        let all = delayed(sent, at + 1);
        let front = delayed(sent.drop_last(), at + 1);
        assert forall|k: int| 0 <= k < all.len() implies keeps_behind(#[trigger] all[k], at) by {
            if k < front.len() {
                assert(all[k] == front[k]);
            }
        }
    }
}

proof fn lemma_handle_all_keeps_behind(stage: StageModel, at: int, events: Seq<RouterEventView>)
    ensures
        forall|k: int|
            0 <= k < handle_all(stage, at, events).actions.len() ==> keeps_behind(
                #[trigger] handle_all(stage, at, events).actions[k],
                at,
            ),
    decreases events.len(),
{
    if events.len() > 0 {
        let before = handle_all(stage, at, events.drop_last());
        let input = MapperEventView::RouterMessage(events.last());
        lemma_handle_all_keeps_behind(stage, at, events.drop_last());
        lemma_delayed_keeps_behind(process::<Stage>(before.stage, input).sent, at);
    }
}

proof fn lemma_flow_keeps_behind(stages: Seq<SlotView>, at: int, events: Seq<RouterEventView>)
    requires
        0 <= at,
    ensures
        forall|k: int|
            0 <= k < flow(stages, at, events).actions.len() ==> keeps_behind(
                #[trigger] flow(stages, at, events).actions[k],
                at,
            ),
    decreases stages.len() - at,
{
    if at < stages.len() {
        let here = handle_all(stages[at].transform, at, events);
        lemma_handle_all_keeps_behind(stages[at].transform, at, events);
        lemma_flow_keeps_behind(with_stage(stages, at, here.stage), at + 1, here.forwarded);
        let rest = flow(with_stage(stages, at, here.stage), at + 1, here.forwarded).actions;
        let all = flow(stages, at, events).actions;
        assert forall|k: int| 0 <= k < all.len() implies keeps_behind(#[trigger] all[k], at) by {
            if k >= here.actions.len() {
                assert(keeps_behind(rest[k - here.actions.len()], at + 1));
            }
        }
    }
}

/// Nothing that a stage lets out passes through that stage again. Of all
/// that comes of an input of stage `at`, what is to come back after a
/// delay comes back at a stage behind `at`, and the scripts to run are
/// those of stage `at` and of stages behind it.
pub proof fn lemma_nothing_comes_back(stages: Seq<SlotView>, at: int, input: MapperEventView)
    requires
        0 <= at,
    ensures
        forall|k: int|
            0 <= k < feed(stages, at, input).actions.len() ==> keeps_behind(
                #[trigger] feed(stages, at, input).actions[k],
                at,
            ),
{
    if at < stages.len() {
        let here = handle(stages[at].transform, at, input);
        lemma_delayed_keeps_behind(process::<Stage>(stages[at].transform, input).sent, at);
        lemma_flow_keeps_behind(with_stage(stages, at, here.stage), at + 1, here.forwarded);
    }
}

proof fn lemma_pulse_of_none(stages: Seq<SlotView>, fired: Seq<bool>, upto: nat)
    requires
        upto <= fired.len(),
        forall|k: int| 0 <= k < fired.len() ==> !fired[k],
    ensures
        pulse(stages, fired, upto) == (Outcome { stages, actions: Seq::empty() }),
    decreases upto,
{
    if upto > 0 {
        lemma_pulse_of_none(stages, fired, (upto - 1) as nat);
    }
}

/// A restart does nothing to the stages and asks nothing of the host, but
/// the very next base tick makes a tick for every stage that listens to
/// the clock, wherever its count stood, and all counts start over.
pub proof fn lemma_restart_reaches_every_subscription(stages: Seq<SlotView>)
    requires
        forall|k: int|
            0 <= k < stages.len() && stages[k].ticker is Some
                ==> (#[trigger] stages[k]).ticker->Some_0.period >= 1,
    ensures
        clocked(stages, ClockEvent::Restart).actions == Seq::<ActionView>::empty(),
        clocked(stages, ClockEvent::Restart).stages == all_ticked(stages, ClockEvent::Restart),
        forall|k: int|
            0 <= k < stages.len() ==> (#[trigger] all_fires(
                clocked(stages, ClockEvent::Restart).stages,
                ClockEvent::Tick,
            )[k]) == (stages[k].ticker is Some),
        forall|k: int|
            0 <= k < stages.len() && stages[k].ticker is Some ==> (#[trigger] all_ticked(
                clocked(stages, ClockEvent::Restart).stages,
                ClockEvent::Tick,
            )[k]).ticker == Some(EveryView::fresh(stages[k].ticker->Some_0.period)),
{
    lemma_pulse_of_none(
        all_ticked(stages, ClockEvent::Restart),
        all_fires(stages, ClockEvent::Restart),
        stages.len(),
    );
}

} // verus!
