//! The router: what it is configured with and what it decides.

use vstd::prelude::*;

use crate::midi_event::{MIDIEvent, MIDIRouterEvent, RouterEventView, ToMidi};
use crate::pipeline::{slots_of, Pipeline, PipelineError, PipelineOptions};
use crate::tempo::ClockEvent;

verus! {

/// What a pipeline stage is fed: a tick of the clock or an event.
#[derive(Debug, PartialEq, Eq)]
pub enum MIDIMapperEvent {
    Tick,
    RouterMessage(MIDIRouterEvent),
}

/// A stage input as contracts see it.
pub enum MapperEventView {
    Tick,
    RouterMessage(RouterEventView),
}

impl View for MIDIMapperEvent {
    type V = MapperEventView;

    open spec fn view(&self) -> MapperEventView {
        match self {
            MIDIMapperEvent::Tick => MapperEventView::Tick,
            MIDIMapperEvent::RouterMessage(message) => MapperEventView::RouterMessage(message@),
        }
    }
}

impl Clone for MIDIMapperEvent {
    fn clone(&self) -> (copy: MIDIMapperEvent)
        ensures
            copy@ == self@,
    {
        match self {
            MIDIMapperEvent::Tick => MIDIMapperEvent::Tick,
            MIDIMapperEvent::RouterMessage(message) => MIDIMapperEvent::RouterMessage(
                message.clone(),
            ),
        }
    }
}

/// The clock as a configuration asks for it.
#[derive(Debug)]
pub struct ClockConfig {
    /// The tempo of a clock of the router's own, in beats a minute.
    pub bpm: Option<u64>,
    /// The base ticks in a beat.
    pub ppqn: Option<u64>,
    /// The alias of the device whose clock the router follows.
    pub from: Option<String>,
    pub to: Option<Vec<String>>,
}

/// The tempo where no clock is configured, in beats a minute.
pub const DEFAULT_BPM: u64 = 60;

/// The base ticks in a beat where no clock is configured.
pub const DEFAULT_PPQN: u64 = 48;

/// The alias that stands for the router itself.
pub open spec fn own_alias() -> Seq<char> {
    "self"@
}

/// The clock of a router.
#[derive(Debug, Clone, Copy, PartialEq, Eq, Structural)]
pub enum ClockSetup {
    /// A clock of the router's own.
    Internal { bpm: u64, ppqn: u64 },
    /// The clock of a device, which the router follows.
    External { ppqn: u64 },
}

/// Why a router cannot be made from a configuration.
#[derive(Debug, Clone, Copy, PartialEq, Eq, Structural)]
pub enum ConfigError {
    /// The clock has both a tempo of its own and a device to follow.
    ConflictingClock,
    /// The clock has neither a tempo of its own nor a device to follow.
    MissingClockSource,
    /// The clock does not say how many base ticks make a beat.
    MissingPpqn,
    /// Two input devices, or two output devices, have the same alias.
    RepeatedAlias,
    /// Pipeline `pipeline`, numbered from 0, is the first that cannot be
    /// made.
    Pipeline { pipeline: usize, error: PipelineError },
}

impl ClockConfig {
    /// The clock that the configuration asks for, or what is wrong with it.
    /// A clock has either a tempo or a device to follow, and says how many
    /// base ticks make a beat.
    pub open spec fn setup(self) -> Result<ClockSetup, ConfigError> {
        if self.bpm is Some && self.from is Some {
            Err(ConfigError::ConflictingClock)
        } else if self.bpm is None && self.from is None {
            Err(ConfigError::MissingClockSource)
        } else if self.ppqn is None {
            Err(ConfigError::MissingPpqn)
        } else if self.bpm is Some {
            Ok(ClockSetup::Internal { bpm: self.bpm->Some_0, ppqn: self.ppqn->Some_0 })
        } else {
            Ok(ClockSetup::External { ppqn: self.ppqn->Some_0 })
        }
    }
}

/// The clock that an optional configuration asks for: where there is none,
/// a clock of the router's own at the default tempo.
pub open spec fn clock_setup(clock: Option<ClockConfig>) -> Result<ClockSetup, ConfigError> {
    match clock {
        Some(clock) => clock.setup(),
        None => Ok(ClockSetup::Internal { bpm: DEFAULT_BPM, ppqn: DEFAULT_PPQN }),
    }
}

/// The alias of the device that the clock comes from: the router's own
/// where none is configured.
pub open spec fn clock_source(clock: Option<ClockConfig>) -> Seq<char> {
    match clock {
        Some(clock) => match clock.from {
            Some(source) => source@,
            None => own_alias(),
        },
        None => own_alias(),
    }
}

/// The aliases of the devices that the clock goes to: none where none are
/// configured.
pub open spec fn clock_destination(clock: Option<ClockConfig>) -> Seq<String> {
    match clock {
        Some(clock) => match clock.to {
            Some(to) => to@,
            None => Seq::empty(),
        },
        None => Seq::empty(),
    }
}

/// No alias stands for two devices of a list.
pub open spec fn distinct_aliases(devices: Seq<(String, String)>) -> bool {
    forall|first: int, second: int|
        0 <= first < second < devices.len() ==> (#[trigger] devices[first]).0@ != (
        #[trigger] devices[second]).0@
}

/// A configuration of the router.
#[derive(Debug)]
pub struct AppConfig {
    /// The input devices: an alias and the beginning of the device's name.
    /// An alias names one device.
    pub input_devices: Vec<(String, String)>,
    /// The output devices: an alias and the beginning of the device's name.
    /// An alias names one device.
    pub output_devices: Vec<(String, String)>,
    pub pipelines: Vec<PipelineOptions>,
    pub clock: Option<ClockConfig>,
}

/// Where an incoming event goes.
#[derive(Debug, Clone, Copy, PartialEq, Eq, Structural)]
pub enum Route {
    /// To the clock, as the clock event given, if any. No pipeline sees it.
    Clock(Option<ClockEvent>),
    /// To every pipeline.
    Pipelines,
}

/// Why an outgoing event is not sent.
#[derive(Debug, Clone, Copy, PartialEq, Eq, Structural)]
pub enum EgressError {
    /// No output device has the alias that the event names.
    UnknownAlias,
    /// A field of the event is out of the range that MIDI can carry.
    NotEncodable,
}

/// The router.
pub struct App {
    pub pipelines: Vec<Pipeline>,
    pub clock: ClockSetup,
    pub clock_source: String,
    pub clock_destination: Vec<String>,
    /// The input devices, each under an alias of its own.
    pub input_devices: Vec<(String, String)>,
    /// The output devices, each under an alias of its own.
    pub output_devices: Vec<(String, String)>,
}

/// Whether no alias stands for two devices of a list.
fn aliases_are_distinct(devices: &Vec<(String, String)>) -> (distinct: bool)
    ensures
        distinct == distinct_aliases(devices@),
{
    let mut second: usize = 0;
    while second < devices.len()
        invariant
            second <= devices.len(),
            forall|i: int, j: int|
                0 <= i < j < second ==> (#[trigger] devices@[i]).0@ != (#[trigger] devices@[j]).0@,
        decreases devices.len() - second,
    {
        let mut first: usize = 0;
        while first < second
            invariant
                first <= second < devices.len(),
                forall|i: int|
                    0 <= i < first ==> (#[trigger] devices@[i]).0@ != devices@[second as int].0@,
            decreases second - first,
        {
            if devices[first].0 == devices[second].0 {
                return false;
            }
            first += 1;
        }
        second += 1;
    }
    true
}

/// The clock event that a realtime event from the clock source stands
/// for, where the router follows that clock: a timing clock is a tick, a
/// playback position a restart.
pub open spec fn clock_event(clock: ClockSetup, event: MIDIEvent) -> Option<ClockEvent> {
    match clock {
        ClockSetup::External { .. } => match event {
            MIDIEvent::TimingClock => Some(ClockEvent::Tick),
            MIDIEvent::PlaybackPosition(_) => Some(ClockEvent::Restart),
            _ => None,
        },
        ClockSetup::Internal { .. } => None,
    }
}

/// Where an incoming event goes: a realtime event from the clock source
/// to the clock and nowhere else, any other event to every pipeline.
pub open spec fn route_of(clock: ClockSetup, source: Seq<char>, message: RouterEventView) -> Route {
    if message.event.realtime() && message.device == source {
        Route::Clock(clock_event(clock, message.event))
    } else {
        Route::Pipelines
    }
}

impl App {
    /// Every pipeline is well-formed, and no alias stands for two input
    /// devices or for two output devices.
    pub open spec fn wf(&self) -> bool {
        &&& forall|at: int|
            0 <= at < self.pipelines.len() ==> (#[trigger] self.pipelines[at]).wf()
        &&& distinct_aliases(self.input_devices@)
        &&& distinct_aliases(self.output_devices@)
    }

    /// Whether an output device has the alias.
    pub open spec fn knows(&self, alias: Seq<char>) -> bool {
        exists|at: int| 0 <= at < self.output_devices.len() && (#[trigger] self.output_devices[at]).0@ == alias
    }

    /// Decides on the clock that a configuration asks for.
    pub fn process_clock_config(clock: &ClockConfig) -> (setup: Result<ClockSetup, ConfigError>)
        ensures
            setup == clock.setup(),
    {
        if clock.bpm.is_some() && clock.from.is_some() {
            return Err(ConfigError::ConflictingClock);
        }
        if clock.bpm.is_none() && clock.from.is_none() {
            return Err(ConfigError::MissingClockSource);
        }
        match clock.ppqn {
            None => Err(ConfigError::MissingPpqn),
            Some(ppqn) => match clock.bpm {
                Some(bpm) => Ok(ClockSetup::Internal { bpm, ppqn }),
                None => Ok(ClockSetup::External { ppqn }),
            },
        }
    }

    /// Makes the router from a configuration. What is wrong with the clock
    /// is reported first, then an alias that stands for two devices, then
    /// the first pipeline that cannot be made.
    pub fn from_config(config: AppConfig) -> (made: Result<App, ConfigError>)
        ensures
            match made {
                Ok(app) => {
                    &&& app.wf()
                    &&& clock_setup(config.clock) == Ok::<ClockSetup, ConfigError>(app.clock)
                    &&& app.clock_source@ == clock_source(config.clock)
                    &&& app.clock_destination@ == clock_destination(config.clock)
                    &&& app.input_devices == config.input_devices
                    &&& app.output_devices == config.output_devices
                    &&& app.pipelines.len() == config.pipelines.len()
                    &&& forall|at: int|
                        0 <= at < config.pipelines.len() ==> {
                            &&& (#[trigger] config.pipelines[at]).sound()
                            &&& app.pipelines[at]@.name == config.pipelines[at].name@
                            &&& app.pipelines[at]@.stages == slots_of(
                                config.pipelines[at].transforms@,
                            )
                        }
                },
                Err(ConfigError::RepeatedAlias) => {
                    &&& clock_setup(config.clock) is Ok
                    &&& !(distinct_aliases(config.input_devices@) && distinct_aliases(
                        config.output_devices@,
                    ))
                },
                Err(ConfigError::Pipeline { pipeline, error }) => {
                    &&& clock_setup(config.clock) is Ok
                    &&& distinct_aliases(config.input_devices@)
                    &&& distinct_aliases(config.output_devices@)
                    &&& pipeline < config.pipelines.len()
                    &&& config.pipelines[pipeline as int].refused_with(error)
                    &&& forall|at: int|
                        0 <= at < pipeline ==> (#[trigger] config.pipelines[at]).sound()
                },
                Err(error) => clock_setup(config.clock) == Err::<ClockSetup, ConfigError>(error),
            },
    {
        let (clock, clock_source, clock_destination) = match config.clock {
            Some(clock_config) => {
                let clock = match Self::process_clock_config(&clock_config) {
                    Ok(clock) => clock,
                    Err(error) => {
                        return Err(error);
                    },
                };
                let source: String = match clock_config.from {
                    Some(source) => source,
                    None => "self".to_owned(),
                };
                let destination: Vec<String> = match clock_config.to {
                    Some(to) => to,
                    None => Vec::new(),
                };
                (clock, source, destination)
            },
            None => (
                ClockSetup::Internal { bpm: DEFAULT_BPM, ppqn: DEFAULT_PPQN },
                "self".to_owned(),
                Vec::new(),
            ),
        };
        if !aliases_are_distinct(&config.input_devices) || !aliases_are_distinct(
            &config.output_devices,
        ) {
            return Err(ConfigError::RepeatedAlias);
        }
        let mut options: Vec<PipelineOptions> = config.pipelines;
        let ghost all = options@;
        let mut pipelines: Vec<Pipeline> = Vec::new();
        let mut at: usize = 0;
        while options.len() > 0
            invariant
                clock_setup(config.clock) is Ok,
                distinct_aliases(config.input_devices@),
                distinct_aliases(config.output_devices@),
                all == config.pipelines@,
                all.len() == config.pipelines.len(),
                at + options.len() == all.len(),
                options@ == all.skip(at as int),
                pipelines.len() == at,
                forall|k: int| 0 <= k < at ==> (#[trigger] all[k]).sound(),
                forall|k: int| 0 <= k < at ==> (#[trigger] pipelines[k]).wf(),
                forall|k: int| 0 <= k < at ==> (#[trigger] pipelines[k])@.name == all[k].name@,
                forall|k: int|
                    0 <= k < at ==> (#[trigger] pipelines[k])@.stages == slots_of(
                        all[k].transforms@,
                    ),
            decreases options.len(),
        {
            let option = options.remove(0);
            match Pipeline::from_config(option) {
                Ok(pipeline) => {
                    pipelines.push(pipeline);
                },
                Err(error) => {
                    return Err(ConfigError::Pipeline { pipeline: at, error });
                },
            }
            at += 1;
        }
        Ok(
            App {
                pipelines,
                clock,
                clock_source,
                clock_destination,
                input_devices: config.input_devices,
                output_devices: config.output_devices,
            },
        )
    }

    /// Says where an incoming event goes.
    pub fn route(&self, message: &MIDIRouterEvent) -> (route: Route)
        ensures
            route == route_of(self.clock, self.clock_source@, message@),
    {
        if message.event.is_realtime() && message.device == self.clock_source {
            match self.clock {
                ClockSetup::External { .. } => match message.event {
                    MIDIEvent::TimingClock => Route::Clock(Some(ClockEvent::Tick)),
                    MIDIEvent::PlaybackPosition(_) => Route::Clock(Some(ClockEvent::Restart)),
                    _ => Route::Clock(None),
                },
                ClockSetup::Internal { .. } => Route::Clock(None),
            }
        } else {
            Route::Pipelines
        }
    }

    /// Finds the output device that an outgoing event names, and writes
    /// the event as bytes. Gives the place of the device among the output
    /// devices and the bytes to send to it. In a well-formed router that
    /// device is the only one of its alias. An alias that no output device
    /// has is reported before an event that cannot be written.
    pub fn egress(&self, message: &MIDIRouterEvent) -> (sent: Result<(usize, Vec<u8>), EgressError>)
        ensures
            match sent {
                Ok((at, bytes)) => {
                    &&& at < self.output_devices.len()
                    &&& self.output_devices[at as int].0@ == message.device@
                    &&& forall|k: int|
                        0 <= k < at ==> (#[trigger] self.output_devices[k]).0@ != message.device@
                    &&& self.wf() ==> forall|k: int|
                        0 <= k < self.output_devices.len() && k != at ==> (
                        #[trigger] self.output_devices[k]).0@ != message.device@
                    &&& message.event.valid()
                    &&& bytes@ == message.event.wire()
                },
                Err(EgressError::UnknownAlias) => !self.knows(message.device@),
                Err(EgressError::NotEncodable) => self.knows(message.device@)
                    && !message.event.valid(),
            },
    {
        let mut at: usize = 0;
        while at < self.output_devices.len()
            invariant
                at <= self.output_devices.len(),
                forall|k: int| 0 <= k < at ==> (#[trigger] self.output_devices[k]).0@ != message.device@,
            decreases self.output_devices.len() - at,
        {
            if self.output_devices[at].0 == message.device {
                if message.event.is_valid() {
                    return Ok((at, message.event.to_midi()));
                } else {
                    return Err(EgressError::NotEncodable);
                }
            }
            at += 1;
        }
        Err(EgressError::UnknownAlias)
    }
}

} // verus!
