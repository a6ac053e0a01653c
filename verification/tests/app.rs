use midi_router::app::{
    App, AppConfig, ClockConfig, ClockSetup, ConfigError, EgressError, MIDIMapperEvent, Route,
};
use midi_router::midi_event::{parse_midi_event, MIDIEvent, MIDIRouterEvent, NoteEvent};
use midi_router::pipeline::{Action, PipelineError, PipelineOptions, StageFault};
use midi_router::tempo::ClockEvent;
use midi_router::transforms::distribute_transform::DistributeTransformOptions;
use midi_router::transforms::output_transform::OutputTransformOptions;
use midi_router::transforms::transform::SerializedTransform;

fn clock(bpm: Option<u64>, ppqn: Option<u64>, from: Option<&str>) -> ClockConfig {
    ClockConfig { bpm, ppqn, from: from.map(|s| s.to_string()), to: None }
}

fn output(device: &str) -> SerializedTransform {
    SerializedTransform::Output(OutputTransformOptions { output_device: device.to_string() })
}

fn config(clock: Option<ClockConfig>, pipelines: Vec<Vec<SerializedTransform>>) -> AppConfig {
    AppConfig {
        input_devices: vec![("master".to_string(), "Clock".to_string())],
        output_devices: vec![
            ("synth".to_string(), "Synth".to_string()),
            ("drums".to_string(), "Drum".to_string()),
        ],
        pipelines: pipelines
            .into_iter()
            .enumerate()
            .map(|(i, transforms)| PipelineOptions { name: format!("p{}", i), transforms })
            .collect(),
        clock,
    }
}

fn app(clock: Option<ClockConfig>) -> App {
    match App::from_config(config(clock, vec![vec![output("synth")], vec![output("drums")]])) {
        Ok(app) => app,
        Err(error) => panic!("{:?}", error),
    }
}

fn refusal(config: AppConfig) -> ConfigError {
    match App::from_config(config) {
        Ok(_) => panic!("made"),
        Err(error) => error,
    }
}

fn from(device: &str, event: MIDIEvent) -> MIDIRouterEvent {
    MIDIRouterEvent { device: device.to_string(), event }
}

#[test]
fn clock_has_a_tempo_or_a_source() {
    assert_eq!(
        App::process_clock_config(&clock(Some(120), Some(24), None)),
        Ok(ClockSetup::Internal { bpm: 120, ppqn: 24 })
    );
    assert_eq!(
        App::process_clock_config(&clock(None, Some(24), Some("master"))),
        Ok(ClockSetup::External { ppqn: 24 })
    );
    assert_eq!(
        App::process_clock_config(&clock(Some(120), Some(24), Some("master"))),
        Err(ConfigError::ConflictingClock)
    );
    assert_eq!(
        App::process_clock_config(&clock(Some(120), None, Some("master"))),
        Err(ConfigError::ConflictingClock)
    );
    assert_eq!(
        App::process_clock_config(&clock(None, Some(24), None)),
        Err(ConfigError::MissingClockSource)
    );
    assert_eq!(
        App::process_clock_config(&clock(None, None, None)),
        Err(ConfigError::MissingClockSource)
    );
    assert_eq!(
        App::process_clock_config(&clock(Some(120), None, None)),
        Err(ConfigError::MissingPpqn)
    );
    assert_eq!(
        App::process_clock_config(&clock(None, None, Some("master"))),
        Err(ConfigError::MissingPpqn)
    );
}

#[test]
fn router_without_a_clock_has_the_default_one() {
    let app = app(None);
    assert_eq!(app.clock, ClockSetup::Internal { bpm: 60, ppqn: 48 });
    assert_eq!(app.clock_source, "self");
    assert!(app.clock_destination.is_empty());
    assert_eq!(app.pipelines.len(), 2);
    assert_eq!(app.pipelines[0].name, "p0");
    assert_eq!(app.pipelines[1].name, "p1");
    assert_eq!(app.output_devices.len(), 2);
    assert_eq!(app.input_devices, vec![("master".to_string(), "Clock".to_string())]);
}

#[test]
fn router_takes_the_clock_of_the_configuration() {
    let mut external = clock(None, Some(4), Some("master"));
    external.to = Some(vec!["synth".to_string()]);
    let app = app(Some(external));
    assert_eq!(app.clock, ClockSetup::External { ppqn: 4 });
    assert_eq!(app.clock_source, "master");
    assert_eq!(app.clock_destination, vec!["synth".to_string()]);
}

#[test]
fn configurations_that_are_refused() {
    assert_eq!(
        refusal(config(Some(clock(Some(1), Some(1), Some("x"))), vec![vec![]])),
        ConfigError::ConflictingClock
    );
    assert_eq!(
        refusal(config(Some(clock(None, None, Some("x"))), vec![])),
        ConfigError::MissingPpqn
    );
    assert_eq!(
        refusal(config(None, vec![vec![output("a")], vec![]])),
        ConfigError::Pipeline { pipeline: 1, error: PipelineError::NoTransforms }
    );
    assert_eq!(
        refusal(config(
            None,
            vec![
                vec![output("a")],
                vec![output("a")],
                vec![
                    output("a"),
                    SerializedTransform::Distribute(DistributeTransformOptions { between: vec![] })
                ],
                vec![],
            ]
        )),
        ConfigError::Pipeline {
            pipeline: 2,
            error: PipelineError::Stage { stage: 1, fault: StageFault::NoChannels }
        }
    );
    assert!(App::from_config(config(None, vec![])).is_ok());
}

#[test]
fn an_alias_names_one_device() {
    let mut twice_out = config(None, vec![vec![]]);
    twice_out.output_devices.push(("synth".to_string(), "Other".to_string()));
    assert_eq!(refusal(twice_out), ConfigError::RepeatedAlias);

    let mut twice_in = config(None, vec![vec![output("a")]]);
    twice_in.input_devices.push(("pad".to_string(), "Pad".to_string()));
    twice_in.input_devices.push(("master".to_string(), "Clock".to_string()));
    assert_eq!(refusal(twice_in), ConfigError::RepeatedAlias);

    let mut with_bad_clock = config(Some(clock(None, None, None)), vec![]);
    with_bad_clock.output_devices.push(("drums".to_string(), "Drum".to_string()));
    assert_eq!(refusal(with_bad_clock), ConfigError::MissingClockSource);

    let mut shared = config(None, vec![vec![output("a")]]);
    shared.input_devices.push(("synth".to_string(), "Synth".to_string()));
    shared.output_devices.push(("master".to_string(), "Clock".to_string()));
    assert!(App::from_config(shared).is_ok());
}

#[test]
fn realtime_events_of_the_clock_source_go_to_the_clock_alone() {
    let mut app = app(Some(clock(None, Some(4), Some("master"))));
    let (tick, _) = parse_midi_event(&[0xF8]).unwrap();
    assert_eq!(app.route(&from("master", tick)), Route::Clock(Some(ClockEvent::Tick)));
    assert_eq!(
        app.route(&from("master", MIDIEvent::PlaybackPosition(0))),
        Route::Clock(Some(ClockEvent::Restart))
    );
    assert_eq!(app.route(&from("master", MIDIEvent::PlaybackStart)), Route::Clock(None));
    assert_eq!(app.route(&from("master", MIDIEvent::PlaybackStop)), Route::Clock(None));
    assert_eq!(app.route(&from("master", MIDIEvent::PlaybackContinue)), Route::Clock(None));

    let (note, _) = parse_midi_event(&[0x90, 60, 100]).unwrap();
    let message = from("master", note);
    assert_eq!(app.route(&message), Route::Pipelines);
    assert_eq!(app.route(&from("kbd", tick)), Route::Pipelines);

    let mut seen = Vec::new();
    for pipeline in app.pipelines.iter_mut() {
        seen.push(pipeline.feed(0, MIDIMapperEvent::RouterMessage(message.clone())));
    }
    assert_eq!(
        seen,
        vec![
            vec![Action::Emit(from("synth", note))],
            vec![Action::Emit(from("drums", note))],
        ]
    );
}

#[test]
fn a_clock_of_the_routers_own_follows_no_device() {
    let app = app(Some(clock(Some(120), Some(24), None)));
    assert_eq!(app.route(&from("self", MIDIEvent::TimingClock)), Route::Clock(None));
    assert_eq!(app.route(&from("master", MIDIEvent::TimingClock)), Route::Pipelines);
    assert_eq!(
        app.route(&from(
            "self",
            MIDIEvent::NoteOn(NoteEvent { channel: 0, note: 1, velocity: 2 })
        )),
        Route::Pipelines
    );
}

#[test]
fn outgoing_events_find_their_device() {
    let app = app(None);
    let note = MIDIEvent::NoteOn(NoteEvent { channel: 1, note: 60, velocity: 0 });
    assert_eq!(app.egress(&from("drums", note)), Ok((1, vec![0x81, 60, 0])));
    assert_eq!(app.egress(&from("synth", MIDIEvent::TimingClock)), Ok((0, vec![0xF8])));
    assert_eq!(app.egress(&from("organ", note)), Err(EgressError::UnknownAlias));
    let bad = MIDIEvent::NoteOn(NoteEvent { channel: 16, note: 60, velocity: 1 });
    assert_eq!(app.egress(&from("synth", bad)), Err(EgressError::NotEncodable));
    assert_eq!(app.egress(&from("organ", bad)), Err(EgressError::UnknownAlias));
}
