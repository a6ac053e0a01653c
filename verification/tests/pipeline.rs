use midi_router::app::MIDIMapperEvent;
use midi_router::iter_utils::CycleDirection;
use midi_router::midi_event::{Controller, MIDIEvent, MIDIRouterEvent, NoteEvent};
use midi_router::pipeline::{Action, Pipeline, PipelineError, PipelineOptions, StageFault};
use midi_router::tempo::ClockEvent;
use midi_router::transforms::arpeggio_transform::ArpeggioTransformOptions;
use midi_router::transforms::distribute_transform::DistributeTransformOptions;
use midi_router::transforms::inspect_transform::InspectTransformOptions;
use midi_router::transforms::mirror_transform::MirrorTransformOptions;
use midi_router::transforms::output_transform::OutputTransformOptions;
use midi_router::transforms::transform::SerializedTransform;
use midi_router::transforms::wasm_transform::WasmTransformOptions;
use midi_router::transforms::{FilterTransformOptions, MapTransformOptions};

fn from(device: &str, event: MIDIEvent) -> MIDIRouterEvent {
    MIDIRouterEvent { device: device.to_string(), event }
}

fn note_on(channel: u8, note: u8, velocity: u8) -> MIDIEvent {
    MIDIEvent::NoteOn(NoteEvent { channel, note, velocity })
}

fn note_off(channel: u8, note: u8, velocity: u8) -> MIDIEvent {
    MIDIEvent::NoteOff(NoteEvent { channel, note, velocity })
}

fn output(device: &str) -> SerializedTransform {
    SerializedTransform::Output(OutputTransformOptions { output_device: device.to_string() })
}

fn arpeggio(subdivision: u64, note_duration: u64) -> SerializedTransform {
    SerializedTransform::Arpeggio(ArpeggioTransformOptions {
        subdivision,
        direction: CycleDirection::Forward,
        repeat: None,
        note_duration: Some(note_duration),
    })
}

fn pipeline(transforms: Vec<SerializedTransform>) -> Pipeline {
    Pipeline::from_config(PipelineOptions { name: "main".to_string(), transforms }).unwrap()
}

#[test]
fn events_run_through_every_stage() {
    let mut p = pipeline(vec![
        SerializedTransform::Filter(FilterTransformOptions {
            devices: Some(vec!["kbd".to_string()]),
            channels: None,
            event_types: None,
        }),
        SerializedTransform::Mapping(MapTransformOptions {
            channels: Some(vec![(0, 5)]),
            cc: Some(vec![(74, 16)]),
        }),
        output("synth"),
    ]);
    assert_eq!(p.name, "main");
    assert_eq!(p.len(), 3);
    assert_eq!(
        p.on_message(from("kbd", note_on(0, 60, 100))),
        vec![Action::Emit(from("synth", note_on(5, 60, 100)))]
    );
    assert_eq!(
        p.on_message(from(
            "kbd",
            MIDIEvent::Controller(Controller { channel: 0, controller: 74, value: 32 })
        )),
        vec![Action::Emit(from(
            "synth",
            MIDIEvent::Controller(Controller { channel: 5, controller: 16, value: 32 })
        ))]
    );
    assert_eq!(p.on_message(from("pad", note_on(0, 60, 100))), vec![]);
    assert_eq!(p.on_clock(ClockEvent::Tick), vec![]);
}

#[test]
fn arpeggio_plays_on_every_fourth_tick_and_note_offs_come_back_behind_it() {
    let mut p = pipeline(vec![arpeggio(4, 100), output("synth")]);
    assert_eq!(p.on_message(from("kbd", note_on(0, 60, 100))), vec![]);
    assert_eq!(p.on_message(from("kbd", note_on(0, 64, 100))), vec![]);
    let mut played = Vec::new();
    for tick in 0..16 {
        let actions = p.on_clock(ClockEvent::Tick);
        if tick % 4 != 3 {
            assert_eq!(actions, vec![]);
            continue;
        }
        assert_eq!(actions.len(), 2);
        let (stage, off) = match &actions[0] {
            Action::Delay { stage, event, delay_ms } => {
                assert_eq!(*delay_ms, 100);
                (*stage, event.clone())
            }
            other => panic!("{:?}", other),
        };
        assert_eq!(stage, 1);
        let on = match &actions[1] {
            Action::Emit(event) => event.clone(),
            other => panic!("{:?}", other),
        };
        assert_eq!(on.device, "synth");
        match (on.event, off.event) {
            (MIDIEvent::NoteOn(a), MIDIEvent::NoteOff(b)) => {
                assert_eq!((a.channel, a.note, b.velocity), (b.channel, b.note, 0));
                played.push(a.note);
            }
            other => panic!("{:?}", other),
        }
        assert_eq!(
            p.resume(stage, off.clone()),
            vec![Action::Emit(from("synth", off.event))]
        );
    }
    assert_eq!(played, vec![60, 64, 60, 64]);
}

#[test]
fn a_restart_brings_the_next_tick_forward() {
    let mut p = pipeline(vec![arpeggio(4, 1), arpeggio(3, 2)]);
    p.on_message(from("kbd", note_on(0, 60, 100)));
    assert_eq!(p.on_clock(ClockEvent::Tick), vec![]);
    assert_eq!(p.on_clock(ClockEvent::Restart), vec![]);
    let actions = p.on_clock(ClockEvent::Tick);
    assert_eq!(
        actions,
        vec![
            Action::Delay { stage: 1, event: from("self", note_off(0, 60, 0)), delay_ms: 1 },
            Action::Delay { stage: 2, event: from("self", note_off(0, 60, 0)), delay_ms: 2 },
            Action::Emit(from("self", note_on(0, 60, 100))),
        ]
    );
    assert_eq!(p.on_clock(ClockEvent::Tick), vec![]);
    assert_eq!(p.on_clock(ClockEvent::Tick), vec![]);
    assert_eq!(p.on_clock(ClockEvent::Tick).len(), 2);
    assert_eq!(p.on_clock(ClockEvent::Tick).len(), 1);
}

#[test]
fn a_second_arpeggio_takes_what_the_first_plays() {
    let mut p = pipeline(vec![arpeggio(1, 10), arpeggio(2, 20)]);
    p.on_message(from("kbd", note_on(0, 60, 100)));
    assert_eq!(
        p.on_clock(ClockEvent::Tick),
        vec![Action::Delay { stage: 1, event: from("self", note_off(0, 60, 0)), delay_ms: 10 }]
    );
    assert_eq!(
        p.on_clock(ClockEvent::Tick),
        vec![
            Action::Delay { stage: 1, event: from("self", note_off(0, 60, 0)), delay_ms: 10 },
            Action::Delay { stage: 2, event: from("self", note_off(0, 60, 0)), delay_ms: 20 },
            Action::Emit(from("self", note_on(0, 60, 100))),
        ]
    );
    assert_eq!(p.resume(1, from("self", note_off(0, 60, 0))), vec![]);
    assert_eq!(
        p.on_clock(ClockEvent::Tick),
        vec![Action::Delay { stage: 1, event: from("self", note_off(0, 60, 0)), delay_ms: 10 }]
    );
    assert_eq!(p.on_clock(ClockEvent::Tick).len(), 3);
}

#[test]
fn distribute_note_offs_pass_the_stages_behind() {
    let mut p = pipeline(vec![
        SerializedTransform::Distribute(DistributeTransformOptions { between: vec![9, 2, 4] }),
        output("synth"),
    ]);
    for channel in [9u8, 2, 4] {
        assert_eq!(
            p.on_message(from("kbd", note_on(3, 60, 100))),
            vec![Action::Emit(from("synth", note_on(channel, 60, 100)))]
        );
    }
    assert_eq!(
        p.on_message(from("kbd", note_off(3, 60, 0))),
        vec![
            Action::Emit(from("synth", note_off(9, 60, 0))),
            Action::Emit(from("synth", note_off(2, 60, 0))),
            Action::Emit(from("synth", note_off(4, 60, 0))),
        ]
    );
}

#[test]
fn mirror_and_inspect() {
    let mut p = pipeline(vec![
        SerializedTransform::Mirror(MirrorTransformOptions { channels: Some(vec![1, 2]) }),
        SerializedTransform::Inspect(InspectTransformOptions { prefix: Some("m".to_string()) }),
        output("synth"),
    ]);
    assert_eq!(
        p.on_message(from("kbd", note_on(0, 60, 100))),
        vec![
            Action::Print(
                "[m][kbd] NoteOn(NoteEvent { channel: 1, note: 60, velocity: 100 })".to_string()
            ),
            Action::Print(
                "[m][kbd] NoteOn(NoteEvent { channel: 2, note: 60, velocity: 100 })".to_string()
            ),
            Action::Emit(from("synth", note_on(1, 60, 100))),
            Action::Emit(from("synth", note_on(2, 60, 100))),
        ]
    );
}

#[test]
fn a_script_stage_is_left_to_the_host() {
    let mut p = pipeline(vec![
        SerializedTransform::Wasm(WasmTransformOptions { path: "a.wasm".to_string(), subdivision: 2 }),
        output("synth"),
    ]);
    let message = from("kbd", note_on(0, 60, 100));
    assert_eq!(
        p.on_message(message.clone()),
        vec![Action::Script { stage: 0, input: MIDIMapperEvent::RouterMessage(message) }]
    );
    assert_eq!(p.on_clock(ClockEvent::Tick), vec![]);
    assert_eq!(
        p.on_clock(ClockEvent::Tick),
        vec![Action::Script { stage: 0, input: MIDIMapperEvent::Tick }]
    );
    assert_eq!(
        p.resume(1, from("wasm", note_on(1, 2, 3))),
        vec![Action::Emit(from("synth", note_on(1, 2, 3)))]
    );
}

#[test]
fn what_is_fed_in_behind_the_last_stage_is_emitted() {
    let mut p = pipeline(vec![output("synth")]);
    let message = from("kbd", note_on(0, 60, 100));
    assert_eq!(p.resume(1, message.clone()), vec![Action::Emit(message.clone())]);
    assert_eq!(p.resume(7, message.clone()), vec![Action::Emit(message.clone())]);
    assert_eq!(p.feed(1, MIDIMapperEvent::Tick), vec![]);
    assert_eq!(
        p.feed(0, MIDIMapperEvent::RouterMessage(message)),
        vec![Action::Emit(from("synth", note_on(0, 60, 100)))]
    );
    assert_eq!(p.feed(0, MIDIMapperEvent::Tick), vec![]);
}

fn refusal(transforms: Vec<SerializedTransform>) -> PipelineError {
    match Pipeline::from_config(PipelineOptions { name: "p".to_string(), transforms }) {
        Ok(_) => panic!("made"),
        Err(error) => error,
    }
}

#[test]
fn pipelines_that_cannot_be_made() {
    assert_eq!(refusal(vec![]), PipelineError::NoTransforms);
    assert_eq!(
        refusal(vec![
            output("a"),
            SerializedTransform::Distribute(DistributeTransformOptions { between: vec![] }),
            arpeggio(0, 1),
        ]),
        PipelineError::Stage { stage: 1, fault: StageFault::NoChannels }
    );
    assert_eq!(
        refusal(vec![arpeggio(0, 1)]),
        PipelineError::Stage { stage: 0, fault: StageFault::ZeroSubdivision }
    );
    assert_eq!(
        refusal(vec![
            output("a"),
            output("b"),
            SerializedTransform::Wasm(WasmTransformOptions { path: "x".to_string(), subdivision: 0 }),
        ]),
        PipelineError::Stage { stage: 2, fault: StageFault::ZeroSubdivision }
    );
}
