use midi_router::app::MIDIMapperEvent;
use midi_router::iter_utils::CycleDirection;
use midi_router::midi_event::{
    Controller, MIDIEvent, MIDIEventIdentity, MIDIRouterEvent, NoteEvent, ProgramChange, Wrap,
};
use midi_router::scheduler::{Scheduled, SchedulerHandler};
use midi_router::transforms::arpeggio_transform::ArpeggioTransformOptions;
use midi_router::transforms::distribute_transform::DistributeTransformOptions;
use midi_router::transforms::inspect_transform::InspectTransformOptions;
use midi_router::transforms::mirror_transform::MirrorTransformOptions;
use midi_router::transforms::output_transform::OutputTransformOptions;
use midi_router::transforms::wasm_transform::{midi_event_to_values, values_to_midi_event};
use midi_router::transforms::{
    ArpeggioTransform, DistributeTransform, FilterTransform, FilterTransformOptions,
    InspectTransform, MapTransform, MapTransformOptions, MirrorTransform, OutputTransform,
    Transform,
};

fn get_transform_instance() -> DistributeTransform {
    let config = DistributeTransformOptions {
        between: vec![9, 2, 4],
    };

    DistributeTransform::from_config(config)
}

#[test]
fn distributes_between_channels() {
    let mut transform = get_transform_instance();
    let mut scheduler_handler = SchedulerHandler::new();

    let note_on = NoteEvent {
        channel: 3,
        note: 1,
        velocity: 127,
    }
    .wrap();

    let result: Vec<_> = vec![
        transform.process_message(
            MIDIMapperEvent::RouterMessage(note_on.clone()),
            &mut scheduler_handler,
        ),
        transform.process_message(
            MIDIMapperEvent::RouterMessage(note_on.clone()),
            &mut scheduler_handler,
        ),
        transform.process_message(
            MIDIMapperEvent::RouterMessage(note_on.clone()),
            &mut scheduler_handler,
        ),
    ]
    .into_iter()
    .map(|msg| {
        let router_event = msg.unwrap();

        router_event.event.get_channel()
    })
    .collect();

    assert_eq!(result, vec![9, 2, 4])
}

fn from(device: &str, event: MIDIEvent) -> MIDIRouterEvent {
    MIDIRouterEvent { device: device.to_string(), event }
}

fn note_on(channel: u8, note: u8, velocity: u8) -> MIDIEvent {
    MIDIEvent::NoteOn(NoteEvent { channel, note, velocity })
}

fn note_off(channel: u8, note: u8, velocity: u8) -> MIDIEvent {
    MIDIEvent::NoteOff(NoteEvent { channel, note, velocity })
}

#[test]
fn distribute_answers_a_note_off_on_every_channel_used() {
    let mut transform = get_transform_instance();
    let mut scheduler = SchedulerHandler::new();
    let mut channels = Vec::new();
    for _ in 0..3 {
        let out = transform
            .on_message(from("kbd", note_on(3, 60, 100)), &mut scheduler)
            .unwrap();
        assert_eq!(out.device, "kbd");
        match out.event {
            MIDIEvent::NoteOn(n) => {
                assert_eq!((n.note, n.velocity), (60, 100));
                channels.push(n.channel);
            }
            other => panic!("{:?}", other),
        }
    }
    assert_eq!(channels, vec![9, 2, 4]);
    assert_eq!(scheduler.into_requests(), vec![]);

    let mut scheduler = SchedulerHandler::new();
    let out = transform.on_message(from("kbd", note_off(3, 60, 5)), &mut scheduler);
    assert_eq!(out, None);
    assert_eq!(
        scheduler.into_requests(),
        vec![
            Scheduled::Now(from("self", note_off(9, 60, 0))),
            Scheduled::Now(from("self", note_off(2, 60, 0))),
            Scheduled::Now(from("self", note_off(4, 60, 0))),
        ]
    );

    let mut scheduler = SchedulerHandler::new();
    assert_eq!(transform.on_message(from("kbd", note_off(3, 60, 0)), &mut scheduler), None);
    assert_eq!(scheduler.into_requests(), vec![]);
}

#[test]
fn distribute_keeps_other_pitches_held_and_drops_other_events() {
    let mut transform = get_transform_instance();
    let mut scheduler = SchedulerHandler::new();
    transform.on_message(from("a", note_on(0, 60, 1)), &mut scheduler);
    transform.on_message(from("a", note_on(0, 61, 1)), &mut scheduler);
    transform.on_message(from("a", note_on(0, 60, 1)), &mut scheduler);
    transform.on_message(from("a", note_on(0, 62, 1)), &mut scheduler);
    let dropped = transform.on_message(
        from("a", MIDIEvent::Controller(Controller { channel: 0, controller: 1, value: 2 })),
        &mut scheduler,
    );
    assert_eq!(dropped, None);
    assert_eq!(transform.on_message(from("a", MIDIEvent::TimingClock), &mut scheduler), None);
    assert_eq!(transform.on_tick(&mut scheduler), None);
    assert_eq!(transform.get_tempo_subdiv(), None);
    transform.on_message(from("a", note_off(0, 60, 0)), &mut scheduler);
    transform.on_message(from("a", note_off(0, 61, 0)), &mut scheduler);
    assert_eq!(
        scheduler.into_requests(),
        vec![
            Scheduled::Now(from("self", note_off(9, 60, 0))),
            Scheduled::Now(from("self", note_off(4, 60, 0))),
            Scheduled::Now(from("self", note_off(2, 61, 0))),
        ]
    );
}

#[test]
fn distribute_matches_note_ons_and_note_offs_per_pitch() {
    let mut transform = get_transform_instance();
    let inputs = [
        note_on(0, 60, 9),
        note_on(0, 64, 9),
        note_on(0, 60, 9),
        note_off(0, 64, 0),
        note_on(0, 64, 9),
        note_on(0, 67, 9),
        note_off(0, 60, 0),
        note_off(0, 64, 0),
    ];
    let mut ons: Vec<(u8, u8)> = Vec::new();
    let mut offs: Vec<(u8, u8)> = Vec::new();
    for input in inputs {
        let mut scheduler = SchedulerHandler::new();
        if let Some(out) = transform.on_message(from("a", input), &mut scheduler) {
            match out.event {
                MIDIEvent::NoteOn(n) => ons.push((n.note, n.channel)),
                other => panic!("{:?}", other),
            }
        }
        for request in scheduler.into_requests() {
            match request {
                Scheduled::Now(MIDIRouterEvent { event: MIDIEvent::NoteOff(n), .. }) => {
                    offs.push((n.note, n.channel))
                }
                other => panic!("{:?}", other),
            }
        }
    }
    for pitch in [60u8, 64] {
        let mut on: Vec<u8> = ons.iter().filter(|p| p.0 == pitch).map(|p| p.1).collect();
        let mut off: Vec<u8> = offs.iter().filter(|p| p.0 == pitch).map(|p| p.1).collect();
        on.sort();
        off.sort();
        assert_eq!(on, off);
        assert!(!on.is_empty());
    }
    assert_eq!(ons.iter().filter(|p| p.0 == 67).count(), 1);
    assert_eq!(offs.iter().filter(|p| p.0 == 67).count(), 0);
}

fn arpeggio(direction: CycleDirection, repeat: Option<u64>, note_duration: Option<u64>) -> ArpeggioTransform {
    ArpeggioTransform::from_config(ArpeggioTransformOptions {
        subdivision: 4,
        direction,
        repeat,
        note_duration,
    })
}

#[test]
fn arpeggio_cycles_the_held_notes() {
    let mut transform = arpeggio(CycleDirection::Forward, None, Some(100));
    assert_eq!(transform.get_tempo_subdiv(), Some(4));
    let mut scheduler = SchedulerHandler::new();
    assert_eq!(transform.on_message(from("kbd", note_on(0, 60, 100)), &mut scheduler), None);
    assert_eq!(transform.on_message(from("kbd", note_on(0, 64, 90)), &mut scheduler), None);
    assert_eq!(scheduler.into_requests(), vec![]);

    let mut played = Vec::new();
    for _ in 0..4 {
        let mut scheduler = SchedulerHandler::new();
        assert_eq!(transform.on_tick(&mut scheduler), None);
        let requests = scheduler.into_requests();
        assert_eq!(requests.len(), 2);
        let on = match &requests[0] {
            Scheduled::Now(event) => event.clone(),
            other => panic!("{:?}", other),
        };
        let (off, delay) = match &requests[1] {
            Scheduled::Later(event, delay) => (event.clone(), *delay),
            other => panic!("{:?}", other),
        };
        assert_eq!(delay, 100);
        assert_eq!(on.device, "self");
        assert_eq!(off.device, "self");
        match (on.event, off.event) {
            (MIDIEvent::NoteOn(a), MIDIEvent::NoteOff(b)) => {
                assert_eq!((a.channel, a.note), (b.channel, b.note));
                assert_eq!(b.velocity, 0);
                played.push((a.note, a.velocity));
            }
            other => panic!("{:?}", other),
        }
    }
    assert_eq!(played, vec![(60, 100), (64, 90), (60, 100), (64, 90)]);
}

#[test]
fn arpeggio_is_silent_with_no_note_held() {
    let mut transform = arpeggio(CycleDirection::PingPong, Some(2), None);
    let mut scheduler = SchedulerHandler::new();
    assert_eq!(transform.on_tick(&mut scheduler), None);
    transform.on_message(from("kbd", note_on(1, 60, 100)), &mut scheduler);
    transform.on_message(from("kbd", note_off(1, 60, 0)), &mut scheduler);
    assert_eq!(transform.on_tick(&mut scheduler), None);
    assert_eq!(scheduler.into_requests(), vec![]);
}

#[test]
fn arpeggio_defaults_to_a_quarter_second_and_passes_other_events() {
    let mut transform = arpeggio(CycleDirection::Backward, None, None);
    let mut scheduler = SchedulerHandler::new();
    let other = from("kbd", MIDIEvent::ProgramChange(ProgramChange { channel: 1, program: 2 }));
    assert_eq!(transform.on_message(other.clone(), &mut scheduler), Some(other));
    let clock = from("kbd", MIDIEvent::TimingClock);
    assert_eq!(transform.on_message(clock.clone(), &mut scheduler), Some(clock));
    transform.on_message(from("kbd", note_on(1, 60, 100)), &mut scheduler);
    transform.on_message(from("kbd", note_on(1, 62, 100)), &mut scheduler);
    transform.on_message(from("kbd", note_on(1, 64, 100)), &mut scheduler);
    transform.on_tick(&mut scheduler);
    transform.on_tick(&mut scheduler);
    assert_eq!(
        scheduler.into_requests(),
        vec![
            Scheduled::Now(from("self", note_on(1, 60, 100))),
            Scheduled::Later(from("self", note_off(1, 60, 0)), 250),
            Scheduled::Now(from("self", note_on(1, 64, 100))),
            Scheduled::Later(from("self", note_off(1, 64, 0)), 250),
        ]
    );
}

#[test]
fn arpeggio_repeats_and_starts_over_when_the_notes_change() {
    let mut transform = arpeggio(CycleDirection::Forward, Some(2), Some(10));
    let mut scheduler = SchedulerHandler::new();
    transform.on_message(from("kbd", note_on(0, 60, 1)), &mut scheduler);
    transform.on_message(from("kbd", note_on(0, 62, 1)), &mut scheduler);
    transform.on_message(from("kbd", note_on(0, 64, 1)), &mut scheduler);
    let mut notes = Vec::new();
    let mut tick = |transform: &mut ArpeggioTransform, notes: &mut Vec<u8>| {
        let mut scheduler = SchedulerHandler::new();
        transform.on_tick(&mut scheduler);
        for request in scheduler.into_requests() {
            if let Scheduled::Now(MIDIRouterEvent { event: MIDIEvent::NoteOn(n), .. }) = request {
                notes.push(n.note);
            }
        }
    };
    for _ in 0..3 {
        tick(&mut transform, &mut notes);
    }
    assert_eq!(notes, vec![60, 60, 62]);
    let mut scheduler = SchedulerHandler::new();
    transform.on_message(from("kbd", note_off(0, 60, 0)), &mut scheduler);
    notes.clear();
    for _ in 0..5 {
        tick(&mut transform, &mut notes);
    }
    assert_eq!(notes, vec![62, 62, 64, 64, 62]);
}

#[test]
fn arpeggio_plays_a_note_of_velocity_zero_as_a_note_off() {
    let mut transform = arpeggio(CycleDirection::Forward, None, Some(7));
    let mut scheduler = SchedulerHandler::new();
    transform.on_message(from("kbd", note_on(2, 60, 0)), &mut scheduler);
    transform.on_tick(&mut scheduler);
    assert_eq!(
        scheduler.into_requests(),
        vec![
            Scheduled::Now(from("self", note_off(2, 60, 0))),
            Scheduled::Later(from("self", note_off(2, 60, 0)), 7),
        ]
    );
}

fn filter(
    devices: Option<Vec<&str>>,
    channels: Option<Vec<u8>>,
    event_types: Option<Vec<MIDIEventIdentity>>,
) -> FilterTransform {
    FilterTransform::from_config(FilterTransformOptions {
        devices: devices.map(|d| d.into_iter().map(|s| s.to_string()).collect()),
        channels,
        event_types,
    })
}

#[test]
fn filter_with_empty_lists_passes_everything() {
    let mut open = filter(None, None, None);
    let mut empty = filter(Some(vec![]), Some(vec![]), Some(vec![]));
    let mut scheduler = SchedulerHandler::new();
    for message in [
        from("a", note_on(0, 60, 100)),
        from("", note_off(15, 0, 0)),
        from("b", MIDIEvent::TimingClock),
        from("c", MIDIEvent::PlaybackPosition(9)),
    ] {
        assert_eq!(open.on_message(message.clone(), &mut scheduler), Some(message.clone()));
        assert_eq!(empty.should_pass(message.clone()), Some(message.clone()));
        assert_eq!(empty.on_message(message.clone(), &mut scheduler), Some(message));
    }
    assert_eq!(open.on_tick(&mut scheduler), None);
    assert_eq!(open.get_tempo_subdiv(), None);
    assert_eq!(scheduler.into_requests(), vec![]);
}

#[test]
fn filter_asks_every_listed_dimension() {
    let by_device = filter(Some(vec!["kbd", "pad"]), None, None);
    assert!(by_device.should_pass(from("pad", note_on(0, 1, 1))).is_some());
    assert!(by_device.should_pass(from("pa", note_on(0, 1, 1))).is_none());

    let by_channel = filter(None, Some(vec![1, 5]), None);
    assert!(by_channel.should_pass(from("x", note_on(5, 1, 1))).is_some());
    assert!(by_channel.should_pass(from("x", note_on(0, 1, 1))).is_none());

    let by_kind = filter(None, None, Some(vec![MIDIEventIdentity::NoteOff, MIDIEventIdentity::TimingClock]));
    assert!(by_kind.should_pass(from("x", note_off(0, 1, 1))).is_some());
    assert!(by_kind.should_pass(from("x", MIDIEvent::TimingClock)).is_some());
    assert!(by_kind.should_pass(from("x", note_on(0, 1, 1))).is_none());

    let all = filter(Some(vec!["kbd"]), Some(vec![2]), Some(vec![MIDIEventIdentity::NoteOn]));
    assert!(all.should_pass(from("kbd", note_on(2, 1, 1))).is_some());
    assert!(all.should_pass(from("pad", note_on(2, 1, 1))).is_none());
    assert!(all.should_pass(from("kbd", note_on(3, 1, 1))).is_none());
    assert!(all.should_pass(from("kbd", note_off(2, 1, 1))).is_none());
}

#[test]
fn filter_lets_realtime_events_pass_the_channel_check_only_without_channels() {
    let with_channels = filter(None, Some(vec![0]), None);
    assert_eq!(with_channels.should_pass(from("x", MIDIEvent::TimingClock)), None);
    assert_eq!(with_channels.should_pass(from("x", MIDIEvent::PlaybackStart)), None);
    let without_channels = filter(Some(vec!["x"]), None, None);
    assert_eq!(
        without_channels.should_pass(from("x", MIDIEvent::TimingClock)),
        Some(from("x", MIDIEvent::TimingClock))
    );
}

#[test]
fn map_moves_channels_and_controllers() {
    let mut transform = MapTransform::from_config(MapTransformOptions {
        channels: Some(vec![(0, 5)]),
        cc: Some(vec![(74, 16)]),
    });
    let mut scheduler = SchedulerHandler::new();
    assert_eq!(
        transform.on_message(
            from("a", MIDIEvent::Controller(Controller { channel: 0, controller: 74, value: 32 })),
            &mut scheduler
        ),
        Some(from("a", MIDIEvent::Controller(Controller { channel: 5, controller: 16, value: 32 })))
    );
    assert_eq!(
        transform.on_message(from("a", note_on(0, 60, 100)), &mut scheduler),
        Some(from("a", note_on(5, 60, 100)))
    );
    assert_eq!(
        transform.on_message(from("a", note_on(1, 60, 100)), &mut scheduler),
        Some(from("a", note_on(1, 60, 100)))
    );
    assert_eq!(
        transform.on_message(
            from("a", MIDIEvent::Controller(Controller { channel: 5, controller: 16, value: 1 })),
            &mut scheduler
        ),
        Some(from("a", MIDIEvent::Controller(Controller { channel: 5, controller: 16, value: 1 })))
    );
    assert_eq!(
        transform.on_message(from("a", MIDIEvent::PlaybackStop), &mut scheduler),
        Some(from("a", MIDIEvent::PlaybackStop))
    );
    assert_eq!(transform.on_tick(&mut scheduler), None);
    assert_eq!(scheduler.into_requests(), vec![]);
}

#[test]
fn map_takes_the_last_pair_of_a_key_and_maps_once() {
    let mut transform = MapTransform::from_config(MapTransformOptions {
        channels: Some(vec![(0, 1), (1, 2), (0, 7)]),
        cc: None,
    });
    let mut scheduler = SchedulerHandler::new();
    assert_eq!(
        transform.on_message(from("a", note_on(0, 60, 100)), &mut scheduler),
        Some(from("a", note_on(7, 60, 100)))
    );
    assert_eq!(
        transform.on_message(from("a", note_on(1, 60, 100)), &mut scheduler),
        Some(from("a", note_on(2, 60, 100)))
    );
    let mut empty = MapTransform::from_config(MapTransformOptions { channels: None, cc: None });
    assert_eq!(
        empty.on_message(from("a", note_on(0, 60, 100)), &mut scheduler),
        Some(from("a", note_on(0, 60, 100)))
    );
}

#[test]
fn mirror_copies_onto_every_channel() {
    let mut transform =
        MirrorTransform::from_config(MirrorTransformOptions { channels: Some(vec![3, 1, 3]) });
    let mut scheduler = SchedulerHandler::new();
    assert_eq!(transform.on_message(from("kbd", note_on(0, 60, 100)), &mut scheduler), None);
    assert_eq!(
        scheduler.into_requests(),
        vec![
            Scheduled::Now(from("kbd", note_on(3, 60, 100))),
            Scheduled::Now(from("kbd", note_on(1, 60, 100))),
            Scheduled::Now(from("kbd", note_on(3, 60, 100))),
        ]
    );
    let mut scheduler = SchedulerHandler::new();
    assert_eq!(transform.on_message(from("kbd", MIDIEvent::TimingClock), &mut scheduler), None);
    assert_eq!(transform.on_tick(&mut scheduler), None);
    assert_eq!(scheduler.into_requests(), vec![]);

    let mut none = MirrorTransform::from_config(MirrorTransformOptions { channels: None });
    let mut scheduler = SchedulerHandler::new();
    assert_eq!(none.on_message(from("kbd", note_on(0, 60, 100)), &mut scheduler), None);
    assert_eq!(scheduler.into_requests(), vec![]);
}

#[test]
fn output_stamps_the_device() {
    let mut transform = OutputTransform::from_config(OutputTransformOptions {
        output_device: "synth".to_string(),
    });
    let mut scheduler = SchedulerHandler::new();
    assert_eq!(
        transform.on_message(from("kbd", note_on(0, 60, 100)), &mut scheduler),
        Some(from("synth", note_on(0, 60, 100)))
    );
    assert_eq!(
        transform.on_message(from("self", MIDIEvent::TimingClock), &mut scheduler),
        Some(from("synth", MIDIEvent::TimingClock))
    );
    assert_eq!(transform.on_tick(&mut scheduler), None);
    assert_eq!(scheduler.into_requests(), vec![]);
}

#[test]
fn inspect_describes_and_hands_on() {
    let mut transform = InspectTransform::from_config(InspectTransformOptions {
        prefix: Some("in".to_string()),
    });
    assert_eq!(transform.prefix, "[in]");
    let message = from("kbd", note_on(0, 60, 100));
    assert_eq!(
        transform.describe(&message),
        "[in][kbd] NoteOn(NoteEvent { channel: 0, note: 60, velocity: 100 })"
    );
    assert_eq!(
        message.to_string(),
        "[kbd] NoteOn(NoteEvent { channel: 0, note: 60, velocity: 100 })"
    );
    let mut scheduler = SchedulerHandler::new();
    assert_eq!(transform.on_message(message.clone(), &mut scheduler), Some(message));
    assert_eq!(transform.on_tick(&mut scheduler), None);
    assert_eq!(scheduler.into_requests(), vec![]);

    let bare = InspectTransform::from_config(InspectTransformOptions { prefix: None });
    assert_eq!(bare.prefix, "");
    assert_eq!(bare.describe(&from("x", MIDIEvent::TimingClock)), "[x] TimingClock");
}

#[test]
fn process_message_tells_ticks_from_events() {
    let mut transform = arpeggio(CycleDirection::Forward, None, Some(1));
    let mut scheduler = SchedulerHandler::new();
    assert_eq!(
        transform.process_message(
            MIDIMapperEvent::RouterMessage(from("kbd", note_on(0, 60, 100))),
            &mut scheduler
        ),
        None
    );
    assert_eq!(transform.process_message(MIDIMapperEvent::Tick, &mut scheduler), None);
    assert_eq!(
        scheduler.into_requests(),
        vec![
            Scheduled::Now(from("self", note_on(0, 60, 100))),
            Scheduled::Later(from("self", note_off(0, 60, 0)), 1),
        ]
    );
}

#[test]
fn scheduler_keeps_requests_in_order() {
    let mut scheduler = SchedulerHandler::new();
    scheduler.send_later(from("a", note_on(0, 1, 1)), 30);
    scheduler.send_now(from("b", note_on(0, 2, 1)));
    scheduler.send_now(from("c", note_on(0, 3, 1)));
    scheduler.send_later(from("d", note_on(0, 4, 1)), 0);
    assert_eq!(
        scheduler.into_requests(),
        vec![
            Scheduled::Later(from("a", note_on(0, 1, 1)), 30),
            Scheduled::Now(from("b", note_on(0, 2, 1))),
            Scheduled::Now(from("c", note_on(0, 3, 1))),
            Scheduled::Later(from("d", note_on(0, 4, 1)), 0),
        ]
    );
}

#[test]
fn script_values_stand_for_events() {
    assert_eq!(values_to_midi_event(0, 1, 60, 100), Some(note_on(1, 60, 100)));
    assert_eq!(values_to_midi_event(1, 1, 60, 100), Some(note_off(1, 60, 0)));
    assert_eq!(
        values_to_midi_event(3, 2, 74, 5),
        Some(MIDIEvent::Controller(Controller { channel: 2, controller: 74, value: 5 }))
    );
    assert_eq!(values_to_midi_event(2, 1, 60, 100), None);
    assert_eq!(values_to_midi_event(-1, 1, 60, 100), None);
    assert_eq!(values_to_midi_event(0, -1, 256, 255), Some(note_on(0, 0, 255)));

    assert_eq!(midi_event_to_values(note_on(1, 60, 100)), [0, 1, 60, 100]);
    assert_eq!(midi_event_to_values(note_off(1, 60, 7)), [1, 1, 60, 7]);
    assert_eq!(
        midi_event_to_values(MIDIEvent::Controller(Controller { channel: 2, controller: 74, value: 5 })),
        [3, 2, 74, 5]
    );
}
