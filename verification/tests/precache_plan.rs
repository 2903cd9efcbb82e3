use studio_model::{Activity, EventKind, EventRecord, Model, SequenceDesc};

fn seq_with_events(label: &[u8], events: Vec<EventRecord>) -> SequenceDesc {
    SequenceDesc {
        label: label.to_vec(),
        fps_bits: 0,
        flags: 0,
        activity: Activity::from_raw(0),
        activity_weight: 0,
        frames: 10,
        linear_movement_bits: [0; 3],
        bbmin_bits: [0; 3],
        bbmax_bits: [0; 3],
        entry_node: 0,
        exit_node: 0,
        events,
    }
}

fn ev(kind: i32, options: &[u8]) -> EventRecord {
    EventRecord {
        frame: 0,
        kind: EventKind::from_raw(kind),
        options: options.to_vec(),
    }
}

#[test]
fn empty_sound_name_is_a_diagnostic_not_a_precache() {
    let s = seq_with_events(b"die", vec![ev(EventKind::SCRIPT_SOUND, b"")]);
    let plan = s.precache();
    assert!(plan.sounds.is_empty());
    assert_eq!(plan.invalid, vec![0]);
}

#[test]
fn named_sound_events_are_registered_in_order() {
    let s = seq_with_events(
        b"attack",
        vec![
            ev(EventKind::SCRIPT_SOUND, b"grunt.wav"),
            ev(EventKind::SCRIPT_FIREEVENT, b"ignored"),
            ev(EventKind::SCRIPT_SOUND_VOICE, b"shout.wav"),
        ],
    );
    let plan = s.precache();
    assert_eq!(plan.sounds, vec![0, 2]);
    assert!(plan.invalid.is_empty());
    assert_eq!(s.events()[0].options(), &b"grunt.wav".to_vec());
    assert_eq!(s.events()[2].options(), &b"shout.wav".to_vec());
}

#[test]
fn non_sound_events_are_ignored_entirely() {
    let s = seq_with_events(
        b"walk",
        vec![ev(0, b"x.wav"), ev(1003, b""), ev(2001, b"y.wav"), ev(5000, b"")],
    );
    let plan = s.precache();
    assert!(plan.sounds.is_empty());
    assert!(plan.invalid.is_empty());
}

#[test]
fn mixed_valid_and_invalid_sound_events() {
    let s = seq_with_events(
        b"mix",
        vec![
            ev(EventKind::SCRIPT_SOUND, b""),
            ev(EventKind::SCRIPT_SOUND, b"a.wav"),
            ev(EventKind::SCRIPT_SOUND_VOICE, b""),
        ],
    );
    let plan = s.precache();
    assert_eq!(plan.sounds, vec![1]);
    assert_eq!(plan.invalid, vec![0, 2]);
}

#[test]
fn precache_by_name_resolves_case_insensitively() {
    let m = Model {
        name: b"fixture.mdl".to_vec(),
        version: 10,
        flags: 0,
        eye_position_bits: [0; 3],
        min_bits: [0; 3],
        max_bits: [0; 3],
        bbmin_bits: [0; 3],
        bbmax_bits: [0; 3],
        bone_controllers: Vec::new(),
        sequences: vec![seq_with_events(
            b"Die",
            vec![ev(EventKind::SCRIPT_SOUND, b"death.wav")],
        )],
        transitions: Vec::new(),
    };
    let plan = m.precache_sequence_by_name(&b"die".to_vec()).expect("sequence exists");
    assert_eq!(plan.sounds, vec![0]);
    assert!(m.precache_sequence_by_name(&b"missing".to_vec()).is_none());
}
