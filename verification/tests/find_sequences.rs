use studio_model::{Activity, EventRecord, Model, SequenceDesc};

fn seq(label: &[u8], activity: i32, weight: i32) -> SequenceDesc {
    SequenceDesc {
        label: label.to_vec(),
        fps_bits: 0,
        flags: 0,
        activity: Activity::from_raw(activity),
        activity_weight: weight,
        frames: 10,
        linear_movement_bits: [0; 3],
        bbmin_bits: [0; 3],
        bbmax_bits: [0; 3],
        entry_node: 0,
        exit_node: 0,
        events: Vec::<EventRecord>::new(),
    }
}

fn model(sequences: Vec<SequenceDesc>) -> Model {
    Model {
        name: b"fixture.mdl".to_vec(),
        version: 10,
        flags: 0,
        eye_position_bits: [0; 3],
        min_bits: [0; 3],
        max_bits: [0; 3],
        bbmin_bits: [0; 3],
        bbmax_bits: [0; 3],
        bone_controllers: Vec::new(),
        sequences,
        transitions: Vec::new(),
    }
}

#[test]
fn sequence_lookup_succeeds_below_count_and_fails_at_or_above() {
    let m = model(vec![seq(b"Idle", 1, 0), seq(b"Walk", 3, 0), seq(b"Run", 4, 0)]);
    for i in 0..3usize {
        let s = m.sequence(i).expect("index within the table must resolve");
        assert_eq!(s.name(), m.sequences()[i].name());
    }
    assert!(m.sequence(3).is_none());
    assert!(m.sequence(4).is_none());
    assert!(m.sequence(usize::MAX).is_none());
}

#[test]
fn sequence_lookup_on_empty_model() {
    let m = model(Vec::new());
    assert!(m.sequence(0).is_none());
}

#[test]
fn find_sequence_matches_case_insensitively() {
    let m = model(vec![seq(b"Idle", 1, 0), seq(b"Walk", 3, 0)]);
    assert_eq!(m.find_sequence(&b"idle".to_vec()), Some(0));
    assert_eq!(m.find_sequence(&b"IDLE".to_vec()), Some(0));
    assert_eq!(m.find_sequence(&b"walk".to_vec()), Some(1));
    assert_eq!(m.find_sequence(&b"WaLk".to_vec()), Some(1));
    assert_eq!(m.find_sequence(&b"missing".to_vec()), None);
    assert_eq!(m.find_sequence(&b"idl".to_vec()), None);
}

#[test]
fn find_sequence_returns_first_match() {
    let m = model(vec![seq(b"dup", 1, 0), seq(b"DUP", 1, 0)]);
    assert_eq!(m.find_sequence(&b"dup".to_vec()), Some(0));
}

#[test]
fn find_sequence_index_uses_zero_as_absent_sentinel() {
    let m = model(vec![seq(b"Idle", 1, 0), seq(b"Walk", 3, 0)]);
    assert_eq!(m.find_sequence_index(&b"idle".to_vec()), 0);
    assert_eq!(m.find_sequence_index(&b"walk".to_vec()), 1);
    // Absent names give the same sentinel as the first sequence; only
    // find_sequence can tell the two apart.
    assert_eq!(m.find_sequence_index(&b"missing".to_vec()), 0);
    assert!(m.find_sequence(&b"missing".to_vec()).is_none());
    assert!(m.find_sequence(&b"idle".to_vec()).is_some());
}

#[test]
fn model_accessors() {
    let m = model(vec![seq(b"Idle", 1, 0)]);
    assert_eq!(m.name(), &b"fixture.mdl".to_vec());
    assert_eq!(m.version(), 10);
    assert_eq!(m.flags(), 0);
    assert_eq!(m.sequences().len(), 1);
    assert_eq!(m.bone_controllers().len(), 0);
    assert_eq!(m.transitions_raw().len(), 0);
}
