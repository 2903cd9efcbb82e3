use studio_model::{Activity, EventRecord, Model, SeededRandom, SequenceDesc};

fn seq(label: &[u8], activity: i32, weight: i32) -> SequenceDesc {
    SequenceDesc {
        label: label.to_vec(),
        fps_bits: 0,
        flags: 0,
        activity: Activity::from_raw(activity),
        activity_weight: weight,
        frames: 10,
        linear_movement_bits: [0; 3],
        bbmin_bits: [0; 3],
        bbmax_bits: [0; 3],
        entry_node: 0,
        exit_node: 0,
        events: Vec::<EventRecord>::new(),
    }
}

fn model(sequences: Vec<SequenceDesc>) -> Model {
    Model {
        name: b"fixture.mdl".to_vec(),
        version: 10,
        flags: 0,
        eye_position_bits: [0; 3],
        min_bits: [0; 3],
        max_bits: [0; 3],
        bbmin_bits: [0; 3],
        bbmax_bits: [0; 3],
        bone_controllers: Vec::new(),
        sequences,
        transitions: Vec::new(),
    }
}

#[test]
fn heaviest_picks_maximum_weight() {
    let m = model(vec![
        seq(b"walk_a", Activity::WALK, 5),
        seq(b"walk_b", Activity::WALK, 9),
        seq(b"run_a", Activity::RUN, 1),
    ]);
    let walk = Activity::from_raw(Activity::WALK);
    assert_eq!(m.find_sequence_by_activity_heaviest(walk), Some(1));
    assert_eq!(m.find_sequence_index_by_activity_heaviest(walk), 1);
}

#[test]
fn heaviest_is_deterministic_and_idempotent() {
    let m = model(vec![
        seq(b"walk_a", Activity::WALK, 5),
        seq(b"walk_b", Activity::WALK, 9),
        seq(b"run_a", Activity::RUN, 1),
    ]);
    let walk = Activity::from_raw(Activity::WALK);
    let first = m.find_sequence_by_activity_heaviest(walk);
    for _ in 0..16 {
        assert_eq!(m.find_sequence_by_activity_heaviest(walk), first);
    }
}

#[test]
fn heaviest_breaks_ties_by_lowest_index() {
    let m = model(vec![
        seq(b"run_a", Activity::RUN, 4),
        seq(b"walk_a", Activity::WALK, 7),
        seq(b"walk_b", Activity::WALK, 7),
    ]);
    let walk = Activity::from_raw(Activity::WALK);
    assert_eq!(m.find_sequence_by_activity_heaviest(walk), Some(1));
}

#[test]
fn heaviest_with_no_candidate_is_absent() {
    let m = model(vec![seq(b"walk_a", Activity::WALK, 5)]);
    let fly = Activity::from_raw(Activity::FLY);
    assert_eq!(m.find_sequence_by_activity_heaviest(fly), None);
    assert_eq!(m.find_sequence_index_by_activity_heaviest(fly), 0);
}

#[test]
fn weighted_selection_over_single_candidate_always_returns_it() {
    let m = model(vec![
        seq(b"run_a", Activity::RUN, 3),
        seq(b"walk_a", Activity::WALK, 5),
    ]);
    let walk = Activity::from_raw(Activity::WALK);
    for s in 0..64u64 {
        let mut rng = SeededRandom::new(s);
        assert_eq!(m.find_sequence_by_activity(&mut rng, walk), Some(1));
        assert_eq!(m.find_sequence_index_by_activity(&mut rng, walk), 1);
    }
}

#[test]
fn weighted_selection_over_zero_candidates_is_absent() {
    let m = model(vec![seq(b"walk_a", Activity::WALK, 5)]);
    let fly = Activity::from_raw(Activity::FLY);
    let mut rng = SeededRandom::new(7);
    assert_eq!(m.find_sequence_by_activity(&mut rng, fly), None);
    assert_eq!(m.find_sequence_index_by_activity(&mut rng, fly), 0);
}

#[test]
fn weighted_selection_zero_weight_candidate_is_still_eligible() {
    let m = model(vec![seq(b"walk_a", Activity::WALK, 0)]);
    let walk = Activity::from_raw(Activity::WALK);
    let mut rng = SeededRandom::new(3);
    assert_eq!(m.find_sequence_by_activity(&mut rng, walk), Some(0));
}

#[test]
fn weighted_selection_prefers_heavier_candidates_proportionally() {
    let m = model(vec![
        seq(b"walk_a", Activity::WALK, 1),
        seq(b"walk_b", Activity::WALK, 3),
    ]);
    let walk = Activity::from_raw(Activity::WALK);
    let mut rng = SeededRandom::new(42);
    let trials: u32 = 20_000;
    let mut counts = [0u32; 2];
    for _ in 0..trials {
        match m.find_sequence_by_activity(&mut rng, walk) {
            Some(i) => counts[i] += 1,
            None => panic!("a candidate exists, the result cannot be absent"),
        }
    }
    assert_eq!(counts[0] + counts[1], trials);
    // With weights [1, 3] the second candidate wins with probability 3/4:
    // expect roughly three times as many wins, with a generous tolerance.
    let c0 = counts[0] as f64;
    let c1 = counts[1] as f64;
    assert!(c1 > 2.2 * c0, "second candidate won too rarely: {c0} vs {c1}");
    assert!(c1 < 4.0 * c0, "second candidate won too often: {c0} vs {c1}");
}

#[test]
fn sequences_by_activity_lists_candidates_in_order() {
    let m = model(vec![
        seq(b"walk_a", Activity::WALK, 5),
        seq(b"run_a", Activity::RUN, 1),
        seq(b"walk_b", Activity::WALK, 9),
    ]);
    let walk = Activity::from_raw(Activity::WALK);
    assert_eq!(m.sequences_by_activity(walk), vec![0, 2]);
    let fly = Activity::from_raw(Activity::FLY);
    assert_eq!(m.sequences_by_activity(fly), Vec::<usize>::new());
}
