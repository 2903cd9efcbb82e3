use studio_model::parse::f32_bits_to_i32;
use studio_model::{Model, Motion};

fn put_i32(buf: &mut Vec<u8>, off: usize, v: i32) {
    buf[off..off + 4].copy_from_slice(&v.to_le_bytes());
}

fn put_f32(buf: &mut Vec<u8>, off: usize, v: f32) {
    buf[off..off + 4].copy_from_slice(&v.to_bits().to_le_bytes());
}

fn put_text(buf: &mut Vec<u8>, off: usize, text: &[u8]) {
    buf[off..off + text.len()].copy_from_slice(text);
}

/// A small but complete asset: one bone controller, one sequence with two
/// events, three transition bytes.
fn fixture() -> Vec<u8> {
    let mut b = vec![0u8; 599];
    // Header.
    put_i32(&mut b, 4, 10); // version
    put_text(&mut b, 8, b"test.mdl"); // name[64]
    put_f32(&mut b, 76, 0.0); // eyeposition
    put_f32(&mut b, 80, 0.0);
    put_f32(&mut b, 84, 64.0);
    put_i32(&mut b, 136, 0x100); // flags
    put_i32(&mut b, 148, 1); // numbonecontrollers
    put_i32(&mut b, 152, 244); // bonecontrollerindex
    put_i32(&mut b, 164, 1); // numseq
    put_i32(&mut b, 168, 268); // seqindex
    put_i32(&mut b, 236, 3); // numtransitions
    put_i32(&mut b, 240, 596); // transitionindex
    // Bone controller record (24 bytes at 244).
    put_i32(&mut b, 244, 0); // bone
    put_i32(&mut b, 248, Motion::XR as i32); // type
    put_f32(&mut b, 252, -170.0); // start
    put_f32(&mut b, 256, 170.0); // end
    put_i32(&mut b, 260, 0); // rest
    put_i32(&mut b, 264, 0); // index
    // Sequence descriptor (176 bytes at 268).
    put_text(&mut b, 268, b"Idle"); // label[32]
    put_f32(&mut b, 300, 30.0); // fps
    put_i32(&mut b, 304, 1); // flags (looping)
    put_i32(&mut b, 308, 3); // activity
    put_i32(&mut b, 312, 9); // actweight
    put_i32(&mut b, 316, 2); // numevents
    put_i32(&mut b, 320, 444); // eventindex
    put_i32(&mut b, 324, 10); // numframes
    put_f32(&mut b, 344, 1.0); // linearmovement
    put_f32(&mut b, 348, 2.0);
    put_f32(&mut b, 352, 3.0);
    put_i32(&mut b, 428, 4); // entrynode
    put_i32(&mut b, 432, 5); // exitnode
    // Two event records (76 bytes each at 444).
    put_i32(&mut b, 444, 5); // frame
    put_i32(&mut b, 448, 1004); // event
    put_text(&mut b, 456, b"door.wav"); // options[64]
    put_i32(&mut b, 520, 9); // frame
    put_i32(&mut b, 524, 5001); // event
    // Transition bytes at 596.
    b[596] = 1;
    b[597] = 2;
    b[598] = 3;
    b
}

#[test]
fn parses_header_fields() {
    let m = Model::from_bytes(&fixture()).expect("the fixture is well-formed");
    assert_eq!(m.name(), &b"test.mdl".to_vec());
    assert_eq!(m.version(), 10);
    assert_eq!(m.flags(), 0x100);
    assert_eq!(m.eye_position_bits(), [0, 0, 64.0f32.to_bits()]);
    assert_eq!(m.transitions_raw(), &vec![1, 2, 3]);
}

#[test]
fn parses_bone_controller_table() {
    let m = Model::from_bytes(&fixture()).unwrap();
    assert_eq!(m.bone_controllers().len(), 1);
    let c = &m.bone_controllers()[0];
    assert_eq!(c.ty().bits(), Motion::XR);
    assert_eq!(c.start(), -170);
    assert_eq!(c.end(), 170);
    assert_eq!(c.index(), 0);
}

#[test]
fn parses_sequence_descriptor_and_events() {
    let m = Model::from_bytes(&fixture()).unwrap();
    assert_eq!(m.sequences().len(), 1);
    let s = m.sequence(0).unwrap();
    assert_eq!(s.name(), &b"Idle".to_vec());
    assert_eq!(s.fps_bits(), 30.0f32.to_bits());
    assert!(s.is_looping());
    assert!(!s.is_static());
    assert_eq!(s.activity().into_raw(), 3);
    assert_eq!(s.activity_weight(), 9);
    assert_eq!(s.frames(), 10);
    assert_eq!(
        s.linear_movement_bits(),
        [1.0f32.to_bits(), 2.0f32.to_bits(), 3.0f32.to_bits()]
    );
    assert_eq!(s.entry_node(), 4);
    assert_eq!(s.exit_node(), 5);
    assert_eq!(s.events().len(), 2);
    assert_eq!(s.events()[0].frame(), 5);
    assert_eq!(s.events()[0].kind().into_raw(), 1004);
    assert_eq!(s.events()[0].options(), &b"door.wav".to_vec());
    assert_eq!(s.events()[1].frame(), 9);
    assert_eq!(s.events()[1].kind().into_raw(), 5001);
    assert!(s.events()[1].options().is_empty());
}

#[test]
fn parsed_model_answers_queries() {
    let m = Model::from_bytes(&fixture()).unwrap();
    assert_eq!(m.find_sequence_index(&b"idle".to_vec()), 0);
    assert_eq!(m.find_sequence(&b"missing".to_vec()), None);
    // The one sound event is visible through the precache plan.
    let plan = m.precache_sequence_by_name(&b"IDLE".to_vec()).unwrap();
    assert_eq!(plan.sounds, vec![0]);
    // The parsed rotational controller folds exactly as a hand-built one.
    let mut state = vec![0u8; 4];
    let r = m.set_bone_controller(&mut state, 0, 200).unwrap();
    assert_eq!(r.setting, 7);
}

#[test]
fn truncated_buffer_is_rejected() {
    assert!(Model::from_bytes(&vec![0u8; 100]).is_none());
    assert!(Model::from_bytes(&Vec::new()).is_none());
    let whole = fixture();
    assert!(Model::from_bytes(&whole[..500].to_vec()).is_none());
}

#[test]
fn out_of_bounds_tables_are_rejected() {
    let mut b = fixture();
    put_i32(&mut b, 168, 1000); // sequence table beyond the buffer
    assert!(Model::from_bytes(&b).is_none());

    let mut b = fixture();
    put_i32(&mut b, 164, -1); // negative sequence count
    assert!(Model::from_bytes(&b).is_none());

    let mut b = fixture();
    put_i32(&mut b, 320, 590); // event table spills past the end
    assert!(Model::from_bytes(&b).is_none());

    let mut b = fixture();
    put_i32(&mut b, 240, 598); // transitions spill past the end
    assert!(Model::from_bytes(&b).is_none());
}

#[test]
fn float_fields_truncate_toward_zero() {
    assert_eq!(f32_bits_to_i32(0.0f32.to_bits()), 0);
    assert_eq!(f32_bits_to_i32(45.0f32.to_bits()), 45);
    assert_eq!(f32_bits_to_i32((-170.0f32).to_bits()), -170);
    assert_eq!(f32_bits_to_i32(0.75f32.to_bits()), 0);
    assert_eq!(f32_bits_to_i32((-0.75f32).to_bits()), 0);
    assert_eq!(f32_bits_to_i32(359.9f32.to_bits()), 359);
    assert_eq!(f32_bits_to_i32((-359.9f32).to_bits()), -359);
    assert_eq!(f32_bits_to_i32(16777215.0f32.to_bits()), 16777215);
}

#[test]
fn float_decode_saturates_outside_the_signed_range() {
    assert_eq!(f32_bits_to_i32(1.0e10f32.to_bits()), i32::MAX);
    assert_eq!(f32_bits_to_i32((-1.0e10f32).to_bits()), i32::MIN);
    assert_eq!(f32_bits_to_i32(f32::INFINITY.to_bits()), i32::MAX);
    assert_eq!(f32_bits_to_i32(f32::NEG_INFINITY.to_bits()), i32::MIN);
}
