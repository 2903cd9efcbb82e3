use studio_model::{DrawLock, KeyState, Motion};

#[test]
fn draw_sessions_are_strictly_nested() {
    let mut lock = DrawLock::new();
    assert!(!lock.is_open());
    let session = lock.begin();
    assert!(lock.is_open());
    lock.end(session);
    assert!(!lock.is_open());
    // The lock can be reused for a later session.
    let session = lock.begin();
    assert!(lock.is_open());
    lock.end(session);
    assert!(!lock.is_open());
}

#[test]
fn draw_lock_default_is_closed() {
    assert!(!DrawLock::default().is_open());
}

#[test]
fn motion_bit_queries() {
    let m = Motion::from_bits_retain(Motion::XR | Motion::LX);
    assert_eq!(m.bits(), 0x48);
    assert!(m.intersects(Motion::from_bits_retain(Motion::XR)));
    assert!(!m.intersects(Motion::from_bits_retain(Motion::YR)));
    assert!(m.is_rotational());
    assert!(!Motion::from_bits_retain(Motion::X | Motion::RLOOP).is_rotational());
    assert!(Motion::from_bits_retain(Motion::TYPES).is_rotational());
    assert_eq!(Motion::default().bits(), 0);
}

#[test]
fn key_state_bit_queries() {
    let any = KeyState::from_bits_retain(KeyState::ANY_DOWN);
    assert_eq!(KeyState::ANY_DOWN, KeyState::DOWN | KeyState::IMPULSE_DOWN);
    assert!(any.intersects(KeyState::from_bits_retain(KeyState::DOWN)));
    assert!(any.intersects(KeyState::from_bits_retain(KeyState::IMPULSE_DOWN)));
    assert!(!any.intersects(KeyState::from_bits_retain(KeyState::IMPULSE_UP)));
    assert_eq!(KeyState::default().bits(), KeyState::NONE);
}
