use thermometer::listener::{ListenerState, RecvEvent};

fn datagram_for(value: f32) -> RecvEvent {
    RecvEvent::Datagram(value.to_be_bytes().to_vec())
}

#[test]
fn initial_state_is_zero_default_and_disconnected() {
    let s = ListenerState::new();
    assert_eq!(s.temperature, 0);
    assert_eq!(f32::from_bits(s.temperature), 0.0f32);
    assert!(!s.connected);
}

#[test]
fn well_formed_datagram_installs_reading_and_connectivity() {
    let mut s = ListenerState::new();
    s.step(&datagram_for(23.5));
    assert_eq!(f32::from_bits(s.temperature), 23.5f32);
    assert!(s.connected);
}

#[test]
fn timeout_clears_connectivity_and_keeps_reading() {
    let mut s = ListenerState::new();
    s.step(&datagram_for(23.5));
    s.step(&RecvEvent::Timeout);
    assert_eq!(f32::from_bits(s.temperature), 23.5f32);
    assert!(!s.connected);
}

#[test]
fn receive_failure_clears_connectivity_and_keeps_reading() {
    let mut s = ListenerState::new();
    s.step(&datagram_for(23.5));
    s.step(&RecvEvent::Failure);
    assert_eq!(f32::from_bits(s.temperature), 23.5f32);
    assert!(!s.connected);
}

#[test]
fn short_datagram_is_a_transient_failure() {
    let mut s = ListenerState::new();
    s.step(&datagram_for(23.5));
    s.step(&RecvEvent::Datagram(vec![0x41, 0xbc, 0x00]));
    assert_eq!(f32::from_bits(s.temperature), 23.5f32);
    assert!(!s.connected);
}

#[test]
fn long_datagram_is_a_transient_failure() {
    let mut s = ListenerState::new();
    s.step(&datagram_for(23.5));
    s.step(&RecvEvent::Datagram(vec![0x41, 0xbc, 0x00, 0x00, 0x00]));
    assert_eq!(f32::from_bits(s.temperature), 23.5f32);
    assert!(!s.connected);
}

#[test]
fn empty_datagram_is_a_transient_failure() {
    let mut s = ListenerState::new();
    s.step(&RecvEvent::Datagram(vec![]));
    assert_eq!(s.temperature, 0);
    assert!(!s.connected);
}

#[test]
fn later_of_two_readings_wins_and_connectivity_holds_throughout() {
    let mut s = ListenerState::new();
    s.step(&datagram_for(24.1));
    assert!(s.connected);
    s.step(&datagram_for(25.3));
    assert!(s.connected);
    assert_eq!(f32::from_bits(s.temperature), 25.3f32);
}

#[test]
fn reading_is_last_decoded_whatever_failures_follow() {
    let mut s = ListenerState::new();
    s.step(&datagram_for(21.0));
    s.step(&RecvEvent::Timeout);
    s.step(&datagram_for(22.25));
    s.step(&RecvEvent::Failure);
    s.step(&RecvEvent::Timeout);
    s.step(&RecvEvent::Datagram(vec![1, 2, 3]));
    assert_eq!(f32::from_bits(s.temperature), 22.25f32);
    assert!(!s.connected);
}
