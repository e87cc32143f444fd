use rsocx::Direction;
use rsocx::RelaySession;

#[test]
fn deliveries_keep_session_open() {
    let mut s = RelaySession::new();
    assert!(!s.is_closed());
    s.on_write_done(Direction::AToB, &b"abc".to_vec());
    assert!(!s.is_closed());
    s.on_write_done(Direction::BToA, &b"xy".to_vec());
    s.on_write_done(Direction::AToB, &b"def".to_vec());
    assert!(!s.is_closed());
    assert!(!s.is_faulted());
}

#[test]
fn eof_on_either_leg_closes_both_cleanly() {
    let mut a = RelaySession::new();
    a.on_write_done(Direction::AToB, &b"data".to_vec());
    a.on_write_done(Direction::AToB, &Vec::new());
    assert!(a.is_closed());
    assert!(!a.is_faulted());

    let mut b = RelaySession::new();
    b.on_write_done(Direction::BToA, &Vec::new());
    assert!(b.is_closed());
    assert!(!b.is_faulted());
}

#[test]
fn io_error_closes_with_fault() {
    let mut s = RelaySession::new();
    s.on_write_done(Direction::BToA, &b"partial".to_vec());
    s.on_error();
    assert!(s.is_closed());
    assert!(s.is_faulted());
}
