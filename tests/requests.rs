use bagua_net::error::BaguaNetError;
use bagua_net::transfer::{Direction, IoOutcome, Progress, RequestStatus, TransferRequest};

#[test]
fn partial_writes_resume_from_the_offset() {
    let mut req = TransferRequest::new(3, Direction::Send, 10);
    assert_eq!(req.remaining(), 10);
    assert!(matches!(req.advance(IoOutcome::Transferred(4)), Progress::Pending(4)));
    assert_eq!(req.remaining(), 6);
    assert!(matches!(req.advance(IoOutcome::WouldBlock), Progress::Pending(4)));
    assert_eq!(req.offset, 4);
    assert!(matches!(req.advance(IoOutcome::Transferred(6)), Progress::Complete(10)));
    assert!(matches!(req.status, RequestStatus::Complete));
}

#[test]
fn complete_request_ignores_later_outcomes() {
    let mut req = TransferRequest::new(0, Direction::Recv, 1);
    assert!(matches!(req.advance(IoOutcome::Transferred(1)), Progress::Complete(1)));
    assert!(matches!(req.advance(IoOutcome::Transferred(1)), Progress::Complete(1)));
    assert!(matches!(req.advance(IoOutcome::Failed("x".to_string())), Progress::Complete(1)));
    assert_eq!(req.offset, 1);
}

#[test]
fn empty_request_is_complete_at_once() {
    let req = TransferRequest::new(0, Direction::Send, 0);
    assert!(!req.in_flight());
    assert!(matches!(req.progress(), Progress::Complete(0)));
}

#[test]
fn zero_bytes_means_peer_closed() {
    let mut req = TransferRequest::new(0, Direction::Recv, 5);
    match req.advance(IoOutcome::Transferred(0)) {
        Progress::Failed(BaguaNetError::IOError(m)) => assert_eq!(m, "connection closed by peer"),
        other => panic!("{:?}", other),
    }
    assert_eq!(req.offset, 0);
}

#[test]
fn overrun_fails_the_request() {
    let mut req = TransferRequest::new(0, Direction::Send, 5);
    req.advance(IoOutcome::Transferred(2));
    match req.advance(IoOutcome::Transferred(4)) {
        Progress::Failed(BaguaNetError::IOError(m)) => assert_eq!(m, "transfer overran the request"),
        other => panic!("{:?}", other),
    }
    assert_eq!(req.offset, 2);
}

#[test]
fn system_failure_is_reported_with_its_cause_on_every_poll() {
    let mut req = TransferRequest::new(0, Direction::Send, 5);
    req.advance(IoOutcome::Failed("broken pipe".to_string()));
    for _ in 0..2 {
        match req.progress() {
            Progress::Failed(BaguaNetError::IOError(m)) => assert_eq!(m, "broken pipe"),
            other => panic!("{:?}", other),
        }
    }
    assert!(!req.in_flight());
}

#[test]
fn one_byte_chunks_move_every_byte_once() {
    let mut req = TransferRequest::new(0, Direction::Recv, 100);
    for i in 1..=100 {
        let p = req.advance(IoOutcome::Transferred(1));
        assert_eq!(req.offset, i);
        if i < 100 {
            assert!(matches!(p, Progress::Pending(n) if n == i));
        } else {
            assert!(matches!(p, Progress::Complete(100)));
        }
    }
}
