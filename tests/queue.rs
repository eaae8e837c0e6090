use tokio_tun::{classify, immediate, resume, Attempt, Error, Resume, SendAll, EAGAIN};

#[test]
fn would_block_is_told_apart() {
    assert_eq!(classify(Err(EAGAIN)), Attempt::WouldBlock);
    assert_eq!(classify(Err(5)), Attempt::Failed(5));
    assert_eq!(classify(Ok(60)), Attempt::Moved(60));
}

#[test]
fn suspending_operation_waits_again_on_stale_readiness() {
    assert_eq!(resume(Attempt::WouldBlock), Resume::ClearAndWait);
    assert_eq!(resume(Attempt::Moved(84)), Resume::Complete(Ok(84)));
    assert_eq!(resume(Attempt::Failed(5)), Resume::Complete(Err(Error::Io(5))));
}

#[test]
fn receive_of_zero_bytes_only_at_end_of_stream() {
    assert_eq!(resume(Attempt::Moved(0)), Resume::Complete(Ok(0)));
    assert_ne!(resume(Attempt::WouldBlock), Resume::Complete(Ok(0)));
}

#[test]
fn immediate_operation_reports_not_ready() {
    assert_eq!(immediate(Attempt::WouldBlock), Err(Error::NotReady));
    assert_eq!(immediate(classify(Err(EAGAIN))), Err(Error::NotReady));
    assert_eq!(immediate(Attempt::Failed(EAGAIN + 1)), Err(Error::Io(EAGAIN + 1)));
    assert_eq!(immediate(Attempt::Moved(3)), Ok(3));
}

#[test]
fn send_all_sends_every_byte() {
    let mut s = SendAll::new(10);
    assert_eq!(s.pending(), Some(0));
    s.on_sent(Ok(4));
    assert_eq!(s.pending(), Some(4));
    assert_eq!(s.outcome(), None);
    s.on_sent(Ok(6));
    assert_eq!(s.pending(), None);
    assert_eq!(s.outcome(), Some(Ok(())));
}

#[test]
fn send_all_stops_at_zero_byte_write() {
    let mut s = SendAll::new(10);
    s.on_sent(Ok(3));
    s.on_sent(Ok(0));
    assert_eq!(s.outcome(), Some(Err(Error::WriteZero)));
    assert_eq!(s.pending(), None);
    s.on_sent(Ok(7));
    assert_eq!(s.outcome(), Some(Err(Error::WriteZero)));
}

#[test]
fn send_all_returns_first_error() {
    let mut s = SendAll::new(8);
    s.on_sent(Err(Error::Io(32)));
    s.on_sent(Err(Error::Io(5)));
    assert_eq!(s.outcome(), Some(Err(Error::Io(32))));
    assert_eq!(s.pending(), None);
}

#[test]
fn send_all_of_empty_buffer_sends_nothing() {
    let s = SendAll::new(0);
    assert_eq!(s.pending(), None);
    assert_eq!(s.outcome(), Some(Ok(())));
}

