use mpu9250::bus::{BusErrorKind, Direction, Retry, Step, Transaction, MAX_ATTEMPTS, RETRY_DELAY_MS};
use mpu9250::error::Error;

#[test]
fn retry_succeeds_at_once() {
    let r = Retry::new(Direction::Read);
    assert_eq!(r.attempts_left(), MAX_ATTEMPTS);
    assert_eq!(r.direction(), Direction::Read);
    assert_eq!(r.on_outcome(Ok(())), Step::Done);
}

#[test]
fn retry_waits_then_gives_up_after_three_attempts() {
    let r = Retry::new(Direction::Read);
    let r = match r.on_outcome(Err(BusErrorKind::NoAcknowledge)) {
        Step::Again { delay_ms, next } => {
            assert_eq!(delay_ms, RETRY_DELAY_MS);
            assert_eq!(delay_ms, 10);
            next
        }
        other => panic!("unexpected {:?}", other),
    };
    let r = match r.on_outcome(Err(BusErrorKind::Bus)) {
        Step::Again { delay_ms: 10, next } => next,
        other => panic!("unexpected {:?}", other),
    };
    assert_eq!(r.attempts_left(), 1);
    assert_eq!(r.on_outcome(Err(BusErrorKind::Overrun)), Step::Fail(Error::I2CReadError));
}

fn last_attempt(direction: Direction) -> Retry {
    let mut r = Retry::new(direction);
    while r.attempts_left() > 1 {
        r = match r.on_outcome(Err(BusErrorKind::Bus)) {
            Step::Again { next, .. } => next,
            other => panic!("unexpected {:?}", other),
        };
    }
    r
}

#[test]
fn retry_classifies_last_failure() {
    let last_read = last_attempt(Direction::Read);
    assert_eq!(last_read.attempts_left(), 1);
    assert_eq!(last_read.on_outcome(Err(BusErrorKind::Other)), Step::Fail(Error::Timeout));
    let last_write = last_attempt(Direction::Write);
    assert_eq!(
        last_write.on_outcome(Err(BusErrorKind::ArbitrationLoss)),
        Step::Fail(Error::I2CWriteError)
    );
    assert_eq!(last_write.on_outcome(Err(BusErrorKind::Other)), Step::Fail(Error::Timeout));
    assert_eq!(last_write.on_outcome(Ok(())), Step::Done);
}

#[test]
fn retry_succeeds_on_second_attempt() {
    let r = Retry::new(Direction::Write);
    match r.on_outcome(Err(BusErrorKind::Other)) {
        Step::Again { next, .. } => assert_eq!(next.on_outcome(Ok(())), Step::Done),
        other => panic!("unexpected {:?}", other),
    }
}

#[test]
fn transaction_direction_and_single_attempt_error() {
    let w = Transaction::Write { addr: 0x68, bytes: vec![1, 2] };
    let r = Transaction::WriteRead { addr: 0x68, bytes: vec![1], read_len: 2 };
    assert_eq!(w.direction(), Direction::Write);
    assert_eq!(r.direction(), Direction::Read);
    assert_eq!(w.failure_error(), Error::I2CWriteError);
    assert_eq!(r.failure_error(), Error::I2CReadError);
    assert_eq!(w.retry(), Retry::new(Direction::Write));
    assert_eq!(r.retry(), Retry::new(Direction::Read));
    assert_eq!(w.retry().attempts_left(), 3);
    assert_eq!(r.retry().direction(), Direction::Read);
}
