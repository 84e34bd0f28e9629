//! The I2C transfers the driver asks for, and the retry policy of the blocking
//! driver.
//!
//! The driver never touches the bus itself: each operation yields the
//! [`Transaction`]s to perform, in order, and the caller performs them with
//! its bus implementation. A blocking caller consults a [`Retry`] after each
//! attempt to learn whether to try again, after what delay, or with what error
//! to give up.
use vstd::prelude::*;

use crate::error::Error;

verus! {

/// Number of times the blocking driver attempts one transfer.
pub const MAX_ATTEMPTS: u8 = 3;

/// Pause of the blocking driver between two attempts, in milliseconds.
pub const RETRY_DELAY_MS: u32 = 10;

/// Class of a bus failure, as the bus implementation reports it.
#[derive(Debug, Clone, Copy, PartialEq, Eq)]
pub enum BusErrorKind {
    /// Misplaced start or stop condition.
    Bus,
    /// Another master won the bus.
    ArbitrationLoss,
    /// The device or a data byte was not acknowledged.
    NoAcknowledge,
    /// Data arrived faster than it was consumed.
    Overrun,
    /// Any other failure, such as a timeout.
    Other,
}

/// Whether a transfer reads from the sensor or only writes to it.
#[derive(Debug, Clone, Copy, PartialEq, Eq)]
pub enum Direction {
    Read,
    Write,
}

/// One I2C transfer addressed to the sensor.
#[derive(Debug, PartialEq, Eq)]
pub enum Transaction {
    /// Write `bytes` to the device at `addr`.
    Write { addr: u8, bytes: Vec<u8> },
    /// Write `bytes` to the device at `addr`, then read `read_len` bytes from it
    /// in the same transfer.
    WriteRead { addr: u8, bytes: Vec<u8>, read_len: usize },
}

impl Transaction {
    /// The transfer writes exactly `bytes` to `addr` and reads nothing.
    pub open spec fn is_write_of(self, addr: u8, bytes: Seq<u8>) -> bool {
        &&& self is Write
        &&& self->Write_addr == addr
        &&& self->Write_bytes@ == bytes
    }

    /// The transfer selects register `reg` of `addr` and reads `len` bytes from it.
    pub open spec fn is_read_of(self, addr: u8, reg: u8, len: nat) -> bool {
        &&& self is WriteRead
        &&& self->WriteRead_addr == addr
        &&& self->WriteRead_bytes@ == seq![reg]
        &&& self->WriteRead_read_len == len
    }

    /// Direction of the transfer.
    pub open spec fn spec_direction(self) -> Direction {
        match self {
            Transaction::Write { .. } => Direction::Write,
            Transaction::WriteRead { .. } => Direction::Read,
        }
    }

    /// Direction of the transfer.
    pub fn direction(&self) -> (r: Direction)
        ensures
            r == self.spec_direction(),
    {
        match self {
            Transaction::Write { .. } => Direction::Write,
            Transaction::WriteRead { .. } => Direction::Read,
        }
    }

    /// The error the asynchronous driver reports when the transfer fails: it
    /// does not retry and does not classify the failure.
    pub fn failure_error(&self) -> (r: Error)
        ensures
            r == single_attempt_error(self.spec_direction()),
    {
        match self {
            Transaction::Write { .. } => Error::I2CWriteError,
            Transaction::WriteRead { .. } => Error::I2CReadError,
        }
    }

    /// A fresh retry budget for the transfer.
    pub fn retry(&self) -> (r: Retry)
        ensures
            r.spec_attempts_left() == MAX_ATTEMPTS,
            r.spec_direction() == self.spec_direction(),
    {
        Retry::new(self.direction())
    }
}

/// Error for a failed transfer in `dir` when no retry is made.
pub open spec fn single_attempt_error(dir: Direction) -> Error {
    match dir {
        Direction::Read => Error::I2CReadError,
        Direction::Write => Error::I2CWriteError,
    }
}

/// Error the blocking driver reports once the last attempt of a transfer in
/// `dir` failed with `kind`.
pub open spec fn exhausted_error(dir: Direction, kind: BusErrorKind) -> Error {
    if kind is Other {
        Error::Timeout
    } else {
        single_attempt_error(dir)
    }
}

/// A transfer is attempted three times, ten milliseconds apart. Once the last
/// attempt failed, the error is `Timeout` exactly when the bus reported an
/// unclassified failure (`Other`); for every classified failure it is
/// `I2CReadError` for a read and `I2CWriteError` for a write. A transfer that
/// is not retried reports `I2CReadError` for a read and `I2CWriteError` for a
/// write, whatever the failure.
pub proof fn lemma_failure_errors()
    ensures
        MAX_ATTEMPTS == 3,
        RETRY_DELAY_MS == 10,
        exhausted_error(Direction::Read, BusErrorKind::Other) == Error::Timeout,
        exhausted_error(Direction::Write, BusErrorKind::Other) == Error::Timeout,
        exhausted_error(Direction::Read, BusErrorKind::Bus) == Error::I2CReadError,
        exhausted_error(Direction::Read, BusErrorKind::ArbitrationLoss) == Error::I2CReadError,
        exhausted_error(Direction::Read, BusErrorKind::NoAcknowledge) == Error::I2CReadError,
        exhausted_error(Direction::Read, BusErrorKind::Overrun) == Error::I2CReadError,
        exhausted_error(Direction::Write, BusErrorKind::Bus) == Error::I2CWriteError,
        exhausted_error(Direction::Write, BusErrorKind::ArbitrationLoss) == Error::I2CWriteError,
        exhausted_error(Direction::Write, BusErrorKind::NoAcknowledge) == Error::I2CWriteError,
        exhausted_error(Direction::Write, BusErrorKind::Overrun) == Error::I2CWriteError,
        single_attempt_error(Direction::Read) == Error::I2CReadError,
        single_attempt_error(Direction::Write) == Error::I2CWriteError,
{
}

/// Attempts left for one transfer of the blocking driver: always at least one,
/// and never more than a fresh budget holds.
#[derive(Debug, Clone, Copy, PartialEq, Eq)]
pub struct Retry {
    attempts_left: u8,
    direction: Direction,
}

/// What the blocking driver does after an attempt.
#[derive(Debug, Clone, Copy, PartialEq, Eq)]
pub enum Step {
    /// The transfer succeeded.
    Done,
    /// Wait `delay_ms` milliseconds, then attempt the transfer again with `next`.
    Again { delay_ms: u32, next: Retry },
    /// Give up with this error.
    Fail(Error),
}

/// The step that follows an attempt with `outcome`, given the budget `r`.
pub closed spec fn next_step(r: Retry, outcome: Result<(), BusErrorKind>) -> Step {
    match outcome {
        Ok(()) => Step::Done,
        Err(kind) => if r.attempts_left <= 1 {
            Step::Fail(exhausted_error(r.direction, kind))
        } else {
            Step::Again {
                delay_ms: RETRY_DELAY_MS,
                next: Retry { attempts_left: (r.attempts_left - 1) as u8, direction: r.direction },
            }
        },
    }
}

impl Retry {
    #[verifier::type_invariant]
    spec fn wf(self) -> bool {
        1 <= self.attempts_left <= MAX_ATTEMPTS
    }

    /// Attempts left, counting the next one.
    pub closed spec fn spec_attempts_left(self) -> u8 {
        self.attempts_left
    }

    /// Direction of the transfer being attempted.
    pub closed spec fn spec_direction(self) -> Direction {
        self.direction
    }

    /// Attempts left, counting the next one.
    #[verifier::when_used_as_spec(spec_attempts_left)]
    pub fn attempts_left(self) -> (r: u8)
        ensures
            r == self.spec_attempts_left(),
            1 <= r <= MAX_ATTEMPTS,
    {
        proof {
            use_type_invariant(&self);
        }
        self.attempts_left
    }

    /// Direction of the transfer being attempted.
    #[verifier::when_used_as_spec(spec_direction)]
    pub fn direction(self) -> (r: Direction)
        ensures
            r == self.spec_direction(),
    {
        self.direction
    }

    /// A fresh budget of [`MAX_ATTEMPTS`] attempts.
    pub fn new(direction: Direction) -> (r: Retry)
        ensures
            r.spec_attempts_left() == MAX_ATTEMPTS,
            r.spec_direction() == direction,
    {
        Retry { attempts_left: MAX_ATTEMPTS, direction }
    }

    /// Decides what follows an attempt that ended with `outcome`: done on
    /// success; after a failure with attempts left, wait [`RETRY_DELAY_MS`] and
    /// try again with one attempt fewer; after a failure of the last attempt,
    /// give up with the error its class calls for.
    pub fn on_outcome(self, outcome: Result<(), BusErrorKind>) -> (s: Step)
        ensures
            s == next_step(self, outcome),
            outcome is Ok ==> s == Step::Done,
            outcome is Err && self.spec_attempts_left() <= 1 ==> s == Step::Fail(
                exhausted_error(self.spec_direction(), outcome->Err_0),
            ),
            outcome is Err && self.spec_attempts_left() > 1 ==> (s matches Step::Again {
                delay_ms,
                next,
            } && delay_ms == RETRY_DELAY_MS && next.spec_attempts_left() == self.spec_attempts_left()
                - 1 && next.spec_direction() == self.spec_direction()),
    {
        proof {
            use_type_invariant(&self);
        }
        match outcome {
            Ok(()) => Step::Done,
            Err(kind) => {
                if self.attempts_left <= 1 {
                    let e = match kind {
                        BusErrorKind::Other => Error::Timeout,
                        _ => match self.direction {
                            Direction::Read => Error::I2CReadError,
                            Direction::Write => Error::I2CWriteError,
                        },
                    };
                    Step::Fail(e)
                } else {
                    Step::Again {
                        delay_ms: RETRY_DELAY_MS,
                        next: Retry { attempts_left: self.attempts_left - 1, direction: self.direction },
                    }
                }
            },
        }
    }
}

/// What the blocking driver ends with when its attempts with budget `r` meet
/// the successive `outcomes`: the number of attempts made and the result, or
/// `None` when the outcomes run out before it stops.
pub open spec fn settle(r: Retry, outcomes: Seq<Result<(), BusErrorKind>>) -> Option<
    (nat, Result<(), Error>),
>
    decreases outcomes.len(),
{
    if outcomes.len() == 0 {
        None
    } else {
        match next_step(r, outcomes[0]) {
            Step::Done => Some((1, Ok(()))),
            Step::Fail(e) => Some((1, Err(e))),
            Step::Again { next, .. } => match settle(next, outcomes.drop_first()) {
                Some((n, res)) => Some((n + 1, res)),
                None => None,
            },
        }
    }
}

/// The blocking driver attempts a transfer at most as often as its budget
/// allows. It stops at the first successful attempt and then succeeds; it
/// fails only when every attempt of the budget failed, and then reports the
/// error that the class of the last failure calls for.
pub proof fn lemma_retry_settles(r: Retry, outcomes: Seq<Result<(), BusErrorKind>>)
    requires
        r.spec_attempts_left() >= 1,
        outcomes.len() >= r.spec_attempts_left(),
    ensures
        settle(r, outcomes) matches Some((n, res)) && {
            &&& 1 <= n <= r.spec_attempts_left()
            &&& forall|i: int| 0 <= i < n - 1 ==> outcomes[i] is Err
            &&& (res is Ok <==> outcomes[n - 1] is Ok)
            &&& res is Err ==> n == r.spec_attempts_left() && res == Err::<(), Error>(
                exhausted_error(r.spec_direction(), outcomes[n - 1]->Err_0),
            )
        },
    decreases r.spec_attempts_left(),
{
    match next_step(r, outcomes[0]) {
        Step::Again { next, .. } => {
            let rest = outcomes.drop_first();
            lemma_retry_settles(next, rest);
            assert forall|i: int| 1 <= i < outcomes.len() implies #[trigger] outcomes[i] == rest[i
                - 1] by {}
        },
        _ => {},
    }
}

} // verus!
