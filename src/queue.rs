use vstd::prelude::*;
use crate::error::Error;

verus! {

/// The error number of an operation that would block on a non-blocking
/// descriptor.
pub const EAGAIN: i32 = 11;

/// The outcome of one non-blocking read or write on a queue's descriptor.
#[derive(Clone, Copy, Debug, PartialEq, Eq, Structural)]
pub enum Attempt {
    /// The call moved this many bytes; zero on a read means end of stream.
    Moved(usize),
    /// The descriptor was not ready.
    WouldBlock,
    /// The call failed with this error number.
    Failed(i32),
}

/// What a suspending operation does after one attempt.
#[derive(Clone, Copy, Debug, PartialEq, Eq)]
pub enum Resume {
    /// The readiness seen was stale: clear it and wait for the next one.
    ClearAndWait,
    /// The operation is over with this result.
    Complete(Result<usize, Error>),
}

/// How a raw system-call result reads: a byte count, or an error number.
pub open spec fn attempt_of(r: Result<usize, i32>) -> Attempt {
    match r {
        Ok(n) => Attempt::Moved(n),
        Err(e) => if e == EAGAIN {
            Attempt::WouldBlock
        } else {
            Attempt::Failed(e)
        },
    }
}

/// The step after attempt `a` of a suspending operation.
pub open spec fn resume_of(a: Attempt) -> Resume {
    match a {
        Attempt::Moved(n) => Resume::Complete(Ok(n)),
        Attempt::WouldBlock => Resume::ClearAndWait,
        Attempt::Failed(e) => Resume::Complete(Err(Error::Io(e))),
    }
}

/// Reads a raw system-call result: "would block" is told apart from every
/// other failure.
pub fn classify(r: Result<usize, i32>) -> (a: Attempt)
    ensures
        a == attempt_of(r),
{
    match r {
        Ok(n) => Attempt::Moved(n),
        Err(e) => if e == EAGAIN {
            Attempt::WouldBlock
        } else {
            Attempt::Failed(e)
        },
    }
}

/// The step after one attempt of a suspending receive or send: a stale
/// readiness leads to waiting again, never to a result, so "not ready" never
/// reaches the caller; otherwise the attempt's own count or error is the
/// result.
pub fn resume(a: Attempt) -> (r: Resume)
    ensures
        r == resume_of(a),
        a == Attempt::WouldBlock <==> r == Resume::ClearAndWait,
        forall|n: usize| a == Attempt::Moved(n) <==> r == Resume::Complete(Ok(n)),
        forall|e: i32| a == Attempt::Failed(e) <==> r == Resume::Complete(Err(Error::Io(e))),
{
    match a {
        Attempt::Moved(n) => Resume::Complete(Ok(n)),
        Attempt::WouldBlock => Resume::ClearAndWait,
        Attempt::Failed(e) => Resume::Complete(Err(Error::Io(e))),
    }
}

/// The result of an immediate (non-suspending) receive or send: a descriptor
/// that is not ready gives `NotReady`, distinct from every I/O error.
pub fn immediate(a: Attempt) -> (r: Result<usize, Error>)
    ensures
        a == Attempt::WouldBlock <==> r == Err::<usize, Error>(Error::NotReady),
        forall|n: usize| a == Attempt::Moved(n) <==> r == Ok::<usize, Error>(n),
        forall|e: i32| a == Attempt::Failed(e) <==> r == Err::<usize, Error>(Error::Io(e)),
{
    match a {
        Attempt::Moved(n) => Ok(n),
        Attempt::WouldBlock => Err(Error::NotReady),
        Attempt::Failed(e) => Err(Error::Io(e)),
    }
}

/// A suspending receive ends with zero bytes only when the device reported
/// end of stream (a read of zero bytes), and never ends with `NotReady`.
pub proof fn lemma_receive_zero_only_at_end(a: Attempt)
    ensures
        resume_of(a) == Resume::Complete(Ok(0usize)) ==> a == Attempt::Moved(0),
        resume_of(a) != Resume::Complete(Err(Error::NotReady)),
{
}

} // verus!
