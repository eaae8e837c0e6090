use vstd::prelude::*;
use crate::error::Error;

verus! {

/// Where a send-all stands: bytes sent so far, and its result once over.
pub struct SendState {
    pub sent: nat,
    pub result: Option<Result<(), Error>>,
}

/// One send of the unsent remainder, as a send-all takes it: an error ends
/// the run with that error; zero bytes while data remains ends it with
/// `WriteZero`; otherwise the count is added, and the run succeeds once the
/// whole buffer is sent. A run that is over takes no more sends.
pub open spec fn send_step(len: nat, st: SendState, out: Result<usize, Error>) -> SendState {
    if st.result is Some {
        st
    } else {
        match out {
            Err(e) => SendState { sent: st.sent, result: Some(Err(e)) },
            Ok(n) => if n == 0 {
                SendState { sent: st.sent, result: Some(Err(Error::WriteZero)) }
            } else if st.sent + n >= len {
                SendState { sent: len, result: Some(Ok(())) }
            } else {
                SendState { sent: (st.sent + n) as nat, result: None }
            },
        }
    }
}

/// The start of a send-all of `len` bytes; an empty buffer is sent at once.
pub open spec fn send_start(len: nat) -> SendState {
    SendState { sent: 0, result: if len == 0 { Some(Ok(())) } else { None } }
}

/// The state after feeding the send results `outs`, in order, from `st`.
pub open spec fn send_run(len: nat, st: SendState, outs: Seq<Result<usize, Error>>) -> SendState
    decreases outs.len(),
{
    if outs.len() == 0 {
        st
    } else {
        send_run(len, send_step(len, st, outs[0]), outs.drop_first())
    }
}

/// Sends a whole buffer through repeated sends of its unsent remainder.
pub struct SendAll {
    len: usize,
    sent: usize,
    result: Option<Result<(), Error>>,
}

impl SendAll {
    pub closed spec fn spec_len(self) -> nat {
        self.len as nat
    }

    pub closed spec fn state(self) -> SendState {
        SendState { sent: self.sent as nat, result: self.result }
    }

    pub open spec fn wf(self) -> bool {
        &&& self.state().sent <= self.spec_len()
        &&& self.state().result is None ==> self.state().sent < self.spec_len()
        &&& self.state().result == Some(Ok::<(), Error>(())) ==> self.state().sent == self.spec_len()
    }

    /// A send-all of a `len`-byte buffer.
    pub fn new(len: usize) -> (r: SendAll)
        ensures
            r.wf(),
            r.spec_len() == len,
            r.state() == send_start(len as nat),
    {
        SendAll { len, sent: 0, result: if len == 0 { Some(Ok(())) } else { None } }
    }

    /// Offset of the unsent remainder to send next, or `None` once the run
    /// is over.
    pub fn pending(&self) -> (r: Option<usize>)
        requires
            self.wf(),
        ensures
            self.state().result is None ==> r == Some(self.state().sent as usize),
            self.state().result is Some ==> r is None,
    {
        if self.result.is_none() {
            Some(self.sent)
        } else {
            None
        }
    }

    /// Takes the result of the send that `pending` asked for. A send never
    /// reports more bytes than were offered.
    pub fn on_sent(&mut self, out: Result<usize, Error>)
        requires
            old(self).wf(),
            old(self).state().result is None ==> (out matches Ok(n) ==> n <= old(self).spec_len()
                - old(self).state().sent),
        ensures
            final(self).wf(),
            final(self).spec_len() == old(self).spec_len(),
            final(self).state() == send_step(old(self).spec_len(), old(self).state(), out),
    {
        if self.result.is_some() {
            return;
        }
        match out {
            Err(e) => {
                self.result = Some(Err(e));
            },
            Ok(n) => {
                if n == 0 {
                    self.result = Some(Err(Error::WriteZero));
                } else {
                    self.sent = self.sent + n;
                    if self.sent == self.len {
                        self.result = Some(Ok(()));
                    }
                }
            },
        }
    }

    /// The run's result once it is over.
    pub fn outcome(&self) -> (r: Option<Result<(), Error>>)
        ensures
            r == self.state().result,
    {
        self.result
    }
}

proof fn lemma_run_over(len: nat, st: SendState, outs: Seq<Result<usize, Error>>)
    requires
        st.result is Some,
    ensures
        send_run(len, st, outs) == st,
    decreases outs.len(),
{
    if outs.len() > 0 {
        lemma_run_over(len, send_step(len, st, outs[0]), outs.drop_first());
    }
}

proof fn lemma_run_concat(
    len: nat,
    st: SendState,
    a: Seq<Result<usize, Error>>,
    b: Seq<Result<usize, Error>>,
)
    ensures
        send_run(len, st, a + b) == send_run(len, send_run(len, st, a), b),
    decreases a.len(),
{
    if a.len() > 0 {
        assert((a + b).drop_first() =~= a.drop_first() + b);
        lemma_run_concat(len, send_step(len, st, a[0]), a.drop_first(), b);
    } else {
        assert(a + b =~= b);
    }
}

proof fn lemma_run_bounds(len: nat, st: SendState, outs: Seq<Result<usize, Error>>)
    requires
        st.sent <= len,
        st.result == Some(Ok::<(), Error>(())) ==> st.sent == len,
    ensures
        send_run(len, st, outs).sent <= len,
        send_run(len, st, outs).result == Some(Ok::<(), Error>(())) ==> send_run(len, st, outs).sent
            == len,
        send_run(len, st, outs).result is None ==> send_run(len, st, outs).sent >= st.sent,
    decreases outs.len(),
{
    if outs.len() > 0 {
        lemma_run_bounds(len, send_step(len, st, outs[0]), outs.drop_first());
    }
}

/// Whatever the sends report, a send-all of `len` bytes ends in one of two
/// ways: success, with exactly `len` bytes sent, or the first failure; and
/// once it is over (in particular after a send of zero bytes) no further
/// send result changes anything, so no further send is made.
pub proof fn lemma_send_all_exact(
    len: nat,
    outs: Seq<Result<usize, Error>>,
    more: Seq<Result<usize, Error>>,
)
    ensures
        send_run(len, send_start(len), outs).sent <= len,
        send_run(len, send_start(len), outs).result == Some(Ok::<(), Error>(())) ==> send_run(
            len,
            send_start(len),
            outs,
        ).sent == len,
        send_run(len, send_start(len), outs).result is Some ==> send_run(
            len,
            send_start(len),
            outs + more,
        ) == send_run(len, send_start(len), outs),
{
    lemma_run_bounds(len, send_start(len), outs);
    lemma_run_concat(len, send_start(len), outs, more);
    if send_run(len, send_start(len), outs).result is Some {
        lemma_run_over(len, send_run(len, send_start(len), outs), more);
    }
}

/// A zero-byte send while data remains ends the run with `WriteZero`, and
/// a failed send ends it with that failure.
pub proof fn lemma_send_all_first_failure(len: nat, st: SendState, out: Result<usize, Error>)
    requires
        st.result is None,
    ensures
        out == Ok::<usize, Error>(0) ==> send_step(len, st, out).result == Some(
            Err::<(), Error>(Error::WriteZero),
        ),
        forall|e: Error| out == Err::<usize, Error>(e) ==> send_step(len, st, out).result == Some(
            Err::<(), Error>(e),
        ),
{
}

} // verus!
