//! The decisions of the background task that drains responses: when to
//! read, when to stop, and what a failure leaves behind.
use vstd::prelude::*;
use crate::error::Error;

verus! {

/// How the background reader ended.
#[derive(Debug, Clone, Copy, PartialEq, Eq)]
pub enum Termination {
    /// The stream ended with no request left unanswered.
    Clean,
    /// Reading or decoding a response failed.
    Failure(Error),
}

/// What the background reader is to do next.
#[derive(Debug, Clone, Copy, PartialEq, Eq)]
pub enum ReaderAction {
    /// Wait until requests have been submitted, and report how many.
    WaitForRequests,
    /// Read one response packet and hand it to the request it answers.
    ReadPacket,
    /// Stop without error.
    Exit,
    /// Raise the session's failure signal, then stop.
    SignalFailure,
}

/// The background reader: running, with the number of submitted responses
/// still to be read in the current batch, or ended.
#[derive(Debug)]
pub struct ReadTask {
    pub to_read: u64,
    pub ended: Option<Termination>,
}

/// The effect of being told that `submitted` more requests await their
/// responses: none means the stream is done, else that many packets are
/// to be read, one at a time.
pub open spec fn after_wait(submitted: u64) -> (u64, Option<Termination>, ReaderAction) {
    if submitted == 0 {
        (0, Some(Termination::Clean), ReaderAction::Exit)
    } else {
        (submitted, None, ReaderAction::ReadPacket)
    }
}

/// The effect of one packet read with outcome `res`, with `to_read`
/// packets of the batch left before it.
pub open spec fn after_packet(to_read: u64, res: Result<(), Error>) -> (u64, Option<Termination>, ReaderAction) {
    match res {
        Err(e) => (to_read, Some(Termination::Failure(e)), ReaderAction::SignalFailure),
        Ok(()) => if to_read <= 1 {
            (0, None, ReaderAction::WaitForRequests)
        } else {
            ((to_read - 1) as u64, None, ReaderAction::ReadPacket)
        },
    }
}

impl ReadTask {
    /// A running reader that waits for the first request.
    pub fn new() -> (r: (Self, ReaderAction))
        ensures
            r.0.to_read == 0,
            r.0.ended is None,
            r.1 == ReaderAction::WaitForRequests,
    {
        (ReadTask { to_read: 0, ended: None }, ReaderAction::WaitForRequests)
    }

    /// Whether the reader has ended, whichever way.
    pub fn is_terminated(&self) -> (r: bool)
        ensures
            r == self.ended is Some,
    {
        self.ended.is_some()
    }

    /// Told how many requests were submitted since the last batch.
    pub fn on_wait(&mut self, submitted: u64) -> (r: ReaderAction)
        requires
            old(self).ended is None,
            old(self).to_read == 0,
        ensures
            (final(self).to_read, final(self).ended, r) == after_wait(submitted),
    {
        if submitted == 0 {
            self.ended = Some(Termination::Clean);
            ReaderAction::Exit
        } else {
            self.to_read = submitted;
            ReaderAction::ReadPacket
        }
    }

    /// Told how reading one packet went.
    pub fn on_packet(&mut self, res: Result<(), Error>) -> (r: ReaderAction)
        requires
            old(self).ended is None,
            old(self).to_read > 0,
        ensures
            (final(self).to_read, final(self).ended, r) == after_packet(old(self).to_read, res),
    {
        match res {
            Err(e) => {
                self.ended = Some(Termination::Failure(e));
                ReaderAction::SignalFailure
            },
            Ok(()) => {
                if self.to_read <= 1 {
                    self.to_read = 0;
                    ReaderAction::WaitForRequests
                } else {
                    self.to_read = self.to_read - 1;
                    ReaderAction::ReadPacket
                }
            },
        }
    }
}

/// Runs a batch of `k` successful reads from `to_read` packets left.
pub open spec fn after_reads(to_read: u64, k: nat) -> (u64, Option<Termination>, ReaderAction)
    decreases k,
{
    if k == 0 {
        (to_read, None, ReaderAction::ReadPacket)
    } else {
        after_packet(after_reads(to_read, (k - 1) as nat).0, Ok(()))
    }
}

/// The reader never reads ahead of what was submitted: after a wait that
/// reports `n > 0` submitted requests, it asks for exactly `n` packets, one
/// after another, and then waits again.
pub proof fn lemma_reads_match_submitted(n: u64, k: nat)
    requires
        n > 0,
        0 < k <= n,
    ensures
        k < n ==> after_reads(n, k) == ((n - k) as u64, None::<Termination>, ReaderAction::ReadPacket),
        k == n ==> after_reads(n, k) == (0u64, None::<Termination>, ReaderAction::WaitForRequests),
    decreases k,
{
    assert(after_reads(n, 0) == (n, None::<Termination>, ReaderAction::ReadPacket));
    if k > 1 {
        lemma_reads_match_submitted(n, (k - 1) as nat);
    }
    assert(after_reads(n, k) == after_packet(after_reads(n, (k - 1) as nat).0, Ok(())));
}

} // verus!
