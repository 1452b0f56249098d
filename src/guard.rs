//! Observing the death of the background reader from any waiting caller.
use vstd::prelude::*;
use crate::error::Error;
use crate::session::{Extensions, Limits};

verus! {

#[verifier::external_type_specification]
#[verifier::external_body]
pub struct ExCancellationToken(tokio_util::sync::CancellationToken);

/// Relies on `tokio_util::sync::CancellationToken::is_cancelled`: whether the
/// token has been cancelled so far. The answer depends on what other tasks
/// did before the call, so nothing is promised of it.
pub assume_specification[ tokio_util::sync::CancellationToken::is_cancelled ](
    t: &tokio_util::sync::CancellationToken,
) -> bool;

/// State shared by everything that works on one session: the signal that
/// the background reader raises when it ends abnormally, and what was
/// negotiated when the session was set up.
pub struct Auxiliary {
    pub cancel_token: tokio_util::sync::CancellationToken,
    pub extensions: Extensions,
    pub limits: Limits,
}

/// A poll-based watch on the background reader's failure signal.
///
/// A guard is idle until its first poll; from then on it listens to the
/// signal, until it reports the failure.
#[derive(Debug)]
pub struct CancellationGuard {
    pub listening: bool,
}

/// What one poll of a guard reports, given whether the signal is raised.
pub open spec fn guard_outcome(cancelled: bool) -> Result<(), Error> {
    if cancelled {
        Err(Error::BackgroundTaskFailure)
    } else {
        Ok(())
    }
}

/// Whether a run of observations of the signal is one that a set-once
/// signal can give: once raised, it stays raised.
pub open spec fn raised_for_good(obs: Seq<bool>) -> bool {
    forall|i: int, j: int| 0 <= i <= j < obs.len() && obs[i] ==> obs[j]
}

/// What a guard reports, poll after poll, for a run of observations.
pub open spec fn guard_run(obs: Seq<bool>) -> Seq<Result<(), Error>> {
    obs.map_values(|c: bool| guard_outcome(c))
}

/// Once the background reader has failed, every later poll of every guard,
/// including guards first polled after the failure, reports
/// `BackgroundTaskFailure` at that very poll.
pub proof fn lemma_failure_reported_from_then_on(obs: Seq<bool>, k: int)
    requires
        raised_for_good(obs),
        0 <= k < obs.len(),
        obs[k],
    ensures
        forall|j: int| k <= j < obs.len() ==> #[trigger] guard_run(obs)[j] == Err::<(), Error>(Error::BackgroundTaskFailure),
{
    assert forall|j: int| k <= j < obs.len() implies #[trigger] guard_run(obs)[j] == Err::<(), Error>(Error::BackgroundTaskFailure) by {
        assert(obs[j]);
    }
}

impl CancellationGuard {
    /// A guard that has not been polled yet.
    pub fn new() -> (r: Self)
        ensures
            !r.listening,
    {
        CancellationGuard { listening: false }
    }

    /// One poll, given whether the failure signal is raised: a raised
    /// signal is reported at once, whether or not the guard was listening
    /// yet, and leaves the guard idle; otherwise the guard now listens.
    pub fn observe(&mut self, cancelled: bool) -> (r: Result<(), Error>)
        ensures
            r == guard_outcome(cancelled),
            final(self).listening == !cancelled,
    {
        if !self.listening {
            if cancelled {
                return Err(Error::BackgroundTaskFailure);
            }
            self.listening = true;
        }
        if cancelled {
            self.listening = false;
            return Err(Error::BackgroundTaskFailure);
        }
        Ok(())
    }

    /// Return `Ok(())` if the background reader has not failed yet; the
    /// guard then listens to the signal.
    pub fn poll_for_task_failure(&mut self, auxiliary: &Auxiliary) -> (r: Result<(), Error>)
        ensures
            r is Ok <==> final(self).listening,
            r is Err ==> r == Err::<(), Error>(Error::BackgroundTaskFailure),
    {
        let cancelled = auxiliary.cancel_token.is_cancelled();
        self.observe(cancelled)
    }

    /// Settles one wait for a reply raced against the failure signal: a
    /// raised signal wins, else a reply that has come in, else the caller
    /// goes on waiting (`None`).
    pub fn settle<R>(&mut self, reply: Option<Result<R, Error>>, cancelled: bool) -> (r: Option<Result<R, Error>>)
        ensures
            cancelled ==> r == Some(Err::<R, Error>(Error::BackgroundTaskFailure)),
            !cancelled ==> r == reply,
            final(self).listening == !cancelled,
    {
        match self.observe(cancelled) {
            Err(e) => Some(Err(e)),
            Ok(()) => reply,
        }
    }
}

} // verus!
