//! The accept loop: one poll step of a listening socket, tolerating spurious
//! readiness, that yields a fully described inbound connection exactly once
//! per successful accept.
//!
//! One poll step runs rounds: poll readability, then — when readable — try a
//! non-blocking accept. A round either resolves the step (pending, error, or
//! a connection) or found the readiness signal spurious and retries, staying
//! inside the same step. The decisions of every round are made here; the
//! shell that owns the listener performs the polls and accept attempts.

use vstd::prelude::*;
use crate::addr::SocketAddress;

verus! {

/// What the platform reported for one round of the accept loop.
#[derive(Clone, Copy, Debug, PartialEq, Eq)]
pub enum AcceptProbe<E> {
    /// The readability poll reported "not ready"; the caller is woken later.
    NotReady,
    /// The readability poll itself reported an error.
    ReadinessFailed(E),
    /// Readable, but the accept attempt found no connection: the readiness
    /// signal was spurious (another consumer may have drained the queue).
    NoConnection,
    /// The accept attempt resolved to an error.
    AcceptFailed(E),
    /// The accept attempt yielded a connection from this remote address.
    Accepted(SocketAddress),
}

/// What one round decides.
#[derive(Clone, Copy, Debug, PartialEq, Eq)]
pub enum AcceptStep<E> {
    /// Return "pending"; the reactor will re-invoke the caller on the next
    /// readiness change.
    Suspend,
    /// Surface this error for this poll step.
    Fail(E),
    /// Poll readability again within the same step; nothing observable
    /// happened. Spurious readiness is benign, never an error.
    Retry,
    /// A connection from this remote address was obtained; leave the loop.
    Produce(SocketAddress),
}

/// The observable resolution of a whole poll step.
#[derive(Clone, Copy, Debug, PartialEq, Eq)]
pub enum AcceptOutcome<E> {
    /// The step returned "pending".
    Suspend,
    /// The step surfaced this error.
    Fail(E),
    /// The step obtained a connection from this remote address.
    Produce(SocketAddress),
}

/// The decision for one round: only a spurious-readiness round retries; every
/// other report resolves the step, errors carried unchanged.
pub open spec fn accept_decision<E>(p: AcceptProbe<E>) -> AcceptStep<E> {
    match p {
        AcceptProbe::NotReady => AcceptStep::Suspend,
        AcceptProbe::ReadinessFailed(e) => AcceptStep::Fail(e),
        AcceptProbe::NoConnection => AcceptStep::Retry,
        AcceptProbe::AcceptFailed(e) => AcceptStep::Fail(e),
        AcceptProbe::Accepted(a) => AcceptStep::Produce(a),
    }
}

/// Decides one round of the accept loop.
pub fn accept_decide<E>(p: AcceptProbe<E>) -> (r: AcceptStep<E>)
    ensures
        r == accept_decision(p),
{
    match p {
        AcceptProbe::NotReady => AcceptStep::Suspend,
        AcceptProbe::ReadinessFailed(e) => AcceptStep::Fail(e),
        AcceptProbe::NoConnection => AcceptStep::Retry,
        AcceptProbe::AcceptFailed(e) => AcceptStep::Fail(e),
        AcceptProbe::Accepted(a) => AcceptStep::Produce(a),
    }
}

/// What one round lets the caller observe: nothing for a retry, the
/// resolution otherwise.
pub open spec fn observed<E>(p: AcceptProbe<E>) -> Option<AcceptOutcome<E>> {
    match accept_decision(p) {
        AcceptStep::Suspend => Some(AcceptOutcome::Suspend),
        AcceptStep::Fail(e) => Some(AcceptOutcome::Fail(e)),
        AcceptStep::Retry => None,
        AcceptStep::Produce(a) => Some(AcceptOutcome::Produce(a)),
    }
}

/// The resolution of a poll step whose rounds reported `probes`, in order:
/// the first round that resolves decides everything; `None` means every round
/// retried and the loop is still polling readability.
pub open spec fn loop_outcome<E>(probes: Seq<AcceptProbe<E>>) -> Option<AcceptOutcome<E>>
    decreases probes.len(),
{
    if probes.len() == 0 {
        None
    } else {
        match observed(probes[0]) {
            Some(o) => Some(o),
            None => loop_outcome(probes.subrange(1, probes.len() as int)),
        }
    }
}

/// Runs one poll step over the platform reports `probes`, first to last, and
/// returns its resolution — or `None` when every report was a spurious
/// readiness and the step would still be polling.
#[verifier::loop_isolation(false)]
pub fn run_accept_probes<E>(probes: Vec<AcceptProbe<E>>) -> (r: Option<AcceptOutcome<E>>)
    ensures
        r == loop_outcome(probes@),
{
    let ghost all: Seq<AcceptProbe<E>> = probes@;
    let mut rest = probes;
    loop
        invariant
            loop_outcome(all) == loop_outcome(rest@),
        decreases rest.len(),
    {
        if rest.len() == 0 {
            return None;
        }
        let ghost before: Seq<AcceptProbe<E>> = rest@;
        let p = rest.remove(0);
        proof {
            assert(rest@ =~= before.subrange(1, before.len() as int));
        }
        match accept_decide(p) {
            AcceptStep::Suspend => {
                return Some(AcceptOutcome::Suspend);
            },
            AcceptStep::Fail(e) => {
                return Some(AcceptOutcome::Fail(e));
            },
            AcceptStep::Produce(a) => {
                return Some(AcceptOutcome::Produce(a));
            },
            AcceptStep::Retry => {},
        }
    }
}

/// Law: spurious readiness is invisible. When the first `k` rounds of a poll
/// step all found no connection and round `k` resolves, the step resolves
/// exactly as round `k` alone would have: the spurious rounds surface neither
/// an error nor a pending result, and exactly one resolution is produced.
pub proof fn lemma_spurious_rounds_invisible<E>(probes: Seq<AcceptProbe<E>>, k: int)
    requires
        0 <= k < probes.len(),
        forall|i: int| 0 <= i < k ==> accept_decision(probes[i]) is Retry,
        !(accept_decision(probes[k]) is Retry),
    ensures
        loop_outcome(probes) == observed(probes[k]),
    decreases k,
{
    if k > 0 {
        let rest = probes.subrange(1, probes.len() as int);
        assert(forall|i: int| 0 <= i < k - 1 ==> accept_decision(rest[i]) is Retry);
        lemma_spurious_rounds_invisible(rest, k - 1);
    }
}

/// A fully described inbound connection, as one successful accept hands it
/// out: the established stream together with the local address the socket
/// reports and the remote address the accept reported. `S` is the platform's
/// stream handle; the provider only carries it.
#[derive(Debug, PartialEq, Eq)]
pub struct Incoming<S> {
    /// The accepted stream; its connection is fully established.
    pub stream: S,
    /// The local address of the accepted socket, as the OS reports it.
    pub local_addr: SocketAddress,
    /// The peer address, as the accept reported it.
    pub remote_addr: SocketAddress,
}

/// Completes a successful accept. `local` is what looking up the accepted
/// socket's own address returned: on success the stream and both addresses
/// are handed out unchanged; a failed lookup is fatal for this accept and
/// becomes its error, even though the OS had accepted the connection.
pub fn resolve_incoming<S, E>(
    stream: S,
    local: Result<SocketAddress, E>,
    remote: SocketAddress,
) -> (r: Result<Incoming<S>, E>)
    ensures
        (local matches Ok(a) ==> r matches Ok(inc) && inc.stream == stream && inc.local_addr == a
            && inc.remote_addr == remote),
        (local matches Err(e) ==> r == Result::<Incoming<S>, E>::Err(e)),
{
    match local {
        Ok(a) => Ok(Incoming { stream, local_addr: a, remote_addr: remote }),
        Err(e) => Err(e),
    }
}

} // verus!
