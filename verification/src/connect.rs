//! The connect sequencer: drives an outbound socket whose connect the
//! operating system has already initiated through "wait until writable", then
//! "query the deferred connect error", to a connected stream or a failure.
//!
//! On this platform family writability is the signal that the connect attempt
//! finished — but a socket may also become writable through unrelated
//! readiness noise, so the deferred-error query after writability is the
//! authoritative disambiguator. The sequencer below makes every decision of
//! that sequence; the shell that owns the socket performs the waits and
//! queries and feeds their results in as events.

use vstd::prelude::*;

verus! {

/// Where a connect attempt stands. `E` is whatever the platform uses for an
/// I/O error; the sequencer never inspects an error, only carries it.
#[derive(Clone, Copy, Debug, PartialEq, Eq)]
pub enum ConnectState<E> {
    /// The raw socket is being registered with the reactor.
    Registering,
    /// Registered; waiting for the reactor to report the socket writable.
    AwaitingWritable,
    /// Writable; the deferred-error query must now decide the outcome,
    /// because writability alone proves nothing.
    CheckingPendingError,
    /// The connection is established; the stream may be handed out.
    Connected,
    /// The attempt failed with this error; the socket is discarded.
    Failed(E),
}

/// What the platform reported for one step of the sequence.
#[derive(Clone, Copy, Debug, PartialEq, Eq)]
pub enum ConnectEvent<E> {
    /// The reactor accepted the socket.
    Registered,
    /// The reactor could not watch the socket: fatal, surfaced at once,
    /// never retried.
    RegisterFailed(E),
    /// The socket became writable.
    Writable,
    /// Waiting for writability itself failed.
    WritableWaitFailed(E),
    /// The deferred-error query answered: `None` when no error is pending,
    /// `Some` with the error the connect attempt ended in.
    ErrorQueried(Option<E>),
    /// The deferred-error query itself failed.
    ErrorQueryFailed(E),
}

/// Which events can answer which state. A terminal state takes no event at
/// all: the sequencer resolves exactly once and is never resumed after that.
pub open spec fn connect_expects<E>(s: ConnectState<E>, e: ConnectEvent<E>) -> bool {
    match s {
        ConnectState::Registering => e is Registered || e is RegisterFailed,
        ConnectState::AwaitingWritable => e is Writable || e is WritableWaitFailed,
        ConnectState::CheckingPendingError => e is ErrorQueried || e is ErrorQueryFailed,
        ConnectState::Connected => false,
        ConnectState::Failed(_) => false,
    }
}

/// The successor state: registration leads to the writability wait,
/// writability to the deferred-error query, and an empty query to the
/// established connection; every reported error ends the attempt with that
/// error, carried unchanged.
pub open spec fn connect_next<E>(s: ConnectState<E>, e: ConnectEvent<E>) -> ConnectState<E> {
    match (s, e) {
        (ConnectState::Registering, ConnectEvent::Registered) => ConnectState::AwaitingWritable,
        (ConnectState::Registering, ConnectEvent::RegisterFailed(err)) => ConnectState::Failed(err),
        (
            ConnectState::AwaitingWritable,
            ConnectEvent::Writable,
        ) => ConnectState::CheckingPendingError,
        (
            ConnectState::AwaitingWritable,
            ConnectEvent::WritableWaitFailed(err),
        ) => ConnectState::Failed(err),
        (
            ConnectState::CheckingPendingError,
            ConnectEvent::ErrorQueried(None),
        ) => ConnectState::Connected,
        (
            ConnectState::CheckingPendingError,
            ConnectEvent::ErrorQueried(Some(err)),
        ) => ConnectState::Failed(err),
        (
            ConnectState::CheckingPendingError,
            ConnectEvent::ErrorQueryFailed(err),
        ) => ConnectState::Failed(err),
        (unchanged, _) => unchanged,
    }
}

/// Advances a connect attempt by one reported event.
pub fn connect_step<E>(s: ConnectState<E>, e: ConnectEvent<E>) -> (r: ConnectState<E>)
    requires
        connect_expects(s, e),
    ensures
        r == connect_next(s, e),
{
    match (s, e) {
        (ConnectState::Registering, ConnectEvent::Registered) => ConnectState::AwaitingWritable,
        (ConnectState::Registering, ConnectEvent::RegisterFailed(err)) => ConnectState::Failed(err),
        (ConnectState::AwaitingWritable, ConnectEvent::Writable) => {
            ConnectState::CheckingPendingError
        },
        (ConnectState::AwaitingWritable, ConnectEvent::WritableWaitFailed(err)) => {
            ConnectState::Failed(err)
        },
        (ConnectState::CheckingPendingError, ConnectEvent::ErrorQueried(None)) => {
            ConnectState::Connected
        },
        (ConnectState::CheckingPendingError, ConnectEvent::ErrorQueried(Some(err))) => {
            ConnectState::Failed(err)
        },
        (ConnectState::CheckingPendingError, ConnectEvent::ErrorQueryFailed(err)) => {
            ConnectState::Failed(err)
        },
        (unchanged, _) => unchanged,
    }
}

/// Law: a connect resolves to `Connected` exactly when, after writability, the
/// deferred-error query came back empty. No other state and event — in
/// particular not writability alone — can establish the connection.
pub proof fn lemma_connected_only_after_clean_query<E>(s: ConnectState<E>, e: ConnectEvent<E>)
    ensures
        connect_next(s, e) is Connected <==> (s is CheckingPendingError && e
            == ConnectEvent::<E>::ErrorQueried(None)) || s is Connected,
{
}

/// Law: a pending error reported after writability becomes the failure of the
/// attempt, with the error carried unchanged; no stream is produced.
pub proof fn lemma_pending_error_is_failure<E>(err: E)
    ensures
        connect_next(
            ConnectState::<E>::CheckingPendingError,
            ConnectEvent::ErrorQueried(Some(err)),
        ) == ConnectState::<E>::Failed(err),
{
}

/// Law: a resolved attempt takes no further event; the sequencer resumes its
/// caller exactly once, with success or with failure.
pub proof fn lemma_connect_resolves_once<E>(s: ConnectState<E>, e: ConnectEvent<E>)
    ensures
        (s is Connected || s is Failed) ==> !connect_expects(s, e),
{
}

/// The state a connect attempt reaches after the reported events, first to
/// last, starting at registration.
pub open spec fn connect_run<E>(events: Seq<ConnectEvent<E>>) -> ConnectState<E>
    decreases events.len(),
{
    if events.len() == 0 {
        ConnectState::Registering
    } else {
        connect_next(connect_run(events.drop_last()), events.last())
    }
}

/// Whether every reported event was one its state at that point could take —
/// what a shell that queries the platform as [`connect_expects`] demands
/// always delivers.
pub open spec fn connect_run_expected<E>(events: Seq<ConnectEvent<E>>) -> bool
    decreases events.len(),
{
    if events.len() == 0 {
        true
    } else {
        &&& connect_run_expected(events.drop_last())
        &&& connect_expects(connect_run(events.drop_last()), events.last())
    }
}

/// Law: every successful connect ends with an empty deferred-error query.
/// Whatever the platform reported along the way, an attempt that stands
/// established was answered `ErrorQueried(None)` last — so re-checking the
/// pending error right after a successful connect finds it empty.
pub proof fn lemma_success_ends_with_clean_query<E>(events: Seq<ConnectEvent<E>>)
    requires
        connect_run_expected(events),
    ensures
        connect_run(events) is Connected ==> events.len() > 0 && events.last()
            == ConnectEvent::<E>::ErrorQueried(None),
{
    if events.len() > 0 && connect_run(events) is Connected {
        lemma_connected_only_after_clean_query(connect_run(events.drop_last()), events.last());
        lemma_connect_resolves_once(connect_run(events.drop_last()), events.last());
    }
}

} // verus!
