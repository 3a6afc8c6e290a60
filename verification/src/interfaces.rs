//! The interface event mapper: translates interface change notifications from
//! the watcher's vocabulary into the provider's own, one to one.

use vstd::prelude::*;
use crate::addr::InterfaceAddress;

verus! {

/// One step of a readiness-based operation: either not ready yet (the caller
/// will be woken and must ask again later) or ready with a value.
#[derive(Clone, Copy, Debug, PartialEq, Eq)]
pub enum PollProgress<T> {
    Pending,
    Ready(T),
}

/// An interface notification as the watcher reports it: a local address became
/// available or unavailable.
#[derive(Clone, Copy, Debug, PartialEq, Eq)]
pub enum WatchEvent {
    Up(InterfaceAddress),
    Down(InterfaceAddress),
}

/// The same notification in the provider's vocabulary.
#[derive(Clone, Copy, Debug, PartialEq, Eq)]
pub enum IfEvent {
    Up(InterfaceAddress),
    Down(InterfaceAddress),
}

/// The provider's event for a watcher notification: the same variant carrying
/// the same address.
pub open spec fn provider_event(e: WatchEvent) -> IfEvent {
    match e {
        WatchEvent::Up(a) => IfEvent::Up(a),
        WatchEvent::Down(a) => IfEvent::Down(a),
    }
}

/// Translates one watcher notification: a pure renaming that keeps the variant
/// and leaves the address untouched.
pub fn map_interface_event(e: WatchEvent) -> (r: IfEvent)
    ensures
        r == provider_event(e),
{
    match e {
        WatchEvent::Up(a) => IfEvent::Up(a),
        WatchEvent::Down(a) => IfEvent::Down(a),
    }
}

/// What one poll step of the watcher yields after translation: pending and
/// errors pass through unchanged; a notification is translated.
pub open spec fn interfaces_step_spec<E>(p: PollProgress<Result<WatchEvent, E>>) -> PollProgress<
    Result<IfEvent, E>,
> {
    match p {
        PollProgress::Pending => PollProgress::Pending,
        PollProgress::Ready(Err(e)) => PollProgress::Ready(Err(e)),
        PollProgress::Ready(Ok(ev)) => PollProgress::Ready(Ok(provider_event(ev))),
    }
}

/// One poll step of the interface watcher. Nothing is buffered, filtered,
/// duplicated or reordered: each resolved notification becomes exactly one
/// provider event, and pending or error states pass through unchanged.
pub fn poll_interfaces_step<E>(p: PollProgress<Result<WatchEvent, E>>) -> (r: PollProgress<
    Result<IfEvent, E>,
>)
    ensures
        r == interfaces_step_spec(p),
        p is Pending <==> r is Pending,
{
    match p {
        PollProgress::Pending => PollProgress::Pending,
        PollProgress::Ready(Err(e)) => PollProgress::Ready(Err(e)),
        PollProgress::Ready(Ok(ev)) => PollProgress::Ready(Ok(map_interface_event(ev))),
    }
}

/// Law: the translation is one to one. Distinct notifications give distinct
/// provider events, so no two notifications are merged and none is duplicated;
/// the variant and the carried address pin each event to its notification.
pub proof fn lemma_interface_map_one_to_one(a: WatchEvent, b: WatchEvent)
    ensures
        provider_event(a) == provider_event(b) ==> a == b,
        (a matches WatchEvent::Up(x) ==> provider_event(a) == IfEvent::Up(x)),
        (a matches WatchEvent::Down(x) ==> provider_event(a) == IfEvent::Down(x)),
{
}

} // verus!
