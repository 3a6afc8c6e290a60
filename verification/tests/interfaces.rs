//! The interface event mapper and the address models.

use tcp_provider::addr::{ipv4, InterfaceAddress, IpAddress};
use tcp_provider::interfaces::{
    map_interface_event, poll_interfaces_step, IfEvent, PollProgress, WatchEvent,
};

fn some_net() -> InterfaceAddress {
    InterfaceAddress { ip: ipv4(192, 168, 1, 0), prefix_len: 24 }
}

fn some_v6_net() -> InterfaceAddress {
    InterfaceAddress { ip: IpAddress { is_v6: true, bits: 0xfe80u128 << 112 }, prefix_len: 64 }
}

#[test]
fn up_maps_to_up_with_address_unchanged() {
    let r = map_interface_event(WatchEvent::Up(some_net()));
    assert_eq!(r, IfEvent::Up(some_net()));
}

#[test]
fn down_maps_to_down_with_address_unchanged() {
    let r = map_interface_event(WatchEvent::Down(some_v6_net()));
    assert_eq!(r, IfEvent::Down(some_v6_net()));
}

#[test]
fn poll_step_passes_pending_through() {
    let r = poll_interfaces_step::<i32>(PollProgress::Pending);
    assert_eq!(r, PollProgress::Pending);
}

#[test]
fn poll_step_passes_errors_through() {
    let r = poll_interfaces_step::<i32>(PollProgress::Ready(Err(3)));
    assert_eq!(r, PollProgress::Ready(Err(3)));
}

#[test]
fn poll_step_translates_resolved_event() {
    let r = poll_interfaces_step::<i32>(PollProgress::Ready(Ok(WatchEvent::Up(some_net()))));
    assert_eq!(r, PollProgress::Ready(Ok(IfEvent::Up(some_net()))));
}

#[test]
fn ipv4_builds_the_exact_numeric_address() {
    let a = ipv4(127, 0, 0, 1);
    assert!(!a.is_v6);
    assert_eq!(a.bits, 0x7f00_0001);
    let b = ipv4(255, 255, 255, 255);
    assert_eq!(b.bits, 0xffff_ffff);
}
