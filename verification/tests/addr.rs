use benet::addr::{select_v4, Address, SocketAddress};
use benet::time::{duration_to_millis, millis_to_u32};
use std::time::Duration;

#[test]
fn first_ipv4_address_is_selected() {
    let a = Address { octets: [10, 0, 0, 1], port: 1 };
    let b = Address { octets: [10, 0, 0, 2], port: 2 };
    assert_eq!(select_v4(&[]), None);
    assert_eq!(select_v4(&[SocketAddress::V6]), None);
    assert_eq!(select_v4(&[SocketAddress::V6, SocketAddress::V6]), None);
    assert_eq!(select_v4(&[SocketAddress::V4(a)]), Some(a));
    assert_eq!(select_v4(&[SocketAddress::V4(a), SocketAddress::V4(b)]), Some(a));
    assert_eq!(
        select_v4(&[SocketAddress::V6, SocketAddress::V4(b), SocketAddress::V4(a)]),
        Some(b)
    );
}

#[test]
fn milliseconds_are_narrowed_to_32_bits() {
    assert_eq!(millis_to_u32(0), Some(0));
    assert_eq!(millis_to_u32(1000), Some(1000));
    assert_eq!(millis_to_u32(u32::MAX as u128), Some(u32::MAX));
    assert_eq!(millis_to_u32(u32::MAX as u128 + 1), None);
    assert_eq!(millis_to_u32(u128::MAX), None);
}

#[test]
fn durations_are_taken_in_whole_milliseconds() {
    assert_eq!(duration_to_millis(Duration::from_secs(1)), Some(1000));
    assert_eq!(duration_to_millis(Duration::from_micros(2999)), Some(2));
    assert_eq!(duration_to_millis(Duration::from_millis(0)), Some(0));
    assert_eq!(duration_to_millis(Duration::from_secs(u32::MAX as u64)), None);
}
