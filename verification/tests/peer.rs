use benet::addr::Address;
use benet::peer::{
    packet_throttle_interval, timeout_millis, Peer, PeerInfo, PeerMut, PeerSlot, PeerState,
    Throttle, Timeout, PACKET_LOSS_SCALE, PACKET_THROTTLE_INTERVAL_MILLIS, PACKET_THROTTLE_SCALE,
};
use benet::packet::RawPacket;
use benet::Error;
use std::rc::Rc;
use std::time::Duration;

#[test]
fn peer_constants() {
    assert_eq!(PACKET_LOSS_SCALE, 1 << 16);
    assert_eq!(PACKET_THROTTLE_SCALE, 32);
    assert_eq!(PACKET_THROTTLE_INTERVAL_MILLIS, 5000);
    assert_eq!(packet_throttle_interval(), Duration::from_millis(5000));
}

#[test]
fn new_slot_is_unused() {
    let slot: PeerSlot<u32> = PeerSlot::new();
    assert_eq!(slot.state(), PeerState::Unused);
    assert!(!slot.is_attached());
    assert!(slot.data().is_none());
    assert!(Peer::new(&slot).is_none());
}

#[test]
fn entering_attaches_default_data_once() {
    let mut slot: PeerSlot<u32> = PeerSlot::new();
    slot.enter(PeerState::Connecting);
    assert_eq!(slot.state(), PeerState::Connecting);
    assert_eq!(slot.data(), Some(&0));
    {
        let mut peer = PeerMut { slot: &mut slot, disconnecting: false };
        *peer.data_mut() = 41;
        *peer.data_mut() += 1;
        assert_eq!(*peer.data(), 42);
    }
    slot.enter(PeerState::Connected);
    assert_eq!(slot.state(), PeerState::Connected);
    assert_eq!(slot.data(), Some(&42));
}

#[test]
fn read_view_shows_data_and_state() {
    let mut slot: PeerSlot<String> = PeerSlot::new();
    slot.enter(PeerState::Connected);
    let peer = match Peer::new(&slot) {
        Some(peer) => peer,
        None => panic!("no view"),
    };
    let copy = peer;
    assert_eq!(peer.data(), "");
    assert_eq!(copy.state(), PeerState::Connected);
    assert_eq!(peer.clone().state(), PeerState::Connected);
}

#[test]
fn requested_disconnect_keeps_the_data() {
    let mut slot: PeerSlot<u32> = PeerSlot::new();
    slot.enter(PeerState::Connected);
    PeerMut { slot: &mut slot, disconnecting: false }.disconnect();
    assert_eq!(slot.state(), PeerState::Disconnecting);
    assert!(slot.is_attached());

    let mut later: PeerSlot<u32> = PeerSlot::new();
    later.enter(PeerState::Connecting);
    PeerMut { slot: &mut later, disconnecting: false }.disconnect_later();
    assert_eq!(later.state(), PeerState::Disconnecting);
    assert_eq!(later.data(), Some(&0));
}

#[test]
fn disconnect_of_an_unused_slot_changes_nothing() {
    let mut slot: PeerSlot<u32> = PeerSlot::new();
    PeerMut { slot: &mut slot, disconnecting: false }.disconnect();
    assert_eq!(slot.state(), PeerState::Unused);
    assert!(!slot.is_attached());
}

#[test]
fn disconnect_now_reclaims_at_once() {
    let token = Rc::new(());
    let mut slot: PeerSlot<Option<Rc<()>>> = PeerSlot::new();
    slot.enter(PeerState::Connected);
    {
        let mut peer = PeerMut { slot: &mut slot, disconnecting: false };
        *peer.data_mut() = Some(token.clone());
    }
    assert_eq!(Rc::strong_count(&token), 2);
    PeerMut { slot: &mut slot, disconnecting: false }.disconnect_now();
    assert_eq!(Rc::strong_count(&token), 1);
    assert_eq!(slot.state(), PeerState::Unused);
    assert!(!slot.is_attached());
}

#[test]
fn reset_reclaims_at_once() {
    let token = Rc::new(());
    let mut slot: PeerSlot<Option<Rc<()>>> = PeerSlot::new();
    slot.enter(PeerState::Connecting);
    {
        let mut peer = PeerMut { slot: &mut slot, disconnecting: false };
        *peer.data_mut() = Some(token.clone());
    }
    PeerMut { slot: &mut slot, disconnecting: false }.reset();
    assert_eq!(Rc::strong_count(&token), 1);
    assert_eq!(slot.state(), PeerState::Unused);
}

#[test]
fn release_reclaims_only_a_disconnected_peer() {
    let token = Rc::new(());
    let mut slot: PeerSlot<Option<Rc<()>>> = PeerSlot::new();
    slot.enter(PeerState::Connected);
    {
        let mut peer = PeerMut { slot: &mut slot, disconnecting: false };
        *peer.data_mut() = Some(token.clone());
        peer.release();
    }
    assert_eq!(Rc::strong_count(&token), 2);
    assert_eq!(slot.state(), PeerState::Connected);
    {
        let mut peer = PeerMut { slot: &mut slot, disconnecting: true };
        peer.release();
    }
    assert_eq!(Rc::strong_count(&token), 1);
    assert_eq!(slot.state(), PeerState::Unused);
}

#[test]
fn data_is_reclaimed_exactly_once() {
    let token = Rc::new(());
    let mut slot: PeerSlot<Option<Rc<()>>> = PeerSlot::new();
    slot.enter(PeerState::Connected);
    {
        let mut peer = PeerMut { slot: &mut slot, disconnecting: false };
        *peer.data_mut() = Some(token.clone());
    }
    assert!(slot.reclaim().is_some());
    assert_eq!(Rc::strong_count(&token), 1);
    assert!(slot.reclaim().is_none());
    {
        let mut peer = PeerMut { slot: &mut slot, disconnecting: true };
        peer.drop_data();
        peer.release();
    }
    PeerMut { slot: &mut slot, disconnecting: false }.disconnect_now();
    PeerMut { slot: &mut slot, disconnecting: false }.reset();
    assert_eq!(Rc::strong_count(&token), 1);
    assert_eq!(slot.state(), PeerState::Unused);
}

#[test]
fn send_maps_the_status() {
    let mut slot: PeerSlot<u32> = PeerSlot::new();
    slot.enter(PeerState::Connected);
    let mut peer = PeerMut { slot: &mut slot, disconnecting: false };
    assert!(peer.send(0).is_ok());
    assert!(matches!(peer.send(-1), Err(Error::Unknown)));
    assert_eq!(*peer.data(), 0);
}

#[test]
fn throttle_takes_the_interval_in_milliseconds() {
    let mut slot: PeerSlot<u32> = PeerSlot::new();
    slot.enter(PeerState::Connected);
    let mut peer = PeerMut { slot: &mut slot, disconnecting: false };
    assert_eq!(
        peer.configure_throttle(Duration::from_millis(5000), 2, 3),
        Some(Throttle { interval: 5000, acceleration: 2, deceleration: 3 })
    );
    assert_eq!(
        peer.configure_throttle(Duration::from_micros(1999), 0, 0),
        Some(Throttle { interval: 1, acceleration: 0, deceleration: 0 })
    );
    assert_eq!(
        peer.configure_throttle(Duration::from_millis(u32::MAX as u64), 1, 1),
        Some(Throttle { interval: u32::MAX, acceleration: 1, deceleration: 1 })
    );
    assert_eq!(peer.configure_throttle(Duration::from_millis(u32::MAX as u64 + 1), 1, 1), None);
}

#[test]
fn timeout_is_in_whole_milliseconds() {
    assert_eq!(timeout_millis(None), Some(0));
    assert_eq!(timeout_millis(Some(0)), Some(0));
    assert_eq!(timeout_millis(Some(1)), Some(1));
    assert_eq!(timeout_millis(Some(30_000)), Some(30_000));
    assert_eq!(timeout_millis(Some(u32::MAX as u128)), Some(u32::MAX));
    assert_eq!(timeout_millis(Some(u32::MAX as u128 + 1)), None);
    assert_eq!(timeout_millis(Some(u128::MAX)), None);
}

#[test]
fn set_timeout_forwards_each_parameter() {
    let mut slot: PeerSlot<u32> = PeerSlot::new();
    slot.enter(PeerState::Connected);
    let mut peer = PeerMut { slot: &mut slot, disconnecting: false };
    assert_eq!(
        peer.set_timeout(None, None, None),
        Some(Timeout { limit: 0, minimum: 0, maximum: 0 })
    );
    assert_eq!(
        peer.set_timeout(Some(Duration::from_millis(5000)), None, Some(Duration::ZERO)),
        Some(Timeout { limit: 5000, minimum: 0, maximum: 0 })
    );
    assert_eq!(
        peer.set_timeout(
            Some(Duration::from_millis(32)),
            Some(Duration::from_micros(10)),
            Some(Duration::from_secs(30))
        ),
        Some(Timeout { limit: 32, minimum: 0, maximum: 30_000 })
    );
    assert_eq!(
        peer.set_timeout(None, Some(Duration::from_micros(1999)), None),
        Some(Timeout { limit: 0, minimum: 1, maximum: 0 })
    );
    assert_eq!(
        peer.set_timeout(
            Some(Duration::from_millis(u32::MAX as u64)),
            Some(Duration::from_millis(1)),
            Some(Duration::from_millis(2))
        ),
        Some(Timeout { limit: u32::MAX, minimum: 1, maximum: 2 })
    );
}

#[test]
fn set_timeout_refuses_a_span_that_does_not_fit() {
    let mut slot: PeerSlot<u32> = PeerSlot::new();
    slot.enter(PeerState::Connected);
    let mut peer = PeerMut { slot: &mut slot, disconnecting: false };
    let long = Some(Duration::from_millis(u32::MAX as u64 + 1));
    let short = Some(Duration::from_millis(5));
    assert_eq!(peer.set_timeout(long, short, short), None);
    assert_eq!(peer.set_timeout(short, long, short), None);
    assert_eq!(peer.set_timeout(short, short, long), None);
    assert_eq!(peer.set_timeout(None, None, long), None);
}

#[test]
fn peer_info_is_a_snapshot() {
    let addr = Address { octets: [127, 0, 0, 1], port: 8080 };
    let info = PeerInfo::new(addr, 1000, 2000, 655, 42);
    assert_eq!(info.addr(), addr);
    assert_eq!(info.addr().octets, [127, 0, 0, 1]);
    assert_eq!(info.addr().port, 8080);
    assert_eq!(info.incoming_bandwidth(), 1000);
    assert_eq!(info.outgoing_bandwidth(), 2000);
    assert_eq!(info.packet_loss(), 655);
    assert_eq!(info.round_trip_time(), Duration::from_millis(42));
    let copy = info;
    assert_eq!(copy.round_trip_time().as_millis(), 42);
}

#[test]
fn received_packet_is_tagged_with_its_channel() {
    let mut slot: PeerSlot<u32> = PeerSlot::new();
    slot.enter(PeerState::Connected);
    let mut peer = PeerMut { slot: &mut slot, disconnecting: false };
    assert!(peer.receive(None, 3).is_none());
    let raw = RawPacket { data: b"ping".to_vec(), flags: 8 | 256 };
    match peer.receive(Some(raw), 3) {
        Some(packet) => {
            assert_eq!(packet.data(), b"ping");
            assert_eq!(packet.channel_id(), 3);
            assert_eq!(packet.flags().bits(), 8);
        }
        None => panic!("no packet"),
    }
}
