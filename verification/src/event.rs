//! Events: what the native engine reports, and what a host makes of it.

use vstd::prelude::*;
use crate::packet::{Delivery, Flags, Packet, PacketView, RawPacket};
use crate::peer::PeerMut;

verus! {

/// Type code of a native event that reports nothing.
pub const EVENT_TYPE_NONE: u32 = 0;

/// Type code of a native event that reports a connection.
pub const EVENT_TYPE_CONNECT: u32 = 1;

/// Type code of a native event that reports a disconnection.
pub const EVENT_TYPE_DISCONNECT: u32 = 2;

/// Type code of a native event that reports a received packet.
pub const EVENT_TYPE_RECEIVE: u32 = 3;

/// An event as the native engine reports it.
#[derive(Debug)]
pub struct RawEvent {
    /// The type code of the event.
    pub kind: u32,
    /// The slot, in the host's peer table, of the peer that the event is
    /// about.
    pub peer: usize,
    /// The channel on which a packet was received.
    pub channel_id: u8,
    /// The user data that came with a connection or a disconnection.
    pub data: u32,
    /// The packet that was received.
    pub packet: Option<RawPacket>,
}

impl RawEvent {
    /// What a host with `peer_count` peers can make sense of: a known type
    /// code and, unless the event reports nothing, a peer of the table, and
    /// with a received packet the packet itself, whose flags select delivery
    /// options that go together.
    pub open spec fn valid(self, peer_count: nat) -> bool {
        &&& self.kind <= EVENT_TYPE_RECEIVE
        &&& self.kind != EVENT_TYPE_NONE ==> self.peer < peer_count
        &&& self.kind == EVENT_TYPE_RECEIVE ==> self.packet is Some && Delivery::of_bits(
            self.packet->0.flags,
        ).valid()
    }

    /// An event that reports nothing.
    pub fn none() -> (event: RawEvent)
        ensures
            event == (RawEvent {
                kind: EVENT_TYPE_NONE,
                peer: 0,
                channel_id: 0,
                data: 0,
                packet: None,
            }),
            forall|peer_count: nat| event.valid(peer_count),
    {
        RawEvent { kind: EVENT_TYPE_NONE, peer: 0, channel_id: 0, data: 0, packet: None }
    }

    /// Whether a host with `peer_count` peers can make sense of the event.
    pub fn is_valid(&self, peer_count: usize) -> (b: bool)
        ensures
            b == self.valid(peer_count as nat),
    {
        if self.kind > EVENT_TYPE_RECEIVE {
            return false;
        }
        if self.kind != EVENT_TYPE_NONE && self.peer >= peer_count {
            return false;
        }
        if self.kind != EVENT_TYPE_RECEIVE {
            return true;
        }
        match &self.packet {
            Some(raw) => Flags::from_bits(raw.flags).is_ok(),
            None => false,
        }
    }

    /// The variant of the event that a valid native event stands for. A
    /// received packet is tagged with the channel of the event.
    pub open spec fn kind_view(self) -> EventKindView {
        if self.kind == EVENT_TYPE_CONNECT {
            EventKindView::Connect(self.data)
        } else if self.kind == EVENT_TYPE_DISCONNECT {
            EventKindView::Disconnect(self.data)
        } else {
            EventKindView::Receive(
                PacketView {
                    data: self.packet->0.data@,
                    channel_id: self.channel_id,
                    flags: Delivery::of_bits(self.packet->0.flags),
                },
            )
        }
    }
}

/// An event of a host: the peer it is about, and what happened.
#[derive(Debug)]
pub struct Event<'a, T> {
    pub peer: PeerMut<'a, T>,
    pub kind: EventKind,
}

/// Event variant.
#[derive(Debug)]
pub enum EventKind {
    /// A peer connected.
    Connect(u32),
    /// A peer disconnected.
    Disconnect(u32),
    /// A packet was received from a peer.
    Receive(Packet),
}

/// What an [`EventKind`] stands for.
pub enum EventKindView {
    Connect(u32),
    Disconnect(u32),
    Receive(PacketView),
}

impl View for EventKind {
    type V = EventKindView;

    open spec fn view(&self) -> EventKindView {
        match *self {
            EventKind::Connect(data) => EventKindView::Connect(data),
            EventKind::Disconnect(data) => EventKindView::Disconnect(data),
            EventKind::Receive(packet) => EventKindView::Receive(packet@),
        }
    }
}

} // verus!
