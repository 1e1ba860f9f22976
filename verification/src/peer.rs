//! Peers: the slots of a host's peer table, the views handed out over them,
//! and the life cycle of the data attached to each.

use vstd::prelude::*;
use core::time::Duration;
use crate::addr::Address;
use crate::error::Error;
use crate::packet::{Delivery, Packet, PacketView, RawPacket};
use crate::time::{duration_millis, duration_to_millis, millis_to_u32, narrow};

verus! {

/// The scale of [`PeerInfo::packet_loss`].
pub const PACKET_LOSS_SCALE: u32 = 65536;

/// The scale of the throttle's acceleration and deceleration.
pub const PACKET_THROTTLE_SCALE: u32 = 32;

/// The default interval, in milliseconds, over which the throttle measures
/// the round trip time.
pub const PACKET_THROTTLE_INTERVAL_MILLIS: u64 = 5000;

/// The default interval over which the throttle measures the round trip time.
pub fn packet_throttle_interval() -> (interval: Duration)
    ensures
        duration_millis(interval) == PACKET_THROTTLE_INTERVAL_MILLIS,
{
    Duration::from_millis(PACKET_THROTTLE_INTERVAL_MILLIS)
}

/// Where a slot of the peer table stands in the life of a connection.
#[derive(Clone, Copy, Debug, PartialEq, Eq)]
pub enum PeerState {
    /// No connection uses the slot.
    Unused,
    /// A connection is being set up.
    Connecting,
    /// The connection is established.
    Connected,
    /// The connection is being taken down, or was seen to be down.
    Disconnecting,
}

/// What a [`PeerSlot`] stands for.
pub struct SlotView<T> {
    pub state: PeerState,
    pub data: Option<T>,
}

/// A way in which the data attached to a peer is reclaimed.
pub enum Reclaim {
    /// A disconnect notified by the native engine has been dealt with.
    DisconnectEvent,
    /// The peer was disconnected at once.
    DisconnectNow,
    /// The peer was reset.
    Reset,
    /// The host was torn down.
    HostDrop,
}

impl<T> SlotView<T> {
    /// A slot holds data exactly while it is in use.
    pub open spec fn wf(self) -> bool {
        self.data is Some <==> !(self.state is Unused)
    }

    /// The slot that no connection uses.
    pub open spec fn unused() -> Self {
        SlotView { state: PeerState::Unused, data: None }
    }

    /// The slot after a disconnect was requested or notified: a slot in use
    /// is disconnecting and keeps its data, an unused one stays as it is.
    pub open spec fn disconnecting(self) -> Self {
        if self.state is Unused {
            self
        } else {
            SlotView { state: PeerState::Disconnecting, data: self.data }
        }
    }

    /// The slot after its data was reclaimed along `path`.
    pub open spec fn reclaimed(self, path: Reclaim) -> Self {
        Self::unused()
    }

    /// The number of values that are reclaimed when the slot is reclaimed
    /// along each of `paths` in turn.
    pub open spec fn reclaimed_along(self, paths: Seq<Reclaim>) -> nat
        decreases paths.len(),
    {
        if paths.len() == 0 {
            0
        } else {
            (if self.data is Some {
                1nat
            } else {
                0nat
            }) + self.reclaimed(paths.first()).reclaimed_along(paths.drop_first())
        }
    }
}

/// Nothing is reclaimed from a slot without data, along whatever paths.
pub proof fn lemma_nothing_to_reclaim<T>(slot: SlotView<T>, paths: Seq<Reclaim>)
    requires
        slot.data is None,
    ensures
        slot.reclaimed_along(paths) == 0,
    decreases paths.len(),
{
    if paths.len() > 0 {
        lemma_nothing_to_reclaim(slot.reclaimed(paths.first()), paths.drop_first());
    }
}

/// The data attached to a peer is reclaimed exactly once, by the first of the
/// paths taken; every later one finds the slot unused and reclaims nothing.
pub proof fn lemma_reclaimed_exactly_once<T>(slot: SlotView<T>, paths: Seq<Reclaim>)
    requires
        slot.data is Some,
        paths.len() > 0,
    ensures
        slot.reclaimed_along(paths) == 1,
        slot.reclaimed(paths.first()).data is None,
        slot.reclaimed(paths.first()).reclaimed_along(paths.drop_first()) == 0,
{
    lemma_nothing_to_reclaim(slot.reclaimed(paths.first()), paths.drop_first());
}

/// What can happen to a slot of the peer table.
pub enum SlotOp {
    /// The slot is taken into use, or stays in use, in the given state.
    Enter(PeerState),
    /// A disconnect is requested or notified.
    Disconnect,
    /// The attached data is reclaimed along the given path.
    Reclaim(Reclaim),
}

impl SlotOp {
    /// Whether data is attached after the operation, if `attached` says
    /// whether it was before.
    pub open spec fn attached_after(self, attached: bool) -> bool {
        match self {
            SlotOp::Enter(_) => true,
            SlotOp::Disconnect => attached,
            SlotOp::Reclaim(_) => false,
        }
    }

    /// Whether the operation attaches new data: it takes a slot into use
    /// that had none.
    pub open spec fn attaches(self, attached: bool) -> bool {
        self is Enter && !attached
    }

    /// Whether the operation reclaims data: it is a reclamation, and there
    /// is data to reclaim.
    pub open spec fn reclaims(self, attached: bool) -> bool {
        self is Reclaim && attached
    }
}

/// Whether data is attached to a slot after `ops`, in order.
pub open spec fn attached_after(attached: bool, ops: Seq<SlotOp>) -> bool
    decreases ops.len(),
{
    if ops.len() == 0 {
        attached
    } else {
        ops.last().attached_after(attached_after(attached, ops.drop_last()))
    }
}

/// The number of times that `ops` attach new data to a slot.
pub open spec fn attachments(attached: bool, ops: Seq<SlotOp>) -> nat
    decreases ops.len(),
{
    if ops.len() == 0 {
        0
    } else {
        attachments(attached, ops.drop_last()) + if ops.last().attaches(
            attached_after(attached, ops.drop_last()),
        ) {
            1nat
        } else {
            0nat
        }
    }
}

/// The number of times that `ops` reclaim data from a slot.
pub open spec fn reclamations(attached: bool, ops: Seq<SlotOp>) -> nat
    decreases ops.len(),
{
    if ops.len() == 0 {
        0
    } else {
        reclamations(attached, ops.drop_last()) + if ops.last().reclaims(
            attached_after(attached, ops.drop_last()),
        ) {
            1nat
        } else {
            0nat
        }
    }
}

/// What [`SlotOp::attached_after`] says of a disconnect and of a reclamation
/// is what becomes of the data of a slot.
pub proof fn lemma_slot_ops<T>(slot: SlotView<T>, path: Reclaim)
    ensures
        slot.disconnecting().data is Some == SlotOp::Disconnect.attached_after(slot.data is Some),
        slot.reclaimed(path).data is Some == SlotOp::Reclaim(path).attached_after(
            slot.data is Some,
        ),
        SlotOp::Reclaim(path).reclaims(slot.data is Some) == (slot.data is Some && slot.reclaimed(
            path,
        ).data is None),
{
}

/// Over the life of a slot that starts out unused, whatever happens to it
/// and in whatever order, no data is reclaimed twice and none is lost: the
/// reclamations are as many as the attachments, less one while data is
/// attached. Once the slot was reclaimed last, as it is when the host is torn
/// down, every attachment has been reclaimed exactly once.
pub proof fn lemma_attachments_balance(ops: Seq<SlotOp>)
    ensures
        attachments(false, ops) == reclamations(false, ops) + if attached_after(false, ops) {
            1nat
        } else {
            0nat
        },
        ops.len() > 0 && ops.last() is Reclaim ==> attachments(false, ops) == reclamations(
            false,
            ops,
        ),
    decreases ops.len(),
{
    if ops.len() > 0 {
        lemma_attachments_balance(ops.drop_last());
    }
}

/// Where a slot in use stands.
#[derive(Clone, Copy, Debug)]
enum Phase {
    Connecting,
    Connected,
    Disconnecting,
}

impl Phase {
    spec fn state(self) -> PeerState {
        match self {
            Phase::Connecting => PeerState::Connecting,
            Phase::Connected => PeerState::Connected,
            Phase::Disconnecting => PeerState::Disconnecting,
        }
    }
}

/// What a slot in use holds.
#[derive(Debug)]
struct Attached<T> {
    phase: Phase,
    data: T,
}

/// One slot of a host's peer table, with the data attached to the peer.
#[derive(Debug)]
pub struct PeerSlot<T> {
    attached: Option<Attached<T>>,
}

impl<T> View for PeerSlot<T> {
    type V = SlotView<T>;

    closed spec fn view(&self) -> SlotView<T> {
        match self.attached {
            Some(attached) => SlotView { state: attached.phase.state(), data: Some(attached.data) },
            None => SlotView::unused(),
        }
    }
}

impl<T> PeerSlot<T> {
    /// A slot that no connection uses.
    pub fn new() -> (slot: Self)
        ensures
            slot@ == SlotView::<T>::unused(),
    {
        PeerSlot { attached: None }
    }

    /// A slot holds data exactly while it is in use.
    pub proof fn lemma_wf(&self)
        ensures
            self@.wf(),
    {
    }

    /// Where the slot stands.
    pub fn state(&self) -> (state: PeerState)
        ensures
            state == self@.state,
    {
        match &self.attached {
            Some(attached) => match attached.phase {
                Phase::Connecting => PeerState::Connecting,
                Phase::Connected => PeerState::Connected,
                Phase::Disconnecting => PeerState::Disconnecting,
            },
            None => PeerState::Unused,
        }
    }

    /// Whether data is attached, which is the case exactly while the slot is
    /// in use.
    pub fn is_attached(&self) -> (b: bool)
        ensures
            b == self@.data is Some,
            b == !(self@.state is Unused),
    {
        self.attached.is_some()
    }

    /// The attached data, if the slot is in use.
    pub fn data(&self) -> (data: Option<&T>)
        ensures
            data == match self@.data {
                Some(value) => Some(&value),
                None => None,
            },
    {
        match &self.attached {
            Some(attached) => Some(&attached.data),
            None => None,
        }
    }

    /// Notes that a disconnect was requested or notified.
    pub fn disconnecting(&mut self)
        ensures
            final(self)@ == old(self)@.disconnecting(),
    {
        match self.attached.take() {
            Some(attached) => {
                self.attached = Some(Attached { phase: Phase::Disconnecting, data: attached.data });
            },
            None => {},
        }
    }

    /// Reclaims the attached data and leaves the slot unused. The data is
    /// handed out if there was any; a second call finds none.
    pub fn reclaim(&mut self) -> (data: Option<T>)
        ensures
            data == old(self)@.data,
            final(self)@ == SlotView::<T>::unused(),
    {
        match self.attached.take() {
            Some(attached) => Some(attached.data),
            None => None,
        }
    }
}

impl<T: Default> PeerSlot<T> {
    /// Takes the slot into use in `state`. Default-initialized data is
    /// attached if none was attached before.
    pub fn enter(&mut self, state: PeerState)
        requires
            !(state is Unused),
        ensures
            final(self)@.state == state,
            final(self)@.data is Some,
            old(self)@.data is Some ==> final(self)@.data == old(self)@.data,
            old(self)@.data is None ==> call_ensures(T::default, (), final(self)@.data->0),
    {
        let phase = match state {
            PeerState::Connecting => Phase::Connecting,
            PeerState::Connected => Phase::Connected,
            _ => Phase::Disconnecting,
        };
        let data = match self.attached.take() {
            Some(attached) => attached.data,
            None => T::default(),
        };
        self.attached = Some(Attached { phase, data });
    }
}

/// Read-only view of a peer.
#[derive(Debug)]
pub struct Peer<'a, T> {
    slot: &'a PeerSlot<T>,
}

impl<'a, T> Clone for Peer<'a, T> {
    fn clone(&self) -> (peer: Self)
        ensures
            peer == *self,
    {
        proof {
            use_type_invariant(self);
        }
        Peer { slot: self.slot }
    }
}

impl<'a, T> Copy for Peer<'a, T> {

}

impl<'a, T> Peer<'a, T> {
    #[verifier::type_invariant]
    spec fn attached(self) -> bool {
        self.slot@.data is Some
    }

    /// The slot that the view is of.
    pub closed spec fn slot(self) -> SlotView<T> {
        self.slot@
    }

    /// A view of the peer in `slot`, if the slot is in use.
    pub fn new(slot: &'a PeerSlot<T>) -> (peer: Option<Peer<'a, T>>)
        ensures
            peer is Some <==> slot@.data is Some,
            peer is Some ==> peer->0.slot() == slot@,
    {
        if slot.is_attached() {
            Some(Peer { slot })
        } else {
            None
        }
    }

    /// Returns a reference to data associated with this peer.
    ///
    /// The data is created default-initialized the first time a host hands
    /// the peer out.
    pub fn data(&self) -> (data: &T)
        ensures
            self.slot().data == Some(*data),
    {
        proof {
            use_type_invariant(self);
        }
        self.slot.data().unwrap()
    }

    /// Where the peer stands in the life of its connection.
    pub fn state(&self) -> (state: PeerState)
        ensures
            state == self.slot().state,
            !(state is Unused),
    {
        proof {
            use_type_invariant(self);
            self.slot.lemma_wf();
        }
        self.slot.state()
    }
}

/// Mutable view of a peer.
#[derive(Debug)]
pub struct PeerMut<'a, T> {
    /// The slot of the peer.
    pub slot: &'a mut PeerSlot<T>,
    /// Whether the native engine has notified that the peer disconnected. The
    /// attached data of such a peer is reclaimed when the view is released.
    pub disconnecting: bool,
}

impl<'a, T> View for PeerMut<'a, T> {
    type V = SlotView<T>;

    open spec fn view(&self) -> SlotView<T> {
        self.slot@
    }
}

impl<'a, T> PeerMut<'a, T> {
    /// Returns a reference to data associated with this peer.
    ///
    /// The data is created default-initialized the first time a host hands
    /// the peer out. A view that a host hands out has data attached until it
    /// is reclaimed through the view itself.
    pub fn data(&self) -> (data: &T)
        requires
            self@.data is Some,
        ensures
            self@.data == Some(*data),
    {
        self.slot.data().unwrap()
    }

    /// Returns a mutable reference to data associated with this peer.
    pub fn data_mut(&mut self) -> (data: &mut T)
        requires
            old(self)@.data is Some,
        ensures
            old(self)@.data == Some(*data),
            final(self)@ == (SlotView { data: Some(*final(data)), ..old(self)@ }),
            final(self).disconnecting == old(self).disconnecting,
            *final(final(self).slot) == *final(old(self).slot),
    {
        &mut self.slot.attached.as_mut().unwrap().data
    }

    /// Reclaims the data attached to the peer. Nothing happens if none is
    /// attached.
    pub fn drop_data(&mut self)
        ensures
            final(self)@ == old(self)@.reclaimed(Reclaim::DisconnectEvent),
            final(self).disconnecting == old(self).disconnecting,
            *final(final(self).slot) == *final(old(self).slot),
    {
        let _ = self.slot.reclaim();
    }

    /// Ends the use of the view: the data of a peer that was notified as
    /// disconnected is reclaimed, any other peer is left as it is.
    pub fn release(&mut self)
        ensures
            final(self)@ == if old(self).disconnecting {
                old(self)@.reclaimed(Reclaim::DisconnectEvent)
            } else {
                old(self)@
            },
            final(self).disconnecting == old(self).disconnecting,
            *final(final(self).slot) == *final(old(self).slot),
    {
        if self.disconnecting {
            self.drop_data();
        }
    }

    /// Request a disconnection from a peer.
    ///
    /// The attached data stays until the host notifies that the
    /// disconnection is complete.
    pub fn disconnect(self)
        ensures
            final(self.slot)@ == old(self.slot)@.disconnecting(),
    {
        self.slot.disconnecting();
    }

    /// Request a disconnection from a peer, but only after all queued
    /// outgoing packets are sent.
    ///
    /// The attached data stays until the host notifies that the
    /// disconnection is complete.
    pub fn disconnect_later(self)
        ensures
            final(self.slot)@ == old(self.slot)@.disconnecting(),
    {
        self.slot.disconnecting();
    }

    /// Force an immediate disconnection from a peer.
    ///
    /// No disconnect event will follow and the data associated with
    /// this peer is dropped immediately.
    pub fn disconnect_now(self)
        ensures
            final(self.slot)@ == old(self.slot)@.reclaimed(Reclaim::DisconnectNow),
    {
        let _ = self.slot.reclaim();
    }

    /// Forcefully disconnects a peer.
    ///
    /// The foreign host represented by the peer is not notified of the
    /// disconnection. The data associated with this peer is dropped
    /// immediately.
    pub fn reset(self)
        ensures
            final(self.slot)@ == old(self.slot)@.reclaimed(Reclaim::Reset),
    {
        let _ = self.slot.reclaim();
    }

    /// The next packet that is queued for this peer, if any: what the view
    /// makes of what the native engine handed over.
    ///
    /// `received` is the packet that the native engine took from the queue,
    /// if it had one, and `channel_id` the channel it said the packet came
    /// on, with which the packet is tagged.
    pub fn receive(&mut self, received: Option<RawPacket>, channel_id: u8) -> (r: Option<Packet>)
        requires
            received matches Some(raw) ==> Delivery::of_bits(raw.flags).valid(),
        ensures
            r is Some <==> received is Some,
            r matches Some(packet) ==> packet@ == (PacketView {
                data: received->0.data@,
                channel_id,
                flags: Delivery::of_bits(received->0.flags),
            }),
            final(self)@ == old(self)@,
            final(self).disconnecting == old(self).disconnecting,
            *final(final(self).slot) == *final(old(self).slot),
    {
        match received {
            Some(raw) => Some(Packet::from_raw(raw, channel_id).unwrap()),
            None => None,
        }
    }

    /// The result of queueing a packet to be sent, from the status that the
    /// native engine returned: a rejected packet is an error without further
    /// detail.
    pub fn send(&mut self, status: i32) -> (r: Result<(), Error>)
        ensures
            r is Err <==> status < 0,
            r is Err ==> r->Err_0 is Unknown,
            final(self)@ == old(self)@,
            final(self).disconnecting == old(self).disconnecting,
            *final(final(self).slot) == *final(old(self).slot),
    {
        Error::from_status(status)
    }

    /// Configures throttle parameter for a peer.
    ///
    /// The throttle is the probability that an unreliable packet is sent
    /// rather than dropped. The round trip time is measured over `interval`;
    /// `acceleration` and `deceleration` say, as ratios to
    /// [`PACKET_THROTTLE_SCALE`], by how much the probability rises or falls
    /// when a measured round trip time is well below or above the mean.
    ///
    /// Returns the parameters as the native engine takes them, or `None` if
    /// the interval is longer than 32 bits of milliseconds can say.
    pub fn configure_throttle(
        &mut self,
        interval: Duration,
        acceleration: u32,
        deceleration: u32,
    ) -> (r: Option<Throttle>)
        ensures
            r == match narrow(duration_millis(interval)) {
                Some(millis) => Some(Throttle { interval: millis, acceleration, deceleration }),
                None => None,
            },
            final(self)@ == old(self)@,
            final(self).disconnecting == old(self).disconnecting,
            *final(final(self).slot) == *final(old(self).slot),
    {
        match duration_to_millis(interval) {
            Some(millis) => Some(Throttle { interval: millis, acceleration, deceleration }),
            None => None,
        }
    }

    /// Sets the timeout parameters for a peer.
    ///
    /// Each span is forwarded in whole milliseconds. An absent span is
    /// forwarded as zero, which, like a span of no whole millisecond, stands
    /// for the native engine's default.
    ///
    /// Returns the parameters as the native engine takes them, or `None` if
    /// one of the spans is longer than 32 bits of milliseconds can say.
    pub fn set_timeout(
        &mut self,
        limit: Option<Duration>,
        min: Option<Duration>,
        max: Option<Duration>,
    ) -> (r: Option<Timeout>)
        ensures
            r == match (
                timeout_of(duration_option_millis(limit)),
                timeout_of(duration_option_millis(min)),
                timeout_of(duration_option_millis(max)),
            ) {
                (Some(limit), Some(minimum), Some(maximum)) => Some(
                    Timeout { limit, minimum, maximum },
                ),
                _ => None,
            },
            final(self)@ == old(self)@,
            final(self).disconnecting == old(self).disconnecting,
            *final(final(self).slot) == *final(old(self).slot),
    {
        let limit = match timeout_millis(option_millis(limit)) {
            Some(limit) => limit,
            None => {
                return None;
            },
        };
        let minimum = match timeout_millis(option_millis(min)) {
            Some(minimum) => minimum,
            None => {
                return None;
            },
        };
        let maximum = match timeout_millis(option_millis(max)) {
            Some(maximum) => maximum,
            None => {
                return None;
            },
        };
        Some(Timeout { limit, minimum, maximum })
    }
}

/// Throttle parameters as the native engine takes them.
#[derive(Clone, Copy, Debug, PartialEq, Eq)]
pub struct Throttle {
    /// The interval of measurement, in milliseconds.
    pub interval: u32,
    /// The rise of the probability, as a ratio to [`PACKET_THROTTLE_SCALE`].
    pub acceleration: u32,
    /// The fall of the probability, as a ratio to [`PACKET_THROTTLE_SCALE`].
    pub deceleration: u32,
}

/// Timeout parameters as the native engine takes them, where zero stands for
/// the engine's default.
#[derive(Clone, Copy, Debug, PartialEq, Eq)]
pub struct Timeout {
    pub limit: u32,
    pub minimum: u32,
    pub maximum: u32,
}

/// The timeout parameter for a span of so many milliseconds: the number of
/// milliseconds itself, if it fits in 32 bits, and zero, which stands for the
/// engine's default, for an absent span.
pub open spec fn timeout_of(millis: Option<u128>) -> Option<u32> {
    match millis {
        Some(millis) => narrow(millis),
        None => Some(0),
    }
}

/// The timeout parameter that the native engine is given for a span of so
/// many milliseconds, or `None` if the span is too long for it: see
/// [`timeout_of`].
pub fn timeout_millis(millis: Option<u128>) -> (r: Option<u32>)
    ensures
        r == timeout_of(millis),
{
    match millis {
        Some(millis) => millis_to_u32(millis),
        None => Some(0),
    }
}

/// The milliseconds of a span of time that may be absent.
pub open spec fn duration_option_millis(duration: Option<Duration>) -> Option<u128> {
    match duration {
        Some(duration) => Some(duration_millis(duration)),
        None => None,
    }
}

fn option_millis(duration: Option<Duration>) -> (r: Option<u128>)
    ensures
        r == duration_option_millis(duration),
{
    match duration {
        Some(duration) => Some(duration.as_millis()),
        None => None,
    }
}

/// What a [`PeerInfo`] stands for.
pub struct PeerInfoView {
    pub addr: Address,
    pub incoming_bandwidth: u32,
    pub outgoing_bandwidth: u32,
    pub packet_loss: u32,
    pub round_trip_time: u32,
}

/// Basic information about a peer, as it was when the snapshot was taken.
#[derive(Clone, Copy, Debug)]
pub struct PeerInfo {
    addr: Address,
    incoming_bandwidth: u32,
    outgoing_bandwidth: u32,
    packet_loss: u32,
    round_trip_time: u32,
}

impl View for PeerInfo {
    type V = PeerInfoView;

    closed spec fn view(&self) -> PeerInfoView {
        PeerInfoView {
            addr: self.addr,
            incoming_bandwidth: self.incoming_bandwidth,
            outgoing_bandwidth: self.outgoing_bandwidth,
            packet_loss: self.packet_loss,
            round_trip_time: self.round_trip_time,
        }
    }
}

impl PeerInfo {
    /// A snapshot of what the native peer record holds. The round trip time
    /// is in milliseconds.
    pub fn new(
        addr: Address,
        incoming_bandwidth: u32,
        outgoing_bandwidth: u32,
        packet_loss: u32,
        round_trip_time: u32,
    ) -> (info: PeerInfo)
        ensures
            info@ == (PeerInfoView {
                addr,
                incoming_bandwidth,
                outgoing_bandwidth,
                packet_loss,
                round_trip_time,
            }),
    {
        PeerInfo { addr, incoming_bandwidth, outgoing_bandwidth, packet_loss, round_trip_time }
    }

    /// Remote address of the peer.
    pub fn addr(&self) -> (addr: Address)
        ensures
            addr == self@.addr,
    {
        self.addr
    }

    /// Incoming bandwidth in bytes/second.
    pub fn incoming_bandwidth(&self) -> (bandwidth: u32)
        ensures
            bandwidth == self@.incoming_bandwidth,
    {
        self.incoming_bandwidth
    }

    /// Outgoing bandwidth in bytes/second.
    pub fn outgoing_bandwidth(&self) -> (bandwidth: u32)
        ensures
            bandwidth == self@.outgoing_bandwidth,
    {
        self.outgoing_bandwidth
    }

    /// Mean packet loss of reliable packets as a ratio with respect to the
    /// constant [`PACKET_LOSS_SCALE`].
    pub fn packet_loss(&self) -> (loss: u32)
        ensures
            loss == self@.packet_loss,
    {
        self.packet_loss
    }

    /// Mean round trip time (RTT) between sending a reliable packet and
    /// receiving its acknowledgement.
    pub fn round_trip_time(&self) -> (time: Duration)
        ensures
            duration_millis(time) == self@.round_trip_time,
    {
        Duration::from_millis(self.round_trip_time as u64)
    }
}

} // verus!
