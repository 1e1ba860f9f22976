//! Packets and their delivery options.

use vstd::prelude::*;
use crate::error::Error;

verus! {

/// Bit of a reliable packet.
pub const FLAG_RELIABLE: u32 = 1;

/// Bit of an unsequenced packet.
pub const FLAG_UNSEQUENCED: u32 = 2;

/// Bit that tells the native engine not to copy the packet's bytes.
pub const FLAG_NO_ALLOCATE: u32 = 4;

/// Bit of a packet that is fragmented with unreliable sends.
pub const FLAG_UNRELIABLE_FRAGMENT: u32 = 8;

/// Whether all the bits of `flag` are set in `bits`.
pub open spec fn is_set(bits: u32, flag: u32) -> bool {
    bits & flag == flag
}

/// The delivery options that a [`Flags`] value stands for.
pub struct Delivery {
    pub reliable: bool,
    pub unsequenced: bool,
    pub unreliable_fragment: bool,
}

impl Delivery {
    /// The options that `bits` select.
    pub open spec fn of_bits(bits: u32) -> Delivery {
        Delivery {
            reliable: is_set(bits, FLAG_RELIABLE),
            unsequenced: is_set(bits, FLAG_UNSEQUENCED),
            unreliable_fragment: is_set(bits, FLAG_UNRELIABLE_FRAGMENT),
        }
    }

    /// Reliable and unsequenced delivery exclude each other.
    pub open spec fn valid(self) -> bool {
        !(self.reliable && self.unsequenced)
    }

    /// The bits that stand for these options.
    pub open spec fn bits(self) -> int {
        (if self.reliable {
            1int
        } else {
            0int
        }) + (if self.unsequenced {
            2int
        } else {
            0int
        }) + (if self.unreliable_fragment {
            8int
        } else {
            0int
        })
    }
}

/// Packet delivery options.
#[derive(Clone, Copy, Debug)]
pub struct Flags {
    flags: u32,
}

impl View for Flags {
    type V = Delivery;

    closed spec fn view(&self) -> Delivery {
        Delivery::of_bits(self.flags)
    }
}

impl Default for Flags {
    /// No option is set.
    fn default() -> (flags: Flags)
        ensures
            flags@ == (Delivery {
                reliable: false,
                unsequenced: false,
                unreliable_fragment: false,
            }),
    {
        assert(0u32 & 1 != 1 && 0u32 & 2 != 2 && 0u32 & 8 != 8 && 0u32 & !11u32 == 0)
            by (bit_vector);
        Flags { flags: 0 }
    }
}

impl Flags {
    #[verifier::type_invariant]
    spec fn well_formed(self) -> bool {
        &&& self.flags & !11u32 == 0
        &&& !(is_set(self.flags, FLAG_RELIABLE) && is_set(self.flags, FLAG_UNSEQUENCED))
    }

    /// The options that the bits of a native packet record select.
    ///
    /// Bits that are no delivery option are dropped. Reliable and unsequenced
    /// delivery together are refused with [`Error::InvalidArgument`].
    pub fn from_bits(bits: u32) -> (r: Result<Flags, Error>)
        ensures
            r is Ok <==> Delivery::of_bits(bits).valid(),
            r is Ok ==> r->Ok_0@ == Delivery::of_bits(bits),
            r is Err ==> r->Err_0 is InvalidArgument,
    {
        if bits & FLAG_RELIABLE == FLAG_RELIABLE && bits & FLAG_UNSEQUENCED == FLAG_UNSEQUENCED {
            return Err(Error::InvalidArgument);
        }
        let kept: u32 = bits & (FLAG_RELIABLE | FLAG_UNSEQUENCED | FLAG_UNRELIABLE_FRAGMENT);
        assert(kept & !11u32 == 0 && (kept & 1 == 1 <==> bits & 1 == 1) && (kept & 2 == 2 <==> bits
            & 2 == 2) && (kept & 8 == 8 <==> bits & 8 == 8)) by (bit_vector)
            requires
                kept == bits & (1u32 | 2u32 | 8u32),
        ;
        Ok(Flags { flags: kept })
    }

    /// The bits that stand for these options.
    pub fn bits(&self) -> (bits: u32)
        ensures
            bits == self@.bits(),
            Delivery::of_bits(bits) == self@,
            self@.valid(),
    {
        proof {
            use_type_invariant(self);
            lemma_option_bits(self.flags);
        }
        self.flags
    }

    /// The bits under which a packet with these options is created: the
    /// options themselves, and the request that the native engine use the
    /// caller's buffer in place of a copy.
    pub fn creation_bits(&self) -> (bits: u32)
        ensures
            bits == self@.bits() + 4,
            Delivery::of_bits(bits) == self@,
            is_set(bits, FLAG_NO_ALLOCATE),
            self@.valid(),
    {
        proof {
            use_type_invariant(self);
            lemma_option_bits(self.flags);
        }
        let own = self.flags;
        let bits = own | FLAG_NO_ALLOCATE;
        assert(bits == own + 4 && (bits & 1 == 1 <==> own & 1 == 1) && (bits & 2 == 2 <==> own & 2
            == 2) && (bits & 8 == 8 <==> own & 8 == 8) && bits & 4 == 4) by (bit_vector)
            requires
                bits == own | 4u32,
                own & !11u32 == 0,
        ;
        bits
    }

    /// Packet must be received by the target peer and resend attempts should
    /// be made until the packet is delivered.
    ///
    /// Not available once unsequenced delivery has been chosen.
    pub fn reliable(self) -> (r: Flags)
        requires
            !self@.unsequenced,
        ensures
            r@ == (Delivery { reliable: true, ..self@ }),
            r@.valid(),
    {
        proof {
            use_type_invariant(&self);
        }
        let old_bits = self.flags;
        let bits = old_bits | FLAG_RELIABLE;
        assert(bits & !11u32 == 0 && bits & 1 == 1 && (bits & 2 == 2 <==> old_bits & 2 == 2) && (
        bits & 8 == 8 <==> old_bits & 8 == 8)) by (bit_vector)
            requires
                bits == old_bits | 1u32,
                old_bits & !11u32 == 0,
        ;
        Flags { flags: bits }
    }

    /// Whether the packet is delivered reliably.
    pub fn is_reliable(&self) -> (b: bool)
        ensures
            b == self@.reliable,
    {
        self.check_flag(FLAG_RELIABLE)
    }

    /// Packet will not be sequenced with other packets.
    ///
    /// Not available once reliable delivery has been chosen.
    pub fn unsequenced(self) -> (r: Flags)
        requires
            !self@.reliable,
        ensures
            r@ == (Delivery { unsequenced: true, ..self@ }),
            r@.valid(),
    {
        proof {
            use_type_invariant(&self);
        }
        let old_bits = self.flags;
        let bits = old_bits | FLAG_UNSEQUENCED;
        assert(bits & !11u32 == 0 && bits & 2 == 2 && (bits & 1 == 1 <==> old_bits & 1 == 1) && (
        bits & 8 == 8 <==> old_bits & 8 == 8)) by (bit_vector)
            requires
                bits == old_bits | 2u32,
                old_bits & !11u32 == 0,
        ;
        Flags { flags: bits }
    }

    /// Whether the packet is left out of the sequence of the other packets.
    pub fn is_unsequenced(&self) -> (b: bool)
        ensures
            b == self@.unsequenced,
    {
        self.check_flag(FLAG_UNSEQUENCED)
    }

    /// Packet will be fragmented using unreliable (instead of reliable) sends
    /// if it exceeds the MTU.
    pub fn unreliable_fragment(self) -> (r: Flags)
        ensures
            r@ == (Delivery { unreliable_fragment: true, ..self@ }),
            r@.valid(),
    {
        proof {
            use_type_invariant(&self);
        }
        let old_bits = self.flags;
        let bits = old_bits | FLAG_UNRELIABLE_FRAGMENT;
        assert(bits & !11u32 == 0 && bits & 8 == 8 && (bits & 1 == 1 <==> old_bits & 1 == 1) && (
        bits & 2 == 2 <==> old_bits & 2 == 2)) by (bit_vector)
            requires
                bits == old_bits | 8u32,
                old_bits & !11u32 == 0,
        ;
        Flags { flags: bits }
    }

    /// Whether the packet is fragmented with unreliable sends.
    pub fn is_unreliable_fragment(self) -> (b: bool)
        ensures
            b == self@.unreliable_fragment,
    {
        self.check_flag(FLAG_UNRELIABLE_FRAGMENT)
    }

    /// Whether all the bits of `flag` are set.
    pub fn check_flag(&self, flag: u32) -> (b: bool)
        ensures
            b == is_set(self@.bits() as u32, flag),
            flag == FLAG_RELIABLE ==> b == self@.reliable,
            flag == FLAG_UNSEQUENCED ==> b == self@.unsequenced,
            flag == FLAG_UNRELIABLE_FRAGMENT ==> b == self@.unreliable_fragment,
    {
        let bits = self.bits();
        bits & flag == flag
    }
}

proof fn lemma_option_bits(bits: u32)
    requires
        bits & !11u32 == 0,
    ensures
        bits == Delivery::of_bits(bits).bits(),
{
    assert(bits == (if bits & 1 == 1 {
        1int
    } else {
        0int
    }) + (if bits & 2 == 2 {
        2int
    } else {
        0int
    }) + (if bits & 8 == 8 {
        8int
    } else {
        0int
    })) by (bit_vector)
        requires
            bits & !11u32 == 0,
    ;
}

/// Every combination of delivery options but reliable together with
/// unsequenced can be built, and it is built from its own bits.
pub proof fn lemma_valid_combinations_build(options: Delivery)
    requires
        options.valid(),
    ensures
        0 <= options.bits() <= u32::MAX,
        Delivery::of_bits(options.bits() as u32) == options,
        Delivery::of_bits(options.bits() as u32).valid(),
{
    assert(0u32 & 1 != 1 && 0u32 & 2 != 2 && 0u32 & 8 != 8) by (bit_vector);
    assert(1u32 & 1 == 1 && 1u32 & 2 != 2 && 1u32 & 8 != 8) by (bit_vector);
    assert(2u32 & 1 != 1 && 2u32 & 2 == 2 && 2u32 & 8 != 8) by (bit_vector);
    assert(8u32 & 1 != 1 && 8u32 & 2 != 2 && 8u32 & 8 == 8) by (bit_vector);
    assert(9u32 & 1 == 1 && 9u32 & 2 != 2 && 9u32 & 8 == 8) by (bit_vector);
    assert(10u32 & 1 != 1 && 10u32 & 2 == 2 && 10u32 & 8 == 8) by (bit_vector);
}

/// Bits that ask for reliable and unsequenced delivery together select no
/// valid combination, whatever else they hold.
pub proof fn lemma_reliable_unsequenced_refused(bits: u32)
    requires
        is_set(bits, FLAG_RELIABLE),
        is_set(bits, FLAG_UNSEQUENCED),
    ensures
        !Delivery::of_bits(bits).valid(),
{
}

/// What a [`Packet`] stands for: its bytes, its channel and its delivery
/// options.
pub struct PacketView {
    pub data: Seq<u8>,
    pub channel_id: u8,
    pub flags: Delivery,
}

/// A discrete unit of data with a channel assignment and delivery options.
#[derive(Debug)]
pub struct Packet {
    data: Vec<u8>,
    channel_id: u8,
    flags: Flags,
}

impl View for Packet {
    type V = PacketView;

    closed spec fn view(&self) -> PacketView {
        PacketView { data: self.data@, channel_id: self.channel_id, flags: self.flags@ }
    }
}

/// A packet as the native engine holds it: the bytes, and the bits of the
/// flags in its record.
#[derive(Debug)]
pub struct RawPacket {
    pub data: Vec<u8>,
    pub flags: u32,
}

impl Packet {
    /// Wraps a packet that the native engine delivered on the channel
    /// `channel_id`.
    ///
    /// The delivery options are those that the flags of the native record
    /// select. A record that asks for reliable and unsequenced delivery
    /// together is refused with [`Error::InvalidArgument`].
    pub fn from_raw(raw: RawPacket, channel_id: u8) -> (r: Result<Packet, Error>)
        ensures
            r is Ok <==> Delivery::of_bits(raw.flags).valid(),
            r is Ok ==> r->Ok_0@ == (PacketView {
                data: raw.data@,
                channel_id,
                flags: Delivery::of_bits(raw.flags),
            }),
            r is Err ==> r->Err_0 is InvalidArgument,
    {
        let RawPacket { data, flags } = raw;
        match Flags::from_bits(flags) {
            Ok(flags) => Ok(Packet { data, channel_id, flags }),
            Err(error) => Err(error),
        }
    }

    /// Gives up the packet for what the native engine takes in its place:
    /// the bytes, which are moved and not copied, and the bits under which
    /// the native record is created.
    pub fn into_raw(self) -> (raw: RawPacket)
        ensures
            raw.data@ == self@.data,
            raw.flags == self@.flags.bits() + 4,
            Delivery::of_bits(raw.flags) == self@.flags,
            is_set(raw.flags, FLAG_NO_ALLOCATE),
    {
        let flags = self.flags.creation_bits();
        RawPacket { data: self.data, flags }
    }

    /// Creates a new packet.
    ///
    /// The bytes are moved into the packet, not copied. `allocated` says
    /// whether the native engine accepted the request for a packet record
    /// under [`Flags::creation_bits`]; if it did not, the result is
    /// [`Error::Unknown`].
    pub fn new(data: Vec<u8>, channel_id: u8, flags: Flags, allocated: bool) -> (r: Result<
        Packet,
        Error,
    >)
        ensures
            r is Ok <==> allocated,
            r is Ok ==> r->Ok_0@ == (PacketView { data: data@, channel_id, flags: flags@ }),
            r is Err ==> r->Err_0 is Unknown,
    {
        if !allocated {
            return Err(Error::Unknown);
        }
        Ok(Packet { data, channel_id, flags })
    }

    /// Returns flags that the packet was created with. They never ask for
    /// reliable and unsequenced delivery together.
    pub fn flags(&self) -> (flags: Flags)
        ensures
            flags@ == self@.flags,
            flags@.valid(),
    {
        proof {
            use_type_invariant(&self.flags);
        }
        self.flags
    }

    /// Returns data associated with this packet. A packet without data gives
    /// the empty slice.
    pub fn data(&self) -> (data: &[u8])
        ensures
            data@ == self@.data,
    {
        self.data.as_slice()
    }

    /// Returns the channel associated with this packet.
    pub fn channel_id(&self) -> (channel_id: u8)
        ensures
            channel_id == self@.channel_id,
    {
        self.channel_id
    }
}

} // verus!
