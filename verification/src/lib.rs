//! A verified core for reliable-UDP hosts, peers and packets.
//!
//! The crate holds every decision that bindings to the native engine take:
//! which flags a packet may carry, when the global subsystem has to be
//! initialized, what a native event means for a peer and the data attached
//! to it, what a compressor callback reports back, and which configurations
//! are accepted. The native calls themselves are made by the caller, who
//! hands their outcome to the functions here as plain values.

pub mod addr;
pub mod compress;
pub mod error;
pub mod event;
pub mod host;
pub mod init;
pub mod packet;
pub mod peer;
pub mod time;

pub use crate::error::Error;
pub use crate::event::{Event, EventKind};
pub use crate::host::Host;
pub use crate::packet::{Flags as PacketFlags, Packet};
pub use crate::peer::{Peer, PeerInfo, PeerMut};
