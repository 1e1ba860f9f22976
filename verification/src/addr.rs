//! Socket addresses as plain values.

use vstd::prelude::*;

verus! {

/// An IPv4 socket address: four octets as they are written, and a port.
#[derive(Clone, Copy, Debug, PartialEq, Eq)]
pub struct Address {
    pub octets: [u8; 4],
    pub port: u16,
}

/// A socket address as name resolution yields it. The native engine speaks
/// IPv4 only, so nothing is kept of an IPv6 address.
#[derive(Clone, Copy, Debug, PartialEq, Eq)]
pub enum SocketAddress {
    /// An IPv4 socket address.
    V4(Address),
    /// An IPv6 socket address.
    V6,
}

/// The first IPv4 address among `addrs`, if there is one.
pub open spec fn first_v4(addrs: Seq<SocketAddress>) -> Option<Address>
    decreases addrs.len(),
{
    if addrs.len() == 0 {
        None
    } else {
        match addrs.first() {
            SocketAddress::V4(addr) => Some(addr),
            SocketAddress::V6 => first_v4(addrs.drop_first()),
        }
    }
}

/// What [`first_v4`] finds is an IPv4 address of the list, and only IPv6
/// addresses stand before it; it finds nothing only in a list without IPv4
/// addresses.
pub proof fn lemma_first_v4(addrs: Seq<SocketAddress>)
    ensures
        match first_v4(addrs) {
            Some(addr) => exists|i: int|
                0 <= i < addrs.len() && addrs[i] == SocketAddress::V4(addr) && forall|j: int|
                    0 <= j < i ==> addrs[j] is V6,
            None => forall|j: int| 0 <= j < addrs.len() ==> addrs[j] is V6,
        },
    decreases addrs.len(),
{
    if addrs.len() > 0 {
        let rest = addrs.drop_first();
        lemma_first_v4(rest);
        match addrs.first() {
            SocketAddress::V4(addr) => {
                assert(addrs[0] == SocketAddress::V4(addr));
            },
            SocketAddress::V6 => {
                match first_v4(rest) {
                    Some(addr) => {
                        let i = choose|i: int|
                            0 <= i < rest.len() && rest[i] == SocketAddress::V4(addr) && forall|
                                j: int,
                            |
                                0 <= j < i ==> rest[j] is V6;
                        assert(addrs[i + 1] == rest[i]);
                        assert forall|j: int| 0 <= j < i + 1 implies addrs[j] is V6 by {
                            if j > 0 {
                                assert(addrs[j] == rest[j - 1]);
                            }
                        }
                    },
                    None => {
                        assert forall|j: int| 0 <= j < addrs.len() implies addrs[j] is V6 by {
                            if j > 0 {
                                assert(addrs[j] == rest[j - 1]);
                            }
                        }
                    },
                }
            },
        }
    }
}

/// The first IPv4 address among `addrs`, if there is one.
pub fn select_v4(addrs: &[SocketAddress]) -> (r: Option<Address>)
    ensures
        r == first_v4(addrs@),
{
    let mut i: usize = 0;
    assert(addrs@.skip(0) == addrs@);
    while i < addrs.len()
        invariant
            i <= addrs@.len(),
            first_v4(addrs@) == first_v4(addrs@.skip(i as int)),
        decreases addrs@.len() - i,
    {
        let ghost rest = addrs@.skip(i as int);
        assert(rest.first() == addrs@[i as int]);
        assert(rest.drop_first() == addrs@.skip(i as int + 1));
        match addrs[i] {
            SocketAddress::V4(addr) => {
                return Some(addr);
            },
            SocketAddress::V6 => {},
        }
        i = i + 1;
    }
    assert(addrs@.skip(i as int).len() == 0);
    None
}

} // verus!
