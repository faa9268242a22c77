//! The address record that binding hands to the engine.

use crate::byte_order::{network_order_u16, network_u16, u16_bytes, ByteOrder};
use vstd::prelude::*;

verus! {

/// The address family of IPv4.
pub const AF_INET: u16 = 2;

/// The size of an address record in bytes, as binding states it to the engine.
pub const SOCKADDR_IN_SIZE: i32 = 16;

/// An IPv4 socket address in the engine's fixed layout: the family, the port
/// in network byte order, the address, and eight bytes of padding.
#[derive(Debug, Clone, Copy, PartialEq, Eq)]
pub struct SockAddrIn {
    pub sin_family: u16,
    pub sin_port: u16,
    pub sin_addr: u32,
    pub sin_zero: [u8; 8],
}

impl SockAddrIn {
    /// Whether this record stands for any local address with `port`, on a
    /// machine of the given byte order: the IPv4 family, the port's bytes
    /// most significant first, address zero, padding zero.
    pub open spec fn is_any_address(self, port: u16, order: ByteOrder) -> bool {
        &&& self.sin_family == AF_INET
        &&& self.sin_port == network_order_u16(port, order)
        &&& u16_bytes(self.sin_port, order) == u16_bytes(port, ByteOrder::BigEndian)
        &&& self.sin_addr == 0
        &&& self.sin_zero@ == Seq::new(8, |i: int| 0u8)
    }

    /// The record for any local address with `port`, for a machine of the
    /// given byte order.
    pub fn any_address(port: u16, order: ByteOrder) -> (addr: SockAddrIn)
        ensures
            addr.is_any_address(port, order),
    {
        let addr = SockAddrIn {
            sin_family: AF_INET,
            sin_port: network_u16(port, order),
            sin_addr: 0,
            sin_zero: [0u8, 0u8, 0u8, 0u8, 0u8, 0u8, 0u8, 0u8],
        };
        assert(addr.sin_zero@ =~= Seq::new(8, |i: int| 0u8));
        addr
    }
}

} // verus!
