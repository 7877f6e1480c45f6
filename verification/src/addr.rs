use vstd::prelude::*;

verus! {

/// First address of the reserved IPv4 sentinel range `100.100.111.0/24`,
/// as a big-endian integer.
pub const SENTINEL_V4_BASE: u32 = 0x6464_6F00;

/// First address of the reserved IPv6 sentinel range
/// `fd00:2021:1111:8000:100:100:111:0/120`, as a big-endian integer.
pub const SENTINEL_V6_BASE: u128 = 0xfd00_2021_1111_8000_0100_0100_0111_0000;

/// Number of sentinel addresses available in each family's reserved range.
pub const SENTINEL_CAPACITY: u32 = 256;

/// Port used for fallback resolvers pointed at a system default server.
pub const DNS_PORT: u16 = 53;

/// An IP address of either family, as a plain big-endian integer.
#[derive(Clone, Copy, PartialEq, Eq, Structural, Debug, Hash)]
pub enum IpAddress {
    V4(u32),
    V6(u128),
}

/// An IP address together with a port.
#[derive(Clone, Copy, PartialEq, Eq, Structural, Debug, Hash)]
pub struct SocketAddress {
    pub ip: IpAddress,
    pub port: u16,
}

/// Whether an IPv4 address lies in the reserved sentinel range.
pub open spec fn in_sentinel_v4_range(ip: u32) -> bool {
    SENTINEL_V4_BASE <= ip && ip < SENTINEL_V4_BASE + SENTINEL_CAPACITY
}

/// Whether an IPv6 address lies in the reserved sentinel range.
pub open spec fn in_sentinel_v6_range(ip: u128) -> bool {
    SENTINEL_V6_BASE <= ip && ip < SENTINEL_V6_BASE + SENTINEL_CAPACITY
}

/// Whether an address lies in the reserved sentinel range of its family.
pub open spec fn is_sentinel_ip(ip: IpAddress) -> bool {
    match ip {
        IpAddress::V4(v) => in_sentinel_v4_range(v),
        IpAddress::V6(v) => in_sentinel_v6_range(v),
    }
}

/// Decides membership in the reserved sentinel ranges.
pub fn is_sentinel(ip: IpAddress) -> (r: bool)
    ensures
        r == is_sentinel_ip(ip),
{
    match ip {
        IpAddress::V4(v) => SENTINEL_V4_BASE <= v && v <= SENTINEL_V4_BASE + (SENTINEL_CAPACITY - 1),
        IpAddress::V6(v) => {
            SENTINEL_V6_BASE <= v && v <= SENTINEL_V6_BASE + ((SENTINEL_CAPACITY - 1) as u128)
        },
    }
}

/// The sentinel address allocated for the `k`-th IPv4 upstream server.
pub open spec fn sentinel_v4(k: int) -> IpAddress {
    IpAddress::V4((SENTINEL_V4_BASE + k) as u32)
}

/// The sentinel address allocated for the `k`-th IPv6 upstream server.
pub open spec fn sentinel_v6(k: int) -> IpAddress {
    IpAddress::V6((SENTINEL_V6_BASE + k) as u128)
}

} // verus!
