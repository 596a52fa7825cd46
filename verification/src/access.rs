//! Which peers may talk to the daemon: addresses, and the ranges that the
//! configuration allows.
use vstd::prelude::*;

verus! {

/// An IP address, as the number that its bytes spell in network order.
#[derive(Clone, Copy, Debug, PartialEq, Eq, Hash, Structural)]
pub enum IpAddress {
    V4(u32),
    V6(u128),
}

/// A range of addresses: all that share the first `prefix_len` bits of
/// `addr`.
#[derive(Clone, Copy, Debug, PartialEq, Eq, Hash, Structural)]
pub struct IpRange {
    pub addr: IpAddress,
    pub prefix_len: u8,
}

/// Where the daemon listens, or where a peer connects from.
#[derive(Clone, Copy, Debug, PartialEq, Eq, Hash, Structural)]
pub struct Endpoint {
    pub ip: IpAddress,
    pub port: u16,
}

/// The bits of a 32-bit address that a prefix of the given length fixes.
/// A length of 32 or more fixes them all.
pub open spec fn mask_v4(prefix_len: u8) -> u32 {
    if prefix_len == 0 {
        0u32
    } else if prefix_len >= 32 {
        0xffff_ffffu32
    } else {
        !(0xffff_ffffu32 >> prefix_len)
    }
}

/// The bits of a 128-bit address that a prefix of the given length fixes.
/// A length of 128 or more fixes them all.
pub open spec fn mask_v6(prefix_len: u8) -> u128 {
    if prefix_len == 0 {
        0u128
    } else if prefix_len >= 128 {
        0xffff_ffff_ffff_ffff_ffff_ffff_ffff_ffffu128
    } else {
        !(0xffff_ffff_ffff_ffff_ffff_ffff_ffff_ffffu128 >> prefix_len)
    }
}

impl IpRange {
    /// Whether an address lies in the range: it is of the same family, and
    /// agrees with the range's address on the bits that the prefix fixes.
    pub open spec fn contains(self, ip: IpAddress) -> bool {
        match (self.addr, ip) {
            (IpAddress::V4(net), IpAddress::V4(a)) => net & mask_v4(self.prefix_len) == a & mask_v4(
                self.prefix_len,
            ),
            (IpAddress::V6(net), IpAddress::V6(a)) => net & mask_v6(self.prefix_len) == a & mask_v6(
                self.prefix_len,
            ),
            _ => false,
        }
    }

    /// Whether an address lies in the range.
    pub fn includes(&self, ip: IpAddress) -> (r: bool)
        ensures
            r == self.contains(ip),
    {
        match (self.addr, ip) {
            (IpAddress::V4(net), IpAddress::V4(a)) => {
                let mask: u32 = if self.prefix_len == 0 {
                    0u32
                } else if self.prefix_len >= 32 {
                    0xffff_ffffu32
                } else {
                    !(0xffff_ffffu32 >> self.prefix_len)
                };
                net & mask == a & mask
            },
            (IpAddress::V6(net), IpAddress::V6(a)) => {
                let mask: u128 = if self.prefix_len == 0 {
                    0u128
                } else if self.prefix_len >= 128 {
                    0xffff_ffff_ffff_ffff_ffff_ffff_ffff_ffffu128
                } else {
                    !(0xffff_ffff_ffff_ffff_ffff_ffff_ffff_ffffu128 >> self.prefix_len)
                };
                net & mask == a & mask
            },
            _ => false,
        }
    }
}

/// Whether a peer may talk to the daemon: every peer may where no range is
/// configured, and otherwise those whose address lies in one of the ranges.
pub open spec fn admitted(ranges: Seq<IpRange>, ip: IpAddress) -> bool {
    ranges.len() == 0 || exists|i: int| 0 <= i < ranges.len() && (#[trigger] ranges[i]).contains(ip)
}

/// Whether a peer may talk to the daemon.
pub fn admits(ranges: &Vec<IpRange>, ip: IpAddress) -> (r: bool)
    ensures
        r == admitted(ranges@, ip),
{
    if ranges.len() == 0 {
        return true;
    }
    let mut i: usize = 0;
    while i < ranges.len()
        invariant
            0 <= i <= ranges.len(),
            forall|k: int| 0 <= k < i ==> !(#[trigger] ranges@[k]).contains(ip),
        decreases ranges.len() - i,
    {
        if ranges[i].includes(ip) {
            return true;
        }
        i += 1;
    }
    false
}

} // verus!
