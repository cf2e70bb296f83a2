//! Admission of peers by network range (CIDR containment).
use vstd::prelude::*;

verus! {

/// The address a peer connected from.
#[derive(Clone, Copy, Debug, PartialEq, Eq, Structural)]
pub enum PeerAddr {
    V4(u32),
    V6(u128),
}

/// A network range: a base address and a prefix length.
#[derive(Clone, Copy, Debug, PartialEq, Eq, Structural)]
pub enum Network {
    V4 { addr: u32, prefix: u8 },
    V6 { addr: u128, prefix: u8 },
}

/// The netmask of an IPv4 prefix: `prefix` leading one bits.
pub open spec fn mask_v4(prefix: u8) -> u32 {
    if prefix == 0 {
        0
    } else {
        0xffff_ffffu32 << ((32 - prefix) as u32)
    }
}

/// The netmask of an IPv6 prefix: `prefix` leading one bits.
pub open spec fn mask_v6(prefix: u8) -> u128 {
    if prefix == 0 {
        0
    } else {
        0xffff_ffff_ffff_ffff_ffff_ffff_ffff_ffffu128 << ((128 - prefix) as u128)
    }
}

/// The addresses from the network address to the last address of a range.
pub open spec fn between_v4(addr: u32, prefix: u8, ip: u32) -> bool {
    addr & mask_v4(prefix) <= ip && ip <= addr | !mask_v4(prefix)
}

/// The addresses from the network address to the last address of a range.
pub open spec fn between_v6(addr: u128, prefix: u8, ip: u128) -> bool {
    addr & mask_v6(prefix) <= ip && ip <= addr | !mask_v6(prefix)
}

impl Network {
    /// The prefix length fits the address family.
    pub open spec fn wf(&self) -> bool {
        match *self {
            Network::V4 { prefix, .. } => prefix <= 32,
            Network::V6 { prefix, .. } => prefix <= 128,
        }
    }

    /// Standard CIDR containment: the address masked by the prefix length
    /// equals the network address; addresses of the other family are never
    /// contained.
    pub open spec fn holds(&self, peer: PeerAddr) -> bool {
        match (*self, peer) {
            (Network::V4 { addr, prefix }, PeerAddr::V4(ip)) => ip & mask_v4(prefix) == addr
                & mask_v4(prefix),
            (Network::V6 { addr, prefix }, PeerAddr::V6(ip)) => ip & mask_v6(prefix) == addr
                & mask_v6(prefix),
            _ => false,
        }
    }
}

/// Whether a peer may proceed under an optional policy.
pub open spec fn admits(policy: Option<Network>, peer: PeerAddr) -> bool {
    match policy {
        None => true,
        Some(net) => net.holds(peer),
    }
}

/// Relies on ipnet's `Ipv4Net::new_assert` and `Contains<&Ipv4Net>`: a
/// single-address net lies in `addr/prefix` when it is between the network
/// address and the broadcast address.
#[verifier::external_body]
fn ipv4_net_contains(addr: u32, prefix: u8, ip: u32) -> (r: bool)
    requires
        prefix <= 32,
    ensures
        r == between_v4(addr, prefix, ip),
{
    let net = ipnet::Ipv4Net::new_assert(addr.into(), prefix);
    net.contains(&ipnet::Ipv4Net::new_assert(ip.into(), 32))
}

/// Relies on ipnet's `Ipv6Net::new_assert` and `Contains<&Ipv6Net>`: a
/// single-address net lies in `addr/prefix` when it is between the network
/// address and the last address.
#[verifier::external_body]
fn ipv6_net_contains(addr: u128, prefix: u8, ip: u128) -> (r: bool)
    requires
        prefix <= 128,
    ensures
        r == between_v6(addr, prefix, ip),
{
    let net = ipnet::Ipv6Net::new_assert(addr.into(), prefix);
    net.contains(&ipnet::Ipv6Net::new_assert(ip.into(), 128))
}

proof fn lemma_between_v4(addr: u32, prefix: u8, ip: u32)
    requires
        prefix <= 32,
    ensures
        between_v4(addr, prefix, ip) == (ip & mask_v4(prefix) == addr & mask_v4(prefix)),
{
    let m = mask_v4(prefix);
    if prefix == 0 {
        assert(m == 0);
        assert(addr & 0 == 0 && ip & 0 == 0 && addr | !0u32 == 0xffff_ffffu32) by (bit_vector);
    } else {
        let s: u32 = (32 - prefix) as u32;
        assert(s < 32);
        assert(m == 0xffff_ffffu32 << s);
        assert(s < 32 && m == 0xffff_ffffu32 << s ==> ((addr & m <= ip && ip <= addr | !m) == (
        ip & m == addr & m))) by (bit_vector);
    }
}

proof fn lemma_between_v6(addr: u128, prefix: u8, ip: u128)
    requires
        prefix <= 128,
    ensures
        between_v6(addr, prefix, ip) == (ip & mask_v6(prefix) == addr & mask_v6(prefix)),
{
    let m = mask_v6(prefix);
    if prefix == 0 {
        assert(m == 0);
        assert(addr & 0 == 0 && ip & 0 == 0 && addr | !0u128
            == 0xffff_ffff_ffff_ffff_ffff_ffff_ffff_ffffu128) by (bit_vector);
    } else {
        let s: u128 = (128 - prefix) as u128;
        assert(s < 128);
        assert(m == 0xffff_ffff_ffff_ffff_ffff_ffff_ffff_ffffu128 << s);
        assert(s < 128 && m == 0xffff_ffff_ffff_ffff_ffff_ffff_ffff_ffffu128 << s ==> ((addr & m
            <= ip && ip <= addr | !m) == (ip & m == addr & m))) by (bit_vector);
    }
}

impl Network {
    /// An IPv4 range; `None` when the prefix is longer than 32 bits.
    pub fn v4(addr: u32, prefix: u8) -> (r: Option<Network>)
        ensures
            prefix <= 32 <==> r.is_some(),
            r.is_some() ==> r == Some(Network::V4 { addr, prefix }),
    {
        if prefix <= 32 {
            Some(Network::V4 { addr, prefix })
        } else {
            None
        }
    }

    /// An IPv6 range; `None` when the prefix is longer than 128 bits.
    pub fn v6(addr: u128, prefix: u8) -> (r: Option<Network>)
        ensures
            prefix <= 128 <==> r.is_some(),
            r.is_some() ==> r == Some(Network::V6 { addr, prefix }),
    {
        if prefix <= 128 {
            Some(Network::V6 { addr, prefix })
        } else {
            None
        }
    }

    /// Whether `peer` lies in this range.
    pub fn contains(&self, peer: PeerAddr) -> (r: bool)
        requires
            self.wf(),
        ensures
            r == self.holds(peer),
    {
        match (*self, peer) {
            (Network::V4 { addr, prefix }, PeerAddr::V4(ip)) => {
                proof {
                    lemma_between_v4(addr, prefix, ip);
                }
                ipv4_net_contains(addr, prefix, ip)
            },
            (Network::V6 { addr, prefix }, PeerAddr::V6(ip)) => {
                proof {
                    lemma_between_v6(addr, prefix, ip);
                }
                ipv6_net_contains(addr, prefix, ip)
            },
            _ => false,
        }
    }
}

/// The admission filter: with no policy every peer is admitted, otherwise
/// exactly the peers inside the configured range.
pub fn is_admitted(peer: PeerAddr, policy: &Option<Network>) -> (r: bool)
    requires
        policy matches Some(net) ==> net.wf(),
    ensures
        r == admits(*policy, peer),
{
    match policy {
        None => true,
        Some(net) => net.contains(peer),
    }
}

} // verus!
