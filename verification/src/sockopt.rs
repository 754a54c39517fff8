//! The socket options that the sockets set: which level, which option and
//! which value, decided from plain values.
use vstd::prelude::*;
use crate::error::PktInfoError;
use crate::platform::Platform;
use crate::recv::SocketAddress;

verus! {

/// The value handed to `setsockopt`.
#[derive(Clone, Copy, Debug, PartialEq, Eq)]
pub enum SockOptValue {
    /// A C `int`.
    Int(i32),
    /// A C `unsigned int`.
    UInt(u32),
    /// An IPv4 address (`struct in_addr`), as its bytes in network order.
    InAddr([u8; 4]),
}

/// A call of `setsockopt`: level, option name and value.
#[derive(Clone, Copy, Debug, PartialEq, Eq)]
pub struct SockOpt {
    pub level: i32,
    pub name: i32,
    pub value: SockOptValue,
}

impl Platform {
    /// The option that asks for IPv4 packet information.
    pub open spec fn ipv4_pktinfo_opt(&self) -> SockOpt {
        SockOpt { level: self.ipproto_ip, name: self.ip_pktinfo, value: SockOptValue::Int(1) }
    }

    /// The option that asks for IPv6 packet information.
    pub open spec fn ipv6_pktinfo_opt(&self) -> SockOpt {
        SockOpt {
            level: self.ipproto_ipv6,
            name: self.ipv6_recvpktinfo,
            value: SockOptValue::Int(1),
        }
    }

    /// The option that turns packet information on for a socket of address
    /// family `domain`; other families than IPv4 and IPv6 are unsupported.
    pub open spec fn pktinfo_option_spec(&self, domain: i32) -> Result<SockOpt, PktInfoError> {
        if domain == self.af_inet {
            Ok(self.ipv4_pktinfo_opt())
        } else if domain == self.af_inet6 {
            Ok(self.ipv6_pktinfo_opt())
        } else {
            Err(PktInfoError::Unsupported)
        }
    }

    /// The option that a new socket of address family `domain` sets so that
    /// its receives carry packet information.
    pub fn pktinfo_option(&self, domain: i32) -> (r: Result<SockOpt, PktInfoError>)
        ensures
            r == self.pktinfo_option_spec(domain),
    {
        if domain == self.af_inet {
            Ok(SockOpt { level: self.ipproto_ip, name: self.ip_pktinfo, value: SockOptValue::Int(1) })
        } else if domain == self.af_inet6 {
            Ok(
                SockOpt {
                    level: self.ipproto_ipv6,
                    name: self.ipv6_recvpktinfo,
                    value: SockOptValue::Int(1),
                },
            )
        } else {
            Err(PktInfoError::Unsupported)
        }
    }

    /// Address family of a socket bound to `addr`.
    pub open spec fn domain_of(&self, addr: SocketAddress) -> i32 {
        match addr {
            SocketAddress::V4 { .. } => self.af_inet,
            SocketAddress::V6 { .. } => self.af_inet6,
        }
    }

    /// For a socket already bound to `local`: its address family and the
    /// option that turns packet information on.
    pub fn local_pktinfo_option(&self, local: &SocketAddress) -> (r: (i32, SockOpt))
        ensures
            r.0 == self.domain_of(*local),
            r.1 == (match *local {
                SocketAddress::V4 { .. } => self.ipv4_pktinfo_opt(),
                SocketAddress::V6 { .. } => self.ipv6_pktinfo_opt(),
            }),
    {
        match local {
            SocketAddress::V4 { .. } => (
                self.af_inet,
                SockOpt { level: self.ipproto_ip, name: self.ip_pktinfo, value: SockOptValue::Int(1) },
            ),
            SocketAddress::V6 { .. } => (
                self.af_inet6,
                SockOpt {
                    level: self.ipproto_ipv6,
                    name: self.ipv6_recvpktinfo,
                    value: SockOptValue::Int(1),
                },
            ),
        }
    }

    /// `SO_REUSEADDR` set to `reuse` (1 or 0).
    pub fn reuse_address_option(&self, reuse: bool) -> (r: SockOpt)
        ensures
            r == (SockOpt {
                level: self.sol_socket,
                name: self.so_reuseaddr,
                value: SockOptValue::Int(if reuse { 1 } else { 0 }),
            }),
    {
        SockOpt {
            level: self.sol_socket,
            name: self.so_reuseaddr,
            value: SockOptValue::Int(if reuse { 1 } else { 0 }),
        }
    }

    /// `SO_REUSEPORT` set to `reuse` (1 or 0).
    pub fn reuse_port_option(&self, reuse: bool) -> (r: SockOpt)
        ensures
            r == (SockOpt {
                level: self.sol_socket,
                name: self.so_reuseport,
                value: SockOptValue::Int(if reuse { 1 } else { 0 }),
            }),
    {
        SockOpt {
            level: self.sol_socket,
            name: self.so_reuseport,
            value: SockOptValue::Int(if reuse { 1 } else { 0 }),
        }
    }

    /// The IPv4 multicast interface set to the address `interface`, whose
    /// bytes go to the kernel in network order.
    pub fn multicast_if_v4_option(&self, interface: [u8; 4]) -> (r: SockOpt)
        ensures
            r == (SockOpt {
                level: self.ipproto_ip,
                name: self.ip_multicast_if,
                value: SockOptValue::InAddr(interface),
            }),
    {
        SockOpt {
            level: self.ipproto_ip,
            name: self.ip_multicast_if,
            value: SockOptValue::InAddr(interface),
        }
    }

    /// The IPv6 multicast interface set to the interface index `interface`.
    pub fn multicast_if_v6_option(&self, interface: u32) -> (r: SockOpt)
        ensures
            r == (SockOpt {
                level: self.ipproto_ipv6,
                name: self.ipv6_multicast_if,
                value: SockOptValue::UInt(interface),
            }),
    {
        SockOpt {
            level: self.ipproto_ipv6,
            name: self.ipv6_multicast_if,
            value: SockOptValue::UInt(interface),
        }
    }

    /// The IPv6 multicast hop limit set to `hops`, which must be at most
    /// 255.
    pub fn multicast_hops_v6_option(&self, hops: u32) -> (r: Result<SockOpt, PktInfoError>)
        ensures
            hops > 255 ==> r == Err::<SockOpt, PktInfoError>(PktInfoError::InvalidHops),
            hops <= 255 ==> r == Ok::<SockOpt, PktInfoError>(
                SockOpt {
                    level: self.ipproto_ipv6,
                    name: self.ipv6_multicast_hops,
                    value: SockOptValue::Int(hops as i32),
                },
            ),
    {
        if hops > 255 {
            return Err(PktInfoError::InvalidHops);
        }
        Ok(
            SockOpt {
                level: self.ipproto_ipv6,
                name: self.ipv6_multicast_hops,
                value: SockOptValue::Int(hops as i32),
            },
        )
    }
}

/// A socket bound to an address turns on the same option, and records the
/// same family, as a new socket of that address's family does.
pub proof fn lemma_local_option_matches_family(p: Platform, local: SocketAddress)
    requires
        p.wf(),
    ensures
        p.pktinfo_option_spec(p.domain_of(local)) == Ok::<SockOpt, PktInfoError>(
            match local {
                SocketAddress::V4 { .. } => p.ipv4_pktinfo_opt(),
                SocketAddress::V6 { .. } => p.ipv6_pktinfo_opt(),
            },
        ),
{
}

} // verus!
