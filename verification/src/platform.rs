//! The numbers of the host's socket interface that the library works with:
//! the byte layout of a control-message header and of the two packet-info
//! payloads, and the option, level and flag constants that the sockets use.
//!
//! The library never guesses these: the caller fills a [`Platform`] from the
//! host's C library, and every function here is stated over its fields.
//! The conventions that differ between C libraries are fields too: where a
//! message's payload starts, how the next header is found, and whether the
//! IPv4 interface index is a signed or an unsigned `int`.
use vstd::prelude::*;

verus! {

/// How the C library's `CMSG_NXTHDR` finds the header after the current
/// one, which always starts at the current header plus its length rounded
/// up to the alignment unit.
#[derive(Clone, Copy, Debug, PartialEq, Eq)]
pub enum NextHeaderRule {
    /// glibc: a current length shorter than a header ends the walk, and the
    /// next header must fit, unrounded, within the control data.
    Linux,
    /// musl: as glibc, but the next header must end strictly before the end
    /// of the control data.
    Musl,
    /// Darwin, the BSDs and Android: the current length is not tested, and
    /// the next header, up to the start of its payload, must fit within the
    /// control data.
    Bsd,
}

/// Byte layout and constants of the host's socket interface.
pub struct Platform {
    /// Size of the control-message header (`struct cmsghdr`); the payload
    /// of a message starts this many bytes after its header.
    pub header_size: usize,
    /// Unit to which control-message lengths are rounded up.
    pub align: usize,
    /// Offset and width (4 or 8 bytes) of the header's length field.
    pub len_offset: usize,
    pub len_width: usize,
    /// Offsets of the header's level and type fields (4-byte signed integers).
    pub level_offset: usize,
    pub type_offset: usize,
    /// Offset of a message's payload from its header (`CMSG_DATA`): the
    /// header size, rounded up where the C library rounds it.
    pub data_offset: usize,
    /// Byte order of the host.
    pub little_endian: bool,
    /// How the header after the current one is found.
    pub next_rule: NextHeaderRule,
    /// Layout of the IPv4 packet-info payload (`struct in_pktinfo`), and
    /// whether its interface index is a signed `int` (glibc, musl) or an
    /// unsigned one (Darwin, NetBSD, Solaris).
    pub in_pktinfo_size: usize,
    pub in_pktinfo_ifindex_offset: usize,
    pub in_pktinfo_addr_offset: usize,
    pub in_pktinfo_ifindex_signed: bool,
    /// Layout of the IPv6 packet-info payload (`struct in6_pktinfo`).
    pub in6_pktinfo_size: usize,
    pub in6_pktinfo_addr_offset: usize,
    pub in6_pktinfo_ifindex_offset: usize,
    /// Address families.
    pub af_inet: i32,
    pub af_inet6: i32,
    /// Protocol levels and packet-info option names.
    pub ipproto_ip: i32,
    pub ip_pktinfo: i32,
    pub ipproto_ipv6: i32,
    pub ipv6_pktinfo: i32,
    pub ipv6_recvpktinfo: i32,
    /// Flags that `recvmsg` sets on truncation.
    pub msg_ctrunc: i32,
    pub msg_trunc: i32,
    /// Socket-level options.
    pub sol_socket: i32,
    pub so_reuseaddr: i32,
    pub so_reuseport: i32,
    /// Multicast options.
    pub ip_multicast_if: i32,
    pub ipv6_multicast_if: i32,
    pub ipv6_multicast_hops: i32,
}

/// `x` rounded up to a multiple of `a` (the C library's `CMSG_ALIGN`).
pub open spec fn align_up(x: int, a: int) -> int {
    ((x + a - 1) / a) * a
}

impl Platform {
    /// The two address families differ, and the layout describes real,
    /// bounded C structures: every field lies inside the structure that
    /// holds it.
    pub open spec fn wf(&self) -> bool {
        &&& self.af_inet != self.af_inet6
        &&& 0 < self.align <= 64
        &&& 0 < self.header_size <= 256
        &&& self.header_size <= self.data_offset <= 512
        &&& (self.len_width == 4 || self.len_width == 8)
        &&& self.len_offset + self.len_width <= self.header_size
        &&& self.level_offset + 4 <= self.header_size
        &&& self.type_offset + 4 <= self.header_size
        &&& self.in_pktinfo_size <= 256
        &&& self.in_pktinfo_ifindex_offset + 4 <= self.in_pktinfo_size
        &&& self.in_pktinfo_addr_offset + 4 <= self.in_pktinfo_size
        &&& self.in6_pktinfo_size <= 256
        &&& self.in6_pktinfo_addr_offset + 16 <= self.in6_pktinfo_size
        &&& self.in6_pktinfo_ifindex_offset + 4 <= self.in6_pktinfo_size
    }

    /// Decides [`Platform::wf`].
    pub fn is_well_formed(&self) -> (b: bool)
        ensures
            b == self.wf(),
    {
        self.af_inet != self.af_inet6 && 0 < self.align && self.align <= 64 && 0 < self.header_size && self.header_size <= 256 && self.header_size <= self.data_offset && self.data_offset <= 512 && (
        self.len_width == 4 || self.len_width == 8) && self.len_offset <= 256 && self.len_offset
            + self.len_width <= self.header_size && self.level_offset <= 256 && self.level_offset
            + 4 <= self.header_size && self.type_offset <= 256 && self.type_offset + 4
            <= self.header_size && self.in_pktinfo_size <= 256 && self.in_pktinfo_ifindex_offset
            <= 256 && self.in_pktinfo_ifindex_offset + 4 <= self.in_pktinfo_size
            && self.in_pktinfo_addr_offset <= 256 && self.in_pktinfo_addr_offset + 4
            <= self.in_pktinfo_size && self.in6_pktinfo_size <= 256
            && self.in6_pktinfo_addr_offset <= 256 && self.in6_pktinfo_addr_offset + 16
            <= self.in6_pktinfo_size && self.in6_pktinfo_ifindex_offset <= 256
            && self.in6_pktinfo_ifindex_offset + 4 <= self.in6_pktinfo_size
    }

    /// Room that a control message with a payload of `len` bytes takes in a
    /// control buffer (the C library's `CMSG_SPACE`).
    pub open spec fn cmsg_space(&self, len: int) -> int {
        align_up(len, self.align as int) + align_up(self.header_size as int, self.align as int)
    }

    /// Size of the packet-info payload that a socket of address family
    /// `domain` receives: the IPv4 one for `af_inet`, the IPv6 one otherwise.
    pub open spec fn pktinfo_size_for(&self, domain: i32) -> int {
        if domain == self.af_inet {
            self.in_pktinfo_size as int
        } else {
            self.in6_pktinfo_size as int
        }
    }

    /// Capacity of the control buffer that a receive on a socket of
    /// address family `domain` provides: room for one packet-info message.
    pub fn control_capacity(&self, domain: i32) -> (cap: usize)
        requires
            self.wf(),
        ensures
            cap == self.cmsg_space(self.pktinfo_size_for(domain)),
    {
        let payload = if domain == self.af_inet {
            self.in_pktinfo_size
        } else {
            self.in6_pktinfo_size
        };
        let a = align_up_small(payload, self.align);
        let h = align_up_small(self.header_size, self.align);
        a + h
    }
}

/// Facts about rounding up: the result is a multiple of `a`, at least `x`,
/// and less than `x + a`.
pub proof fn lemma_align_up(x: int, a: int)
    requires
        0 <= x,
        0 < a,
    ensures
        x <= align_up(x, a) < x + a,
        align_up(x, a) % a == 0,
{
    let q = (x + a - 1) / a;
    let r = (x + a - 1) % a;
    vstd::arithmetic::div_mod::lemma_fundamental_div_mod(x + a - 1, a);
    vstd::arithmetic::div_mod::lemma_mod_bound(x + a - 1, a);
    assert(a * q == q * a) by (nonlinear_arith);
    vstd::arithmetic::div_mod::lemma_mod_multiples_basic(q, a);
}

/// Rounds a small size up to a multiple of `a`.
fn align_up_small(x: usize, a: usize) -> (r: usize)
    requires
        x <= 256,
        0 < a <= 64,
    ensures
        r == align_up(x as int, a as int),
        r < x + a,
{
    proof {
        lemma_align_up(x as int, a as int);
    }
    (x + a - 1) / a * a
}

/// Rounds a length read from a control-message header up to a multiple of
/// `a`, without overflow.
pub fn align_up_wide(x: u64, a: usize) -> (r: u128)
    requires
        0 < a <= 64,
    ensures
        r == align_up(x as int, a as int),
        r < x + a,
{
    proof {
        lemma_align_up(x as int, a as int);
    }
    let w: u128 = x as u128;
    let b: u128 = a as u128;
    (w + b - 1) / b * b
}

} // verus!
