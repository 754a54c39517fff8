//! Control messages: the headers of a received control buffer, the walk
//! from one header to the next, and the search for the first usable
//! packet-info message.
//!
//! A control buffer is a sequence of messages, each a header (length,
//! level, type) followed by its payload, the next header starting at the
//! current one plus its length rounded up to the alignment unit. The walk
//! follows the C library's `CMSG_FIRSTHDR` and `CMSG_NXTHDR`.
use vstd::prelude::*;
use crate::platform::{NextHeaderRule, Platform, align_up, align_up_wide, lemma_align_up};

verus! {

/// An IP address as the bytes of its network representation.
#[derive(Clone, Copy, Debug, PartialEq, Eq)]
pub enum IpAddress {
    V4([u8; 4]),
    V6([u8; 16]),
}

/// What a packet-info message reports: the index of the interface that
/// received the datagram and the datagram's destination address.
#[derive(Clone, Copy, Debug, PartialEq, Eq)]
pub struct Destination {
    pub if_index: u64,
    pub addr_dst: IpAddress,
}

/// The two packet-info messages that a receive understands.
#[derive(Clone, Copy, Debug, PartialEq, Eq)]
pub enum PktInfoKind {
    V4,
    V6,
}

/// Little-endian value of the four bytes at `o`.
pub open spec fn u32_le_at(b: Seq<u8>, o: int) -> int {
    b[o] + 256 * b[o + 1] + 65536 * b[o + 2] + 16777216 * b[o + 3]
}

/// Big-endian value of the four bytes at `o`.
pub open spec fn u32_be_at(b: Seq<u8>, o: int) -> int {
    16777216 * b[o] + 65536 * b[o + 1] + 256 * b[o + 2] + b[o + 3]
}

/// A 32-bit pattern read as a C `int` and widened to 64 bits with its sign,
/// as `(x as i32) as u64` does.
pub open spec fn sign_extend_32_64(u: int) -> int {
    if u < 0x8000_0000 {
        u
    } else {
        u + 0xFFFF_FFFF_0000_0000
    }
}

impl Platform {
    /// Unsigned 32-bit value in host byte order at `o`.
    pub open spec fn u32_at(&self, b: Seq<u8>, o: int) -> int {
        if self.little_endian {
            u32_le_at(b, o)
        } else {
            u32_be_at(b, o)
        }
    }

    /// Unsigned 64-bit value in host byte order at `o`.
    pub open spec fn u64_at(&self, b: Seq<u8>, o: int) -> int {
        if self.little_endian {
            u32_le_at(b, o) + 0x1_0000_0000 * u32_le_at(b, o + 4)
        } else {
            0x1_0000_0000 * u32_be_at(b, o) + u32_be_at(b, o + 4)
        }
    }

    /// Signed 32-bit value (a C `int`) in host byte order at `o`.
    pub open spec fn i32_at(&self, b: Seq<u8>, o: int) -> int {
        let u = self.u32_at(b, o);
        if u < 0x8000_0000 {
            u
        } else {
            u - 0x1_0000_0000
        }
    }

    /// The length field of the header at `off`.
    pub open spec fn len_field(&self, b: Seq<u8>, off: int) -> int {
        if self.len_width == 4 {
            self.u32_at(b, off + self.len_offset)
        } else {
            self.u64_at(b, off + self.len_offset)
        }
    }

    /// The level field of the header at `off`.
    pub open spec fn level_field(&self, b: Seq<u8>, off: int) -> int {
        self.i32_at(b, off + self.level_offset)
    }

    /// The type field of the header at `off`.
    pub open spec fn type_field(&self, b: Seq<u8>, off: int) -> int {
        self.i32_at(b, off + self.type_offset)
    }

    /// Offset of the first header (`CMSG_FIRSTHDR`): the start of the
    /// buffer, when the `n` bytes of control data hold a whole header.
    pub open spec fn first_header(&self, n: int) -> Option<int> {
        if n >= self.header_size {
            Some(0)
        } else {
            None
        }
    }

    /// Offset of the header after the one at `off` in control data of `n`
    /// bytes (`CMSG_NXTHDR`, by [`Platform::next_rule`]).
    pub open spec fn next_header(&self, b: Seq<u8>, n: int, off: int) -> Option<int> {
        let len = self.len_field(b, off);
        let next = off + align_up(len, self.align as int);
        match self.next_rule {
            NextHeaderRule::Linux => if len < self.header_size || next + self.header_size > n {
                None
            } else {
                Some(next)
            },
            NextHeaderRule::Musl => if len < self.header_size || next + self.header_size > n - 1 {
                None
            } else {
                Some(next)
            },
            NextHeaderRule::Bsd => if next + self.data_offset > n {
                None
            } else {
                Some(next)
            },
        }
    }

    /// Size of the payload of a packet-info message of kind `k`.
    pub open spec fn payload_size(&self, k: PktInfoKind) -> int {
        match k {
            PktInfoKind::V4 => self.in_pktinfo_size as int,
            PktInfoKind::V6 => self.in6_pktinfo_size as int,
        }
    }

    /// Which packet-info message, if any, the header at `off` announces by
    /// its level and type; the IPv4 pair is tested first.
    pub open spec fn kind_at(&self, b: Seq<u8>, off: int) -> Option<PktInfoKind> {
        if self.level_field(b, off) == self.ipproto_ip && self.type_field(b, off)
            == self.ip_pktinfo {
            Some(PktInfoKind::V4)
        } else if self.level_field(b, off) == self.ipproto_ipv6 && self.type_field(b, off)
            == self.ipv6_pktinfo {
            Some(PktInfoKind::V6)
        } else {
            None
        }
    }

    /// The header at `off` starts a usable packet-info message of the kind
    /// returned: its length covers a header and the whole payload and is no
    /// more than the `n` bytes of control data. The payload is read from the
    /// buffer `b`, so it must lie inside the buffer.
    pub open spec fn usable_at(&self, b: Seq<u8>, n: int, off: int) -> Option<PktInfoKind> {
        match self.kind_at(b, off) {
            Some(k) => {
                let len = self.len_field(b, off);
                let need = self.header_size + self.payload_size(k);
                if need <= len && len <= n && off + self.data_offset + self.payload_size(k)
                    <= b.len() {
                    Some(k)
                } else {
                    None
                }
            },
            None => None,
        }
    }

    /// The first usable packet-info message at or after the header at
    /// `off`, following the chain of headers while it moves forward.
    pub open spec fn find_from(&self, b: Seq<u8>, n: int, off: int) -> Option<(int, PktInfoKind)>
        decreases n - off,
    {
        match self.usable_at(b, n, off) {
            Some(k) => Some((off, k)),
            None => match self.next_header(b, n, off) {
                Some(next) => if off < next <= n {
                    self.find_from(b, n, next)
                } else {
                    None
                },
                None => None,
            },
        }
    }

    /// The first usable packet-info message in the buffer `b` whose first
    /// `n` bytes are control data, with the offset of its header.
    pub open spec fn find_pktinfo(&self, b: Seq<u8>, n: int) -> Option<(int, PktInfoKind)> {
        match self.first_header(n) {
            Some(off) => self.find_from(b, n, off),
            None => None,
        }
    }

    /// Offset of the payload of the message whose header is at `off`.
    pub open spec fn payload_at(&self, off: int) -> int {
        off + self.data_offset
    }

    /// The IPv4 interface index, widened to 64 bits with its sign when the
    /// C library declares it a signed `int`, without otherwise.
    pub open spec fn ipv4_index(&self, raw: int) -> int {
        if self.in_pktinfo_ifindex_signed {
            sign_extend_32_64(raw)
        } else {
            raw
        }
    }

    /// `d` is what the packet-info message of kind `k` at `off` reports:
    /// the interface index widened to 64 bits and the address bytes as they
    /// stand in the payload.
    pub open spec fn describes(&self, b: Seq<u8>, off: int, k: PktInfoKind, d: Destination) -> bool {
        let p = self.payload_at(off);
        match k {
            PktInfoKind::V4 => {
                &&& d.if_index == self.ipv4_index(
                    self.u32_at(b, p + self.in_pktinfo_ifindex_offset),
                )
                &&& d.addr_dst matches IpAddress::V4(a)
                &&& a@ == b.subrange(
                    p + self.in_pktinfo_addr_offset,
                    p + self.in_pktinfo_addr_offset + 4,
                )
            },
            PktInfoKind::V6 => {
                &&& d.if_index == self.u32_at(b, p + self.in6_pktinfo_ifindex_offset)
                &&& d.addr_dst matches IpAddress::V6(a)
                &&& a@ == b.subrange(
                    p + self.in6_pktinfo_addr_offset,
                    p + self.in6_pktinfo_addr_offset + 16,
                )
            },
        }
    }

    /// Reads an unsigned 32-bit value in host byte order.
    fn read_u32(&self, data: &[u8], o: usize) -> (r: u32)
        requires
            o + 4 <= data@.len(),
        ensures
            r == self.u32_at(data@, o as int),
    {
        let b0 = data[o] as u32;
        let b1 = data[o + 1] as u32;
        let b2 = data[o + 2] as u32;
        let b3 = data[o + 3] as u32;
        if self.little_endian {
            b0 + 256 * b1 + 65536 * b2 + 16777216 * b3
        } else {
            16777216 * b0 + 65536 * b1 + 256 * b2 + b3
        }
    }

    /// Reads a signed 32-bit value (a C `int`) in host byte order.
    fn read_i32(&self, data: &[u8], o: usize) -> (r: i32)
        requires
            o + 4 <= data@.len(),
        ensures
            r == self.i32_at(data@, o as int),
    {
        let u = self.read_u32(data, o);
        if u < 0x8000_0000 {
            u as i32
        } else {
            let low = (u - 0x8000_0000) as i32;
            low - 0x4000_0000 - 0x4000_0000
        }
    }

    /// Reads the length field of the header at `off`.
    fn read_len(&self, data: &[u8], off: usize) -> (r: u64)
        requires
            self.wf(),
            off + self.header_size <= data@.len(),
        ensures
            r == self.len_field(data@, off as int),
    {
        let _n = data.len();
        let o = off + self.len_offset;
        if self.len_width == 4 {
            self.read_u32(data, o) as u64
        } else {
            let first = self.read_u32(data, o) as u64;
            let second = self.read_u32(data, o + 4) as u64;
            if self.little_endian {
                first + 0x1_0000_0000 * second
            } else {
                0x1_0000_0000 * first + second
            }
        }
    }

    /// The header after the one at `off` in control data of `n` bytes, as
    /// `CMSG_NXTHDR` finds it.
    pub fn next_header_exec(&self, data: &[u8], n: usize, off: usize) -> (r: Option<usize>)
        requires
            self.wf(),
            off + self.header_size <= n <= data@.len(),
        ensures
            r == (match self.next_header(data@, n as int, off as int) {
                Some(next) => Some(next as usize),
                None => None::<usize>,
            }),
            r matches Some(next) ==> next == self.next_header(data@, n as int, off as int)->0,
            r matches Some(next) ==> crate::laws::rounds_up(
                self.len_field(data@, off as int),
                self.align as int,
                next - off,
            ),
    {
        proof {
            crate::laws::lemma_next_header_step(*self, data@, n as int, off as int);
        }
        let len = self.read_len(data, off);
        let step = align_up_wide(len, self.align);
        let next: u128 = off as u128 + step;
        let stop = match self.next_rule {
            NextHeaderRule::Linux => len < self.header_size as u64 || next
                + self.header_size as u128 > n as u128,
            NextHeaderRule::Musl => len < self.header_size as u64 || next
                + self.header_size as u128 > n as u128 - 1,
            NextHeaderRule::Bsd => next + self.data_offset as u128 > n as u128,
        };
        if stop {
            None
        } else {
            Some(next as usize)
        }
    }

    /// The packet-info message that the header at `off` starts, if it is
    /// usable.
    fn usable_at_exec(&self, data: &[u8], n: usize, off: usize) -> (r: Option<PktInfoKind>)
        requires
            self.wf(),
            off + self.header_size <= n <= data@.len(),
        ensures
            r == self.usable_at(data@, n as int, off as int),
    {
        let level = self.read_i32(data, off + self.level_offset);
        let ty = self.read_i32(data, off + self.type_offset);
        let kind = if level == self.ipproto_ip && ty == self.ip_pktinfo {
            PktInfoKind::V4
        } else if level == self.ipproto_ipv6 && ty == self.ipv6_pktinfo {
            PktInfoKind::V6
        } else {
            return None;
        };
        let payload = match kind {
            PktInfoKind::V4 => self.in_pktinfo_size,
            PktInfoKind::V6 => self.in6_pktinfo_size,
        };
        let need = self.header_size + payload;
        let len = self.read_len(data, off);
        if need as u64 <= len && len <= n as u64 && self.data_offset + payload <= data.len() - off {
            Some(kind)
        } else {
            None
        }
    }

    /// Reads what the usable packet-info message at `off` reports.
    fn read_destination(&self, data: &[u8], n: usize, off: usize, k: PktInfoKind) -> (d: Destination)
        requires
            self.wf(),
            self.usable_at(data@, n as int, off as int) == Some(k),
            off <= n <= data@.len(),
        ensures
            self.describes(data@, off as int, k, d),
    {
        let _len = data.len();
        let p = off + self.data_offset;
        match k {
            PktInfoKind::V4 => {
                let raw = self.read_u32(data, p + self.in_pktinfo_ifindex_offset);
                let if_index = if self.in_pktinfo_ifindex_signed && raw >= 0x8000_0000 {
                    raw as u64 + 0xFFFF_FFFF_0000_0000
                } else {
                    raw as u64
                };
                let a = p + self.in_pktinfo_addr_offset;
                let octets = [data[a], data[a + 1], data[a + 2], data[a + 3]];
                assert(octets@ =~= data@.subrange(a as int, a + 4));
                Destination { if_index, addr_dst: IpAddress::V4(octets) }
            },
            PktInfoKind::V6 => {
                let if_index = self.read_u32(data, p + self.in6_pktinfo_ifindex_offset) as u64;
                let a = p + self.in6_pktinfo_addr_offset;
                let octets = [
                    data[a],
                    data[a + 1],
                    data[a + 2],
                    data[a + 3],
                    data[a + 4],
                    data[a + 5],
                    data[a + 6],
                    data[a + 7],
                    data[a + 8],
                    data[a + 9],
                    data[a + 10],
                    data[a + 11],
                    data[a + 12],
                    data[a + 13],
                    data[a + 14],
                    data[a + 15],
                ];
                assert(octets@ =~= data@.subrange(a as int, a + 16));
                Destination { if_index, addr_dst: IpAddress::V6(octets) }
            },
        }
    }

    /// Searches the buffer `control`, whose first `controllen` bytes the
    /// kernel filled with control data, for the first usable packet-info
    /// message and reads it.
    pub fn parse_control(&self, control: &[u8], controllen: usize) -> (r: Option<Destination>)
        requires
            self.wf(),
            controllen <= control@.len(),
        ensures
            match self.find_pktinfo(control@, controllen as int) {
                None => r is None,
                Some((off, k)) => r matches Some(d) && self.describes(control@, off, k, d),
            },
            self.find_pktinfo(control@, controllen as int) matches Some((off, k)) ==> r matches Some(
                d,
            ) && crate::laws::reports_payload(*self, control@, off, k, d),
    {
        let n = controllen;
        if n < self.header_size {
            return None;
        }
        let mut off: usize = 0;
        loop
            invariant
                self.wf(),
                n == controllen,
                n <= control@.len(),
                off + self.header_size <= n,
                self.find_pktinfo(control@, n as int) == self.find_from(control@, n as int, off as int),
            decreases n - off,
        {
            if let Some(k) = self.usable_at_exec(control, n, off) {
                let d = self.read_destination(control, n, off, k);
                proof {
                    crate::laws::lemma_destination_from_payload_bytes(*self, control@, off as int, k, d);
                }
                return Some(d);
            }
            match self.next_header_exec(control, n, off) {
                Some(next) => {
                    proof {
                        lemma_next_header_advances(*self, control@, n as int, off as int);
                    }
                    if next <= off {
                        return None;
                    }
                    off = next;
                },
                None => {
                    return None;
                },
            }
        }
    }
}

/// The walk stays inside the control data: a next header lies at or after
/// the current one and holds a whole header inside the data; under the
/// glibc and musl rules it lies at least one header further on.
pub proof fn lemma_next_header_advances(p: Platform, b: Seq<u8>, n: int, off: int)
    requires
        p.wf(),
        0 <= off,
        p.next_header(b, n, off) is Some,
    ensures
        off <= p.next_header(b, n, off)->0,
        p.next_header(b, n, off)->0 + p.header_size <= n,
        p.next_rule != NextHeaderRule::Bsd ==> off + p.header_size <= p.next_header(b, n, off)->0,
{
    let len = p.len_field(b, off);
    if p.len_width == 4 {
        assert(0 <= p.u32_at(b, off + p.len_offset));
    } else {
        assert(0 <= p.u64_at(b, off + p.len_offset));
    }
    lemma_align_up(len, p.align as int);
}

} // verus!
