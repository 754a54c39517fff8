//! Properties of the control-message walk and of a receive, stated from
//! first principles: the value of a field from its bytes in host order,
//! the step from one header to the next from the alignment unit, and what a
//! receive returns from the bytes of the message it reports.
use vstd::prelude::*;
use crate::cmsg::{Destination, IpAddress, PktInfoKind};
use crate::error::PktInfoError;
use crate::platform::{NextHeaderRule, Platform, align_up, lemma_align_up};
use crate::recv::{PktInfo, SocketAddress};

verus! {

/// Value of a byte string read least significant byte first.
pub open spec fn le_value(s: Seq<u8>) -> int
    decreases s.len(),
{
    if s.len() == 0 {
        0
    } else {
        s[0] + 256 * le_value(s.drop_first())
    }
}

/// Value of a byte string read most significant byte first.
pub open spec fn be_value(s: Seq<u8>) -> int
    decreases s.len(),
{
    if s.len() == 0 {
        0
    } else {
        256 * be_value(s.drop_last()) + s.last()
    }
}

impl Platform {
    /// The unsigned integer that the `w` bytes at `o` hold in host byte
    /// order.
    pub open spec fn host_uint(&self, b: Seq<u8>, o: int, w: int) -> int {
        if self.little_endian {
            le_value(b.subrange(o, o + w))
        } else {
            be_value(b.subrange(o, o + w))
        }
    }

    /// The C `int` that the four bytes at `o` hold in host byte order.
    pub open spec fn host_int32(&self, b: Seq<u8>, o: int) -> int {
        let u = self.host_uint(b, o, 4);
        if u >= 0x8000_0000 {
            u - 0x1_0000_0000
        } else {
            u
        }
    }
}

proof fn lemma_le4(s: Seq<u8>)
    requires
        s.len() == 4,
    ensures
        le_value(s) == s[0] + 256 * s[1] + 65536 * s[2] + 16777216 * s[3],
{
    reveal_with_fuel(le_value, 5);
    assert(s.drop_first().drop_first().drop_first().drop_first().len() == 0);
}

proof fn lemma_be4(s: Seq<u8>)
    requires
        s.len() == 4,
    ensures
        be_value(s) == 16777216 * s[0] + 65536 * s[1] + 256 * s[2] + s[3],
{
    reveal_with_fuel(be_value, 5);
    assert(s.drop_last().drop_last().drop_last().drop_last().len() == 0);
}

proof fn lemma_le8(s: Seq<u8>)
    requires
        s.len() == 8,
    ensures
        le_value(s) == le_value(s.subrange(0, 4)) + 0x1_0000_0000 * le_value(s.subrange(4, 8)),
{
    reveal_with_fuel(le_value, 9);
    lemma_le4(s.subrange(0, 4));
    lemma_le4(s.subrange(4, 8));
    assert(s.drop_first().drop_first().drop_first().drop_first().drop_first().drop_first().drop_first().drop_first().len() == 0);
}

proof fn lemma_be8(s: Seq<u8>)
    requires
        s.len() == 8,
    ensures
        be_value(s) == 0x1_0000_0000 * be_value(s.subrange(0, 4)) + be_value(s.subrange(4, 8)),
{
    reveal_with_fuel(be_value, 9);
    lemma_be4(s.subrange(0, 4));
    lemma_be4(s.subrange(4, 8));
    assert(s.drop_last().drop_last().drop_last().drop_last().drop_last().drop_last().drop_last().drop_last().len() == 0);
}

/// The four bytes at `o` hold, in host byte order, the unsigned value that
/// the walk reads there.
pub proof fn lemma_u32_is_host_order(p: Platform, b: Seq<u8>, o: int)
    requires
        0 <= o,
        o + 4 <= b.len(),
    ensures
        p.u32_at(b, o) == p.host_uint(b, o, 4),
{
    let s = b.subrange(o, o + 4);
    lemma_le4(s);
    lemma_be4(s);
}

/// The fields of a header are the integers that their bytes hold in host
/// byte order: the length as an unsigned integer of its width, the level
/// and type as C `int`s.
pub proof fn lemma_header_fields_are_host_order(p: Platform, b: Seq<u8>, off: int)
    requires
        p.wf(),
        0 <= off,
        off + p.header_size <= b.len(),
    ensures
        p.len_field(b, off) == p.host_uint(b, off + p.len_offset, p.len_width as int),
        p.level_field(b, off) == p.host_int32(b, off + p.level_offset),
        p.type_field(b, off) == p.host_int32(b, off + p.type_offset),
{
    let o = off + p.len_offset;
    lemma_u32_is_host_order(p, b, off + p.level_offset);
    lemma_u32_is_host_order(p, b, off + p.type_offset);
    if p.len_width == 4 {
        lemma_u32_is_host_order(p, b, o);
    } else {
        let s = b.subrange(o, o + 8);
        lemma_le8(s);
        lemma_be8(s);
        assert(s.subrange(0, 4) =~= b.subrange(o, o + 4));
        assert(s.subrange(4, 8) =~= b.subrange(o + 4, o + 8));
        lemma_le4(s.subrange(0, 4));
        lemma_le4(s.subrange(4, 8));
        lemma_be4(s.subrange(0, 4));
        lemma_be4(s.subrange(4, 8));
    }
}

/// `m` is `len` rounded up to a multiple of `a`: the multiple of `a` that
/// is at least `len` and less than `len + a`.
pub open spec fn rounds_up(len: int, a: int, m: int) -> bool {
    m % a == 0 && len <= m < len + a
}

/// Two multiples of `a` less than `a` apart are equal.
proof fn lemma_close_multiples_equal(m1: int, m2: int, a: int)
    requires
        a > 0,
        m1 % a == 0,
        m2 % a == 0,
        m1 - a < m2 < m1 + a,
    ensures
        m1 == m2,
{
    vstd::arithmetic::div_mod::lemma_fundamental_div_mod(m1, a);
    vstd::arithmetic::div_mod::lemma_fundamental_div_mod(m2, a);
    let q1 = m1 / a;
    let q2 = m2 / a;
    assert(q1 == q2) by (nonlinear_arith)
        requires
            a > 0,
            m1 == a * q1,
            m2 == a * q2,
            m1 - a < m2 < m1 + a,
    ;
}

/// The header after the one at `off` lies at `off` plus the current
/// length rounded up to the alignment unit, and it exists exactly when the
/// rule's conditions hold for that step: under glibc a length of at least
/// a header and a next header that ends within the data; under musl the
/// same with the next header ending before the last byte; under the BSD
/// rule a next header that, up to its payload, ends within the data.
pub proof fn lemma_next_header_step(p: Platform, b: Seq<u8>, n: int, off: int)
    requires
        p.wf(),
        0 <= off,
        off + p.header_size <= b.len(),
    ensures
        p.next_header(b, n, off) matches Some(nx) ==> rounds_up(
            p.len_field(b, off),
            p.align as int,
            nx - off,
        ),
        forall|m: int|
            #[trigger] rounds_up(p.len_field(b, off), p.align as int, m) ==> p.next_header(b, n, off)
                == (if (match p.next_rule {
                NextHeaderRule::Linux => p.len_field(b, off) >= p.header_size && off + m
                    + p.header_size <= n,
                NextHeaderRule::Musl => p.len_field(b, off) >= p.header_size && off + m
                    + p.header_size < n,
                NextHeaderRule::Bsd => off + m + p.data_offset <= n,
            }) {
                Some(off + m)
            } else {
                None
            }),
{
    let len = p.len_field(b, off);
    let a = p.align as int;
    lemma_header_fields_are_host_order(p, b, off);
    if p.len_width == 4 {
        assert(0 <= p.u32_at(b, off + p.len_offset));
    } else {
        assert(0 <= p.u64_at(b, off + p.len_offset));
    }
    lemma_align_up(len, a);
    assert forall|m: int| #[trigger] rounds_up(len, a, m) implies m == align_up(len, a) by {
        lemma_close_multiples_equal(m, align_up(len, a), a);
    }
}

/// What a packet-info message reports is read from its payload: the
/// destination is the payload's address bytes, byte for byte, and the
/// interface index is the host-order value of its four bytes, widened with
/// sign only when the IPv4 index is a signed `int`.
pub open spec fn reports_payload(p: Platform, b: Seq<u8>, off: int, k: PktInfoKind, d: Destination) -> bool {
    let q = off + p.data_offset;
    match k {
        PktInfoKind::V4 => {
            let u = p.host_uint(b, q + p.in_pktinfo_ifindex_offset, 4);
            &&& d.if_index == (if p.in_pktinfo_ifindex_signed && u >= 0x8000_0000 {
                u + 0xFFFF_FFFF_0000_0000
            } else {
                u
            })
            &&& d.addr_dst matches IpAddress::V4(a)
            &&& forall|i: int| 0 <= i < 4 ==> a@[i] == b[q + p.in_pktinfo_addr_offset + i]
        },
        PktInfoKind::V6 => {
            &&& d.if_index == p.host_uint(b, q + p.in6_pktinfo_ifindex_offset, 4)
            &&& d.addr_dst matches IpAddress::V6(a)
            &&& forall|i: int| 0 <= i < 16 ==> a@[i] == b[q + p.in6_pktinfo_addr_offset + i]
        },
    }
}

/// A destination that a message describes is the one its payload bytes
/// hold (see [`reports_payload`]).
pub proof fn lemma_destination_from_payload_bytes(
    p: Platform,
    b: Seq<u8>,
    off: int,
    k: PktInfoKind,
    d: Destination,
)
    requires
        p.wf(),
        0 <= off,
        off + p.data_offset + p.payload_size(k) <= b.len(),
        p.describes(b, off, k, d),
    ensures
        reports_payload(p, b, off, k, d),
{
    let q = off + p.data_offset;
    match k {
        PktInfoKind::V4 => {
            lemma_u32_is_host_order(p, b, q + p.in_pktinfo_ifindex_offset);
        },
        PktInfoKind::V6 => {
            lemma_u32_is_host_order(p, b, q + p.in6_pktinfo_ifindex_offset);
        },
    }
}

/// What a blocking receive returns: an error for control data longer
/// than the buffer, and only then; otherwise success exactly when the
/// control data holds a usable packet-info message, and then the byte count
/// and sender as received and the destination from that message's payload;
/// the only other error is that no such message came.
pub proof fn lemma_recv_outcomes(
    p: Platform,
    received: usize,
    addr_src: SocketAddress,
    control: Seq<u8>,
    controllen: int,
    r: Result<(usize, PktInfo), PktInfoError>,
)
    requires
        p.wf(),
        0 <= controllen,
        p.recv_result(received, addr_src, control, controllen, r),
    ensures
        (r == Err::<(usize, PktInfo), PktInfoError>(PktInfoError::ControlTooLong)) <==> controllen > control.len(),
        r matches Ok((count, info)) ==> count == received && info.addr_src == addr_src,
        r is Err ==> r == Err::<(usize, PktInfo), PktInfoError>(PktInfoError::ControlTooLong) || r == Err::<(usize, PktInfo), PktInfoError>(PktInfoError::NotFound),
        controllen <= control.len() ==> (r is Ok <==> p.find_pktinfo(control, controllen) is Some),
        controllen <= control.len() ==> (p.find_pktinfo(control, controllen) matches Some((off, k))
            ==> r matches Ok((_, info)) && reports_payload(
            p,
            control,
            off,
            k,
            Destination { if_index: info.if_index, addr_dst: info.addr_dst },
        )),
{
    if controllen <= control.len() {
        if let Some((off, k)) = p.find_pktinfo(control, controllen) {
            crate::recv::lemma_found_message_in_bounds(p, control, controllen);
            let info = r->Ok_0.1;
            lemma_destination_from_payload_bytes(
                p,
                control,
                off,
                k,
                Destination { if_index: info.if_index, addr_dst: info.addr_dst },
            );
        }
    }
}

/// What a non-blocking receive returns: an error for a sender that is not
/// an IP socket address; then, in this order, an error for control data
/// longer than the buffer (and only then), for truncated control data, for
/// a truncated datagram; otherwise what a blocking receive returns. On
/// success the byte count and sender are the ones received.
pub proof fn lemma_try_recv_outcomes(
    p: Platform,
    received: usize,
    addr_src: Option<SocketAddress>,
    control: Seq<u8>,
    controllen: int,
    flags: i32,
    r: Result<(usize, PktInfo), PktInfoError>,
)
    requires
        p.wf(),
        0 <= controllen,
        p.try_recv_result(received, addr_src, control, controllen, flags, r),
    ensures
        addr_src is None ==> r == Err::<(usize, PktInfo), PktInfoError>(PktInfoError::InvalidSourceAddress),
        addr_src is Some ==> ((r == Err::<(usize, PktInfo), PktInfoError>(PktInfoError::ControlTooLong)) <==> controllen
            > control.len()),
        r matches Ok((count, info)) ==> count == received && addr_src == Some(info.addr_src),
        addr_src is Some && controllen <= control.len() && flags & p.msg_ctrunc != 0 ==> r
            == Err::<(usize, PktInfo), PktInfoError>(PktInfoError::ControlTruncated),
        addr_src is Some && controllen <= control.len() && flags & p.msg_ctrunc == 0 && flags
            & p.msg_trunc != 0 ==> r == Err::<(usize, PktInfo), PktInfoError>(PktInfoError::PayloadTruncated),
        addr_src is Some && controllen <= control.len() && flags & p.msg_ctrunc == 0 && flags
            & p.msg_trunc == 0 ==> (r is Ok <==> p.find_pktinfo(control, controllen) is Some),
{
    if let Some(a) = addr_src {
        if controllen <= control.len() && flags & p.msg_ctrunc == 0 && flags & p.msg_trunc == 0 {
            lemma_recv_outcomes(p, received, a, control, controllen, r);
        }
    }
}

/// A message that the walk reports is a packet-info message of its kind:
/// its header lies in the control data, its level and type (read in host
/// order) are the pair of its kind, its length (in host order) covers a
/// header and the payload and is no more than the control data, and its
/// payload lies in the buffer.
pub proof fn lemma_found_message_is_pktinfo(p: Platform, b: Seq<u8>, n: int)
    requires
        p.wf(),
        0 <= n <= b.len(),
        p.find_pktinfo(b, n) is Some,
    ensures
        ({
            let (off, k) = p.find_pktinfo(b, n)->0;
            let level = p.host_int32(b, off + p.level_offset);
            let ty = p.host_int32(b, off + p.type_offset);
            let len = p.host_uint(b, off + p.len_offset, p.len_width as int);
            &&& 0 <= off
            &&& off + p.header_size <= n
            &&& k == PktInfoKind::V4 ==> level == p.ipproto_ip && ty == p.ip_pktinfo
            &&& k == PktInfoKind::V6 ==> level == p.ipproto_ipv6 && ty == p.ipv6_pktinfo && !(level
                == p.ipproto_ip && ty == p.ip_pktinfo)
            &&& p.header_size + p.payload_size(k) <= len <= n
            &&& off + p.data_offset + p.payload_size(k) <= b.len()
        }),
{
    crate::recv::lemma_found_message_in_bounds(p, b, n);
    let (off, k) = p.find_pktinfo(b, n)->0;
    lemma_header_fields_are_host_order(p, b, off);
}

/// A packet-info message whose header starts the control data is the one
/// reported: when the level and type (in host order) are a packet-info
/// pair, the length (in host order) covers a header and the payload and is
/// no more than the control data, and the payload lies in the buffer.
pub proof fn lemma_leading_pktinfo_found(p: Platform, b: Seq<u8>, n: int)
    requires
        p.wf(),
        p.header_size <= n <= b.len(),
    ensures
        ({
            let level = p.host_int32(b, p.level_offset as int);
            let ty = p.host_int32(b, p.type_offset as int);
            let len = p.host_uint(b, p.len_offset as int, p.len_width as int);
            &&& (level == p.ipproto_ip && ty == p.ip_pktinfo && p.header_size + p.in_pktinfo_size
                <= len <= n && p.data_offset + p.in_pktinfo_size <= b.len()) ==> p.find_pktinfo(
                b,
                n,
            ) == Some((0int, PktInfoKind::V4))
            &&& (!(level == p.ipproto_ip && ty == p.ip_pktinfo) && level == p.ipproto_ipv6 && ty
                == p.ipv6_pktinfo && p.header_size + p.in6_pktinfo_size <= len <= n
                && p.data_offset + p.in6_pktinfo_size <= b.len()) ==> p.find_pktinfo(b, n) == Some(
                (0int, PktInfoKind::V6),
            )
        }),
{
    lemma_header_fields_are_host_order(p, b, 0);
}

} // verus!
