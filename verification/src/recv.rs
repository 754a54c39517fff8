//! Completing a receive: what a socket returns once `recvmsg` has filled
//! the datagram buffer, the sender's address and the control buffer.
use vstd::prelude::*;
use crate::cmsg::{Destination, IpAddress, PktInfoKind};
use crate::error::PktInfoError;
use crate::platform::{NextHeaderRule, Platform, lemma_align_up};

verus! {

/// A socket address as plain values: the address bytes in network order
/// and the port in host order.
#[derive(Clone, Copy, Debug, PartialEq, Eq)]
pub enum SocketAddress {
    V4 { ip: [u8; 4], port: u16 },
    V6 { ip: [u8; 16], port: u16, flowinfo: u32, scope_id: u32 },
}

/// What a receive reports about a datagram: the receiving interface, the
/// sender and the address the datagram was sent to.
#[derive(Clone, Copy, Debug, PartialEq, Eq)]
pub struct PktInfo {
    pub if_index: u64,
    pub addr_src: SocketAddress,
    pub addr_dst: IpAddress,
}

impl Platform {
    /// What a blocking receive returns once `recvmsg` has received
    /// `received` bytes from `addr_src` and reported `controllen` bytes of
    /// control data in the buffer `control`: an error when the reported
    /// length exceeds the buffer; else the first usable packet-info message
    /// of the control data, and an error when there is none.
    pub open spec fn recv_result(
        &self,
        received: usize,
        addr_src: SocketAddress,
        control: Seq<u8>,
        controllen: int,
        r: Result<(usize, PktInfo), PktInfoError>,
    ) -> bool {
        if controllen > control.len() {
            r == Err::<(usize, PktInfo), PktInfoError>(PktInfoError::ControlTooLong)
        } else {
            match self.find_pktinfo(control, controllen) {
                None => r == Err::<(usize, PktInfo), PktInfoError>(PktInfoError::NotFound),
                Some((off, k)) => r matches Ok((n, info)) && n == received && info.addr_src
                    == addr_src && self.describes(
                    control,
                    off,
                    k,
                    Destination { if_index: info.if_index, addr_dst: info.addr_dst },
                ),
            }
        }
    }

    /// What a non-blocking receive returns: an error for a sender whose
    /// address is not an IP socket address; then an error when the control
    /// data is longer than the buffer, was truncated, or the datagram was
    /// truncated, in that order; else the same as a blocking receive.
    pub open spec fn try_recv_result(
        &self,
        received: usize,
        addr_src: Option<SocketAddress>,
        control: Seq<u8>,
        controllen: int,
        flags: i32,
        r: Result<(usize, PktInfo), PktInfoError>,
    ) -> bool {
        match addr_src {
            None => r == Err::<(usize, PktInfo), PktInfoError>(PktInfoError::InvalidSourceAddress),
            Some(a) => if controllen > control.len() {
                r == Err::<(usize, PktInfo), PktInfoError>(PktInfoError::ControlTooLong)
            } else if flags & self.msg_ctrunc != 0 {
                r == Err::<(usize, PktInfo), PktInfoError>(PktInfoError::ControlTruncated)
            } else if flags & self.msg_trunc != 0 {
                r == Err::<(usize, PktInfo), PktInfoError>(PktInfoError::PayloadTruncated)
            } else {
                self.recv_result(received, a, control, controllen, r)
            },
        }
    }

    /// Finishes a blocking receive (see [`Platform::recv_result`]).
    /// Control data that fits the buffer and is not empty but shorter than
    /// one header is left out: there a blocking receive panics.
    pub fn complete_recv(
        &self,
        received: usize,
        addr_src: SocketAddress,
        control: &[u8],
        controllen: usize,
    ) -> (r: Result<(usize, PktInfo), PktInfoError>)
        requires
            self.wf(),
            !(controllen <= control@.len() && 0 < controllen < self.header_size),
        ensures
            self.recv_result(received, addr_src, control@, controllen as int, r),
            (r == Err::<(usize, PktInfo), PktInfoError>(PktInfoError::ControlTooLong)) <==> controllen > control@.len(),
            r matches Ok((count, info)) ==> count == received && info.addr_src == addr_src,
            r is Err ==> r == Err::<(usize, PktInfo), PktInfoError>(PktInfoError::ControlTooLong) || r == Err::<(usize, PktInfo), PktInfoError>(
                PktInfoError::NotFound,
            ),
            controllen <= control@.len() ==> (r is Ok <==> self.find_pktinfo(
                control@,
                controllen as int,
            ) is Some),
            controllen <= control@.len() ==> (self.find_pktinfo(control@, controllen as int) matches Some(
                (off, k),
            ) ==> r matches Ok((_, info)) && crate::laws::reports_payload(
                *self,
                control@,
                off,
                k,
                Destination { if_index: info.if_index, addr_dst: info.addr_dst },
            )),
    {
        if controllen > control.len() {
            return Err(PktInfoError::ControlTooLong);
        }
        match self.parse_control(control, controllen) {
            Some(d) => Ok((received, PktInfo { if_index: d.if_index, addr_src, addr_dst: d.addr_dst })),
            None => Err(PktInfoError::NotFound),
        }
    }

    /// Finishes a non-blocking receive (see [`Platform::try_recv_result`]);
    /// `flags` are the message flags that `recvmsg` returned.
    pub fn complete_try_recv(
        &self,
        received: usize,
        addr_src: Option<SocketAddress>,
        control: &[u8],
        controllen: usize,
        flags: i32,
    ) -> (r: Result<(usize, PktInfo), PktInfoError>)
        requires
            self.wf(),
        ensures
            self.try_recv_result(received, addr_src, control@, controllen as int, flags, r),
            addr_src is None ==> r == Err::<(usize, PktInfo), PktInfoError>(PktInfoError::InvalidSourceAddress),
            addr_src is Some ==> ((r == Err::<(usize, PktInfo), PktInfoError>(PktInfoError::ControlTooLong)) <==> controllen
                > control@.len()),
            r matches Ok((count, info)) ==> count == received && addr_src == Some(info.addr_src),
            addr_src is Some && controllen <= control@.len() && flags & self.msg_ctrunc != 0
                ==> r == Err::<(usize, PktInfo), PktInfoError>(PktInfoError::ControlTruncated),
            addr_src is Some && controllen <= control@.len() && flags & self.msg_ctrunc == 0
                && flags & self.msg_trunc != 0 ==> r == Err::<(usize, PktInfo), PktInfoError>(PktInfoError::PayloadTruncated),
            addr_src is Some && controllen <= control@.len() && flags & self.msg_ctrunc == 0
                && flags & self.msg_trunc == 0 ==> (r is Ok <==> self.find_pktinfo(
                control@,
                controllen as int,
            ) is Some),
            addr_src is Some && controllen <= control@.len() && flags & self.msg_ctrunc == 0
                && flags & self.msg_trunc == 0 ==> (self.find_pktinfo(
                control@,
                controllen as int,
            ) matches Some((off, k)) ==> r matches Ok((_, info)) && crate::laws::reports_payload(
                *self,
                control@,
                off,
                k,
                Destination { if_index: info.if_index, addr_dst: info.addr_dst },
            )),
    {
        let addr = match addr_src {
            Some(a) => a,
            None => return Err(PktInfoError::InvalidSourceAddress),
        };
        if controllen > control.len() {
            return Err(PktInfoError::ControlTooLong);
        }
        if flags & self.msg_ctrunc != 0 {
            return Err(PktInfoError::ControlTruncated);
        }
        if flags & self.msg_trunc != 0 {
            return Err(PktInfoError::PayloadTruncated);
        }
        match self.parse_control(control, controllen) {
            Some(d) => Ok((received, PktInfo { if_index: d.if_index, addr_src: addr, addr_dst: d.addr_dst })),
            None => Err(PktInfoError::NotFound),
        }
    }
}

/// What an asynchronous receive does after one attempt.
#[derive(Clone, Copy, Debug, PartialEq, Eq)]
pub enum RecvStep<T> {
    /// Wait until the socket is readable again and make another attempt.
    Retry,
    /// Hand the outcome to the caller.
    Return(T),
}

/// The decision of an asynchronous receive after one attempt: it tries
/// again exactly when the attempt failed with an error of the "would
/// block" kind (`would_block` tells whether an error is of that kind), and
/// otherwise returns the outcome as it is, success or error.
pub fn recv_step<T, E>(outcome: Result<T, E>, would_block: bool) -> (r: RecvStep<Result<T, E>>)
    ensures
        (r is Retry) <==> (outcome is Err && would_block),
        !(outcome is Err && would_block) ==> r == RecvStep::Return(outcome),
{
    match outcome {
        Err(e) => if would_block {
            RecvStep::Retry
        } else {
            RecvStep::Return(Err(e))
        },
        Ok(v) => RecvStep::Return(Ok(v)),
    }
}

/// When the sender's address is an IP socket address and `recvmsg` set
/// neither truncation flag, a non-blocking receive returns exactly what a
/// blocking one returns.
pub proof fn lemma_try_recv_agrees_with_recv(
    p: Platform,
    received: usize,
    addr_src: SocketAddress,
    control: Seq<u8>,
    controllen: int,
    flags: i32,
    r: Result<(usize, PktInfo), PktInfoError>,
)
    requires
        p.wf(),
        flags & p.msg_ctrunc == 0,
        flags & p.msg_trunc == 0,
    ensures
        p.try_recv_result(received, Some(addr_src), control, controllen, flags, r)
            == p.recv_result(received, addr_src, control, controllen, r),
{
}

/// Which message a receive reports depends only on the control data that
/// the kernel reported: two buffers of the same size that agree on their
/// first `controllen` bytes lead to the same message.
pub proof fn lemma_reported_message_depends_only_on_control_data(
    p: Platform,
    c1: Seq<u8>,
    c2: Seq<u8>,
    controllen: int,
)
    requires
        p.wf(),
        c1.len() == c2.len(),
        0 <= controllen <= c1.len(),
        c1.subrange(0, controllen) == c2.subrange(0, controllen),
    ensures
        p.find_pktinfo(c1, controllen) == p.find_pktinfo(c2, controllen),
{
    if controllen >= p.header_size {
        lemma_find_from_same_data(p, c1, c2, controllen, 0);
    }
}

/// Two buffers that agree on the control data agree on each field of a
/// header that lies inside it.
proof fn lemma_header_fields_same(p: Platform, c1: Seq<u8>, c2: Seq<u8>, n: int, off: int)
    requires
        p.wf(),
        c1.len() == c2.len(),
        0 <= off,
        off + p.header_size <= n <= c1.len(),
        c1.subrange(0, n) == c2.subrange(0, n),
    ensures
        p.len_field(c1, off) == p.len_field(c2, off),
        p.level_field(c1, off) == p.level_field(c2, off),
        p.type_field(c1, off) == p.type_field(c2, off),
{
    assert forall|i: int| off <= i < off + p.header_size implies c1[i] == c2[i] by {
        assert(c1.subrange(0, n)[i] == c1[i]);
        assert(c2.subrange(0, n)[i] == c2[i]);
    }
}

/// The search from a header inside the control data goes the same way in
/// two buffers that agree on the control data.
proof fn lemma_find_from_same_data(p: Platform, c1: Seq<u8>, c2: Seq<u8>, n: int, off: int)
    requires
        p.wf(),
        c1.len() == c2.len(),
        0 <= off,
        off + p.header_size <= n <= c1.len(),
        c1.subrange(0, n) == c2.subrange(0, n),
    ensures
        p.find_from(c1, n, off) == p.find_from(c2, n, off),
    decreases n - off,
{
    lemma_header_fields_same(p, c1, c2, n, off);
    assert(p.usable_at(c1, n, off) == p.usable_at(c2, n, off));
    assert(p.next_header(c1, n, off) == p.next_header(c2, n, off));
    if p.usable_at(c1, n, off) is None {
        if let Some(next) = p.next_header(c1, n, off) {
            crate::cmsg::lemma_next_header_advances(p, c1, n, off);
            if off < next {
                lemma_find_from_same_data(p, c1, c2, n, next);
            }
        }
    }
}

/// When the reported message lies inside the control data, a receive
/// reads only the control data: two buffers of the same size that agree on
/// their first `controllen` bytes give the same result.
pub proof fn lemma_recv_reads_only_control_data(
    p: Platform,
    received: usize,
    addr_src: SocketAddress,
    c1: Seq<u8>,
    c2: Seq<u8>,
    controllen: int,
    r: Result<(usize, PktInfo), PktInfoError>,
)
    requires
        p.wf(),
        c1.len() == c2.len(),
        0 <= controllen <= c1.len(),
        c1.subrange(0, controllen) == c2.subrange(0, controllen),
        p.find_pktinfo(c1, controllen) matches Some((off, k)) ==> off + p.data_offset
            + p.payload_size(k) <= controllen,
    ensures
        p.recv_result(received, addr_src, c1, controllen, r) == p.recv_result(
            received,
            addr_src,
            c2,
            controllen,
            r,
        ),
{
    lemma_reported_message_depends_only_on_control_data(p, c1, c2, controllen);
    if let Some((off, k)) = p.find_pktinfo(c1, controllen) {
        let q = off + p.data_offset;
        crate::recv::lemma_found_message_in_bounds(p, c1, controllen);
        assert forall|i: int| q <= i < q + p.payload_size(k) implies c1[i] == c2[i] by {
            assert(c1.subrange(0, controllen)[i] == c1[i]);
            assert(c2.subrange(0, controllen)[i] == c2[i]);
        }
        match k {
            PktInfoKind::V4 => {
                let a = q + p.in_pktinfo_addr_offset;
                assert(c1.subrange(a, a + 4) =~= c2.subrange(a, a + 4));
            },
            PktInfoKind::V6 => {
                let a = q + p.in6_pktinfo_addr_offset;
                assert(c1.subrange(a, a + 16) =~= c2.subrange(a, a + 16));
            },
        }
    }
}

/// The message that a receive reports lies inside the control data and
/// inside its own declared length: its header comes before the end of the
/// data, its length covers a header and the whole payload and is no more
/// than the data, and its payload lies inside the buffer.
pub proof fn lemma_found_message_in_bounds(p: Platform, b: Seq<u8>, n: int)
    requires
        p.wf(),
        0 <= n <= b.len(),
        p.find_pktinfo(b, n) is Some,
    ensures
        ({
            let (off, k) = p.find_pktinfo(b, n)->0;
            &&& 0 <= off
            &&& off + p.header_size <= n
            &&& p.usable_at(b, n, off) == Some(k)
            &&& p.header_size + p.payload_size(k) <= p.len_field(b, off) <= n
            &&& off + p.data_offset + p.payload_size(k) <= b.len()
        }),
{
    lemma_find_from_usable(p, b, n, 0);
}

/// What `find_from` returns is a usable message at or after `off`, with its
/// header inside the control data.
proof fn lemma_find_from_usable(p: Platform, b: Seq<u8>, n: int, off: int)
    requires
        p.wf(),
        0 <= off,
        off + p.header_size <= n,
        p.find_from(b, n, off) is Some,
    ensures
        ({
            let (o, k) = p.find_from(b, n, off)->0;
            off <= o && o + p.header_size <= n && p.usable_at(b, n, o) == Some(k)
        }),
    decreases n - off,
{
    match p.usable_at(b, n, off) {
        Some(k) => {},
        None => {
            let next = p.next_header(b, n, off)->0;
            crate::cmsg::lemma_next_header_advances(p, b, n, off);
            lemma_find_from_usable(p, b, n, next);
        },
    }
}

/// A usable packet-info message at the start of the control data is the
/// one a receive reports, whatever follows it.
pub proof fn lemma_leading_message_reported(p: Platform, b: Seq<u8>, n: int)
    requires
        p.wf(),
        n >= p.header_size,
        p.usable_at(b, n, 0) is Some,
    ensures
        p.find_pktinfo(b, n) == Some((0int, p.usable_at(b, n, 0)->0)),
{
}

/// A message that is not a usable packet-info message is passed over: the
/// search goes on at the next header, or ends when there is none. (Under
/// the BSD rule a header of length zero has itself as its next header; the
/// search ends there.)
pub proof fn lemma_unusable_message_skipped(p: Platform, b: Seq<u8>, n: int, off: int)
    requires
        p.wf(),
        0 <= off,
        p.usable_at(b, n, off) is None,
        p.next_rule != NextHeaderRule::Bsd || p.len_field(b, off) > 0,
    ensures
        p.find_from(b, n, off) == (match p.next_header(b, n, off) {
            Some(next) => p.find_from(b, n, next),
            None => None,
        }),
{
    if p.next_header(b, n, off) is Some {
        crate::cmsg::lemma_next_header_advances(p, b, n, off);
        lemma_align_up(p.len_field(b, off), p.align as int);
    }
}

/// The control buffer of a receive has room for one whole packet-info
/// message of the socket's family: a header and the payload.
pub proof fn lemma_capacity_holds_message(p: Platform, domain: i32)
    requires
        p.wf(),
    ensures
        p.header_size + p.pktinfo_size_for(domain) <= p.cmsg_space(p.pktinfo_size_for(domain)),
{
    lemma_align_up(p.pktinfo_size_for(domain), p.align as int);
    lemma_align_up(p.header_size as int, p.align as int);
}

} // verus!
