use socket_pktinfo::{
    recv_step, Destination, ErrorKind, IpAddress, NextHeaderRule, PktInfo, PktInfoError, Platform,
    RecvStep, SocketAddress,
};

/// The layout of glibc on a 64-bit little-endian Linux host.
fn linux_platform() -> Platform {
    Platform {
        header_size: std::mem::size_of::<libc::cmsghdr>(),
        align: 8,
        len_offset: 0,
        len_width: 8,
        level_offset: 8,
        type_offset: 12,
        data_offset: 16,
        little_endian: true,
        next_rule: NextHeaderRule::Linux,
        in_pktinfo_size: std::mem::size_of::<libc::in_pktinfo>(),
        in_pktinfo_ifindex_offset: 0,
        in_pktinfo_addr_offset: 8,
        in_pktinfo_ifindex_signed: true,
        in6_pktinfo_size: std::mem::size_of::<libc::in6_pktinfo>(),
        in6_pktinfo_addr_offset: 0,
        in6_pktinfo_ifindex_offset: 16,
        af_inet: libc::AF_INET,
        af_inet6: libc::AF_INET6,
        ipproto_ip: libc::IPPROTO_IP,
        ip_pktinfo: libc::IP_PKTINFO,
        ipproto_ipv6: libc::IPPROTO_IPV6,
        ipv6_pktinfo: libc::IPV6_PKTINFO,
        ipv6_recvpktinfo: libc::IPV6_RECVPKTINFO,
        msg_ctrunc: libc::MSG_CTRUNC,
        msg_trunc: libc::MSG_TRUNC,
        sol_socket: libc::SOL_SOCKET,
        so_reuseaddr: libc::SO_REUSEADDR,
        so_reuseport: libc::SO_REUSEPORT,
        ip_multicast_if: libc::IP_MULTICAST_IF,
        ipv6_multicast_if: libc::IPV6_MULTICAST_IF,
        ipv6_multicast_hops: libc::IPV6_MULTICAST_HOPS,
    }
}

/// A control-message header in the glibc layout.
fn header(len: u64, level: i32, ty: i32) -> Vec<u8> {
    let mut out = Vec::new();
    out.extend_from_slice(&len.to_le_bytes());
    out.extend_from_slice(&level.to_le_bytes());
    out.extend_from_slice(&ty.to_le_bytes());
    out
}

/// A whole `IP_PKTINFO` message, padded to the alignment unit.
fn ipv4_message(if_index: i32, dst: [u8; 4]) -> Vec<u8> {
    let mut out = header(28, libc::IPPROTO_IP, libc::IP_PKTINFO);
    out.extend_from_slice(&if_index.to_le_bytes());
    out.extend_from_slice(&[10, 0, 0, 9]);
    out.extend_from_slice(&dst);
    out.extend_from_slice(&[0, 0, 0, 0]);
    out
}

/// A whole `IPV6_PKTINFO` message, padded to the alignment unit.
fn ipv6_message(if_index: u32, dst: [u8; 16]) -> Vec<u8> {
    let mut out = header(36, libc::IPPROTO_IPV6, libc::IPV6_PKTINFO);
    out.extend_from_slice(&dst);
    out.extend_from_slice(&if_index.to_le_bytes());
    out.extend_from_slice(&[0, 0, 0, 0]);
    out
}

fn sender() -> SocketAddress {
    SocketAddress::V4 { ip: [127, 0, 0, 1], port: 19000 }
}

fn loopback_v6() -> [u8; 16] {
    let mut a = [0u8; 16];
    a[15] = 1;
    a
}

#[test]
fn host_layout_is_well_formed() {
    let p = linux_platform();
    assert!(p.is_well_formed());
    assert_eq!(p.header_size, 16);
    assert_eq!(p.in_pktinfo_size, 12);
    assert_eq!(p.in6_pktinfo_size, 20);
}

#[test]
fn layout_with_field_outside_header_is_rejected() {
    let mut p = linux_platform();
    p.type_offset = 14;
    assert!(!p.is_well_formed());
    let mut q = linux_platform();
    q.len_width = 2;
    assert!(!q.is_well_formed());
    let mut r = linux_platform();
    r.af_inet6 = r.af_inet;
    assert!(!r.is_well_formed());
}

#[test]
fn control_capacity_is_cmsg_space() {
    let p = linux_platform();
    assert_eq!(p.control_capacity(libc::AF_INET), 32);
    assert_eq!(p.control_capacity(libc::AF_INET6), 40);
    assert_eq!(p.control_capacity(libc::AF_UNIX), 40);
}

#[test]
fn parses_ipv4_pktinfo() {
    let p = linux_platform();
    let buf = ipv4_message(3, [127, 0, 0, 1]);
    assert_eq!(
        p.parse_control(&buf, buf.len()),
        Some(Destination { if_index: 3, addr_dst: IpAddress::V4([127, 0, 0, 1]) })
    );
}

#[test]
fn parses_ipv6_pktinfo() {
    let p = linux_platform();
    let buf = ipv6_message(7, loopback_v6());
    assert_eq!(
        p.parse_control(&buf, buf.len()),
        Some(Destination { if_index: 7, addr_dst: IpAddress::V6(loopback_v6()) })
    );
}

#[test]
fn negative_ipv4_index_is_sign_extended() {
    let p = linux_platform();
    let buf = ipv4_message(-1, [1, 2, 3, 4]);
    assert_eq!(p.parse_control(&buf, buf.len()).unwrap().if_index, u64::MAX);
}

#[test]
fn ipv6_index_is_not_sign_extended() {
    let p = linux_platform();
    let buf = ipv6_message(0xFFFF_FFFF, loopback_v6());
    assert_eq!(p.parse_control(&buf, buf.len()).unwrap().if_index, 0xFFFF_FFFF);
}

#[test]
fn other_messages_are_skipped() {
    let p = linux_platform();
    let mut buf = header(20, libc::SOL_SOCKET, libc::SO_TIMESTAMP);
    buf.extend_from_slice(&[9, 9, 9, 9, 0, 0, 0, 0]);
    buf.extend(ipv4_message(2, [192, 168, 1, 255]));
    assert_eq!(
        p.parse_control(&buf, buf.len()),
        Some(Destination { if_index: 2, addr_dst: IpAddress::V4([192, 168, 1, 255]) })
    );
}

#[test]
fn short_pktinfo_message_is_skipped() {
    let p = linux_platform();
    let mut buf = header(20, libc::IPPROTO_IP, libc::IP_PKTINFO);
    buf.extend_from_slice(&[5, 0, 0, 0, 0, 0, 0, 0]);
    buf.extend(ipv4_message(4, [224, 0, 0, 1]));
    assert_eq!(
        p.parse_control(&buf, buf.len()),
        Some(Destination { if_index: 4, addr_dst: IpAddress::V4([224, 0, 0, 1]) })
    );
}

#[test]
fn first_usable_message_wins() {
    let p = linux_platform();
    let mut buf = ipv4_message(1, [10, 1, 1, 1]);
    buf.extend(ipv4_message(2, [10, 2, 2, 2]));
    assert_eq!(
        p.parse_control(&buf, buf.len()),
        Some(Destination { if_index: 1, addr_dst: IpAddress::V4([10, 1, 1, 1]) })
    );
}

#[test]
fn message_longer_than_data_is_not_read() {
    let p = linux_platform();
    let mut buf = ipv4_message(1, [10, 1, 1, 1]);
    buf[0] = 200;
    assert_eq!(p.parse_control(&buf, buf.len()), None);
}

#[test]
fn zero_length_header_ends_the_walk() {
    let p = linux_platform();
    let mut buf = header(0, libc::SOL_SOCKET, libc::SO_TIMESTAMP);
    buf.extend(ipv4_message(1, [10, 1, 1, 1]));
    assert_eq!(p.parse_control(&buf, buf.len()), None);
}

#[test]
fn short_buffer_has_no_header() {
    let p = linux_platform();
    assert_eq!(p.parse_control(&[0u8; 15], 15), None);
    assert_eq!(p.parse_control(&[], 0), None);
}

#[test]
fn next_header_follows_the_aligned_length() {
    let p = linux_platform();
    let mut buf = header(20, libc::SOL_SOCKET, libc::SO_TIMESTAMP);
    buf.extend_from_slice(&[0u8; 8]);
    buf.extend(ipv4_message(1, [10, 1, 1, 1]));
    assert_eq!(p.next_header_exec(&buf, buf.len(), 0), Some(24));
    assert_eq!(p.next_header_exec(&buf, buf.len(), 24), None);
}

#[test]
fn musl_rule_needs_a_byte_past_the_next_header() {
    let mut p = linux_platform();
    let mut buf = header(16, libc::SOL_SOCKET, libc::SO_TIMESTAMP);
    buf.extend(header(16, libc::SOL_SOCKET, libc::SO_TIMESTAMP));
    assert_eq!(p.next_header_exec(&buf, buf.len(), 0), Some(16));
    p.next_rule = NextHeaderRule::Musl;
    assert_eq!(p.next_header_exec(&buf, buf.len(), 0), None);
}

#[test]
fn big_endian_layout_with_narrow_length() {
    let mut p = linux_platform();
    p.little_endian = false;
    p.len_width = 4;
    p.len_offset = 4;
    p.level_offset = 8;
    p.type_offset = 12;
    let mut buf = Vec::new();
    buf.extend_from_slice(&[0, 0, 0, 0]);
    buf.extend_from_slice(&28u32.to_be_bytes());
    buf.extend_from_slice(&libc::IPPROTO_IP.to_be_bytes());
    buf.extend_from_slice(&libc::IP_PKTINFO.to_be_bytes());
    buf.extend_from_slice(&0x0102u32.to_be_bytes());
    buf.extend_from_slice(&[0, 0, 0, 0]);
    buf.extend_from_slice(&[8, 8, 4, 4]);
    buf.extend_from_slice(&[0, 0, 0, 0]);
    assert_eq!(
        p.parse_control(&buf, buf.len()),
        Some(Destination { if_index: 0x0102, addr_dst: IpAddress::V4([8, 8, 4, 4]) })
    );
}

#[test]
fn recv_reports_sender_and_byte_count() {
    let p = linux_platform();
    let mut control = ipv4_message(3, [127, 0, 0, 1]);
    control.resize(32, 0);
    let r = p.complete_recv(11, sender(), &control, 28);
    assert_eq!(
        r,
        Ok((
            11,
            PktInfo {
                if_index: 3,
                addr_src: sender(),
                addr_dst: IpAddress::V4([127, 0, 0, 1]),
            }
        ))
    );
}

#[test]
fn recv_ignores_bytes_past_control_data() {
    let p = linux_platform();
    let mut control = vec![0u8; 40];
    let message = ipv6_message(5, loopback_v6());
    control[..36].copy_from_slice(&message[..36]);
    control[36] = 0xAB;
    let first = p.complete_recv(4, sender(), &control, 36);
    control[37] = 0xCD;
    let second = p.complete_recv(4, sender(), &control, 36);
    assert_eq!(first, second);
    assert_eq!(first.unwrap().1.if_index, 5);
}

#[test]
fn recv_control_longer_than_buffer() {
    let p = linux_platform();
    let control = ipv4_message(3, [127, 0, 0, 1]);
    assert_eq!(
        p.complete_recv(1, sender(), &control, 33),
        Err(PktInfoError::ControlTooLong)
    );
}

#[test]
fn recv_without_control_data() {
    let p = linux_platform();
    let control = vec![0u8; 32];
    assert_eq!(p.complete_recv(1, sender(), &control, 0), Err(PktInfoError::NotFound));
}

#[test]
fn try_recv_without_ip_sender() {
    let p = linux_platform();
    let control = ipv4_message(3, [127, 0, 0, 1]);
    assert_eq!(
        p.complete_try_recv(1, None, &control, 32, 0),
        Err(PktInfoError::InvalidSourceAddress)
    );
}

#[test]
fn try_recv_truncation_flags() {
    let p = linux_platform();
    let control = ipv4_message(3, [127, 0, 0, 1]);
    assert_eq!(
        p.complete_try_recv(1, Some(sender()), &control, 32, libc::MSG_CTRUNC),
        Err(PktInfoError::ControlTruncated)
    );
    assert_eq!(
        p.complete_try_recv(1, Some(sender()), &control, 32, libc::MSG_TRUNC),
        Err(PktInfoError::PayloadTruncated)
    );
    assert_eq!(
        p.complete_try_recv(1, Some(sender()), &control, 32, libc::MSG_TRUNC | libc::MSG_CTRUNC),
        Err(PktInfoError::ControlTruncated)
    );
}

#[test]
fn try_recv_length_error_comes_before_flags() {
    let p = linux_platform();
    let control = ipv4_message(3, [127, 0, 0, 1]);
    assert_eq!(
        p.complete_try_recv(1, Some(sender()), &control, 64, libc::MSG_CTRUNC),
        Err(PktInfoError::ControlTooLong)
    );
}

#[test]
fn try_recv_short_control_data_is_not_found() {
    let p = linux_platform();
    let control = ipv4_message(3, [127, 0, 0, 1]);
    assert_eq!(
        p.complete_try_recv(1, Some(sender()), &control, 8, 0),
        Err(PktInfoError::NotFound)
    );
}

#[test]
fn try_recv_agrees_with_recv_without_truncation() {
    let p = linux_platform();
    let control = ipv6_message(9, loopback_v6());
    let flags = libc::MSG_DONTWAIT;
    assert_eq!(
        p.complete_try_recv(12, Some(sender()), &control, 40, flags),
        p.complete_recv(12, sender(), &control, 40)
    );
}

#[test]
fn error_kinds_and_messages() {
    assert_eq!(PktInfoError::Unsupported.kind(), ErrorKind::Unsupported);
    assert_eq!(PktInfoError::Unsupported.message(), None);
    assert_eq!(PktInfoError::ControlTooLong.kind(), ErrorKind::InvalidData);
    assert_eq!(
        PktInfoError::ControlTooLong.message(),
        Some("Ancillary data length exceeds buffer")
    );
    assert_eq!(PktInfoError::InvalidSourceAddress.kind(), ErrorKind::InvalidData);
    assert_eq!(PktInfoError::InvalidSourceAddress.message(), Some("Invalid source address"));
    assert_eq!(PktInfoError::ControlTruncated.kind(), ErrorKind::Other);
    assert_eq!(
        PktInfoError::ControlTruncated.message(),
        Some("Ancillary data truncated while reading PKTINFO")
    );
    assert_eq!(PktInfoError::PayloadTruncated.kind(), ErrorKind::Other);
    assert_eq!(
        PktInfoError::PayloadTruncated.message(),
        Some("Payload truncated while reading UDP datagram")
    );
    assert_eq!(PktInfoError::NotFound.kind(), ErrorKind::NotFound);
    assert_eq!(
        PktInfoError::NotFound.message(),
        Some("Failed to read PKTINFO from socket")
    );
    assert_eq!(PktInfoError::InvalidHops.kind(), ErrorKind::InvalidInput);
    assert_eq!(PktInfoError::InvalidHops.message(), Some("hops must be in 0..=255"));
}

#[test]
fn unsigned_ipv4_index_is_not_sign_extended() {
    let mut p = linux_platform();
    p.in_pktinfo_ifindex_signed = false;
    let buf = ipv4_message(-1, [1, 2, 3, 4]);
    assert_eq!(p.parse_control(&buf, buf.len()).unwrap().if_index, 0xFFFF_FFFF);
}

/// A header of length 8 at the start, overlapping a packet-info message
/// whose header starts at offset 8.
fn short_header_then_pktinfo() -> Vec<u8> {
    let mut buf = Vec::new();
    buf.extend_from_slice(&8u64.to_le_bytes());
    buf.extend_from_slice(&28u64.to_le_bytes());
    buf.extend_from_slice(&libc::IPPROTO_IP.to_le_bytes());
    buf.extend_from_slice(&libc::IP_PKTINFO.to_le_bytes());
    buf.extend_from_slice(&5i32.to_le_bytes());
    buf.extend_from_slice(&[0, 0, 0, 0]);
    buf.extend_from_slice(&[10, 0, 0, 1]);
    buf
}

#[test]
fn linux_rule_stops_at_short_length() {
    let p = linux_platform();
    let buf = short_header_then_pktinfo();
    assert_eq!(p.next_header_exec(&buf, buf.len(), 0), None);
    assert_eq!(p.parse_control(&buf, buf.len()), None);
}

#[test]
fn bsd_rule_walks_past_short_length() {
    let mut p = linux_platform();
    p.next_rule = NextHeaderRule::Bsd;
    let buf = short_header_then_pktinfo();
    assert_eq!(p.next_header_exec(&buf, buf.len(), 0), Some(8));
    assert_eq!(
        p.parse_control(&buf, buf.len()),
        Some(Destination { if_index: 5, addr_dst: IpAddress::V4([10, 0, 0, 1]) })
    );
}

#[test]
fn bsd_rule_zero_length_ends_the_walk() {
    let mut p = linux_platform();
    p.next_rule = NextHeaderRule::Bsd;
    let mut buf = header(0, libc::SOL_SOCKET, libc::SO_TIMESTAMP);
    buf.extend(ipv4_message(1, [10, 1, 1, 1]));
    assert_eq!(p.next_header_exec(&buf, buf.len(), 0), Some(0));
    assert_eq!(p.parse_control(&buf, buf.len()), None);
}

#[test]
fn payload_past_control_data_is_read_from_the_buffer() {
    let p = linux_platform();
    let mut buf = header(16, libc::SOL_SOCKET, libc::SO_TIMESTAMP);
    buf.extend_from_slice(&ipv4_message(6, [9, 9, 9, 9])[..28]);
    assert_eq!(buf.len(), 44);
    assert_eq!(
        p.parse_control(&buf, 32),
        Some(Destination { if_index: 6, addr_dst: IpAddress::V4([9, 9, 9, 9]) })
    );
    assert_eq!(p.parse_control(&buf[..32], 32), None);
}

#[test]
fn data_offset_past_the_header() {
    let mut p = linux_platform();
    p.data_offset = 24;
    let mut buf = header(36, libc::IPPROTO_IP, libc::IP_PKTINFO);
    buf.extend_from_slice(&[0u8; 8]);
    buf.extend_from_slice(&4i32.to_le_bytes());
    buf.extend_from_slice(&[0, 0, 0, 0]);
    buf.extend_from_slice(&[172, 16, 0, 1]);
    assert_eq!(
        p.parse_control(&buf, buf.len()),
        Some(Destination { if_index: 4, addr_dst: IpAddress::V4([172, 16, 0, 1]) })
    );
}

#[test]
fn async_receive_retries_only_when_it_would_block() {
    let ok: Result<u32, &str> = Ok(7);
    assert_eq!(recv_step(ok, false), RecvStep::Return(Ok(7)));
    assert_eq!(recv_step(ok, true), RecvStep::Return(Ok(7)));
    let blocked: Result<u32, &str> = Err("would block");
    assert_eq!(recv_step(blocked, true), RecvStep::Retry);
    let failed: Result<u32, &str> = Err("refused");
    assert_eq!(recv_step(failed, false), RecvStep::Return(Err("refused")));
}
