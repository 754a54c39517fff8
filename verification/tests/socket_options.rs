use socket_pktinfo::{NextHeaderRule, PktInfoError, Platform, SockOpt, SockOptValue, SocketAddress};

/// The constants of a Linux host; the layout fields are not used here.
fn platform() -> Platform {
    Platform {
        header_size: 16,
        align: 8,
        len_offset: 0,
        len_width: 8,
        level_offset: 8,
        type_offset: 12,
        data_offset: 16,
        little_endian: true,
        next_rule: NextHeaderRule::Linux,
        in_pktinfo_size: 12,
        in_pktinfo_ifindex_offset: 0,
        in_pktinfo_addr_offset: 8,
        in_pktinfo_ifindex_signed: true,
        in6_pktinfo_size: 20,
        in6_pktinfo_addr_offset: 0,
        in6_pktinfo_ifindex_offset: 16,
        af_inet: libc::AF_INET,
        af_inet6: libc::AF_INET6,
        ipproto_ip: libc::IPPROTO_IP,
        ip_pktinfo: libc::IP_PKTINFO,
        ipproto_ipv6: libc::IPPROTO_IPV6,
        ipv6_pktinfo: libc::IPV6_PKTINFO,
        ipv6_recvpktinfo: libc::IPV6_RECVPKTINFO,
        msg_ctrunc: libc::MSG_CTRUNC,
        msg_trunc: libc::MSG_TRUNC,
        sol_socket: libc::SOL_SOCKET,
        so_reuseaddr: libc::SO_REUSEADDR,
        so_reuseport: libc::SO_REUSEPORT,
        ip_multicast_if: libc::IP_MULTICAST_IF,
        ipv6_multicast_if: libc::IPV6_MULTICAST_IF,
        ipv6_multicast_hops: libc::IPV6_MULTICAST_HOPS,
    }
}

#[test]
fn ipv4_socket_asks_for_ip_pktinfo() {
    assert_eq!(
        platform().pktinfo_option(libc::AF_INET),
        Ok(SockOpt { level: 0, name: 8, value: SockOptValue::Int(1) })
    );
}

#[test]
fn ipv6_socket_asks_for_ipv6_recvpktinfo() {
    assert_eq!(
        platform().pktinfo_option(libc::AF_INET6),
        Ok(SockOpt { level: 41, name: 49, value: SockOptValue::Int(1) })
    );
}

#[test]
fn other_family_is_unsupported() {
    assert_eq!(platform().pktinfo_option(libc::AF_UNIX), Err(PktInfoError::Unsupported));
}

#[test]
fn bound_socket_option_matches_its_family() {
    let p = platform();
    let v4 = SocketAddress::V4 { ip: [0, 0, 0, 0], port: 19000 };
    let v6 = SocketAddress::V6 { ip: [0; 16], port: 19001, flowinfo: 0, scope_id: 0 };
    let (d4, o4) = p.local_pktinfo_option(&v4);
    assert_eq!(d4, libc::AF_INET);
    assert_eq!(Ok(o4), p.pktinfo_option(d4));
    let (d6, o6) = p.local_pktinfo_option(&v6);
    assert_eq!(d6, libc::AF_INET6);
    assert_eq!(Ok(o6), p.pktinfo_option(d6));
}

#[test]
fn reuse_options() {
    let p = platform();
    assert_eq!(
        p.reuse_address_option(true),
        SockOpt { level: libc::SOL_SOCKET, name: libc::SO_REUSEADDR, value: SockOptValue::Int(1) }
    );
    assert_eq!(
        p.reuse_address_option(false),
        SockOpt { level: libc::SOL_SOCKET, name: libc::SO_REUSEADDR, value: SockOptValue::Int(0) }
    );
    assert_eq!(
        p.reuse_port_option(true),
        SockOpt { level: libc::SOL_SOCKET, name: libc::SO_REUSEPORT, value: SockOptValue::Int(1) }
    );
}

#[test]
fn multicast_interface_options() {
    let p = platform();
    assert_eq!(
        p.multicast_if_v4_option([192, 168, 0, 7]),
        SockOpt {
            level: libc::IPPROTO_IP,
            name: libc::IP_MULTICAST_IF,
            value: SockOptValue::InAddr([192, 168, 0, 7]),
        }
    );
    assert_eq!(
        p.multicast_if_v6_option(3),
        SockOpt {
            level: libc::IPPROTO_IPV6,
            name: libc::IPV6_MULTICAST_IF,
            value: SockOptValue::UInt(3),
        }
    );
}

#[test]
fn multicast_hops_up_to_255() {
    let p = platform();
    assert_eq!(
        p.multicast_hops_v6_option(255),
        Ok(SockOpt {
            level: libc::IPPROTO_IPV6,
            name: libc::IPV6_MULTICAST_HOPS,
            value: SockOptValue::Int(255),
        })
    );
    assert_eq!(
        p.multicast_hops_v6_option(0),
        Ok(SockOpt {
            level: libc::IPPROTO_IPV6,
            name: libc::IPV6_MULTICAST_HOPS,
            value: SockOptValue::Int(0),
        })
    );
    assert_eq!(p.multicast_hops_v6_option(256), Err(PktInfoError::InvalidHops));
    assert_eq!(p.multicast_hops_v6_option(u32::MAX), Err(PktInfoError::InvalidHops));
}
