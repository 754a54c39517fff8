# socket_pktinfo

UDP sockets that report, for each datagram, the interface it arrived on and
the address it was sent to (`IP_PKTINFO` / `IPV6_PKTINFO`), so that a
receiver can tell unicast, broadcast and multicast traffic apart.

- `src/` is the verified library: the walk over the control messages that
  `recvmsg` returns and the search for the packet-info message
  (`cmsg.rs`), the completion of a blocking and a non-blocking receive
  (`recv.rs`), the socket options the sockets set (`sockopt.rs`), the errors
  (`error.rs`), and the host's layout and constants that all of it is stated
  over (`platform.rs`).
- `app/` holds the sockets themselves (`PktInfoUdpSocket`,
  `AsyncPktInfoUdpSocket`): the system calls, built on `socket2`, `libc` and
  `tokio`, with every decision taken by the library.
