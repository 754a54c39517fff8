//! Packet information (`IP_PKTINFO` / `IPV6_PKTINFO`) for UDP sockets: the
//! decisions and the control-message parsing behind a receive that reports
//! the interface and destination address of each datagram.
pub mod platform;
pub mod cmsg;
pub mod error;
pub mod recv;
pub mod sockopt;
pub mod laws;

pub use cmsg::{Destination, IpAddress, PktInfoKind};
pub use error::{ErrorKind, PktInfoError};
pub use platform::{NextHeaderRule, Platform};
pub use recv::{PktInfo, RecvStep, SocketAddress, recv_step};
pub use sockopt::{SockOpt, SockOptValue};
