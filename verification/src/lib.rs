//! Wake-on-LAN over UDP: the magic packet, the destination it is sent to, and
//! the order in which a batch of hardware addresses is worked through.
//!
//! The library computes and decides; it opens no socket and looks up no name.
//! A caller performs those steps and hands their outcome back as plain values:
//!
//! 1. `destination_host` reads the host out of the destination URI.
//! 2. `clean_host` gives the text to look up; `resolve_destination` picks the
//!    destination from what the lookup found.
//! 3. `socket_setup` says how to bind and configure the socket.
//! 4. `send_magic_packets` takes the batch turn by turn: each turn yields the
//!    reports to publish and the datagram to send, built by `magic_packet`.

pub mod destination;
pub mod packet;
pub mod sender;
pub mod uri;

pub use destination::{
    clean_host, resolve_destination, socket_setup, Destination, HostAddress, ResolutionError,
    SocketSetup,
};
pub use packet::magic_packet;
pub use sender::{
    send_magic_packets, Args, HardwareAddress, Report, SendAction, SendEvent, SendProgress,
    SendTurn, Severity,
};
pub use uri::{destination_host, require_host, HostError};
