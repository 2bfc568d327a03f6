//! Transport bridge between a callback-driven protocol engine and a UDP
//! socket: connection-string codec, bounds-checked receive and send paths,
//! invoke-id coordination, and the poll/dispatch loop's state machine.

pub mod clock;
pub mod codec;
pub mod control;
pub mod invoke;
pub mod startup;
pub mod transport;

pub use codec::Ipv4Address;
