//! IEC 60870-5-104: telecontrol over TCP/IP, the protocol core.
//!
//! The crate holds what the protocol decides and no I/O: whoever owns a
//! connection hands it the octets that arrive and the time, and writes the
//! octets that it wants written.
//!
//! - `apci`: the frames (I, S, U) and their octets.
//! - `asdu`, `info`, `time`, `types`: the ASDU, its information objects,
//!   the seven-octet time tag, and the enumerations of the standard.
//! - `window`: sequence numbers modulo 2^15.
//! - `link`: the connection state machine with its send window, its
//!   receive counters and its four timers.
//! - `client`: one connection of a controlling station.
//! - `server`, `queue`: a controlled station with the connections of its
//!   peers, their admission to data transfer by redundancy group, and the
//!   outbound queues.

pub mod apci;
pub mod asdu;
mod bytes;
pub mod client;
pub mod info;
pub mod link;
pub mod queue;
pub mod server;
pub mod time;
pub mod types;
pub mod window;
