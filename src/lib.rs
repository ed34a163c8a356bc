//! Core of a transparent TCP/UDP tunnelling proxy: the envelope codec, the
//! token scheme of the reactor, the lifecycle of each half-connection, and the
//! decisions of the TCP and UDP drivers. Sockets, the reactor and the tunnel
//! session are driven by the caller, which hands the outcome of each I/O step
//! back to the functions here.

mod buffer;
pub mod codec;
pub mod status;
pub mod token;
pub mod tcp;
pub mod udp;
