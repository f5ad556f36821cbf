//! Client core for mirroring local game pads to a remote HIDtoVPAD host.
//!
//! The library holds the wire protocol, the encoding of pad input, the
//! bookkeeping of attached controllers and the decisions of the session's
//! workers. Sockets, threads, clocks and the gamepad backend live outside it.
pub mod commands;
pub mod controller_manager;
pub mod handle_factory;
pub mod models;
pub mod poller;
pub mod protocol;
pub mod session;
pub mod wire;
