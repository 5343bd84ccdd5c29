//! The session and event core of a real-time multiplayer server.
//!
//! Connections come and go on many tasks; one tick loop owns the simulation.
//! This crate holds what the tick loop decides: which connection owns which
//! simulated body, what to ask of the simulation engine for each event, which
//! sessions have outlived their connection, which bodies go into a snapshot
//! and who is offered it.
//!
//! - [`websocket`]: the event queue, the registry of outbound channels, and
//!   what a connection does to the registry and tells the tick loop.
//! - [`registry`]: the registry and the engine's bodies as mathematical
//!   values, and the steps that change them.
//! - [`server`]: the tick loop's state and its steps.
//! - [`broadcast`]: one frame, offered to every connection.
//! - [`laws`]: what holds over every course of events.
//!
//! The engine, the sockets and the wire encoding stay with the caller, who
//! performs each [`Command`] and hands the engine's answers back. Numbers
//! that belong to the engine are carried as the bit patterns of
//! single-precision values.

pub mod broadcast;
mod keys;
pub mod laws;
pub mod protocol;
pub mod registry;
pub mod server;
pub mod websocket;

pub use broadcast::broadcast;
pub use broadcast::Attempt;
pub use protocol::BodyHandle;
pub use protocol::Command;
pub use protocol::EntityState;
pub use protocol::Player;
pub use protocol::Point;
pub use protocol::Snapshot;
pub use protocol::SPEED_LIMIT;
pub use server::period;
pub use server::Server;
pub use server::FPS;
pub use websocket::close;
pub use websocket::connections;
pub use websocket::drain;
pub use websocket::forward;
pub use websocket::gather;
pub use websocket::open;
pub use websocket::receive_channel;
pub use websocket::send_map;
pub use websocket::Offer;
pub use websocket::Outbound;
pub use websocket::Receive;
pub use websocket::ReceiveReceiver;
pub use websocket::ReceiveSender;
pub use websocket::SendMap;
pub use websocket::MAX_BUFFER;
