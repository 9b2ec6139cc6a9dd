//! The synchronization engine of a browser chat client: the wire protocol,
//! the connection's lifecycle, the relay that hands inbound frames to their
//! consumers, and the reducer that turns frames into a roster and a feed.

pub mod json;
pub mod text;
pub mod wire;
pub mod event_bus;
pub mod connection;
pub mod chat;
pub mod profile;
