//! The packet set: the concrete wire types of each protocol state.

pub mod handshaking;
pub mod login;
pub mod status;
pub mod types;
