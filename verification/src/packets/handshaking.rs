//! Packets of the handshaking state.

pub mod handshake_c2s;

pub use handshake_c2s::HandshakeC2S;
pub use handshake_c2s::HandshakeNextState;
