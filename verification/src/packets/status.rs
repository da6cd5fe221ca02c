//! Packets of the status state.

pub mod query_ping_c2s;
pub mod query_pong_s2c;

pub use query_ping_c2s::QueryPingC2s;
pub use query_pong_s2c::QueryPongS2c;
