//! Wire types shared between packets.

pub mod profile;

pub use profile::Property;
