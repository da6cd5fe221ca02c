//! The wire-type system: the encode/decode capabilities, the generic
//! implementations for primitive and composite types, the bounded wrapper
//! and the packet capability.

pub mod codec;
pub mod impls;
pub mod packet;
pub mod str;
