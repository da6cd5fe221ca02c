//! The shell around the game server: the configuration its runtime is
//! built from. Reading and writing the configuration file is the
//! caller's business; the shapes and their defaults live here.

pub mod config;
