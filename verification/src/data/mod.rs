//! Packet records and frame parsing.

pub mod packet;
