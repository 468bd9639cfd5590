//! The pages of the application and their state transitions.

pub mod detail;
pub mod device;
pub mod filter;
pub mod home;
pub mod packet_list;
pub mod sniffer;
