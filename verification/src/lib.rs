//! Session logic of a terminal packet sniffer: the messages that pages
//! exchange, the capture session and its worker, the packet list, the filter
//! dialog and the hex viewer, all as verified state transitions on plain values.
//!
//! The library touches neither the terminal nor the network. A driver reads
//! the input, hands each event to [`app::App::handle_events`], does what the
//! returned [`capture::Command`] asks for, and draws what the pages say is on
//! show. The capture worker is driven the same way, by
//! [`capture::Worker::step`].

pub mod action;
pub mod app;
pub mod capture;
pub mod data;
pub mod pages;
pub mod text;
pub mod tui;
pub mod utils;
