//! A client for the VIA keyboard-configuration protocol.
//!
//! The protocol exchanges fixed-size reports with a keyboard over a HID
//! channel.  This crate holds everything about it that is not input or
//! output: the byte layout of every command, the decoding of replies, the
//! splitting of large transfers into report-sized round trips, and the
//! selection of a device among those attached.  A caller owns the channel,
//! performs the actions a [`session::Session`] asks for, and hands back what
//! happened.

pub mod api;
pub mod chunk;
pub mod codec;
pub mod command;
pub mod console;
pub mod error;
pub mod ids;
pub mod laws;
pub mod model;
pub mod operation;
pub mod report;
pub mod scanner;
pub mod session;
pub mod simulator;
pub mod transport;
pub mod word;
