//! Terminal control: telling whether a stream is a terminal, reading its
//! geometry, and switching its input between cooked and raw mode with the
//! earlier mode put back when the session ends.
//!
//! Nothing here talks to the operating system. Every function takes what the
//! system answered as a plain value and returns what is to be asked of it
//! next, so that each decision carries a contract.

pub mod error;
pub mod flags;
pub mod attr;
pub mod size;
pub mod tty;
pub mod device;
pub mod console;
pub mod sim;
pub mod laws;
