//! Verified core of a serial-port radar dashboard.
//!
//! The library holds the logic of the monitor: the line parser that turns a
//! raw text line into an angle/distance reading, the bounded FIFO history of
//! recent readings, the byte-level line splitter used by the serial reader,
//! and the controller state machine that decides, for each iteration of the
//! event loop, how the history changes and what action follows. The terminal,
//! serial-port and threading plumbing around it is ordinary unverified code.

pub mod controller;
pub mod history;
pub mod parser;
pub mod reader;
