//! Key-line watcher for an embedded Linux board: turns key transitions read
//! from an input device into log lines, a shutdown sequence and writes to two
//! digital outputs. Every function here is pure; the surrounding program
//! performs the reads, spawns and delays that these functions decide on.

pub mod action;
pub mod channel;
pub mod dispatcher;
pub mod event;
pub mod executor;
pub mod gpiokey;
pub mod reader;
