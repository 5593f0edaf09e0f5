//! A freestanding bridge between a host kernel and a small guest module.
//!
//! The host supplies two primitives, a text output routine and a fault
//! routine that never returns, both taking a zero-terminated byte message.
//! This library decides what is handed to them and when; the caller performs
//! the calls.

pub mod bridge;
pub mod fault;
pub mod message;
pub mod trace;
