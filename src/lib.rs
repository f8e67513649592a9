//! Client-side engine of a length-framed binary request/response protocol used
//! to drive and query a running traffic simulator.
//!
//! The library holds the codec ([`storage`]), the message framing
//! ([`framing`]), the typed value model ([`types`]), the compound records that
//! some commands carry ([`records`]), the error taxonomy ([`error`]), the
//! protocol vocabulary ([`constants`]) and the command/response engine with
//! subscription dispatch ([`client`]). It performs no I/O itself: the bytes it
//! builds are sent, and the frames that arrive are handed back to it, by the
//! caller.
//!
//! Doubles travel as their IEEE-754 bit pattern (`u64`); callers convert with
//! `f64::to_bits` and `f64::from_bits`.
pub mod constants;
pub mod error;
pub mod framing;
pub mod storage;
pub mod types;
pub mod records;
pub mod client;
