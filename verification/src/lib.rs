//! Polling engine for serial distance-ranging sensors.
//!
//! The crate holds the decisions of a multi-port poller: how a raw frame or a
//! text line becomes a validated reading, how one port's outcome turns into its
//! slot of a cycle record, how a whole cycle is assembled in port order, and
//! which log file a record belongs to. Serial I/O, the wall clock and the file
//! writer stay with the caller, which hands in plain values.

pub mod config;
pub mod reading;
pub mod binary;
pub mod text;
pub mod clock;
pub mod rotation;
pub mod channel;
pub mod cycle;
