//! Host-side core of an interactive DNP3 tester.
//!
//! The tester acts as a master or as an outstation and shows the operator
//! what travels on the link. The protocol itself (framing, retries, timers)
//! belongs to a protocol engine; this crate holds what is built around it and
//! proves it with Verus:
//!
//! * [`dnp3_service`]: one session, with its point table, its counters and
//!   its place in the connection lifecycle;
//! * [`control`]: the control dispatcher, from an operator's mode to the
//!   engine's command;
//! * [`point_table`]: the points of a session and the outstation simulator's
//!   rounds over them;
//! * [`registry`]: the sessions of a process, by identifier;
//! * [`telemetry`] and [`ring`]: the bounded, numbered stores of log lines
//!   and raw frames;
//! * [`dnp3_frame_layer`]: the diagnostic tap, and the recovery of frames
//!   from the engine's diagnostic text;
//! * [`request`], [`error`], [`models`]: the words of the operator, the
//!   errors with their messages, and the data model;
//! * [`binary64`], [`text`], [`engine`]: numbers as bit patterns, strings as
//!   character sequences, and the one question asked of the engine.
//!
//! Everything works on plain values under exclusive access. A call that needs
//! the engine decides and returns a plan; the embedding program carries the
//! plan out (it owns the engine, the network, the locks and the scheduler)
//! and reports back with the matching `complete_*` call. Point values are
//! IEEE 754 binary64 bit patterns, times are milliseconds since the Unix
//! epoch.
//!
//! Three functions are trusted rather than proved; each says so in its
//! documentation: the reading of the clock, the engine's check of a link
//! address, and the building of a string from characters.

pub mod binary64;
mod clock;
pub mod control;
pub mod dnp3_frame_layer;
pub mod dnp3_service;
pub mod engine;
pub mod error;
pub mod models;
pub mod point_table;
pub mod registry;
pub mod request;
pub mod ring;
pub mod telemetry;
pub mod text;
