//! Core logic of a supervised USB-flashing pipeline: the phase state machine
//! that sequences external disk tools, the progress estimation that derives a
//! completion fraction from byte counts, the payload detection that inspects
//! an image listing, the writeback-accounting parser, and the cleanup
//! protocol. All decisions are made here on plain values; running external
//! tools, reading the kernel's counters and checking device presence are left
//! to the surrounding program, which feeds their outcomes back in.

pub mod cleanup;
pub mod estimate;
pub mod events;
pub mod meminfo;
pub mod naming;
pub mod payload;
pub mod pipeline;
pub mod text;
