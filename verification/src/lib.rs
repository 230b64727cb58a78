//! Verified core of a safe binding layer over a versioned, runtime-resolved
//! GPU driver interface (G-SYNC synchronization and Mosaic multi-display
//! topology control).
//!
//! The driver itself is a closed, foreign binary: every call into it crosses
//! an FFI boundary that no verifier can see past.  What *can* be verified is
//! the protocol discipline that makes those calls safe, and that is what this
//! crate holds:
//!
//! * the packed struct-version tags (`size | version << 16`) that every
//!   request must carry, together with the byte-layout table they must match
//!   ([`version`]);
//! * the translation of raw integer status codes into a typed error taxonomy
//!   ([`status`]);
//! * the process-wide, write-once interface-pointer cache ([`resolver`]);
//! * the two-phase "query count, allocate, fill" enumeration protocol with
//!   its bounded retry on concurrent topology changes ([`enumerate`]);
//! * the G-SYNC and Mosaic façades: request builders that pre-tag every
//!   struct, reply interpreters that truncate and convert what the driver
//!   returned, and the version-fallback policy between V1 and V2 struct
//!   shapes ([`gsync`], [`mosaic`]);
//! * the per-device session state machine ([`session`]).
//!
//! The unverifiable remainder — performing the actual foreign calls — lives
//! outside this crate.  Callers make each raw call themselves and hand the
//! raw outputs (status code, counts, filled buffers) to the functions here,
//! which decide everything else and are verified for every value the driver
//! could possibly return.

pub mod enumerate;
pub mod enums;
pub mod gsync;
pub mod gsync_types;
pub mod handles;
pub mod mosaic;
pub mod mosaic_types;
pub mod resolver;
pub mod session;
pub mod status;
pub mod thermal;
pub mod version;
