//! Multimedia conversion: the rules by which a container is opened, its
//! streams are classified and decoded, and an output container is assembled.
//!
//! The native multimedia framework is driven from outside this library. Each
//! operation here is a session: it names the next native call to make, takes
//! the call's outcome as a plain value, and decides what follows.

pub mod error;
pub mod stream;
pub mod native;
pub mod input;
pub mod open_proofs;
pub mod transcode;
pub mod process_proofs;
