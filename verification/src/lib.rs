//! Locates the C runtime that a dynamically linked target will load, plans the
//! probes of an observation session, and decodes the samples that the probes emit.

pub mod bytes;
pub mod elf;
pub mod error;
pub mod event;
pub mod locate;
pub mod precedence;
pub mod probe;
pub mod protocol;
pub mod report;
pub mod resolve;
pub mod search;
pub mod session;
pub mod text;
