//! Decoding and classification of ELF section headers for an image loader.
//!
//! Given a byte span holding one entry of an ELF section header table, this
//! crate produces a typed, read-only view of that section: its raw fields,
//! its classified type (with the OS-, processor- and user-reserved ranges
//! preserved as open-ended variants), its permission flags, and the logical
//! shape of its payload. It never copies or mutates the underlying image
//! bytes beyond the fields it parses, performs no I/O, and reports corrupt
//! input as typed errors for the caller's load policy to act on.

pub mod addr;
pub mod contents;
pub mod error;
pub mod flags;
pub mod header;
pub mod ty;
