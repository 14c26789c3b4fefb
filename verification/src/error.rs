use vstd::prelude::*;

verus! {

/// A decode failure. None of these conditions is recoverable inside this
/// crate: each one surfaces to the loader, which decides whether to abort
/// the load, reject the module, or skip the section.
#[derive(Debug, Copy, Clone, PartialEq, Eq, Structural)]
pub enum Error {
    /// The raw section type code matches no fixed value and falls in none of
    /// the reserved ranges; the offending code is preserved.
    UnrecognizedType(u32),
    /// The byte span handed to the header view is shorter than one fixed-size
    /// record of the requested ELF class.
    TruncatedRecord,
    /// A section group's payload is not a leading flag word followed by a
    /// whole number of 32-bit section indices.
    MalformedGroupPayload,
}

} // verus!
