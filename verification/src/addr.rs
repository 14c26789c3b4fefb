use vstd::prelude::*;

verus! {

/// A physical or virtual address, file offset, or byte length taken from an
/// ELF section header: an opaque 64-bit value with no semantics here beyond
/// equality, ordering and integer arithmetic. Values read from a 32-bit-class
/// record are zero-extended.
#[derive(Debug, Copy, Clone, PartialEq, Eq, Structural)]
pub struct PAddr(pub u64);

} // verus!
