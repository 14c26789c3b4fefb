use vstd::prelude::*;

verus! {

// Named bits of a section header's flags word.
pub const SHF_WRITE: u64 = 0x1;
pub const SHF_ALLOC: u64 = 0x2;
pub const SHF_EXECINSTR: u64 = 0x4;
pub const SHF_MERGE: u64 = 0x10;
pub const SHF_STRINGS: u64 = 0x20;
pub const SHF_INFO_LINK: u64 = 0x40;
pub const SHF_LINK_ORDER: u64 = 0x80;
pub const SHF_OS_NONCONFORMING: u64 = 0x100;
pub const SHF_GROUP: u64 = 0x200;
pub const SHF_TLS: u64 = 0x400;
pub const SHF_COMPRESSED: u64 = 0x800;
/// Bits reserved for OS-specific meaning; opaque to this crate.
pub const SHF_MASKOS: u64 = 0x0ff00000;
/// Bits reserved for processor-specific meaning; opaque to this crate.
pub const SHF_MASKPROC: u64 = 0xf0000000;

/// A section header's flags word, read as a bit set. Every raw word is a
/// legal value, including ones with `SHF_MASKOS` or `SHF_MASKPROC` bits set,
/// which carry extension-specific meaning this crate does not interpret.
#[derive(Debug, Copy, Clone, PartialEq, Eq, Structural)]
pub struct Flags(pub u64);

impl Flags {
    /// All bits of `mask` are present in this flags word. Membership is
    /// decided by mask-and-compare, never by equality of the whole word,
    /// since unrelated bits may be set at the same time.
    pub open spec fn spec_contains(self, mask: u64) -> bool {
        self.0 & mask == mask
    }

    /// The section holds data of a uniform element size: mergeable, but not
    /// a table of null-terminated strings.
    pub open spec fn spec_is_uniform(self) -> bool {
        self.spec_contains(SHF_MERGE) && !self.spec_contains(SHF_STRINGS)
    }

    pub fn contains(&self, mask: u64) -> (r: bool)
        ensures
            r == self.spec_contains(mask),
    {
        self.0 & mask == mask
    }
}

} // verus!
