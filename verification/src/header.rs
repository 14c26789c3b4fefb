use vstd::prelude::*;
use vstd::bytes::*;

use crate::addr::PAddr;
use crate::error::Error;
use crate::flags::Flags;
use crate::flags::SHF_ALLOC;
use crate::flags::SHF_EXECINSTR;
use crate::flags::SHF_MERGE;
use crate::flags::SHF_STRINGS;
use crate::flags::SHF_WRITE;
use crate::ty::classify;
use crate::ty::Type;
use crate::ty::TypeRepr;

verus! {

/// The ELF class a section header record is laid out for. It fixes the
/// width of the `flags`, `address`, `offset`, `length` and `entry_length`
/// fields (4 bytes in the 32-bit class, 8 in the 64-bit class) and with it
/// the record size. All multi-byte fields are little-endian.
#[derive(Debug, Copy, Clone, PartialEq, Eq, Structural)]
pub enum Class {
    Elf32,
    Elf64,
}

/// Record size of one 32-bit-class section header: ten 4-byte fields.
pub const RECORD_SIZE_32: usize = 40;

/// Record size of one 64-bit-class section header: five 4-byte fields and
/// five 8-byte fields, packed in field order with no padding.
pub const RECORD_SIZE_64: usize = 60;

pub open spec fn spec_record_size(class: Class) -> int {
    match class {
        Class::Elf32 => RECORD_SIZE_32 as int,
        Class::Elf64 => RECORD_SIZE_64 as int,
    }
}

/// The fixed record size of one section header of the given class.
pub fn record_size(class: Class) -> (n: usize)
    ensures
        n == spec_record_size(class),
{
    match class {
        Class::Elf32 => RECORD_SIZE_32,
        Class::Elf64 => RECORD_SIZE_64,
    }
}

/// The 32-bit little-endian word starting at byte `off` of `s`.
pub open spec fn spec_word(s: Seq<u8>, off: int) -> u32
    recommends
        0 <= off,
        off + 4 <= s.len(),
{
    spec_u32_from_le_bytes(s.subrange(off, off + 4))
}

/// The 64-bit little-endian word starting at byte `off` of `s`.
pub open spec fn spec_xword(s: Seq<u8>, off: int) -> u64
    recommends
        0 <= off,
        off + 8 <= s.len(),
{
    spec_u64_from_le_bytes(s.subrange(off, off + 8))
}

/// Read the 32-bit little-endian word at byte `off` of `s`.
pub(crate) fn read_word(s: &[u8], off: usize) -> (r: u32)
    requires
        off + 4 <= s@.len(),
    ensures
        r == spec_word(s@, off as int),
{
    let _n: usize = s.len();
    u32_from_le_bytes(&s[off..off + 4])
}

/// Read the 64-bit little-endian word at byte `off` of `s`.
fn read_xword(s: &[u8], off: usize) -> (r: u64)
    requires
        off + 8 <= s@.len(),
    ensures
        r == spec_xword(s@, off as int),
{
    let _n: usize = s.len();
    u64_from_le_bytes(&s[off..off + 8])
}

/// A decoded view of one entry of an ELF section header table. It is built
/// once from the entry's bytes, is never mutated, and interprets nothing
/// beyond the fixed fields: the type code is classified on demand and the
/// flags word is read through [`Flags`].
#[derive(Debug, Copy, Clone, PartialEq, Eq, Structural)]
pub struct Header {
    /// Index of this section's name into the section header string table.
    pub name_offset: u32,
    /// The raw type code, decoded on demand by [`TypeRepr::as_type`].
    pub ty: TypeRepr,
    /// The section's attribute and permission bits.
    pub flags: Flags,
    /// Address of the section in memory at run time, if allocated.
    pub address: PAddr,
    /// File offset of the section's contents.
    pub offset: PAddr,
    /// Size in bytes of the section's contents.
    pub length: PAddr,
    /// Cross-reference to another section; meaning depends on the type.
    pub link: u32,
    /// Extra type-dependent information.
    pub info: u32,
    /// Required alignment of the section.
    pub address_align: u32,
    /// Size of one entry, for sections holding a table of fixed-size
    /// entries; zero otherwise.
    pub entry_length: PAddr,
}

/// The header a 32-bit-class record's bytes encode, field by field.
pub open spec fn spec_parse_elf32(s: Seq<u8>) -> Header {
    Header {
        name_offset: spec_word(s, 0),
        ty: TypeRepr(spec_word(s, 4)),
        flags: Flags(spec_word(s, 8) as u64),
        address: PAddr(spec_word(s, 12) as u64),
        offset: PAddr(spec_word(s, 16) as u64),
        length: PAddr(spec_word(s, 20) as u64),
        link: spec_word(s, 24),
        info: spec_word(s, 28),
        address_align: spec_word(s, 32),
        entry_length: PAddr(spec_word(s, 36) as u64),
    }
}

/// The header a 64-bit-class record's bytes encode, field by field.
pub open spec fn spec_parse_elf64(s: Seq<u8>) -> Header {
    Header {
        name_offset: spec_word(s, 0),
        ty: TypeRepr(spec_word(s, 4)),
        flags: Flags(spec_xword(s, 8)),
        address: PAddr(spec_xword(s, 16)),
        offset: PAddr(spec_xword(s, 24)),
        length: PAddr(spec_xword(s, 32)),
        link: spec_word(s, 40),
        info: spec_word(s, 44),
        address_align: spec_word(s, 48),
        entry_length: PAddr(spec_xword(s, 52)),
    }
}

/// The header a record's bytes encode, for either class.
pub open spec fn spec_parse(class: Class, s: Seq<u8>) -> Header {
    match class {
        Class::Elf32 => spec_parse_elf32(s),
        Class::Elf64 => spec_parse_elf64(s),
    }
}

impl Header {
    /// Decode one section header record of the given class from the start
    /// of `bytes`. A span shorter than the record size is a corrupt table
    /// and is reported as `TruncatedRecord`, never silently truncated;
    /// extra bytes past the record are ignored.
    pub fn from_bytes(class: Class, bytes: &[u8]) -> (r: Result<Header, Error>)
        ensures
            bytes@.len() >= spec_record_size(class) ==> r == Ok::<Header, Error>(
                spec_parse(class, bytes@),
            ),
            bytes@.len() < spec_record_size(class) ==> r == Err::<Header, Error>(
                Error::TruncatedRecord,
            ),
    {
        let size = record_size(class);
        if bytes.len() < size {
            return Err(Error::TruncatedRecord);
        }
        let h = match class {
            Class::Elf32 => Header {
                name_offset: read_word(bytes, 0),
                ty: TypeRepr(read_word(bytes, 4)),
                flags: Flags(read_word(bytes, 8) as u64),
                address: PAddr(read_word(bytes, 12) as u64),
                offset: PAddr(read_word(bytes, 16) as u64),
                length: PAddr(read_word(bytes, 20) as u64),
                link: read_word(bytes, 24),
                info: read_word(bytes, 28),
                address_align: read_word(bytes, 32),
                entry_length: PAddr(read_word(bytes, 36) as u64),
            },
            Class::Elf64 => Header {
                name_offset: read_word(bytes, 0),
                ty: TypeRepr(read_word(bytes, 4)),
                flags: Flags(read_xword(bytes, 8)),
                address: PAddr(read_xword(bytes, 16)),
                offset: PAddr(read_xword(bytes, 24)),
                length: PAddr(read_xword(bytes, 32)),
                link: read_word(bytes, 40),
                info: read_word(bytes, 44),
                address_align: read_word(bytes, 48),
                entry_length: PAddr(read_xword(bytes, 52)),
            },
        };
        Ok(h)
    }

    /// Classify this header's raw type code; an unassigned code is a hard
    /// decode error carrying the code, never a default type.
    pub fn section_type(&self) -> (r: Result<Type, Error>)
        ensures
            r == match classify(self.ty.0) {
                Some(t) => Ok::<Type, Error>(t),
                None => Err::<Type, Error>(Error::UnrecognizedType(self.ty.0)),
            },
    {
        self.ty.as_type()
    }

    /// Returns true if this section is writable.
    pub fn is_writable(&self) -> (r: bool)
        ensures
            r == self.flags.spec_contains(SHF_WRITE),
    {
        self.flags.contains(SHF_WRITE)
    }

    /// Returns true if this section occupies memory during program
    /// execution.
    pub fn is_allocated(&self) -> (r: bool)
        ensures
            r == self.flags.spec_contains(SHF_ALLOC),
    {
        self.flags.contains(SHF_ALLOC)
    }

    /// Returns true if this section contains executable instructions.
    pub fn is_executable(&self) -> (r: bool)
        ensures
            r == self.flags.spec_contains(SHF_EXECINSTR),
    {
        self.flags.contains(SHF_EXECINSTR)
    }

    /// Returns true if this section can be merged.
    pub fn is_mergeable(&self) -> (r: bool)
        ensures
            r == self.flags.spec_contains(SHF_MERGE),
    {
        self.flags.contains(SHF_MERGE)
    }

    /// Returns true if this section holds mergeable data of a uniform
    /// element size: true exactly when the mergeable bit is set and the
    /// null-terminated-strings bit is clear.
    pub fn is_uniform(&self) -> (r: bool)
        ensures
            r == self.flags.spec_is_uniform(),
            r == (self.flags.spec_contains(SHF_MERGE) && !self.flags.spec_contains(SHF_STRINGS)),
    {
        self.flags.contains(SHF_MERGE) && !self.flags.contains(SHF_STRINGS)
    }
}

/// Law: the view is lossless for the 32-bit class. Re-encoding each of the
/// ten fields parsed from a record as little-endian bytes reproduces the
/// record's bytes exactly, so reading the fields back yields precisely what
/// was written.
pub proof fn lemma_parse_elf32_round_trip(s: Seq<u8>)
    requires
        s.len() >= RECORD_SIZE_32,
    ensures
        spec_u32_to_le_bytes(spec_parse_elf32(s).name_offset) == s.subrange(0, 4),
        spec_u32_to_le_bytes(spec_parse_elf32(s).ty.0) == s.subrange(4, 8),
        spec_u32_to_le_bytes(spec_parse_elf32(s).flags.0 as u32) == s.subrange(8, 12),
        spec_u32_to_le_bytes(spec_parse_elf32(s).address.0 as u32) == s.subrange(12, 16),
        spec_u32_to_le_bytes(spec_parse_elf32(s).offset.0 as u32) == s.subrange(16, 20),
        spec_u32_to_le_bytes(spec_parse_elf32(s).length.0 as u32) == s.subrange(20, 24),
        spec_u32_to_le_bytes(spec_parse_elf32(s).link) == s.subrange(24, 28),
        spec_u32_to_le_bytes(spec_parse_elf32(s).info) == s.subrange(28, 32),
        spec_u32_to_le_bytes(spec_parse_elf32(s).address_align) == s.subrange(32, 36),
        spec_u32_to_le_bytes(spec_parse_elf32(s).entry_length.0 as u32) == s.subrange(36, 40),
{
    lemma_auto_spec_u32_to_from_le_bytes();
}

/// Law: the view is lossless for the 64-bit class, in the same sense as
/// [`lemma_parse_elf32_round_trip`].
pub proof fn lemma_parse_elf64_round_trip(s: Seq<u8>)
    requires
        s.len() >= RECORD_SIZE_64,
    ensures
        spec_u32_to_le_bytes(spec_parse_elf64(s).name_offset) == s.subrange(0, 4),
        spec_u32_to_le_bytes(spec_parse_elf64(s).ty.0) == s.subrange(4, 8),
        spec_u64_to_le_bytes(spec_parse_elf64(s).flags.0) == s.subrange(8, 16),
        spec_u64_to_le_bytes(spec_parse_elf64(s).address.0) == s.subrange(16, 24),
        spec_u64_to_le_bytes(spec_parse_elf64(s).offset.0) == s.subrange(24, 32),
        spec_u64_to_le_bytes(spec_parse_elf64(s).length.0) == s.subrange(32, 40),
        spec_u32_to_le_bytes(spec_parse_elf64(s).link) == s.subrange(40, 44),
        spec_u32_to_le_bytes(spec_parse_elf64(s).info) == s.subrange(44, 48),
        spec_u32_to_le_bytes(spec_parse_elf64(s).address_align) == s.subrange(48, 52),
        spec_u64_to_le_bytes(spec_parse_elf64(s).entry_length.0) == s.subrange(52, 60),
{
    lemma_auto_spec_u32_to_from_le_bytes();
    lemma_auto_spec_u64_to_from_le_bytes();
}

} // verus!
