use vstd::prelude::*;

use crate::error::Error;

verus! {

// Bounds of the reserved section type code ranges.
pub const SHT_LOOS: u32 = 0x60000000;
pub const SHT_HIOS: u32 = 0x6fffffff;
pub const SHT_LOPROC: u32 = 0x70000000;
pub const SHT_HIPROC: u32 = 0x7fffffff;
pub const SHT_LOUSER: u32 = 0x80000000;
pub const SHT_HIUSER: u32 = 0xffffffff;

/// An ELF section type: the fixed codes `0..=11` and `14..=16` by name, plus
/// three open-ended variants that preserve the raw code for the OS-,
/// processor- and user-reserved ranges.
///
/// `Group` and `SymbolTableShIndex` are declared for completeness but the
/// classifier never produces them: their conventional codes (`17` and `18`)
/// are not in its fixed-match list and classify as unrecognized.
#[derive(Debug, Copy, Clone, PartialEq, Eq, Structural)]
pub enum Type {
    /// Code 0: inactive header with no associated section.
    Null,
    /// Code 1: information defined by the program itself.
    ProgramBits,
    /// Code 2: a full symbol table for link editing.
    SymbolTable,
    /// Code 3: a string table.
    StringTable,
    /// Code 4: relocation entries with explicit addends.
    Rela,
    /// Code 5: a symbol hash table.
    HashTable,
    /// Code 6: dynamic linking information.
    Dynamic,
    /// Code 7: notes that mark the file in some way.
    Notes,
    /// Code 8: occupies no file space but otherwise resembles `ProgramBits`.
    NoBits,
    /// Code 9: relocation entries without explicit addends.
    Rel,
    /// Code 10: reserved with unspecified semantics.
    Shlib,
    /// Code 11: a minimal symbol table for dynamic linking.
    DynSymTable,
    /// Code 14: an array of initialization functions.
    InitArray,
    /// Code 15: an array of termination functions.
    FiniArray,
    /// Code 16: an array of pre-initialization functions.
    PreInitArray,
    /// A section group; not produced by the classifier (see above).
    Group,
    /// Extended section indices for a symbol table; not produced by the
    /// classifier (see above).
    SymbolTableShIndex,
    /// A code in the OS-reserved range, kept unchanged.
    OSSpecific(u32),
    /// A code in the processor-reserved range, kept unchanged.
    ProcessorSpecific(u32),
    /// A code in the user-reserved range, kept unchanged.
    User(u32),
}

/// What one raw type code classifies as: the first fixed match wins, then
/// the three reserved ranges; any other code is unrecognized (`None`).
pub open spec fn classify(code: u32) -> Option<Type> {
    if code == 0 {
        Some(Type::Null)
    } else if code == 1 {
        Some(Type::ProgramBits)
    } else if code == 2 {
        Some(Type::SymbolTable)
    } else if code == 3 {
        Some(Type::StringTable)
    } else if code == 4 {
        Some(Type::Rela)
    } else if code == 5 {
        Some(Type::HashTable)
    } else if code == 6 {
        Some(Type::Dynamic)
    } else if code == 7 {
        Some(Type::Notes)
    } else if code == 8 {
        Some(Type::NoBits)
    } else if code == 9 {
        Some(Type::Rel)
    } else if code == 10 {
        Some(Type::Shlib)
    } else if code == 11 {
        Some(Type::DynSymTable)
    } else if code == 14 {
        Some(Type::InitArray)
    } else if code == 15 {
        Some(Type::FiniArray)
    } else if code == 16 {
        Some(Type::PreInitArray)
    } else if SHT_LOOS <= code && code <= SHT_HIOS {
        Some(Type::OSSpecific(code))
    } else if SHT_LOPROC <= code && code <= SHT_HIPROC {
        Some(Type::ProcessorSpecific(code))
    } else if SHT_LOUSER <= code {
        Some(Type::User(code))
    } else {
        None
    }
}

/// The raw 32-bit type code of a section header, decoded on demand.
#[derive(Debug, Copy, Clone, PartialEq, Eq, Structural)]
pub struct TypeRepr(pub u32);

impl TypeRepr {
    /// Classify the raw code. Exact fixed codes are checked first, then the
    /// three reserved ranges; a code matching neither is a hard decode error
    /// that carries the offending code, never a default type.
    pub fn as_type(&self) -> (r: Result<Type, Error>)
        ensures
            r == match classify(self.0) {
                Some(t) => Ok::<Type, Error>(t),
                None => Err::<Type, Error>(Error::UnrecognizedType(self.0)),
            },
    {
        let code = self.0;
        if code == 0 {
            Ok(Type::Null)
        } else if code == 1 {
            Ok(Type::ProgramBits)
        } else if code == 2 {
            Ok(Type::SymbolTable)
        } else if code == 3 {
            Ok(Type::StringTable)
        } else if code == 4 {
            Ok(Type::Rela)
        } else if code == 5 {
            Ok(Type::HashTable)
        } else if code == 6 {
            Ok(Type::Dynamic)
        } else if code == 7 {
            Ok(Type::Notes)
        } else if code == 8 {
            Ok(Type::NoBits)
        } else if code == 9 {
            Ok(Type::Rel)
        } else if code == 10 {
            Ok(Type::Shlib)
        } else if code == 11 {
            Ok(Type::DynSymTable)
        } else if code == 14 {
            Ok(Type::InitArray)
        } else if code == 15 {
            Ok(Type::FiniArray)
        } else if code == 16 {
            Ok(Type::PreInitArray)
        } else if SHT_LOOS <= code && code <= SHT_HIOS {
            Ok(Type::OSSpecific(code))
        } else if SHT_LOPROC <= code && code <= SHT_HIPROC {
            Ok(Type::ProcessorSpecific(code))
        } else if SHT_LOUSER <= code {
            Ok(Type::User(code))
        } else {
            Err(Error::UnrecognizedType(code))
        }
    }
}

/// Each fixed code classifies as exactly the named variant.
pub proof fn lemma_fixed_codes()
    ensures
        classify(0) == Some(Type::Null),
        classify(1) == Some(Type::ProgramBits),
        classify(2) == Some(Type::SymbolTable),
        classify(3) == Some(Type::StringTable),
        classify(4) == Some(Type::Rela),
        classify(5) == Some(Type::HashTable),
        classify(6) == Some(Type::Dynamic),
        classify(7) == Some(Type::Notes),
        classify(8) == Some(Type::NoBits),
        classify(9) == Some(Type::Rel),
        classify(10) == Some(Type::Shlib),
        classify(11) == Some(Type::DynSymTable),
        classify(14) == Some(Type::InitArray),
        classify(15) == Some(Type::FiniArray),
        classify(16) == Some(Type::PreInitArray),
{
}

/// Every code in the OS-reserved range classifies as `OSSpecific` with the
/// code preserved unchanged.
pub proof fn lemma_os_range(code: u32)
    requires
        SHT_LOOS <= code <= SHT_HIOS,
    ensures
        classify(code) == Some(Type::OSSpecific(code)),
{
}

/// Every code in the processor-reserved range classifies as
/// `ProcessorSpecific` with the code preserved unchanged.
pub proof fn lemma_processor_range(code: u32)
    requires
        SHT_LOPROC <= code <= SHT_HIPROC,
    ensures
        classify(code) == Some(Type::ProcessorSpecific(code)),
{
}

/// Every code in the user-reserved range classifies as `User` with the code
/// preserved unchanged.
pub proof fn lemma_user_range(code: u32)
    requires
        SHT_LOUSER <= code,
    ensures
        classify(code) == Some(Type::User(code)),
{
}

/// Codes 12 and 13, and every code from 0x11 up to the OS-reserved range —
/// including 17 and 18, conventionally section group and extended symbol
/// indices — match nothing and are unrecognized.
pub proof fn lemma_unassigned_codes(code: u32)
    requires
        code == 12 || code == 13 || (0x11 <= code <= 0x5fffffff),
    ensures
        classify(code) is None,
{
}

} // verus!
