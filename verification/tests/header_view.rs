use elf_section::addr::PAddr;
use elf_section::error::Error;
use elf_section::flags::Flags;
use elf_section::flags::SHF_MASKOS;
use elf_section::flags::SHF_MASKPROC;
use elf_section::flags::SHF_WRITE;
use elf_section::header::Class;
use elf_section::header::Header;
use elf_section::header::RECORD_SIZE_32;
use elf_section::header::RECORD_SIZE_64;
use elf_section::ty::Type;
use elf_section::ty::TypeRepr;

fn record64(
    name_offset: u32,
    type_code: u32,
    flags: u64,
    address: u64,
    offset: u64,
    length: u64,
    link: u32,
    info: u32,
    address_align: u32,
    entry_length: u64,
) -> Vec<u8> {
    let mut b = Vec::new();
    b.extend_from_slice(&name_offset.to_le_bytes());
    b.extend_from_slice(&type_code.to_le_bytes());
    b.extend_from_slice(&flags.to_le_bytes());
    b.extend_from_slice(&address.to_le_bytes());
    b.extend_from_slice(&offset.to_le_bytes());
    b.extend_from_slice(&length.to_le_bytes());
    b.extend_from_slice(&link.to_le_bytes());
    b.extend_from_slice(&info.to_le_bytes());
    b.extend_from_slice(&address_align.to_le_bytes());
    b.extend_from_slice(&entry_length.to_le_bytes());
    b
}

fn record32(
    name_offset: u32,
    type_code: u32,
    flags: u32,
    address: u32,
    offset: u32,
    length: u32,
    link: u32,
    info: u32,
    address_align: u32,
    entry_length: u32,
) -> Vec<u8> {
    let mut b = Vec::new();
    for field in [
        name_offset,
        type_code,
        flags,
        address,
        offset,
        length,
        link,
        info,
        address_align,
        entry_length,
    ] {
        b.extend_from_slice(&field.to_le_bytes());
    }
    b
}

#[test]
fn record_sizes_match_the_fixed_layouts() {
    assert_eq!(RECORD_SIZE_32, 40);
    assert_eq!(RECORD_SIZE_64, 60);
    assert_eq!(elf_section::header::record_size(Class::Elf32), 40);
    assert_eq!(elf_section::header::record_size(Class::Elf64), 60);
}

#[test]
fn elf64_fields_read_back_exactly() {
    let bytes = record64(
        0x0102_0304,
        1,
        0x0000_00f0_0000_0006,
        0xffff_8000_0010_0000,
        0x0000_0000_0004_1000,
        0x0000_0001_2345_6789,
        0x0a0b_0c0d,
        0x1a1b_1c1d,
        0x0000_1000,
        0x0000_0000_0000_0018,
    );
    assert_eq!(bytes.len(), RECORD_SIZE_64);
    let h = Header::from_bytes(Class::Elf64, &bytes).unwrap();
    assert_eq!(h.name_offset, 0x0102_0304);
    assert_eq!(h.ty, TypeRepr(1));
    assert_eq!(h.flags, Flags(0x0000_00f0_0000_0006));
    assert_eq!(h.address, PAddr(0xffff_8000_0010_0000));
    assert_eq!(h.offset, PAddr(0x0004_1000));
    assert_eq!(h.length, PAddr(0x0000_0001_2345_6789));
    assert_eq!(h.link, 0x0a0b_0c0d);
    assert_eq!(h.info, 0x1a1b_1c1d);
    assert_eq!(h.address_align, 0x1000);
    assert_eq!(h.entry_length, PAddr(0x18));
    assert_eq!(h.section_type(), Ok(Type::ProgramBits));
}

#[test]
fn elf32_fields_read_back_exactly() {
    let bytes = record32(
        7,
        8,
        0x0000_0003,
        0xc010_0000,
        0x0000_2000,
        0x0000_0123,
        3,
        0,
        4,
        0,
    );
    assert_eq!(bytes.len(), RECORD_SIZE_32);
    let h = Header::from_bytes(Class::Elf32, &bytes).unwrap();
    assert_eq!(h.name_offset, 7);
    assert_eq!(h.ty, TypeRepr(8));
    assert_eq!(h.flags, Flags(0x3));
    assert_eq!(h.address, PAddr(0xc010_0000));
    assert_eq!(h.offset, PAddr(0x2000));
    assert_eq!(h.length, PAddr(0x123));
    assert_eq!(h.link, 3);
    assert_eq!(h.info, 0);
    assert_eq!(h.address_align, 4);
    assert_eq!(h.entry_length, PAddr(0));
    assert_eq!(h.section_type(), Ok(Type::NoBits));
}

#[test]
fn bytes_past_the_record_are_ignored() {
    let mut bytes = record64(1, 3, 0, 0, 0, 0, 0, 0, 0, 0);
    let h1 = Header::from_bytes(Class::Elf64, &bytes).unwrap();
    bytes.extend_from_slice(&[0xaa; 13]);
    let h2 = Header::from_bytes(Class::Elf64, &bytes).unwrap();
    assert_eq!(h1, h2);
}

#[test]
fn short_spans_are_reported_as_truncated() {
    assert_eq!(Header::from_bytes(Class::Elf64, &[]), Err(Error::TruncatedRecord));
    let bytes = record64(0, 0, 0, 0, 0, 0, 0, 0, 0, 0);
    assert_eq!(
        Header::from_bytes(Class::Elf64, &bytes[..RECORD_SIZE_64 - 1]),
        Err(Error::TruncatedRecord)
    );
    // A 32-bit-class record is too short for the 64-bit class...
    assert_eq!(
        Header::from_bytes(Class::Elf64, &bytes[..RECORD_SIZE_32]),
        Err(Error::TruncatedRecord)
    );
    // ... but 39 bytes are too short for either.
    assert_eq!(
        Header::from_bytes(Class::Elf32, &bytes[..RECORD_SIZE_32 - 1]),
        Err(Error::TruncatedRecord)
    );
}

#[test]
fn allocated_executable_section_reports_its_permissions() {
    let bytes = record64(0, 1, 0x6, 0, 0, 0, 0, 0, 0, 0);
    let h = Header::from_bytes(Class::Elf64, &bytes).unwrap();
    assert_eq!(h.section_type(), Ok(Type::ProgramBits));
    assert!(h.is_allocated());
    assert!(h.is_executable());
    assert!(!h.is_writable());
    assert!(!h.is_mergeable());
    assert!(!h.is_uniform());
}

#[test]
fn uniform_is_mergeable_without_strings() {
    let merge_only = Header::from_bytes(Class::Elf64, &record64(0, 1, 0x10, 0, 0, 0, 0, 0, 0, 0))
        .unwrap();
    assert!(merge_only.is_mergeable());
    assert!(merge_only.is_uniform());

    let merge_strings =
        Header::from_bytes(Class::Elf64, &record64(0, 1, 0x30, 0, 0, 0, 0, 0, 0, 0)).unwrap();
    assert!(merge_strings.is_mergeable());
    assert!(!merge_strings.is_uniform());

    let no_flags = Header::from_bytes(Class::Elf64, &record64(0, 1, 0x0, 0, 0, 0, 0, 0, 0, 0))
        .unwrap();
    assert!(!no_flags.is_mergeable());
    assert!(!no_flags.is_uniform());
}

#[test]
fn reserved_mask_bits_do_not_disturb_the_named_bits() {
    let bits = SHF_MASKOS | SHF_MASKPROC | SHF_WRITE;
    let h = Header::from_bytes(Class::Elf64, &record64(0, 1, bits, 0, 0, 0, 0, 0, 0, 0)).unwrap();
    assert!(h.is_writable());
    assert!(!h.is_allocated());
    assert!(h.flags.contains(SHF_MASKOS));
    assert!(h.flags.contains(SHF_MASKOS | SHF_WRITE));
    assert!(!h.flags.contains(0x2));
}
