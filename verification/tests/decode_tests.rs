use keebler::elf::{decode_elf, ElfHeader, ElfHeader32Bit};
use keebler::error::{ElfError, Stage};
use keebler::file_header::{decode_file_header32, FileHeader, Type, Version};
use keebler::ident::{decode_ident, EiAbiVersion, EiClass, EiData, EiOsAbi, EiVersion};
use keebler::machine::Machine;
use keebler::program_header::{
    decode_program_header32, decode_program_headers32, ProgramHeader32Bit, ProgramHeaderType,
    PROGRAM_HEADER32_SIZE, PROGRAM_HEADER64_SIZE,
};
use keebler::section_header::{
    decode_section_header64, SectionHeader32Bit, ShType, SECTION_HEADER32_SIZE,
    SECTION_HEADER64_SIZE, SHF_ALLOC, SHF_EXECINSTR, SHF_WRITE,
};

fn known_good_file_header() -> Vec<u8> {
    vec![
        // File Header
        0x7f, 0x45, 0x4c, 0x46, // magic
        0x01, // ei_class
        0x01, // ei_data
        0x01, // ei_version
        0x00, // ei_osabi
        0x01, 0x00, 0x00, 0x00, 0x00, 0x00, 0x00, 0x00, // padding
        0x00, 0x00, // type
        0x03, 0x00, // machine
        0x01, 0x00, 0x00, 0x00, // version
        0x05, 0x00, 0x00, 0x00, // entry
        0x0A, 0x00, 0x00, 0x00, // phoff
        0x0B, 0x00, 0x00, 0x00, // shoff
        0x02, 0x00, 0x00, 0x00, // flags
        0x00, 0x00, // eh_size
        0x01, 0x00, // phentsize
        0x01, 0x00, // phnum
        0x01, 0x00, // shentsize
        0x01, 0x00, // shnum
        0x01, 0x00, // shstrndx
    ]
}

#[test]
fn parse_preamble_should_return_expected_results() {
    let thirty_two_bit_input: Vec<u8> = vec![
        0x7f, 0x45, 0x4c, 0x46, 0x01, 0x01, 0x01, 0x00, 0x01, 0x00, 0x00, 0x00, 0x00, 0x00, 0x00,
        0x00,
    ];
    let sixty_four_bit_input: Vec<u8> = vec![
        0x7f, 0x45, 0x4c, 0x46, 0x02, 0x01, 0x01, 0x00, 0x01, 0x00, 0x00, 0x00, 0x00, 0x00, 0x00,
        0x00,
    ];
    let invalid_input: Vec<u8> = vec![0xff, 0xff, 0xff, 0xff, 0xff];

    assert_eq!(
        Ok(EiClass::ThirtyTwoBit),
        decode_ident(&thirty_two_bit_input).map(|id| id.ei_class)
    );
    assert_eq!(
        Ok(EiClass::SixtyFourBit),
        decode_ident(&sixty_four_bit_input).map(|id| id.ei_class)
    );
    assert!(
        decode_ident(&invalid_input).is_err(),
        "invalid input shouldn't match"
    );
}

#[test]
fn parse_known_good_file_header() {
    let input: Vec<u8> = known_good_file_header();

    assert_eq!(
        Ok(FileHeader::<u32> {
            file_type: Type::NoFileType,
            machine: Machine::X386,
            version: Version::One,
            entry_point: 5u32,
            ph_offset: 10u32,
            sh_offset: 11u32,
            flags: 2,
            eh_size: 0,
            phent_size: 1,
            phnum: 1,
            shent_size: 1,
            shnum: 1,
            shstrndx: 1
        }),
        decode_file_header32(&input, 16, EiData::Little),
    )
}

#[test]
fn parse_known_good_program_header() {
    let input: Vec<u8> = vec![
        // Program Header
        0x00, 0x00, 0x00, 0x00, // p_type
        0x00, 0x00, 0x00, 0x00, // p_offset
        0x00, 0x00, 0x00, 0x00, // p_vaddr
        0x00, 0x00, 0x00, 0x00, // p_paddr
        0x00, 0x00, 0x00, 0x00, // p_filesz
        0x00, 0x00, 0x00, 0x00, // p_memsz
        0x00, 0x00, 0x00, 0x00, // p_flags
        0x00, 0x00, 0x00, 0x00, // p_align
    ];

    assert_eq!(
        Ok(ProgramHeader32Bit {
            p_type: ProgramHeaderType::Null,
            offset: 0x00,
            vaddr: 0x00,
            paddr: 0x00,
            filesz: 0x00,
            memsz: 0x00,
            flags: 0x00,
            align: 0x00,
        }),
        decode_program_header32(&input, 0, EiData::Little)
    )
}

#[test]
fn ident_decodes_every_field() {
    let input: Vec<u8> = vec![
        0x7f, 0x45, 0x4c, 0x46, 0x02, 0x02, 0x01, 0x03, 0x01, 0x00, 0x00, 0x00, 0x00, 0x00, 0x00,
        0x00,
    ];
    let id = decode_ident(&input).unwrap();
    assert_eq!(id.ei_class, EiClass::SixtyFourBit);
    assert_eq!(id.ei_data, EiData::Big);
    assert_eq!(id.ei_version, EiVersion::One);
    assert_eq!(id.ei_osabi, EiOsAbi::Linux);
    assert_eq!(id.ei_abiversion, EiAbiVersion::One);
}

#[test]
fn ident_open_fields_never_fail() {
    // 0x05 is absent from the OS/ABI table and 0x07 from the ABI versions:
    // both must come through as Unknown, not as a failure.
    let input: Vec<u8> = vec![
        0x7f, 0x45, 0x4c, 0x46, 0x01, 0x01, 0x01, 0x05, 0x07, 0x00, 0x00, 0x00, 0x00, 0x00, 0x00,
        0x00,
    ];
    let id = decode_ident(&input).unwrap();
    assert_eq!(id.ei_osabi, EiOsAbi::Unknown(0x05));
    assert_eq!(id.ei_abiversion, EiAbiVersion::Unknown(0x07));
}

#[test]
fn bad_magic_is_malformed_regardless_of_rest() {
    let mut input: Vec<u8> = known_good_file_header();
    input[1] = 0x46;
    assert_eq!(decode_ident(&input), Err(ElfError::MalformedMagic));
    assert_eq!(decode_elf(&input).unwrap_err(), ElfError::MalformedMagic);
}

#[test]
fn unsupported_class_byte_fails() {
    let mut input: Vec<u8> = known_good_file_header();
    input[4] = 0x03;
    assert_eq!(decode_ident(&input), Err(ElfError::UnsupportedClass));
}

#[test]
fn unsupported_data_encoding_byte_fails() {
    let mut input: Vec<u8> = known_good_file_header();
    input[5] = 0x00;
    assert_eq!(decode_ident(&input), Err(ElfError::UnsupportedDataEncoding));
}

#[test]
fn unsupported_ident_version_fails() {
    let mut input: Vec<u8> = known_good_file_header();
    input[6] = 0x02;
    assert_eq!(decode_ident(&input), Err(ElfError::UnsupportedVersion));
}

#[test]
fn unsupported_file_header_version_fails() {
    let mut input: Vec<u8> = known_good_file_header();
    input[20] = 0x02;
    assert_eq!(
        decode_file_header32(&input, 16, EiData::Little),
        Err(ElfError::UnsupportedVersion)
    );
}

#[test]
fn truncated_ident_is_reported() {
    let input: Vec<u8> = vec![0x7f, 0x45, 0x4c, 0x46, 0x01, 0x01, 0x01, 0x00, 0x01, 0x00];
    assert_eq!(
        decode_ident(&input),
        Err(ElfError::TruncatedInput {
            stage: Stage::Identification
        })
    );
}

#[test]
fn truncated_file_header_is_reported() {
    let mut input: Vec<u8> = known_good_file_header();
    input.truncate(40);
    assert_eq!(
        decode_file_header32(&input, 16, EiData::Little),
        Err(ElfError::TruncatedInput {
            stage: Stage::FileHeader
        })
    );
    assert_eq!(
        decode_elf(&input).unwrap_err(),
        ElfError::TruncatedInput {
            stage: Stage::FileHeader
        }
    );
}

#[test]
fn unknown_machine_code_decodes_to_unknown() {
    let mut input: Vec<u8> = known_good_file_header();
    // machine field, little-endian 0xABCD
    input[18] = 0xCD;
    input[19] = 0xAB;
    let header = decode_file_header32(&input, 16, EiData::Little).unwrap();
    assert_eq!(header.machine, Machine::Unknown(0xABCD));
}

#[test]
fn unknown_file_type_code_decodes_to_unknown() {
    let mut input: Vec<u8> = known_good_file_header();
    // type field, little-endian 0x1234
    input[16] = 0x34;
    input[17] = 0x12;
    let header = decode_file_header32(&input, 16, EiData::Little).unwrap();
    assert_eq!(header.file_type, Type::Unknown(0x1234));
}

/// A complete little-endian 32-bit image: identification, file header,
/// two program-header entries at offset 52, one section-header entry at
/// offset 116.
fn full_image32() -> Vec<u8> {
    let mut image: Vec<u8> = vec![
        0x7f, 0x45, 0x4c, 0x46, // magic
        0x01, 0x01, 0x01, 0x00, // class, data, version, osabi
        0x00, 0x00, 0x00, 0x00, 0x00, 0x00, 0x00, 0x00, // abiversion + padding
        0x02, 0x00, // type: Exec
        0x03, 0x00, // machine: X386
        0x01, 0x00, 0x00, 0x00, // version
        0x00, 0x10, 0x00, 0x00, // entry
        0x34, 0x00, 0x00, 0x00, // phoff = 52
        0x74, 0x00, 0x00, 0x00, // shoff = 116
        0x00, 0x00, 0x00, 0x00, // flags
        0x34, 0x00, // eh_size = 52
        0x20, 0x00, // phentsize = 32
        0x02, 0x00, // phnum = 2
        0x28, 0x00, // shentsize = 40
        0x01, 0x00, // shnum = 1
        0x00, 0x00, // shstrndx
    ];
    // First program header: Load at offset 0x1000.
    image.extend(vec![
        0x01, 0x00, 0x00, 0x00, // p_type: Load
        0x00, 0x10, 0x00, 0x00, // offset
        0x00, 0x20, 0x00, 0x00, // vaddr
        0x00, 0x20, 0x00, 0x00, // paddr
        0x00, 0x01, 0x00, 0x00, // filesz
        0x00, 0x01, 0x00, 0x00, // memsz
        0x05, 0x00, 0x00, 0x00, // flags
        0x00, 0x10, 0x00, 0x00, // align
    ]);
    // Second program header: Dynamic at offset 0x3000.
    image.extend(vec![
        0x02, 0x00, 0x00, 0x00, // p_type: Dynamic
        0x00, 0x30, 0x00, 0x00, // offset
        0x00, 0x40, 0x00, 0x00, // vaddr
        0x00, 0x40, 0x00, 0x00, // paddr
        0x80, 0x00, 0x00, 0x00, // filesz
        0x80, 0x00, 0x00, 0x00, // memsz
        0x06, 0x00, 0x00, 0x00, // flags
        0x04, 0x00, 0x00, 0x00, // align
    ]);
    // One section header: ProgBits, writable and allocated.
    image.extend(vec![
        0x01, 0x00, 0x00, 0x00, // sh_name
        0x01, 0x00, 0x00, 0x00, // sh_type: ProgBits
        0x03, 0x00, 0x00, 0x00, // sh_flags: WRITE | ALLOC
        0x00, 0x20, 0x00, 0x00, // sh_addr
        0x00, 0x10, 0x00, 0x00, // sh_offset
        0x00, 0x01, 0x00, 0x00, // sh_size
        0x00, 0x00, 0x00, 0x00, // sh_link
        0x00, 0x00, 0x00, 0x00, // sh_info
        0x04, 0x00, 0x00, 0x00, // sh_addr_align
        0x00, 0x00, 0x00, 0x00, // sh_entsize
    ]);
    image
}

#[test]
fn table_counts_drive_entry_counts() {
    let image = full_image32();
    let decoded = decode_elf(&image).unwrap();
    match decoded {
        ElfHeader::ThirtyTwoBit(h) => {
            assert_eq!(h.file_header.phnum, 2);
            assert_eq!(h.file_header.shnum, 1);
            assert_eq!(h.program_headers.len(), 2);
            assert_eq!(h.section_headers.len(), 1);
            // On-disk order is preserved.
            assert_eq!(h.program_headers[0].p_type, ProgramHeaderType::Load);
            assert_eq!(h.program_headers[0].offset, 0x1000);
            assert_eq!(h.program_headers[1].p_type, ProgramHeaderType::Dynamic);
            assert_eq!(h.program_headers[1].offset, 0x3000);
            assert_eq!(
                h.section_headers[0],
                SectionHeader32Bit {
                    sh_name: 1,
                    sh_type: ShType::ProgBits,
                    sh_flags: SHF_WRITE | SHF_ALLOC,
                    sh_addr: 0x2000,
                    sh_offset: 0x1000,
                    sh_size: 0x100,
                    sh_link: 0,
                    sh_info: 0,
                    sh_addr_align: 4,
                    sh_entsize: 0,
                }
            );
            let rebuilt = ElfHeader32Bit::new(
                h.ei_ident,
                h.file_header,
                h.program_headers.clone(),
                h.section_headers.clone(),
            );
            assert_eq!(rebuilt, h);
        }
        ElfHeader::SixtyFourBit(_) => panic!("decoded as the wrong width"),
    }
}

#[test]
fn truncated_section_table_is_reported() {
    let mut image = full_image32();
    // One byte short of shnum whole entries.
    image.truncate(116 + SECTION_HEADER32_SIZE - 1);
    assert_eq!(
        decode_elf(&image).unwrap_err(),
        ElfError::TruncatedInput {
            stage: Stage::SectionHeaderTable
        }
    );
}

#[test]
fn truncated_program_table_is_reported() {
    let mut image = full_image32();
    // Fewer bytes than phnum whole entries need.
    image.truncate(52 + 2 * PROGRAM_HEADER32_SIZE - 1);
    assert_eq!(
        decode_elf(&image).unwrap_err(),
        ElfError::TruncatedInput {
            stage: Stage::ProgramHeaderTable
        }
    );
}

#[test]
fn truncated_single_entries_are_reported() {
    let short_program: Vec<u8> = vec![0x00; PROGRAM_HEADER32_SIZE - 1];
    assert_eq!(
        decode_program_header32(&short_program, 0, EiData::Little),
        Err(ElfError::TruncatedInput {
            stage: Stage::ProgramHeaderTable
        })
    );
    let short_section: Vec<u8> = vec![0x00; SECTION_HEADER64_SIZE - 1];
    assert_eq!(
        decode_section_header64(&short_section, 0, EiData::Little),
        Err(ElfError::TruncatedInput {
            stage: Stage::SectionHeaderTable
        })
    );
}

#[test]
fn zero_counts_give_empty_tables() {
    let empty: Vec<u8> = Vec::new();
    let headers = decode_program_headers32(&empty, 0, 0, EiData::Little).unwrap();
    assert!(headers.is_empty());
}

#[test]
fn big_endian_64_bit_image_decodes() {
    let mut image: Vec<u8> = vec![
        0x7f, 0x45, 0x4c, 0x46, // magic
        0x02, 0x02, 0x01, 0x00, // class 64, data big, version, osabi
        0x00, 0x00, 0x00, 0x00, 0x00, 0x00, 0x00, 0x00, // abiversion + padding
        0x00, 0x03, // type: Dyn
        0x00, 0xb7, // machine: AARCH64
        0x00, 0x00, 0x00, 0x01, // version
        0x00, 0x00, 0x00, 0x00, 0x00, 0x40, 0x00, 0x00, // entry
        0x00, 0x00, 0x00, 0x00, 0x00, 0x00, 0x00, 0x40, // phoff = 64
        0x00, 0x00, 0x00, 0x00, 0x00, 0x00, 0x00, 0x78, // shoff = 120
        0x00, 0x00, 0x00, 0x00, // flags
        0x00, 0x40, // eh_size
        0x00, 0x38, // phentsize = 56
        0x00, 0x01, // phnum = 1
        0x00, 0x40, // shentsize = 64
        0x00, 0x01, // shnum = 1
        0x00, 0x00, // shstrndx
    ];
    // One program header at offset 64.
    image.extend(vec![
        0x00, 0x00, 0x00, 0x01, // p_type: Load
        0x00, 0x00, 0x00, 0x05, // flags
        0x00, 0x00, 0x00, 0x00, 0x00, 0x00, 0x10, 0x00, // offset
        0x00, 0x00, 0x00, 0x00, 0x00, 0x00, 0x20, 0x00, // vaddr
        0x00, 0x00, 0x00, 0x00, 0x00, 0x00, 0x20, 0x00, // paddr
        0x00, 0x00, 0x00, 0x00, 0x00, 0x00, 0x01, 0x00, // filesz
        0x00, 0x00, 0x00, 0x00, 0x00, 0x00, 0x02, 0x00, // memsz
        0x00, 0x00, 0x00, 0x00, 0x00, 0x00, 0x10, 0x00, // align
    ]);
    // One section header at offset 120.
    image.extend(vec![
        0x00, 0x00, 0x00, 0x07, // sh_name
        0x00, 0x00, 0x00, 0x08, // sh_type: NoBits
        0x00, 0x00, 0x00, 0x00, 0x00, 0x00, 0x00, 0x07, // sh_flags
        0x00, 0x00, 0x00, 0x00, 0x00, 0x00, 0x30, 0x00, // sh_addr
        0x00, 0x00, 0x00, 0x00, 0x00, 0x00, 0x20, 0x00, // sh_offset
        0x00, 0x00, 0x00, 0x00, 0x00, 0x00, 0x00, 0x80, // sh_size
        0x00, 0x00, 0x00, 0x02, // sh_link
        0x00, 0x00, 0x00, 0x03, // sh_info
        0x00, 0x00, 0x00, 0x00, 0x00, 0x00, 0x00, 0x08, // sh_addr_align
        0x00, 0x00, 0x00, 0x00, 0x00, 0x00, 0x00, 0x00, // sh_entsize
    ]);
    let decoded = decode_elf(&image).unwrap();
    match decoded {
        ElfHeader::SixtyFourBit(h) => {
            assert_eq!(h.ei_ident.ei_data, EiData::Big);
            assert_eq!(h.file_header.file_type, Type::Dyn);
            assert_eq!(h.file_header.machine, Machine::AARCH64);
            assert_eq!(h.file_header.entry_point, 0x400000);
            assert_eq!(h.file_header.phent_size as usize, PROGRAM_HEADER64_SIZE);
            assert_eq!(h.program_headers.len(), 1);
            assert_eq!(h.program_headers[0].p_type, ProgramHeaderType::Load);
            assert_eq!(h.program_headers[0].flags, 5);
            assert_eq!(h.program_headers[0].memsz, 0x200);
            assert_eq!(h.section_headers.len(), 1);
            assert_eq!(h.section_headers[0].sh_type, ShType::NoBits);
            assert_eq!(h.section_headers[0].sh_flags, 7);
            assert!(h.section_headers[0]
                .has_flags(SHF_WRITE as u64 | SHF_ALLOC as u64 | SHF_EXECINSTR as u64));
            assert_eq!(h.section_headers[0].sh_link, 2);
            assert_eq!(h.section_headers[0].sh_info, 3);
        }
        ElfHeader::ThirtyTwoBit(_) => panic!("decoded as the wrong width"),
    }
}

#[test]
fn unknown_section_type_is_not_aliased_to_null() {
    let mut entry: Vec<u8> = vec![0x00; 64];
    // sh_type, big-endian 0x12345678 at bytes 4..8
    entry[4] = 0x12;
    entry[5] = 0x34;
    entry[6] = 0x56;
    entry[7] = 0x78;
    let decoded = decode_section_header64(&entry, 0, EiData::Big).unwrap();
    assert_eq!(decoded.sh_type, ShType::Unknown(0x12345678));
    assert_ne!(decoded.sh_type, ShType::Null);
}

#[test]
fn unknown_program_header_type_survives() {
    let mut entry: Vec<u8> = vec![0x00; 32];
    // p_type, little-endian 0x60000001: inside the OS-specific range but
    // not one of the named values.
    entry[0] = 0x01;
    entry[3] = 0x60;
    let decoded = decode_program_header32(&entry, 0, EiData::Little).unwrap();
    assert_eq!(decoded.p_type, ProgramHeaderType::Unknown(0x60000001));
}

#[test]
fn tables_are_read_at_declared_offsets() {
    // The program header table does not sit right after the file header:
    // phoff points past a gap, and the decoder must honor it.
    let mut image: Vec<u8> = vec![
        0x7f, 0x45, 0x4c, 0x46, 0x01, 0x01, 0x01, 0x00, 0x00, 0x00, 0x00, 0x00, 0x00, 0x00, 0x00,
        0x00, // ident
        0x02, 0x00, // type
        0x03, 0x00, // machine
        0x01, 0x00, 0x00, 0x00, // version
        0x00, 0x00, 0x00, 0x00, // entry
        0x40, 0x00, 0x00, 0x00, // phoff = 64: past a 12-byte gap
        0x00, 0x00, 0x00, 0x00, // shoff = 0 with shnum = 0
        0x00, 0x00, 0x00, 0x00, // flags
        0x34, 0x00, // eh_size
        0x20, 0x00, // phentsize
        0x01, 0x00, // phnum = 1
        0x28, 0x00, // shentsize
        0x00, 0x00, // shnum = 0
        0x00, 0x00, // shstrndx
    ];
    image.extend(vec![0xEE; 12]); // gap that must be skipped
    image.extend(vec![
        0x07, 0x00, 0x00, 0x00, // p_type: Tls
        0x11, 0x00, 0x00, 0x00, // offset
        0x22, 0x00, 0x00, 0x00, // vaddr
        0x33, 0x00, 0x00, 0x00, // paddr
        0x44, 0x00, 0x00, 0x00, // filesz
        0x55, 0x00, 0x00, 0x00, // memsz
        0x66, 0x00, 0x00, 0x00, // flags
        0x77, 0x00, 0x00, 0x00, // align
    ]);
    match decode_elf(&image).unwrap() {
        ElfHeader::ThirtyTwoBit(h) => {
            assert_eq!(h.program_headers.len(), 1);
            assert_eq!(h.program_headers[0].p_type, ProgramHeaderType::Tls);
            assert_eq!(h.program_headers[0].offset, 0x11);
            assert_eq!(h.program_headers[0].align, 0x77);
            assert!(h.section_headers.is_empty());
        }
        ElfHeader::SixtyFourBit(_) => panic!("decoded as the wrong width"),
    }
}
