use keebler::cursor::{expect_bytes, match_u16, match_u32, match_u64, take_fixed};
use keebler::file_header::{
    decode_file_header32, decode_file_header64, FileHeader, Type, Version, FILE_HEADER32_SIZE,
    FILE_HEADER64_SIZE,
};
use keebler::ident::{
    decode_ident, encode_ident, EiAbiVersion, EiClass, EiData, EiIdent, EiOsAbi, EiVersion,
};
use keebler::machine::Machine;

#[test]
fn ident_fields_round_trip_for_all_valid_blocks() {
    // Arbitrary OS/ABI and ABI-version bytes, both classes, both byte
    // orders: decode succeeds and the nine field bytes re-encode exactly.
    for class in [0x01u8, 0x02u8] {
        for data in [0x01u8, 0x02u8] {
            for osabi in [0x00u8, 0x03u8, 0x05u8, 0x42u8] {
                for abiver in [0x00u8, 0x01u8, 0x09u8] {
                    let block: Vec<u8> = vec![
                        0x7f, 0x45, 0x4c, 0x46, class, data, 0x01, osabi, abiver, 0x00, 0x00,
                        0x00, 0x00, 0x00, 0x00, 0x00,
                    ];
                    let id = decode_ident(&block).unwrap();
                    let reencoded = encode_ident(&id);
                    assert_eq!(reencoded, block);
                }
            }
        }
    }
}

#[test]
fn encode_ident_writes_exact_bytes() {
    let id = EiIdent {
        ei_class: EiClass::SixtyFourBit,
        ei_data: EiData::Big,
        ei_version: EiVersion::One,
        ei_osabi: EiOsAbi::FreeBSD,
        ei_abiversion: EiAbiVersion::Zero,
    };
    assert_eq!(
        encode_ident(&id),
        vec![
            0x7f, 0x45, 0x4c, 0x46, 0x02, 0x02, 0x01, 0x09, 0x00, 0x00, 0x00, 0x00, 0x00, 0x00,
            0x00, 0x00
        ]
    );
}

#[test]
fn file_header_region_bytes_round_trip() {
    // encode(decode(bytes)) == bytes for a well-formed 32-bit region.
    let region: Vec<u8> = vec![
        0x7f, 0x45, 0x4c, 0x46, // magic
        0x01, 0x01, 0x01, 0x00, // class, data, version, osabi
        0x01, 0x00, 0x00, 0x00, 0x00, 0x00, 0x00, 0x00, // abiversion + padding
        0x00, 0x00, // type
        0x03, 0x00, // machine
        0x01, 0x00, 0x00, 0x00, // version
        0x05, 0x00, 0x00, 0x00, // entry
        0x0A, 0x00, 0x00, 0x00, // phoff
        0x0B, 0x00, 0x00, 0x00, // shoff
        0x02, 0x00, 0x00, 0x00, // flags
        0x00, 0x00, // eh_size
        0x01, 0x00, // phentsize
        0x01, 0x00, // phnum
        0x01, 0x00, // shentsize
        0x01, 0x00, // shnum
        0x01, 0x00, // shstrndx
    ];
    let id = decode_ident(&region).unwrap();
    let header = decode_file_header32(&region, 16, id.ei_data).unwrap();
    let mut reencoded = encode_ident(&id);
    reencoded.extend(header.serialize(id.ei_data));
    assert_eq!(reencoded, region);
}

#[test]
fn file_header32_value_round_trip() {
    let header = FileHeader::<u32> {
        file_type: Type::Dyn,
        machine: Machine::ARM,
        version: Version::One,
        entry_point: 0x8000,
        ph_offset: 52,
        sh_offset: 0x200,
        flags: 0x5000400,
        eh_size: 52,
        phent_size: 32,
        phnum: 4,
        shent_size: 40,
        shnum: 9,
        shstrndx: 8,
    };
    for e in [EiData::Little, EiData::Big] {
        let bytes = header.serialize(e);
        assert_eq!(bytes.len(), FILE_HEADER32_SIZE);
        assert_eq!(decode_file_header32(&bytes, 0, e), Ok(header));
    }
}

#[test]
fn file_header64_serializes_to_exact_big_endian_bytes() {
    let header = FileHeader::<u64> {
        file_type: Type::Exec,
        machine: Machine::AARCH64,
        version: Version::One,
        entry_point: 0x400000,
        ph_offset: 64,
        sh_offset: 4096,
        flags: 0,
        eh_size: 64,
        phent_size: 56,
        phnum: 1,
        shent_size: 64,
        shnum: 2,
        shstrndx: 1,
    };
    let bytes = header.serialize(EiData::Big);
    let expected: Vec<u8> = vec![
        0x00, 0x02, // type: Exec
        0x00, 0xb7, // machine: AARCH64
        0x00, 0x00, 0x00, 0x01, // version
        0x00, 0x00, 0x00, 0x00, 0x00, 0x40, 0x00, 0x00, // entry = 0x400000
        0x00, 0x00, 0x00, 0x00, 0x00, 0x00, 0x00, 0x40, // phoff = 64
        0x00, 0x00, 0x00, 0x00, 0x00, 0x00, 0x10, 0x00, // shoff = 4096
        0x00, 0x00, 0x00, 0x00, // flags
        0x00, 0x40, // eh_size
        0x00, 0x38, // phentsize
        0x00, 0x01, // phnum
        0x00, 0x40, // shentsize
        0x00, 0x02, // shnum
        0x00, 0x01, // shstrndx
    ];
    assert_eq!(bytes.len(), FILE_HEADER64_SIZE);
    assert_eq!(bytes, expected);
    assert_eq!(decode_file_header64(&bytes, 0, EiData::Big), Ok(header));
}

#[test]
fn file_header64_value_round_trip_little_endian() {
    let header = FileHeader::<u64> {
        file_type: Type::Rel,
        machine: Machine::RISCV,
        version: Version::One,
        entry_point: 0xdeadbeef00,
        ph_offset: 0x40,
        sh_offset: 0x123456789a,
        flags: 0xffffffff,
        eh_size: 64,
        phent_size: 56,
        phnum: 0xffff,
        shent_size: 64,
        shnum: 0,
        shstrndx: 0,
    };
    let bytes = header.serialize(EiData::Little);
    assert_eq!(decode_file_header64(&bytes, 0, EiData::Little), Ok(header));
}

#[test]
fn unknown_codes_round_trip_through_bytes() {
    // An Unknown machine keeps its raw code on the way back out.
    let header = FileHeader::<u32> {
        file_type: Type::Unknown(0x1234),
        machine: Machine::Unknown(0xABCD),
        version: Version::One,
        entry_point: 0,
        ph_offset: 0,
        sh_offset: 0,
        flags: 0,
        eh_size: 0,
        phent_size: 0,
        phnum: 0,
        shent_size: 0,
        shnum: 0,
        shstrndx: 0,
    };
    let bytes = header.serialize(EiData::Little);
    assert_eq!(bytes[0], 0x34);
    assert_eq!(bytes[1], 0x12);
    assert_eq!(bytes[2], 0xCD);
    assert_eq!(bytes[3], 0xAB);
    assert_eq!(decode_file_header32(&bytes, 0, EiData::Little), Ok(header));
}

#[test]
fn cursor_matches_fixed_width_integers() {
    let buffer: Vec<u8> = vec![0x11, 0x22, 0x33, 0x44, 0x55, 0x66, 0x77, 0x88, 0x99];
    assert_eq!(match_u16(&buffer, 0, EiData::Little), Some((0x2211, 2)));
    assert_eq!(match_u16(&buffer, 0, EiData::Big), Some((0x1122, 2)));
    assert_eq!(match_u32(&buffer, 1, EiData::Little), Some((0x55443322, 5)));
    assert_eq!(match_u32(&buffer, 1, EiData::Big), Some((0x22334455, 5)));
    assert_eq!(
        match_u64(&buffer, 0, EiData::Little),
        Some((0x8877665544332211, 8))
    );
    assert_eq!(
        match_u64(&buffer, 1, EiData::Big),
        Some((0x2233445566778899, 9))
    );
    assert_eq!(match_u16(&buffer, 8, EiData::Little), None);
    assert_eq!(match_u32(&buffer, 6, EiData::Big), None);
    assert_eq!(match_u64(&buffer, 2, EiData::Little), None);
}

#[test]
fn cursor_takes_and_expects_bytes() {
    let buffer: Vec<u8> = vec![0x7f, 0x45, 0x4c, 0x46, 0x01, 0x02];
    let (taken, rest) = take_fixed(&buffer, 1, 3).unwrap();
    assert_eq!(taken, vec![0x45, 0x4c, 0x46]);
    assert_eq!(rest, 4);
    assert_eq!(take_fixed(&buffer, 4, 3), None);

    let magic: Vec<u8> = vec![0x7f, 0x45, 0x4c, 0x46];
    assert_eq!(expect_bytes(&buffer, 0, &magic), Some(4));
    assert_eq!(expect_bytes(&buffer, 1, &magic), None);
    let too_long: Vec<u8> = vec![0x01, 0x02, 0x03];
    assert_eq!(expect_bytes(&buffer, 4, &too_long), None);
}
