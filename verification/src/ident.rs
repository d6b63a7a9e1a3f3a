use crate::error::{ElfError, Stage};
use vstd::prelude::*;

verus! {

/// Word-width selector from identification byte 4: 32-bit or 64-bit layout.
#[derive(Clone, Copy, Debug, PartialEq, Eq, Structural)]
pub enum EiClass {
    ThirtyTwoBit,
    SixtyFourBit,
}

/// Byte order from identification byte 5, used for every multi-byte field
/// in the file.
#[derive(Clone, Copy, Debug, PartialEq, Eq, Structural)]
pub enum EiData {
    Little,
    Big,
}

/// Identification version from byte 6; only version 1 exists.
#[derive(Clone, Copy, Debug, PartialEq, Eq, Structural)]
pub enum EiVersion {
    One,
}

/// Target OS/ABI from identification byte 7. The registry is open:
/// an unrecognized byte decodes to `Unknown` and is never a failure.
#[derive(Clone, Copy, Debug, PartialEq, Eq, Structural)]
pub enum EiOsAbi {
    SysV,
    HPUX,
    NetBSD,
    Linux,
    GNUHurd,
    Solaris,
    AIX,
    IRIX,
    FreeBSD,
    Tru64,
    Novell,
    OpenBSD,
    OpenVMS,
    NonStop,
    Aros,
    Fenix,
    CloudABI,
    OpenVOS,
    Unknown(u8),
}

/// ABI version from identification byte 8; 0 and 1 are the named values,
/// anything else is kept as `Unknown`.
#[derive(Clone, Copy, Debug, PartialEq, Eq, Structural)]
pub enum EiAbiVersion {
    Zero,
    One,
    Unknown(u8),
}

/// The decoded 16-byte identification block: everything the rest of the
/// pipeline needs to pick a width and a byte order.
#[derive(Clone, Copy, Debug, PartialEq, Eq, Structural)]
pub struct EiIdent {
    pub ei_class: EiClass,
    pub ei_data: EiData,
    pub ei_version: EiVersion,
    pub ei_osabi: EiOsAbi,
    pub ei_abiversion: EiAbiVersion,
}

/// The four magic bytes `7F 'E' 'L' 'F'` that open every ELF file.
pub open spec fn magic() -> Seq<u8> {
    seq![0x7fu8, 0x45u8, 0x4cu8, 0x46u8]
}

pub open spec fn class_code(c: EiClass) -> u8 {
    match c {
        EiClass::ThirtyTwoBit => 0x01,
        EiClass::SixtyFourBit => 0x02,
    }
}

pub open spec fn data_code(d: EiData) -> u8 {
    match d {
        EiData::Little => 0x01,
        EiData::Big => 0x02,
    }
}

pub open spec fn version_code(v: EiVersion) -> u8 {
    match v {
        EiVersion::One => 0x01,
    }
}

pub open spec fn osabi_of_code(c: u8) -> EiOsAbi {
    if c == 0x00 {
        EiOsAbi::SysV
    } else if c == 0x01 {
        EiOsAbi::HPUX
    } else if c == 0x02 {
        EiOsAbi::NetBSD
    } else if c == 0x03 {
        EiOsAbi::Linux
    } else if c == 0x04 {
        EiOsAbi::GNUHurd
    } else if c == 0x06 {
        EiOsAbi::Solaris
    } else if c == 0x07 {
        EiOsAbi::AIX
    } else if c == 0x08 {
        EiOsAbi::IRIX
    } else if c == 0x09 {
        EiOsAbi::FreeBSD
    } else if c == 0x0a {
        EiOsAbi::Tru64
    } else if c == 0x0b {
        EiOsAbi::Novell
    } else if c == 0x0c {
        EiOsAbi::OpenBSD
    } else if c == 0x0d {
        EiOsAbi::OpenVMS
    } else if c == 0x0e {
        EiOsAbi::NonStop
    } else if c == 0x0f {
        EiOsAbi::Aros
    } else if c == 0x10 {
        EiOsAbi::Fenix
    } else if c == 0x11 {
        EiOsAbi::CloudABI
    } else if c == 0x12 {
        EiOsAbi::OpenVOS
    } else {
        EiOsAbi::Unknown(c)
    }
}

pub open spec fn osabi_code(a: EiOsAbi) -> u8 {
    match a {
        EiOsAbi::SysV => 0x00,
        EiOsAbi::HPUX => 0x01,
        EiOsAbi::NetBSD => 0x02,
        EiOsAbi::Linux => 0x03,
        EiOsAbi::GNUHurd => 0x04,
        EiOsAbi::Solaris => 0x06,
        EiOsAbi::AIX => 0x07,
        EiOsAbi::IRIX => 0x08,
        EiOsAbi::FreeBSD => 0x09,
        EiOsAbi::Tru64 => 0x0a,
        EiOsAbi::Novell => 0x0b,
        EiOsAbi::OpenBSD => 0x0c,
        EiOsAbi::OpenVMS => 0x0d,
        EiOsAbi::NonStop => 0x0e,
        EiOsAbi::Aros => 0x0f,
        EiOsAbi::Fenix => 0x10,
        EiOsAbi::CloudABI => 0x11,
        EiOsAbi::OpenVOS => 0x12,
        EiOsAbi::Unknown(c) => c,
    }
}

pub open spec fn abi_version_of_code(c: u8) -> EiAbiVersion {
    if c == 0x00 {
        EiAbiVersion::Zero
    } else if c == 0x01 {
        EiAbiVersion::One
    } else {
        EiAbiVersion::Unknown(c)
    }
}

pub open spec fn abi_version_code(a: EiAbiVersion) -> u8 {
    match a {
        EiAbiVersion::Zero => 0x00,
        EiAbiVersion::One => 0x01,
        EiAbiVersion::Unknown(c) => c,
    }
}

impl EiClass {
    /// The on-disk byte for this class.
    pub fn code(&self) -> (r: u8)
        ensures
            r == class_code(*self),
    {
        match self {
            EiClass::ThirtyTwoBit => 0x01,
            EiClass::SixtyFourBit => 0x02,
        }
    }
}

impl EiData {
    /// The on-disk byte for this data encoding.
    pub fn code(&self) -> (r: u8)
        ensures
            r == data_code(*self),
    {
        match self {
            EiData::Little => 0x01,
            EiData::Big => 0x02,
        }
    }
}

impl EiVersion {
    /// The on-disk byte for this identification version.
    pub fn code(&self) -> (r: u8)
        ensures
            r == version_code(*self),
    {
        match self {
            EiVersion::One => 0x01,
        }
    }
}

impl EiOsAbi {
    /// The OS/ABI named by an identification byte; open, so every byte maps
    /// to some variant.
    pub fn from_code(c: u8) -> (r: EiOsAbi)
        ensures
            r == osabi_of_code(c),
    {
        match c {
            0x00 => EiOsAbi::SysV,
            0x01 => EiOsAbi::HPUX,
            0x02 => EiOsAbi::NetBSD,
            0x03 => EiOsAbi::Linux,
            0x04 => EiOsAbi::GNUHurd,
            0x06 => EiOsAbi::Solaris,
            0x07 => EiOsAbi::AIX,
            0x08 => EiOsAbi::IRIX,
            0x09 => EiOsAbi::FreeBSD,
            0x0a => EiOsAbi::Tru64,
            0x0b => EiOsAbi::Novell,
            0x0c => EiOsAbi::OpenBSD,
            0x0d => EiOsAbi::OpenVMS,
            0x0e => EiOsAbi::NonStop,
            0x0f => EiOsAbi::Aros,
            0x10 => EiOsAbi::Fenix,
            0x11 => EiOsAbi::CloudABI,
            0x12 => EiOsAbi::OpenVOS,
            _ => EiOsAbi::Unknown(c),
        }
    }

    /// The on-disk byte for this OS/ABI.
    pub fn code(&self) -> (r: u8)
        ensures
            r == osabi_code(*self),
    {
        match self {
            EiOsAbi::SysV => 0x00,
            EiOsAbi::HPUX => 0x01,
            EiOsAbi::NetBSD => 0x02,
            EiOsAbi::Linux => 0x03,
            EiOsAbi::GNUHurd => 0x04,
            EiOsAbi::Solaris => 0x06,
            EiOsAbi::AIX => 0x07,
            EiOsAbi::IRIX => 0x08,
            EiOsAbi::FreeBSD => 0x09,
            EiOsAbi::Tru64 => 0x0a,
            EiOsAbi::Novell => 0x0b,
            EiOsAbi::OpenBSD => 0x0c,
            EiOsAbi::OpenVMS => 0x0d,
            EiOsAbi::NonStop => 0x0e,
            EiOsAbi::Aros => 0x0f,
            EiOsAbi::Fenix => 0x10,
            EiOsAbi::CloudABI => 0x11,
            EiOsAbi::OpenVOS => 0x12,
            EiOsAbi::Unknown(c) => *c,
        }
    }
}

impl EiAbiVersion {
    /// The ABI version named by an identification byte; open, so every byte
    /// maps to some variant.
    pub fn from_code(c: u8) -> (r: EiAbiVersion)
        ensures
            r == abi_version_of_code(c),
    {
        match c {
            0x00 => EiAbiVersion::Zero,
            0x01 => EiAbiVersion::One,
            _ => EiAbiVersion::Unknown(c),
        }
    }

    /// The on-disk byte for this ABI version.
    pub fn code(&self) -> (r: u8)
        ensures
            r == abi_version_code(*self),
    {
        match self {
            EiAbiVersion::Zero => 0x00,
            EiAbiVersion::One => 0x01,
            EiAbiVersion::Unknown(c) => *c,
        }
    }
}

/// What decoding the identification block of `b` yields.
///
/// A buffer whose first four bytes exist and differ from the magic is
/// malformed whatever else it holds; after that, sixteen bytes must be
/// present, the class and data bytes must name a known layout, and the
/// version byte must be 1. The OS/ABI and ABI-version bytes are open and
/// never fail; the seven padding bytes are skipped without being read.
pub open spec fn spec_decode_ident(b: Seq<u8>) -> Result<EiIdent, ElfError> {
    if b.len() >= 4 && b.subrange(0, 4) != magic() {
        Err(ElfError::MalformedMagic)
    } else if b.len() < 16 {
        Err(ElfError::TruncatedInput { stage: Stage::Identification })
    } else if b[4] != 0x01 && b[4] != 0x02 {
        Err(ElfError::UnsupportedClass)
    } else if b[5] != 0x01 && b[5] != 0x02 {
        Err(ElfError::UnsupportedDataEncoding)
    } else if b[6] != 0x01 {
        Err(ElfError::UnsupportedVersion)
    } else {
        Ok(EiIdent {
            ei_class: if b[4] == 0x01 {
                EiClass::ThirtyTwoBit
            } else {
                EiClass::SixtyFourBit
            },
            ei_data: if b[5] == 0x01 {
                EiData::Little
            } else {
                EiData::Big
            },
            ei_version: EiVersion::One,
            ei_osabi: osabi_of_code(b[7]),
            ei_abiversion: abi_version_of_code(b[8]),
        })
    }
}

/// The 16 bytes that an identification value writes back: magic, the five
/// field bytes, and zeroed padding.
pub open spec fn spec_encode_ident(id: EiIdent) -> Seq<u8> {
    seq![
        0x7fu8,
        0x45u8,
        0x4cu8,
        0x46u8,
        class_code(id.ei_class),
        data_code(id.ei_data),
        version_code(id.ei_version),
        osabi_code(id.ei_osabi),
        abi_version_code(id.ei_abiversion),
        0u8,
        0u8,
        0u8,
        0u8,
        0u8,
        0u8,
        0u8,
    ]
}

/// Decodes the identification block at the start of `b`.
pub fn decode_ident(b: &Vec<u8>) -> (r: Result<EiIdent, ElfError>)
    ensures
        r == spec_decode_ident(b@),
{
    if b.len() >= 4 && !(b[0] == 0x7f && b[1] == 0x45 && b[2] == 0x4c && b[3] == 0x46) {
        proof {
            assert(b@.subrange(0, 4)[0] == b@[0]);
            assert(b@.subrange(0, 4)[1] == b@[1]);
            assert(b@.subrange(0, 4)[2] == b@[2]);
            assert(b@.subrange(0, 4)[3] == b@[3]);
        }
        return Err(ElfError::MalformedMagic);
    }
    if b.len() < 16 {
        proof {
            if b@.len() >= 4 {
                assert(b@.subrange(0, 4) =~= magic());
            }
        }
        return Err(ElfError::TruncatedInput { stage: Stage::Identification });
    }
    proof {
        assert(b@.subrange(0, 4) =~= magic());
    }
    let class_byte = b[4];
    if class_byte != 0x01 && class_byte != 0x02 {
        return Err(ElfError::UnsupportedClass);
    }
    let data_byte = b[5];
    if data_byte != 0x01 && data_byte != 0x02 {
        return Err(ElfError::UnsupportedDataEncoding);
    }
    if b[6] != 0x01 {
        return Err(ElfError::UnsupportedVersion);
    }
    Ok(EiIdent {
        ei_class: if class_byte == 0x01 {
            EiClass::ThirtyTwoBit
        } else {
            EiClass::SixtyFourBit
        },
        ei_data: if data_byte == 0x01 {
            EiData::Little
        } else {
            EiData::Big
        },
        ei_version: EiVersion::One,
        ei_osabi: EiOsAbi::from_code(b[7]),
        ei_abiversion: EiAbiVersion::from_code(b[8]),
    })
}

/// Encodes an identification value back into its 16 on-disk bytes.
pub fn encode_ident(id: &EiIdent) -> (r: Vec<u8>)
    ensures
        r@ == spec_encode_ident(*id),
{
    let mut out: Vec<u8> = Vec::new();
    out.push(0x7f);
    out.push(0x45);
    out.push(0x4c);
    out.push(0x46);
    out.push(id.ei_class.code());
    out.push(id.ei_data.code());
    out.push(id.ei_version.code());
    out.push(id.ei_osabi.code());
    out.push(id.ei_abiversion.code());
    out.push(0);
    out.push(0);
    out.push(0);
    out.push(0);
    out.push(0);
    out.push(0);
    out.push(0);
    proof {
        assert(out@ =~= spec_encode_ident(*id));
    }
    out
}

/// An OS/ABI value writes back the very byte it was decoded from.
pub proof fn lemma_osabi_code_round_trip(c: u8)
    ensures
        osabi_code(osabi_of_code(c)) == c,
{
}

/// An ABI-version value writes back the very byte it was decoded from.
pub proof fn lemma_abi_version_code_round_trip(c: u8)
    ensures
        abi_version_code(abi_version_of_code(c)) == c,
{
}

/// Whether re-decoding this value's byte gives the value back; false only
/// for `Unknown` carrying a byte that the OS/ABI table in fact names.
pub open spec fn osabi_canonical(a: EiOsAbi) -> bool {
    osabi_of_code(osabi_code(a)) == a
}

/// Whether re-decoding this value's byte gives the value back.
pub open spec fn abi_version_canonical(a: EiAbiVersion) -> bool {
    abi_version_of_code(abi_version_code(a)) == a
}

/// Whether every open field of an identification value re-decodes to
/// itself; the closed fields always do.
pub open spec fn ident_canonical(id: EiIdent) -> bool {
    osabi_canonical(id.ei_osabi) && abi_version_canonical(id.ei_abiversion)
}

/// Every 16-byte block with the right magic, a known class and data
/// encoding, and version 1 decodes successfully, and re-encoding the
/// result reproduces all nine field bytes exactly; the OS/ABI and
/// ABI-version bytes may hold anything.
pub proof fn lemma_ident_decode_total(b: Seq<u8>)
    requires
        b.len() >= 16,
        b.subrange(0, 4) == magic(),
        b[4] == 0x01 || b[4] == 0x02,
        b[5] == 0x01 || b[5] == 0x02,
        b[6] == 0x01,
    ensures
        spec_decode_ident(b) is Ok,
        spec_encode_ident(spec_decode_ident(b)->Ok_0).subrange(0, 9) == b.subrange(0, 9),
{
    let id = spec_decode_ident(b)->Ok_0;
    assert(b[0] == magic()[0] && b[1] == magic()[1] && b[2] == magic()[2] && b[3] == magic()[3])
        by {
        assert(b.subrange(0, 4)[0] == b[0]);
        assert(b.subrange(0, 4)[1] == b[1]);
        assert(b.subrange(0, 4)[2] == b[2]);
        assert(b.subrange(0, 4)[3] == b[3]);
    }
    assert(spec_encode_ident(id).subrange(0, 9) =~= b.subrange(0, 9));
}

/// Round-trip law, value side: decoding an identification value's own
/// encoding gives the value back, for every value whose open fields are
/// canonical.
pub proof fn lemma_ident_round_trip(id: EiIdent)
    requires
        ident_canonical(id),
    ensures
        spec_decode_ident(spec_encode_ident(id)) == Ok::<EiIdent, ElfError>(id),
{
    let enc = spec_encode_ident(id);
    assert(enc.subrange(0, 4) =~= magic());
    assert(id.ei_version == EiVersion::One);
}

/// Round-trip law, byte side: re-encoding whatever a well-formed 16-byte
/// identification block with zeroed padding decoded to reproduces those
/// bytes exactly.
pub proof fn lemma_ident_bytes_round_trip(b: Seq<u8>)
    requires
        spec_decode_ident(b) is Ok,
        forall|i: int| 9 <= i < 16 ==> b[i] == 0,
    ensures
        spec_encode_ident(spec_decode_ident(b)->Ok_0) == b.subrange(0, 16),
{
    let id = spec_decode_ident(b)->Ok_0;
    assert(b.subrange(0, 4) == magic());
    assert(b[0] == magic()[0] && b[1] == magic()[1] && b[2] == magic()[2] && b[3] == magic()[3])
        by {
        assert(b.subrange(0, 4)[0] == b[0]);
        assert(b.subrange(0, 4)[1] == b[1]);
        assert(b.subrange(0, 4)[2] == b[2]);
        assert(b.subrange(0, 4)[3] == b[3]);
    }
    lemma_osabi_code_round_trip(b[7]);
    lemma_abi_version_code_round_trip(b[8]);
    assert(spec_encode_ident(id) =~= b.subrange(0, 16));
}

} // verus!
