use crate::cursor::{
    lemma_u16_bytes_round_trip, lemma_u16_value_round_trip, lemma_u32_bytes_round_trip,
    lemma_u32_value_round_trip, lemma_u64_bytes_round_trip, lemma_u64_value_round_trip, push_u16,
    push_u32, push_u64, read_u16, read_u32, read_u64, u16_from_bytes, u16_to_bytes, u32_from_bytes,
    u32_to_bytes, u64_from_bytes, u64_to_bytes,
};
use crate::error::{ElfError, Stage};
use crate::ident::EiData;
use crate::machine::{machine_canonical, machine_code, machine_of_code, Machine};
use vstd::prelude::*;

verus! {

/// Object-file kind from the file header's type field. Treated as an open
/// enumeration: codes outside the named set decode to `Unknown` so that
/// future or OS-specific kinds survive a round trip.
#[derive(Clone, Copy, Debug, PartialEq, Eq, Structural)]
pub enum Type {
    NoFileType,
    Rel,
    Exec,
    Dyn,
    Core,
    LoOs,
    HiOs,
    LoProc,
    HiProc,
    Unknown(u16),
}

/// File-header version; only version 1 exists.
#[derive(Clone, Copy, Debug, PartialEq, Eq, Structural)]
pub enum Version {
    One,
}

/// The object-file kind named by a type code; total, every code maps to
/// some variant.
pub open spec fn file_type_of_code(c: u16) -> Type {
    if c == 0x00 {
        Type::NoFileType
    } else if c == 0x01 {
        Type::Rel
    } else if c == 0x02 {
        Type::Exec
    } else if c == 0x03 {
        Type::Dyn
    } else if c == 0x04 {
        Type::Core
    } else if c == 0xfe00 {
        Type::LoOs
    } else if c == 0xfeff {
        Type::HiOs
    } else if c == 0xff00 {
        Type::LoProc
    } else if c == 0xffff {
        Type::HiProc
    } else {
        Type::Unknown(c)
    }
}

/// The on-disk code for an object-file kind.
pub open spec fn file_type_code(t: Type) -> u16 {
    match t {
        Type::NoFileType => 0x00,
        Type::Rel => 0x01,
        Type::Exec => 0x02,
        Type::Dyn => 0x03,
        Type::Core => 0x04,
        Type::LoOs => 0xfe00,
        Type::HiOs => 0xfeff,
        Type::LoProc => 0xff00,
        Type::HiProc => 0xffff,
        Type::Unknown(c) => c,
    }
}

/// A type value writes back the very code it was decoded from.
pub proof fn lemma_file_type_code_round_trip(c: u16)
    ensures
        file_type_code(file_type_of_code(c)) == c,
{
}

/// Whether re-decoding this value's code gives the value back; false only
/// for `Unknown` carrying a code that the named set covers.
pub open spec fn file_type_canonical(t: Type) -> bool {
    file_type_of_code(file_type_code(t)) == t
}

impl Type {
    /// The object-file kind named by a type code; open, so every code maps
    /// to some variant.
    pub fn from_code(c: u16) -> (r: Type)
        ensures
            r == file_type_of_code(c),
    {
        match c {
            0x00 => Type::NoFileType,
            0x01 => Type::Rel,
            0x02 => Type::Exec,
            0x03 => Type::Dyn,
            0x04 => Type::Core,
            0xfe00 => Type::LoOs,
            0xfeff => Type::HiOs,
            0xff00 => Type::LoProc,
            0xffff => Type::HiProc,
            _ => Type::Unknown(c),
        }
    }

    /// The on-disk code for this object-file kind.
    pub fn code(&self) -> (r: u16)
        ensures
            r == file_type_code(*self),
    {
        match self {
            Type::NoFileType => 0x00,
            Type::Rel => 0x01,
            Type::Exec => 0x02,
            Type::Dyn => 0x03,
            Type::Core => 0x04,
            Type::LoOs => 0xfe00,
            Type::HiOs => 0xfeff,
            Type::LoProc => 0xff00,
            Type::HiProc => 0xffff,
            Type::Unknown(c) => *c,
        }
    }
}

impl Version {
    /// The on-disk u32 for this version.
    pub fn code(&self) -> (r: u32)
        ensures
            r == 1u32,
    {
        match self {
            Version::One => 1,
        }
    }
}

/// The fixed-size file header that follows identification. `A` is the
/// address width, `u32` or `u64`, chosen by the identification class; it
/// sizes the entry point and the two table offsets.
#[derive(Clone, Copy, Debug, PartialEq, Eq, Structural)]
pub struct FileHeader<A> {
    pub file_type: Type,
    pub machine: Machine,
    pub version: Version,
    pub entry_point: A,
    pub ph_offset: A,
    pub sh_offset: A,
    pub flags: u32,
    pub eh_size: u16,
    pub phent_size: u16,
    pub phnum: u16,
    pub shent_size: u16,
    pub shnum: u16,
    pub shstrndx: u16,
}

/// Byte size of the 32-bit file header region.
pub const FILE_HEADER32_SIZE: usize = 36;

/// Byte size of the 64-bit file header region.
pub const FILE_HEADER64_SIZE: usize = 48;

/// What decoding the 32-bit file header region at `off` yields: the region
/// must be fully present and the version field must be 1; the type and
/// machine fields are open and never fail.
pub open spec fn spec_decode_file_header32(b: Seq<u8>, off: int, e: EiData) -> Result<
    FileHeader<u32>,
    ElfError,
> {
    if off + 36 > b.len() {
        Err(ElfError::TruncatedInput { stage: Stage::FileHeader })
    } else if u32_from_bytes(e, b.subrange(off + 4, off + 8)) != 1 {
        Err(ElfError::UnsupportedVersion)
    } else {
        Ok(
            FileHeader {
                file_type: file_type_of_code(u16_from_bytes(e, b.subrange(off, off + 2))),
                machine: machine_of_code(u16_from_bytes(e, b.subrange(off + 2, off + 4))),
                version: Version::One,
                entry_point: u32_from_bytes(e, b.subrange(off + 8, off + 12)),
                ph_offset: u32_from_bytes(e, b.subrange(off + 12, off + 16)),
                sh_offset: u32_from_bytes(e, b.subrange(off + 16, off + 20)),
                flags: u32_from_bytes(e, b.subrange(off + 20, off + 24)),
                eh_size: u16_from_bytes(e, b.subrange(off + 24, off + 26)),
                phent_size: u16_from_bytes(e, b.subrange(off + 26, off + 28)),
                phnum: u16_from_bytes(e, b.subrange(off + 28, off + 30)),
                shent_size: u16_from_bytes(e, b.subrange(off + 30, off + 32)),
                shnum: u16_from_bytes(e, b.subrange(off + 32, off + 34)),
                shstrndx: u16_from_bytes(e, b.subrange(off + 34, off + 36)),
            },
        )
    }
}

/// What decoding the 64-bit file header region at `off` yields; same
/// fields as the 32-bit form with the entry point and table offsets
/// widened to eight bytes.
pub open spec fn spec_decode_file_header64(b: Seq<u8>, off: int, e: EiData) -> Result<
    FileHeader<u64>,
    ElfError,
> {
    if off + 48 > b.len() {
        Err(ElfError::TruncatedInput { stage: Stage::FileHeader })
    } else if u32_from_bytes(e, b.subrange(off + 4, off + 8)) != 1 {
        Err(ElfError::UnsupportedVersion)
    } else {
        Ok(
            FileHeader {
                file_type: file_type_of_code(u16_from_bytes(e, b.subrange(off, off + 2))),
                machine: machine_of_code(u16_from_bytes(e, b.subrange(off + 2, off + 4))),
                version: Version::One,
                entry_point: u64_from_bytes(e, b.subrange(off + 8, off + 16)),
                ph_offset: u64_from_bytes(e, b.subrange(off + 16, off + 24)),
                sh_offset: u64_from_bytes(e, b.subrange(off + 24, off + 32)),
                flags: u32_from_bytes(e, b.subrange(off + 32, off + 36)),
                eh_size: u16_from_bytes(e, b.subrange(off + 36, off + 38)),
                phent_size: u16_from_bytes(e, b.subrange(off + 38, off + 40)),
                phnum: u16_from_bytes(e, b.subrange(off + 40, off + 42)),
                shent_size: u16_from_bytes(e, b.subrange(off + 42, off + 44)),
                shnum: u16_from_bytes(e, b.subrange(off + 44, off + 46)),
                shstrndx: u16_from_bytes(e, b.subrange(off + 46, off + 48)),
            },
        )
    }
}

/// The 36 bytes that a 32-bit file header writes back in the given byte
/// order.
pub open spec fn spec_encode_file_header32(h: FileHeader<u32>, e: EiData) -> Seq<u8> {
    u16_to_bytes(e, file_type_code(h.file_type)) + u16_to_bytes(e, machine_code(h.machine))
        + u32_to_bytes(e, 1u32) + u32_to_bytes(e, h.entry_point) + u32_to_bytes(e, h.ph_offset)
        + u32_to_bytes(e, h.sh_offset) + u32_to_bytes(e, h.flags) + u16_to_bytes(e, h.eh_size)
        + u16_to_bytes(e, h.phent_size) + u16_to_bytes(e, h.phnum) + u16_to_bytes(e, h.shent_size)
        + u16_to_bytes(e, h.shnum) + u16_to_bytes(e, h.shstrndx)
}

/// The 48 bytes that a 64-bit file header writes back in the given byte
/// order.
pub open spec fn spec_encode_file_header64(h: FileHeader<u64>, e: EiData) -> Seq<u8> {
    u16_to_bytes(e, file_type_code(h.file_type)) + u16_to_bytes(e, machine_code(h.machine))
        + u32_to_bytes(e, 1u32) + u64_to_bytes(e, h.entry_point) + u64_to_bytes(e, h.ph_offset)
        + u64_to_bytes(e, h.sh_offset) + u32_to_bytes(e, h.flags) + u16_to_bytes(e, h.eh_size)
        + u16_to_bytes(e, h.phent_size) + u16_to_bytes(e, h.phnum) + u16_to_bytes(e, h.shent_size)
        + u16_to_bytes(e, h.shnum) + u16_to_bytes(e, h.shstrndx)
}

/// Decodes the 32-bit file header region at `off` in byte order `e`.
pub fn decode_file_header32(b: &Vec<u8>, off: usize, e: EiData) -> (r: Result<
    FileHeader<u32>,
    ElfError,
>)
    ensures
        r == spec_decode_file_header32(b@, off as int, e),
{
    if off > b.len() || b.len() - off < 36 {
        return Err(ElfError::TruncatedInput { stage: Stage::FileHeader });
    }
    if read_u32(b, off + 4, e) != 1 {
        return Err(ElfError::UnsupportedVersion);
    }
    Ok(
        FileHeader {
            file_type: Type::from_code(read_u16(b, off, e)),
            machine: Machine::from_code(read_u16(b, off + 2, e)),
            version: Version::One,
            entry_point: read_u32(b, off + 8, e),
            ph_offset: read_u32(b, off + 12, e),
            sh_offset: read_u32(b, off + 16, e),
            flags: read_u32(b, off + 20, e),
            eh_size: read_u16(b, off + 24, e),
            phent_size: read_u16(b, off + 26, e),
            phnum: read_u16(b, off + 28, e),
            shent_size: read_u16(b, off + 30, e),
            shnum: read_u16(b, off + 32, e),
            shstrndx: read_u16(b, off + 34, e),
        },
    )
}

/// Decodes the 64-bit file header region at `off` in byte order `e`.
pub fn decode_file_header64(b: &Vec<u8>, off: usize, e: EiData) -> (r: Result<
    FileHeader<u64>,
    ElfError,
>)
    ensures
        r == spec_decode_file_header64(b@, off as int, e),
{
    if off > b.len() || b.len() - off < 48 {
        return Err(ElfError::TruncatedInput { stage: Stage::FileHeader });
    }
    if read_u32(b, off + 4, e) != 1 {
        return Err(ElfError::UnsupportedVersion);
    }
    Ok(
        FileHeader {
            file_type: Type::from_code(read_u16(b, off, e)),
            machine: Machine::from_code(read_u16(b, off + 2, e)),
            version: Version::One,
            entry_point: read_u64(b, off + 8, e),
            ph_offset: read_u64(b, off + 16, e),
            sh_offset: read_u64(b, off + 24, e),
            flags: read_u32(b, off + 32, e),
            eh_size: read_u16(b, off + 36, e),
            phent_size: read_u16(b, off + 38, e),
            phnum: read_u16(b, off + 40, e),
            shent_size: read_u16(b, off + 42, e),
            shnum: read_u16(b, off + 44, e),
            shstrndx: read_u16(b, off + 46, e),
        },
    )
}

impl FileHeader<u32> {
    /// Writes the 36-byte on-disk form of this header in byte order `e`.
    pub fn serialize(&self, e: EiData) -> (r: Vec<u8>)
        ensures
            r@ == spec_encode_file_header32(*self, e),
    {
        let mut out: Vec<u8> = Vec::new();
        push_u16(&mut out, e, self.file_type.code());
        push_u16(&mut out, e, self.machine.code());
        push_u32(&mut out, e, self.version.code());
        push_u32(&mut out, e, self.entry_point);
        push_u32(&mut out, e, self.ph_offset);
        push_u32(&mut out, e, self.sh_offset);
        push_u32(&mut out, e, self.flags);
        push_u16(&mut out, e, self.eh_size);
        push_u16(&mut out, e, self.phent_size);
        push_u16(&mut out, e, self.phnum);
        push_u16(&mut out, e, self.shent_size);
        push_u16(&mut out, e, self.shnum);
        push_u16(&mut out, e, self.shstrndx);
        proof {
            assert(out@ =~= spec_encode_file_header32(*self, e));
        }
        out
    }
}

impl FileHeader<u64> {
    /// Writes the 48-byte on-disk form of this header in byte order `e`.
    pub fn serialize(&self, e: EiData) -> (r: Vec<u8>)
        ensures
            r@ == spec_encode_file_header64(*self, e),
    {
        let mut out: Vec<u8> = Vec::new();
        push_u16(&mut out, e, self.file_type.code());
        push_u16(&mut out, e, self.machine.code());
        push_u32(&mut out, e, self.version.code());
        push_u64(&mut out, e, self.entry_point);
        push_u64(&mut out, e, self.ph_offset);
        push_u64(&mut out, e, self.sh_offset);
        push_u32(&mut out, e, self.flags);
        push_u16(&mut out, e, self.eh_size);
        push_u16(&mut out, e, self.phent_size);
        push_u16(&mut out, e, self.phnum);
        push_u16(&mut out, e, self.shent_size);
        push_u16(&mut out, e, self.shnum);
        push_u16(&mut out, e, self.shstrndx);
        proof {
            assert(out@ =~= spec_encode_file_header64(*self, e));
        }
        out
    }
}

/// Whether every enumerated field of a 32-bit header re-decodes to itself;
/// only `Unknown` variants carrying a code from the named sets fall
/// outside it.
pub open spec fn file_header32_canonical(h: FileHeader<u32>) -> bool {
    file_type_canonical(h.file_type) && machine_canonical(h.machine)
}

/// Whether every enumerated field of a 64-bit header re-decodes to itself.
pub open spec fn file_header64_canonical(h: FileHeader<u64>) -> bool {
    file_type_canonical(h.file_type) && machine_canonical(h.machine)
}

/// Round-trip law, value side, 32-bit: decoding a header's own encoding
/// gives the header back, for every header whose enumerated fields are
/// canonical.
pub proof fn lemma_file_header32_round_trip(h: FileHeader<u32>, e: EiData)
    requires
        file_header32_canonical(h),
    ensures
        spec_decode_file_header32(spec_encode_file_header32(h, e), 0, e) == Ok::<
            FileHeader<u32>,
            ElfError,
        >(h),
{
    let enc = spec_encode_file_header32(h, e);
    assert(enc.len() == 36);
    assert(enc.subrange(0, 2) =~= u16_to_bytes(e, file_type_code(h.file_type)));
    assert(enc.subrange(2, 4) =~= u16_to_bytes(e, machine_code(h.machine)));
    assert(enc.subrange(4, 8) =~= u32_to_bytes(e, 1u32));
    assert(enc.subrange(8, 12) =~= u32_to_bytes(e, h.entry_point));
    assert(enc.subrange(12, 16) =~= u32_to_bytes(e, h.ph_offset));
    assert(enc.subrange(16, 20) =~= u32_to_bytes(e, h.sh_offset));
    assert(enc.subrange(20, 24) =~= u32_to_bytes(e, h.flags));
    assert(enc.subrange(24, 26) =~= u16_to_bytes(e, h.eh_size));
    assert(enc.subrange(26, 28) =~= u16_to_bytes(e, h.phent_size));
    assert(enc.subrange(28, 30) =~= u16_to_bytes(e, h.phnum));
    assert(enc.subrange(30, 32) =~= u16_to_bytes(e, h.shent_size));
    assert(enc.subrange(32, 34) =~= u16_to_bytes(e, h.shnum));
    assert(enc.subrange(34, 36) =~= u16_to_bytes(e, h.shstrndx));
    lemma_u16_value_round_trip(e, file_type_code(h.file_type));
    lemma_u16_value_round_trip(e, machine_code(h.machine));
    lemma_u32_value_round_trip(e, 1u32);
    lemma_u32_value_round_trip(e, h.entry_point);
    lemma_u32_value_round_trip(e, h.ph_offset);
    lemma_u32_value_round_trip(e, h.sh_offset);
    lemma_u32_value_round_trip(e, h.flags);
    lemma_u16_value_round_trip(e, h.eh_size);
    lemma_u16_value_round_trip(e, h.phent_size);
    lemma_u16_value_round_trip(e, h.phnum);
    lemma_u16_value_round_trip(e, h.shent_size);
    lemma_u16_value_round_trip(e, h.shnum);
    lemma_u16_value_round_trip(e, h.shstrndx);
    assert(h.version == Version::One);
}

/// Round-trip law, value side, 64-bit.
#[verifier::rlimit(80)]
pub proof fn lemma_file_header64_round_trip(h: FileHeader<u64>, e: EiData)
    requires
        file_header64_canonical(h),
    ensures
        spec_decode_file_header64(spec_encode_file_header64(h, e), 0, e) == Ok::<
            FileHeader<u64>,
            ElfError,
        >(h),
{
    let enc = spec_encode_file_header64(h, e);
    assert(enc.len() == 48);
    assert(enc.subrange(0, 2) =~= u16_to_bytes(e, file_type_code(h.file_type)));
    assert(enc.subrange(2, 4) =~= u16_to_bytes(e, machine_code(h.machine)));
    assert(enc.subrange(4, 8) =~= u32_to_bytes(e, 1u32));
    assert(enc.subrange(8, 16) =~= u64_to_bytes(e, h.entry_point));
    assert(enc.subrange(16, 24) =~= u64_to_bytes(e, h.ph_offset));
    assert(enc.subrange(24, 32) =~= u64_to_bytes(e, h.sh_offset));
    assert(enc.subrange(32, 36) =~= u32_to_bytes(e, h.flags));
    assert(enc.subrange(36, 38) =~= u16_to_bytes(e, h.eh_size));
    assert(enc.subrange(38, 40) =~= u16_to_bytes(e, h.phent_size));
    assert(enc.subrange(40, 42) =~= u16_to_bytes(e, h.phnum));
    assert(enc.subrange(42, 44) =~= u16_to_bytes(e, h.shent_size));
    assert(enc.subrange(44, 46) =~= u16_to_bytes(e, h.shnum));
    assert(enc.subrange(46, 48) =~= u16_to_bytes(e, h.shstrndx));
    lemma_u16_value_round_trip(e, file_type_code(h.file_type));
    lemma_u16_value_round_trip(e, machine_code(h.machine));
    lemma_u32_value_round_trip(e, 1u32);
    lemma_u64_value_round_trip(e, h.entry_point);
    lemma_u64_value_round_trip(e, h.ph_offset);
    lemma_u64_value_round_trip(e, h.sh_offset);
    lemma_u32_value_round_trip(e, h.flags);
    lemma_u16_value_round_trip(e, h.eh_size);
    lemma_u16_value_round_trip(e, h.phent_size);
    lemma_u16_value_round_trip(e, h.phnum);
    lemma_u16_value_round_trip(e, h.shent_size);
    lemma_u16_value_round_trip(e, h.shnum);
    lemma_u16_value_round_trip(e, h.shstrndx);
    assert(h.version == Version::One);
}

/// Round-trip law, byte side, 32-bit: re-encoding whatever a well-formed
/// 36-byte region decoded to reproduces those bytes exactly.
pub proof fn lemma_file_header32_bytes_round_trip(b: Seq<u8>, off: int, e: EiData)
    requires
        0 <= off,
        spec_decode_file_header32(b, off, e) is Ok,
    ensures
        spec_encode_file_header32(spec_decode_file_header32(b, off, e)->Ok_0, e) == b.subrange(
            off,
            off + 36,
        ),
{
    let h = spec_decode_file_header32(b, off, e)->Ok_0;
    lemma_u16_bytes_round_trip(e, b.subrange(off, off + 2));
    lemma_u16_bytes_round_trip(e, b.subrange(off + 2, off + 4));
    lemma_u32_bytes_round_trip(e, b.subrange(off + 4, off + 8));
    lemma_u32_bytes_round_trip(e, b.subrange(off + 8, off + 12));
    lemma_u32_bytes_round_trip(e, b.subrange(off + 12, off + 16));
    lemma_u32_bytes_round_trip(e, b.subrange(off + 16, off + 20));
    lemma_u32_bytes_round_trip(e, b.subrange(off + 20, off + 24));
    lemma_u16_bytes_round_trip(e, b.subrange(off + 24, off + 26));
    lemma_u16_bytes_round_trip(e, b.subrange(off + 26, off + 28));
    lemma_u16_bytes_round_trip(e, b.subrange(off + 28, off + 30));
    lemma_u16_bytes_round_trip(e, b.subrange(off + 30, off + 32));
    lemma_u16_bytes_round_trip(e, b.subrange(off + 32, off + 34));
    lemma_u16_bytes_round_trip(e, b.subrange(off + 34, off + 36));
    assert(spec_encode_file_header32(h, e) =~= b.subrange(off, off + 36));
}

/// Round-trip law, byte side, 64-bit.
pub proof fn lemma_file_header64_bytes_round_trip(b: Seq<u8>, off: int, e: EiData)
    requires
        0 <= off,
        spec_decode_file_header64(b, off, e) is Ok,
    ensures
        spec_encode_file_header64(spec_decode_file_header64(b, off, e)->Ok_0, e) == b.subrange(
            off,
            off + 48,
        ),
{
    let h = spec_decode_file_header64(b, off, e)->Ok_0;
    lemma_u16_bytes_round_trip(e, b.subrange(off, off + 2));
    lemma_u16_bytes_round_trip(e, b.subrange(off + 2, off + 4));
    lemma_u32_bytes_round_trip(e, b.subrange(off + 4, off + 8));
    lemma_u64_bytes_round_trip(e, b.subrange(off + 8, off + 16));
    lemma_u64_bytes_round_trip(e, b.subrange(off + 16, off + 24));
    lemma_u64_bytes_round_trip(e, b.subrange(off + 24, off + 32));
    lemma_u32_bytes_round_trip(e, b.subrange(off + 32, off + 36));
    lemma_u16_bytes_round_trip(e, b.subrange(off + 36, off + 38));
    lemma_u16_bytes_round_trip(e, b.subrange(off + 38, off + 40));
    lemma_u16_bytes_round_trip(e, b.subrange(off + 40, off + 42));
    lemma_u16_bytes_round_trip(e, b.subrange(off + 42, off + 44));
    lemma_u16_bytes_round_trip(e, b.subrange(off + 44, off + 46));
    lemma_u16_bytes_round_trip(e, b.subrange(off + 46, off + 48));
    assert(spec_encode_file_header64(h, e) =~= b.subrange(off, off + 48));
}

/// An unrecognized machine or type code never makes the file header fail:
/// whenever the region is present and its version field is 1, the decode
/// succeeds, with open codes carried through as `Unknown`.
pub proof fn lemma_open_codes_never_fatal32(b: Seq<u8>, off: int, e: EiData)
    requires
        0 <= off,
        off + 36 <= b.len(),
        u32_from_bytes(e, b.subrange(off + 4, off + 8)) == 1,
    ensures
        spec_decode_file_header32(b, off, e) is Ok,
        spec_decode_file_header32(b, off, e)->Ok_0.machine == machine_of_code(
            u16_from_bytes(e, b.subrange(off + 2, off + 4)),
        ),
{
}

/// The 64-bit counterpart of the open-code law.
pub proof fn lemma_open_codes_never_fatal64(b: Seq<u8>, off: int, e: EiData)
    requires
        0 <= off,
        off + 48 <= b.len(),
        u32_from_bytes(e, b.subrange(off + 4, off + 8)) == 1,
    ensures
        spec_decode_file_header64(b, off, e) is Ok,
        spec_decode_file_header64(b, off, e)->Ok_0.machine == machine_of_code(
            u16_from_bytes(e, b.subrange(off + 2, off + 4)),
        ),
{
}

} // verus!
