use crate::cursor::{read_u32, read_u64, u32_from_bytes, u64_from_bytes};
use crate::error::{ElfError, Stage};
use crate::ident::EiData;
use vstd::prelude::*;

verus! {

/// Section kind from a section-header entry. The value space is open: an
/// unrecognized code decodes to `Unknown` carrying the raw value, never
/// aliased to `Null`.
#[derive(Clone, Copy, Debug, PartialEq, Eq, Structural)]
pub enum ShType {
    Null,
    ProgBits,
    SymTab,
    StrTab,
    Rela,
    Hash,
    Dynamic,
    Note,
    NoBits,
    Rel,
    ShLib,
    DynSym,
    InitArray,
    FiniArray,
    PreInitArray,
    Group,
    SymTabShndx,
    Num,
    Unknown(u32),
}

/// The section kind named by a type code; total, every code maps to some
/// variant.
pub open spec fn sh_type_of_code(c: u32) -> ShType {
    if c == 0x00 {
        ShType::Null
    } else if c == 0x01 {
        ShType::ProgBits
    } else if c == 0x02 {
        ShType::SymTab
    } else if c == 0x03 {
        ShType::StrTab
    } else if c == 0x04 {
        ShType::Rela
    } else if c == 0x05 {
        ShType::Hash
    } else if c == 0x06 {
        ShType::Dynamic
    } else if c == 0x07 {
        ShType::Note
    } else if c == 0x08 {
        ShType::NoBits
    } else if c == 0x09 {
        ShType::Rel
    } else if c == 0x0a {
        ShType::ShLib
    } else if c == 0x0b {
        ShType::DynSym
    } else if c == 0x0e {
        ShType::InitArray
    } else if c == 0x0f {
        ShType::FiniArray
    } else if c == 0x10 {
        ShType::PreInitArray
    } else if c == 0x11 {
        ShType::Group
    } else if c == 0x12 {
        ShType::SymTabShndx
    } else if c == 0x13 {
        ShType::Num
    } else {
        ShType::Unknown(c)
    }
}

/// The on-disk code for a section kind.
pub open spec fn sh_type_code(t: ShType) -> u32 {
    match t {
        ShType::Null => 0x00,
        ShType::ProgBits => 0x01,
        ShType::SymTab => 0x02,
        ShType::StrTab => 0x03,
        ShType::Rela => 0x04,
        ShType::Hash => 0x05,
        ShType::Dynamic => 0x06,
        ShType::Note => 0x07,
        ShType::NoBits => 0x08,
        ShType::Rel => 0x09,
        ShType::ShLib => 0x0a,
        ShType::DynSym => 0x0b,
        ShType::InitArray => 0x0e,
        ShType::FiniArray => 0x0f,
        ShType::PreInitArray => 0x10,
        ShType::Group => 0x11,
        ShType::SymTabShndx => 0x12,
        ShType::Num => 0x13,
        ShType::Unknown(c) => c,
    }
}

/// A section-kind value writes back the very code it was decoded from.
pub proof fn lemma_sh_type_code_round_trip(c: u32)
    ensures
        sh_type_code(sh_type_of_code(c)) == c,
{
}

impl ShType {
    /// The section kind named by a type code; open, so every code maps to
    /// some variant.
    pub fn from_code(c: u32) -> (r: ShType)
        ensures
            r == sh_type_of_code(c),
    {
        match c {
            0x00 => ShType::Null,
            0x01 => ShType::ProgBits,
            0x02 => ShType::SymTab,
            0x03 => ShType::StrTab,
            0x04 => ShType::Rela,
            0x05 => ShType::Hash,
            0x06 => ShType::Dynamic,
            0x07 => ShType::Note,
            0x08 => ShType::NoBits,
            0x09 => ShType::Rel,
            0x0a => ShType::ShLib,
            0x0b => ShType::DynSym,
            0x0e => ShType::InitArray,
            0x0f => ShType::FiniArray,
            0x10 => ShType::PreInitArray,
            0x11 => ShType::Group,
            0x12 => ShType::SymTabShndx,
            0x13 => ShType::Num,
            _ => ShType::Unknown(c),
        }
    }

    /// The on-disk code for this section kind.
    pub fn code(&self) -> (r: u32)
        ensures
            r == sh_type_code(*self),
    {
        match self {
            ShType::Null => 0x00,
            ShType::ProgBits => 0x01,
            ShType::SymTab => 0x02,
            ShType::StrTab => 0x03,
            ShType::Rela => 0x04,
            ShType::Hash => 0x05,
            ShType::Dynamic => 0x06,
            ShType::Note => 0x07,
            ShType::NoBits => 0x08,
            ShType::Rel => 0x09,
            ShType::ShLib => 0x0a,
            ShType::DynSym => 0x0b,
            ShType::InitArray => 0x0e,
            ShType::FiniArray => 0x0f,
            ShType::PreInitArray => 0x10,
            ShType::Group => 0x11,
            ShType::SymTabShndx => 0x12,
            ShType::Num => 0x13,
            ShType::Unknown(c) => *c,
        }
    }
}

/// Writable-section bit of the section flags word, which is a bit set,
/// not an enumeration: decoded flags keep every bit of the raw value.
pub const SHF_WRITE: u32 = 0x1;

/// Occupies-memory bit of the section flags word.
pub const SHF_ALLOC: u32 = 0x2;

/// Executable-instructions bit of the section flags word.
pub const SHF_EXECINSTR: u32 = 0x4;

/// One section-header entry in the 32-bit on-disk arrangement. `sh_name`
/// is the raw string-table offset, left uninterpreted.
#[derive(Clone, Copy, Debug, PartialEq, Eq, Structural)]
pub struct SectionHeader32Bit {
    pub sh_name: u32,
    pub sh_type: ShType,
    pub sh_flags: u32,
    pub sh_addr: u32,
    pub sh_offset: u32,
    pub sh_size: u32,
    pub sh_link: u32,
    pub sh_info: u32,
    pub sh_addr_align: u32,
    pub sh_entsize: u32,
}

/// One section-header entry in the 64-bit on-disk arrangement; the link
/// and info fields stay four bytes wide at every width.
#[derive(Clone, Copy, Debug, PartialEq, Eq, Structural)]
pub struct SectionHeader64Bit {
    pub sh_name: u32,
    pub sh_type: ShType,
    pub sh_flags: u64,
    pub sh_addr: u64,
    pub sh_offset: u64,
    pub sh_size: u64,
    pub sh_link: u32,
    pub sh_info: u32,
    pub sh_addr_align: u64,
    pub sh_entsize: u64,
}

impl SectionHeader32Bit {
    /// Whether every bit of `mask` is set in this section's flags.
    pub fn has_flags(&self, mask: u32) -> (r: bool)
        ensures
            r == (self.sh_flags & mask == mask),
    {
        self.sh_flags & mask == mask
    }
}

impl SectionHeader64Bit {
    /// Whether every bit of `mask` is set in this section's flags.
    pub fn has_flags(&self, mask: u64) -> (r: bool)
        ensures
            r == (self.sh_flags & mask == mask),
    {
        self.sh_flags & mask == mask
    }
}

/// Byte size of one 32-bit section-header entry.
pub const SECTION_HEADER32_SIZE: usize = 40;

/// Byte size of one 64-bit section-header entry.
pub const SECTION_HEADER64_SIZE: usize = 64;

/// The entry held by the 40 bytes at `off`, 32-bit arrangement.
pub open spec fn spec_section_header32_at(b: Seq<u8>, off: int, e: EiData) -> SectionHeader32Bit
    recommends
        0 <= off,
        off + 40 <= b.len(),
{
    SectionHeader32Bit {
        sh_name: u32_from_bytes(e, b.subrange(off, off + 4)),
        sh_type: sh_type_of_code(u32_from_bytes(e, b.subrange(off + 4, off + 8))),
        sh_flags: u32_from_bytes(e, b.subrange(off + 8, off + 12)),
        sh_addr: u32_from_bytes(e, b.subrange(off + 12, off + 16)),
        sh_offset: u32_from_bytes(e, b.subrange(off + 16, off + 20)),
        sh_size: u32_from_bytes(e, b.subrange(off + 20, off + 24)),
        sh_link: u32_from_bytes(e, b.subrange(off + 24, off + 28)),
        sh_info: u32_from_bytes(e, b.subrange(off + 28, off + 32)),
        sh_addr_align: u32_from_bytes(e, b.subrange(off + 32, off + 36)),
        sh_entsize: u32_from_bytes(e, b.subrange(off + 36, off + 40)),
    }
}

/// The entry held by the 64 bytes at `off`, 64-bit arrangement.
pub open spec fn spec_section_header64_at(b: Seq<u8>, off: int, e: EiData) -> SectionHeader64Bit
    recommends
        0 <= off,
        off + 64 <= b.len(),
{
    SectionHeader64Bit {
        sh_name: u32_from_bytes(e, b.subrange(off, off + 4)),
        sh_type: sh_type_of_code(u32_from_bytes(e, b.subrange(off + 4, off + 8))),
        sh_flags: u64_from_bytes(e, b.subrange(off + 8, off + 16)),
        sh_addr: u64_from_bytes(e, b.subrange(off + 16, off + 24)),
        sh_offset: u64_from_bytes(e, b.subrange(off + 24, off + 32)),
        sh_size: u64_from_bytes(e, b.subrange(off + 32, off + 40)),
        sh_link: u32_from_bytes(e, b.subrange(off + 40, off + 44)),
        sh_info: u32_from_bytes(e, b.subrange(off + 44, off + 48)),
        sh_addr_align: u64_from_bytes(e, b.subrange(off + 48, off + 56)),
        sh_entsize: u64_from_bytes(e, b.subrange(off + 56, off + 64)),
    }
}

/// What decoding one 32-bit entry at `off` yields: the entry if its 40
/// bytes are present, the table's truncation error otherwise.
pub open spec fn spec_decode_section_header32(b: Seq<u8>, off: int, e: EiData) -> Result<
    SectionHeader32Bit,
    ElfError,
> {
    if off + 40 > b.len() {
        Err(ElfError::TruncatedInput { stage: Stage::SectionHeaderTable })
    } else {
        Ok(spec_section_header32_at(b, off, e))
    }
}

/// What decoding one 64-bit entry at `off` yields.
pub open spec fn spec_decode_section_header64(b: Seq<u8>, off: int, e: EiData) -> Result<
    SectionHeader64Bit,
    ElfError,
> {
    if off + 64 > b.len() {
        Err(ElfError::TruncatedInput { stage: Stage::SectionHeaderTable })
    } else {
        Ok(spec_section_header64_at(b, off, e))
    }
}

/// The table of `shnum` 32-bit entries laid out back to back at `shoff`,
/// in on-disk order.
pub open spec fn spec_section_header_table32(
    b: Seq<u8>,
    shoff: int,
    shnum: int,
    e: EiData,
) -> Seq<SectionHeader32Bit> {
    Seq::new(shnum as nat, |i: int| spec_section_header32_at(b, shoff + 40 * i, e))
}

/// The table of `shnum` 64-bit entries laid out back to back at `shoff`.
pub open spec fn spec_section_header_table64(
    b: Seq<u8>,
    shoff: int,
    shnum: int,
    e: EiData,
) -> Seq<SectionHeader64Bit> {
    Seq::new(shnum as nat, |i: int| spec_section_header64_at(b, shoff + 64 * i, e))
}

/// Reads the 32-bit entry at `off` without a bounds check; the table
/// decoder establishes the bound once for the whole table.
pub(crate) fn read_section_header32(b: &Vec<u8>, off: usize, e: EiData) -> (r: SectionHeader32Bit)
    requires
        off + 40 <= b@.len(),
    ensures
        r == spec_section_header32_at(b@, off as int, e),
{
    proof {
        assert(b@.len() == b.len());
    }
    SectionHeader32Bit {
        sh_name: read_u32(b, off, e),
        sh_type: ShType::from_code(read_u32(b, off + 4, e)),
        sh_flags: read_u32(b, off + 8, e),
        sh_addr: read_u32(b, off + 12, e),
        sh_offset: read_u32(b, off + 16, e),
        sh_size: read_u32(b, off + 20, e),
        sh_link: read_u32(b, off + 24, e),
        sh_info: read_u32(b, off + 28, e),
        sh_addr_align: read_u32(b, off + 32, e),
        sh_entsize: read_u32(b, off + 36, e),
    }
}

/// Reads the 64-bit entry at `off` without a bounds check.
pub(crate) fn read_section_header64(b: &Vec<u8>, off: usize, e: EiData) -> (r: SectionHeader64Bit)
    requires
        off + 64 <= b@.len(),
    ensures
        r == spec_section_header64_at(b@, off as int, e),
{
    proof {
        assert(b@.len() == b.len());
    }
    SectionHeader64Bit {
        sh_name: read_u32(b, off, e),
        sh_type: ShType::from_code(read_u32(b, off + 4, e)),
        sh_flags: read_u64(b, off + 8, e),
        sh_addr: read_u64(b, off + 16, e),
        sh_offset: read_u64(b, off + 24, e),
        sh_size: read_u64(b, off + 32, e),
        sh_link: read_u32(b, off + 40, e),
        sh_info: read_u32(b, off + 44, e),
        sh_addr_align: read_u64(b, off + 48, e),
        sh_entsize: read_u64(b, off + 56, e),
    }
}

/// Decodes the one 32-bit section-header entry at `off`.
pub fn decode_section_header32(b: &Vec<u8>, off: usize, e: EiData) -> (r: Result<
    SectionHeader32Bit,
    ElfError,
>)
    ensures
        r == spec_decode_section_header32(b@, off as int, e),
{
    if off > b.len() || b.len() - off < 40 {
        return Err(ElfError::TruncatedInput { stage: Stage::SectionHeaderTable });
    }
    Ok(read_section_header32(b, off, e))
}

/// Decodes the one 64-bit section-header entry at `off`.
pub fn decode_section_header64(b: &Vec<u8>, off: usize, e: EiData) -> (r: Result<
    SectionHeader64Bit,
    ElfError,
>)
    ensures
        r == spec_decode_section_header64(b@, off as int, e),
{
    if off > b.len() || b.len() - off < 64 {
        return Err(ElfError::TruncatedInput { stage: Stage::SectionHeaderTable });
    }
    Ok(read_section_header64(b, off, e))
}

/// Decodes exactly `shnum` 32-bit entries starting at the declared table
/// offset: the result keeps on-disk order and has length `shnum`, and a
/// buffer that cannot hold `shnum` whole entries is reported as truncated,
/// never short-read.
pub fn decode_section_headers32(b: &Vec<u8>, shoff: u32, shnum: u16, e: EiData) -> (r: Result<
    Vec<SectionHeader32Bit>,
    ElfError,
>)
    ensures
        shoff + 40 * (shnum as int) <= b@.len() ==> (r matches Ok(v) && v@
            == spec_section_header_table32(b@, shoff as int, shnum as int, e)),
        shoff + 40 * (shnum as int) > b@.len() ==> r == Err::<Vec<SectionHeader32Bit>, ElfError>(
            ElfError::TruncatedInput { stage: Stage::SectionHeaderTable },
        ),
{
    if (shoff as u64) + 40u64 * (shnum as u64) > (b.len() as u64) {
        return Err(ElfError::TruncatedInput { stage: Stage::SectionHeaderTable });
    }
    let base = shoff as usize;
    let n = shnum as usize;
    let mut out: Vec<SectionHeader32Bit> = Vec::new();
    let mut i: usize = 0;
    while i < n
        invariant
            base + 40 * n <= b@.len(),
            b@.len() == b.len(),
            i <= n,
            out@.len() == i as int,
            forall|j: int|
                0 <= j < i ==> out@[j] == spec_section_header32_at(b@, base + 40 * j, e),
        decreases n - i,
    {
        let entry = read_section_header32(b, base + 40 * i, e);
        out.push(entry);
        i = i + 1;
    }
    proof {
        assert(out@ =~= spec_section_header_table32(b@, shoff as int, shnum as int, e));
    }
    Ok(out)
}

/// Decodes exactly `shnum` 64-bit entries starting at the declared table
/// offset, under the same exactness and truncation guarantees as the
/// 32-bit table.
pub fn decode_section_headers64(b: &Vec<u8>, shoff: u64, shnum: u16, e: EiData) -> (r: Result<
    Vec<SectionHeader64Bit>,
    ElfError,
>)
    ensures
        shoff + 64 * (shnum as int) <= b@.len() ==> (r matches Ok(v) && v@
            == spec_section_header_table64(b@, shoff as int, shnum as int, e)),
        shoff + 64 * (shnum as int) > b@.len() ==> r == Err::<Vec<SectionHeader64Bit>, ElfError>(
            ElfError::TruncatedInput { stage: Stage::SectionHeaderTable },
        ),
{
    if (shoff as u128) + 64u128 * (shnum as u128) > (b.len() as u128) {
        return Err(ElfError::TruncatedInput { stage: Stage::SectionHeaderTable });
    }
    proof {
        assert(shoff <= usize::MAX);
    }
    let base = shoff as usize;
    let n = shnum as usize;
    let mut out: Vec<SectionHeader64Bit> = Vec::new();
    let mut i: usize = 0;
    while i < n
        invariant
            base + 64 * n <= b@.len(),
            b@.len() == b.len(),
            i <= n,
            out@.len() == i as int,
            forall|j: int|
                0 <= j < i ==> out@[j] == spec_section_header64_at(b@, base + 64 * j, e),
        decreases n - i,
    {
        let entry = read_section_header64(b, base + 64 * i, e);
        out.push(entry);
        i = i + 1;
    }
    proof {
        assert(out@ =~= spec_section_header_table64(b@, shoff as int, shnum as int, e));
    }
    Ok(out)
}

} // verus!
