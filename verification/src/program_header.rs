use crate::cursor::{read_u32, read_u64, u32_from_bytes, u64_from_bytes};
use crate::error::{ElfError, Stage};
use crate::ident::EiData;
use vstd::prelude::*;

verus! {

/// Segment kind from a program-header entry. The value space is open by
/// design: the base set, the GNU extensions, and whole OS- and
/// processor-specific ranges; any other code decodes to `Unknown`.
#[derive(Clone, Copy, Debug, PartialEq, Eq, Structural)]
pub enum ProgramHeaderType {
    Null,
    Load,
    Dynamic,
    Interp,
    Note,
    ShLib,
    PhDr,
    Tls,
    LoOs,
    HiOs,
    LoProc,
    HiProc,
    GnuEhFrame,
    GnuStack,
    GnuRelro,
    Unknown(u32),
}

/// The segment kind named by a program-header type code; total, every
/// code maps to some variant.
pub open spec fn ph_type_of_code(c: u32) -> ProgramHeaderType {
    if c == 0x00 {
        ProgramHeaderType::Null
    } else if c == 0x01 {
        ProgramHeaderType::Load
    } else if c == 0x02 {
        ProgramHeaderType::Dynamic
    } else if c == 0x03 {
        ProgramHeaderType::Interp
    } else if c == 0x04 {
        ProgramHeaderType::Note
    } else if c == 0x05 {
        ProgramHeaderType::ShLib
    } else if c == 0x06 {
        ProgramHeaderType::PhDr
    } else if c == 0x07 {
        ProgramHeaderType::Tls
    } else if c == 0x60000000 {
        ProgramHeaderType::LoOs
    } else if c == 0x6fffffff {
        ProgramHeaderType::HiOs
    } else if c == 0x70000000 {
        ProgramHeaderType::LoProc
    } else if c == 0x7fffffff {
        ProgramHeaderType::HiProc
    } else if c == 0x6474e550 {
        ProgramHeaderType::GnuEhFrame
    } else if c == 0x6474e551 {
        ProgramHeaderType::GnuStack
    } else if c == 0x6474e552 {
        ProgramHeaderType::GnuRelro
    } else {
        ProgramHeaderType::Unknown(c)
    }
}

/// The on-disk code for a segment kind.
pub open spec fn ph_type_code(t: ProgramHeaderType) -> u32 {
    match t {
        ProgramHeaderType::Null => 0x00,
        ProgramHeaderType::Load => 0x01,
        ProgramHeaderType::Dynamic => 0x02,
        ProgramHeaderType::Interp => 0x03,
        ProgramHeaderType::Note => 0x04,
        ProgramHeaderType::ShLib => 0x05,
        ProgramHeaderType::PhDr => 0x06,
        ProgramHeaderType::Tls => 0x07,
        ProgramHeaderType::LoOs => 0x60000000,
        ProgramHeaderType::HiOs => 0x6fffffff,
        ProgramHeaderType::LoProc => 0x70000000,
        ProgramHeaderType::HiProc => 0x7fffffff,
        ProgramHeaderType::GnuEhFrame => 0x6474e550,
        ProgramHeaderType::GnuStack => 0x6474e551,
        ProgramHeaderType::GnuRelro => 0x6474e552,
        ProgramHeaderType::Unknown(c) => c,
    }
}

/// A segment-kind value writes back the very code it was decoded from.
pub proof fn lemma_ph_type_code_round_trip(c: u32)
    ensures
        ph_type_code(ph_type_of_code(c)) == c,
{
}

impl ProgramHeaderType {
    /// The segment kind named by a type code; open, so every code maps to
    /// some variant.
    pub fn from_code(c: u32) -> (r: ProgramHeaderType)
        ensures
            r == ph_type_of_code(c),
    {
        match c {
            0x00 => ProgramHeaderType::Null,
            0x01 => ProgramHeaderType::Load,
            0x02 => ProgramHeaderType::Dynamic,
            0x03 => ProgramHeaderType::Interp,
            0x04 => ProgramHeaderType::Note,
            0x05 => ProgramHeaderType::ShLib,
            0x06 => ProgramHeaderType::PhDr,
            0x07 => ProgramHeaderType::Tls,
            0x60000000 => ProgramHeaderType::LoOs,
            0x6fffffff => ProgramHeaderType::HiOs,
            0x70000000 => ProgramHeaderType::LoProc,
            0x7fffffff => ProgramHeaderType::HiProc,
            0x6474e550 => ProgramHeaderType::GnuEhFrame,
            0x6474e551 => ProgramHeaderType::GnuStack,
            0x6474e552 => ProgramHeaderType::GnuRelro,
            _ => ProgramHeaderType::Unknown(c),
        }
    }

    /// The on-disk code for this segment kind.
    pub fn code(&self) -> (r: u32)
        ensures
            r == ph_type_code(*self),
    {
        match self {
            ProgramHeaderType::Null => 0x00,
            ProgramHeaderType::Load => 0x01,
            ProgramHeaderType::Dynamic => 0x02,
            ProgramHeaderType::Interp => 0x03,
            ProgramHeaderType::Note => 0x04,
            ProgramHeaderType::ShLib => 0x05,
            ProgramHeaderType::PhDr => 0x06,
            ProgramHeaderType::Tls => 0x07,
            ProgramHeaderType::LoOs => 0x60000000,
            ProgramHeaderType::HiOs => 0x6fffffff,
            ProgramHeaderType::LoProc => 0x70000000,
            ProgramHeaderType::HiProc => 0x7fffffff,
            ProgramHeaderType::GnuEhFrame => 0x6474e550,
            ProgramHeaderType::GnuStack => 0x6474e551,
            ProgramHeaderType::GnuRelro => 0x6474e552,
            ProgramHeaderType::Unknown(c) => *c,
        }
    }
}

/// One program-header entry in the 32-bit on-disk arrangement.
#[derive(Clone, Copy, Debug, PartialEq, Eq, Structural)]
pub struct ProgramHeader32Bit {
    pub p_type: ProgramHeaderType,
    pub offset: u32,
    pub vaddr: u32,
    pub paddr: u32,
    pub filesz: u32,
    pub memsz: u32,
    pub flags: u32,
    pub align: u32,
}

/// One program-header entry in the 64-bit on-disk arrangement, where the
/// flags word sits right after the type instead of near the end.
#[derive(Clone, Copy, Debug, PartialEq, Eq, Structural)]
pub struct ProgramHeader64Bit {
    pub p_type: ProgramHeaderType,
    pub flags: u32,
    pub offset: u64,
    pub vaddr: u64,
    pub paddr: u64,
    pub filesz: u64,
    pub memsz: u64,
    pub align: u64,
}

/// Byte size of one 32-bit program-header entry.
pub const PROGRAM_HEADER32_SIZE: usize = 32;

/// Byte size of one 64-bit program-header entry.
pub const PROGRAM_HEADER64_SIZE: usize = 56;

/// The entry held by the 32 bytes at `off`, 32-bit arrangement.
pub open spec fn spec_program_header32_at(b: Seq<u8>, off: int, e: EiData) -> ProgramHeader32Bit
    recommends
        0 <= off,
        off + 32 <= b.len(),
{
    ProgramHeader32Bit {
        p_type: ph_type_of_code(u32_from_bytes(e, b.subrange(off, off + 4))),
        offset: u32_from_bytes(e, b.subrange(off + 4, off + 8)),
        vaddr: u32_from_bytes(e, b.subrange(off + 8, off + 12)),
        paddr: u32_from_bytes(e, b.subrange(off + 12, off + 16)),
        filesz: u32_from_bytes(e, b.subrange(off + 16, off + 20)),
        memsz: u32_from_bytes(e, b.subrange(off + 20, off + 24)),
        flags: u32_from_bytes(e, b.subrange(off + 24, off + 28)),
        align: u32_from_bytes(e, b.subrange(off + 28, off + 32)),
    }
}

/// The entry held by the 56 bytes at `off`, 64-bit arrangement.
pub open spec fn spec_program_header64_at(b: Seq<u8>, off: int, e: EiData) -> ProgramHeader64Bit
    recommends
        0 <= off,
        off + 56 <= b.len(),
{
    ProgramHeader64Bit {
        p_type: ph_type_of_code(u32_from_bytes(e, b.subrange(off, off + 4))),
        flags: u32_from_bytes(e, b.subrange(off + 4, off + 8)),
        offset: u64_from_bytes(e, b.subrange(off + 8, off + 16)),
        vaddr: u64_from_bytes(e, b.subrange(off + 16, off + 24)),
        paddr: u64_from_bytes(e, b.subrange(off + 24, off + 32)),
        filesz: u64_from_bytes(e, b.subrange(off + 32, off + 40)),
        memsz: u64_from_bytes(e, b.subrange(off + 40, off + 48)),
        align: u64_from_bytes(e, b.subrange(off + 48, off + 56)),
    }
}

/// What decoding one 32-bit entry at `off` yields: the entry if its 32
/// bytes are present, the table's truncation error otherwise.
pub open spec fn spec_decode_program_header32(b: Seq<u8>, off: int, e: EiData) -> Result<
    ProgramHeader32Bit,
    ElfError,
> {
    if off + 32 > b.len() {
        Err(ElfError::TruncatedInput { stage: Stage::ProgramHeaderTable })
    } else {
        Ok(spec_program_header32_at(b, off, e))
    }
}

/// What decoding one 64-bit entry at `off` yields.
pub open spec fn spec_decode_program_header64(b: Seq<u8>, off: int, e: EiData) -> Result<
    ProgramHeader64Bit,
    ElfError,
> {
    if off + 56 > b.len() {
        Err(ElfError::TruncatedInput { stage: Stage::ProgramHeaderTable })
    } else {
        Ok(spec_program_header64_at(b, off, e))
    }
}

/// The table of `phnum` 32-bit entries laid out back to back at `phoff`,
/// in on-disk order.
pub open spec fn spec_program_header_table32(
    b: Seq<u8>,
    phoff: int,
    phnum: int,
    e: EiData,
) -> Seq<ProgramHeader32Bit> {
    Seq::new(phnum as nat, |i: int| spec_program_header32_at(b, phoff + 32 * i, e))
}

/// The table of `phnum` 64-bit entries laid out back to back at `phoff`.
pub open spec fn spec_program_header_table64(
    b: Seq<u8>,
    phoff: int,
    phnum: int,
    e: EiData,
) -> Seq<ProgramHeader64Bit> {
    Seq::new(phnum as nat, |i: int| spec_program_header64_at(b, phoff + 56 * i, e))
}

/// Reads the 32-bit entry at `off` without a bounds check; the table
/// decoder establishes the bound once for the whole table.
pub(crate) fn read_program_header32(b: &Vec<u8>, off: usize, e: EiData) -> (r: ProgramHeader32Bit)
    requires
        off + 32 <= b@.len(),
    ensures
        r == spec_program_header32_at(b@, off as int, e),
{
    proof {
        assert(b@.len() == b.len());
    }
    ProgramHeader32Bit {
        p_type: ProgramHeaderType::from_code(read_u32(b, off, e)),
        offset: read_u32(b, off + 4, e),
        vaddr: read_u32(b, off + 8, e),
        paddr: read_u32(b, off + 12, e),
        filesz: read_u32(b, off + 16, e),
        memsz: read_u32(b, off + 20, e),
        flags: read_u32(b, off + 24, e),
        align: read_u32(b, off + 28, e),
    }
}

/// Reads the 64-bit entry at `off` without a bounds check.
pub(crate) fn read_program_header64(b: &Vec<u8>, off: usize, e: EiData) -> (r: ProgramHeader64Bit)
    requires
        off + 56 <= b@.len(),
    ensures
        r == spec_program_header64_at(b@, off as int, e),
{
    proof {
        assert(b@.len() == b.len());
    }
    ProgramHeader64Bit {
        p_type: ProgramHeaderType::from_code(read_u32(b, off, e)),
        flags: read_u32(b, off + 4, e),
        offset: read_u64(b, off + 8, e),
        vaddr: read_u64(b, off + 16, e),
        paddr: read_u64(b, off + 24, e),
        filesz: read_u64(b, off + 32, e),
        memsz: read_u64(b, off + 40, e),
        align: read_u64(b, off + 48, e),
    }
}

/// Decodes the one 32-bit program-header entry at `off`.
pub fn decode_program_header32(b: &Vec<u8>, off: usize, e: EiData) -> (r: Result<
    ProgramHeader32Bit,
    ElfError,
>)
    ensures
        r == spec_decode_program_header32(b@, off as int, e),
{
    if off > b.len() || b.len() - off < 32 {
        return Err(ElfError::TruncatedInput { stage: Stage::ProgramHeaderTable });
    }
    Ok(read_program_header32(b, off, e))
}

/// Decodes the one 64-bit program-header entry at `off`.
pub fn decode_program_header64(b: &Vec<u8>, off: usize, e: EiData) -> (r: Result<
    ProgramHeader64Bit,
    ElfError,
>)
    ensures
        r == spec_decode_program_header64(b@, off as int, e),
{
    if off > b.len() || b.len() - off < 56 {
        return Err(ElfError::TruncatedInput { stage: Stage::ProgramHeaderTable });
    }
    Ok(read_program_header64(b, off, e))
}

/// Decodes exactly `phnum` 32-bit entries starting at the declared table
/// offset: the result keeps on-disk order and has length `phnum`, and a
/// buffer that cannot hold `phnum` whole entries is reported as truncated,
/// never short-read.
pub fn decode_program_headers32(b: &Vec<u8>, phoff: u32, phnum: u16, e: EiData) -> (r: Result<
    Vec<ProgramHeader32Bit>,
    ElfError,
>)
    ensures
        phoff + 32 * (phnum as int) <= b@.len() ==> (r matches Ok(v) && v@
            == spec_program_header_table32(b@, phoff as int, phnum as int, e)),
        phoff + 32 * (phnum as int) > b@.len() ==> r == Err::<Vec<ProgramHeader32Bit>, ElfError>(
            ElfError::TruncatedInput { stage: Stage::ProgramHeaderTable },
        ),
{
    if (phoff as u64) + 32u64 * (phnum as u64) > (b.len() as u64) {
        return Err(ElfError::TruncatedInput { stage: Stage::ProgramHeaderTable });
    }
    let base = phoff as usize;
    let n = phnum as usize;
    let mut out: Vec<ProgramHeader32Bit> = Vec::new();
    let mut i: usize = 0;
    while i < n
        invariant
            base + 32 * n <= b@.len(),
            b@.len() == b.len(),
            i <= n,
            out@.len() == i as int,
            forall|j: int|
                0 <= j < i ==> out@[j] == spec_program_header32_at(b@, base + 32 * j, e),
        decreases n - i,
    {
        let entry = read_program_header32(b, base + 32 * i, e);
        out.push(entry);
        i = i + 1;
    }
    proof {
        assert(out@ =~= spec_program_header_table32(b@, phoff as int, phnum as int, e));
    }
    Ok(out)
}

/// Decodes exactly `phnum` 64-bit entries starting at the declared table
/// offset, under the same exactness and truncation guarantees as the
/// 32-bit table.
pub fn decode_program_headers64(b: &Vec<u8>, phoff: u64, phnum: u16, e: EiData) -> (r: Result<
    Vec<ProgramHeader64Bit>,
    ElfError,
>)
    ensures
        phoff + 56 * (phnum as int) <= b@.len() ==> (r matches Ok(v) && v@
            == spec_program_header_table64(b@, phoff as int, phnum as int, e)),
        phoff + 56 * (phnum as int) > b@.len() ==> r == Err::<Vec<ProgramHeader64Bit>, ElfError>(
            ElfError::TruncatedInput { stage: Stage::ProgramHeaderTable },
        ),
{
    if (phoff as u128) + 56u128 * (phnum as u128) > (b.len() as u128) {
        return Err(ElfError::TruncatedInput { stage: Stage::ProgramHeaderTable });
    }
    proof {
        assert(phoff <= usize::MAX);
    }
    let base = phoff as usize;
    let n = phnum as usize;
    let mut out: Vec<ProgramHeader64Bit> = Vec::new();
    let mut i: usize = 0;
    while i < n
        invariant
            base + 56 * n <= b@.len(),
            b@.len() == b.len(),
            i <= n,
            out@.len() == i as int,
            forall|j: int|
                0 <= j < i ==> out@[j] == spec_program_header64_at(b@, base + 56 * j, e),
        decreases n - i,
    {
        let entry = read_program_header64(b, base + 56 * i, e);
        out.push(entry);
        i = i + 1;
    }
    proof {
        assert(out@ =~= spec_program_header_table64(b@, phoff as int, phnum as int, e));
    }
    Ok(out)
}

} // verus!
