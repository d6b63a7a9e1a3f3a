use crate::error::{ElfError, Stage};
use crate::file_header::{
    decode_file_header32, decode_file_header64, spec_decode_file_header32,
    spec_decode_file_header64, spec_encode_file_header32, spec_encode_file_header64, FileHeader,
    lemma_file_header32_bytes_round_trip, lemma_file_header64_bytes_round_trip,
};
use crate::ident::{
    decode_ident, lemma_ident_bytes_round_trip, magic, spec_decode_ident, spec_encode_ident,
    EiClass, EiIdent,
};
use crate::program_header::{
    decode_program_headers32, decode_program_headers64, spec_program_header_table32,
    spec_program_header_table64, ProgramHeader32Bit, ProgramHeader64Bit,
};
use crate::section_header::{
    decode_section_headers32, decode_section_headers64, spec_section_header_table32,
    spec_section_header_table64, SectionHeader32Bit, SectionHeader64Bit,
};
use vstd::prelude::*;

verus! {

/// The fully decoded 32-bit form: identification, file header, and both
/// tables in on-disk order.
#[derive(Debug, PartialEq)]
pub struct ElfHeader32Bit {
    pub ei_ident: EiIdent,
    pub file_header: FileHeader<u32>,
    pub program_headers: Vec<ProgramHeader32Bit>,
    pub section_headers: Vec<SectionHeader32Bit>,
}

/// The fully decoded 64-bit form.
#[derive(Debug, PartialEq)]
pub struct ElfHeader64Bit {
    pub ei_ident: EiIdent,
    pub file_header: FileHeader<u64>,
    pub program_headers: Vec<ProgramHeader64Bit>,
    pub section_headers: Vec<SectionHeader64Bit>,
}

/// Mathematical image of `ElfHeader32Bit`, with the tables as sequences.
pub struct ElfHeader32View {
    pub ei_ident: EiIdent,
    pub file_header: FileHeader<u32>,
    pub program_headers: Seq<ProgramHeader32Bit>,
    pub section_headers: Seq<SectionHeader32Bit>,
}

/// Mathematical image of `ElfHeader64Bit`.
pub struct ElfHeader64View {
    pub ei_ident: EiIdent,
    pub file_header: FileHeader<u64>,
    pub program_headers: Seq<ProgramHeader64Bit>,
    pub section_headers: Seq<SectionHeader64Bit>,
}

impl View for ElfHeader32Bit {
    type V = ElfHeader32View;

    open spec fn view(&self) -> ElfHeader32View {
        ElfHeader32View {
            ei_ident: self.ei_ident,
            file_header: self.file_header,
            program_headers: self.program_headers@,
            section_headers: self.section_headers@,
        }
    }
}

impl View for ElfHeader64Bit {
    type V = ElfHeader64View;

    open spec fn view(&self) -> ElfHeader64View {
        ElfHeader64View {
            ei_ident: self.ei_ident,
            file_header: self.file_header,
            program_headers: self.program_headers@,
            section_headers: self.section_headers@,
        }
    }
}

impl ElfHeader32Bit {
    /// Assembles a decoded 32-bit header from its parts.
    pub fn new(
        ei_ident: EiIdent,
        file_header: FileHeader<u32>,
        program_headers: Vec<ProgramHeader32Bit>,
        section_headers: Vec<SectionHeader32Bit>,
    ) -> (r: Self)
        ensures
            r.ei_ident == ei_ident,
            r.file_header == file_header,
            r.program_headers == program_headers,
            r.section_headers == section_headers,
    {
        Self { ei_ident, file_header, program_headers, section_headers }
    }
}

impl ElfHeader64Bit {
    /// Assembles a decoded 64-bit header from its parts.
    pub fn new(
        ei_ident: EiIdent,
        file_header: FileHeader<u64>,
        program_headers: Vec<ProgramHeader64Bit>,
        section_headers: Vec<SectionHeader64Bit>,
    ) -> (r: Self)
        ensures
            r.ei_ident == ei_ident,
            r.file_header == file_header,
            r.program_headers == program_headers,
            r.section_headers == section_headers,
    {
        Self { ei_ident, file_header, program_headers, section_headers }
    }
}

/// A decoded ELF header of either width, as the identification block
/// selected it.
#[derive(Debug, PartialEq)]
pub enum ElfHeader {
    ThirtyTwoBit(ElfHeader32Bit),
    SixtyFourBit(ElfHeader64Bit),
}

/// Mathematical image of `ElfHeader`.
pub enum ElfHeaderView {
    ThirtyTwoBit(ElfHeader32View),
    SixtyFourBit(ElfHeader64View),
}

impl View for ElfHeader {
    type V = ElfHeaderView;

    open spec fn view(&self) -> ElfHeaderView {
        match self {
            ElfHeader::ThirtyTwoBit(h) => ElfHeaderView::ThirtyTwoBit(h@),
            ElfHeader::SixtyFourBit(h) => ElfHeaderView::SixtyFourBit(h@),
        }
    }
}

/// What the whole 32-bit pipeline yields once identification has chosen
/// this width: the file header region right after identification, then
/// exactly `phnum` and `shnum` table entries read at the offsets the
/// header itself declares. Any failure discards all partial work.
pub open spec fn spec_decode_elf32(b: Seq<u8>, id: EiIdent) -> Result<ElfHeader32View, ElfError> {
    let e = id.ei_data;
    match spec_decode_file_header32(b, 16, e) {
        Err(er) => Err(er),
        Ok(fh) => {
            if fh.ph_offset + 32 * (fh.phnum as int) > b.len() {
                Err(ElfError::TruncatedInput { stage: Stage::ProgramHeaderTable })
            } else if fh.sh_offset + 40 * (fh.shnum as int) > b.len() {
                Err(ElfError::TruncatedInput { stage: Stage::SectionHeaderTable })
            } else {
                Ok(
                    ElfHeader32View {
                        ei_ident: id,
                        file_header: fh,
                        program_headers: spec_program_header_table32(
                            b,
                            fh.ph_offset as int,
                            fh.phnum as int,
                            e,
                        ),
                        section_headers: spec_section_header_table32(
                            b,
                            fh.sh_offset as int,
                            fh.shnum as int,
                            e,
                        ),
                    },
                )
            }
        },
    }
}

/// What the whole 64-bit pipeline yields once identification has chosen
/// this width.
pub open spec fn spec_decode_elf64(b: Seq<u8>, id: EiIdent) -> Result<ElfHeader64View, ElfError> {
    let e = id.ei_data;
    match spec_decode_file_header64(b, 16, e) {
        Err(er) => Err(er),
        Ok(fh) => {
            if fh.ph_offset + 56 * (fh.phnum as int) > b.len() {
                Err(ElfError::TruncatedInput { stage: Stage::ProgramHeaderTable })
            } else if fh.sh_offset + 64 * (fh.shnum as int) > b.len() {
                Err(ElfError::TruncatedInput { stage: Stage::SectionHeaderTable })
            } else {
                Ok(
                    ElfHeader64View {
                        ei_ident: id,
                        file_header: fh,
                        program_headers: spec_program_header_table64(
                            b,
                            fh.ph_offset as int,
                            fh.phnum as int,
                            e,
                        ),
                        section_headers: spec_section_header_table64(
                            b,
                            fh.sh_offset as int,
                            fh.shnum as int,
                            e,
                        ),
                    },
                )
            }
        },
    }
}

/// What decoding a whole buffer yields: identification first, which picks
/// the width and byte order for everything after it; the first failing
/// stage aborts the pipeline with its own error.
pub open spec fn spec_decode_elf(b: Seq<u8>) -> Result<ElfHeaderView, ElfError> {
    match spec_decode_ident(b) {
        Err(er) => Err(er),
        Ok(id) => match id.ei_class {
            EiClass::ThirtyTwoBit => match spec_decode_elf32(b, id) {
                Ok(h) => Ok(ElfHeaderView::ThirtyTwoBit(h)),
                Err(er) => Err(er),
            },
            EiClass::SixtyFourBit => match spec_decode_elf64(b, id) {
                Ok(h) => Ok(ElfHeaderView::SixtyFourBit(h)),
                Err(er) => Err(er),
            },
        },
    }
}

/// Runs the 32-bit pipeline below identification: file header at offset
/// 16, then both tables at their declared offsets, exactly as many
/// entries as the header counts say.
pub fn decode_elf32(b: &Vec<u8>, id: EiIdent) -> (r: Result<ElfHeader32Bit, ElfError>)
    ensures
        (r is Ok) == (spec_decode_elf32(b@, id) is Ok),
        r matches Ok(h) ==> h@ == spec_decode_elf32(b@, id)->Ok_0,
        r matches Err(er) ==> spec_decode_elf32(b@, id) == Err::<ElfHeader32View, ElfError>(er),
{
    let e = id.ei_data;
    let fh = match decode_file_header32(b, 16, e) {
        Ok(fh) => fh,
        Err(er) => {
            return Err(er);
        },
    };
    let phs = match decode_program_headers32(b, fh.ph_offset, fh.phnum, e) {
        Ok(v) => v,
        Err(er) => {
            return Err(er);
        },
    };
    let shs = match decode_section_headers32(b, fh.sh_offset, fh.shnum, e) {
        Ok(v) => v,
        Err(er) => {
            return Err(er);
        },
    };
    Ok(
        ElfHeader32Bit {
            ei_ident: id,
            file_header: fh,
            program_headers: phs,
            section_headers: shs,
        },
    )
}

/// Runs the 64-bit pipeline below identification.
pub fn decode_elf64(b: &Vec<u8>, id: EiIdent) -> (r: Result<ElfHeader64Bit, ElfError>)
    ensures
        (r is Ok) == (spec_decode_elf64(b@, id) is Ok),
        r matches Ok(h) ==> h@ == spec_decode_elf64(b@, id)->Ok_0,
        r matches Err(er) ==> spec_decode_elf64(b@, id) == Err::<ElfHeader64View, ElfError>(er),
{
    let e = id.ei_data;
    let fh = match decode_file_header64(b, 16, e) {
        Ok(fh) => fh,
        Err(er) => {
            return Err(er);
        },
    };
    let phs = match decode_program_headers64(b, fh.ph_offset, fh.phnum, e) {
        Ok(v) => v,
        Err(er) => {
            return Err(er);
        },
    };
    let shs = match decode_section_headers64(b, fh.sh_offset, fh.shnum, e) {
        Ok(v) => v,
        Err(er) => {
            return Err(er);
        },
    };
    Ok(
        ElfHeader64Bit {
            ei_ident: id,
            file_header: fh,
            program_headers: phs,
            section_headers: shs,
        },
    )
}

/// Decodes a whole in-memory ELF image: identification, file header, and
/// both header tables, or the structured error of the first failing
/// stage.
pub fn decode_elf(b: &Vec<u8>) -> (r: Result<ElfHeader, ElfError>)
    ensures
        (r is Ok) == (spec_decode_elf(b@) is Ok),
        r matches Ok(h) ==> h@ == spec_decode_elf(b@)->Ok_0,
        r matches Err(er) ==> spec_decode_elf(b@) == Err::<ElfHeaderView, ElfError>(er),
{
    let id = match decode_ident(b) {
        Ok(id) => id,
        Err(er) => {
            return Err(er);
        },
    };
    match id.ei_class {
        EiClass::ThirtyTwoBit => match decode_elf32(b, id) {
            Ok(h) => Ok(ElfHeader::ThirtyTwoBit(h)),
            Err(er) => Err(er),
        },
        EiClass::SixtyFourBit => match decode_elf64(b, id) {
            Ok(h) => Ok(ElfHeader::SixtyFourBit(h)),
            Err(er) => Err(er),
        },
    }
}

/// A buffer whose first four bytes differ from the magic fails the whole
/// pipeline with `MalformedMagic`, whatever the rest of it holds.
pub proof fn lemma_bad_magic_rejected(b: Seq<u8>)
    requires
        b.len() >= 4,
        b.subrange(0, 4) != magic(),
    ensures
        spec_decode_elf(b) == Err::<ElfHeaderView, ElfError>(ElfError::MalformedMagic),
{
}

/// Round-trip law, byte side, 32-bit: re-encoding what a well-formed
/// 52-byte file-header region decoded to (identification with zeroed
/// padding, then the fixed fields) reproduces those bytes exactly.
pub proof fn lemma_header_region32_bytes_round_trip(b: Seq<u8>)
    requires
        spec_decode_ident(b) is Ok,
        spec_decode_ident(b)->Ok_0.ei_class == EiClass::ThirtyTwoBit,
        forall|i: int| 9 <= i < 16 ==> b[i] == 0,
        spec_decode_file_header32(b, 16, spec_decode_ident(b)->Ok_0.ei_data) is Ok,
    ensures
        spec_encode_ident(spec_decode_ident(b)->Ok_0) + spec_encode_file_header32(
            spec_decode_file_header32(b, 16, spec_decode_ident(b)->Ok_0.ei_data)->Ok_0,
            spec_decode_ident(b)->Ok_0.ei_data,
        ) == b.subrange(0, 52),
{
    let id = spec_decode_ident(b)->Ok_0;
    lemma_ident_bytes_round_trip(b);
    lemma_file_header32_bytes_round_trip(b, 16, id.ei_data);
    assert(spec_encode_ident(id) + spec_encode_file_header32(
        spec_decode_file_header32(b, 16, id.ei_data)->Ok_0,
        id.ei_data,
    ) =~= b.subrange(0, 52));
}

/// Round-trip law, byte side, 64-bit: the same for the 64-byte region.
pub proof fn lemma_header_region64_bytes_round_trip(b: Seq<u8>)
    requires
        spec_decode_ident(b) is Ok,
        spec_decode_ident(b)->Ok_0.ei_class == EiClass::SixtyFourBit,
        forall|i: int| 9 <= i < 16 ==> b[i] == 0,
        spec_decode_file_header64(b, 16, spec_decode_ident(b)->Ok_0.ei_data) is Ok,
    ensures
        spec_encode_ident(spec_decode_ident(b)->Ok_0) + spec_encode_file_header64(
            spec_decode_file_header64(b, 16, spec_decode_ident(b)->Ok_0.ei_data)->Ok_0,
            spec_decode_ident(b)->Ok_0.ei_data,
        ) == b.subrange(0, 64),
{
    let id = spec_decode_ident(b)->Ok_0;
    lemma_ident_bytes_round_trip(b);
    lemma_file_header64_bytes_round_trip(b, 16, id.ei_data);
    assert(spec_encode_ident(id) + spec_encode_file_header64(
        spec_decode_file_header64(b, 16, id.ei_data)->Ok_0,
        id.ei_data,
    ) =~= b.subrange(0, 64));
}

} // verus!
