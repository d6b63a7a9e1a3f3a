use vstd::prelude::*;

verus! {

/// The pipeline stage at which a decode gave up.
#[derive(Clone, Copy, Debug, PartialEq, Eq, Structural)]
pub enum Stage {
    Identification,
    FileHeader,
    ProgramHeaderTable,
    SectionHeaderTable,
}

/// A structured decode failure.
///
/// Identification and file-header failures abort the whole pipeline; a
/// truncated table likewise aborts it, tagged with the stage that ran out
/// of bytes. Open enumerations (machine, OS/ABI, header types) never fail:
/// an unrecognized code decodes to an `Unknown` variant instead.
#[derive(Clone, Copy, Debug, PartialEq, Eq, Structural)]
pub enum ElfError {
    /// The first four bytes are not `7F 45 4C 46`.
    MalformedMagic,
    /// The class byte names neither the 32-bit nor the 64-bit layout.
    UnsupportedClass,
    /// The data-encoding byte names neither little- nor big-endian order.
    UnsupportedDataEncoding,
    /// An identification or file-header version field is not 1.
    UnsupportedVersion,
    /// The buffer ends before the region that `stage` needed.
    TruncatedInput { stage: Stage },
}

} // verus!
