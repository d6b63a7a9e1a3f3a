use vstd::prelude::*;

verus! {

/// Target architecture from the file header's machine field. The registry
/// is open by design: an unrecognized code decodes to `Unknown` carrying
/// the raw value, and never fails the decode.
#[derive(Clone, Copy, Debug, PartialEq, Eq, Structural)]
pub enum Machine {
    NoMachine,
    M32,
    SPARC,
    X386,
    M68k,
    M88k,
    IntelMCU,
    Intel80860,
    MIPS,
    S370,
    MIPSRS3LE,
    PARISC,
    I960,
    PPC,
    PPC64,
    S390,
    V800,
    FR20,
    RH32,
    RCE,
    ARM,
    Alpha,
    SH,
    SPARCV9,
    Tricore,
    ARC,
    H8300,
    H8_300H,
    H8s,
    H8500,
    IA64,
    MIPSX,
    Coldfire,
    M68HC12,
    MMA,
    PCP,
    NCPU,
    NDR1,
    Starcore,
    ME16,
    ST100,
    TinyJ,
    X86_64,
    S320C600,
    AARCH64,
    RISCV,
    BPF,
    MCS6502,
    WDC65C817,
    Unknown(u16),
}

/// The architecture named by a machine code; total, every code maps to
/// some variant.
pub open spec fn machine_of_code(c: u16) -> Machine {
    if c == 0x00 {
        Machine::NoMachine
    } else if c == 0x01 {
        Machine::M32
    } else if c == 0x02 {
        Machine::SPARC
    } else if c == 0x03 {
        Machine::X386
    } else if c == 0x04 {
        Machine::M68k
    } else if c == 0x05 {
        Machine::M88k
    } else if c == 0x06 {
        Machine::IntelMCU
    } else if c == 0x07 {
        Machine::Intel80860
    } else if c == 0x08 {
        Machine::MIPS
    } else if c == 0x09 {
        Machine::S370
    } else if c == 0x0a {
        Machine::MIPSRS3LE
    } else if c == 0x0e {
        Machine::PARISC
    } else if c == 0x13 {
        Machine::I960
    } else if c == 0x14 {
        Machine::PPC
    } else if c == 0x15 {
        Machine::PPC64
    } else if c == 0x16 {
        Machine::S390
    } else if c == 0x24 {
        Machine::V800
    } else if c == 0x25 {
        Machine::FR20
    } else if c == 0x26 {
        Machine::RH32
    } else if c == 0x27 {
        Machine::RCE
    } else if c == 0x28 {
        Machine::ARM
    } else if c == 0x29 {
        Machine::Alpha
    } else if c == 0x2a {
        Machine::SH
    } else if c == 0x2b {
        Machine::SPARCV9
    } else if c == 0x2c {
        Machine::Tricore
    } else if c == 0x2d {
        Machine::ARC
    } else if c == 0x2e {
        Machine::H8300
    } else if c == 0x2f {
        Machine::H8_300H
    } else if c == 0x30 {
        Machine::H8s
    } else if c == 0x31 {
        Machine::H8500
    } else if c == 0x32 {
        Machine::IA64
    } else if c == 0x33 {
        Machine::MIPSX
    } else if c == 0x34 {
        Machine::Coldfire
    } else if c == 0x35 {
        Machine::M68HC12
    } else if c == 0x36 {
        Machine::MMA
    } else if c == 0x37 {
        Machine::PCP
    } else if c == 0x38 {
        Machine::NCPU
    } else if c == 0x39 {
        Machine::NDR1
    } else if c == 0x3a {
        Machine::Starcore
    } else if c == 0x3b {
        Machine::ME16
    } else if c == 0x3c {
        Machine::ST100
    } else if c == 0x3d {
        Machine::TinyJ
    } else if c == 0x3e {
        Machine::X86_64
    } else if c == 0x8c {
        Machine::S320C600
    } else if c == 0xb7 {
        Machine::AARCH64
    } else if c == 0xf3 {
        Machine::RISCV
    } else if c == 0xf7 {
        Machine::BPF
    } else if c == 0xfe {
        Machine::MCS6502
    } else if c == 0x101 {
        Machine::WDC65C817
    } else {
        Machine::Unknown(c)
    }
}

/// The on-disk code for an architecture.
pub open spec fn machine_code(m: Machine) -> u16 {
    match m {
        Machine::NoMachine => 0x00,
        Machine::M32 => 0x01,
        Machine::SPARC => 0x02,
        Machine::X386 => 0x03,
        Machine::M68k => 0x04,
        Machine::M88k => 0x05,
        Machine::IntelMCU => 0x06,
        Machine::Intel80860 => 0x07,
        Machine::MIPS => 0x08,
        Machine::S370 => 0x09,
        Machine::MIPSRS3LE => 0x0a,
        Machine::PARISC => 0x0e,
        Machine::I960 => 0x13,
        Machine::PPC => 0x14,
        Machine::PPC64 => 0x15,
        Machine::S390 => 0x16,
        Machine::V800 => 0x24,
        Machine::FR20 => 0x25,
        Machine::RH32 => 0x26,
        Machine::RCE => 0x27,
        Machine::ARM => 0x28,
        Machine::Alpha => 0x29,
        Machine::SH => 0x2a,
        Machine::SPARCV9 => 0x2b,
        Machine::Tricore => 0x2c,
        Machine::ARC => 0x2d,
        Machine::H8300 => 0x2e,
        Machine::H8_300H => 0x2f,
        Machine::H8s => 0x30,
        Machine::H8500 => 0x31,
        Machine::IA64 => 0x32,
        Machine::MIPSX => 0x33,
        Machine::Coldfire => 0x34,
        Machine::M68HC12 => 0x35,
        Machine::MMA => 0x36,
        Machine::PCP => 0x37,
        Machine::NCPU => 0x38,
        Machine::NDR1 => 0x39,
        Machine::Starcore => 0x3a,
        Machine::ME16 => 0x3b,
        Machine::ST100 => 0x3c,
        Machine::TinyJ => 0x3d,
        Machine::X86_64 => 0x3e,
        Machine::S320C600 => 0x8c,
        Machine::AARCH64 => 0xb7,
        Machine::RISCV => 0xf3,
        Machine::BPF => 0xf7,
        Machine::MCS6502 => 0xfe,
        Machine::WDC65C817 => 0x101,
        Machine::Unknown(c) => c,
    }
}

/// An architecture value writes back the very code it was decoded from:
/// named variants write their registry code, `Unknown` keeps the raw value.
pub proof fn lemma_machine_code_round_trip(c: u16)
    ensures
        machine_code(machine_of_code(c)) == c,
{
}

/// Whether re-decoding this value's code gives the value back; false only
/// for `Unknown` carrying a code that the registry in fact names.
pub open spec fn machine_canonical(m: Machine) -> bool {
    machine_of_code(machine_code(m)) == m
}

impl Machine {
    /// The architecture named by a machine code; open, so every code maps
    /// to some variant.
    pub fn from_code(c: u16) -> (r: Machine)
        ensures
            r == machine_of_code(c),
    {
        match c {
            0x00 => Machine::NoMachine,
            0x01 => Machine::M32,
            0x02 => Machine::SPARC,
            0x03 => Machine::X386,
            0x04 => Machine::M68k,
            0x05 => Machine::M88k,
            0x06 => Machine::IntelMCU,
            0x07 => Machine::Intel80860,
            0x08 => Machine::MIPS,
            0x09 => Machine::S370,
            0x0a => Machine::MIPSRS3LE,
            0x0e => Machine::PARISC,
            0x13 => Machine::I960,
            0x14 => Machine::PPC,
            0x15 => Machine::PPC64,
            0x16 => Machine::S390,
            0x24 => Machine::V800,
            0x25 => Machine::FR20,
            0x26 => Machine::RH32,
            0x27 => Machine::RCE,
            0x28 => Machine::ARM,
            0x29 => Machine::Alpha,
            0x2a => Machine::SH,
            0x2b => Machine::SPARCV9,
            0x2c => Machine::Tricore,
            0x2d => Machine::ARC,
            0x2e => Machine::H8300,
            0x2f => Machine::H8_300H,
            0x30 => Machine::H8s,
            0x31 => Machine::H8500,
            0x32 => Machine::IA64,
            0x33 => Machine::MIPSX,
            0x34 => Machine::Coldfire,
            0x35 => Machine::M68HC12,
            0x36 => Machine::MMA,
            0x37 => Machine::PCP,
            0x38 => Machine::NCPU,
            0x39 => Machine::NDR1,
            0x3a => Machine::Starcore,
            0x3b => Machine::ME16,
            0x3c => Machine::ST100,
            0x3d => Machine::TinyJ,
            0x3e => Machine::X86_64,
            0x8c => Machine::S320C600,
            0xb7 => Machine::AARCH64,
            0xf3 => Machine::RISCV,
            0xf7 => Machine::BPF,
            0xfe => Machine::MCS6502,
            0x101 => Machine::WDC65C817,
            _ => Machine::Unknown(c),
        }
    }

    /// The on-disk code for this architecture.
    pub fn code(&self) -> (r: u16)
        ensures
            r == machine_code(*self),
    {
        match self {
            Machine::NoMachine => 0x00,
            Machine::M32 => 0x01,
            Machine::SPARC => 0x02,
            Machine::X386 => 0x03,
            Machine::M68k => 0x04,
            Machine::M88k => 0x05,
            Machine::IntelMCU => 0x06,
            Machine::Intel80860 => 0x07,
            Machine::MIPS => 0x08,
            Machine::S370 => 0x09,
            Machine::MIPSRS3LE => 0x0a,
            Machine::PARISC => 0x0e,
            Machine::I960 => 0x13,
            Machine::PPC => 0x14,
            Machine::PPC64 => 0x15,
            Machine::S390 => 0x16,
            Machine::V800 => 0x24,
            Machine::FR20 => 0x25,
            Machine::RH32 => 0x26,
            Machine::RCE => 0x27,
            Machine::ARM => 0x28,
            Machine::Alpha => 0x29,
            Machine::SH => 0x2a,
            Machine::SPARCV9 => 0x2b,
            Machine::Tricore => 0x2c,
            Machine::ARC => 0x2d,
            Machine::H8300 => 0x2e,
            Machine::H8_300H => 0x2f,
            Machine::H8s => 0x30,
            Machine::H8500 => 0x31,
            Machine::IA64 => 0x32,
            Machine::MIPSX => 0x33,
            Machine::Coldfire => 0x34,
            Machine::M68HC12 => 0x35,
            Machine::MMA => 0x36,
            Machine::PCP => 0x37,
            Machine::NCPU => 0x38,
            Machine::NDR1 => 0x39,
            Machine::Starcore => 0x3a,
            Machine::ME16 => 0x3b,
            Machine::ST100 => 0x3c,
            Machine::TinyJ => 0x3d,
            Machine::X86_64 => 0x3e,
            Machine::S320C600 => 0x8c,
            Machine::AARCH64 => 0xb7,
            Machine::RISCV => 0xf3,
            Machine::BPF => 0xf7,
            Machine::MCS6502 => 0xfe,
            Machine::WDC65C817 => 0x101,
            Machine::Unknown(c) => *c,
        }
    }
}

} // verus!
