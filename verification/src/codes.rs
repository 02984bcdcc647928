//! The code table: architectures, mode bit-flags and option identifiers,
//! together with the integer encodings the foreign engine expects.

use vstd::prelude::*;

verus! {

/// Instruction-set architectures the engine can be opened for.  Chosen once
/// at open time; each maps one-to-one to a foreign integer code.
#[derive(Clone, Copy, Debug, PartialEq, Eq, Structural)]
pub enum Arch {
    Arm,
    Arm64,
    MIPS,
    X86,
    PowerPC,
    Sparc,
    SystemZ,
    XCore,
}

/// The integer code the foreign engine uses for each architecture.
pub open spec fn arch_code(a: Arch) -> u32 {
    match a {
        Arch::Arm => 0,
        Arch::Arm64 => 1,
        Arch::MIPS => 2,
        Arch::X86 => 3,
        Arch::PowerPC => 4,
        Arch::Sparc => 5,
        Arch::SystemZ => 6,
        Arch::XCore => 7,
    }
}

impl Arch {
    /// Encode this architecture as the integer the foreign engine expects.
    pub fn code(self) -> (c: u32)
        ensures
            c == arch_code(self),
    {
        match self {
            Arch::Arm => 0,
            Arch::Arm64 => 1,
            Arch::MIPS => 2,
            Arch::X86 => 3,
            Arch::PowerPC => 4,
            Arch::Sparc => 5,
            Arch::SystemZ => 6,
            Arch::XCore => 7,
        }
    }
}

pub const MODE_LITTLE_ENDIAN: u32 = 0;
pub const MODE_ARM: u32 = 0;
pub const MODE_16: u32 = 0x2;
pub const MODE_32: u32 = 0x4;
pub const MODE_64: u32 = 0x8;
pub const MODE_THUMB: u32 = 0x10;
pub const MODE_MCLASS: u32 = 0x20;
pub const MODE_V8: u32 = 0x40;
pub const MODE_MICRO: u32 = 0x10;
pub const MODE_MIPS3: u32 = 0x20;
pub const MODE_MIPS32R6: u32 = 0x40;
pub const MODE_MIPSGP64: u32 = 0x80;
pub const MODE_V9: u32 = 0x10;
pub const MODE_BIG_ENDIAN: u32 = 0x8000_0000;
pub const MODE_MIPS32: u32 = 0x4;
pub const MODE_MIPS64: u32 = 0x8;

/// A set of mode bit-flags over a 32-bit space.  A flag's meaning depends on
/// the architecture the engine was opened for (the same bit can mean Thumb
/// for Arm and micro for MIPS), so the set is carried as opaque plain data:
/// combined by bitwise or, compared by equality, never interpreted here.
/// Whether a combination is valid is the foreign engine's decision, reported
/// through its status code.
#[derive(Clone, Copy, Debug, PartialEq, Eq, Structural)]
pub struct Mode {
    pub bits: u32,
}

impl Mode {
    /// The mode set holding exactly the given raw bits.
    pub fn from_bits(bits: u32) -> (m: Mode)
        ensures
            m.bits == bits,
    {
        Mode { bits }
    }

    /// Combine two mode sets by bitwise or.
    pub fn or(self, other: Mode) -> (m: Mode)
        ensures
            m.bits == self.bits | other.bits,
    {
        Mode { bits: self.bits | other.bits }
    }
}

/// Tunable engine behaviors; each takes a caller-supplied unsigned value
/// whose meaning the foreign engine defines.
#[derive(Clone, Copy, Debug, PartialEq, Eq, Structural)]
pub enum Opt {
    Syntax,
    Detail,
    Mode,
}

/// The integer code the foreign engine uses for each option.
pub open spec fn opt_code(o: Opt) -> u32 {
    match o {
        Opt::Syntax => 1,
        Opt::Detail => 2,
        Opt::Mode => 3,
    }
}

impl Opt {
    /// Encode this option as the integer the foreign engine expects.
    pub fn code(self) -> (c: u32)
        ensures
            c == opt_code(self),
    {
        match self {
            Opt::Syntax => 1,
            Opt::Detail => 2,
            Opt::Mode => 3,
        }
    }
}

} // verus!
