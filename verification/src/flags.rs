//! The two flag bytes of the header, as sets of named flags.

use vstd::prelude::*;

verus! {

/// A flag read by a device's CPU.
#[derive(Clone, Copy, Debug, PartialEq, Eq, Structural)]
pub enum CPUFlag {
    ModBegin,
    ModEnd,
    StmBegin,
    StmEnd,
    IsDuty,
    ConfigSilencer,
    ReadsFpgaInfo,
    DoSync,
}

/// A flag read by a device's FPGA.
#[derive(Clone, Copy, Debug, PartialEq, Eq, Structural)]
pub enum FPGAFlag {
    LegacyMode,
    ForceFan,
    StmMode,
    StmGainMode,
}

/// What the devices put out, as the FPGA flags of an exchange say it: a
/// static drive, a streamed sequence of focus points, or a streamed
/// sequence of drive snapshots. The three exclude each other.
#[derive(Clone, Copy, Debug, PartialEq, Eq, Structural)]
pub enum OutputMode {
    Static,
    PointStm,
    GainStm,
}

/// The CPU flags of one header.
#[derive(Clone, Copy, Debug, PartialEq, Eq, Structural)]
pub struct CPUControlFlags {
    pub bits: u8,
}

/// The FPGA flags of one header.
#[derive(Clone, Copy, Debug, PartialEq, Eq, Structural)]
pub struct FPGAControlFlags {
    pub bits: u8,
}

/// All bits that name an FPGA flag.
pub const FPGA_ALL_BITS: u8 = 0x71;

impl CPUFlag {
    /// Position of the flag's bit in the flag byte.
    pub open spec fn index(self) -> u8 {
        match self {
            CPUFlag::ModBegin => 0,
            CPUFlag::ModEnd => 1,
            CPUFlag::StmBegin => 2,
            CPUFlag::StmEnd => 3,
            CPUFlag::IsDuty => 4,
            CPUFlag::ConfigSilencer => 5,
            CPUFlag::ReadsFpgaInfo => 6,
            CPUFlag::DoSync => 7,
        }
    }

    /// The flag's bit.
    pub open spec fn mask(self) -> u8 {
        match self {
            CPUFlag::ModBegin => 0x01,
            CPUFlag::ModEnd => 0x02,
            CPUFlag::StmBegin => 0x04,
            CPUFlag::StmEnd => 0x08,
            CPUFlag::IsDuty => 0x10,
            CPUFlag::ConfigSilencer => 0x20,
            CPUFlag::ReadsFpgaInfo => 0x40,
            CPUFlag::DoSync => 0x80,
        }
    }

    /// The flag's bit.
    pub fn bit(self) -> (r: u8)
        ensures
            r == self.mask(),
    {
        match self {
            CPUFlag::ModBegin => 0x01,
            CPUFlag::ModEnd => 0x02,
            CPUFlag::StmBegin => 0x04,
            CPUFlag::StmEnd => 0x08,
            CPUFlag::IsDuty => 0x10,
            CPUFlag::ConfigSilencer => 0x20,
            CPUFlag::ReadsFpgaInfo => 0x40,
            CPUFlag::DoSync => 0x80,
        }
    }
}

impl FPGAFlag {
    /// Position of the flag's bit in the flag byte.
    pub open spec fn index(self) -> u8 {
        match self {
            FPGAFlag::LegacyMode => 0,
            FPGAFlag::ForceFan => 4,
            FPGAFlag::StmMode => 5,
            FPGAFlag::StmGainMode => 6,
        }
    }

    /// The flag's bit.
    pub open spec fn mask(self) -> u8 {
        match self {
            FPGAFlag::LegacyMode => 0x01,
            FPGAFlag::ForceFan => 0x10,
            FPGAFlag::StmMode => 0x20,
            FPGAFlag::StmGainMode => 0x40,
        }
    }

    /// The flag's bit.
    pub fn bit(self) -> (r: u8)
        ensures
            r == self.mask(),
    {
        match self {
            FPGAFlag::LegacyMode => 0x01,
            FPGAFlag::ForceFan => 0x10,
            FPGAFlag::StmMode => 0x20,
            FPGAFlag::StmGainMode => 0x40,
        }
    }
}

impl CPUControlFlags {
    /// Whether `flag` is set.
    pub open spec fn has(self, flag: CPUFlag) -> bool {
        self.bits & flag.mask() == flag.mask()
    }

    /// The set with `flag` added.
    pub open spec fn with(self, flag: CPUFlag) -> CPUControlFlags {
        CPUControlFlags { bits: self.bits | flag.mask() }
    }

    /// The set with `flag` taken out.
    pub open spec fn without(self, flag: CPUFlag) -> CPUControlFlags {
        CPUControlFlags { bits: self.bits & !flag.mask() }
    }

    /// The set with `flag` added where `cond` holds, unchanged where not.
    pub open spec fn with_if(self, flag: CPUFlag, cond: bool) -> CPUControlFlags {
        if cond {
            self.with(flag)
        } else {
            self
        }
    }

    /// The set with `flag` added where `cond` holds, taken out where not.
    pub open spec fn with_set(self, flag: CPUFlag, cond: bool) -> CPUControlFlags {
        if cond {
            self.with(flag)
        } else {
            self.without(flag)
        }
    }

    /// The set with no flag.
    pub fn empty() -> (r: CPUControlFlags)
        ensures
            r.bits == 0,
    {
        CPUControlFlags { bits: 0 }
    }

    /// The set with exactly the given bits. Every bit names a CPU flag, so
    /// every byte is a set.
    pub fn from_bits(bits: u8) -> (r: Option<CPUControlFlags>)
        ensures
            r == Some(CPUControlFlags { bits }),
    {
        Some(CPUControlFlags { bits })
    }

    /// The flag byte.
    pub fn bits(&self) -> (r: u8)
        ensures
            r == self.bits,
    {
        self.bits
    }

    /// Whether `flag` is set.
    pub fn contains(&self, flag: CPUFlag) -> (r: bool)
        ensures
            r == self.has(flag),
    {
        let m: u8 = flag.bit();
        self.bits & m == m
    }

    /// Sets `flag`.
    pub fn insert(&mut self, flag: CPUFlag)
        ensures
            *final(self) == old(self).with(flag),
    {
        self.bits = self.bits | flag.bit();
    }

    /// Clears `flag`.
    pub fn remove(&mut self, flag: CPUFlag)
        ensures
            *final(self) == old(self).without(flag),
    {
        self.bits = self.bits & !flag.bit();
    }

    /// Sets `flag` where `value` is true, clears it where not.
    pub fn set(&mut self, flag: CPUFlag, value: bool)
        ensures
            *final(self) == old(self).with_set(flag, value),
    {
        if value {
            self.insert(flag);
        } else {
            self.remove(flag);
        }
    }
}

impl FPGAControlFlags {
    /// Whether `flag` is set.
    pub open spec fn has(self, flag: FPGAFlag) -> bool {
        self.bits & flag.mask() == flag.mask()
    }

    /// The set with `flag` added.
    pub open spec fn with(self, flag: FPGAFlag) -> FPGAControlFlags {
        FPGAControlFlags { bits: self.bits | flag.mask() }
    }

    /// The set with `flag` taken out.
    pub open spec fn without(self, flag: FPGAFlag) -> FPGAControlFlags {
        FPGAControlFlags { bits: self.bits & !flag.mask() }
    }

    /// The output that the flags ask for: a streamed one where `STM_MODE`
    /// is set, of snapshots where `STM_GAIN_MODE` is set too.
    pub open spec fn mode(self) -> OutputMode {
        if !self.has(FPGAFlag::StmMode) {
            OutputMode::Static
        } else if self.has(FPGAFlag::StmGainMode) {
            OutputMode::GainStm
        } else {
            OutputMode::PointStm
        }
    }

    /// The output that the flags ask for.
    pub fn output_mode(&self) -> (r: OutputMode)
        ensures
            r == self.mode(),
    {
        if !self.contains(FPGAFlag::StmMode) {
            OutputMode::Static
        } else if self.contains(FPGAFlag::StmGainMode) {
            OutputMode::GainStm
        } else {
            OutputMode::PointStm
        }
    }

    /// The set with `flag` added where `cond` holds, taken out where not.
    pub open spec fn with_set(self, flag: FPGAFlag, cond: bool) -> FPGAControlFlags {
        if cond {
            self.with(flag)
        } else {
            self.without(flag)
        }
    }

    /// The set with no flag.
    pub fn empty() -> (r: FPGAControlFlags)
        ensures
            r.bits == 0,
    {
        FPGAControlFlags { bits: 0 }
    }

    /// The set with exactly the given bits, if each of them names a flag.
    pub fn from_bits(bits: u8) -> (r: Option<FPGAControlFlags>)
        ensures
            r == if bits & !FPGA_ALL_BITS == 0 {
                Some(FPGAControlFlags { bits })
            } else {
                None::<FPGAControlFlags>
            },
    {
        if bits & !FPGA_ALL_BITS == 0 {
            Some(FPGAControlFlags { bits })
        } else {
            None
        }
    }

    /// The flag byte.
    pub fn bits(&self) -> (r: u8)
        ensures
            r == self.bits,
    {
        self.bits
    }

    /// Whether `flag` is set.
    pub fn contains(&self, flag: FPGAFlag) -> (r: bool)
        ensures
            r == self.has(flag),
    {
        let m: u8 = flag.bit();
        self.bits & m == m
    }

    /// Sets `flag`.
    pub fn insert(&mut self, flag: FPGAFlag)
        ensures
            *final(self) == old(self).with(flag),
    {
        self.bits = self.bits | flag.bit();
    }

    /// Clears `flag`.
    pub fn remove(&mut self, flag: FPGAFlag)
        ensures
            *final(self) == old(self).without(flag),
    {
        self.bits = self.bits & !flag.bit();
    }

    /// Sets `flag` where `value` is true, clears it where not.
    pub fn set(&mut self, flag: FPGAFlag, value: bool)
        ensures
            *final(self) == old(self).with_set(flag, value),
    {
        if value {
            self.insert(flag);
        } else {
            self.remove(flag);
        }
    }
}

/// Switching one bit of a byte on or off ends with that bit as asked and
/// leaves each other bit as it was.
pub proof fn lemma_single_bit(bits: u8, i: u8, j: u8)
    requires
        i < 8,
        j < 8,
    ensures
        (bits | (1u8 << i)) & (1u8 << i) == (1u8 << i),
        (bits & !(1u8 << i)) & (1u8 << i) != (1u8 << i),
        i != j ==> (((bits | (1u8 << i)) & (1u8 << j) == (1u8 << j)) == (bits & (1u8 << j) == (1u8
            << j))),
        i != j ==> (((bits & !(1u8 << i)) & (1u8 << j) == (1u8 << j)) == (bits & (1u8 << j) == (1u8
            << j))),
{
    assert((bits | (1u8 << i)) & (1u8 << i) == (1u8 << i)) by (bit_vector)
        requires
            i < 8,
    ;
    assert((bits & !(1u8 << i)) & (1u8 << i) != (1u8 << i)) by (bit_vector)
        requires
            i < 8,
    ;
    if i != j {
        assert(((bits | (1u8 << i)) & (1u8 << j) == (1u8 << j)) == (bits & (1u8 << j) == (1u8
            << j))) by (bit_vector)
            requires
                i < 8,
                j < 8,
                i != j,
        ;
        assert(((bits & !(1u8 << i)) & (1u8 << j) == (1u8 << j)) == (bits & (1u8 << j) == (1u8
            << j))) by (bit_vector)
            requires
                i < 8,
                j < 8,
                i != j,
        ;
    }
}

/// A CPU flag's bit is the one at its position.
pub proof fn lemma_cpu_mask(f: CPUFlag)
    ensures
        f.index() < 8,
        f.mask() == 1u8 << f.index(),
{
    assert(0x01u8 == 1u8 << 0u8) by (bit_vector);
    assert(0x02u8 == 1u8 << 1u8) by (bit_vector);
    assert(0x04u8 == 1u8 << 2u8) by (bit_vector);
    assert(0x08u8 == 1u8 << 3u8) by (bit_vector);
    assert(0x10u8 == 1u8 << 4u8) by (bit_vector);
    assert(0x20u8 == 1u8 << 5u8) by (bit_vector);
    assert(0x40u8 == 1u8 << 6u8) by (bit_vector);
    assert(0x80u8 == 1u8 << 7u8) by (bit_vector);
}

/// An FPGA flag's bit is the one at its position.
pub proof fn lemma_fpga_mask(f: FPGAFlag)
    ensures
        f.index() < 8,
        f.mask() == 1u8 << f.index(),
{
    assert(0x01u8 == 1u8 << 0u8) by (bit_vector);
    assert(0x10u8 == 1u8 << 4u8) by (bit_vector);
    assert(0x20u8 == 1u8 << 5u8) by (bit_vector);
    assert(0x40u8 == 1u8 << 6u8) by (bit_vector);
}

/// Setting a CPU flag makes it set, clearing it makes it clear, and neither
/// touches another flag.
pub proof fn lemma_cpu_flag_change(s: CPUControlFlags, f: CPUFlag, g: CPUFlag)
    ensures
        s.with(f).has(f),
        !s.without(f).has(f),
        f != g ==> s.with(f).has(g) == s.has(g),
        f != g ==> s.without(f).has(g) == s.has(g),
{
    lemma_cpu_mask(f);
    lemma_cpu_mask(g);
    lemma_single_bit(s.bits, f.index(), g.index());
}

/// Setting an FPGA flag makes it set, clearing it makes it clear, and
/// neither touches another flag.
pub proof fn lemma_fpga_flag_change(s: FPGAControlFlags, f: FPGAFlag, g: FPGAFlag)
    ensures
        s.with(f).has(f),
        !s.without(f).has(f),
        f != g ==> s.with(f).has(g) == s.has(g),
        f != g ==> s.without(f).has(g) == s.has(g),
{
    lemma_fpga_mask(f);
    lemma_fpga_mask(g);
    lemma_single_bit(s.bits, f.index(), g.index());
}

} // verus!
