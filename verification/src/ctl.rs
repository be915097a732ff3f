//! The HSFSTS_CTL status/control word of the controller and its bitfields.

use vstd::prelude::*;

verus! {

// Flag bits of HSFSTS_CTL, by position.

/// Flash Cycle Done (write 1 to clear).
pub const FDONE: u32 = 0x1;
/// Flash Cycle Error (write 1 to clear).
pub const FCERR: u32 = 0x2;
/// Access Error Log (write 1 to clear).
pub const H_AEL: u32 = 0x4;
/// SPI Cycle In Progress (read-only).
pub const H_SCIP: u32 = 0x20;
/// Write Status Disable.
pub const WRSDIS: u32 = 0x800;
/// PRR3 PRR4 Lock-Down.
pub const PRR34_LOCKDN: u32 = 0x1000;
/// Flash Descriptor Override Pin-Strap Status (read-only).
pub const FDOPSS: u32 = 0x2000;
/// Flash Descriptor Valid (read-only).
pub const FDV: u32 = 0x4000;
/// Flash Configuration Lock-Down.
pub const FLOCKDN: u32 = 0x8000;
/// Flash Cycle Go: writing 1 starts the programmed cycle.
pub const FGO: u32 = 0x1_0000;
/// Flash Cycle opcode subfield, bits 20:17.
pub const FCYCLE: u32 = 0x1E_0000;
/// Write Enable Type.
pub const WET: u32 = 0x20_0000;
/// Flash Data Byte Count subfield, bits 29:24; programmed with count minus one.
pub const FDBC: u32 = 0x3F00_0000;
/// Flash SPI SMI# Enable.
pub const FSMIE: u32 = 0x8000_0000;

/// The eleven cycle kinds the controller accepts in the FCYCLE subfield.
#[derive(Clone, Copy, Debug, PartialEq, Eq, Structural)]
pub enum HsfStsCtlCycle {
    /// Read the number of bytes given by FDBC plus one.
    Read,
    /// Reserved; the hardware treats it as a read.
    Rsvd,
    /// Write the number of bytes given by FDBC plus one.
    Write,
    /// Erase the 4096-byte block containing the flash address.
    BlockErase,
    /// Erase the 65536-byte sector containing the flash address.
    SectorErase,
    /// Read SFDP.
    ReadSfdp,
    /// Read JEDEC ID.
    ReadJedec,
    /// Write status.
    WriteStatus,
    /// Read status.
    ReadStatus,
    /// RPMC Op1.
    RpmcOp1,
    /// RPMC Op2.
    RpmcOp2,
}

/// The 4-bit code a cycle kind occupies in the FCYCLE subfield.
pub open spec fn cycle_code(c: HsfStsCtlCycle) -> u32 {
    match c {
        HsfStsCtlCycle::Read => 0x0,
        HsfStsCtlCycle::Rsvd => 0x1,
        HsfStsCtlCycle::Write => 0x2,
        HsfStsCtlCycle::BlockErase => 0x3,
        HsfStsCtlCycle::SectorErase => 0x4,
        HsfStsCtlCycle::ReadSfdp => 0x5,
        HsfStsCtlCycle::ReadJedec => 0x6,
        HsfStsCtlCycle::WriteStatus => 0x7,
        HsfStsCtlCycle::ReadStatus => 0x8,
        HsfStsCtlCycle::RpmcOp1 => 0x9,
        HsfStsCtlCycle::RpmcOp2 => 0xA,
    }
}

/// The FCYCLE subfield of a control word.
pub open spec fn cycle_field(bits: u32) -> u32 {
    (bits >> 17) & 0xF
}

/// The cycle kind a control word selects. The four codes above 0xA are
/// reserved by the hardware and are decoded as `Rsvd`.
pub open spec fn cycle_of(bits: u32) -> HsfStsCtlCycle {
    decode_cycle(cycle_field(bits))
}

/// Decode a 4-bit FCYCLE code into a cycle kind.
pub open spec fn decode_cycle(f: u32) -> HsfStsCtlCycle {
    if f == 0x0 {
        HsfStsCtlCycle::Read
    } else if f == 0x2 {
        HsfStsCtlCycle::Write
    } else if f == 0x3 {
        HsfStsCtlCycle::BlockErase
    } else if f == 0x4 {
        HsfStsCtlCycle::SectorErase
    } else if f == 0x5 {
        HsfStsCtlCycle::ReadSfdp
    } else if f == 0x6 {
        HsfStsCtlCycle::ReadJedec
    } else if f == 0x7 {
        HsfStsCtlCycle::WriteStatus
    } else if f == 0x8 {
        HsfStsCtlCycle::ReadStatus
    } else if f == 0x9 {
        HsfStsCtlCycle::RpmcOp1
    } else if f == 0xA {
        HsfStsCtlCycle::RpmcOp2
    } else {
        HsfStsCtlCycle::Rsvd
    }
}

/// The FDBC subfield of a control word, i.e. the byte count minus one.
pub open spec fn count_field(bits: u32) -> u32 {
    (bits >> 24) & 0x3F
}

/// What the FDBC subfield is programmed with for a requested byte count:
/// `count - 1`, clamped to the hardware maximum of 64 bytes, with a request
/// of 0 stored as 0.
pub open spec fn stored_count(value: u8) -> u32 {
    if value > 64 {
        63
    } else if value == 0 {
        0
    } else {
        (value - 1) as u32
    }
}

/// The bits the sanitize normalization clears: the fields that program a
/// cycle, and the SMI enable.
pub const SANITIZE_MASK: u32 = FGO | FCYCLE | WET | FDBC | FSMIE;

/// The normalization applied to a control word before a new cycle is
/// programmed and after completion or error: FGO, FCYCLE, WET, FDBC and
/// FSMIE cleared, every other bit kept.
pub open spec fn sanitized(bits: u32) -> u32 {
    bits & !SANITIZE_MASK
}

/// The descriptor section a Flash Descriptor Observability indirect read
/// targets, encoded in bits 14:12 of the FDOC register.
#[derive(Clone, Copy, Debug, PartialEq, Eq, Structural)]
pub enum FdoSection {
    FlashMap,
    Component,
    Region,
    Master,
}

/// The bits a section contributes to the FDOC register: the section code in
/// bits 14:12.
pub open spec fn section_bits(s: FdoSection) -> u32 {
    match s {
        FdoSection::FlashMap => 0x0000,
        FdoSection::Component => 0x1000,
        FdoSection::Region => 0x2000,
        FdoSection::Master => 0x3000,
    }
}

/// The FDOC register value selecting a section and an index: the section in
/// bits 14:12, the index (10 bits) in bits 11:2.
pub open spec fn fdoc_value(s: FdoSection, index: u16) -> u32 {
    section_bits(s) | (((index & 0x3FF) as u32) << 2)
}

/// The Hardware Sequencing Flash Status and Control word.
#[derive(Clone, Copy, Debug, PartialEq, Eq, Structural)]
pub struct HsfStsCtl {
    pub bits: u32,
}

impl HsfStsCtl {
    /// Wrap a raw register value.
    pub fn from_bits(bits: u32) -> (r: Self)
        ensures
            r.bits == bits,
    {
        HsfStsCtl { bits }
    }

    /// Whether every bit of `mask` is set.
    pub fn contains(&self, mask: u32) -> (r: bool)
        ensures
            r == (self.bits & mask == mask),
    {
        self.bits & mask == mask
    }

    /// Set every bit of `mask`.
    pub fn insert(&mut self, mask: u32)
        ensures
            final(self).bits == old(self).bits | mask,
    {
        self.bits = self.bits | mask;
    }

    /// Clear every bit of `mask`.
    pub fn remove(&mut self, mask: u32)
        ensures
            final(self).bits == old(self).bits & !mask,
    {
        self.bits = self.bits & !mask;
    }

    /// Normalize the word between cycles.
    ///
    /// FDONE, FCERR and H_AEL are cleared by the hardware if one is written,
    /// so they are left untouched here; H_SCIP, FDOPSS and FDV are read-only,
    /// and WRSDIS, PRR34_LOCKDN and FLOCKDN are likely locked, so they are
    /// left untouched too. FGO, FCYCLE, WET, FDBC and FSMIE are cleared.
    pub fn sanitize(&mut self)
        ensures
            final(self).bits == sanitized(old(self).bits),
    {
        let ghost b: u32 = self.bits;
        self.remove(FGO);
        self.remove(FCYCLE);
        self.remove(WET);
        self.remove(FDBC);
        self.remove(FSMIE);
        assert(((((b & !FGO) & !FCYCLE) & !WET) & !FDBC) & !FSMIE == b & !(FGO | FCYCLE | WET
            | FDBC | FSMIE)) by (bit_vector);
    }

    /// The cycle kind currently selected by the FCYCLE subfield.
    pub fn cycle(&self) -> (r: HsfStsCtlCycle)
        ensures
            r == cycle_of(self.bits),
    {
        let f: u32 = (self.bits >> 17) & 0xF;
        if f == 0x0 {
            HsfStsCtlCycle::Read
        } else if f == 0x2 {
            HsfStsCtlCycle::Write
        } else if f == 0x3 {
            HsfStsCtlCycle::BlockErase
        } else if f == 0x4 {
            HsfStsCtlCycle::SectorErase
        } else if f == 0x5 {
            HsfStsCtlCycle::ReadSfdp
        } else if f == 0x6 {
            HsfStsCtlCycle::ReadJedec
        } else if f == 0x7 {
            HsfStsCtlCycle::WriteStatus
        } else if f == 0x8 {
            HsfStsCtlCycle::ReadStatus
        } else if f == 0x9 {
            HsfStsCtlCycle::RpmcOp1
        } else if f == 0xA {
            HsfStsCtlCycle::RpmcOp2
        } else {
            HsfStsCtlCycle::Rsvd
        }
    }

    /// Clear the FCYCLE subfield and insert the given cycle kind.
    pub fn set_cycle(&mut self, value: HsfStsCtlCycle)
        ensures
            final(self).bits == (old(self).bits & !FCYCLE) | (cycle_code(value) << 17),
    {
        let code: u32 = match value {
            HsfStsCtlCycle::Read => 0x0,
            HsfStsCtlCycle::Rsvd => 0x1,
            HsfStsCtlCycle::Write => 0x2,
            HsfStsCtlCycle::BlockErase => 0x3,
            HsfStsCtlCycle::SectorErase => 0x4,
            HsfStsCtlCycle::ReadSfdp => 0x5,
            HsfStsCtlCycle::ReadJedec => 0x6,
            HsfStsCtlCycle::WriteStatus => 0x7,
            HsfStsCtlCycle::ReadStatus => 0x8,
            HsfStsCtlCycle::RpmcOp1 => 0x9,
            HsfStsCtlCycle::RpmcOp2 => 0xA,
        };
        self.bits = (self.bits & !FCYCLE) | (code << 17);
    }

    /// The byte count the FDBC subfield encodes: the stored value plus one.
    pub fn count(&self) -> (r: u8)
        ensures
            r == count_field(self.bits) + 1,
    {
        let bits: u32 = self.bits;
        let stored: u32 = (bits & FDBC) >> 24;
        assert((bits & FDBC) >> 24 == count_field(bits) && (bits & FDBC) >> 24 < 64)
            by (bit_vector);
        (stored + 1) as u8
    }

    /// Store a byte count into the FDBC subfield, in the hardware's
    /// count-minus-one encoding, clamped to the 64-byte hardware maximum.
    pub fn set_count(&mut self, value: u8)
        ensures
            final(self).bits == (old(self).bits & !FDBC) | (stored_count(value) << 24),
    {
        let clamped: u8 = if value > 64 {
            64
        } else {
            value
        };
        let stored: u32 = if clamped == 0 {
            0
        } else {
            (clamped - 1) as u32
        };
        self.bits = (self.bits & !FDBC) | (stored << 24);
    }
}

/// Setting a byte count and reading it back returns the count for requests
/// of 1 to 64 bytes; larger requests clamp to 64; a request of 0 stores a
/// zero subfield and so reads back as 1.
pub proof fn lemma_count_roundtrip(bits: u32, value: u8)
    ensures
        1 <= value <= 64 ==> count_field((bits & !FDBC) | (stored_count(value) << 24)) + 1
            == value,
        value > 64 ==> count_field((bits & !FDBC) | (stored_count(value) << 24)) + 1 == 64,
        value == 0 ==> count_field((bits & !FDBC) | (stored_count(value) << 24)) + 1 == 1,
{
    let s: u32 = stored_count(value);
    assert(s < 64 ==> count_field((bits & !FDBC) | (s << 24)) == s) by (bit_vector);
}

/// Setting a cycle kind and reading it back returns the same kind, for every
/// enumerated kind.
pub proof fn lemma_cycle_roundtrip(bits: u32, value: HsfStsCtlCycle)
    ensures
        cycle_of((bits & !FCYCLE) | (cycle_code(value) << 17)) == value,
{
    let c: u32 = cycle_code(value);
    assert(c <= 0xA ==> cycle_field((bits & !FCYCLE) | (c << 17)) == c) by (bit_vector);
}

/// Sanitizing leaves FDONE, FCERR, H_AEL, H_SCIP, WRSDIS, PRR34_LOCKDN,
/// FDOPSS, FDV and FLOCKDN unchanged and clears FGO, FCYCLE, WET, FDBC and
/// FSMIE.
pub proof fn lemma_sanitize_masks(bits: u32)
    ensures
        sanitized(bits) & (FDONE | FCERR | H_AEL | H_SCIP | WRSDIS | PRR34_LOCKDN | FDOPSS | FDV
            | FLOCKDN) == bits & (FDONE | FCERR | H_AEL | H_SCIP | WRSDIS | PRR34_LOCKDN | FDOPSS
            | FDV | FLOCKDN),
        sanitized(bits) & FGO == 0,
        sanitized(bits) & FCYCLE == 0,
        sanitized(bits) & WET == 0,
        sanitized(bits) & FDBC == 0,
        sanitized(bits) & FSMIE == 0,
{
    assert(sanitized(bits) & (FDONE | FCERR | H_AEL | H_SCIP | WRSDIS | PRR34_LOCKDN | FDOPSS
        | FDV | FLOCKDN) == bits & (FDONE | FCERR | H_AEL | H_SCIP | WRSDIS | PRR34_LOCKDN
        | FDOPSS | FDV | FLOCKDN)) by (bit_vector);
    assert(sanitized(bits) & FGO == 0 && sanitized(bits) & FCYCLE == 0 && sanitized(bits) & WET
        == 0 && sanitized(bits) & FDBC == 0 && sanitized(bits) & FSMIE == 0) by (bit_vector);
}

} // verus!
