//! The controller's register file, modelled with exact cycle semantics.
//!
//! [`SpiRegs`] holds every register of the hardware-sequencing SPI controller
//! together with a model of the flash array behind it. Writing HSFSTS_CTL
//! with FGO set executes the programmed cycle — read, write or block-erase —
//! against the modelled flash, exactly as the hardware would: the flash
//! address is taken from FADDR, the byte count from FDBC, data moves through
//! the FDATA buffer packed little-endian, and the status word is left with
//! FDONE or FCERR set and FGO cleared.

use vstd::prelude::*;
use vstd::arithmetic::div_mod::lemma_fundamental_div_mod;
use vstd::arithmetic::div_mod::lemma_mod_bound;

use crate::ctl::cycle_field;
use crate::ctl::count_field;
use crate::ctl::fdoc_value;
use crate::ctl::sanitized;
use crate::ctl::SANITIZE_MASK;
use crate::ctl::section_bits;
use crate::ctl::FdoSection;
use crate::ctl::HsfStsCtl;
use crate::ctl::FCERR;
use crate::ctl::FCYCLE;
use crate::ctl::FDBC;
use crate::ctl::FDONE;
use crate::ctl::FDOPSS;
use crate::ctl::FDV;
use crate::ctl::FGO;
use crate::ctl::FSMIE;
use crate::ctl::H_AEL;
use crate::ctl::H_SCIP;
use crate::ctl::WET;
use crate::ctl::HsfStsCtlCycle;
use crate::mmio::Mmio;
use crate::Spi;
use crate::SpiError;

verus! {

// Byte offsets of the registers from the controller's MMIO base, as the
// hardware lays them out.

/// BIOS Flash Primary Region.
pub const BFPREG_OFFSET: usize = 0x00;
/// Hardware Sequencing Flash Status and Control.
pub const HSFSTS_CTL_OFFSET: usize = 0x04;
/// Flash Address.
pub const FADDR_OFFSET: usize = 0x08;
/// Discrete Lock Bits.
pub const DLOCK_OFFSET: usize = 0x0C;
/// Flash Data buffer: 16 words, 64 bytes.
pub const FDATA_OFFSET: usize = 0x10;
/// Flash Region Access Permissions.
pub const FRACC_OFFSET: usize = 0x50;
/// Flash Region words, 6 of them.
pub const FREG_OFFSET: usize = 0x54;
/// Flash Protected Ranges, 5 of them.
pub const FPR_OFFSET: usize = 0x84;
/// Global Protected Range.
pub const GPR_OFFSET: usize = 0x98;
/// Secondary Flash Region Access Permissions.
pub const SFRACC_OFFSET: usize = 0xB0;
/// Flash Descriptor Observability Control.
pub const FDOC_OFFSET: usize = 0xB4;
/// Flash Descriptor Observability Data.
pub const FDOD_OFFSET: usize = 0xB8;
/// Additional Flash Control.
pub const AFC_OFFSET: usize = 0xC0;
/// Vendor Specific Capabilities for Component 0.
pub const VSCC0_OFFSET: usize = 0xC4;
/// Vendor Specific Capabilities for Component 1.
pub const VSCC1_OFFSET: usize = 0xC8;
/// Parameter Table Index.
pub const PTINX_OFFSET: usize = 0xCC;
/// Parameter Table Data.
pub const PTDATA_OFFSET: usize = 0xD0;
/// SPI Bus Requester Status.
pub const SBRS_OFFSET: usize = 0xD4;

/// Read-only status bits of HSFSTS_CTL: the hardware ignores writes to them.
pub const HSFSTS_RO: u32 = H_SCIP | FDOPSS | FDV;

/// Write-1-to-clear bits of HSFSTS_CTL.
pub const HSFSTS_W1C: u32 = FDONE | FCERR | H_AEL;

/// The HSFSTS_CTL value after software writes `v`: read-only bits keep
/// their old value, write-1-to-clear bits are cleared where `v` has ones,
/// every other bit takes the written value.
pub open spec fn ctl_merge(reg: u32, v: u32) -> u32 {
    (reg & HSFSTS_RO) | ((reg & HSFSTS_W1C) & !v) | (v & !HSFSTS_RO & !HSFSTS_W1C)
}

/// The status word the hardware leaves after a completed cycle: FGO
/// cleared, FDONE set.
pub open spec fn cycle_done(merged: u32) -> u32 {
    (merged & !FGO) | FDONE
}

/// The status word the hardware leaves after a failed cycle: FGO cleared,
/// FCERR set.
pub open spec fn cycle_error(merged: u32) -> u32 {
    (merged & !FGO) | FCERR
}

/// Byte `k` (0 to 3) of a little-endian packed 32-bit word.
pub open spec fn byte_of_word(w: u32, k: u32) -> u8
    recommends
        k < 4,
{
    ((w >> (8 * k)) & 0xFF) as u8
}

/// Four bytes packed little-endian into one 32-bit word.
pub open spec fn pack_word(b0: u8, b1: u8, b2: u8, b3: u8) -> u32 {
    (b0 as u32) | ((b1 as u32) << 8) | ((b2 as u32) << 16) | ((b3 as u32) << 24)
}

/// Byte `j` of a transfer of `count` bytes drawn from `bytes` starting at
/// `start`; positions past the count pad as zero.
pub open spec fn transfer_byte(bytes: Seq<u8>, start: int, count: int, j: int) -> u8 {
    if j < count {
        bytes[start + j]
    } else {
        0u8
    }
}

/// Data-buffer word `i` of a transfer of `count` bytes drawn from `bytes`
/// starting at `start`, packed little-endian.
pub open spec fn transfer_word(bytes: Seq<u8>, start: int, count: int, i: int) -> u32 {
    pack_word(
        transfer_byte(bytes, start, count, 4 * i),
        transfer_byte(bytes, start, count, 4 * i + 1),
        transfer_byte(bytes, start, count, 4 * i + 2),
        transfer_byte(bytes, start, count, 4 * i + 3),
    )
}

/// The FDATA words after a read cycle of `count` bytes at `start`: the
/// first words hold the flash bytes packed little-endian, the rest keep
/// their old value.
pub open spec fn fdata_after_read(
    old_fdata: Seq<u32>,
    flash: Seq<u8>,
    start: int,
    count: int,
) -> Seq<u32> {
    Seq::new(
        16,
        |i: int|
            if 4 * i < count {
                transfer_word(flash, start, count, i)
            } else {
                old_fdata[i]
            },
    )
}

/// The flash contents after a write cycle of `count` bytes at `start`: NOR
/// programming can only clear bits, so each byte drawn from the FDATA
/// buffer is ANDed into the cell it targets.
pub open spec fn flash_after_write(
    flash: Seq<u8>,
    fdata: Seq<u32>,
    start: int,
    count: int,
) -> Seq<u8> {
    Seq::new(
        flash.len(),
        |p: int|
            if start <= p < start + count {
                flash[p] & byte_of_word(fdata[(p - start) / 4], ((p - start) % 4) as u32)
            } else {
                flash[p]
            },
    )
}

/// The flash contents after a block-erase cycle of the 4096-byte sector at
/// `base`: every byte of the sector erases to 0xFF.
pub open spec fn flash_after_erase(flash: Seq<u8>, base: int) -> Seq<u8> {
    Seq::new(
        flash.len(),
        |p: int|
            if base <= p < base + 4096 {
                0xFFu8
            } else {
                flash[p]
            },
    )
}

/// The base of the 4096-byte sector containing a flash address.
pub open spec fn sector_base(addr: u32) -> u32 {
    addr & !0xFFFu32
}

/// The flash contents after the bytes of `data` are programmed at `start`:
/// NOR cells only clear, so each byte is ANDed into the cell it targets.
pub open spec fn flash_after_program(flash: Seq<u8>, data: Seq<u8>, start: int) -> Seq<u8> {
    Seq::new(
        flash.len(),
        |p: int|
            if start <= p < start + data.len() {
                flash[p] & data[p - start]
            } else {
                flash[p]
            },
    )
}

/// The component capacity encoded in the low 3 bits of the descriptor's
/// component record: a power of two from 512 KiB up to 64 MiB.
pub open spec fn capacity_of(component0: u32) -> usize {
    if component0 & 7 == 0 {
        0x8_0000
    } else if component0 & 7 == 1 {
        0x10_0000
    } else if component0 & 7 == 2 {
        0x20_0000
    } else if component0 & 7 == 3 {
        0x40_0000
    } else if component0 & 7 == 4 {
        0x80_0000
    } else if component0 & 7 == 5 {
        0x100_0000
    } else if component0 & 7 == 6 {
        0x200_0000
    } else {
        0x400_0000
    }
}

/// A cycle counter advanced by `n` completed cycles; the count saturates
/// at the largest value the counter can hold.
pub open spec fn sat_add(a: u64, n: int) -> u64
    recommends
        n >= 0,
{
    if a + n <= u64::MAX {
        (a + n) as u64
    } else {
        u64::MAX
    }
}

/// What the FDOD register returns for a given FDOC selection: the
/// component-section word at index 0 carries the descriptor's component 0
/// record; every other selection is not modelled and reads as zero.
pub open spec fn fdo_data(component0: u32, fdoc: u32) -> u32 {
    if fdoc == 0x1000 {
        component0
    } else {
        0
    }
}

/// The state of the modelled controller: every register, the flash array
/// behind it, the descriptor's component record, and whether the next cycle
/// has been armed to fail.
#[verifier::ext_equal]
pub ghost struct DeviceView {
    pub bfpreg: u32,
    pub hsfsts_ctl: u32,
    pub faddr: u32,
    pub dlock: u32,
    pub fdata: Seq<u32>,
    pub fracc: u32,
    pub freg: Seq<u32>,
    pub fpr: Seq<u32>,
    pub gpr: u32,
    pub sfracc: u32,
    pub fdoc: u32,
    pub fdod: u32,
    pub afc: u32,
    pub vscc0: u32,
    pub vscc1: u32,
    pub ptinx: u32,
    pub ptdata: u32,
    pub sbrs: u32,
    pub flash: Seq<u8>,
    pub component0: u32,
    pub inject_fcerr: bool,
    pub read_cycles: u64,
    pub erase_cycles: u64,
    pub write_cycles: u64,
}

/// The device state after software writes `v` to HSFSTS_CTL.
///
/// A write without FGO only merges the value into the status word. A write
/// with FGO starts the programmed cycle: an armed fault, an unmodelled
/// cycle kind or an out-of-range transfer fails the cycle with FCERR; a
/// read cycle fills FDATA from the flash at FADDR, a write cycle programs
/// the flash from FDATA (clearing bits only), and a block-erase cycle sets
/// the 4096-byte sector containing FADDR to 0xFF.
pub open spec fn ctl_step(pre: DeviceView, v: u32) -> DeviceView {
    let merged = ctl_merge(pre.hsfsts_ctl, v);
    if v & FGO == 0 {
        DeviceView { hsfsts_ctl: merged, ..pre }
    } else if pre.inject_fcerr {
        DeviceView { hsfsts_ctl: cycle_error(merged), inject_fcerr: false, ..pre }
    } else {
        let start = pre.faddr as int;
        let count = count_field(v) + 1;
        if cycle_field(v) == 0x0 {
            if start + count <= pre.flash.len() {
                DeviceView {
                    hsfsts_ctl: cycle_done(merged),
                    fdata: fdata_after_read(pre.fdata, pre.flash, start, count as int),
                    read_cycles: sat_add(pre.read_cycles, 1),
                    ..pre
                }
            } else {
                DeviceView { hsfsts_ctl: cycle_error(merged), ..pre }
            }
        } else if cycle_field(v) == 0x2 {
            if start + count <= pre.flash.len() {
                DeviceView {
                    hsfsts_ctl: cycle_done(merged),
                    flash: flash_after_write(pre.flash, pre.fdata, start, count as int),
                    write_cycles: sat_add(pre.write_cycles, 1),
                    ..pre
                }
            } else {
                DeviceView { hsfsts_ctl: cycle_error(merged), ..pre }
            }
        } else if cycle_field(v) == 0x3 {
            let base = sector_base(pre.faddr) as int;
            if base + 4096 <= pre.flash.len() {
                DeviceView {
                    hsfsts_ctl: cycle_done(merged),
                    flash: flash_after_erase(pre.flash, base),
                    erase_cycles: sat_add(pre.erase_cycles, 1),
                    ..pre
                }
            } else {
                DeviceView { hsfsts_ctl: cycle_error(merged), ..pre }
            }
        } else {
            DeviceView { hsfsts_ctl: cycle_error(merged), ..pre }
        }
    }
}

/// The value a load at a byte offset of the controller's MMIO block
/// returns: the register the documented layout places there, with reserved
/// offsets reading as zero.
pub open spec fn register_at(v: DeviceView, offset: int) -> u32 {
    if offset == 0x00 {
        v.bfpreg
    } else if offset == 0x04 {
        v.hsfsts_ctl
    } else if offset == 0x08 {
        v.faddr
    } else if offset == 0x0C {
        v.dlock
    } else if 0x10 <= offset < 0x50 {
        v.fdata[(offset - 0x10) / 4]
    } else if offset == 0x50 {
        v.fracc
    } else if 0x54 <= offset < 0x6C {
        v.freg[(offset - 0x54) / 4]
    } else if 0x84 <= offset < 0x98 {
        v.fpr[(offset - 0x84) / 4]
    } else if offset == 0x98 {
        v.gpr
    } else if offset == 0xB0 {
        v.sfracc
    } else if offset == 0xB4 {
        v.fdoc
    } else if offset == 0xB8 {
        v.fdod
    } else if offset == 0xC0 {
        v.afc
    } else if offset == 0xC4 {
        v.vscc0
    } else if offset == 0xC8 {
        v.vscc1
    } else if offset == 0xCC {
        v.ptinx
    } else if offset == 0xD0 {
        v.ptdata
    } else if offset == 0xD4 {
        v.sbrs
    } else {
        0
    }
}

/// The device state after a store at a byte offset of the controller's
/// MMIO block. A store to HSFSTS_CTL behaves as [`ctl_step`] says; one to
/// FDOC latches the selected descriptor word into FDOD; FDOD itself and
/// the reserved offsets ignore stores; every other offset holds a plain
/// register.
pub open spec fn register_write(pre: DeviceView, offset: int, value: u32) -> DeviceView {
    if offset == 0x00 {
        DeviceView { bfpreg: value, ..pre }
    } else if offset == 0x04 {
        ctl_step(pre, value)
    } else if offset == 0x08 {
        DeviceView { faddr: value, ..pre }
    } else if offset == 0x0C {
        DeviceView { dlock: value, ..pre }
    } else if 0x10 <= offset < 0x50 {
        DeviceView { fdata: pre.fdata.update((offset - 0x10) / 4, value), ..pre }
    } else if offset == 0x50 {
        DeviceView { fracc: value, ..pre }
    } else if 0x54 <= offset < 0x6C {
        DeviceView { freg: pre.freg.update((offset - 0x54) / 4, value), ..pre }
    } else if 0x84 <= offset < 0x98 {
        DeviceView { fpr: pre.fpr.update((offset - 0x84) / 4, value), ..pre }
    } else if offset == 0x98 {
        DeviceView { gpr: value, ..pre }
    } else if offset == 0xB0 {
        DeviceView { sfracc: value, ..pre }
    } else if offset == 0xB4 {
        DeviceView { fdoc: value, fdod: fdo_data(pre.component0, value), ..pre }
    } else if offset == 0xC0 {
        DeviceView { afc: value, ..pre }
    } else if offset == 0xC4 {
        DeviceView { vscc0: value, ..pre }
    } else if offset == 0xC8 {
        DeviceView { vscc1: value, ..pre }
    } else if offset == 0xCC {
        DeviceView { ptinx: value, ..pre }
    } else if offset == 0xD0 {
        DeviceView { ptdata: value, ..pre }
    } else if offset == 0xD4 {
        DeviceView { sbrs: value, ..pre }
    } else {
        pre
    }
}

/// The register file of the controller, together with the modelled flash
/// array behind it.
pub struct SpiRegs {
    /// BIOS Flash Primary Region.
    pub bfpreg: Mmio<u32>,
    /// Hardware Sequencing Flash Status and Control.
    pub hsfsts_ctl: Mmio<u32>,
    /// Flash Address.
    pub faddr: Mmio<u32>,
    /// Discrete Lock Bits.
    pub dlock: Mmio<u32>,
    /// Flash Data buffer.
    pub fdata: [u32; 16],
    /// Flash Region Access Permissions.
    pub fracc: Mmio<u32>,
    /// Flash Regions.
    pub freg: [u32; 6],
    /// Flash Protected Ranges.
    pub fpr: [u32; 5],
    /// Global Protected Range.
    pub gpr: Mmio<u32>,
    /// Secondary Flash Region Access Permissions.
    pub sfracc: Mmio<u32>,
    /// Flash Descriptor Observability Control.
    pub fdoc: Mmio<u32>,
    /// Flash Descriptor Observability Data.
    pub fdod: Mmio<u32>,
    /// Additional Flash Control.
    pub afc: Mmio<u32>,
    /// Vendor Specific Capabilities for Component 0.
    pub vscc0: Mmio<u32>,
    /// Vendor Specific Capabilities for Component 1.
    pub vscc1: Mmio<u32>,
    /// Parameter Table Index.
    pub ptinx: Mmio<u32>,
    /// Parameter Table Data.
    pub ptdata: Mmio<u32>,
    /// SPI Bus Requester Status.
    pub sbrs: Mmio<u32>,
    /// The modelled flash array the cycles operate on.
    pub flash: Vec<u8>,
    /// The descriptor's component 0 record, served by FDO reads.
    pub component0: u32,
    /// Whether the next started cycle fails with FCERR.
    pub inject_fcerr: bool,
    /// How many read cycles have completed; the count saturates.
    pub read_cycles: u64,
    /// How many block-erase cycles have completed; the count saturates.
    pub erase_cycles: u64,
    /// How many write cycles have completed; the count saturates.
    pub write_cycles: u64,
}

impl View for SpiRegs {
    type V = DeviceView;

    open spec fn view(&self) -> DeviceView {
        DeviceView {
            bfpreg: self.bfpreg@,
            hsfsts_ctl: self.hsfsts_ctl@,
            faddr: self.faddr@,
            dlock: self.dlock@,
            fdata: self.fdata@,
            fracc: self.fracc@,
            freg: self.freg@,
            fpr: self.fpr@,
            gpr: self.gpr@,
            sfracc: self.sfracc@,
            fdoc: self.fdoc@,
            fdod: self.fdod@,
            afc: self.afc@,
            vscc0: self.vscc0@,
            vscc1: self.vscc1@,
            ptinx: self.ptinx@,
            ptdata: self.ptdata@,
            sbrs: self.sbrs@,
            flash: self.flash@,
            component0: self.component0,
            inject_fcerr: self.inject_fcerr,
            read_cycles: self.read_cycles,
            erase_cycles: self.erase_cycles,
            write_cycles: self.write_cycles,
        }
    }
}

impl SpiRegs {
    /// Well-formedness of the device: every flash byte must be addressable
    /// through the 32-bit FADDR register, and the read-only H_SCIP bit is
    /// clear — the modelled hardware retires every cycle before the write
    /// that started it returns.
    pub open spec fn wf(&self) -> bool {
        &&& self@.flash.len() <= 0xFFFF_FFFF
        &&& self@.hsfsts_ctl & H_SCIP == 0
    }

    /// A controller in its reset state, in front of the given flash array,
    /// with the given descriptor component 0 record.
    pub fn new(flash: Vec<u8>, component0: u32) -> (r: Self)
        requires
            flash@.len() <= 0xFFFF_FFFF,
        ensures
            r.wf(),
            r@.flash == flash@,
            r@.component0 == component0,
            r@.inject_fcerr == false,
            r@.hsfsts_ctl == 0u32,
            r@.faddr == 0u32,
            r@.fdoc == 0u32,
            r@.fdod == 0u32,
            r.read_cycles == 0u64,
            r.erase_cycles == 0u64,
            r.write_cycles == 0u64,
    {
        assert(0u32 & H_SCIP == 0) by (bit_vector);
        SpiRegs {
            bfpreg: Mmio::new(0),
            hsfsts_ctl: Mmio::new(0),
            faddr: Mmio::new(0),
            dlock: Mmio::new(0),
            fdata: [0u32; 16],
            fracc: Mmio::new(0),
            freg: [0u32; 6],
            fpr: [0u32; 5],
            gpr: Mmio::new(0),
            sfracc: Mmio::new(0),
            fdoc: Mmio::new(0),
            fdod: Mmio::new(0),
            afc: Mmio::new(0),
            vscc0: Mmio::new(0),
            vscc1: Mmio::new(0),
            ptinx: Mmio::new(0),
            ptdata: Mmio::new(0),
            sbrs: Mmio::new(0),
            flash,
            component0,
            inject_fcerr: false,
            read_cycles: 0,
            erase_cycles: 0,
            write_cycles: 0,
        }
    }

    /// Arm the controller so that the next started cycle fails with FCERR.
    pub fn inject_cycle_error(&mut self)
        ensures
            final(self)@ == (DeviceView { inject_fcerr: true, ..old(self)@ }),
            final(self).wf() == old(self).wf(),
    {
        self.inject_fcerr = true;
    }

    /// Read the status/control word.
    pub fn hsfsts_ctl(&self) -> (r: HsfStsCtl)
        ensures
            r.bits == self@.hsfsts_ctl,
    {
        HsfStsCtl::from_bits(self.hsfsts_ctl.read())
    }

    /// Write the status/control word. A write with FGO set starts the
    /// programmed cycle; see [`ctl_step`] for the exact semantics.
    pub fn set_hsfsts_ctl(&mut self, value: HsfStsCtl)
        requires
            old(self).wf(),
        ensures
            final(self).wf(),
            final(self)@ == ctl_step(old(self)@, value.bits),
    {
        let v: u32 = value.bits;
        let reg: u32 = self.hsfsts_ctl.read();
        let merged: u32 = (reg & HSFSTS_RO) | ((reg & HSFSTS_W1C) & !v) | (v & !HSFSTS_RO
            & !HSFSTS_W1C);
        assert(reg & H_SCIP == 0 ==> ((reg & HSFSTS_RO) | ((reg & HSFSTS_W1C) & !v) | (v
            & !HSFSTS_RO & !HSFSTS_W1C)) & H_SCIP == 0) by (bit_vector);
        proof {
            lemma_status_hscip(merged);
        }
        if v & FGO == 0 {
            self.hsfsts_ctl.write(merged);
            return ;
        }
        if self.inject_fcerr {
            self.inject_fcerr = false;
            self.hsfsts_ctl.write((merged & !FGO) | FCERR);
            return ;
        }
        let cf: u32 = (v >> 17) & 0xF;
        let stored: u32 = (v >> 24) & 0x3F;
        assert((v >> 24) & 0x3F < 64) by (bit_vector);
        let cnt: usize = (stored + 1) as usize;
        if cf == 0x0 {
            self.run_read_cycle(merged, cnt);
        } else if cf == 0x2 {
            self.run_write_cycle(merged, cnt);
        } else if cf == 0x3 {
            self.run_erase_cycle(merged);
        } else {
            self.hsfsts_ctl.write((merged & !FGO) | FCERR);
        }
    }

    /// Execute a read cycle: fill the FDATA buffer with `cnt` bytes of
    /// flash starting at FADDR, packed little-endian.
    fn run_read_cycle(&mut self, merged: u32, cnt: usize)
        requires
            old(self).wf(),
            merged & H_SCIP == 0,
            1 <= cnt <= 64,
        ensures
            final(self).wf(),
            final(self)@ == (if old(self)@.faddr + cnt <= old(self)@.flash.len() {
                DeviceView {
                    hsfsts_ctl: cycle_done(merged),
                    fdata: fdata_after_read(
                        old(self)@.fdata,
                        old(self)@.flash,
                        old(self)@.faddr as int,
                        cnt as int,
                    ),
                    read_cycles: sat_add(old(self)@.read_cycles, 1),
                    ..old(self)@
                }
            } else {
                DeviceView { hsfsts_ctl: cycle_error(merged), ..old(self)@ }
            }),
    {
        proof {
            lemma_status_hscip(merged);
        }
        let start_reg: u32 = self.faddr.read();
        let start: usize = start_reg as usize;
        if !(cnt <= self.flash.len() && start <= self.flash.len() - cnt) {
            self.hsfsts_ctl.write((merged & !FGO) | FCERR);
            return ;
        }
        let nwords: usize = (cnt + 3) / 4;
        let mut i: usize = 0;
        while i < nwords
            invariant
                self.wf(),
                nwords == (cnt + 3) / 4,
                1 <= cnt <= 64,
                start == old(self)@.faddr,
                start + cnt <= self.flash.len(),
                self@ == (DeviceView { fdata: self@.fdata, ..old(self)@ }),
                i <= nwords,
                forall|k: int|
                    0 <= k < i ==> self@.fdata[k] == transfer_word(
                        self@.flash,
                        start as int,
                        cnt as int,
                        k,
                    ),
                forall|k: int| i <= k < 16 ==> self@.fdata[k] == old(self)@.fdata[k],
            decreases nwords - i,
        {
            assert(4 * i < cnt);
            let b0: u8 = self.flash[start + 4 * i];
            let b1: u8 = if 4 * i + 1 < cnt {
                self.flash[start + 4 * i + 1]
            } else {
                0
            };
            let b2: u8 = if 4 * i + 2 < cnt {
                self.flash[start + 4 * i + 2]
            } else {
                0
            };
            let b3: u8 = if 4 * i + 3 < cnt {
                self.flash[start + 4 * i + 3]
            } else {
                0
            };
            let w: u32 = (b0 as u32) | ((b1 as u32) << 8) | ((b2 as u32) << 16) | ((b3 as u32)
                << 24);
            self.fdata[i] = w;
            i = i + 1;
        }
        if self.read_cycles < u64::MAX {
            self.read_cycles = self.read_cycles + 1;
        }
        self.hsfsts_ctl.write((merged & !FGO) | FDONE);
        assert(self@.fdata =~= fdata_after_read(
            old(self)@.fdata,
            old(self)@.flash,
            start as int,
            cnt as int,
        ));
        assert(self@ =~= (DeviceView {
            hsfsts_ctl: cycle_done(merged),
            fdata: fdata_after_read(old(self)@.fdata, old(self)@.flash, start as int, cnt as int),
            read_cycles: sat_add(old(self)@.read_cycles, 1),
            ..old(self)@
        }));
    }

    /// Execute a write cycle: program `cnt` bytes from the FDATA buffer
    /// into the flash at FADDR. NOR cells only clear, so each byte is
    /// ANDed into its target.
    fn run_write_cycle(&mut self, merged: u32, cnt: usize)
        requires
            old(self).wf(),
            merged & H_SCIP == 0,
            1 <= cnt <= 64,
        ensures
            final(self).wf(),
            final(self)@ == (if old(self)@.faddr + cnt <= old(self)@.flash.len() {
                DeviceView {
                    hsfsts_ctl: cycle_done(merged),
                    flash: flash_after_write(
                        old(self)@.flash,
                        old(self)@.fdata,
                        old(self)@.faddr as int,
                        cnt as int,
                    ),
                    write_cycles: sat_add(old(self)@.write_cycles, 1),
                    ..old(self)@
                }
            } else {
                DeviceView { hsfsts_ctl: cycle_error(merged), ..old(self)@ }
            }),
    {
        proof {
            lemma_status_hscip(merged);
        }
        let start_reg: u32 = self.faddr.read();
        let start: usize = start_reg as usize;
        if !(cnt <= self.flash.len() && start <= self.flash.len() - cnt) {
            self.hsfsts_ctl.write((merged & !FGO) | FCERR);
            return ;
        }
        let mut j: usize = 0;
        while j < cnt
            invariant
                self.wf(),
                1 <= cnt <= 64,
                start == old(self)@.faddr,
                start + cnt <= self.flash.len(),
                self@ == (DeviceView { flash: self@.flash, ..old(self)@ }),
                self@.flash.len() == old(self)@.flash.len(),
                j <= cnt,
                forall|p: int|
                    start <= p < start + j ==> self@.flash[p] == (old(self)@.flash[p]
                        & byte_of_word(
                        old(self)@.fdata[(p - start) / 4],
                        ((p - start) % 4) as u32,
                    )),
                forall|p: int|
                    0 <= p < self@.flash.len() && !(start <= p < start + j) ==> self@.flash[p]
                        == old(self)@.flash[p],
            decreases cnt - j,
        {
            let w: u32 = self.fdata[j / 4];
            let k: u32 = (j % 4) as u32;
            let b: u8 = ((w >> (8 * k)) & 0xFF) as u8;
            let idx: usize = start + j;
            let nb: u8 = self.flash[idx] & b;
            self.flash.set(idx, nb);
            j = j + 1;
        }
        if self.write_cycles < u64::MAX {
            self.write_cycles = self.write_cycles + 1;
        }
        self.hsfsts_ctl.write((merged & !FGO) | FDONE);
        assert(self@.flash =~= flash_after_write(
            old(self)@.flash,
            old(self)@.fdata,
            start as int,
            cnt as int,
        ));
        assert(self@ =~= (DeviceView {
            hsfsts_ctl: cycle_done(merged),
            flash: flash_after_write(
                old(self)@.flash,
                old(self)@.fdata,
                start as int,
                cnt as int,
            ),
            write_cycles: sat_add(old(self)@.write_cycles, 1),
            ..old(self)@
        }));
    }

    /// Execute a block-erase cycle: set every byte of the 4096-byte sector
    /// containing FADDR to 0xFF.
    fn run_erase_cycle(&mut self, merged: u32)
        requires
            old(self).wf(),
            merged & H_SCIP == 0,
        ensures
            final(self).wf(),
            final(self)@ == (if sector_base(old(self)@.faddr) + 4096 <= old(self)@.flash.len() {
                DeviceView {
                    hsfsts_ctl: cycle_done(merged),
                    flash: flash_after_erase(
                        old(self)@.flash,
                        sector_base(old(self)@.faddr) as int,
                    ),
                    erase_cycles: sat_add(old(self)@.erase_cycles, 1),
                    ..old(self)@
                }
            } else {
                DeviceView { hsfsts_ctl: cycle_error(merged), ..old(self)@ }
            }),
    {
        proof {
            lemma_status_hscip(merged);
        }
        let start_reg: u32 = self.faddr.read();
        let base_reg: u32 = start_reg & !0xFFFu32;
        let base: usize = base_reg as usize;
        if !(4096 <= self.flash.len() && base <= self.flash.len() - 4096) {
            self.hsfsts_ctl.write((merged & !FGO) | FCERR);
            return ;
        }
        let mut j: usize = 0;
        while j < 4096
            invariant
                self.wf(),
                base + 4096 <= self.flash.len(),
                self@ == (DeviceView { flash: self@.flash, ..old(self)@ }),
                self@.flash.len() == old(self)@.flash.len(),
                j <= 4096,
                forall|p: int| base <= p < base + j ==> self@.flash[p] == 0xFFu8,
                forall|p: int|
                    0 <= p < self@.flash.len() && !(base <= p < base + j) ==> self@.flash[p]
                        == old(self)@.flash[p],
            decreases 4096 - j,
        {
            self.flash.set(base + j, 0xFF);
            j = j + 1;
        }
        if self.erase_cycles < u64::MAX {
            self.erase_cycles = self.erase_cycles + 1;
        }
        self.hsfsts_ctl.write((merged & !FGO) | FDONE);
        assert(self@.flash =~= flash_after_erase(old(self)@.flash, base as int));
        assert(self@ =~= (DeviceView {
            hsfsts_ctl: cycle_done(merged),
            flash: flash_after_erase(old(self)@.flash, base as int),
            erase_cycles: sat_add(old(self)@.erase_cycles, 1),
            ..old(self)@
        }));
    }

    /// Load the register at a byte offset of the MMIO block, as a driver
    /// addressing the controller through its documented layout would.
    pub fn read_register(&self, offset: usize) -> (r: u32)
        requires
            offset % 4 == 0,
            offset <= SBRS_OFFSET,
        ensures
            r == register_at(self@, offset as int),
    {
        if offset == BFPREG_OFFSET {
            self.bfpreg.read()
        } else if offset == HSFSTS_CTL_OFFSET {
            self.hsfsts_ctl.read()
        } else if offset == FADDR_OFFSET {
            self.faddr.read()
        } else if offset == DLOCK_OFFSET {
            self.dlock.read()
        } else if FDATA_OFFSET <= offset && offset < FRACC_OFFSET {
            self.fdata[(offset - FDATA_OFFSET) / 4]
        } else if offset == FRACC_OFFSET {
            self.fracc.read()
        } else if FREG_OFFSET <= offset && offset < FREG_OFFSET + 24 {
            self.freg[(offset - FREG_OFFSET) / 4]
        } else if FPR_OFFSET <= offset && offset < FPR_OFFSET + 20 {
            self.fpr[(offset - FPR_OFFSET) / 4]
        } else if offset == GPR_OFFSET {
            self.gpr.read()
        } else if offset == SFRACC_OFFSET {
            self.sfracc.read()
        } else if offset == FDOC_OFFSET {
            self.fdoc.read()
        } else if offset == FDOD_OFFSET {
            self.fdod.read()
        } else if offset == AFC_OFFSET {
            self.afc.read()
        } else if offset == VSCC0_OFFSET {
            self.vscc0.read()
        } else if offset == VSCC1_OFFSET {
            self.vscc1.read()
        } else if offset == PTINX_OFFSET {
            self.ptinx.read()
        } else if offset == PTDATA_OFFSET {
            self.ptdata.read()
        } else if offset == SBRS_OFFSET {
            self.sbrs.read()
        } else {
            0
        }
    }

    /// Store to the register at a byte offset of the MMIO block. A store
    /// to HSFSTS_CTL drives the cycle engine exactly as
    /// [`SpiRegs::set_hsfsts_ctl`] does.
    pub fn write_register(&mut self, offset: usize, value: u32)
        requires
            old(self).wf(),
            offset % 4 == 0,
            offset <= SBRS_OFFSET,
        ensures
            final(self).wf(),
            final(self)@ == register_write(old(self)@, offset as int, value),
    {
        if offset == BFPREG_OFFSET {
            self.bfpreg.write(value);
        } else if offset == HSFSTS_CTL_OFFSET {
            self.set_hsfsts_ctl(HsfStsCtl::from_bits(value));
        } else if offset == FADDR_OFFSET {
            self.faddr.write(value);
        } else if offset == DLOCK_OFFSET {
            self.dlock.write(value);
        } else if FDATA_OFFSET <= offset && offset < FRACC_OFFSET {
            self.fdata[(offset - FDATA_OFFSET) / 4] = value;
        } else if offset == FRACC_OFFSET {
            self.fracc.write(value);
        } else if FREG_OFFSET <= offset && offset < FREG_OFFSET + 24 {
            self.freg[(offset - FREG_OFFSET) / 4] = value;
        } else if FPR_OFFSET <= offset && offset < FPR_OFFSET + 20 {
            self.fpr[(offset - FPR_OFFSET) / 4] = value;
        } else if offset == GPR_OFFSET {
            self.gpr.write(value);
        } else if offset == SFRACC_OFFSET {
            self.sfracc.write(value);
        } else if offset == FDOC_OFFSET {
            self.fdoc.write(value);
            let data: u32 = if value == 0x1000 {
                self.component0
            } else {
                0
            };
            self.fdod.write(data);
        } else if offset == AFC_OFFSET {
            self.afc.write(value);
        } else if offset == VSCC0_OFFSET {
            self.vscc0.write(value);
        } else if offset == VSCC1_OFFSET {
            self.vscc1.write(value);
        } else if offset == PTINX_OFFSET {
            self.ptinx.write(value);
        } else if offset == PTDATA_OFFSET {
            self.ptdata.write(value);
        } else if offset == SBRS_OFFSET {
            self.sbrs.write(value);
        }
    }

    /// A Flash Descriptor Observability indirect read: select a section and
    /// index through FDOC, then read the descriptor word through FDOD.
    pub fn fdo(&mut self, section: FdoSection, index: u16) -> (r: u32)
        ensures
            final(self)@ == (DeviceView {
                fdoc: fdoc_value(section, index),
                fdod: fdo_data(old(self)@.component0, fdoc_value(section, index)),
                ..old(self)@
            }),
            r == fdo_data(old(self)@.component0, fdoc_value(section, index)),
            final(self).wf() == old(self).wf(),
    {
        let code: u32 = match section {
            FdoSection::FlashMap => 0x0000,
            FdoSection::Component => 0x1000,
            FdoSection::Region => 0x2000,
            FdoSection::Master => 0x3000,
        };
        assert(code == section_bits(section));
        let sel: u32 = code | (((index & 0x3FF) as u32) << 2);
        self.fdoc.write(sel);
        let data: u32 = if sel == 0x1000 {
            self.component0
        } else {
            0
        };
        self.fdod.write(data);
        data
    }
}

/// A status word whose H_SCIP bit is clear keeps it clear through the
/// words the hardware derives from it: the done and error forms.
proof fn lemma_status_hscip(merged: u32)
    requires
        merged & H_SCIP == 0,
    ensures
        ((merged & !FGO) | FDONE) & H_SCIP == 0,
        ((merged & !FGO) | FCERR) & H_SCIP == 0,
        cycle_done(merged) & H_SCIP == 0,
        cycle_error(merged) & H_SCIP == 0,
{
    assert(merged & H_SCIP == 0 ==> ((merged & !FGO) | FDONE) & H_SCIP == 0 && ((merged
        & !FGO) | FCERR) & H_SCIP == 0) by (bit_vector);
}

/// Status-word facts for a committed data cycle. Starting from a status
/// word `r1` read while no cycle was in progress, the driver sanitizes it,
/// writes it back, inserts a cycle code and a byte count and sets FGO; the
/// word committed this way selects exactly that cycle and count, and the
/// status the hardware leaves shows FDONE without FCERR on success and
/// FCERR on failure.
proof fn lemma_data_cycle_facts(r1: u32, code: u32, sc: u32)
    requires
        code < 16,
        sc < 64,
    ensures
        ({
            let s = sanitized(r1);
            let reg2 = ctl_merge(r1, s);
            let v = ((((s & !FCYCLE) | (code << 17)) & !FDBC) | (sc << 24)) | FGO;
            let merged = ctl_merge(reg2, v);
            &&& s & FGO == 0
            &&& v & FGO != 0
            &&& cycle_field(v) == code
            &&& count_field(v) == sc
            &&& cycle_done(merged) & FCERR != FCERR
            &&& cycle_done(merged) & FDONE == FDONE
            &&& cycle_error(merged) & FCERR == FCERR
        }),
{
    let s = sanitized(r1);
    let reg2 = ctl_merge(r1, s);
    let v = ((((s & !FCYCLE) | (code << 17)) & !FDBC) | (sc << 24)) | FGO;
    let merged = ctl_merge(reg2, v);
    assert({
        let s2 = r1 & !(FGO | FCYCLE | WET | FDBC | FSMIE);
        let reg2b = (r1 & HSFSTS_RO) | ((r1 & HSFSTS_W1C) & !s2) | (s2 & !HSFSTS_RO
            & !HSFSTS_W1C);
        let vb = ((((s2 & !FCYCLE) | (code << 17)) & !FDBC) | (sc << 24)) | FGO;
        let mb = (reg2b & HSFSTS_RO) | ((reg2b & HSFSTS_W1C) & !vb) | (vb & !HSFSTS_RO
            & !HSFSTS_W1C);
        &&& s2 & FGO == 0
        &&& vb & FGO != 0
        &&& (vb >> 17) & 0xF == code
        &&& (vb >> 24) & 0x3F == sc
        &&& ((mb & !FGO) | FDONE) & FCERR != FCERR
        &&& ((mb & !FGO) | FDONE) & FDONE == FDONE
        &&& ((mb & !FGO) | FCERR) & FCERR == FCERR
    })
        by (bit_vector)
        requires
            code < 16,
            sc < 64,
    ;
}

/// Status-word facts for a committed block-erase cycle, whose word carries
/// the erase cycle code and no byte count.
proof fn lemma_erase_cycle_facts(r1: u32)
    ensures
        ({
            let s = sanitized(r1);
            let reg2 = ctl_merge(r1, s);
            let v = ((s & !FCYCLE) | (0x3u32 << 17)) | FGO;
            let merged = ctl_merge(reg2, v);
            &&& s & FGO == 0
            &&& v & FGO != 0
            &&& cycle_field(v) == 0x3
            &&& cycle_done(merged) & FCERR != FCERR
            &&& cycle_done(merged) & FDONE == FDONE
            &&& cycle_error(merged) & FCERR == FCERR
        }),
{
    assert({
        let s2 = r1 & !(FGO | FCYCLE | WET | FDBC | FSMIE);
        let reg2b = (r1 & HSFSTS_RO) | ((r1 & HSFSTS_W1C) & !s2) | (s2 & !HSFSTS_RO
            & !HSFSTS_W1C);
        let vb = ((s2 & !FCYCLE) | (0x3u32 << 17)) | FGO;
        let mb = (reg2b & HSFSTS_RO) | ((reg2b & HSFSTS_W1C) & !vb) | (vb & !HSFSTS_RO
            & !HSFSTS_W1C);
        &&& s2 & FGO == 0
        &&& vb & FGO != 0
        &&& (vb >> 17) & 0xF == 0x3
        &&& ((mb & !FGO) | FDONE) & FCERR != FCERR
        &&& ((mb & !FGO) | FDONE) & FDONE == FDONE
        &&& ((mb & !FGO) | FCERR) & FCERR == FCERR
    })
        by (bit_vector);
}

/// Writing back a sanitized status word leaves the register with FGO,
/// FCYCLE, WET, FDBC and FSMIE clear and the write-1-to-clear status bits
/// cleared.
proof fn lemma_sanitize_write(reg: u32)
    ensures
        sanitized(reg) & FGO == 0,
        ctl_merge(reg, sanitized(reg)) & (FGO | FCYCLE | WET | FDBC | FSMIE) == 0,
        ctl_merge(reg, sanitized(reg)) & HSFSTS_W1C == 0,
{
    assert({
        let s2 = reg & !(FGO | FCYCLE | WET | FDBC | FSMIE);
        let m = (reg & HSFSTS_RO) | ((reg & HSFSTS_W1C) & !s2) | (s2 & !HSFSTS_RO
            & !HSFSTS_W1C);
        s2 & FGO == 0 && m & (FGO | FCYCLE | WET | FDBC | FSMIE) == 0 && m & HSFSTS_W1C == 0
    })
        by (bit_vector);
}

/// Two saturating counter advances combine into one.
pub proof fn lemma_sat_add_chain(a: u64, m: int, n: int)
    requires
        m >= 0,
        n >= 0,
    ensures
        sat_add(sat_add(a, m), n) == sat_add(a, m + n),
{
}

/// Stepping a chunked transfer by one cycle: with a 64-byte-aligned count
/// of bytes already moved, one more chunk takes exactly one more cycle,
/// and leaves the moved count aligned or complete.
proof fn lemma_chunk_count_step(count: int, total: int, chunk: int)
    requires
        count % 64 == 0,
        0 <= count < total,
        chunk == if total - count > 64 {
            64int
        } else {
            total - count
        },
    ensures
        (count + chunk + 63) / 64 == (count + 63) / 64 + 1,
        (count + chunk) % 64 == 0 || count + chunk == total,
{
    broadcast use vstd::arithmetic::mul::lemma_mul_is_commutative;

    lemma_fundamental_div_mod(count, 64);
    let q = count / 64;
    vstd::arithmetic::div_mod::lemma_fundamental_div_mod_converse_div(count + 63, 64, q, 63);
    if total - count > 64 {
        vstd::arithmetic::div_mod::lemma_fundamental_div_mod_converse_div(
            count + chunk + 63,
            64,
            q + 1,
            63,
        );
        vstd::arithmetic::div_mod::lemma_fundamental_div_mod_converse_mod(
            count + chunk,
            64,
            q + 1,
            0,
        );
    } else {
        vstd::arithmetic::div_mod::lemma_fundamental_div_mod_converse_div(
            count + chunk + 63,
            64,
            q + 1,
            chunk - 1,
        );
    }
}

/// Narrow a flash address to the 32-bit FADDR register.
fn to_faddr(address: usize) -> (r: u32)
    requires
        address <= 0xFFFF_FFFF,
    ensures
        r == address,
{
    assert(address <= 0xFFFF_FFFFusize ==> address as u32 == address) by (bit_vector);
    address as u32
}

impl Spi for SpiRegs {
    open spec fn flash(&self) -> Seq<u8> {
        self@.flash
    }

    open spec fn healthy(&self) -> bool {
        !self@.inject_fcerr
    }

    open spec fn capacity(&self) -> usize {
        capacity_of(self@.component0)
    }

    open spec fn inv(&self) -> bool {
        self.wf()
    }

    open spec fn status(&self) -> u32 {
        self@.hsfsts_ctl
    }

    open spec fn read_cycle_count(&self) -> u64 {
        self@.read_cycles
    }

    open spec fn erase_cycle_count(&self) -> u64 {
        self@.erase_cycles
    }

    open spec fn write_cycle_count(&self) -> u64 {
        self@.write_cycles
    }

    fn len(&mut self) -> (r: Result<usize, SpiError>) {
        let kib: usize = 1024;
        let mib: usize = 1024 * kib;
        let component: u32 = self.fdo(FdoSection::Component, 0);
        assert(fdoc_value(FdoSection::Component, 0) == 0x1000) by {
            assert(((0u16 & 0x3FF) as u32) << 2 == 0 && 0x1000u32 | 0 == 0x1000) by (bit_vector);
        };
        assert(component & 0b111 < 8) by (bit_vector);
        match component & 0b111 {
            0b000 => Ok(512 * kib),
            0b001 => Ok(mib),
            0b010 => Ok(2 * mib),
            0b011 => Ok(4 * mib),
            0b100 => Ok(8 * mib),
            0b101 => Ok(16 * mib),
            0b110 => Ok(32 * mib),
            0b111 => Ok(64 * mib),
            _ => Err(SpiError::Register),
        }
    }

    #[verifier::loop_isolation(false)]
    fn read(&mut self, address: usize, buf: &mut Vec<u8>) -> (r: Result<usize, SpiError>) {
        let total: usize = buf.len();
        let mut count: usize = 0;
        while count < total
            invariant
                self.wf(),
                count <= total,
                total == buf@.len(),
                address + total <= self@.flash.len(),
                self@.flash == old(self)@.flash,
                self@.component0 == old(self)@.component0,
                count > 0 ==> !self@.inject_fcerr && !old(self)@.inject_fcerr,
                count == 0 ==> self@.inject_fcerr == old(self)@.inject_fcerr,
                count % 64 == 0 || count == total,
                count == 0 ==> self@.hsfsts_ctl == old(self)@.hsfsts_ctl,
                count > 0 ==> self@.hsfsts_ctl & SANITIZE_MASK == 0,
                self@.read_cycles == sat_add(old(self)@.read_cycles, (count + 63) / 64),
                self@.erase_cycles == old(self)@.erase_cycles,
                self@.write_cycles == old(self)@.write_cycles,
                forall|j: int| 0 <= j < count ==> buf@[j] == old(self)@.flash[address + j],
                forall|j: int| count <= j < total ==> buf@[j] == old(buf)@[j],
            decreases total - count,
        {
            let chunk: usize = if total - count > 64 {
                64
            } else {
                total - count
            };
            let mut h: HsfStsCtl = self.hsfsts_ctl();
            while h.contains(H_SCIP)
                invariant
                    h.bits == self@.hsfsts_ctl,
                decreases 0int,
            {
                h = self.hsfsts_ctl();
            }
            let ghost r1: u32 = h.bits;
            let ghost pre0: DeviceView = self@;
            proof {
                lemma_data_cycle_facts(r1, 0x0, (chunk - 1) as u32);
            }
            h.sanitize();
            self.set_hsfsts_ctl(h);
            assert(self@ == (DeviceView { hsfsts_ctl: ctl_merge(r1, sanitized(r1)), ..pre0 }));
            h.set_cycle(HsfStsCtlCycle::Read);
            h.set_count(chunk as u8);
            h.insert(FGO);
            assert(h.bits == ((((sanitized(r1) & !FCYCLE) | (0x0u32 << 17)) & !FDBC) | (((chunk
                - 1) as u32) << 24)) | FGO);
            self.faddr.write(to_faddr(address + count));
            let ghost pre: DeviceView = self@;
            self.set_hsfsts_ctl(h);
            let ghost committed: DeviceView = ctl_step(pre, h.bits);
            proof {
                assert(pre.faddr == address + count);
                assert(self@ == committed);
                assert(!pre.inject_fcerr ==> committed == (DeviceView {
                    hsfsts_ctl: cycle_done(ctl_merge(pre.hsfsts_ctl, h.bits)),
                    fdata: fdata_after_read(pre.fdata, pre.flash, pre.faddr as int, chunk as int),
                    read_cycles: sat_add(pre.read_cycles, 1),
                    ..pre
                }));
                assert(pre.inject_fcerr ==> committed == (DeviceView {
                    hsfsts_ctl: cycle_error(ctl_merge(pre.hsfsts_ctl, h.bits)),
                    inject_fcerr: false,
                    ..pre
                }));
                assert(committed.hsfsts_ctl & FCERR == FCERR || (committed.hsfsts_ctl & FDONE
                    == FDONE && committed.hsfsts_ctl & FCERR != FCERR));
            }
            let mut h2: HsfStsCtl;
            loop
                invariant
                    self@ == committed,
                decreases 0int,
            {
                h2 = self.hsfsts_ctl();
                if h2.contains(FCERR) {
                    proof {
                        lemma_sanitize_write(h2.bits);
                    }
                    h2.sanitize();
                    self.set_hsfsts_ctl(h2);
                    proof {
                        assert(buf@ =~= old(buf)@);
                    }
                    return Err(SpiError::Cycle);
                }
                if h2.contains(FDONE) {
                    break ;
                }
            }
            assert(!pre.inject_fcerr);
            let mut j: usize = 0;
            while j < chunk
                invariant
                    self@ == committed,
                    j <= chunk,
                    total == buf@.len(),
                    forall|q: int| 0 <= q < count ==> buf@[q] == old(self)@.flash[address + q],
                    forall|q: int|
                        count <= q < count + j ==> buf@[q] == old(self)@.flash[address + q],
                    forall|q: int| count + j <= q < total ==> buf@[q] == old(buf)@[q],
                decreases chunk - j,
            {
                let w: u32 = self.fdata[j / 4];
                let k: u32 = (j % 4) as u32;
                let b: u8 = ((w >> (8 * k)) & 0xFF) as u8;
                proof {
                    lemma_div4_bound(j as int, chunk as int);
                    lemma_transfer_byte(pre.flash, (address + count) as int, chunk as int,
                        j as int);
                }
                buf.set(count + j, b);
                j = j + 1;
            }
            let mut h3: HsfStsCtl = self.hsfsts_ctl();
            proof {
                lemma_sanitize_write(h3.bits);
                lemma_chunk_count_step(count as int, total as int, chunk as int);
                lemma_sat_add_chain(old(self)@.read_cycles, (count + 63) / 64, 1);
            }
            h3.sanitize();
            self.set_hsfsts_ctl(h3);
            count = count + chunk;
        }
        proof {
            if total > 0 {
                assert(!old(self)@.inject_fcerr);
            }
            if !old(self)@.inject_fcerr && total > 0 {
                assert(buf@ =~= old(self)@.flash.subrange(address as int, address + total));
            }
            if total == 0 {
                assert(buf@ =~= old(buf)@);
            }
        }
        Ok(count)
    }

    #[verifier::loop_isolation(false)]
    fn erase(&mut self, address: usize) -> (r: Result<(), SpiError>) {
        let mut h: HsfStsCtl = self.hsfsts_ctl();
        while h.contains(H_SCIP)
            invariant
                h.bits == self@.hsfsts_ctl,
            decreases 0int,
        {
            h = self.hsfsts_ctl();
        }
        let ghost r1: u32 = h.bits;
        let ghost pre0: DeviceView = self@;
        proof {
            lemma_erase_cycle_facts(r1);
        }
        h.sanitize();
        self.set_hsfsts_ctl(h);
        assert(self@ == (DeviceView { hsfsts_ctl: ctl_merge(r1, sanitized(r1)), ..pre0 }));
        h.set_cycle(HsfStsCtlCycle::BlockErase);
        h.insert(FGO);
        assert(h.bits == ((sanitized(r1) & !FCYCLE) | (0x3u32 << 17)) | FGO);
        let faddr_val: u32 = to_faddr(address);
        assert(faddr_val % 4096 == 0 ==> faddr_val & !0xFFFu32 == faddr_val) by (bit_vector);
        self.faddr.write(faddr_val);
        let ghost pre: DeviceView = self@;
        self.set_hsfsts_ctl(h);
        let ghost committed: DeviceView = ctl_step(pre, h.bits);
        proof {
            assert(sector_base(pre.faddr) == address);
            assert(self@ == committed);
            assert(!pre.inject_fcerr ==> committed == (DeviceView {
                hsfsts_ctl: cycle_done(ctl_merge(pre.hsfsts_ctl, h.bits)),
                flash: flash_after_erase(pre.flash, address as int),
                erase_cycles: sat_add(pre.erase_cycles, 1),
                ..pre
            }));
            assert(pre.inject_fcerr ==> committed == (DeviceView {
                hsfsts_ctl: cycle_error(ctl_merge(pre.hsfsts_ctl, h.bits)),
                inject_fcerr: false,
                ..pre
            }));
            assert(committed.hsfsts_ctl & FCERR == FCERR || (committed.hsfsts_ctl & FDONE
                == FDONE && committed.hsfsts_ctl & FCERR != FCERR));
        }
        let mut h2: HsfStsCtl;
        loop
            invariant
                self@ == committed,
            decreases 0int,
        {
            h2 = self.hsfsts_ctl();
            if h2.contains(FCERR) {
                proof {
                    lemma_sanitize_write(h2.bits);
                }
                h2.sanitize();
                self.set_hsfsts_ctl(h2);
                return Err(SpiError::Cycle);
            }
            if h2.contains(FDONE) {
                break ;
            }
        }
        let mut h3: HsfStsCtl = self.hsfsts_ctl();
        proof {
            lemma_sanitize_write(h3.bits);
        }
        h3.sanitize();
        self.set_hsfsts_ctl(h3);
        Ok(())
    }

    #[verifier::loop_isolation(false)]
    fn write(&mut self, address: usize, buf: &[u8]) -> (r: Result<usize, SpiError>) {
        let total: usize = buf.len();
        let mut count: usize = 0;
        while count < total
            invariant
                self.wf(),
                count <= total,
                total == buf@.len(),
                address + total <= self@.flash.len(),
                self@.flash.len() == old(self)@.flash.len(),
                self@.component0 == old(self)@.component0,
                count > 0 ==> !self@.inject_fcerr && !old(self)@.inject_fcerr,
                count == 0 ==> self@.inject_fcerr == old(self)@.inject_fcerr,
                count % 64 == 0 || count == total,
                count == 0 ==> self@.hsfsts_ctl == old(self)@.hsfsts_ctl,
                count > 0 ==> self@.hsfsts_ctl & SANITIZE_MASK == 0,
                self@.write_cycles == sat_add(old(self)@.write_cycles, (count + 63) / 64),
                self@.read_cycles == old(self)@.read_cycles,
                self@.erase_cycles == old(self)@.erase_cycles,
                forall|p: int|
                    address <= p < address + count ==> self@.flash[p] == (old(self)@.flash[p]
                        & buf@[p - address]),
                forall|p: int|
                    0 <= p < self@.flash.len() && !(address <= p < address + count)
                        ==> self@.flash[p] == old(self)@.flash[p],
            decreases total - count,
        {
            let chunk: usize = if total - count > 64 {
                64
            } else {
                total - count
            };
            let mut h: HsfStsCtl = self.hsfsts_ctl();
            while h.contains(H_SCIP)
                invariant
                    h.bits == self@.hsfsts_ctl,
                decreases 0int,
            {
                h = self.hsfsts_ctl();
            }
            let ghost r1: u32 = h.bits;
            let ghost pre0: DeviceView = self@;
            proof {
                lemma_data_cycle_facts(r1, 0x2, (chunk - 1) as u32);
            }
            h.sanitize();
            self.set_hsfsts_ctl(h);
            assert(self@ == (DeviceView { hsfsts_ctl: ctl_merge(r1, sanitized(r1)), ..pre0 }));
            h.set_cycle(HsfStsCtlCycle::Write);
            h.set_count(chunk as u8);
            h.insert(FGO);
            assert(h.bits == ((((sanitized(r1) & !FCYCLE) | (0x2u32 << 17)) & !FDBC) | (((chunk
                - 1) as u32) << 24)) | FGO);
            let ghost pre_pack: DeviceView = self@;
            let nwords: usize = (chunk + 3) / 4;
            let mut i: usize = 0;
            while i < nwords
                invariant
                    i <= nwords,
                    self@ == (DeviceView { fdata: self@.fdata, ..pre_pack }),
                    forall|k: int|
                        0 <= k < i ==> self@.fdata[k] == transfer_word(
                            buf@,
                            count as int,
                            chunk as int,
                            k,
                        ),
                decreases nwords - i,
            {
                assert(4 * i < chunk);
                let b0: u8 = buf[count + 4 * i];
                let b1: u8 = if 4 * i + 1 < chunk {
                    buf[count + 4 * i + 1]
                } else {
                    0
                };
                let b2: u8 = if 4 * i + 2 < chunk {
                    buf[count + 4 * i + 2]
                } else {
                    0
                };
                let b3: u8 = if 4 * i + 3 < chunk {
                    buf[count + 4 * i + 3]
                } else {
                    0
                };
                let w: u32 = (b0 as u32) | ((b1 as u32) << 8) | ((b2 as u32) << 16) | ((b3
                    as u32) << 24);
                self.fdata[i] = w;
                i = i + 1;
            }
            self.faddr.write(to_faddr(address + count));
            let ghost pre: DeviceView = self@;
            self.set_hsfsts_ctl(h);
            let ghost committed: DeviceView = ctl_step(pre, h.bits);
            proof {
                assert(pre.faddr == address + count);
                assert(self@ == committed);
                assert(!pre.inject_fcerr ==> committed == (DeviceView {
                    hsfsts_ctl: cycle_done(ctl_merge(pre.hsfsts_ctl, h.bits)),
                    flash: flash_after_write(pre.flash, pre.fdata, pre.faddr as int,
                        chunk as int),
                    write_cycles: sat_add(pre.write_cycles, 1),
                    ..pre
                }));
                assert(pre.inject_fcerr ==> committed == (DeviceView {
                    hsfsts_ctl: cycle_error(ctl_merge(pre.hsfsts_ctl, h.bits)),
                    inject_fcerr: false,
                    ..pre
                }));
                assert(committed.hsfsts_ctl & FCERR == FCERR || (committed.hsfsts_ctl & FDONE
                    == FDONE && committed.hsfsts_ctl & FCERR != FCERR));
            }
            let mut h2: HsfStsCtl;
            loop
                invariant
                    self@ == committed,
                decreases 0int,
            {
                h2 = self.hsfsts_ctl();
                if h2.contains(FCERR) {
                    proof {
                        lemma_sanitize_write(h2.bits);
                    }
                    h2.sanitize();
                    self.set_hsfsts_ctl(h2);
                    proof {
                        assert(self@.flash =~= old(self)@.flash);
                    }
                    return Err(SpiError::Cycle);
                }
                if h2.contains(FDONE) {
                    break ;
                }
            }
            assert(!pre.inject_fcerr);
            proof {
                assert forall|p: int|
                    address + count <= p < address + count + chunk implies #[trigger] committed
                    .flash[p] == (pre.flash[p] & buf@[p - address]) by {
                    let d = p - (address + count);
                    lemma_div4_bound(d, chunk as int);
                    lemma_transfer_byte(buf@, count as int, chunk as int, d);
                }
                assert forall|p: int|
                    0 <= p < committed.flash.len() && !(address + count <= p < address + count
                        + chunk) implies #[trigger] committed.flash[p] == pre.flash[p] by {}
            }
            let mut h3: HsfStsCtl = self.hsfsts_ctl();
            proof {
                lemma_sanitize_write(h3.bits);
                lemma_chunk_count_step(count as int, total as int, chunk as int);
                lemma_sat_add_chain(old(self)@.write_cycles, (count + 63) / 64, 1);
            }
            h3.sanitize();
            self.set_hsfsts_ctl(h3);
            count = count + chunk;
        }
        proof {
            if total > 0 {
                assert(!old(self)@.inject_fcerr);
            }
            if !old(self)@.inject_fcerr && total > 0 {
                assert(self@.flash =~= flash_after_program(old(self)@.flash, buf@,
                    address as int));
            }
            if total == 0 {
                assert(self@.flash =~= old(self)@.flash);
            }
        }
        Ok(count)
    }
}

/// For a byte position `j` of a transfer, the word that carries it lies
/// within the words the transfer fills.
proof fn lemma_div4_bound(j: int, count: int)
    requires
        0 <= j < count,
    ensures
        0 <= j / 4,
        4 * (j / 4) < count,
        4 * (j / 4) <= j,
        j / 4 < (count + 3) / 4,
{
    lemma_fundamental_div_mod(j, 4);
    lemma_mod_bound(j, 4);
    lemma_fundamental_div_mod(count + 3, 4);
    lemma_mod_bound(count + 3, 4);
}

/// Byte `j` of a transfer, extracted from the packed word that carries it,
/// is the byte of the source at `start + j`.
proof fn lemma_transfer_byte(bytes: Seq<u8>, start: int, count: int, j: int)
    requires
        0 <= j < count,
        0 <= start,
        start + count <= bytes.len(),
    ensures
        byte_of_word(transfer_word(bytes, start, count, j / 4), (j % 4) as u32) == bytes[start
            + j],
{
    lemma_fundamental_div_mod(j, 4);
    lemma_mod_bound(j, 4);
    let i = j / 4;
    let k = j % 4;
    assert(j == 4 * i + k);
    assert(0 <= k < 4);
    let b0 = transfer_byte(bytes, start, count, 4 * i);
    let b1 = transfer_byte(bytes, start, count, 4 * i + 1);
    let b2 = transfer_byte(bytes, start, count, 4 * i + 2);
    let b3 = transfer_byte(bytes, start, count, 4 * i + 3);
    lemma_pack_byte(b0, b1, b2, b3);
}

/// Each byte of a little-endian packed word reads back unchanged.
proof fn lemma_pack_byte(b0: u8, b1: u8, b2: u8, b3: u8)
    ensures
        byte_of_word(pack_word(b0, b1, b2, b3), 0) == b0,
        byte_of_word(pack_word(b0, b1, b2, b3), 1) == b1,
        byte_of_word(pack_word(b0, b1, b2, b3), 2) == b2,
        byte_of_word(pack_word(b0, b1, b2, b3), 3) == b3,
{
    assert({
        let w = (b0 as u32) | ((b1 as u32) << 8) | ((b2 as u32) << 16) | ((b3 as u32) << 24);
        &&& ((w >> (8 * 0u32)) & 0xFF) as u8 == b0
        &&& ((w >> (8 * 1u32)) & 0xFF) as u8 == b1
        &&& ((w >> (8 * 2u32)) & 0xFF) as u8 == b2
        &&& ((w >> (8 * 3u32)) & 0xFF) as u8 == b3
    })
        by (bit_vector);
}

} // verus!
