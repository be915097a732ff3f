//! Driver for the hardware-sequencing SPI flash controller embedded in Intel
//! Platform Controller Hubs, together with the flash-replacement procedure
//! built on top of it.
//!
//! The controller is presented as a register file ([`SpiRegs`]) whose
//! status/control word ([`HsfStsCtl`]) drives one hardware flash cycle at a
//! time. The register file here is a formal model of the hardware: a write of
//! the control word with FGO set executes the programmed cycle against the
//! modelled flash array, so every step of the cycle engine — wait-idle,
//! sanitize, program, commit, poll, drain — is verified against the cycle
//! semantics. The flash-replacement procedure (read, splice, reconcile,
//! verify) is built on the [`Spi`] capability and proved to leave the device
//! holding exactly the new image.

use vstd::prelude::*;

use crate::mapper::align_down;
use crate::mapper::aligned_span;
use crate::mapper::fits_address_space;

pub mod ctl;
pub mod locate;
pub mod mapper;
pub mod mmio;
pub mod regs;
pub mod replace;

pub use crate::ctl::FdoSection;
pub use crate::ctl::HsfStsCtl;
pub use crate::ctl::HsfStsCtlCycle;
pub use crate::mapper::Mapper;
pub use crate::mapper::PhysicalAddress;
pub use crate::mapper::VirtualAddress;
pub use crate::mmio::Mmio;
pub use crate::regs::SpiRegs;

use crate::ctl::SANITIZE_MASK;
use crate::regs::flash_after_erase;
use crate::regs::flash_after_program;
use crate::regs::sat_add;

verus! {

/// Failure of a flash operation, one tag per cause.
#[derive(Clone, Copy, Debug)]
pub enum SpiError {
    /// The Access Error Log bit (H_AEL) was observed set on a completed cycle.
    Access,
    /// The Flash Cycle Error bit (FCERR) was observed while polling for completion.
    Cycle,
    /// A register returned a value outside its documented encoding.
    Register,
    /// The host mapping primitive failed; the reason is passed through unchanged.
    Mapper(&'static str),
    /// No supported (vendor, product) pair was found in PCIe configuration space.
    UnsupportedDevice,
}

/// The flash command surface of a hardware-sequencing SPI controller:
/// capacity discovery, chunked read, block erase and chunked write.
///
/// The ghost state of an implementor is the flash array behind the
/// controller (`flash`), the capacity its descriptor advertises
/// (`capacity`), whether started cycles will complete without error
/// (`healthy`), the HSFSTS_CTL status word (`status`), and the saturating
/// counts of completed read, erase and write cycles. A device whose next
/// cycle fails reports `SpiError::Cycle` and leaves the flash unchanged;
/// after every command that ran a cycle — failed or not — the status word
/// is left sanitized, with FGO, FCYCLE, WET, FDBC and FSMIE clear, so the
/// following call starts cleanly.
pub trait Spi: Sized {
    /// The bytes the device's flash array currently holds.
    spec fn flash(&self) -> Seq<u8>;

    /// Whether the device will complete started cycles without error.
    spec fn healthy(&self) -> bool;

    /// The flash capacity the descriptor advertises, in bytes.
    spec fn capacity(&self) -> usize;

    /// Well-formedness of the device state.
    spec fn inv(&self) -> bool;

    /// The HSFSTS_CTL status word as a driver would read it.
    spec fn status(&self) -> u32;

    /// How many read cycles the device has completed; the count saturates.
    spec fn read_cycle_count(&self) -> u64;

    /// How many block-erase cycles the device has completed; the count
    /// saturates.
    spec fn erase_cycle_count(&self) -> u64;

    /// How many write cycles the device has completed; the count saturates.
    spec fn write_cycle_count(&self) -> u64;

    /// Discover the flash capacity from the descriptor's component record.
    fn len(&mut self) -> (r: Result<usize, SpiError>)
        requires
            old(self).inv(),
        ensures
            final(self).inv(),
            final(self).flash() == old(self).flash(),
            final(self).capacity() == old(self).capacity(),
            final(self).healthy() == old(self).healthy(),
            final(self).status() == old(self).status(),
            final(self).read_cycle_count() == old(self).read_cycle_count(),
            final(self).erase_cycle_count() == old(self).erase_cycle_count(),
            final(self).write_cycle_count() == old(self).write_cycle_count(),
            r == Ok::<usize, SpiError>(old(self).capacity()),
    ;

    /// Fill `buf` with the flash contents starting at `address`, in cycles
    /// of at most 64 bytes. Returns the number of bytes read.
    fn read(&mut self, address: usize, buf: &mut Vec<u8>) -> (r: Result<usize, SpiError>)
        requires
            old(self).inv(),
            address + old(buf)@.len() <= old(self).flash().len(),
        ensures
            final(self).inv(),
            final(self).flash() == old(self).flash(),
            final(self).capacity() == old(self).capacity(),
            final(buf)@.len() == old(buf)@.len(),
            old(self).healthy() ==> final(self).healthy() && r == Ok::<usize, SpiError>(
                old(buf)@.len() as usize,
            ) && final(buf)@ == old(self).flash().subrange(
                address as int,
                address + old(buf)@.len(),
            ),
            old(buf)@.len() == 0 ==> r == Ok::<usize, SpiError>(0) && final(self).healthy()
                == old(self).healthy() && final(buf)@ == old(buf)@,
            !old(self).healthy() && old(buf)@.len() > 0 ==> r == Err::<usize, SpiError>(
                SpiError::Cycle,
            ) && final(self).healthy() && final(buf)@ == old(buf)@,
            old(buf)@.len() > 0 ==> final(self).status() & SANITIZE_MASK == 0,
            old(buf)@.len() == 0 ==> final(self).status() == old(self).status(),
            old(self).healthy() && old(buf)@.len() > 0 ==> final(self).read_cycle_count()
                == sat_add(old(self).read_cycle_count(), (old(buf)@.len() + 63) as int / 64),
            !old(self).healthy() || old(buf)@.len() == 0 ==> final(self).read_cycle_count()
                == old(self).read_cycle_count(),
            final(self).erase_cycle_count() == old(self).erase_cycle_count(),
            final(self).write_cycle_count() == old(self).write_cycle_count(),
    ;

    /// Erase the 4096-byte sector at `address`, which must be
    /// sector-aligned; every byte of the sector becomes 0xFF.
    fn erase(&mut self, address: usize) -> (r: Result<(), SpiError>)
        requires
            old(self).inv(),
            address % 4096 == 0,
            address + 4096 <= old(self).flash().len(),
        ensures
            final(self).inv(),
            final(self).capacity() == old(self).capacity(),
            old(self).healthy() ==> final(self).healthy() && r == Ok::<(), SpiError>(())
                && final(self).flash() == flash_after_erase(old(self).flash(), address as int),
            !old(self).healthy() ==> r == Err::<(), SpiError>(SpiError::Cycle)
                && final(self).healthy() && final(self).flash() == old(self).flash(),
            final(self).status() & SANITIZE_MASK == 0,
            old(self).healthy() ==> final(self).erase_cycle_count() == sat_add(
                old(self).erase_cycle_count(),
                1,
            ),
            !old(self).healthy() ==> final(self).erase_cycle_count() == old(
                self,
            ).erase_cycle_count(),
            final(self).read_cycle_count() == old(self).read_cycle_count(),
            final(self).write_cycle_count() == old(self).write_cycle_count(),
    ;

    /// Program the bytes of `buf` into the flash starting at `address`, in
    /// cycles of at most 64 bytes. NOR cells only clear, so each byte is
    /// ANDed into the cell it targets; erase first to write arbitrary data.
    /// Returns the number of bytes written.
    fn write(&mut self, address: usize, buf: &[u8]) -> (r: Result<usize, SpiError>)
        requires
            old(self).inv(),
            address + buf@.len() <= old(self).flash().len(),
        ensures
            final(self).inv(),
            final(self).flash().len() == old(self).flash().len(),
            final(self).capacity() == old(self).capacity(),
            old(self).healthy() ==> final(self).healthy() && r == Ok::<usize, SpiError>(
                buf@.len() as usize,
            ) && final(self).flash() == flash_after_program(
                old(self).flash(),
                buf@,
                address as int,
            ),
            buf@.len() == 0 ==> r == Ok::<usize, SpiError>(0) && final(self).healthy()
                == old(self).healthy() && final(self).flash() == old(self).flash(),
            !old(self).healthy() && buf@.len() > 0 ==> r == Err::<usize, SpiError>(
                SpiError::Cycle,
            ) && final(self).healthy() && final(self).flash() == old(self).flash(),
            buf@.len() > 0 ==> final(self).status() & SANITIZE_MASK == 0,
            buf@.len() == 0 ==> final(self).status() == old(self).status(),
            old(self).healthy() && buf@.len() > 0 ==> final(self).write_cycle_count() == sat_add(
                old(self).write_cycle_count(),
                (buf@.len() + 63) as int / 64,
            ),
            !old(self).healthy() || buf@.len() == 0 ==> final(self).write_cycle_count() == old(
                self,
            ).write_cycle_count(),
            final(self).read_cycle_count() == old(self).read_cycle_count(),
            final(self).erase_cycle_count() == old(self).erase_cycle_count(),
    ;
}

/// A located SPI controller paired with the mapper its register overlay
/// came from, together with where the overlay lies. The device owns the
/// mapper for its lifetime, so the overlay can be released exactly once,
/// through the same capability that created it.
pub struct SpiDev<M: Mapper> {
    /// The host mapping capability the overlay was obtained through.
    pub mapper: M,
    /// The controller's register file.
    pub regs: SpiRegs,
    /// Where the mapper placed the overlay.
    pub overlay: VirtualAddress,
    /// How many bytes the overlay spans.
    pub overlay_size: usize,
}

impl<M: Mapper> SpiDev<M> {
    /// Pair a register file with the mapper it was obtained through and
    /// the overlay region the mapper returned for it.
    pub fn new(mapper: M, regs: SpiRegs, overlay: VirtualAddress, overlay_size: usize) -> (r:
        Self)
        ensures
            r.mapper == mapper,
            r.regs == regs,
            r.overlay == overlay,
            r.overlay_size == overlay_size,
    {
        SpiDev { mapper, regs, overlay, overlay_size }
    }

    /// Tear the device down: unmap the register overlay — exactly once,
    /// since the device is consumed — and hand the mapper back. The mapper
    /// is handed the page-rounded overlay region, and its unmapping history
    /// grows by exactly that one entry. A failure to unmap is swallowed, as
    /// no recovery is meaningful at that point.
    pub fn release(self) -> (r: M)
        requires
            self.mapper.page_size_spec() >= 1,
            fits_address_space(
                self.overlay.0 as int,
                self.overlay_size as int,
                self.mapper.page_size_spec() as int,
            ),
        ensures
            r.page_size_spec() == self.mapper.page_size_spec(),
            ({
                let page = self.mapper.page_size_spec() as int;
                r.unmapped() == self.mapper.unmapped().push(
                    (
                        VirtualAddress(align_down(self.overlay.0 as int, page) as usize),
                        aligned_span(self.overlay.0 as int, self.overlay_size as int, page)
                            as usize,
                    ),
                )
            }),
    {
        let SpiDev { mut mapper, regs, overlay, overlay_size } = self;
        let _ = mapper.unmap(overlay, overlay_size);
        mapper
    }
}

impl<M: Mapper> Spi for SpiDev<M> {
    open spec fn flash(&self) -> Seq<u8> {
        self.regs.flash()
    }

    open spec fn healthy(&self) -> bool {
        self.regs.healthy()
    }

    open spec fn capacity(&self) -> usize {
        self.regs.capacity()
    }

    open spec fn inv(&self) -> bool {
        self.regs.inv()
    }

    open spec fn status(&self) -> u32 {
        self.regs.status()
    }

    open spec fn read_cycle_count(&self) -> u64 {
        self.regs.read_cycle_count()
    }

    open spec fn erase_cycle_count(&self) -> u64 {
        self.regs.erase_cycle_count()
    }

    open spec fn write_cycle_count(&self) -> u64 {
        self.regs.write_cycle_count()
    }

    fn len(&mut self) -> (r: Result<usize, SpiError>) {
        self.regs.len()
    }

    fn read(&mut self, address: usize, buf: &mut Vec<u8>) -> (r: Result<usize, SpiError>) {
        self.regs.read(address, buf)
    }

    fn erase(&mut self, address: usize) -> (r: Result<(), SpiError>) {
        self.regs.erase(address)
    }

    fn write(&mut self, address: usize, buf: &[u8]) -> (r: Result<usize, SpiError>) {
        self.regs.write(address, buf)
    }
}

} // verus!
