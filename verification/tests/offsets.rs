//! The register file's byte offsets against the controller's documented
//! layout.

use intel_spi::regs::AFC_OFFSET;
use intel_spi::regs::BFPREG_OFFSET;
use intel_spi::regs::DLOCK_OFFSET;
use intel_spi::regs::FADDR_OFFSET;
use intel_spi::regs::FDATA_OFFSET;
use intel_spi::regs::FDOC_OFFSET;
use intel_spi::regs::FDOD_OFFSET;
use intel_spi::regs::FPR_OFFSET;
use intel_spi::regs::FRACC_OFFSET;
use intel_spi::regs::FREG_OFFSET;
use intel_spi::regs::GPR_OFFSET;
use intel_spi::regs::HSFSTS_CTL_OFFSET;
use intel_spi::regs::PTDATA_OFFSET;
use intel_spi::regs::PTINX_OFFSET;
use intel_spi::regs::SBRS_OFFSET;
use intel_spi::regs::SFRACC_OFFSET;
use intel_spi::regs::VSCC0_OFFSET;
use intel_spi::regs::VSCC1_OFFSET;
use intel_spi::SpiRegs;

#[test]
fn offsets() {
    assert_eq!(BFPREG_OFFSET, 0x00);

    assert_eq!(FREG_OFFSET, 0x54);
    assert_eq!(FPR_OFFSET, 0x84);

    assert_eq!(GPR_OFFSET, 0x98);
    assert_eq!(SFRACC_OFFSET, 0xb0);

    assert_eq!(FDOD_OFFSET, 0xb8);
    assert_eq!(AFC_OFFSET, 0xc0);

    assert_eq!(SBRS_OFFSET, 0xd4);
}

#[test]
fn anchor_offsets() {
    assert_eq!(BFPREG_OFFSET, 0x00);
    assert_eq!(HSFSTS_CTL_OFFSET, 0x04);
    assert_eq!(FDATA_OFFSET, 0x10);
    assert_eq!(FREG_OFFSET, 0x54);
    assert_eq!(FPR_OFFSET, 0x84);
    assert_eq!(GPR_OFFSET, 0x98);
    assert_eq!(SFRACC_OFFSET, 0xB0);
    assert_eq!(FDOC_OFFSET, 0xB4);
    assert_eq!(FDOD_OFFSET, 0xB8);
    assert_eq!(AFC_OFFSET, 0xC0);
    assert_eq!(SBRS_OFFSET, 0xD4);
}

#[test]
fn offsets_address_the_registers() {
    let mut spi = SpiRegs::new(vec![0xFFu8; 8192], 0b001);

    // A store through the documented offset lands in the named register.
    spi.write_register(FADDR_OFFSET, 0x1234);
    assert_eq!(spi.faddr.read(), 0x1234);
    spi.write_register(GPR_OFFSET, 0xCAFE);
    assert_eq!(spi.gpr.read(), 0xCAFE);
    spi.write_register(FDATA_OFFSET + 4 * 7, 0xABCD_0123);
    assert_eq!(spi.fdata[7], 0xABCD_0123);
    assert_eq!(spi.read_register(FDATA_OFFSET + 4 * 7), 0xABCD_0123);

    // A store to FDOC latches the selected descriptor word into FDOD.
    spi.write_register(FDOC_OFFSET, 0x1000);
    assert_eq!(spi.read_register(FDOD_OFFSET), 0b001);

    // A store to HSFSTS_CTL with FGO set drives a cycle: erase the sector
    // at the programmed flash address.
    spi.write_register(FADDR_OFFSET, 0x1000);
    spi.write_register(HSFSTS_CTL_OFFSET, (0x3 << 17) | (1 << 16));
    assert!(spi.flash[0x1000..].iter().all(|&b| b == 0xFF));
    assert_eq!(spi.erase_cycles, 1);
    // The status word shows the cycle done, FGO clear.
    assert_eq!(spi.read_register(HSFSTS_CTL_OFFSET) & 0x1_0001, 0x1);
}

#[test]
fn remaining_offsets() {
    assert_eq!(FADDR_OFFSET, 0x08);
    assert_eq!(DLOCK_OFFSET, 0x0C);
    assert_eq!(FRACC_OFFSET, 0x50);
    assert_eq!(VSCC0_OFFSET, 0xC4);
    assert_eq!(VSCC1_OFFSET, 0xC8);
    assert_eq!(PTINX_OFFSET, 0xCC);
    assert_eq!(PTDATA_OFFSET, 0xD0);
}
