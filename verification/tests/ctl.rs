//! The status/control word's bitfield encodings, and the memory-backed
//! register cell.

use intel_spi::ctl::FCERR;
use intel_spi::ctl::FCYCLE;
use intel_spi::ctl::FDBC;
use intel_spi::ctl::FDONE;
use intel_spi::ctl::FDOPSS;
use intel_spi::ctl::FDV;
use intel_spi::ctl::FGO;
use intel_spi::ctl::FLOCKDN;
use intel_spi::ctl::FSMIE;
use intel_spi::ctl::H_AEL;
use intel_spi::ctl::H_SCIP;
use intel_spi::ctl::PRR34_LOCKDN;
use intel_spi::ctl::WET;
use intel_spi::ctl::WRSDIS;
use intel_spi::HsfStsCtl;
use intel_spi::HsfStsCtlCycle;
use intel_spi::Mmio;

#[test]
fn mmio_round_trip_every_width() {
    let mut cell8: Mmio<u8> = Mmio::new(0);
    cell8.write(0xAB);
    assert_eq!(cell8.read(), 0xAB);

    let mut cell16: Mmio<u16> = Mmio::new(0);
    cell16.write(0xBEEF);
    assert_eq!(cell16.read(), 0xBEEF);

    let mut cell32: Mmio<u32> = Mmio::new(0);
    cell32.write(0xDEAD_BEEF);
    assert_eq!(cell32.read(), 0xDEAD_BEEF);

    let mut cell64: Mmio<u64> = Mmio::new(0);
    cell64.write(0x0123_4567_89AB_CDEF);
    assert_eq!(cell64.read(), 0x0123_4567_89AB_CDEF);
}

#[test]
fn count_round_trip() {
    for n in 1..=64u8 {
        let mut ctl = HsfStsCtl::from_bits(0);
        ctl.set_count(n);
        assert_eq!(ctl.count(), n);
    }
}

#[test]
fn count_clamps_above_64() {
    for n in [65u8, 100, 255] {
        let mut ctl = HsfStsCtl::from_bits(0);
        ctl.set_count(n);
        assert_eq!(ctl.count(), 64);
    }
}

#[test]
fn count_zero_stores_zero() {
    let mut ctl = HsfStsCtl::from_bits(0xFFFF_FFFF);
    ctl.set_count(0);
    assert_eq!(ctl.bits & FDBC, 0);
    assert_eq!(ctl.count(), 1);
}

#[test]
fn cycle_round_trip_every_opcode() {
    let opcodes = [
        HsfStsCtlCycle::Read,
        HsfStsCtlCycle::Rsvd,
        HsfStsCtlCycle::Write,
        HsfStsCtlCycle::BlockErase,
        HsfStsCtlCycle::SectorErase,
        HsfStsCtlCycle::ReadSfdp,
        HsfStsCtlCycle::ReadJedec,
        HsfStsCtlCycle::WriteStatus,
        HsfStsCtlCycle::ReadStatus,
        HsfStsCtlCycle::RpmcOp1,
        HsfStsCtlCycle::RpmcOp2,
    ];
    for op in opcodes {
        let mut ctl = HsfStsCtl::from_bits(0xFFFF_FFFF);
        ctl.set_cycle(op);
        assert_eq!(ctl.cycle(), op);
    }
}

#[test]
fn cycle_codes() {
    let mut ctl = HsfStsCtl::from_bits(0);
    ctl.set_cycle(HsfStsCtlCycle::Read);
    assert_eq!(ctl.bits, 0x0 << 17);
    ctl.set_cycle(HsfStsCtlCycle::Write);
    assert_eq!(ctl.bits, 0x2 << 17);
    ctl.set_cycle(HsfStsCtlCycle::BlockErase);
    assert_eq!(ctl.bits, 0x3 << 17);
    ctl.set_cycle(HsfStsCtlCycle::RpmcOp2);
    assert_eq!(ctl.bits, 0xA << 17);
}

#[test]
fn sanitize_clears_and_keeps() {
    let kept = FDONE | FCERR | H_AEL | H_SCIP | WRSDIS | PRR34_LOCKDN | FDOPSS | FDV | FLOCKDN;
    let cleared = FGO | FCYCLE | WET | FDBC | FSMIE;
    let mut ctl = HsfStsCtl::from_bits(0xFFFF_FFFF);
    ctl.sanitize();
    assert_eq!(ctl.bits & kept, kept);
    assert_eq!(ctl.bits & cleared, 0);

    let mut zeros = HsfStsCtl::from_bits(0);
    zeros.sanitize();
    assert_eq!(zeros.bits, 0);

    // A realistic word: FDONE, FDV, FGO, a Read cycle, a count of 64, FSMIE.
    let mut mixed = HsfStsCtl::from_bits(FDONE | FDV | FGO | (63 << 24) | FSMIE);
    mixed.sanitize();
    assert_eq!(mixed.bits, FDONE | FDV);
}

#[test]
fn flag_positions() {
    assert_eq!(FDONE, 1 << 0);
    assert_eq!(FCERR, 1 << 1);
    assert_eq!(H_AEL, 1 << 2);
    assert_eq!(H_SCIP, 1 << 5);
    assert_eq!(WRSDIS, 1 << 11);
    assert_eq!(PRR34_LOCKDN, 1 << 12);
    assert_eq!(FDOPSS, 1 << 13);
    assert_eq!(FDV, 1 << 14);
    assert_eq!(FLOCKDN, 1 << 15);
    assert_eq!(FGO, 1 << 16);
    assert_eq!(FCYCLE, 0b1111 << 17);
    assert_eq!(WET, 1 << 21);
    assert_eq!(FDBC, 0b111111 << 24);
    assert_eq!(FSMIE, 1 << 31);
}
