//! The cycle engine against the modelled controller: capacity discovery,
//! reads, erases, writes and the cycle-error path.

use intel_spi::ctl::FCYCLE;
use intel_spi::ctl::FDBC;
use intel_spi::ctl::FGO;
use intel_spi::ctl::FSMIE;
use intel_spi::ctl::WET;
use intel_spi::FdoSection;
use intel_spi::Spi;
use intel_spi::SpiError;
use intel_spi::SpiRegs;

/// S1: a component record of 0b011 encodes a 4 MiB part.
#[test]
fn capacity_discovery() {
    let mut spi = SpiRegs::new(vec![0xFF; 64], 0b011);
    assert_eq!(spi.len().unwrap(), 4 * 1024 * 1024);
    // The FDO read went through FDOC/FDOD.
    assert_eq!(spi.fdoc.read(), 0x1000);
    assert_eq!(spi.fdod.read(), 0b011);
}

#[test]
fn capacity_every_code() {
    let expected: [usize; 8] = [
        512 * 1024,
        1024 * 1024,
        2 * 1024 * 1024,
        4 * 1024 * 1024,
        8 * 1024 * 1024,
        16 * 1024 * 1024,
        32 * 1024 * 1024,
        64 * 1024 * 1024,
    ];
    for code in 0..8u32 {
        let mut spi = SpiRegs::new(Vec::new(), code);
        assert_eq!(spi.len().unwrap(), expected[code as usize]);
    }
}

/// S2: a 3-byte read from a 64-byte flash stub holding 0x00..0x3F.
#[test]
fn three_byte_read() {
    let stub: Vec<u8> = (0u8..0x40).collect();
    let mut spi = SpiRegs::new(stub, 0);
    let mut buf = vec![0u8; 3];
    let read = spi.read(0x20, &mut buf).unwrap();
    assert_eq!(read, 3);
    assert_eq!(buf, vec![0x20, 0x21, 0x22]);
    // The cycle programmed FADDR with the target offset and packed the
    // three bytes little-endian into the first data word.
    assert_eq!(spi.faddr.read(), 0x20);
    assert_eq!(spi.fdata[0], 0x0022_2120);
    assert_eq!(spi.read_cycles, 1);
}

#[test]
fn chunked_read_crosses_cycle_boundaries() {
    let stub: Vec<u8> = (0..200u16).map(|v| (v % 251) as u8).collect();
    let mut spi = SpiRegs::new(stub.clone(), 0);
    let mut buf = vec![0u8; 150];
    assert_eq!(spi.read(10, &mut buf).unwrap(), 150);
    assert_eq!(&buf[..], &stub[10..160]);
    // 150 bytes take two full 64-byte cycles and one 22-byte cycle.
    assert_eq!(spi.read_cycles, 3);
}

/// S3: an injected cycle error fails the read with `Cycle` and leaves
/// FGO, FCYCLE, WET, FDBC and FSMIE all cleared.
#[test]
fn cycle_error_sanitizes() {
    let mut spi = SpiRegs::new(vec![0u8; 64], 0);
    spi.inject_cycle_error();
    let mut buf = vec![0u8; 8];
    let r = spi.read(0, &mut buf);
    assert!(matches!(r, Err(SpiError::Cycle)));
    let ctl = spi.hsfsts_ctl();
    assert_eq!(ctl.bits & (FGO | FCYCLE | WET | FDBC | FSMIE), 0);
    // The fault is consumed: the next read succeeds.
    assert_eq!(spi.read(0, &mut buf).unwrap(), 8);
}

#[test]
fn erase_sets_sector_to_ff() {
    let mut spi = SpiRegs::new(vec![0xABu8; 8192], 0);
    spi.erase(4096).unwrap();
    assert!(spi.flash[..4096].iter().all(|&b| b == 0xAB));
    assert!(spi.flash[4096..].iter().all(|&b| b == 0xFF));
    assert_eq!(spi.erase_cycles, 1);
}

#[test]
fn write_programs_bits_down() {
    // NOR programming can only clear bits: writing over erased cells
    // stores the data; writing over programmed cells ANDs into them.
    let mut spi = SpiRegs::new(vec![0xFFu8; 64], 0);
    let data: Vec<u8> = (0u8..64).collect();
    assert_eq!(spi.write(0, &data).unwrap(), 64);
    assert_eq!(&spi.flash[..], &data[..]);
    assert_eq!(spi.write_cycles, 1);

    let mut worn = SpiRegs::new(vec![0x0Fu8; 4], 0);
    assert_eq!(worn.write(0, &[0xF1, 0x3C, 0xFF, 0x00]).unwrap(), 4);
    assert_eq!(&worn.flash[..], &[0x01, 0x0C, 0x0F, 0x00]);
}

#[test]
fn fdo_selects_section_and_index() {
    let mut spi = SpiRegs::new(Vec::new(), 0xDEAD_BEE5);
    // Only the component record at index 0 is modelled; other selections
    // read as zero, but FDOC always carries the selection.
    assert_eq!(spi.fdo(FdoSection::Region, 5), 0);
    assert_eq!(spi.fdoc.read(), 0x2000 | (5 << 2));
    assert_eq!(spi.fdo(FdoSection::Component, 0), 0xDEAD_BEE5);
    assert_eq!(spi.fdoc.read(), 0x1000);
    assert_eq!(spi.fdo(FdoSection::FlashMap, 0x3FF), 0);
    assert_eq!(spi.fdoc.read(), 0x3FF << 2);
    assert_eq!(spi.fdo(FdoSection::Master, 1), 0);
    assert_eq!(spi.fdoc.read(), 0x3000 | (1 << 2));
}
