//! The mapper-owning device: the flash command surface through `SpiDev`,
//! and its teardown.

use intel_spi::mapper::LinearMapper;
use intel_spi::Spi;
use intel_spi::SpiDev;
use intel_spi::SpiRegs;
use intel_spi::VirtualAddress;

fn mapper() -> LinearMapper {
    LinearMapper { page: 0x1000, base: 0x10_0000, last_map: (0, 0), unmaps: Vec::new() }
}

#[test]
fn device_forwards_flash_commands() {
    let stub: Vec<u8> = (0u8..0x80).collect();
    let regs = SpiRegs::new(stub.clone(), 0b010);
    let mut dev = SpiDev::new(mapper(), regs, VirtualAddress(0x10_1000), 0xD8);

    assert_eq!(dev.len().unwrap(), 2 * 1024 * 1024);

    let mut buf = vec![0u8; 4];
    assert_eq!(dev.read(0x10, &mut buf).unwrap(), 4);
    assert_eq!(buf, vec![0x10, 0x11, 0x12, 0x13]);

    assert_eq!(dev.write(0, &[0x0F, 0xF0]).unwrap(), 2);
    assert_eq!(&dev.regs.flash[..2], &[0x00, 0x01 & 0xF0]);
}

#[test]
fn release_unmaps_the_overlay_once() {
    let regs = SpiRegs::new(Vec::new(), 0);
    let dev = SpiDev::new(mapper(), regs, VirtualAddress(0x10_1234), 0xD8);
    let m = dev.release();
    // The overlay region went back through the mapper, page-rounded, and
    // the mapper saw exactly one unmapping request.
    assert_eq!(m.unmaps, vec![(VirtualAddress(0x10_1000), 0x1000)]);
}

#[test]
fn empty_transfers_are_complete_at_once() {
    let mut spi = SpiRegs::new(vec![0xFFu8; 16], 0);
    let mut buf: Vec<u8> = Vec::new();
    assert_eq!(spi.read(16, &mut buf).unwrap(), 0);
    assert_eq!(spi.write(16, &[]).unwrap(), 0);
    assert_eq!(spi.read_cycles, 0);
    assert_eq!(spi.write_cycles, 0);
}
