//! Locating the controller: MCFG parsing, ECAM address composition, the
//! device allow-list, and the configuration-space probe.

use intel_spi::locate::config_space_address;
use intel_spi::locate::pcie_base_from_mcfg;
use intel_spi::locate::probe_config_space;
use intel_spi::locate::read_le16;
use intel_spi::locate::read_le32;
use intel_spi::locate::read_le64;
use intel_spi::locate::supported_pci_id;

#[test]
fn little_endian_readers() {
    let bytes = [0x78u8, 0x56, 0x34, 0x12, 0xEF, 0xCD, 0xAB, 0x89];
    assert_eq!(read_le16(&bytes, 0), 0x5678);
    assert_eq!(read_le32(&bytes, 0), 0x1234_5678);
    assert_eq!(read_le64(&bytes, 0), 0x89AB_CDEF_1234_5678);
    assert_eq!(read_le16(&bytes, 3), 0xEF12);
}

#[test]
fn mcfg_base_is_read_at_0x2c() {
    let mut mcfg = vec![0u8; 0x3C];
    mcfg[0x2C..0x34].copy_from_slice(&0xE000_0000u64.to_le_bytes());
    assert_eq!(pcie_base_from_mcfg(&mcfg), 0xE000_0000);
}

#[test]
fn ecam_address_composition() {
    // Device 0x1F function 5 on bus 0, the controller's fixed location.
    assert_eq!(
        config_space_address(0xE000_0000, 0x00, 0x1F, 0x05),
        0xE000_0000 | (0x1F << 15) | (0x05 << 12)
    );
    assert_eq!(config_space_address(0, 1, 0, 0), 1 << 20);
}

#[test]
fn allow_list() {
    for product in [
        0x02A4u16, 0x06A4, 0x43A4, 0x51A4, 0x7723, 0x7A24, 0x7E23, 0x9DA4, 0xA0A4, 0xA324,
    ] {
        assert!(supported_pci_id(0x8086, product));
        assert!(!supported_pci_id(0x1022, product));
    }
    assert!(!supported_pci_id(0x8086, 0x1234));
}

#[test]
fn probe_finds_bar0_of_supported_device() {
    let mut space = vec![0u8; 4096];
    space[0x00..0x02].copy_from_slice(&0x8086u16.to_le_bytes());
    space[0x02..0x04].copy_from_slice(&0x02A4u16.to_le_bytes());
    space[0x10..0x14].copy_from_slice(&0xFE01_0000u32.to_le_bytes());
    assert_eq!(probe_config_space(&space), Some(0xFE01_0000));
}

#[test]
fn probe_rejects_unknown_device() {
    let mut space = vec![0u8; 4096];
    space[0x00..0x02].copy_from_slice(&0x8086u16.to_le_bytes());
    space[0x02..0x04].copy_from_slice(&0x9999u16.to_le_bytes());
    space[0x10..0x14].copy_from_slice(&0xFE01_0000u32.to_le_bytes());
    assert_eq!(probe_config_space(&space), None);
}
