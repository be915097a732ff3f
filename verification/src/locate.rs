//! Locating the SPI controller through the firmware's MCFG table and PCIe
//! configuration space.
//!
//! The controller sits at device 0x1F function 5 on bus 0. Its
//! configuration space is found by reading the PCIe ECAM base from the
//! MCFG table and composing the function's address; the vendor and product
//! words identify the controller, and BAR0 carries the physical base of
//! its register file. The raw memory accesses belong to the host
//! environment; the parsing and the allow-list live here.

use vstd::prelude::*;

verus! {

/// The little-endian 16-bit value held by the two bytes at `off`.
pub open spec fn le16_at(b: Seq<u8>, off: int) -> int {
    b[off] + 0x100 * b[off + 1]
}

/// The little-endian 32-bit value held by the four bytes at `off`.
pub open spec fn le32_at(b: Seq<u8>, off: int) -> int {
    le16_at(b, off) + 0x1_0000 * le16_at(b, off + 2)
}

/// The little-endian 64-bit value held by the eight bytes at `off`.
pub open spec fn le64_at(b: Seq<u8>, off: int) -> int {
    le32_at(b, off) + 0x1_0000_0000 * le32_at(b, off + 4)
}

/// Read a little-endian 16-bit value.
pub fn read_le16(b: &[u8], off: usize) -> (r: u16)
    requires
        off + 2 <= b@.len(),
    ensures
        r == le16_at(b@, off as int),
{
    let b0: u8 = b[off];
    let b1: u8 = b[off + 1];
    let r: u16 = (b0 as u16) | ((b1 as u16) << 8);
    assert((b0 as u16) | ((b1 as u16) << 8) == b0 + 0x100 * b1) by (bit_vector);
    r
}

/// Read a little-endian 32-bit value.
pub fn read_le32(b: &[u8], off: usize) -> (r: u32)
    requires
        off + 4 <= b@.len(),
    ensures
        r == le32_at(b@, off as int),
{
    let b0: u8 = b[off];
    let b1: u8 = b[off + 1];
    let b2: u8 = b[off + 2];
    let b3: u8 = b[off + 3];
    let r: u32 = (b0 as u32) | ((b1 as u32) << 8) | ((b2 as u32) << 16) | ((b3 as u32) << 24);
    assert((b0 as u32) | ((b1 as u32) << 8) | ((b2 as u32) << 16) | ((b3 as u32) << 24) == b0
        + 0x100 * b1 + 0x1_0000 * (b2 + 0x100 * b3)) by (bit_vector);
    r
}

/// Read a little-endian 64-bit value.
pub fn read_le64(b: &[u8], off: usize) -> (r: u64)
    requires
        off + 8 <= b@.len(),
    ensures
        r == le64_at(b@, off as int),
{
    let b0: u8 = b[off];
    let b1: u8 = b[off + 1];
    let b2: u8 = b[off + 2];
    let b3: u8 = b[off + 3];
    let b4: u8 = b[off + 4];
    let b5: u8 = b[off + 5];
    let b6: u8 = b[off + 6];
    let b7: u8 = b[off + 7];
    let r: u64 = (b0 as u64) | ((b1 as u64) << 8) | ((b2 as u64) << 16) | ((b3 as u64) << 24) | (
    (b4 as u64) << 32) | ((b5 as u64) << 40) | ((b6 as u64) << 48) | ((b7 as u64) << 56);
    assert((b0 as u64) | ((b1 as u64) << 8) | ((b2 as u64) << 16) | ((b3 as u64) << 24) | ((b4
        as u64) << 32) | ((b5 as u64) << 40) | ((b6 as u64) << 48) | ((b7 as u64) << 56) == (b0
        + 0x100 * b1 + 0x1_0000 * (b2 + 0x100 * b3)) + 0x1_0000_0000 * (b4 + 0x100 * b5
        + 0x1_0000 * (b6 + 0x100 * b7))) by (bit_vector);
    r
}

/// The PCIe ECAM base the MCFG table advertises, read little-endian from
/// bytes 0x2C..0x34. No other field of the table is consulted.
pub fn pcie_base_from_mcfg(mcfg: &[u8]) -> (r: u64)
    requires
        mcfg@.len() >= 0x34,
    ensures
        r == le64_at(mcfg@, 0x2C),
{
    read_le64(mcfg, 0x2C)
}

/// The configuration-space address of a function under an ECAM base:
/// `base | bus << 20 | device << 15 | function << 12`.
pub open spec fn ecam_address(base: u64, bus: u8, device: u8, function: u8) -> u64 {
    base | ((bus as u64) << 20) | ((device as u64) << 15) | ((function as u64) << 12)
}

/// Compose the configuration-space address of a device function.
pub fn config_space_address(base: u64, bus: u8, device: u8, function: u8) -> (r: u64)
    ensures
        r == ecam_address(base, bus, device, function),
{
    base | ((bus as u64) << 20) | ((device as u64) << 15) | ((function as u64) << 12)
}

/// Whether a (vendor, product) pair names a supported SPI controller.
pub open spec fn supported_id(vendor: u16, product: u16) -> bool {
    vendor == 0x8086 && (product == 0x02A4 || product == 0x06A4 || product == 0x43A4 || product
        == 0x51A4 || product == 0x7723 || product == 0x7A24 || product == 0x7E23 || product
        == 0x9DA4 || product == 0xA0A4 || product == 0xA324)
}

/// Match a (vendor, product) pair against the allow-list of supported
/// controllers: Comet Lake, Comet Lake-H, Tiger Lake-H, Alder Lake-P,
/// Arrow Lake-HU, Alder Lake-S, Meteor Lake-HU, Cannon Lake, Tiger Lake
/// and Cannon Lake-H.
pub fn supported_pci_id(vendor: u16, product: u16) -> (r: bool)
    ensures
        r == supported_id(vendor, product),
{
    vendor == 0x8086 && (product == 0x02A4 || product == 0x06A4 || product == 0x43A4 || product
        == 0x51A4 || product == 0x7723 || product == 0x7A24 || product == 0x7E23 || product
        == 0x9DA4 || product == 0xA0A4 || product == 0xA324)
}

/// Probe the bytes of a mapped PCIe configuration space: read the vendor
/// and product identifiers; if they name a supported controller, return
/// BAR0 — the physical base of the controller's register file.
pub fn probe_config_space(space: &[u8]) -> (r: Option<u32>)
    requires
        space@.len() >= 0x14,
    ensures
        supported_id(le16_at(space@, 0x00) as u16, le16_at(space@, 0x02) as u16) ==> r == Some(
            le32_at(space@, 0x10) as u32,
        ),
        !supported_id(le16_at(space@, 0x00) as u16, le16_at(space@, 0x02) as u16) ==> r
            == None::<u32>,
{
    let vendor: u16 = read_le16(space, 0x00);
    let product: u16 = read_le16(space, 0x02);
    if supported_pci_id(vendor, product) {
        Some(read_le32(space, 0x10))
    } else {
        None
    }
}

} // verus!
