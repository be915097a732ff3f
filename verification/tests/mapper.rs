//! The arbitrary-alignment mapping wrappers: rounding of the forwarded
//! region and compensation of the returned address.

use intel_spi::mapper::LinearMapper;
use intel_spi::Mapper;
use intel_spi::PhysicalAddress;
use intel_spi::VirtualAddress;

#[test]
fn map_rounds_and_compensates() {
    let mut mapper = LinearMapper { page: 0x1000, base: 0x10_0000, last_map: (0, 0), unmaps: Vec::new() };
    let virt = mapper.map(PhysicalAddress(0x1234), 0x10).unwrap();
    // The aligned primitive saw the page boundary below the address and a
    // whole page; the result is offset back into the page.
    assert_eq!(mapper.last_map, (0x1000, 0x1000));
    assert_eq!(virt, VirtualAddress(0x10_0000 + 0x1234));
}

#[test]
fn map_spans_pages_when_the_tail_crosses() {
    let mut mapper = LinearMapper { page: 0x1000, base: 0, last_map: (0, 0), unmaps: Vec::new() };
    let virt = mapper.map(PhysicalAddress(0xFFF), 2).unwrap();
    // Two bytes starting one byte before a page boundary need two pages.
    assert_eq!(mapper.last_map, (0, 0x2000));
    assert_eq!(virt, VirtualAddress(0xFFF));
}

#[test]
fn map_of_aligned_region_is_identity() {
    let mut mapper = LinearMapper { page: 0x1000, base: 0x4000, last_map: (0, 0), unmaps: Vec::new() };
    let virt = mapper.map(PhysicalAddress(0x3000), 0x2000).unwrap();
    assert_eq!(mapper.last_map, (0x3000, 0x2000));
    assert_eq!(virt, VirtualAddress(0x4000 + 0x3000));
}

#[test]
fn unmap_rounds_like_map() {
    let mut mapper = LinearMapper { page: 0x1000, base: 0, last_map: (0, 0), unmaps: Vec::new() };
    mapper.unmap(VirtualAddress(0x1234), 0x10).unwrap();
    assert_eq!(mapper.unmaps, vec![(VirtualAddress(0x1000), 0x1000)]);
    mapper.unmap(VirtualAddress(0x2FFF), 2).unwrap();
    assert_eq!(
        mapper.unmaps,
        vec![(VirtualAddress(0x1000), 0x1000), (VirtualAddress(0x2000), 0x2000)]
    );
}

#[test]
fn map_failure_propagates() {
    let mut mapper = LinearMapper { page: 0x1000, base: usize::MAX - 0x800, last_map: (0, 0), unmaps: Vec::new() };
    let r = mapper.map(PhysicalAddress(0x1234), 0x10);
    assert!(r.is_err());
}
