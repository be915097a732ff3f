//! The flash-replacement procedure: reconciliation scenarios, full reads,
//! verification, and the preserved-region splices.

use intel_spi::replace::read_full;
use intel_spi::replace::reconcile;
use intel_spi::replace::replace_and_verify;
use intel_spi::replace::scan_sector;
use intel_spi::replace::splice_area;
use intel_spi::replace::splice_region;
use intel_spi::replace::verify_image;
use intel_spi::replace::AreaOutcome;
use intel_spi::replace::SpliceError;
use intel_spi::replace::VerifyError;
use intel_spi::SpiError;
use intel_spi::SpiRegs;

/// A mixed sector: 0x00..0xFF repeating.
fn mixed_sector() -> Vec<u8> {
    (0..4096u32).map(|v| (v % 256) as u8).collect()
}

/// S4: a device sector of 0xAA against a mixed new sector takes exactly
/// one erase and one 4096-byte write (64 cycles of 64 bytes).
#[test]
fn reconcile_erase_write_mixed_sector() {
    let mut flash = vec![0x11u8; 4096];
    flash.extend(vec![0xAAu8; 4096]);
    let current = flash.clone();
    let mut new = vec![0x11u8; 4096];
    new.extend(mixed_sector());

    let mut spi = SpiRegs::new(flash, 0);
    reconcile(&mut spi, &current, &new).unwrap();
    assert_eq!(spi.flash, new);
    assert_eq!(spi.erase_cycles, 1);
    assert_eq!(spi.write_cycles, 64);
    assert_eq!(spi.read_cycles, 0);
}

/// S5: a new sector of all 0xFF takes an erase and no write.
#[test]
fn reconcile_erase_only() {
    let flash: Vec<u8> = mixed_sector();
    let current = flash.clone();
    let new = vec![0xFFu8; 4096];

    let mut spi = SpiRegs::new(flash, 0);
    reconcile(&mut spi, &current, &new).unwrap();
    assert_eq!(spi.flash, new);
    assert_eq!(spi.erase_cycles, 1);
    assert_eq!(spi.write_cycles, 0);
}

/// S6: a matching sector takes no hardware cycle at all.
#[test]
fn reconcile_skips_matching_sector() {
    let flash: Vec<u8> = mixed_sector();
    let current = flash.clone();
    let new = flash.clone();

    let mut spi = SpiRegs::new(flash, 0);
    reconcile(&mut spi, &current, &new).unwrap();
    assert_eq!(spi.flash, new);
    assert_eq!(spi.erase_cycles, 0);
    assert_eq!(spi.write_cycles, 0);
    assert_eq!(spi.read_cycles, 0);
}

#[test]
fn replace_round_trip() {
    // Component code 0 advertises 512 KiB; reconcile a full-size image and
    // read the device back through the verify pass.
    let flash: Vec<u8> = (0..512 * 1024u32).map(|v| (v % 239) as u8).collect();
    let current = flash.clone();
    let new: Vec<u8> = (0..512 * 1024u32).map(|v| (v % 241) as u8).collect();
    let mut spi = SpiRegs::new(flash, 0);
    replace_and_verify(&mut spi, &current, &new).unwrap();
    assert_eq!(spi.flash, new);
}

#[test]
fn reconcile_reports_cycle_error() {
    let flash = vec![0xAAu8; 4096];
    let current = flash.clone();
    let new = vec![0x55u8; 4096];
    let mut spi = SpiRegs::new(flash, 0);
    spi.inject_cycle_error();
    let r = reconcile(&mut spi, &current, &new);
    assert!(matches!(r, Err(SpiError::Cycle)));
}

#[test]
fn scan_sector_predicates() {
    let current = mixed_sector();
    let same = current.clone();
    assert_eq!(scan_sector(&current, &same, 0), (true, false));
    let blank = vec![0xFFu8; 4096];
    assert_eq!(scan_sector(&current, &blank, 0), (false, true));
    let mut nearly = current.clone();
    nearly[100] ^= 1;
    assert_eq!(scan_sector(&current, &nearly, 0), (false, false));
}

#[test]
fn read_full_returns_whole_flash() {
    // Component code 0 advertises 512 KiB; give the device exactly that.
    let flash: Vec<u8> = (0..512 * 1024u32).map(|v| (v % 253) as u8).collect();
    let mut spi = SpiRegs::new(flash.clone(), 0);
    let data = read_full(&mut spi).unwrap();
    assert_eq!(data, flash);
}

#[test]
fn verify_image_accepts_equal_and_names_mismatch() {
    let flash: Vec<u8> = (0..512 * 1024u32).map(|v| (v % 251) as u8).collect();
    let mut spi = SpiRegs::new(flash.clone(), 0);
    assert!(verify_image(&mut spi, &flash).is_ok());

    let mut other = flash.clone();
    other[70_000] = flash[70_000].wrapping_add(1);
    let r = verify_image(&mut spi, &other);
    match r {
        Err(VerifyError::Mismatch { address, actual, expected }) => {
            assert_eq!(address, 70_000);
            assert_eq!(actual, flash[70_000]);
            assert_eq!(expected, other[70_000]);
        },
        _ => panic!("expected a mismatch"),
    }
}

#[test]
fn splice_region_copies_matching_regions() {
    let old_data: Vec<u8> = (0..64u8).collect();
    let mut new_data = vec![0u8; 64];
    // Inclusive bounds: the region covers bytes 8 through 15.
    let copied = splice_region(&old_data, &mut new_data, Some((8, 15)), Some((32, 39))).unwrap();
    assert!(copied);
    assert_eq!(&new_data[32..40], &old_data[8..16]);
    assert!(new_data[..32].iter().all(|&b| b == 0));
    assert!(new_data[40..].iter().all(|&b| b == 0));
}

#[test]
fn splice_region_errors() {
    let old_data = vec![0u8; 16];
    let mut new_data = vec![0u8; 16];
    assert!(matches!(
        splice_region(&old_data, &mut new_data, None, None),
        Ok(false)
    ));
    assert!(matches!(
        splice_region(&old_data, &mut new_data, None, Some((0, 3))),
        Err(SpliceError::MissingOld)
    ));
    assert!(matches!(
        splice_region(&old_data, &mut new_data, Some((0, 3)), None),
        Err(SpliceError::MissingNew)
    ));
    assert!(matches!(
        splice_region(&old_data, &mut new_data, Some((3, 3)), Some((0, 3))),
        Err(SpliceError::InvalidOld)
    ));
    assert!(matches!(
        splice_region(&old_data, &mut new_data, Some((0, 3)), Some((12, 16))),
        Err(SpliceError::InvalidNew)
    ));
    assert!(matches!(
        splice_region(&old_data, &mut new_data, Some((0, 3)), Some((8, 12))),
        Err(SpliceError::SizeMismatch)
    ));
}

#[test]
fn splice_area_copies_and_reports() {
    let old_data: Vec<u8> = (0..32u8).collect();
    let mut new_data = vec![0u8; 32];
    assert!(matches!(
        splice_area(&old_data, &mut new_data, Some((4, 8)), Some((16, 8))),
        AreaOutcome::Copied
    ));
    assert_eq!(&new_data[16..24], &old_data[4..12]);

    assert!(matches!(
        splice_area(&old_data, &mut new_data, None, None),
        AreaOutcome::AbsentBoth
    ));
    assert!(matches!(
        splice_area(&old_data, &mut new_data, Some((0, 4)), None),
        AreaOutcome::OnlyInOld
    ));
    assert!(matches!(
        splice_area(&old_data, &mut new_data, None, Some((0, 4))),
        AreaOutcome::OnlyInNew
    ));
    assert!(matches!(
        splice_area(&old_data, &mut new_data, Some((0, 4)), Some((0, 8))),
        AreaOutcome::SizeMismatch
    ));
    assert!(matches!(
        splice_area(&old_data, &mut new_data, Some((30, 4)), Some((0, 4))),
        AreaOutcome::OutOfRangeOld
    ));
    assert!(matches!(
        splice_area(&old_data, &mut new_data, Some((0, 4)), Some((30, 4))),
        AreaOutcome::OutOfRangeNew
    ));
}
