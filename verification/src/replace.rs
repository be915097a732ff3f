//! The flash-replacement procedure: read the current image, splice
//! preserved regions into the new one, reconcile the device sector by
//! sector, and verify the result.
//!
//! NOR flash cells program from 1 to 0 only, so a sector must be erased to
//! all ones before arbitrary new contents can be written. The reconciler
//! walks both images in 4096-byte sectors: a matching sector is skipped, a
//! sector whose new contents are all 0xFF is erased and left, and any other
//! sector is erased and then programmed. [`lemma_sector_round_trip`] states
//! the law this rests on, and [`reconcile`] is proved to leave the device
//! holding exactly the new image.

use vstd::arithmetic::div_mod::lemma_fundamental_div_mod;
use vstd::prelude::*;

use crate::regs::flash_after_erase;
use crate::regs::flash_after_program;
use crate::regs::lemma_sat_add_chain;
use crate::regs::sat_add;
use crate::Spi;
use crate::SpiError;

verus! {

/// Whether the 4096-byte sectors at `base` of the two images hold the same
/// bytes.
pub open spec fn sector_matching(current: Seq<u8>, new: Seq<u8>, base: int) -> bool {
    forall|p: int| base <= p < base + 4096 ==> current[p] == new[p]
}

/// Whether the 4096-byte sector at `base` of an image is entirely the
/// erase byte 0xFF.
pub open spec fn sector_erased(new: Seq<u8>, base: int) -> bool {
    forall|p: int| base <= p < base + 4096 ==> new[p] == 0xFF
}

/// Scan one sector pair in a single pass: whether the sectors match, and
/// whether the new sector is entirely erased.
#[verifier::loop_isolation(false)]
pub fn scan_sector(current: &Vec<u8>, new: &Vec<u8>, base: usize) -> (r: (bool, bool))
    requires
        base + 4096 <= current@.len(),
        base + 4096 <= new@.len(),
    ensures
        r.0 == sector_matching(current@, new@, base as int),
        r.1 == sector_erased(new@, base as int),
{
    let clen: usize = current.len();
    let nlen: usize = new.len();
    let mut matching: bool = true;
    let mut erased: bool = true;
    let mut j: usize = 0;
    while j < 4096
        invariant
            clen == current@.len(),
            nlen == new@.len(),
            j <= 4096,
            matching == (forall|p: int| base <= p < base + j ==> current@[p] == new@[p]),
            erased == (forall|p: int| base <= p < base + j ==> new@[p] == 0xFF),
        decreases 4096 - j,
    {
        if new[base + j] != current[base + j] {
            matching = false;
        }
        if new[base + j] != 0xFF {
            erased = false;
        }
        j = j + 1;
    }
    (matching, erased)
}

/// Erasing a sector and programming the new bytes over the erased cells
/// leaves the sector holding exactly the new bytes: programming only
/// clears bits, and every erased cell holds 0xFF. A sector whose new
/// contents are all 0xFF needs no programming after the erase.
pub proof fn lemma_sector_round_trip(flash: Seq<u8>, new: Seq<u8>, base: int)
    requires
        0 <= base,
        base + 4096 <= flash.len(),
        flash.len() == new.len(),
    ensures
        forall|p: int|
            base <= p < base + 4096 ==> flash_after_program(
                flash_after_erase(flash, base),
                new.subrange(base, base + 4096),
                base,
            )[p] == new[p],
        sector_erased(new, base) ==> forall|p: int|
            base <= p < base + 4096 ==> flash_after_erase(flash, base)[p] == new[p],
{
    assert forall|b: u8| #[trigger] (0xFFu8 & b) == b by {
        assert(forall|b: u8| #[trigger] (0xFFu8 & b) == b) by (bit_vector);
    }
}

/// How many of the first `k` sectors of the two images differ; the
/// reconciler erases exactly these.
pub open spec fn sectors_erased_by_reconcile(current: Seq<u8>, new: Seq<u8>, k: int) -> int
    decreases k,
{
    if k <= 0 {
        0
    } else {
        sectors_erased_by_reconcile(current, new, k - 1) + if sector_matching(
            current,
            new,
            (k - 1) * 4096,
        ) {
            0int
        } else {
            1int
        }
    }
}

/// How many of the first `k` sectors differ while their new contents are
/// not entirely 0xFF; the reconciler programs exactly these, at 64 write
/// cycles of 64 bytes each.
pub open spec fn sectors_written_by_reconcile(current: Seq<u8>, new: Seq<u8>, k: int) -> int
    decreases k,
{
    if k <= 0 {
        0
    } else {
        sectors_written_by_reconcile(current, new, k - 1) + if !sector_matching(
            current,
            new,
            (k - 1) * 4096,
        ) && !sector_erased(new, (k - 1) * 4096) {
            1int
        } else {
            0int
        }
    }
}

/// The per-sector wear counts are counts: they never go negative.
proof fn lemma_sector_counts_nonneg(current: Seq<u8>, new: Seq<u8>, k: int)
    ensures
        sectors_erased_by_reconcile(current, new, k) >= 0,
        sectors_written_by_reconcile(current, new, k) >= 0,
    decreases k,
{
    if k > 0 {
        lemma_sector_counts_nonneg(current, new, k - 1);
    }
}

/// Stepping from one sector base to the next advances the sector index by
/// one.
proof fn lemma_next_sector(base: int)
    requires
        base % 4096 == 0,
        base >= 0,
    ensures
        (base + 4096) / 4096 == base / 4096 + 1,
        (base / 4096) * 4096 == base,
        base / 4096 >= 0,
{
    broadcast use vstd::arithmetic::mul::lemma_mul_is_commutative;

    lemma_fundamental_div_mod(base, 4096);
    vstd::arithmetic::div_mod::lemma_fundamental_div_mod_converse_div(
        base + 4096,
        4096,
        base / 4096 + 1,
        0,
    );
    vstd::arithmetic::div_mod::lemma_div_pos_is_pos(base, 4096);
}

/// A failure of the region splice.
#[derive(Clone, Copy, Debug, PartialEq, Eq, Structural)]
pub enum SpliceError {
    /// The new image has the region but the old image does not.
    MissingOld,
    /// The old image has the region but the new image does not.
    MissingNew,
    /// The old region's bounds do not name a slice of the old image.
    InvalidOld,
    /// The new region's bounds do not name a slice of the new image.
    InvalidNew,
    /// The two regions differ in size.
    SizeMismatch,
}

/// The bytes of `new_data` with `len` bytes of `old_data` starting at `ob`
/// copied over the bytes starting at `nb`.
pub open spec fn spliced(old_data: Seq<u8>, new_data: Seq<u8>, ob: int, nb: int, len: int) -> Seq<
    u8,
> {
    Seq::new(
        new_data.len(),
        |p: int|
            if nb <= p < nb + len {
                old_data[ob + (p - nb)]
            } else {
                new_data[p]
            },
    )
}

/// What a splice of the given regions does: nothing when neither image has
/// the region, a copy when both name valid slices of the same size, and
/// the error naming the first check that fails otherwise. A region is a
/// pair of inclusive (base, limit) byte positions; it is valid when the
/// base lies strictly below the limit and the limit inside the image.
pub open spec fn splice_outcome(
    old_len: int,
    new_len: int,
    old_region: Option<(usize, usize)>,
    new_region: Option<(usize, usize)>,
) -> Result<bool, SpliceError> {
    if old_region is None && new_region is None {
        Ok(false)
    } else if old_region is None {
        Err(SpliceError::MissingOld)
    } else {
        let (ob, ol) = old_region->Some_0;
        if !(ob < ol && ol < old_len) {
            Err(SpliceError::InvalidOld)
        } else if new_region is None {
            Err(SpliceError::MissingNew)
        } else {
            let (nb, nl) = new_region->Some_0;
            if !(nb < nl && nl < new_len) {
                Err(SpliceError::InvalidNew)
            } else if ol - ob != nl - nb {
                Err(SpliceError::SizeMismatch)
            } else {
                Ok(true)
            }
        }
    }
}

/// Copy one preserved region of the old image over the same-named region
/// of the new image, given the (base, limit) bounds a descriptor lookup
/// returned for each. Returns whether a copy took place.
#[verifier::loop_isolation(false)]
pub fn splice_region(
    old_data: &Vec<u8>,
    new_data: &mut Vec<u8>,
    old_region: Option<(usize, usize)>,
    new_region: Option<(usize, usize)>,
) -> (r: Result<bool, SpliceError>)
    ensures
        final(new_data)@.len() == old(new_data)@.len(),
        r == splice_outcome(
            old_data@.len() as int,
            old(new_data)@.len() as int,
            old_region,
            new_region,
        ),
        r == Ok::<bool, SpliceError>(true) ==> final(new_data)@ == spliced(
            old_data@,
            old(new_data)@,
            old_region->Some_0.0 as int,
            new_region->Some_0.0 as int,
            old_region->Some_0.1 - old_region->Some_0.0 + 1,
        ),
        r != Ok::<bool, SpliceError>(true) ==> final(new_data)@ == old(new_data)@,
{
    if old_region.is_none() && new_region.is_none() {
        return Ok(false);
    }
    let (ob, ol) = match old_region {
        Some(region) => region,
        None => {
            return Err(SpliceError::MissingOld);
        },
    };
    if !(ob < ol && ol < old_data.len()) {
        return Err(SpliceError::InvalidOld);
    }
    let (nb, nl) = match new_region {
        Some(region) => region,
        None => {
            return Err(SpliceError::MissingNew);
        },
    };
    if !(nb < nl && nl < new_data.len()) {
        return Err(SpliceError::InvalidNew);
    }
    if ol - ob != nl - nb {
        return Err(SpliceError::SizeMismatch);
    }
    let len: usize = ol - ob + 1;
    let mut q: usize = 0;
    while q < len
        invariant
            q <= len,
            len == ol - ob + 1,
            ob < ol && ol < old_data@.len(),
            nb < nl && nl < new_data@.len(),
            ol - ob == nl - nb,
            new_data@.len() == old(new_data)@.len(),
            forall|p: int| nb <= p < nb + q ==> new_data@[p] == old_data@[ob + (p - nb)],
            forall|p: int|
                0 <= p < new_data@.len() && !(nb <= p < nb + q) ==> new_data@[p] == old(
                    new_data,
                )@[p],
        decreases len - q,
    {
        let byte: u8 = old_data[ob + q];
        new_data.set(nb + q, byte);
        q = q + 1;
    }
    proof {
        assert(new_data@ =~= spliced(old_data@, old(new_data)@, ob as int, nb as int, len as int));
    }
    Ok(true)
}

/// The outcome of one FMAP-area splice.
#[derive(Clone, Copy, Debug, PartialEq, Eq, Structural)]
pub enum AreaOutcome {
    /// Neither image has the area.
    AbsentBoth,
    /// Only the old image has the area.
    OnlyInOld,
    /// Only the new image has the area.
    OnlyInNew,
    /// The old area's bounds do not name a slice of the old image.
    OutOfRangeOld,
    /// The new area's bounds do not name a slice of the new image.
    OutOfRangeNew,
    /// The two areas differ in size; nothing was copied.
    SizeMismatch,
    /// The old area's bytes were copied over the new area.
    Copied,
}

/// What a splice of the given named areas does. An area is an (offset,
/// size) pair as an FMAP directory records it.
pub open spec fn area_outcome(
    old_len: int,
    new_len: int,
    old_area: Option<(u32, u32)>,
    new_area: Option<(u32, u32)>,
) -> AreaOutcome {
    if new_area is None && old_area is None {
        AreaOutcome::AbsentBoth
    } else if new_area is None {
        AreaOutcome::OnlyInOld
    } else {
        let (no, ns) = new_area->Some_0;
        if no + ns > new_len {
            AreaOutcome::OutOfRangeNew
        } else if old_area is None {
            AreaOutcome::OnlyInNew
        } else {
            let (oo, os) = old_area->Some_0;
            if oo + os > old_len {
                AreaOutcome::OutOfRangeOld
            } else if os != ns {
                AreaOutcome::SizeMismatch
            } else {
                AreaOutcome::Copied
            }
        }
    }
}

/// Copy one named FMAP area of the old image over the same-named area of
/// the new image, given the (offset, size) pair a directory lookup
/// returned for each. Sizes must match for a copy to take place; every
/// other disposition is reported for the caller to log.
#[verifier::loop_isolation(false)]
pub fn splice_area(
    old_data: &Vec<u8>,
    new_data: &mut Vec<u8>,
    old_area: Option<(u32, u32)>,
    new_area: Option<(u32, u32)>,
) -> (r: AreaOutcome)
    requires
        old(new_data)@.len() <= usize::MAX,
    ensures
        final(new_data)@.len() == old(new_data)@.len(),
        r == area_outcome(
            old_data@.len() as int,
            old(new_data)@.len() as int,
            old_area,
            new_area,
        ),
        r == AreaOutcome::Copied ==> final(new_data)@ == spliced(
            old_data@,
            old(new_data)@,
            old_area->Some_0.0 as int,
            new_area->Some_0.0 as int,
            new_area->Some_0.1 as int,
        ),
        r != AreaOutcome::Copied ==> final(new_data)@ == old(new_data)@,
{
    let (no, ns) = match new_area {
        Some(area) => area,
        None => {
            if old_area.is_none() {
                return AreaOutcome::AbsentBoth;
            } else {
                return AreaOutcome::OnlyInOld;
            }
        },
    };
    if !(no as usize <= new_data.len() && ns as usize <= new_data.len() - no as usize) {
        return AreaOutcome::OutOfRangeNew;
    }
    let (oo, os) = match old_area {
        Some(area) => area,
        None => {
            return AreaOutcome::OnlyInNew;
        },
    };
    if !(oo as usize <= old_data.len() && os as usize <= old_data.len() - oo as usize) {
        return AreaOutcome::OutOfRangeOld;
    }
    if os != ns {
        return AreaOutcome::SizeMismatch;
    }
    let nbase: usize = no as usize;
    let obase: usize = oo as usize;
    let len: usize = ns as usize;
    let olen: usize = old_data.len();
    let nlen: usize = new_data.len();
    let mut q: usize = 0;
    while q < len
        invariant
            q <= len,
            olen == old_data@.len(),
            nlen == new_data@.len(),
            obase + len <= olen,
            nbase + len <= nlen,
            new_data@.len() == old(new_data)@.len(),
            forall|p: int| nbase <= p < nbase + q ==> new_data@[p] == old_data@[obase + (p - nbase)],
            forall|p: int|
                0 <= p < new_data@.len() && !(nbase <= p < nbase + q) ==> new_data@[p] == old(
                    new_data,
                )@[p],
        decreases len - q,
    {
        let byte: u8 = old_data[obase + q];
        new_data.set(nbase + q, byte);
        q = q + 1;
    }
    proof {
        assert(new_data@ =~= spliced(
            old_data@,
            old(new_data)@,
            obase as int,
            nbase as int,
            len as int,
        ));
    }
    AreaOutcome::Copied
}

/// Two byte positions that are multiples of the sector size and strictly
/// ordered lie at least one sector apart.
proof fn lemma_sector_step(a: int, b: int)
    requires
        a % 4096 == 0,
        b % 4096 == 0,
        0 <= a < b,
    ensures
        a + 4096 <= b,
{
    lemma_fundamental_div_mod(a, 4096);
    lemma_fundamental_div_mod(b, 4096);
    assert(a == 4096 * (a / 4096) && b == 4096 * (b / 4096));
    assert(4096 * (a / 4096) < 4096 * (b / 4096) ==> a / 4096 < b / 4096) by (nonlinear_arith);
    assert(a / 4096 + 1 <= b / 4096);
    assert(4096 * (a / 4096 + 1) <= 4096 * (b / 4096)) by (nonlinear_arith)
        requires
            a / 4096 + 1 <= b / 4096,
    ;
}

/// Read the device's whole flash into a fresh buffer, in 4096-byte chunks.
#[verifier::loop_isolation(false)]
pub fn read_full<S: Spi>(spi: &mut S) -> (r: Result<Vec<u8>, SpiError>)
    requires
        old(spi).inv(),
        old(spi).capacity() == old(spi).flash().len(),
        old(spi).capacity() % 4096 == 0,
    ensures
        final(spi).inv(),
        final(spi).flash() == old(spi).flash(),
        final(spi).capacity() == old(spi).capacity(),
        r matches Ok(v) ==> v@ == old(spi).flash(),
        old(spi).healthy() ==> final(spi).healthy() && r is Ok,
        r is Err ==> r == Err::<Vec<u8>, SpiError>(SpiError::Cycle) && !old(spi).healthy()
            && final(spi).healthy(),
{
    let total: usize = match spi.len() {
        Ok(n) => n,
        Err(e) => {
            return Err(e);
        },
    };
    let mut data: Vec<u8> = Vec::new();
    while data.len() < total
        invariant
            spi.inv(),
            spi.flash() == old(spi).flash(),
            spi.capacity() == old(spi).capacity(),
            total == old(spi).capacity(),
            total == old(spi).flash().len(),
            total % 4096 == 0,
            data@.len() % 4096 == 0,
            data@.len() <= total,
            data@ == old(spi).flash().subrange(0, data@.len() as int),
            data@.len() > 0 ==> spi.healthy() && old(spi).healthy(),
            data@.len() == 0 ==> spi.healthy() == old(spi).healthy(),
        decreases total - data@.len(),
    {
        proof {
            lemma_sector_step(data@.len() as int, total as int);
        }
        let address: usize = data.len();
        let mut buf: Vec<u8> = Vec::new();
        while buf.len() < 4096
            invariant
                buf@.len() <= 4096,
            decreases 4096 - buf@.len(),
        {
            buf.push(0);
        }
        match spi.read(address, &mut buf) {
            Ok(_) => {},
            Err(e) => {
                return Err(e);
            },
        }
        data.append(&mut buf);
        proof {
            assert(data@ =~= old(spi).flash().subrange(0, data@.len() as int));
        }
    }
    proof {
        assert(data@ =~= old(spi).flash());
    }
    Ok(data)
}

/// A failure of the final verification pass.
#[derive(Clone, Copy, Debug)]
pub enum VerifyError {
    /// The device could not be read back.
    Spi(SpiError),
    /// The device and the new image disagree at `address`: the device
    /// holds `actual` where the image holds `expected`.
    Mismatch { address: usize, actual: u8, expected: u8 },
}

/// Read the device back and compare it byte for byte against the new
/// image; any mismatch is fatal and names the offending address and both
/// bytes.
#[verifier::loop_isolation(false)]
pub fn verify_image<S: Spi>(spi: &mut S, new: &Vec<u8>) -> (r: Result<(), VerifyError>)
    requires
        old(spi).inv(),
        old(spi).capacity() == old(spi).flash().len(),
        old(spi).capacity() % 4096 == 0,
        new@.len() == old(spi).flash().len(),
    ensures
        final(spi).inv(),
        final(spi).flash() == old(spi).flash(),
        final(spi).capacity() == old(spi).capacity(),
        r is Ok ==> final(spi).flash() == new@,
        old(spi).healthy() && old(spi).flash() == new@ ==> r is Ok && final(spi).healthy(),
        old(spi).healthy() && old(spi).flash() != new@ ==> r matches Err(
            VerifyError::Mismatch { address, actual, expected },
        ),
        r matches Err(VerifyError::Mismatch { address, actual, expected }) ==> address < new@.len()
            && actual == old(spi).flash()[address as int] && expected == new@[address as int]
            && actual != expected,
{
    let data: Vec<u8> = match read_full(spi) {
        Ok(d) => d,
        Err(e) => {
            return Err(VerifyError::Spi(e));
        },
    };
    let mut address: usize = 0;
    while address < data.len()
        invariant
            data@ == old(spi).flash(),
            new@.len() == data@.len(),
            address <= data@.len(),
            forall|p: int| 0 <= p < address ==> data@[p] == new@[p],
        decreases data@.len() - address,
    {
        let actual: u8 = data[address];
        let expected: u8 = new[address];
        if actual != expected {
            return Err(VerifyError::Mismatch { address, actual, expected });
        }
        address = address + 1;
    }
    proof {
        assert(old(spi).flash() =~= new@);
    }
    Ok(())
}

/// Reconcile the device's contents with a new image of the same size,
/// sector by sector: a matching sector is skipped, a sector whose new
/// contents are all 0xFF is only erased, and any other sector is erased
/// and programmed. On success the device holds exactly the new image, and
/// the wear is accounted for exactly: one erase cycle per differing
/// sector, and 64 write cycles per differing sector that is not entirely
/// 0xFF in the new image.
#[verifier::loop_isolation(false)]
pub fn reconcile<S: Spi>(spi: &mut S, current: &Vec<u8>, new: &Vec<u8>) -> (r: Result<
    (),
    SpiError,
>)
    requires
        old(spi).inv(),
        current@ == old(spi).flash(),
        new@.len() == current@.len(),
        current@.len() % 4096 == 0,
    ensures
        final(spi).inv(),
        final(spi).capacity() == old(spi).capacity(),
        final(spi).flash().len() == old(spi).flash().len(),
        r is Ok ==> final(spi).flash() == new@,
        old(spi).healthy() ==> r == Ok::<(), SpiError>(()) && final(spi).healthy(),
        r is Err ==> r == Err::<(), SpiError>(SpiError::Cycle) && !old(spi).healthy()
            && final(spi).healthy(),
        final(spi).read_cycle_count() == old(spi).read_cycle_count(),
        old(spi).healthy() ==> final(spi).erase_cycle_count() == sat_add(
            old(spi).erase_cycle_count(),
            sectors_erased_by_reconcile(current@, new@, current@.len() as int / 4096),
        ) && final(spi).write_cycle_count() == sat_add(
            old(spi).write_cycle_count(),
            64 * sectors_written_by_reconcile(current@, new@, current@.len() as int / 4096),
        ),
{
    let total: usize = current.len();
    let mut base: usize = 0;
    while base < total
        invariant
            spi.inv(),
            base <= total,
            base % 4096 == 0,
            total % 4096 == 0,
            total == current@.len(),
            total == new@.len(),
            spi.flash().len() == total,
            spi.capacity() == old(spi).capacity(),
            spi.healthy() == old(spi).healthy(),
            spi.read_cycle_count() == old(spi).read_cycle_count(),
            old(spi).healthy() ==> spi.erase_cycle_count() == sat_add(
                old(spi).erase_cycle_count(),
                sectors_erased_by_reconcile(current@, new@, base as int / 4096),
            ) && spi.write_cycle_count() == sat_add(
                old(spi).write_cycle_count(),
                64 * sectors_written_by_reconcile(current@, new@, base as int / 4096),
            ),
            !old(spi).healthy() ==> spi.erase_cycle_count() == old(spi).erase_cycle_count()
                && spi.write_cycle_count() == old(spi).write_cycle_count(),
            forall|p: int| 0 <= p < base ==> spi.flash()[p] == new@[p],
            forall|p: int| base <= p < total ==> spi.flash()[p] == current@[p],
        decreases total - base,
    {
        proof {
            lemma_sector_step(base as int, total as int);
        }
        let (matching, erased) = scan_sector(current, new, base);
        let ghost before: Seq<u8> = spi.flash();
        if !matching {
            match spi.erase(base) {
                Ok(()) => {},
                Err(e) => {
                    return Err(e);
                },
            }
            proof {
                lemma_sector_round_trip(before, new@, base as int);
            }
            if !erased {
                let sector: &[u8] = vstd::slice::slice_subrange(
                    new.as_slice(),
                    base,
                    base + 4096,
                );
                match spi.write(base, sector) {
                    Ok(_) => {},
                    Err(e) => {
                        return Err(e);
                    },
                }
            }
        }
        proof {
            lemma_next_sector(base as int);
            lemma_sector_counts_nonneg(current@, new@, base as int / 4096);
            if old(spi).healthy() {
                lemma_sat_add_chain(
                    old(spi).erase_cycle_count(),
                    sectors_erased_by_reconcile(current@, new@, base as int / 4096),
                    if matching {
                        0int
                    } else {
                        1int
                    },
                );
                lemma_sat_add_chain(
                    old(spi).write_cycle_count(),
                    64 * sectors_written_by_reconcile(current@, new@, base as int / 4096),
                    if !matching && !erased {
                        64int
                    } else {
                        0int
                    },
                );
            }
        }
        base = base + 4096;
    }
    proof {
        assert(spi.flash() =~= new@);
    }
    Ok(())
}

/// The erase-write-verify tail of the replacement procedure: reconcile the
/// device with the new image, then read the device back and compare it
/// byte for byte. This is the round-trip law of the reconciler: on a
/// healthy device the procedure always succeeds, and success means the
/// fresh read returned exactly the new image.
pub fn replace_and_verify<S: Spi>(spi: &mut S, current: &Vec<u8>, new: &Vec<u8>) -> (r: Result<
    (),
    VerifyError,
>)
    requires
        old(spi).inv(),
        current@ == old(spi).flash(),
        new@.len() == current@.len(),
        old(spi).capacity() == old(spi).flash().len(),
        old(spi).capacity() % 4096 == 0,
    ensures
        final(spi).inv(),
        final(spi).capacity() == old(spi).capacity(),
        r is Ok ==> final(spi).flash() == new@,
        old(spi).healthy() ==> r is Ok && final(spi).healthy(),
{
    match reconcile(spi, current, new) {
        Ok(()) => {},
        Err(e) => {
            return Err(VerifyError::Spi(e));
        },
    }
    verify_image(spi, new)
}

} // verus!
