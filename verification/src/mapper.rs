//! The host's physical-memory mapping capability.
//!
//! The host environment exposes page-granular primitives; the derived
//! [`Mapper::map`] and [`Mapper::unmap`] operations accept arbitrary
//! alignment by rounding the physical address down to a page boundary,
//! rounding the length up to whole pages, and compensating the returned
//! virtual address by the within-page offset.

use vstd::arithmetic::div_mod::lemma_fundamental_div_mod;
use vstd::arithmetic::div_mod::lemma_mod_bound;
use vstd::arithmetic::div_mod::lemma_mod_multiples_basic;
use vstd::arithmetic::mul::lemma_mul_inequality;
use vstd::prelude::*;

verus! {

/// An address in physical memory. Not interchangeable with a virtual
/// address: the type keeps the two apart.
#[derive(Clone, Copy, Debug, PartialEq, Eq, Structural)]
pub struct PhysicalAddress(pub usize);

/// An address in the process's virtual address space.
#[derive(Clone, Copy, Debug, PartialEq, Eq, Structural)]
pub struct VirtualAddress(pub usize);

/// The bound under which rounding and offset arithmetic on a region
/// cannot overflow the machine word.
pub open spec fn fits_address_space(address: int, size: int, page: int) -> bool {
    address % page + size + page <= usize::MAX
}

/// A physical address rounded down to a page boundary.
pub open spec fn align_down(address: int, page: int) -> int {
    (address / page) * page
}

/// The page-aligned span covering `size` bytes that start `address % page`
/// bytes into a page: the length rounded up to whole pages.
pub open spec fn aligned_span(address: int, size: int, page: int) -> int {
    ((address % page + size + page - 1) / page) * page
}

/// The host's capability for mapping physical memory into the process
/// address space at page granularity.
///
/// What the aligned primitives return is a function of the mapper's state,
/// given by the `map_aligned_result` and `unmap_aligned_result` spec
/// functions each implementor defines; the derived `map` and `unmap` are
/// proved once, here, to forward exactly the rounded region and to
/// compensate the returned address by the within-page offset.
pub trait Mapper: Sized {
    /// The host page size, in bytes.
    spec fn page_size_spec(&self) -> usize;

    /// What mapping an aligned region returns in the current state.
    spec fn map_aligned_result(&self, address: PhysicalAddress, size: usize) -> Result<
        VirtualAddress,
        &'static str,
    >;

    /// What unmapping an aligned region returns in the current state.
    spec fn unmap_aligned_result(&self, address: VirtualAddress, size: usize) -> Result<
        (),
        &'static str,
    >;

    /// The history of unmapping requests the mapper has been handed, in
    /// order: each entry is the page-aligned (address, size) region of one
    /// `unmap_aligned` call.
    spec fn unmapped(&self) -> Seq<(VirtualAddress, usize)>;

    /// The host page size, in bytes.
    fn page_size(&self) -> (r: usize)
        ensures
            r == self.page_size_spec(),
    ;

    /// Map a page-aligned physical region, returning its virtual base. A
    /// mapped region lies within the address space: its base plus its size
    /// cannot overflow.
    fn map_aligned(&mut self, address: PhysicalAddress, size: usize) -> (r: Result<
        VirtualAddress,
        &'static str,
    >)
        requires
            old(self).page_size_spec() >= 1,
            address.0 % old(self).page_size_spec() == 0,
            size % old(self).page_size_spec() == 0,
        ensures
            final(self).page_size_spec() == old(self).page_size_spec(),
            final(self).unmapped() == old(self).unmapped(),
            r == old(self).map_aligned_result(address, size),
            r matches Ok(v) ==> v.0 + size <= usize::MAX,
    ;

    /// Unmap a page-aligned virtual region.
    fn unmap_aligned(&mut self, address: VirtualAddress, size: usize) -> (r: Result<
        (),
        &'static str,
    >)
        requires
            old(self).page_size_spec() >= 1,
            address.0 % old(self).page_size_spec() == 0,
            size % old(self).page_size_spec() == 0,
        ensures
            final(self).page_size_spec() == old(self).page_size_spec(),
            final(self).unmapped() == old(self).unmapped().push((address, size)),
            r == old(self).unmap_aligned_result(address, size),
    ;

    /// Map a physical region of arbitrary alignment: the aligned primitive
    /// is called with the physical address rounded down to a page boundary
    /// and the length rounded up to whole pages, and the returned virtual
    /// address is offset back to the original within-page position.
    /// Failures from the host propagate unchanged.
    fn map(&mut self, address: PhysicalAddress, size: usize) -> (r: Result<
        VirtualAddress,
        &'static str,
    >)
        requires
            old(self).page_size_spec() >= 1,
            fits_address_space(
                address.0 as int,
                size as int,
                old(self).page_size_spec() as int,
            ),
        ensures
            final(self).page_size_spec() == old(self).page_size_spec(),
            final(self).unmapped() == old(self).unmapped(),
            ({
                let page = old(self).page_size_spec() as int;
                let aligned = align_down(address.0 as int, page);
                let offset = address.0 as int % page;
                let span = aligned_span(address.0 as int, size as int, page);
                match old(self).map_aligned_result(
                    PhysicalAddress(aligned as usize),
                    span as usize,
                ) {
                    Ok(v) => r == Ok::<VirtualAddress, &'static str>(
                        VirtualAddress((v.0 + offset) as usize),
                    ),
                    Err(e) => r == Err::<VirtualAddress, &'static str>(e),
                }
            }),
    {
        let page_size = self.page_size();
        let page = address.0 / page_size;
        proof {
            broadcast use vstd::arithmetic::mul::lemma_mul_is_commutative;

            lemma_fundamental_div_mod(address.0 as int, page_size as int);
            lemma_mod_bound(address.0 as int, page_size as int);
            assert((address.0 as int / page_size as int) * page_size as int <= address.0 as int);
        }
        let aligned_address = PhysicalAddress(page * page_size);
        let offset = address.0 - aligned_address.0;
        let pages = (offset + size + page_size - 1) / page_size;
        proof {
            broadcast use vstd::arithmetic::mul::lemma_mul_is_commutative;

            lemma_fundamental_div_mod((offset + size + page_size - 1) as int, page_size as int);
            lemma_mod_bound((offset + size + page_size - 1) as int, page_size as int);
            lemma_mod_multiples_basic(page as int, page_size as int);
            lemma_mod_multiples_basic(pages as int, page_size as int);
            assert(pages as int * page_size as int <= offset + size + page_size - 1);
        }
        let aligned_size = pages * page_size;
        let virtual_address = match self.map_aligned(aligned_address, aligned_size) {
            Ok(v) => v,
            Err(e) => {
                return Err(e);
            },
        };
        proof {
            if offset > 0 || size > 0 {
                assert(offset + size + page_size - 1 >= page_size);
                vstd::arithmetic::div_mod::lemma_div_non_zero(
                    (offset + size + page_size - 1) as int,
                    page_size as int,
                );
                lemma_mul_inequality(1, pages as int, page_size as int);
            }
        }
        Ok(VirtualAddress(virtual_address.0 + offset))
    }

    /// Unmap a virtual region of arbitrary alignment, with the same
    /// rounding as `map`.
    fn unmap(&mut self, address: VirtualAddress, size: usize) -> (r: Result<(), &'static str>)
        requires
            old(self).page_size_spec() >= 1,
            fits_address_space(
                address.0 as int,
                size as int,
                old(self).page_size_spec() as int,
            ),
        ensures
            final(self).page_size_spec() == old(self).page_size_spec(),
            ({
                let page = old(self).page_size_spec() as int;
                let aligned = align_down(address.0 as int, page);
                let span = aligned_span(address.0 as int, size as int, page);
                &&& final(self).unmapped() == old(self).unmapped().push(
                    (VirtualAddress(aligned as usize), span as usize),
                )
                &&& r == old(self).unmap_aligned_result(
                    VirtualAddress(aligned as usize),
                    span as usize,
                )
            }),
    {
        let page_size = self.page_size();
        let page = address.0 / page_size;
        proof {
            broadcast use vstd::arithmetic::mul::lemma_mul_is_commutative;

            lemma_fundamental_div_mod(address.0 as int, page_size as int);
            lemma_mod_bound(address.0 as int, page_size as int);
            assert((address.0 as int / page_size as int) * page_size as int <= address.0 as int);
        }
        let aligned_address = VirtualAddress(page * page_size);
        let offset = address.0 - aligned_address.0;
        let pages = (offset + size + page_size - 1) / page_size;
        proof {
            broadcast use vstd::arithmetic::mul::lemma_mul_is_commutative;

            lemma_fundamental_div_mod((offset + size + page_size - 1) as int, page_size as int);
            lemma_mod_bound((offset + size + page_size - 1) as int, page_size as int);
            lemma_mod_multiples_basic(page as int, page_size as int);
            lemma_mod_multiples_basic(pages as int, page_size as int);
            assert(pages as int * page_size as int <= offset + size + page_size - 1);
        }
        let aligned_size = pages * page_size;
        self.unmap_aligned(aligned_address, aligned_size)
    }
}

/// A mapper backed by a linear window: the physical page at `p` appears at
/// virtual address `base + p`. It stands in for a host environment where
/// no real one is available, as in tests.
pub struct LinearMapper {
    /// The page size the mapper reports.
    pub page: usize,
    /// The fixed distance between a physical address and its virtual image.
    pub base: usize,
    /// The (address, size) pair of the last aligned mapping request.
    pub last_map: (usize, usize),
    /// Every aligned unmapping request the mapper has been handed, in order.
    pub unmaps: Vec<(VirtualAddress, usize)>,
}

impl Mapper for LinearMapper {
    open spec fn page_size_spec(&self) -> usize {
        self.page
    }

    open spec fn map_aligned_result(&self, address: PhysicalAddress, size: usize) -> Result<
        VirtualAddress,
        &'static str,
    > {
        if address.0 + size + self.base <= usize::MAX {
            Ok(VirtualAddress((self.base + address.0) as usize))
        } else {
            Err("mapping does not fit in the address space")
        }
    }

    open spec fn unmap_aligned_result(&self, address: VirtualAddress, size: usize) -> Result<
        (),
        &'static str,
    > {
        Ok(())
    }

    open spec fn unmapped(&self) -> Seq<(VirtualAddress, usize)> {
        self.unmaps@
    }

    fn page_size(&self) -> (r: usize) {
        self.page
    }

    fn map_aligned(&mut self, address: PhysicalAddress, size: usize) -> (r: Result<
        VirtualAddress,
        &'static str,
    >) {
        self.last_map = (address.0, size);
        if size <= usize::MAX - self.base && address.0 <= usize::MAX - self.base - size {
            Ok(VirtualAddress(self.base + address.0))
        } else {
            Err("mapping does not fit in the address space")
        }
    }

    fn unmap_aligned(&mut self, address: VirtualAddress, size: usize) -> (r: Result<
        (),
        &'static str,
    >) {
        self.unmaps.push((address, size));
        Ok(())
    }
}

} // verus!
