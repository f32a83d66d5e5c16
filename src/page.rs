use vstd::prelude::*;

use crate::error::PagingError;
use vstd::arithmetic::power2::{lemma_pow2_pos, pow2};
use vstd::bits::{low_bits_mask, lemma_u64_low_bits_mask_is_mod, lemma_u64_pow2_no_overflow};

verus! {

/// The start of the page of size `page_size` that holds address `a`.
pub open spec fn page_start(a: int, page_size: int) -> int {
    a - a % page_size
}

/// Rounds a faulting address down to the page boundary at or below it; the
/// page installed for a fault starts there.
pub fn page_align_down(addr: usize, page_size: usize) -> (r: usize)
    requires
        page_size > 0,
    ensures
        r == page_start(addr as int, page_size as int),
        r % page_size == 0,
        r <= addr,
        addr < r + page_size,
{
    let rem = addr % page_size;
    proof {
        lemma_page_start_props(addr as int, page_size as int);
    }
    addr - rem
}

/// The page start of `a` is a multiple of the page size, at or below `a`,
/// and less than one page below it.
pub proof fn lemma_page_start_props(a: int, page_size: int)
    requires
        a >= 0,
        page_size > 0,
    ensures
        page_start(a, page_size) % page_size == 0,
        0 <= page_start(a, page_size) <= a,
        a < page_start(a, page_size) + page_size,
{
    assert(page_start(a, page_size) % page_size == 0) by (nonlinear_arith)
        requires
            a >= 0,
            page_size > 0,
    {
        vstd::arithmetic::div_mod::lemma_fundamental_div_mod(a, page_size);
        vstd::arithmetic::div_mod::lemma_mod_multiples_basic(a / page_size, page_size);
    }
    vstd::arithmetic::div_mod::lemma_fundamental_div_mod(a, page_size);
    vstd::arithmetic::div_mod::lemma_div_pos_is_pos(a, page_size);
    assert(page_size * (a / page_size) >= 0) by (nonlinear_arith)
        requires
            a / page_size >= 0,
            page_size > 0,
    ;
}

/// For a page size that is a power of two, `2^n`, clearing the low `n` bits of
/// an address rounds it down to its page start.
pub proof fn lemma_mask_rounds_down(addr: u64, n: nat)
    requires
        n < 64,
    ensures
        addr & !(low_bits_mask(n) as u64) == page_start(addr as int, pow2(n) as int),
        low_bits_mask(n) == pow2(n) - 1,
{
    let m = low_bits_mask(n) as u64;
    lemma_u64_low_bits_mask_is_mod(addr, n);
    lemma_u64_pow2_no_overflow(n);
    lemma_pow2_pos(n);
    assert(addr & !m == addr - (addr & m) && (addr & m) <= addr) by (bit_vector);
}

/// The length in bytes of a region of `page_count` pages: the page count must
/// be at least one, and a length that no address space holds cannot be mapped.
pub fn region_len(page_count: usize, page_size: usize) -> (r: Result<usize, PagingError>)
    ensures
        page_count == 0 ==> r == Err::<usize, PagingError>(PagingError::Argument),
        page_count > 0 && page_count * page_size > usize::MAX ==> r == Err::<usize, PagingError>(
            PagingError::Allocation,
        ),
        page_count > 0 && page_count * page_size <= usize::MAX ==> r == Ok::<usize, PagingError>(
            (page_count * page_size) as usize,
        ),
{
    if page_count == 0 {
        return Err(PagingError::Argument);
    }
    page_count.checked_mul(page_size).ok_or(PagingError::Allocation)
}

} // verus!
