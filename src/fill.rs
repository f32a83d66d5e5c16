use vstd::prelude::*;

verus! {

/// The number of symbols that page contents cycle through.
pub const ALPHABET_LEN: u64 = 20;

/// The symbol that fills the page installed for fault number `seq` (counted
/// from zero): `'A'`, `'B'`, ... and back to `'A'` after the last symbol.
pub open spec fn symbol_of(seq: nat) -> u8 {
    (65 + seq % 20) as u8
}

/// A page of `len` bytes, each one `symbol`.
pub open spec fn uniform(len: nat, symbol: u8) -> Seq<u8> {
    Seq::new(len, |_i: int| symbol)
}

/// The symbol for fault number `seq`.
pub fn fill_symbol(seq: u64) -> (r: u8)
    ensures
        r == symbol_of(seq as nat),
        65 <= r < 85,
{
    65u8 + (seq % ALPHABET_LEN) as u8
}

/// Regenerates the content page for fault number `seq`: its length is kept
/// and every byte becomes the symbol of that fault.
pub fn prepare_page(page: &mut Vec<u8>, seq: u64)
    ensures
        final(page)@ == uniform(old(page)@.len(), symbol_of(seq as nat)),
{
    let symbol = fill_symbol(seq);
    let len = page.len();
    let mut i: usize = 0;
    while i < len
        invariant
            i <= len,
            len == old(page)@.len(),
            page@.len() == len,
            forall|j: int| 0 <= j < i ==> page@[j] == symbol,
        decreases len - i,
    {
        page.set(i, symbol);
        i += 1;
    }
    assert(page@ =~= uniform(old(page)@.len(), symbol_of(seq as nat)));
}

/// A fresh content page of `page_size` bytes, all zero until its first use.
pub fn new_page(page_size: usize) -> (r: Vec<u8>)
    ensures
        r@ == uniform(page_size as nat, 0u8),
{
    let r: Vec<u8> = vec![0u8; page_size];
    assert(r@ =~= uniform(page_size as nat, 0u8));
    r
}

/// Pages resolved one after another with fewer faults between them than there
/// are symbols hold different symbols, so each resolution is visible.
pub proof fn lemma_consecutive_symbols_differ(i: nat, j: nat)
    requires
        i < j < i + 20,
    ensures
        symbol_of(i) != symbol_of(j),
{
    assert(i % 20 != j % 20) by (nonlinear_arith)
        requires
            i < j < i + 20,
    {
        vstd::arithmetic::div_mod::lemma_fundamental_div_mod(i as int, 20);
        vstd::arithmetic::div_mod::lemma_fundamental_div_mod(j as int, 20);
    }
}

} // verus!
