use vstd::prelude::*;

use crate::page::{lemma_page_start_props, page_start};

verus! {

/// The offset of the first touch: deliberately not on a page boundary.
pub const TOUCH_START: usize = 0xf;

/// The distance between two touches.
pub const TOUCH_STRIDE: usize = 1024;

/// The pause between two touches, in microseconds.
pub const TOUCH_PAUSE_MICROS: u64 = 100000;

/// The offsets that the driver reads, in order: `start`, `start + stride`, ...
/// while the offset is below `extent`.
pub fn touch_offsets(start: usize, stride: usize, extent: usize) -> (r: Vec<usize>)
    requires
        stride > 0,
    ensures
        forall|k: int| 0 <= k < r@.len() ==> r@[k] == start + k * stride,
        forall|k: int| 0 <= k < r@.len() ==> r@[k] < extent,
        start + r@.len() * stride >= extent,
{
    let mut r: Vec<usize> = Vec::new();
    let mut l: usize = start;
    let mut more: bool = start < extent;
    assert(start + r@.len() * stride == start) by (nonlinear_arith)
        requires
            r@.len() == 0,
    ;
    while more
        invariant
            stride > 0,
            more ==> l < extent,
            more ==> l == start + r@.len() * stride,
            !more ==> start + r@.len() * stride >= extent,
            forall|k: int| 0 <= k < r@.len() ==> r@[k] == start + k * stride,
            forall|k: int| 0 <= k < r@.len() ==> r@[k] < extent,
        decreases
                if more {
                    extent - l + 1
                } else {
                    0
                },
    {
        r.push(l);
        assert(start + r@.len() * stride == l + stride) by (nonlinear_arith)
            requires
                l == start + (r@.len() - 1) * stride,
        ;
        if stride >= extent - l {
            more = false;
        } else {
            l = l + stride;
        }
    }
    r
}

/// The pages that a sequence of touches faults in, in the order of their
/// faults: a touch faults when its page has not been installed yet, and each
/// fault installs the page that holds its address.
pub open spec fn faults_of(touches: Seq<int>, page_size: int) -> Seq<int>
    decreases touches.len(),
{
    if touches.len() == 0 {
        seq![]
    } else {
        let before = faults_of(touches.drop_last(), page_size);
        let p = page_start(touches.last(), page_size);
        if before.contains(p) {
            before
        } else {
            before.push(p)
        }
    }
}

/// Touching each page of a region of `n` pages once, page after page, faults
/// exactly `n` times, and the `k`-th fault installs page `k`: the installed
/// destinations are distinct, page aligned and inside the region.
pub proof fn lemma_each_page_faults_once(base: int, n: nat, page_size: int, touches: Seq<int>)
    requires
        page_size > 0,
        base >= 0,
        base % page_size == 0,
        touches.len() == n,
        forall|k: int|
            0 <= k < n ==> base + k * page_size <= #[trigger] touches[k] < base + (k + 1)
                * page_size,
    ensures
        faults_of(touches, page_size).len() == n,
        forall|k: int|
            0 <= k < n ==> #[trigger] faults_of(touches, page_size)[k] == base + k * page_size,
        forall|k: int|
            0 <= k < n ==> #[trigger] faults_of(touches, page_size)[k] % page_size == 0,
        forall|k: int|
            0 <= k < n ==> base <= #[trigger] faults_of(touches, page_size)[k] < base + n
                * page_size,
        forall|j: int, k: int|
            0 <= j < k < n ==> faults_of(touches, page_size)[j] != faults_of(
                touches,
                page_size,
            )[k],
    decreases n,
{
    let f = faults_of(touches, page_size);
    if n > 0 {
        let m = (n - 1) as nat;
        let prefix = touches.drop_last();
        assert forall|k: int| 0 <= k < m implies base + k * page_size <= #[trigger] prefix[k]
            < base + (k + 1) * page_size by {
            assert(prefix[k] == touches[k]);
        }
        lemma_each_page_faults_once(base, m, page_size, prefix);
        let before = faults_of(prefix, page_size);
        let x = touches.last();
        let start = base + m * page_size;
        assert(base + m * page_size <= x < base + (m + 1) * page_size);
        assert(start + page_size == base + (m + 1) * page_size) by (nonlinear_arith)
            requires
                start == base + m * page_size,
        ;
        assert(start % page_size == 0) by {
            vstd::arithmetic::div_mod::lemma_fundamental_div_mod(base, page_size);
            vstd::arithmetic::div_mod::lemma_mod_multiples_basic(base / page_size + m, page_size);
            assert((base / page_size + m) * page_size == start) by (nonlinear_arith)
                requires
                    base == page_size * (base / page_size),
                    start == base + m * page_size,
            ;
        }
        assert(x % page_size == x - start) by {
            vstd::arithmetic::div_mod::lemma_fundamental_div_mod(start, page_size);
            vstd::arithmetic::div_mod::lemma_fundamental_div_mod_converse(
                x,
                page_size,
                start / page_size,
                x - start,
            );
        }
        assert(page_start(x, page_size) == start);
        assert(!before.contains(start)) by {
            if before.contains(start) {
                let j = choose|j: int| 0 <= j < before.len() && before[j] == start;
                assert(before[j] == base + j * page_size);
                assert(j * page_size < m * page_size) by (nonlinear_arith)
                    requires
                        0 <= j < m,
                        page_size > 0,
                ;
            }
        }
        assert(f == before.push(start));
        assert forall|k: int| 0 <= k < n implies #[trigger] f[k] == base + k * page_size by {
            if k < m {
                assert(f[k] == before[k]);
            }
        }
        assert forall|k: int| 0 <= k < n implies #[trigger] f[k] % page_size == 0 by {
            lemma_page_start_props(touches[k], page_size);
            assert(f[k] == base + k * page_size);
            vstd::arithmetic::div_mod::lemma_fundamental_div_mod(base, page_size);
            vstd::arithmetic::div_mod::lemma_mod_multiples_basic(base / page_size + k, page_size);
            assert((base / page_size + k) * page_size == base + k * page_size) by (nonlinear_arith)
                requires
                    base == page_size * (base / page_size),
            ;
        }
        assert forall|k: int| 0 <= k < n implies base <= #[trigger] f[k] < base + n * page_size by {
            assert(f[k] == base + k * page_size);
            assert(0 <= k * page_size && k * page_size + page_size <= n * page_size)
                by (nonlinear_arith)
                requires
                    0 <= k < n,
                    page_size > 0,
            ;
        }
        assert forall|j: int, k: int| 0 <= j < k < n implies f[j] != f[k] by {
            assert(f[j] == base + j * page_size);
            assert(f[k] == base + k * page_size);
            assert(j * page_size < k * page_size) by (nonlinear_arith)
                requires
                    j < k,
                    page_size > 0,
            ;
        }
    }
}

/// The page start of an address at offset `o` from a page-aligned `base` is
/// `base` plus the whole pages in `o`.
proof fn lemma_offset_page_start(base: int, o: int, page_size: int)
    requires
        page_size > 0,
        base >= 0,
        base % page_size == 0,
        o >= 0,
    ensures
        page_start(base + o, page_size) == base + (o / page_size) * page_size,
{
    let b = base / page_size;
    let q = o / page_size;
    let r = o % page_size;
    vstd::arithmetic::div_mod::lemma_fundamental_div_mod(base, page_size);
    vstd::arithmetic::div_mod::lemma_fundamental_div_mod(o, page_size);
    assert(base + o == (b + q) * page_size + r) by (nonlinear_arith)
        requires
            base == page_size * b,
            o == page_size * q + r,
    ;
    vstd::arithmetic::div_mod::lemma_fundamental_div_mod_converse(base + o, page_size, b + q, r);
    assert(q * page_size == page_size * q) by (nonlinear_arith);
}

/// One stride of at most a page moves an offset to the same page or the next.
proof fn lemma_stride_page_index(o: int, stride: int, page_size: int)
    requires
        page_size > 0,
        0 < stride <= page_size,
        o >= 0,
    ensures
        (o + stride) / page_size == o / page_size || (o + stride) / page_size == o / page_size + 1,
{
    let q = o / page_size;
    let r = o % page_size;
    vstd::arithmetic::div_mod::lemma_fundamental_div_mod(o, page_size);
    assert(o == q * page_size + r) by (nonlinear_arith)
        requires
            o == page_size * q + r,
    ;
    if r + stride < page_size {
        vstd::arithmetic::div_mod::lemma_fundamental_div_mod_converse(o + stride, page_size, q, r + stride);
    } else {
        assert(o + stride == (q + 1) * page_size + (r + stride - page_size)) by (nonlinear_arith)
            requires
                o == q * page_size + r,
        ;
        vstd::arithmetic::div_mod::lemma_fundamental_div_mod_converse(
            o + stride,
            page_size,
            q + 1,
            r + stride - page_size,
        );
    }
}

/// The first `k` touches of the driver fault in the pages from the first up to
/// the one that holds the `k`-th touch, each once and in order.
proof fn lemma_driver_prefix_faults(
    base: int,
    page_size: int,
    start: int,
    stride: int,
    touches: Seq<int>,
    k: int,
)
    requires
        page_size > 0,
        base >= 0,
        base % page_size == 0,
        0 <= start < page_size,
        0 < stride <= page_size,
        1 <= k <= touches.len(),
        forall|i: int| 0 <= i < touches.len() ==> #[trigger] touches[i] == base + start + i * stride,
    ensures
        faults_of(touches.take(k), page_size) == Seq::new(
            ((start + (k - 1) * stride) / page_size + 1) as nat,
            |j: int| base + j * page_size,
        ),
    decreases k,
{
    let t = touches.take(k);
    let o = start + (k - 1) * stride;
    assert(o >= 0) by (nonlinear_arith)
        requires
            o == start + (k - 1) * stride,
            start >= 0,
            k >= 1,
            stride > 0,
    ;
    let q = o / page_size;
    assert(t.last() == base + o);
    lemma_offset_page_start(base, o, page_size);
    let p = base + q * page_size;
    let want = Seq::new((q + 1) as nat, |j: int| base + j * page_size);
    if k == 1 {
        assert(t.drop_last() =~= Seq::<int>::empty());
        assert(o == start) by (nonlinear_arith)
            requires
                o == start + (k - 1) * stride,
                k == 1,
        ;
        vstd::arithmetic::div_mod::lemma_fundamental_div_mod_converse(start, page_size, 0, start);
        assert(faults_of(t.drop_last(), page_size) =~= Seq::<int>::empty());
        assert(faults_of(t, page_size) =~= want);
    } else {
        lemma_driver_prefix_faults(base, page_size, start, stride, touches, k - 1);
        assert(t.drop_last() =~= touches.take(k - 1));
        let o1 = start + (k - 2) * stride;
        assert(o == o1 + stride && o1 >= 0) by (nonlinear_arith)
            requires
                o == start + (k - 1) * stride,
                o1 == start + (k - 2) * stride,
                start >= 0,
                k >= 2,
                stride > 0,
        ;
        lemma_stride_page_index(o1, stride, page_size);
        let q1 = o1 / page_size;
        let before = faults_of(touches.take(k - 1), page_size);
        assert(before == Seq::new((q1 + 1) as nat, |j: int| base + j * page_size));
        vstd::arithmetic::div_mod::lemma_div_pos_is_pos(o1, page_size);
        if q == q1 {
            assert(before[q1] == p);
            assert(before.contains(p));
            assert(faults_of(t, page_size) =~= want);
        } else {
            assert(!before.contains(p)) by {
                if before.contains(p) {
                    let j = choose|j: int| 0 <= j < before.len() && before[j] == p;
                    assert(j * page_size < q * page_size) by (nonlinear_arith)
                        requires
                            0 <= j <= q1,
                            q == q1 + 1,
                            page_size > 0,
                    ;
                }
            }
            assert(faults_of(t, page_size) =~= want);
        }
    }
}

/// The driver's touches fault once per page, not once per touch: reading at
/// `start`, `start + stride`, ... below the end of a region of `n` pages, with
/// a first offset inside the first page and a stride of at most a page, faults
/// in exactly the `n` pages of the region, in order.
pub proof fn lemma_driver_faults_each_page_once(
    base: int,
    n: nat,
    page_size: int,
    start: int,
    stride: int,
    touches: Seq<int>,
)
    requires
        page_size > 0,
        base >= 0,
        base % page_size == 0,
        n >= 1,
        0 <= start < page_size,
        0 < stride <= page_size,
        forall|k: int| 0 <= k < touches.len() ==> #[trigger] touches[k] == base + start + k * stride,
        forall|k: int| 0 <= k < touches.len() ==> #[trigger] touches[k] < base + n * page_size,
        start + touches.len() * stride >= n * page_size,
    ensures
        faults_of(touches, page_size) == Seq::new(n, |j: int| base + j * page_size),
{
    let len = touches.len() as int;
    assert(page_size <= n * page_size) by (nonlinear_arith)
        requires
            n >= 1,
            page_size > 0,
    ;
    if len == 0 {
        assert(start + len * stride == start) by (nonlinear_arith)
            requires
                len == 0,
        ;
    }
    assert(len >= 1);
    lemma_driver_prefix_faults(base, page_size, start, stride, touches, len);
    assert(touches.take(len) =~= touches);
    let o = start + (len - 1) * stride;
    assert(touches[len - 1] == base + o);
    assert(o + stride == start + len * stride) by (nonlinear_arith)
        requires
            o == start + (len - 1) * stride,
    ;
    let q = o / page_size;
    vstd::arithmetic::div_mod::lemma_fundamental_div_mod(o, page_size);
    assert(q == n - 1) by (nonlinear_arith)
        requires
            o == page_size * q + o % page_size,
            0 <= o % page_size < page_size,
            o < n * page_size,
            o + stride >= n * page_size,
            0 < stride <= page_size,
    ;
}

} // verus!
