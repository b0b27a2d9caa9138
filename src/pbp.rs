use vstd::prelude::*;

verus! {

/// Size in bytes of one guest page frame.
pub const GUEST_PAGE: u64 = 4096;

/// Number of guest 4 KiB sub-pages within one host page.
pub open spec fn sub_pages(page_size: u64) -> int {
    page_size as int / 4096
}

/// Number of 64-bit words that hold one bit per sub-page.
pub open spec fn words_for(page_size: u64) -> int {
    (sub_pages(page_size) + 63) / 64
}

/// Bit `j` of word `w`.
pub open spec fn bit(w: u64, j: u64) -> bool {
    (w >> j) & 1u64 == 1u64
}

/// A host page size the accumulator can work with.
pub open spec fn valid_page_size(page_size: u64) -> bool {
    page_size >= 4096 && page_size % 4096 == 0
}

/// Host-page-aligned base of a guest address.
pub open spec fn align_down(a: u64, page_size: u64) -> u64 {
    (a - a % page_size) as u64
}

/// Index of the sub-page that a guest address falls in, within its host page.
pub open spec fn sub_page_of(a: u64, page_size: u64) -> int {
    (a % page_size) as int / 4096
}

/// Coalesces 4 KiB guest page hints into whole host pages.
pub struct PartiallyBalloonedPage {
    pub addr: u64,
    pub bitmap: Vec<u64>,
    pub page_size: u64,
}

proof fn lemma_bit_or(w: u64, b: u64, j: u64)
    requires
        b < 64,
        j < 64,
    ensures
        bit(w | (1u64 << b), j) == (bit(w, j) || j == b),
{
    assert(((w | (1u64 << b)) >> j) & 1u64 == 1u64 <==> ((w >> j) & 1u64 == 1u64 || j == b))
        by (bit_vector)
        requires
            b < 64,
            j < 64,
    ;
}

proof fn lemma_bit_zero(j: u64)
    requires
        j < 64,
    ensures
        !bit(0u64, j),
{
    assert((0u64 >> j) & 1u64 != 1u64) by (bit_vector);
}

proof fn lemma_bit_max(w: u64, j: u64)
    requires
        j < 64,
        w == 0xffff_ffff_ffff_ffffu64,
    ensures
        bit(w, j),
{
    assert((0xffff_ffff_ffff_ffffu64 >> j) & 1u64 == 1u64) by (bit_vector)
        requires
            j < 64,
    ;
}

proof fn lemma_pad_mask(pad: u64, j: u64)
    requires
        0 < pad < 64,
        j < 64,
    ensures
        bit(pad_mask(pad), j) == (j >= 64 - pad),
{
    let s = (64 - pad) as u64;
    assert(((!(((1u64 << s) - 1u64) as u64)) >> j) & 1u64 == 1u64 <==> j >= s) by (bit_vector)
        requires
            0 < s < 64,
            j < 64,
    ;
}

/// The last bitmap word of a fresh accumulator: its highest `pad` bits set.
pub open spec fn pad_mask(pad: u64) -> u64 {
    !(((1u64 << (64 - pad) as u64) - 1u64) as u64)
}

/// Low bits: a word whose lowest `k` bits are set has them all set in its mask.
proof fn lemma_low_bits(w: u64, k: u64)
    requires
        1 <= k <= 63,
        forall|j: u64| j < k ==> #[trigger] bit(w, j),
    ensures
        w & ((1u64 << k) - 1) as u64 == ((1u64 << k) - 1) as u64,
    decreases k,
{
    if k == 1 {
        assert(bit(w, 0));
        assert((w >> 0u64) & 1u64 == 1u64 ==> w & ((1u64 << 1u64) - 1u64) as u64 == ((1u64
            << 1u64) - 1u64) as u64) by (bit_vector);
    } else {
        let k1 = (k - 1) as u64;
        lemma_low_bits(w, k1);
        assert(bit(w, k1));
        assert(w & ((1u64 << k1) - 1u64) as u64 == ((1u64 << k1) - 1u64) as u64 && (w >> k1)
            & 1u64 == 1u64 ==> w & ((1u64 << k) - 1u64) as u64 == ((1u64 << k) - 1u64) as u64)
            by (bit_vector)
            requires
                1 <= k1 < 63,
                k == k1 + 1,
        ;
    }
}

/// A word with all 64 bits set is the all-ones word.
proof fn lemma_all_bits(w: u64)
    requires
        forall|j: u64| j < 64 ==> #[trigger] bit(w, j),
    ensures
        w == 0xffff_ffff_ffff_ffffu64,
{
    lemma_low_bits(w, 63);
    assert(bit(w, 63));
    assert(w & ((1u64 << 63u64) - 1u64) as u64 == ((1u64 << 63u64) - 1u64) as u64 && (w
        >> 63u64) & 1u64 == 1u64 ==> w == 0xffff_ffff_ffff_ffffu64) by (bit_vector);
}

impl PartiallyBalloonedPage {
    /// Whether slot `i` of the bitmap (a sub-page or a padding slot) is set.
    pub open spec fn marked(&self, i: int) -> bool {
        bit(self.bitmap@[i / 64], (i % 64) as u64)
    }

    /// The sub-pages of the current host page that have been hinted so far.
    pub open spec fn hinted(&self) -> Set<int> {
        Set::new(|i: int| 0 <= i < sub_pages(self.page_size) && self.marked(i))
    }

    pub open spec fn wf(&self) -> bool {
        &&& valid_page_size(self.page_size)
        &&& self.bitmap@.len() == words_for(self.page_size)
        &&& forall|i: int|
            sub_pages(self.page_size) <= i < 64 * self.bitmap@.len() ==> #[trigger] bit(
                self.bitmap@[i / 64],
                (i % 64) as u64,
            )
    }

    /// The bitmap of a fresh accumulator: data bits clear, padding bits set.
    fn empty_bitmap(page_size: u64) -> (r: Vec<u64>)
        requires
            valid_page_size(page_size),
        ensures
            r@.len() == words_for(page_size),
            forall|i: int|
                0 <= i < 64 * r@.len() ==> (#[trigger] bit(r@[i / 64], (i % 64) as u64) == (i
                    >= sub_pages(page_size))),
    {
        let n: u64 = page_size / GUEST_PAGE;
        let len: u64 = (n + 63) / 64;
        let mut bitmap: Vec<u64> = Vec::new();
        let mut k: u64 = 0;
        while k < len
            invariant
                n == sub_pages(page_size),
                len == words_for(page_size),
                k <= len,
                bitmap@.len() == k,
                forall|x: int| 0 <= x < k ==> bitmap@[x] == 0u64,
            decreases len - k,
        {
            bitmap.push(0u64);
            k = k + 1;
        }
        assert(64 * len <= n + 63 && n <= 64 * len) by (nonlinear_arith)
            requires
                len == (n + 63) / 64,
        ;
        let pad: u64 = len * 64 - n;
        if pad > 0 {
            let s: u64 = 64 - pad;
            let m: u64 = 1u64 << s;
            assert(m >= 1) by (bit_vector)
                requires
                    s < 64,
                    m == 1u64 << s,
            ;
            let v: u64 = !(m - 1);
            assert(v == pad_mask(pad));
            let last: usize = bitmap.len() - 1;
            bitmap.set(last, v);
        }
        proof {
            assert forall|i: int| 0 <= i < 64 * bitmap@.len() implies (#[trigger] bit(
                bitmap@[i / 64],
                (i % 64) as u64,
            ) == (i >= n)) by {
                let j = (i % 64) as u64;
                assert(i == 64 * (i / 64) + i % 64);
                assert(i / 64 < len) by (nonlinear_arith)
                    requires
                        0 <= i < 64 * len,
                ;
                if pad > 0 && i / 64 == len - 1 {
                    lemma_pad_mask(pad, j);
                } else {
                    assert(bitmap@[i / 64] == 0u64);
                    lemma_bit_zero(j);
                    assert(i < n);
                }
            }
        }
        bitmap
    }

    /// A fresh accumulator for host pages of `page_size` bytes.
    pub fn new(page_size: u64) -> (r: Self)
        requires
            valid_page_size(page_size),
        ensures
            r.wf(),
            r.addr == 0,
            r.page_size == page_size,
            r.hinted() == Set::<int>::empty(),
    {
        let r = PartiallyBalloonedPage { addr: 0, bitmap: Self::empty_bitmap(page_size), page_size };
        assert(r.hinted() =~= Set::<int>::empty());
        r
    }

    /// Whether `addr` lies in the host page this accumulator is collecting.
    pub fn pfn_match(&self, addr: u64) -> (r: bool)
        requires
            self.wf(),
        ensures
            r == (self.addr == align_down(addr, self.page_size)),
    {
        assert(addr % self.page_size <= addr) by (nonlinear_arith)
            requires
                self.page_size > 0,
        ;
        self.addr == addr - addr % self.page_size
    }

    /// Whether every sub-page of the host page has been hinted.
    pub fn bitmap_full(&self) -> (r: bool)
        requires
            self.wf(),
        ensures
            r == (forall|i: int| 0 <= i < sub_pages(self.page_size) ==> #[trigger] self.marked(i)),
            r == (self.hinted() == Set::new(|i: int| 0 <= i < sub_pages(self.page_size))),
    {
        let mut k: usize = 0;
        while k < self.bitmap.len()
            invariant
                self.wf(),
                k <= self.bitmap@.len(),
                forall|x: int| 0 <= x < k ==> self.bitmap@[x] == 0xffff_ffff_ffff_ffffu64,
            decreases self.bitmap@.len() - k,
        {
            if self.bitmap[k] != 0xffff_ffff_ffff_ffffu64 {
                proof {
                    let w = self.bitmap@[k as int];
                    if forall|j: u64| j < 64 ==> #[trigger] bit(w, j) {
                        lemma_all_bits(w);
                    }
                    let j = choose|j: u64| j < 64 && !bit(w, j);
                    let i = 64 * k + j;
                    assert(i / 64 == k && i % 64 == j);
                    assert(!self.marked(i));
                    assert(!self.hinted().contains(i));
                    assert(!Set::new(|i: int| 0 <= i < sub_pages(self.page_size)).contains(i)
                        ==> !(0 <= i < sub_pages(self.page_size)));
                }
                return false;
            }
            k = k + 1;
        }
        proof {
            assert forall|i: int| 0 <= i < sub_pages(self.page_size) implies #[trigger] self.marked(
                i,
            ) by {
                lemma_bit_max(self.bitmap@[i / 64], (i % 64) as u64);
            }
            assert(self.hinted() =~= Set::new(|i: int| 0 <= i < sub_pages(self.page_size)));
        }
        true
    }

    /// Records that the sub-page holding `addr` has been hinted.
    pub fn set_bit(&mut self, addr: u64)
        requires
            old(self).wf(),
        ensures
            final(self).wf(),
            final(self).addr == old(self).addr,
            final(self).page_size == old(self).page_size,
            final(self).hinted() == old(self).hinted().insert(sub_page_of(addr, old(self).page_size)),
    {
        let idx: u64 = (addr % self.page_size) / GUEST_PAGE;
        assert(idx < sub_pages(self.page_size)) by (nonlinear_arith)
            requires
                idx == (addr % self.page_size) / 4096,
                self.page_size >= 4096,
                self.page_size % 4096 == 0,
        ;
        assert(idx / 64 < words_for(self.page_size)) by (nonlinear_arith)
            requires
                idx < sub_pages(self.page_size),
        ;
        let bl: usize = self.bitmap.len();
        assert(idx / 64 < bl);
        let w: usize = (idx / 64) as usize;
        let b: u64 = idx % 64;
        assert(w as int == idx / 64);
        let ghost pre = *self;
        let nw = self.bitmap[w] | (1u64 << b);
        self.bitmap.set(w, nw);
        proof {
            assert forall|i: int| 0 <= i < 64 * self.bitmap@.len() implies #[trigger] self.marked(i) == (
            pre.marked(i) || i == idx) by {
                assert(i == 64 * (i / 64) + i % 64);
                assert(idx == 64 * (idx / 64) + idx % 64);
                if i / 64 == w {
                    assert(self.bitmap@[i / 64] == nw);
                    assert((i % 64 == b) == (i == idx));
                    lemma_bit_or(pre.bitmap@[w as int], b, (i % 64) as u64);
                } else {
                    assert(self.bitmap@[i / 64] == pre.bitmap@[i / 64]);
                }
            }
            assert(self.hinted() =~= pre.hinted().insert(sub_page_of(addr, pre.page_size)));
            assert forall|i: int|
                sub_pages(self.page_size) <= i < 64 * self.bitmap@.len() implies #[trigger] bit(
                self.bitmap@[i / 64],
                (i % 64) as u64,
            ) by {
                assert(self.marked(i) == (pre.marked(i) || i == idx));
                assert(pre.marked(i));
            }
        }
    }

    /// Drops every hint and returns to the state of a fresh accumulator.
    pub fn reset(&mut self)
        requires
            old(self).wf(),
        ensures
            final(self).wf(),
            final(self).addr == 0,
            final(self).page_size == old(self).page_size,
            final(self).hinted() == Set::<int>::empty(),
    {
        self.addr = 0;
        self.bitmap = Self::empty_bitmap(self.page_size);
        assert(self.hinted() =~= Set::<int>::empty());
    }
}

} // verus!
