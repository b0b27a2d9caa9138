use vstd::prelude::*;
use crate::device::{acked_after, le32, one_if, queue_sizes_for, Balloon, VirtioBalloonConfig};
use crate::pbp::{align_down, sub_page_of, sub_pages, valid_page_size};
use crate::requests::{all_sub_pages, hint_step, le_u32, MemOp};

verus! {

/// The number of queues a device offers is two, plus one for statistics, one for free
/// page reporting and two for heterogeneous memory.
pub proof fn lemma_queue_count(statistics: bool, reporting: bool, hetero: bool)
    ensures
        queue_sizes_for(statistics, reporting, hetero).len() == 2 + one_if(statistics) + one_if(
            reporting,
        ) + 2 * one_if(hetero),
{
}

/// A device restored from the state another device saved has the same offered and
/// acknowledged features, the same configuration bytes, and starts paused.
pub proof fn lemma_state_round_trip(b: Balloon, restored: Balloon)
    requires
        restored.holds_state(b.saved()),
    ensures
        restored.avail_features == b.avail_features,
        restored.acked_features == b.acked_features,
        restored.config.bytes() == b.config.bytes(),
        restored.paused,
{
}

/// Acknowledging the same features twice is the same as once, and acknowledging only
/// features the device does not offer changes nothing.
pub proof fn lemma_ack_idempotent(acked: u64, avail: u64, value: u64)
    ensures
        acked_after(acked_after(acked, avail, value), avail, value) == acked_after(
            acked,
            avail,
            value,
        ),
        value & avail == 0 ==> acked_after(acked, avail, value) == acked,
{
    assert((acked | (value & avail)) | (value & avail) == acked | (value & avail)) by (bit_vector);
    assert(value & avail == 0 ==> acked | (value & avail) == acked) by (bit_vector);
}

/// 4 KiB hints applied in order from an accumulator at `addr` holding `hinted`: the
/// accumulator's final address and contents, and what each hint released.
pub open spec fn hint_run(addr: u64, hinted: Set<int>, page_size: u64, pfns: Seq<u32>) -> (
    u64,
    Set<int>,
    Seq<Option<MemOp>>,
)
    decreases pfns.len(),
{
    if pfns.len() == 0 {
        (addr, hinted, Seq::empty())
    } else {
        let prev = hint_run(addr, hinted, page_size, pfns.drop_last());
        let s = hint_step(prev.0, prev.1, page_size, pfns.last());
        (s.0, s.1, prev.2.push(s.2))
    }
}

/// Byte address of a guest page frame.
pub open spec fn frame_addr(pfn: u32) -> u64 {
    (pfn as u64 * 4096) as u64
}

/// Sub-pages named by the first `k` frames.
pub open spec fn first_subs(pfns: Seq<u32>, page_size: u64, k: int) -> Set<int> {
    Set::new(|i: int| exists|j: int| 0 <= j < k && i == sub_page_of(frame_addr(pfns[j]), page_size))
}

/// The frames are the sub-pages of the host page at `host_base`, each exactly once.
pub open spec fn covers_host_page(pfns: Seq<u32>, page_size: u64, host_base: u64) -> bool {
    &&& pfns.len() == sub_pages(page_size)
    &&& forall|k: int| 0 <= k < pfns.len() ==> align_down(frame_addr(#[trigger] pfns[k]), page_size) == host_base
    &&& forall|k1: int, k2: int|
        0 <= k1 < pfns.len() && 0 <= k2 < pfns.len() && k1 != k2 ==> sub_page_of(
            frame_addr(#[trigger] pfns[k1]),
            page_size,
        ) != sub_page_of(frame_addr(#[trigger] pfns[k2]), page_size)
    &&& forall|i: int|
        #[trigger] all_sub_pages(page_size).contains(i) ==> exists|k: int|
            0 <= k < pfns.len() && #[trigger] sub_page_of(frame_addr(pfns[k]), page_size) == i
}

proof fn lemma_sub_in_range(a: u64, page_size: u64)
    requires
        valid_page_size(page_size),
    ensures
        0 <= sub_page_of(a, page_size) < sub_pages(page_size),
{
    assert(0 <= (a % page_size) as int / 4096 < page_size as int / 4096) by (nonlinear_arith)
        requires
            page_size >= 4096,
            page_size % 4096 == 0,
    ;
}

proof fn lemma_prefix(addr: u64, page_size: u64, pfns: Seq<u32>, host_base: u64, k: int)
    requires
        valid_page_size(page_size),
        page_size > 4096,
        covers_host_page(pfns, page_size, host_base),
        1 <= k < pfns.len(),
    ensures
        hint_run(addr, Set::empty(), page_size, pfns.take(k)) == (
            host_base,
            first_subs(pfns, page_size, k),
            Seq::new(k as nat, |i: int| None::<MemOp>),
        ),
    decreases k,
{
    let n = pfns.len() as int;
    let t = pfns.take(k);
    assert(t.drop_last() =~= pfns.take(k - 1));
    assert(t.last() == pfns[k - 1]);
    let prev = hint_run(addr, Set::empty(), page_size, pfns.take(k - 1));
    if k > 1 {
        lemma_prefix(addr, page_size, pfns, host_base, k - 1);
    } else {
        assert(prev.1 =~= first_subs(pfns, page_size, 0));
    }
    let base = frame_addr(pfns[k - 1]);
    assert(align_down(base, page_size) == host_base);
    let h = (if prev.0 == host_base {
        prev.1
    } else {
        Set::<int>::empty()
    }).insert(sub_page_of(base, page_size));
    assert(h =~= first_subs(pfns, page_size, k));
    let last = sub_page_of(frame_addr(pfns[n - 1]), page_size);
    lemma_sub_in_range(frame_addr(pfns[n - 1]), page_size);
    assert(all_sub_pages(page_size).contains(last));
    assert(!h.contains(last));
    assert(h != all_sub_pages(page_size));
    assert(hint_run(addr, Set::empty(), page_size, pfns.take(k)).2 =~= Seq::new(
        k as nat,
        |i: int| None::<MemOp>,
    ));
}

/// Hinting every 4 KiB sub-page of one host page exactly once, in any order, to an
/// empty accumulator releases that whole host page once, with the last hint and no
/// other, and leaves the accumulator empty.
pub proof fn lemma_whole_host_page(addr: u64, page_size: u64, pfns: Seq<u32>, host_base: u64)
    requires
        valid_page_size(page_size),
        covers_host_page(pfns, page_size, host_base),
    ensures
        hint_run(addr, Set::empty(), page_size, pfns).1 == Set::<int>::empty(),
        hint_run(addr, Set::empty(), page_size, pfns).2 == Seq::new(
            pfns.len(),
            |i: int|
                if i == pfns.len() - 1 {
                    Some(MemOp::Release { base: host_base, len: page_size })
                } else {
                    None
                },
        ),
{
    let n = pfns.len() as int;
    assert(n >= 1) by (nonlinear_arith)
        requires
            n == page_size as int / 4096,
            page_size >= 4096,
    ;
    assert(pfns.take(n) =~= pfns);
    let base = frame_addr(pfns[n - 1]);
    assert(align_down(base, page_size) == host_base);
    if page_size == 4096 {
        assert(n == 1);
        assert(pfns.drop_last() =~= Seq::<u32>::empty());
        assert(base % 4096 == 0) by (nonlinear_arith)
            requires
                base == (pfns[n - 1] as u64 * 4096) as u64,
                pfns[n - 1] as u64 * 4096 <= u64::MAX,
        ;
        assert(hint_run(addr, Set::empty(), page_size, pfns).2 =~= Seq::new(
            pfns.len(),
            |i: int|
                if i == pfns.len() - 1 {
                    Some(MemOp::Release { base: host_base, len: page_size })
                } else {
                    None
                },
        ));
    } else {
        assert(n >= 2);
        lemma_prefix(addr, page_size, pfns, host_base, n - 1);
        assert(pfns.drop_last() =~= pfns.take(n - 1));
        let prev = hint_run(addr, Set::empty(), page_size, pfns.take(n - 1));
        let h = prev.1.insert(sub_page_of(base, page_size));
        assert forall|i: int| all_sub_pages(page_size).contains(i) implies h.contains(i) by {
            let k = choose|k: int|
                0 <= k < pfns.len() && #[trigger] sub_page_of(frame_addr(pfns[k]), page_size) == i;
            if k < n - 1 {
                assert(prev.1.contains(i));
            }
        }
        assert forall|i: int| h.contains(i) implies all_sub_pages(page_size).contains(i) by {
            if i != sub_page_of(base, page_size) {
                let j = choose|j: int|
                    0 <= j < n - 1 && i == sub_page_of(frame_addr(pfns[j]), page_size);
                lemma_sub_in_range(frame_addr(pfns[j]), page_size);
            } else {
                lemma_sub_in_range(base, page_size);
            }
        }
        assert(h =~= all_sub_pages(page_size));
        assert(hint_run(addr, Set::empty(), page_size, pfns).2 =~= Seq::new(
            pfns.len(),
            |i: int|
                if i == pfns.len() - 1 {
                    Some(MemOp::Release { base: host_base, len: page_size })
                } else {
                    None
                },
        ));
    }
}

/// Decoding four bytes as a little-endian `u32` and encoding it again gives them back.
pub proof fn lemma_le32_round_trip(d: Seq<u8>)
    requires
        d.len() == 4,
    ensures
        le32(le_u32(d, 0)) == d,
{
    let (b0, b1, b2, b3) = (d[0], d[1], d[2], d[3]);
    let v = le_u32(d, 0);
    assert(v == (b0 as u32) | ((b1 as u32) << 8u32) | ((b2 as u32) << 16u32) | ((b3 as u32)
        << 24u32));
    assert(v as u8 == b0 && (v >> 8u32) as u8 == b1 && (v >> 16u32) as u8 == b2 && (v
        >> 24u32) as u8 == b3) by (bit_vector)
        requires
            v == (b0 as u32) | ((b1 as u32) << 8u32) | ((b2 as u32) << 16u32) | ((b3 as u32)
                << 24u32),
    ;
    assert(le32(v) =~= d);
}

/// After the guest writes four bytes `d` to `actual` (offset 4) or `hetero_actual`
/// (offset 20), the configuration image holds `d` at that offset and is unchanged
/// elsewhere.
pub proof fn lemma_config_write_bytes(before: VirtioBalloonConfig, offset: int, d: Seq<u8>)
    requires
        offset == 4 || offset == 20,
        d.len() == 4,
    ensures
        ({
            let after = if offset == 4 {
                VirtioBalloonConfig { actual: le_u32(d, 0), ..before }
            } else {
                VirtioBalloonConfig { hetero_actual: le_u32(d, 0), ..before }
            };
            &&& after.bytes().len() == 24
            &&& after.bytes().subrange(offset, offset + 4) == d
            &&& forall|i: int|
                0 <= i < 24 && !(offset <= i < offset + 4) ==> after.bytes()[i]
                    == before.bytes()[i]
        }),
{
    lemma_le32_round_trip(d);
    let after = if offset == 4 {
        VirtioBalloonConfig { actual: le_u32(d, 0), ..before }
    } else {
        VirtioBalloonConfig { hetero_actual: le_u32(d, 0), ..before }
    };
    assert(after.bytes().subrange(offset, offset + 4) =~= d);
}

} // verus!
