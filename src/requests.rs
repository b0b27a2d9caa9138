use vstd::prelude::*;
use crate::counters::BalloonCounters;
use crate::pbp::{
    align_down, sub_page_of, sub_pages, valid_page_size, PartiallyBalloonedPage, GUEST_PAGE,
};

verus! {

/// Failures of request processing.
#[derive(Clone, Copy, Debug, PartialEq, Eq, Structural)]
pub enum Error {
    /// The guest address could not be resolved or read.
    GuestMemory(u64),
    /// A head descriptor that the protocol reads from was write-only.
    UnexpectedWriteOnlyDescriptor,
    /// A descriptor length was not a multiple of the record size.
    InvalidRequest,
    /// The host hole-punch failed with this OS error number.
    FallocateFail(i32),
    /// The host memory advice failed with this OS error number.
    MadviseFail(i32),
    /// Writing an event counter failed with this OS error number.
    EventFdWriteFail(i32),
    /// A queue index that is neither an inflate nor a deflate queue.
    InvalidQueueIndex(usize),
    /// Signalling the guest failed with this OS error number.
    FailedSignal(i32),
    /// A descriptor chain without a head descriptor.
    DescriptorChainTooShort,
    /// The used ring could not be updated.
    QueueAddUsed,
    /// The available ring could not be walked.
    QueueIterator,
    /// A statistics record carried an unknown tag.
    UnexpectedStatTag(u16),
}

/// Memory advice given to the host kernel.
#[derive(Clone, Copy, Debug, PartialEq, Eq, Structural)]
pub enum Advice {
    DontNeed,
    WillNeed,
}

/// A host memory operation over a guest physical range.
#[derive(Clone, Copy, Debug, PartialEq, Eq, Structural)]
pub enum MemOp {
    /// Give the backing of `[base, base + len)` back to the host.
    Release { base: u64, len: u64 },
    /// Advise the host kernel about `[base, base + len)`.
    Advise { base: u64, len: u64, advice: Advice },
}

/// A host operation that releases guest memory.
#[derive(Clone, Copy, Debug, PartialEq, Eq, Structural)]
pub enum HostOp {
    /// Punch a hole in the region's backing file, keeping its size.
    PunchHole { offset: u64, len: u64 },
    /// Advise the host kernel about the guest range `[base, base + len)`.
    Advise { base: u64, len: u64, advice: Advice },
}

/// The guest memory region that holds an address.
#[derive(Clone, Copy, Debug, PartialEq, Eq, Structural)]
pub struct Region {
    /// Guest address of the region's first byte.
    pub start: u64,
    /// Offset of the region's first byte in its backing file, if it has one.
    pub file_offset: Option<u64>,
}

/// The head descriptor of a descriptor chain.
#[derive(Clone, Copy, Debug, PartialEq, Eq, Structural)]
pub struct Descriptor {
    pub addr: u64,
    pub len: u32,
    pub write_only: bool,
}

/// What a page-frame queue does with the frames it carries.
#[derive(Clone, Copy, Debug, PartialEq, Eq, Structural)]
pub enum PfnRole {
    Inflate,
    Deflate,
}

/// Role of queue `queue_index` among `num_queues` active queues.
pub open spec fn role_of(queue_index: usize, num_queues: usize) -> Result<PfnRole, Error> {
    if queue_index == 0 || (num_queues >= 4 && queue_index == num_queues - 2) {
        Ok(PfnRole::Inflate)
    } else if queue_index == 1 || (num_queues >= 4 && queue_index == num_queues - 1) {
        Ok(PfnRole::Deflate)
    } else {
        Err(Error::InvalidQueueIndex(queue_index))
    }
}

/// The role of a page-frame queue: the first queue and the second-to-last of a layout of
/// four or more inflate, the second and the last deflate.
pub fn pfn_queue_role(queue_index: usize, num_queues: usize) -> (r: Result<PfnRole, Error>)
    ensures
        r == role_of(queue_index, num_queues),
{
    if queue_index == 0 || (num_queues >= 4 && queue_index == num_queues - 2) {
        Ok(PfnRole::Inflate)
    } else if queue_index == 1 || (num_queues >= 4 && queue_index == num_queues - 1) {
        Ok(PfnRole::Deflate)
    } else {
        Err(Error::InvalidQueueIndex(queue_index))
    }
}

/// Address of the host page an accumulator is collecting (none: zero).
pub open spec fn pbp_addr(o: Option<PartiallyBalloonedPage>) -> u64 {
    match o {
        Some(p) => p.addr,
        None => 0,
    }
}

/// Sub-pages an accumulator holds (none: empty).
pub open spec fn pbp_hinted(o: Option<PartiallyBalloonedPage>) -> Set<int> {
    match o {
        Some(p) => p.hinted(),
        None => Set::empty(),
    }
}

/// An accumulator, if present, is well formed for host pages of `page_size` bytes.
pub open spec fn pbp_ok(o: Option<PartiallyBalloonedPage>, page_size: u64) -> bool {
    match o {
        Some(p) => p.wf() && p.page_size == page_size,
        None => true,
    }
}

/// Every sub-page of a host page.
pub open spec fn all_sub_pages(page_size: u64) -> Set<int> {
    Set::new(|i: int| 0 <= i < sub_pages(page_size))
}

/// One 4 KiB hint applied to an accumulator holding `hinted` of the host page at `addr`:
/// the accumulator's new address and contents, and the range released, if any.
pub open spec fn hint_step(addr: u64, hinted: Set<int>, page_size: u64, pfn: u32) -> (
    u64,
    Set<int>,
    Option<MemOp>,
) {
    let base = (pfn as u64 * 4096) as u64;
    if page_size == 4096 {
        (addr, hinted, Some(MemOp::Release { base, len: 4096 }))
    } else {
        let al = align_down(base, page_size);
        let h = (if addr == al {
            hinted
        } else {
            Set::empty()
        }).insert(sub_page_of(base, page_size));
        if h == all_sub_pages(page_size) {
            (0, Set::empty(), Some(MemOp::Release { base: al, len: page_size }))
        } else {
            (al, h, None)
        }
    }
}

/// Takes one 4 KiB page hint. With 4 KiB host pages the page is released at once; with
/// larger host pages the hint is accumulated and the whole host page is released once all
/// of its sub-pages have been hinted. A hint for another host page drops what was held.
pub fn release_memory_range_4k(
    pbp: &mut Option<PartiallyBalloonedPage>,
    page_size: u64,
    pfn: u32,
) -> (r: Option<MemOp>)
    requires
        valid_page_size(page_size),
        pbp_ok(*old(pbp), page_size),
    ensures
        pbp_ok(*final(pbp), page_size),
        (pbp_addr(*final(pbp)), pbp_hinted(*final(pbp)), r) == hint_step(
            pbp_addr(*old(pbp)),
            pbp_hinted(*old(pbp)),
            page_size,
            pfn,
        ),
{
    let base: u64 = (pfn as u64) * GUEST_PAGE;
    if page_size == GUEST_PAGE {
        return Some(MemOp::Release { base, len: GUEST_PAGE });
    }
    let ghost a0 = pbp_addr(*pbp);
    let ghost h0 = pbp_hinted(*pbp);
    let mut p = match pbp.take() {
        Some(q) => q,
        None => PartiallyBalloonedPage::new(page_size),
    };
    assert(p.wf() && p.page_size == page_size && p.addr == a0 && p.hinted() == h0);
    if !p.pfn_match(base) {
        p.reset();
        assert(base % page_size <= base) by (nonlinear_arith)
            requires
                page_size > 0,
        ;
        p.addr = base - base % page_size;
    }
    let ghost al = align_down(base, page_size);
    assert(p.addr == al);
    assert(p.hinted() == (if a0 == al {
        h0
    } else {
        Set::<int>::empty()
    }));
    p.set_bit(base);
    let r = if p.bitmap_full() {
        let a = p.addr;
        p.reset();
        Some(MemOp::Release { base: a, len: page_size })
    } else {
        None
    };
    *pbp = Some(p);
    r
}

/// The little-endian `u32` at byte `i`.
pub open spec fn le_u32(d: Seq<u8>, i: int) -> u32 {
    (d[i] as u32) | ((d[i + 1] as u32) << 8u32) | ((d[i + 2] as u32) << 16u32) | ((d[i + 3] as u32)
        << 24u32)
}

/// The little-endian `u64` at byte `i`.
pub open spec fn le_u64(d: Seq<u8>, i: int) -> u64 {
    (d[i] as u64) | ((d[i + 1] as u64) << 8u64) | ((d[i + 2] as u64) << 16u64) | ((d[i + 3] as u64)
        << 24u64) | ((d[i + 4] as u64) << 32u64) | ((d[i + 5] as u64) << 40u64) | ((d[i
        + 6] as u64) << 48u64) | ((d[i + 7] as u64) << 56u64)
}

fn read_u32(d: &Vec<u8>, i: usize) -> (r: u32)
    requires
        i + 4 <= d@.len(),
    ensures
        r == le_u32(d@, i as int),
{
    let _len: usize = d.len();
    (d[i] as u32) | ((d[i + 1] as u32) << 8u32) | ((d[i + 2] as u32) << 16u32) | ((d[i
        + 3] as u32) << 24u32)
}

fn read_u64(d: &Vec<u8>, i: usize) -> (r: u64)
    requires
        i + 8 <= d@.len(),
    ensures
        r == le_u64(d@, i as int),
{
    let _len: usize = d.len();
    (d[i] as u64) | ((d[i + 1] as u64) << 8u64) | ((d[i + 2] as u64) << 16u64) | ((d[i
        + 3] as u64) << 24u64) | ((d[i + 4] as u64) << 32u64) | ((d[i + 5] as u64) << 40u64)
        | ((d[i + 6] as u64) << 48u64) | ((d[i + 7] as u64) << 56u64)
}

/// The WILLNEED advice for the host page holding a deflated guest page.
pub open spec fn deflate_op(page_size: u64, pfn: u32) -> MemOp {
    MemOp::Advise {
        base: align_down((pfn as u64 * 4096) as u64, page_size),
        len: page_size,
        advice: Advice::WillNeed,
    }
}

/// The first `k` page frames of `data` applied in order: the accumulator's final address
/// and contents, and the memory operations issued.
pub open spec fn pfn_run(
    addr: u64,
    hinted: Set<int>,
    page_size: u64,
    role: PfnRole,
    data: Seq<u8>,
    k: nat,
) -> (u64, Set<int>, Seq<MemOp>)
    decreases k,
{
    if k == 0 {
        (addr, hinted, Seq::empty())
    } else {
        let prev = pfn_run(addr, hinted, page_size, role, data, (k - 1) as nat);
        let pfn = le_u32(data, 4 * (k - 1));
        match role {
            PfnRole::Inflate => {
                let s = hint_step(prev.0, prev.1, page_size, pfn);
                (
                    s.0,
                    s.1,
                    match s.2 {
                        Some(op) => prev.2.push(op),
                        None => prev.2,
                    },
                )
            },
            PfnRole::Deflate => (prev.0, prev.1, prev.2.push(deflate_op(page_size, pfn))),
        }
    }
}

/// Processes one descriptor of a page-frame queue whose bytes are `data`: an array of
/// little-endian 4 KiB page frame numbers. Returns the memory operations to perform.
pub fn process_pfn_descriptor(
    pbp: &mut Option<PartiallyBalloonedPage>,
    page_size: u64,
    role: PfnRole,
    desc: &Descriptor,
    data: &Vec<u8>,
) -> (r: Result<Vec<MemOp>, Error>)
    requires
        valid_page_size(page_size),
        pbp_ok(*old(pbp), page_size),
        data@.len() == desc.len,
    ensures
        pbp_ok(*final(pbp), page_size),
        desc.write_only ==> r == Err::<Vec<MemOp>, Error>(Error::UnexpectedWriteOnlyDescriptor),
        !desc.write_only && desc.len % 4 != 0 ==> r == Err::<Vec<MemOp>, Error>(
            Error::InvalidRequest,
        ),
        r is Err ==> *final(pbp) == *old(pbp),
        !desc.write_only && desc.len % 4 == 0 ==> r is Ok && {
            let run = pfn_run(
                pbp_addr(*old(pbp)),
                pbp_hinted(*old(pbp)),
                page_size,
                role,
                data@,
                (desc.len / 4) as nat,
            );
            &&& pbp_addr(*final(pbp)) == run.0
            &&& pbp_hinted(*final(pbp)) == run.1
            &&& r->Ok_0@ == run.2
        },
{
    if desc.write_only {
        return Err(Error::UnexpectedWriteOnlyDescriptor);
    }
    if desc.len % 4 != 0 {
        return Err(Error::InvalidRequest);
    }
    let ghost a0 = pbp_addr(*pbp);
    let ghost h0 = pbp_hinted(*pbp);
    let mut ops: Vec<MemOp> = Vec::new();
    let n: usize = data.len() / 4;
    let mut k: usize = 0;
    while k < n
        invariant
            valid_page_size(page_size),
            pbp_ok(*pbp, page_size),
            n == desc.len / 4,
            data@.len() == desc.len,
            desc.len % 4 == 0,
            k <= n,
            ({
                let run = pfn_run(a0, h0, page_size, role, data@, k as nat);
                &&& pbp_addr(*pbp) == run.0
                &&& pbp_hinted(*pbp) == run.1
                &&& ops@ == run.2
            }),
        decreases n - k,
    {
        let pfn = read_u32(data, 4 * k);
        match role {
            PfnRole::Inflate => {
                let o = release_memory_range_4k(pbp, page_size, pfn);
                if let Some(op) = o {
                    ops.push(op);
                }
            },
            PfnRole::Deflate => {
                let base: u64 = (pfn as u64) * GUEST_PAGE;
                assert(base % page_size <= base) by (nonlinear_arith)
                    requires
                        page_size > 0,
                ;
                ops.push(
                    MemOp::Advise {
                        base: base - base % page_size,
                        len: page_size,
                        advice: Advice::WillNeed,
                    },
                );
            },
        }
        k = k + 1;
    }
    Ok(ops)
}

/// The host operations that release `[base, base + len)` inside `region`: a hole-punch of
/// the backing file where there is one, then DONTNEED advice in every case.
pub open spec fn release_ops(base: u64, len: u64, region: Region) -> Seq<HostOp> {
    let advise = HostOp::Advise { base, len, advice: Advice::DontNeed };
    match region.file_offset {
        Some(f) => seq![
            HostOp::PunchHole { offset: (base - region.start + f) as u64, len },
            advise,
        ],
        None => seq![advise],
    }
}

/// Plans the release of `[base, base + len)`, given the guest memory region that holds
/// `base` (none: the address is not guest memory).
pub fn release_memory_range(base: u64, len: u64, region: Option<Region>) -> (r: Result<
    Vec<HostOp>,
    Error,
>)
    requires
        region matches Some(g) ==> g.start <= base && (g.file_offset matches Some(f) ==> base
            - g.start + f <= u64::MAX),
    ensures
        region is None ==> r == Err::<Vec<HostOp>, Error>(Error::GuestMemory(base)),
        region matches Some(g) ==> r is Ok && r->Ok_0@ == release_ops(base, len, g),
{
    match region {
        None => Err(Error::GuestMemory(base)),
        Some(g) => {
            let mut ops: Vec<HostOp> = Vec::new();
            if let Some(f) = g.file_offset {
                ops.push(HostOp::PunchHole { offset: base - g.start + f, len });
            }
            ops.push(HostOp::Advise { base, len, advice: Advice::DontNeed });
            proof {
                assert(ops@ =~= release_ops(base, len, g));
            }
            Ok(ops)
        },
    }
}

/// Size in bytes of one packed statistics record: a `u16` tag and a `u64` value.
pub const STAT_RECORD_SIZE: usize = 10;

/// The first `k` statistics records of `data` applied in order to counter values `v`: the
/// values after, and the first unknown tag met, where processing stops.
pub open spec fn stats_run(v: Seq<u64>, data: Seq<u8>, k: nat) -> (Seq<u64>, Option<u16>)
    decreases k,
{
    if k == 0 {
        (v, None)
    } else {
        let prev = stats_run(v, data, (k - 1) as nat);
        if prev.1 is Some {
            prev
        } else {
            let i = 10 * (k - 1);
            let tag = ((data[i] as u16) | ((data[i + 1] as u16) << 8u16)) as u16;
            if tag <= 9 {
                (prev.0.update(tag as int, le_u64(data, i + 2)), None)
            } else {
                (prev.0, Some(tag))
            }
        }
    }
}

/// Processes one descriptor of the statistics queue whose bytes are `data`: packed
/// records of a little-endian `u16` tag and `u64` value, each stored in its counter.
pub fn process_stats_descriptor(
    counters: &mut BalloonCounters,
    desc: &Descriptor,
    data: &Vec<u8>,
) -> (r: Result<(), Error>)
    requires
        data@.len() == desc.len,
    ensures
        desc.write_only ==> r == Err::<(), Error>(Error::UnexpectedWriteOnlyDescriptor)
            && *final(counters) == *old(counters),
        !desc.write_only && desc.len % 10 != 0 ==> r == Err::<(), Error>(Error::InvalidRequest)
            && *final(counters) == *old(counters),
        !desc.write_only && desc.len % 10 == 0 ==> {
            let run = stats_run(old(counters)@, data@, (desc.len / 10) as nat);
            &&& final(counters)@ == run.0
            &&& run.1 is None ==> r is Ok
            &&& run.1 matches Some(t) ==> r == Err::<(), Error>(Error::UnexpectedStatTag(t))
        },
{
    if desc.write_only {
        return Err(Error::UnexpectedWriteOnlyDescriptor);
    }
    if desc.len as usize % STAT_RECORD_SIZE != 0 {
        return Err(Error::InvalidRequest);
    }
    let ghost v0 = counters@;
    let n: usize = data.len() / STAT_RECORD_SIZE;
    let mut k: usize = 0;
    while k < n
        invariant
            n == desc.len / 10,
            !desc.write_only,
            v0 == old(counters)@,
            data@.len() == desc.len,
            desc.len % 10 == 0,
            k <= n,
            stats_run(v0, data@, k as nat) == (counters@, None::<u16>),
        decreases n - k,
    {
        let i: usize = STAT_RECORD_SIZE * k;
        let tag: u16 = (data[i] as u16) | ((data[i + 1] as u16) << 8u16);
        let val: u64 = read_u64(data, i + 2);
        let res = counters.set_stat(tag, val);
        if res.is_err() {
            proof {
                assert(stats_run(v0, data@, (k + 1) as nat) == (counters@, Some(tag)));
                lemma_stats_stop(v0, data@, (k + 1) as nat, (desc.len / 10) as nat);
            }
            return Err(Error::UnexpectedStatTag(tag));
        }
        k = k + 1;
    }
    Ok(())
}

/// Once a statistics run has stopped at an unknown tag, later records change nothing.
proof fn lemma_stats_stop(v: Seq<u64>, data: Seq<u8>, k: nat, m: nat)
    requires
        k <= m,
        stats_run(v, data, k).1 is Some,
    ensures
        stats_run(v, data, m) == stats_run(v, data, k),
    decreases m - k,
{
    if k < m {
        lemma_stats_stop(v, data, k, (m - 1) as nat);
    }
}

/// Sum of the lengths of a chain's descriptors.
pub open spec fn total_len(descs: Seq<Descriptor>) -> nat
    decreases descs.len(),
{
    if descs.len() == 0 {
        0
    } else {
        total_len(descs.drop_last()) + descs.last().len as nat
    }
}

/// Processes one chain of the free page reporting queue: each descriptor is a free guest
/// range to release. Returns the releases in chain order and the length to mark used,
/// the descriptors' total length modulo 2^32.
pub fn process_reporting_chain(descs: &Vec<Descriptor>) -> (r: (Vec<MemOp>, u32))
    ensures
        r.0@.len() == descs@.len(),
        forall|i: int|
            0 <= i < descs@.len() ==> r.0@[i] == (MemOp::Release {
                base: descs@[i].addr,
                len: descs@[i].len as u64,
            }),
        r.1 == total_len(descs@) % 0x1_0000_0000,
{
    let mut ops: Vec<MemOp> = Vec::new();
    let mut used: u32 = 0;
    let mut k: usize = 0;
    while k < descs.len()
        invariant
            k <= descs@.len(),
            ops@.len() == k,
            forall|i: int|
                0 <= i < k ==> ops@[i] == (MemOp::Release {
                    base: descs@[i].addr,
                    len: descs@[i].len as u64,
                }),
            used == total_len(descs@.take(k as int)) % 0x1_0000_0000,
        decreases descs@.len() - k,
    {
        let d = descs[k];
        ops.push(MemOp::Release { base: d.addr, len: d.len as u64 });
        proof {
            let t = descs@.take(k as int + 1);
            assert(t.drop_last() =~= descs@.take(k as int));
            vstd::arithmetic::div_mod::lemma_add_mod_noop(
                total_len(descs@.take(k as int)) as int,
                d.len as int,
                0x1_0000_0000,
            );
            vstd::arithmetic::div_mod::lemma_mod_twice(d.len as int, 0x1_0000_0000);
        }
        used = used.wrapping_add(d.len);
        k = k + 1;
    }
    assert(descs@.take(descs@.len() as int) =~= descs@);
    (ops, used)
}

} // verus!
