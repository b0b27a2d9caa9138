use virtio_balloon::counters::{stat_label, BalloonCounters};
use virtio_balloon::device::{
    route_event, Balloon, BalloonState, Processor, QueueEvent, QueueLayout, VirtioBalloonConfig,
};
use virtio_balloon::pbp::PartiallyBalloonedPage;
use virtio_balloon::requests::{
    pfn_queue_role, process_pfn_descriptor, process_reporting_chain, process_stats_descriptor,
    release_memory_range, release_memory_range_4k, Advice, Descriptor, Error, HostOp, MemOp,
    PfnRole, Region,
};

fn pfn_bytes(pfns: &[u32]) -> Vec<u8> {
    let mut v = Vec::new();
    for p in pfns {
        v.extend_from_slice(&p.to_le_bytes());
    }
    v
}

fn stat_bytes(recs: &[(u16, u64)]) -> Vec<u8> {
    let mut v = Vec::new();
    for (t, x) in recs {
        v.extend_from_slice(&t.to_le_bytes());
        v.extend_from_slice(&x.to_le_bytes());
    }
    v
}

fn desc(len: usize) -> Descriptor {
    Descriptor { addr: 0x1000, len: len as u32, write_only: false }
}

fn device(stats: bool, reporting: bool, hetero: bool) -> Balloon {
    Balloon::new("balloon0".to_string(), [1 << 30, 1 << 20], stats, false, reporting, hetero, None)
}

#[test]
fn pbp_new_sets_padding_bits() {
    let p = PartiallyBalloonedPage::new(16384);
    assert_eq!(p.addr, 0);
    assert_eq!(p.bitmap, vec![!0xfu64]);
    assert!(!p.bitmap_full());
    let big = PartiallyBalloonedPage::new(2 << 20);
    assert_eq!(big.bitmap, vec![0u64; 8]);
    let small = PartiallyBalloonedPage::new(4096);
    assert_eq!(small.bitmap, vec![!1u64]);
}

#[test]
fn pbp_set_bit_match_and_reset() {
    let mut p = PartiallyBalloonedPage::new(16384);
    p.addr = 0x40000;
    assert!(p.pfn_match(0x43fff));
    assert!(!p.pfn_match(0x44000));
    for a in [0x40000u64, 0x41000, 0x42000] {
        p.set_bit(a);
    }
    assert!(!p.bitmap_full());
    p.set_bit(0x43000);
    assert!(p.bitmap_full());
    p.reset();
    assert_eq!(p.addr, 0);
    assert_eq!(p.bitmap, vec![!0xfu64]);
}

#[test]
fn inflate_on_4k_host_releases_at_once() {
    let mut pbp = None;
    let ops = process_pfn_descriptor(&mut pbp, 4096, PfnRole::Inflate, &desc(4), &pfn_bytes(&[0x100]))
        .unwrap();
    assert_eq!(ops, vec![MemOp::Release { base: 0x100000, len: 4096 }]);
    assert!(pbp.is_none());
    let host = release_memory_range(
        0x100000,
        4096,
        Some(Region { start: 0, file_offset: Some(0) }),
    )
    .unwrap();
    assert_eq!(
        host,
        vec![
            HostOp::PunchHole { offset: 0x100000, len: 4096 },
            HostOp::Advise { base: 0x100000, len: 4096, advice: Advice::DontNeed },
        ]
    );
}

#[test]
fn inflate_aggregates_on_16k_host() {
    let mut pbp = None;
    let data = pfn_bytes(&[0x40, 0x41, 0x42, 0x43]);
    let ops = process_pfn_descriptor(&mut pbp, 16384, PfnRole::Inflate, &desc(16), &data).unwrap();
    assert_eq!(ops, vec![MemOp::Release { base: 0x40000, len: 16384 }]);
    let p = pbp.unwrap();
    assert_eq!(p.addr, 0);
    assert_eq!(p.bitmap, vec![!0xfu64]);
}

#[test]
fn inflate_out_of_order_releases_once() {
    let mut pbp = None;
    let mut released = Vec::new();
    for pfn in [0x43u32, 0x40, 0x42, 0x41] {
        if let Some(op) = release_memory_range_4k(&mut pbp, 16384, pfn) {
            released.push(op);
        }
    }
    assert_eq!(released, vec![MemOp::Release { base: 0x40000, len: 16384 }]);
}

#[test]
fn inflate_partial_then_mismatch_drops_bits() {
    let mut pbp = None;
    let data = pfn_bytes(&[0x40, 0x41, 0x50]);
    let ops = process_pfn_descriptor(&mut pbp, 16384, PfnRole::Inflate, &desc(12), &data).unwrap();
    assert!(ops.is_empty());
    let p = pbp.unwrap();
    assert_eq!(p.addr, 0x50000);
    assert_eq!(p.bitmap, vec![!0xfu64 | 1]);
}

#[test]
fn deflate_advises_willneed() {
    let mut pbp = None;
    let ops = process_pfn_descriptor(&mut pbp, 16384, PfnRole::Deflate, &desc(4), &pfn_bytes(&[0x200]))
        .unwrap();
    assert_eq!(ops, vec![MemOp::Advise { base: 0x200000, len: 16384, advice: Advice::WillNeed }]);
    assert!(pbp.is_none());
}

#[test]
fn stats_records_update_counters() {
    let mut c = BalloonCounters::new();
    let data = stat_bytes(&[(4, 1024), (6, 2048)]);
    assert_eq!(process_stats_descriptor(&mut c, &desc(20), &data), Ok(()));
    assert_eq!(c.free_memory, 1024);
    assert_eq!(c.available_memory, 2048);
    assert_eq!(c.swap_in, 0);
    let l = c.labelled();
    assert_eq!(l[4], ("free_memory".to_string(), 1024));
    assert_eq!(l[6], ("available_memory".to_string(), 2048));
    assert_eq!(stat_label(9), "hugetlb_failures");
}

#[test]
fn stats_unknown_tag() {
    let mut c = BalloonCounters::new();
    let data = stat_bytes(&[(1, 7), (10, 5), (2, 9)]);
    assert_eq!(process_stats_descriptor(&mut c, &desc(30), &data), Err(Error::UnexpectedStatTag(10)));
    assert_eq!(c.swap_out, 7);
    assert_eq!(c.major_faults, 0);
}

#[test]
fn inflate_length_not_multiple_of_four() {
    let mut pbp = None;
    let r = process_pfn_descriptor(&mut pbp, 4096, PfnRole::Inflate, &desc(3), &vec![1, 2, 3]);
    assert_eq!(r, Err(Error::InvalidRequest));
    let mut c = BalloonCounters::new();
    assert_eq!(process_stats_descriptor(&mut c, &desc(4), &vec![0; 4]), Err(Error::InvalidRequest));
}

#[test]
fn write_only_head_rejected() {
    let d = Descriptor { addr: 0, len: 4, write_only: true };
    let mut pbp = None;
    let r = process_pfn_descriptor(&mut pbp, 4096, PfnRole::Deflate, &d, &pfn_bytes(&[1]));
    assert_eq!(r, Err(Error::UnexpectedWriteOnlyDescriptor));
    let mut c = BalloonCounters::new();
    let d10 = Descriptor { addr: 0, len: 10, write_only: true };
    assert_eq!(
        process_stats_descriptor(&mut c, &d10, &stat_bytes(&[(0, 1)])),
        Err(Error::UnexpectedWriteOnlyDescriptor)
    );
}

#[test]
fn release_without_backing_file_still_advises() {
    let ops = release_memory_range(0x20000, 0x1000, Some(Region { start: 0x10000, file_offset: None }))
        .unwrap();
    assert_eq!(ops, vec![HostOp::Advise { base: 0x20000, len: 0x1000, advice: Advice::DontNeed }]);
    let ops = release_memory_range(0x20000, 0x1000, Some(Region { start: 0x10000, file_offset: Some(0x5000) }))
        .unwrap();
    assert_eq!(ops[0], HostOp::PunchHole { offset: 0x15000, len: 0x1000 });
    assert_eq!(release_memory_range(0x20000, 0x1000, None), Err(Error::GuestMemory(0x20000)));
}

#[test]
fn reporting_chain_releases_each_range() {
    let descs = vec![
        Descriptor { addr: 0x10000, len: 0x2000, write_only: false },
        Descriptor { addr: 0x20000, len: 0x1000, write_only: false },
    ];
    let (ops, used) = process_reporting_chain(&descs);
    assert_eq!(
        ops,
        vec![
            MemOp::Release { base: 0x10000, len: 0x2000 },
            MemOp::Release { base: 0x20000, len: 0x1000 },
        ]
    );
    assert_eq!(used, 0x3000);
    let wide = vec![
        Descriptor { addr: 0, len: 0xffff_ffff, write_only: false },
        Descriptor { addr: 0, len: 2, write_only: false },
    ];
    assert_eq!(process_reporting_chain(&wide).1, 1);
}

#[test]
fn queue_count_per_feature_set() {
    for s in [false, true] {
        for r in [false, true] {
            for h in [false, true] {
                let b = device(s, r, h);
                let want = 2 + s as usize + r as usize + 2 * h as usize;
                assert_eq!(b.queue_max_sizes().len(), want);
            }
        }
    }
    assert_eq!(device(true, true, true).queue_max_sizes(), &[128, 128, 32, 32, 128, 128]);
}

#[test]
fn config_writes_outside_actual_ignored() {
    let mut b = device(false, false, false);
    let before = b.config;
    for (off, len) in [(0u64, 4usize), (4, 2), (4, 8), (8, 4), (16, 4), (20, 3), (24, 4)] {
        b.write_config(off, &vec![0xaa; len]);
        assert_eq!(b.config, before);
    }
    b.write_config(4, &[0x00, 0x01, 0x00, 0x00]);
    assert_eq!(b.config.actual, 256);
    assert_eq!(b.get_actual(), 256 << 12);
    b.write_config(20, &[7, 0, 0, 0]);
    assert_eq!(b.config.hetero_actual, 7);
}

#[test]
fn config_read_layout_and_truncation() {
    let b = device(false, false, false);
    let mut all = vec![0u8; 24];
    b.read_config(0, &mut all);
    assert_eq!(&all[0..4], &(1u32 << 18).to_le_bytes());
    assert_eq!(&all[16..20], &(1u32 << 8).to_le_bytes());
    let mut tail = vec![0xeeu8; 8];
    b.read_config(20, &mut tail);
    assert_eq!(tail, vec![0, 0, 0, 0, 0xee, 0xee, 0xee, 0xee]);
    assert_eq!(b.config.as_bytes(), all);
}

#[test]
fn state_round_trip() {
    let mut b = device(true, false, true);
    b.ack_features(u64::MAX);
    b.write_config(4, &[3, 0, 0, 0]);
    let s: BalloonState = b.state();
    let r = Balloon::new("balloon0".to_string(), [0, 0], true, false, false, true, Some(s));
    assert_eq!(r.features(), b.features());
    assert_eq!(r.acked_features, b.acked_features);
    assert_eq!(r.config.as_bytes(), b.config.as_bytes());
    assert!(r.paused);
    assert!(!b.paused);
}

#[test]
fn ack_features_idempotent() {
    let mut b = device(true, false, false);
    assert_eq!(b.features(), (1 << 32) | (1 << 1));
    b.ack_features(1 << 5);
    assert_eq!(b.acked_features, 0);
    b.ack_features((1 << 1) | (1 << 6));
    assert_eq!(b.acked_features, 1 << 1);
    b.ack_features((1 << 1) | (1 << 6));
    assert_eq!(b.acked_features, 1 << 1);
}

#[test]
fn new_device_features_and_config() {
    let b = Balloon::new("b".to_string(), [8192, 4096 * 3], true, true, true, true, None);
    assert_eq!(b.features(), (1 << 32) | 2 | 4 | 32 | 64);
    assert_eq!(b.config.num_pages, 2);
    assert_eq!(b.config.num_hetero_pages, 3);
    assert_eq!(b.id(), "b");
    assert_eq!(b.device_type(), 5);
    assert!(!b.paused);
}

#[test]
fn resize_and_activation() {
    let mut b = device(true, true, true);
    assert!(!b.resize([4096 * 10, 0]));
    assert_eq!(b.config.num_pages, 10);
    b.ack_features(u64::MAX);
    assert_eq!(b.activate(1), None);
    let l = b.activate(6).unwrap();
    assert_eq!(l, QueueLayout { stats: true, reporting: true, hetero_inflate: true, hetero_deflate: true });
    assert!(b.resize([0, 4096]));
    assert_eq!(b.config.num_hetero_pages, 1);
    assert!(b.reset());
    assert!(!b.reset());
    let mut c = device(true, true, true);
    c.ack_features(1 << 5);
    let l = c.activate(3).unwrap();
    assert_eq!(l, QueueLayout { stats: false, reporting: true, hetero_inflate: false, hetero_deflate: false });
    c.pause();
    assert!(c.paused);
    c.resume();
    assert!(!c.paused);
}

#[test]
fn event_routing() {
    let full = QueueLayout { stats: true, reporting: true, hetero_inflate: true, hetero_deflate: true };
    assert_eq!(route_event(QueueEvent::Inflate, &full), Some((Processor::PageFrames, 0)));
    assert_eq!(route_event(QueueEvent::Deflate, &full), Some((Processor::PageFrames, 1)));
    assert_eq!(route_event(QueueEvent::Stats, &full), Some((Processor::Stats, 2)));
    assert_eq!(route_event(QueueEvent::Reporting, &full), Some((Processor::Reporting, 3)));
    assert_eq!(route_event(QueueEvent::HeteroInflate, &full), Some((Processor::PageFrames, 4)));
    assert_eq!(route_event(QueueEvent::HeteroDeflate, &full), Some((Processor::PageFrames, 5)));
    let bare = QueueLayout { stats: false, reporting: true, hetero_inflate: false, hetero_deflate: false };
    assert_eq!(route_event(QueueEvent::Reporting, &bare), Some((Processor::Reporting, 2)));
    assert_eq!(route_event(QueueEvent::Stats, &bare), None);
    assert_eq!(route_event(QueueEvent::HeteroDeflate, &bare), None);
    assert_eq!(pfn_queue_role(4, 6), Ok(PfnRole::Inflate));
    assert_eq!(pfn_queue_role(5, 6), Ok(PfnRole::Deflate));
    assert_eq!(pfn_queue_role(2, 6), Err(Error::InvalidQueueIndex(2)));
    assert_eq!(pfn_queue_role(2, 3), Err(Error::InvalidQueueIndex(2)));
}

#[test]
fn counters_set_and_get() {
    let mut c = BalloonCounters::new();
    assert_eq!(c.set_stat(9, 11), Ok(()));
    assert_eq!(c.get(9), 11);
    assert_eq!(c.set_stat(11, 1), Err(Error::UnexpectedStatTag(11)));
    let _ = VirtioBalloonConfig::for_size([4096, 0]);
}

#[test]
fn whole_host_page_released_once_for_each_page_size() {
    for page_size in [4096u64, 16384, 65536, 2 << 20] {
        let n = (page_size / 4096) as u32;
        let first = (3 * page_size / 4096) as u32;
        let mut pbp = None;
        let mut released = Vec::new();
        for k in (0..n).rev() {
            if let Some(op) = release_memory_range_4k(&mut pbp, page_size, first + k) {
                released.push(op);
            }
        }
        assert_eq!(released, vec![MemOp::Release { base: 3 * page_size, len: page_size }]);
        if let Some(p) = pbp {
            assert_eq!(p.addr, 0);
            assert!(!p.bitmap_full());
        }
    }
}
