use vstd::prelude::*;
use crate::requests::le_u32;

verus! {

/// Device-independent feature bit: the device follows virtio 1.0 or later.
pub const VIRTIO_F_VERSION_1: u64 = 32;
/// Feature bit: a memory statistics queue is offered.
pub const VIRTIO_BALLOON_F_STATS_VQ: u64 = 1;
/// Feature bit: the guest deflates the balloon on out-of-memory.
pub const VIRTIO_BALLOON_F_DEFLATE_ON_OOM: u64 = 2;
/// Feature bit: a free page reporting queue is offered.
pub const VIRTIO_BALLOON_F_REPORTING: u64 = 5;
/// Feature bit: a second inflate/deflate queue pair for heterogeneous memory is offered.
pub const VIRTIO_BALLOON_F_HETERO_MEM: u64 = 6;

/// Capacity of the inflate and deflate queues.
pub const QUEUE_SIZE: u16 = 128;
/// Capacity of the statistics and reporting queues.
pub const REPORTING_QUEUE_SIZE: u16 = 32;
/// Fewest queues the device runs with.
pub const MIN_NUM_QUEUES: usize = 2;
/// Virtio device type of a memory balloon.
pub const BALLOON_DEVICE_TYPE: u32 = 5;

/// Byte offset of `actual` in the configuration space.
pub const CONFIG_ACTUAL_OFFSET: u64 = 4;
/// Byte offset of `hetero_actual` in the configuration space.
pub const CONFIG_HETERO_ACTUAL_OFFSET: u64 = 20;
/// Size of a guest-writable configuration field.
pub const CONFIG_ACTUAL_SIZE: usize = 4;
/// Size of the configuration space.
pub const CONFIG_SIZE: u64 = 24;

/// The configuration space shared with the guest.
#[derive(Clone, Copy, Debug, PartialEq, Eq, Structural)]
pub struct VirtioBalloonConfig {
    /// Number of pages the host wants the guest to give up.
    pub num_pages: u32,
    /// Number of pages the guest has given up.
    pub actual: u32,
    /// Free page hinting command (not implemented).
    pub hint_cmd_id: u32,
    /// Value freed pages are filled with (not implemented).
    pub poison_val: u32,
    /// Number of heterogeneous pages the host wants the guest to give up.
    pub num_hetero_pages: u32,
    /// Number of heterogeneous pages the guest has given up.
    pub hetero_actual: u32,
}

/// Little-endian bytes of a `u32`.
pub open spec fn le32(v: u32) -> Seq<u8> {
    seq![v as u8, (v >> 8u32) as u8, (v >> 16u32) as u8, (v >> 24u32) as u8]
}

fn push_le32(out: &mut Vec<u8>, v: u32)
    ensures
        final(out)@ == old(out)@ + le32(v),
{
    out.push(v as u8);
    out.push((v >> 8u32) as u8);
    out.push((v >> 16u32) as u8);
    out.push((v >> 24u32) as u8);
    assert(final(out)@ =~= old(out)@ + le32(v));
}

/// Page count for a size in bytes, as the configuration space holds it.
pub open spec fn pages_of(bytes: u64) -> u32 {
    (bytes >> 12u64) as u32
}

impl VirtioBalloonConfig {
    /// The wire image: six little-endian `u32` fields in declaration order.
    pub open spec fn bytes(&self) -> Seq<u8> {
        le32(self.num_pages) + le32(self.actual) + le32(self.hint_cmd_id) + le32(self.poison_val)
            + le32(self.num_hetero_pages) + le32(self.hetero_actual)
    }

    /// A configuration asking for `size[0]` bytes of ordinary and `size[1]` bytes of
    /// heterogeneous memory, every other field zero.
    pub fn for_size(size: [u64; 2]) -> (r: Self)
        ensures
            r == (VirtioBalloonConfig {
                num_pages: pages_of(size@[0]),
                actual: 0,
                hint_cmd_id: 0,
                poison_val: 0,
                num_hetero_pages: pages_of(size@[1]),
                hetero_actual: 0,
            }),
    {
        VirtioBalloonConfig {
            num_pages: (size[0] >> 12u64) as u32,
            actual: 0,
            hint_cmd_id: 0,
            poison_val: 0,
            num_hetero_pages: (size[1] >> 12u64) as u32,
            hetero_actual: 0,
        }
    }

    /// The wire image of the configuration space.
    pub fn as_bytes(&self) -> (r: Vec<u8>)
        ensures
            r@ == self.bytes(),
            r@.len() == 24,
    {
        let mut r: Vec<u8> = Vec::new();
        push_le32(&mut r, self.num_pages);
        push_le32(&mut r, self.actual);
        push_le32(&mut r, self.hint_cmd_id);
        push_le32(&mut r, self.poison_val);
        push_le32(&mut r, self.num_hetero_pages);
        push_le32(&mut r, self.hetero_actual);
        assert(r@ =~= self.bytes());
        r
    }
}

/// State kept across a snapshot and restore.
#[derive(Clone, Copy, Debug, PartialEq, Eq, Structural)]
pub struct BalloonState {
    pub avail_features: u64,
    pub acked_features: u64,
    pub config: VirtioBalloonConfig,
}

/// Which optional queues an activated device runs, after the inflate and deflate queues.
#[derive(Clone, Copy, Debug, PartialEq, Eq, Structural)]
pub struct QueueLayout {
    pub stats: bool,
    pub reporting: bool,
    pub hetero_inflate: bool,
    pub hetero_deflate: bool,
}

/// One when `b` holds.
pub open spec fn one_if(b: bool) -> int {
    if b {
        1
    } else {
        0
    }
}

impl QueueLayout {
    pub open spec fn count(&self) -> int {
        2 + one_if(self.stats) + one_if(self.reporting) + one_if(self.hetero_inflate) + one_if(
            self.hetero_deflate,
        )
    }

    /// Number of queues in the layout.
    pub fn len(&self) -> (r: usize)
        ensures
            r == self.count(),
    {
        let mut n: usize = 2;
        if self.stats {
            n = n + 1;
        }
        if self.reporting {
            n = n + 1;
        }
        if self.hetero_inflate {
            n = n + 1;
        }
        if self.hetero_deflate {
            n = n + 1;
        }
        n
    }
}

/// Whether feature bit `bit` is set in `features`.
pub open spec fn has_feature(features: u64, bit: u64) -> bool {
    features & (1u64 << bit) != 0
}

/// Features offered by a new device with the given options.
pub open spec fn offered_features(
    statistics: bool,
    deflate_on_oom: bool,
    free_page_reporting: bool,
    heterogeneous_memory: bool,
) -> u64 {
    let f0 = 1u64 << 32u64;
    let f1 = if statistics {
        f0 | (1u64 << 1u64)
    } else {
        f0
    };
    let f2 = if deflate_on_oom {
        f1 | (1u64 << 2u64)
    } else {
        f1
    };
    let f3 = if free_page_reporting {
        f2 | (1u64 << 5u64)
    } else {
        f2
    };
    if heterogeneous_memory {
        f3 | (1u64 << 6u64)
    } else {
        f3
    }
}

/// Maximum queue sizes of a device with the given options, in queue order.
pub open spec fn queue_sizes_for(statistics: bool, reporting: bool, hetero: bool) -> Seq<u16> {
    seq![128u16, 128u16] + (if statistics {
        seq![32u16]
    } else {
        Seq::empty()
    }) + (if reporting {
        seq![32u16]
    } else {
        Seq::empty()
    }) + (if hetero {
        seq![128u16, 128u16]
    } else {
        Seq::empty()
    })
}

/// Acknowledged features after the guest acknowledges `value`: offered bits only.
pub open spec fn acked_after(acked: u64, avail: u64, value: u64) -> u64 {
    acked | (value & avail)
}

/// The optional queues taken, in order, from `num_queues` queues given at activation:
/// each only if its feature is acknowledged and a queue is left.
pub open spec fn layout_for(acked: u64, num_queues: int) -> QueueLayout {
    let left0 = num_queues - 2;
    let stats = has_feature(acked, 1) && left0 > 0;
    let left1 = left0 - one_if(stats);
    let reporting = has_feature(acked, 5) && left1 > 0;
    let left2 = left1 - one_if(reporting);
    let hetero_inflate = has_feature(acked, 6) && left2 > 0;
    let left3 = left2 - one_if(hetero_inflate);
    let hetero_deflate = has_feature(acked, 6) && left3 > 0;
    QueueLayout { stats, reporting, hetero_inflate, hetero_deflate }
}

/// The queue notifications the worker waits on.
#[derive(Clone, Copy, Debug, PartialEq, Eq, Structural)]
pub enum QueueEvent {
    Inflate,
    Deflate,
    Stats,
    Reporting,
    HeteroInflate,
    HeteroDeflate,
}

/// The request processor that serves a queue.
#[derive(Clone, Copy, Debug, PartialEq, Eq, Structural)]
pub enum Processor {
    PageFrames,
    Stats,
    Reporting,
}

/// Processor and queue index for a notification under `layout`; none where the
/// layout has no such queue.
pub open spec fn route_of(event: QueueEvent, layout: QueueLayout) -> Option<(Processor, int)> {
    match event {
        QueueEvent::Inflate => Some((Processor::PageFrames, 0)),
        QueueEvent::Deflate => Some((Processor::PageFrames, 1)),
        QueueEvent::Stats => if layout.stats {
            Some((Processor::Stats, 2))
        } else {
            None
        },
        QueueEvent::Reporting => if layout.reporting {
            Some((Processor::Reporting, 2 + one_if(layout.stats)))
        } else {
            None
        },
        QueueEvent::HeteroInflate => if layout.hetero_inflate {
            Some((Processor::PageFrames, layout.count() - 2))
        } else {
            None
        },
        QueueEvent::HeteroDeflate => if layout.hetero_deflate {
            Some((Processor::PageFrames, layout.count() - 1))
        } else {
            None
        },
    }
}

/// Routes a queue notification to its processor and queue index.
pub fn route_event(event: QueueEvent, layout: &QueueLayout) -> (r: Option<(Processor, usize)>)
    ensures
        match route_of(event, *layout) {
            Some((p, i)) => r == Some((p, i as usize)) && 0 <= i < layout.count(),
            None => r is None,
        },
{
    let n = layout.len();
    match event {
        QueueEvent::Inflate => Some((Processor::PageFrames, 0)),
        QueueEvent::Deflate => Some((Processor::PageFrames, 1)),
        QueueEvent::Stats => if layout.stats {
            Some((Processor::Stats, 2))
        } else {
            None
        },
        QueueEvent::Reporting => if layout.reporting {
            Some((Processor::Reporting, if layout.stats { 3 } else { 2 }))
        } else {
            None
        },
        QueueEvent::HeteroInflate => if layout.hetero_inflate {
            Some((Processor::PageFrames, n - 2))
        } else {
            None
        },
        QueueEvent::HeteroDeflate => if layout.hetero_deflate {
            Some((Processor::PageFrames, n - 1))
        } else {
            None
        },
    }
}

/// A memory balloon device: configuration space, feature negotiation and lifecycle.
pub struct Balloon {
    pub id: String,
    pub config: VirtioBalloonConfig,
    pub avail_features: u64,
    pub acked_features: u64,
    pub queue_sizes: Vec<u16>,
    pub paused: bool,
    pub activated: bool,
}

impl Balloon {
    /// A new device named `id` asking for `size` bytes (ordinary, heterogeneous). With a
    /// saved `state`, features and configuration come from it and the device starts paused.
    pub fn new(
        id: String,
        size: [u64; 2],
        statistics: bool,
        deflate_on_oom: bool,
        free_page_reporting: bool,
        heterogeneous_memory: bool,
        state: Option<BalloonState>,
    ) -> (r: Self)
        ensures
            r.id@ == id@,
            r.queue_sizes@ == queue_sizes_for(
                statistics,
                free_page_reporting,
                heterogeneous_memory,
            ),
            !r.activated,
            match state {
                Some(s) => r.holds_state(s),
                None => r.avail_features == offered_features(
                    statistics,
                    deflate_on_oom,
                    free_page_reporting,
                    heterogeneous_memory,
                ) && r.acked_features == 0 && r.config == (VirtioBalloonConfig {
                    num_pages: pages_of(size@[0]),
                    actual: 0,
                    hint_cmd_id: 0,
                    poison_val: 0,
                    num_hetero_pages: pages_of(size@[1]),
                    hetero_actual: 0,
                }) && !r.paused,
            },
    {
        let (avail_features, acked_features, config, paused) = match state {
            Some(s) => (s.avail_features, s.acked_features, s.config, true),
            None => {
                let mut avail: u64 = 1u64 << VIRTIO_F_VERSION_1;
                if statistics {
                    avail = avail | (1u64 << VIRTIO_BALLOON_F_STATS_VQ);
                }
                if deflate_on_oom {
                    avail = avail | (1u64 << VIRTIO_BALLOON_F_DEFLATE_ON_OOM);
                }
                if free_page_reporting {
                    avail = avail | (1u64 << VIRTIO_BALLOON_F_REPORTING);
                }
                if heterogeneous_memory {
                    avail = avail | (1u64 << VIRTIO_BALLOON_F_HETERO_MEM);
                }
                (avail, 0u64, VirtioBalloonConfig::for_size(size), false)
            },
        };
        let mut queue_sizes: Vec<u16> = Vec::new();
        queue_sizes.push(QUEUE_SIZE);
        queue_sizes.push(QUEUE_SIZE);
        if statistics {
            queue_sizes.push(REPORTING_QUEUE_SIZE);
        }
        if free_page_reporting {
            queue_sizes.push(REPORTING_QUEUE_SIZE);
        }
        if heterogeneous_memory {
            queue_sizes.push(QUEUE_SIZE);
            queue_sizes.push(QUEUE_SIZE);
        }
        assert(queue_sizes@ =~= queue_sizes_for(
            statistics,
            free_page_reporting,
            heterogeneous_memory,
        ));
        Balloon { id, config, avail_features, acked_features, queue_sizes, paused, activated: false }
    }

    /// Sets the requested sizes. Returns whether the guest must be told through a
    /// configuration change interrupt, which is so once the device is activated.
    pub fn resize(&mut self, size: [u64; 2]) -> (r: bool)
        ensures
            final(self).config == (VirtioBalloonConfig {
                num_pages: pages_of(size@[0]),
                num_hetero_pages: pages_of(size@[1]),
                ..old(self).config
            }),
            final(self).id == old(self).id,
            final(self).avail_features == old(self).avail_features,
            final(self).acked_features == old(self).acked_features,
            final(self).queue_sizes == old(self).queue_sizes,
            final(self).paused == old(self).paused,
            final(self).activated == old(self).activated,
            r == old(self).activated,
    {
        self.config.num_pages = (size[0] >> 12u64) as u32;
        self.config.num_hetero_pages = (size[1] >> 12u64) as u32;
        self.activated
    }

    /// Size in bytes that the guest reports it has given up.
    pub fn get_actual(&self) -> (r: u64)
        ensures
            r == self.config.actual as u64 * 4096,
    {
        (self.config.actual as u64) * 4096
    }

    /// The state a snapshot saves.
    pub open spec fn saved(&self) -> BalloonState {
        BalloonState {
            avail_features: self.avail_features,
            acked_features: self.acked_features,
            config: self.config,
        }
    }

    /// Whether the device holds saved state `s` as a restored device does: its
    /// features and configuration, and paused.
    pub open spec fn holds_state(&self, s: BalloonState) -> bool {
        &&& self.avail_features == s.avail_features
        &&& self.acked_features == s.acked_features
        &&& self.config == s.config
        &&& self.paused
    }

    /// The state to save in a snapshot.
    pub fn state(&self) -> (r: BalloonState)
        ensures
            r == self.saved(),
    {
        BalloonState {
            avail_features: self.avail_features,
            acked_features: self.acked_features,
            config: self.config,
        }
    }

    /// The virtio device type.
    pub fn device_type(&self) -> (r: u32)
        ensures
            r == 5,
    {
        BALLOON_DEVICE_TYPE
    }

    /// Maximum size of each queue, in queue order.
    pub fn queue_max_sizes(&self) -> (r: &[u16])
        ensures
            r@ == self.queue_sizes@,
    {
        self.queue_sizes.as_slice()
    }

    /// The features the device offers.
    pub fn features(&self) -> (r: u64)
        ensures
            r == self.avail_features,
    {
        self.avail_features
    }

    /// Records the guest's acknowledgement of `value`; bits the device does not offer
    /// are ignored.
    pub fn ack_features(&mut self, value: u64)
        ensures
            final(self).acked_features == acked_after(
                old(self).acked_features,
                old(self).avail_features,
                value,
            ),
            final(self).avail_features == old(self).avail_features,
            final(self).config == old(self).config,
            final(self).id == old(self).id,
            final(self).queue_sizes == old(self).queue_sizes,
            final(self).paused == old(self).paused,
            final(self).activated == old(self).activated,
    {
        self.acked_features = self.acked_features | (value & self.avail_features);
    }

    /// Whether feature bit `bit` has been acknowledged.
    pub fn feature_acked(&self, bit: u64) -> (r: bool)
        requires
            bit < 64,
        ensures
            r == has_feature(self.acked_features, bit),
    {
        self.acked_features & (1u64 << bit) != 0
    }

    /// Copies configuration bytes from `offset` into `data`; bytes past the end of the
    /// configuration space are left as they were.
    pub fn read_config(&self, offset: u64, data: &mut Vec<u8>)
        ensures
            final(data)@.len() == old(data)@.len(),
            forall|i: int|
                0 <= i < old(data)@.len() ==> final(data)@[i] == if offset + i < 24 {
                    self.config.bytes()[offset + i]
                } else {
                    old(data)@[i]
                },
    {
        let bytes = self.config.as_bytes();
        let n: usize = data.len();
        let mut i: usize = 0;
        while i < n
            invariant
                n == data@.len(),
                n == old(data)@.len(),
                bytes@ == self.config.bytes(),
                bytes@.len() == 24,
                i <= n,
                forall|j: int|
                    0 <= j < n ==> data@[j] == if j < i && offset + j < 24 {
                        self.config.bytes()[offset + j]
                    } else {
                        old(data)@[j]
                    },
            decreases n - i,
        {
            if offset < CONFIG_SIZE && (i as u64) < CONFIG_SIZE - offset {
                let b = bytes[(offset + i as u64) as usize];
                data.set(i, b);
            }
            i = i + 1;
        }
    }

    /// Takes a guest write to the configuration space. Only a four-byte write of
    /// `actual` (offset 4) or `hetero_actual` (offset 20) is accepted; any other write
    /// leaves the device unchanged.
    pub fn write_config(&mut self, offset: u64, data: &[u8])
        ensures
            final(self).id == old(self).id,
            final(self).avail_features == old(self).avail_features,
            final(self).acked_features == old(self).acked_features,
            final(self).queue_sizes == old(self).queue_sizes,
            final(self).paused == old(self).paused,
            final(self).activated == old(self).activated,
            offset == 4 && data@.len() == 4 ==> final(self).config == (VirtioBalloonConfig {
                actual: le_u32(data@, 0),
                ..old(self).config
            }),
            offset == 20 && data@.len() == 4 ==> final(self).config == (VirtioBalloonConfig {
                hetero_actual: le_u32(data@, 0),
                ..old(self).config
            }),
            !((offset == 4 || offset == 20) && data@.len() == 4) ==> final(self).config == old(
                self,
            ).config,
    {
        if (offset != CONFIG_ACTUAL_OFFSET && offset != CONFIG_HETERO_ACTUAL_OFFSET) || data.len()
            != CONFIG_ACTUAL_SIZE {
            return;
        }
        let v: u32 = (data[0] as u32) | ((data[1] as u32) << 8u32) | ((data[2] as u32) << 16u32)
            | ((data[3] as u32) << 24u32);
        if offset == CONFIG_ACTUAL_OFFSET {
            self.config.actual = v;
        } else {
            self.config.hetero_actual = v;
        }
    }

    /// Activates the device with `num_queues` queues from the transport and returns the
    /// queue layout the worker runs; none, with the device unchanged, if fewer than two
    /// queues are given.
    pub fn activate(&mut self, num_queues: usize) -> (r: Option<QueueLayout>)
        ensures
            num_queues < 2 ==> r is None && *final(self) == *old(self),
            num_queues >= 2 ==> r == Some(layout_for(old(self).acked_features, num_queues as int))
                && final(self).activated && final(self).config == old(self).config
                && final(self).avail_features == old(self).avail_features
                && final(self).acked_features == old(self).acked_features
                && final(self).queue_sizes == old(self).queue_sizes
                && final(self).paused == old(self).paused && final(self).id == old(self).id,
    {
        if num_queues < MIN_NUM_QUEUES {
            return None;
        }
        let mut left: usize = num_queues - 2;
        let stats = self.feature_acked(VIRTIO_BALLOON_F_STATS_VQ) && left > 0;
        if stats {
            left = left - 1;
        }
        let reporting = self.feature_acked(VIRTIO_BALLOON_F_REPORTING) && left > 0;
        if reporting {
            left = left - 1;
        }
        let hetero_inflate = self.feature_acked(VIRTIO_BALLOON_F_HETERO_MEM) && left > 0;
        if hetero_inflate {
            left = left - 1;
        }
        let hetero_deflate = self.feature_acked(VIRTIO_BALLOON_F_HETERO_MEM) && left > 0;
        self.activated = true;
        Some(QueueLayout { stats, reporting, hetero_inflate, hetero_deflate })
    }

    /// Returns the device to its state before activation. Returns whether it was active.
    pub fn reset(&mut self) -> (r: bool)
        ensures
            r == old(self).activated,
            !final(self).activated,
            final(self).config == old(self).config,
            final(self).avail_features == old(self).avail_features,
            final(self).acked_features == old(self).acked_features,
            final(self).queue_sizes == old(self).queue_sizes,
            final(self).paused == old(self).paused,
            final(self).id == old(self).id,
    {
        let was = self.activated;
        self.activated = false;
        was
    }

    /// Marks the device paused.
    pub fn pause(&mut self)
        ensures
            final(self).paused,
            final(self).activated == old(self).activated,
            final(self).config == old(self).config,
            final(self).avail_features == old(self).avail_features,
            final(self).acked_features == old(self).acked_features,
            final(self).queue_sizes == old(self).queue_sizes,
            final(self).id == old(self).id,
    {
        self.paused = true;
    }

    /// Marks the device running.
    pub fn resume(&mut self)
        ensures
            !final(self).paused,
            final(self).activated == old(self).activated,
            final(self).config == old(self).config,
            final(self).avail_features == old(self).avail_features,
            final(self).acked_features == old(self).acked_features,
            final(self).queue_sizes == old(self).queue_sizes,
            final(self).id == old(self).id,
    {
        self.paused = false;
    }

    /// The device's name.
    pub fn id(&self) -> (r: String)
        ensures
            r@ == self.id@,
    {
        self.id.clone()
    }
}

} // verus!
