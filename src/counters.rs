use vstd::prelude::*;
use crate::requests::Error;

verus! {

/// Number of guest memory statistics the device keeps.
pub const NUM_STATS: usize = 10;

/// Latest guest memory statistics, one value per statistics tag.
#[derive(Clone, Copy, Debug, PartialEq, Eq, Structural)]
pub struct BalloonCounters {
    pub swap_in: u64,
    pub swap_out: u64,
    pub major_faults: u64,
    pub minor_faults: u64,
    pub free_memory: u64,
    pub total_memory: u64,
    pub available_memory: u64,
    pub disk_caches: u64,
    pub hugetlb_allocations: u64,
    pub hugetlb_failures: u64,
}

impl View for BalloonCounters {
    type V = Seq<u64>;

    /// The values in tag order.
    open spec fn view(&self) -> Seq<u64> {
        seq![
            self.swap_in,
            self.swap_out,
            self.major_faults,
            self.minor_faults,
            self.free_memory,
            self.total_memory,
            self.available_memory,
            self.disk_caches,
            self.hugetlb_allocations,
            self.hugetlb_failures,
        ]
    }
}

/// Label of the statistic with tag `tag`.
pub open spec fn label_of(tag: int) -> Seq<char> {
    if tag == 0 {
        "swap_in"@
    } else if tag == 1 {
        "swap_out"@
    } else if tag == 2 {
        "major_faults"@
    } else if tag == 3 {
        "minor_faults"@
    } else if tag == 4 {
        "free_memory"@
    } else if tag == 5 {
        "total_memory"@
    } else if tag == 6 {
        "available_memory"@
    } else if tag == 7 {
        "disk_caches"@
    } else if tag == 8 {
        "hugetlb_allocations"@
    } else {
        "hugetlb_failures"@
    }
}

impl BalloonCounters {
    /// All statistics at zero.
    pub fn new() -> (r: Self)
        ensures
            r@ == Seq::new(10, |i: int| 0u64),
    {
        let r = BalloonCounters {
            swap_in: 0,
            swap_out: 0,
            major_faults: 0,
            minor_faults: 0,
            free_memory: 0,
            total_memory: 0,
            available_memory: 0,
            disk_caches: 0,
            hugetlb_allocations: 0,
            hugetlb_failures: 0,
        };
        assert(r@ =~= Seq::new(10, |i: int| 0u64));
        r
    }

    /// Stores `val` as the statistic with tag `tag`; tags above 9 are unknown.
    pub fn set_stat(&mut self, tag: u16, val: u64) -> (r: Result<(), Error>)
        ensures
            tag <= 9 ==> r is Ok && final(self)@ == old(self)@.update(tag as int, val),
            tag > 9 ==> r == Err::<(), Error>(Error::UnexpectedStatTag(tag)) && *final(self)
                == *old(self),
    {
        match tag {
            0 => self.swap_in = val,
            1 => self.swap_out = val,
            2 => self.major_faults = val,
            3 => self.minor_faults = val,
            4 => self.free_memory = val,
            5 => self.total_memory = val,
            6 => self.available_memory = val,
            7 => self.disk_caches = val,
            8 => self.hugetlb_allocations = val,
            9 => self.hugetlb_failures = val,
            _ => return Err(Error::UnexpectedStatTag(tag)),
        }
        assert(self@ =~= old(self)@.update(tag as int, val));
        Ok(())
    }

    /// The statistic with tag `tag`.
    pub fn get(&self, tag: usize) -> (r: u64)
        requires
            tag < 10,
        ensures
            r == self@[tag as int],
    {
        match tag {
            0 => self.swap_in,
            1 => self.swap_out,
            2 => self.major_faults,
            3 => self.minor_faults,
            4 => self.free_memory,
            5 => self.total_memory,
            6 => self.available_memory,
            7 => self.disk_caches,
            8 => self.hugetlb_allocations,
            _ => self.hugetlb_failures,
        }
    }

    /// Each statistic with its label, in tag order.
    pub fn labelled(&self) -> (r: Vec<(String, u64)>)
        ensures
            r@.len() == 10,
            forall|i: int| 0 <= i < 10 ==> r@[i].0@ == label_of(i) && r@[i].1 == self@[i],
    {
        let mut r: Vec<(String, u64)> = Vec::new();
        let mut k: usize = 0;
        while k < NUM_STATS
            invariant
                k <= 10,
                r@.len() == k,
                forall|i: int| 0 <= i < k ==> r@[i].0@ == label_of(i) && r@[i].1 == self@[i],
            decreases 10 - k,
        {
            let name = stat_label(k);
            r.push((name, self.get(k)));
            k = k + 1;
        }
        r
    }
}

/// Label of the statistic with tag `tag`.
pub fn stat_label(tag: usize) -> (r: String)
    requires
        tag < 10,
    ensures
        r@ == label_of(tag as int),
{
    let s: &str = if tag == 0 {
        "swap_in"
    } else if tag == 1 {
        "swap_out"
    } else if tag == 2 {
        "major_faults"
    } else if tag == 3 {
        "minor_faults"
    } else if tag == 4 {
        "free_memory"
    } else if tag == 5 {
        "total_memory"
    } else if tag == 6 {
        "available_memory"
    } else if tag == 7 {
        "disk_caches"
    } else if tag == 8 {
        "hugetlb_allocations"
    } else {
        "hugetlb_failures"
    };
    s.to_string()
}

} // verus!
