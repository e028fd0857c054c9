//! A plain physical memory made of regions, without devices.
use crate::ram::le32;
use crate::hexdump::{hex_dump, hex_dump_text};
use vstd::prelude::*;

verus! {

/// A memory region `start..end` and its bytes.
pub struct MemRegion {
    pub start: u64,
    pub end: u64,
    pub m: Vec<u8>,
}

/// A memory region, abstractly.
pub struct MemRegionView {
    pub start: u64,
    pub end: u64,
    pub bytes: Seq<u8>,
}

impl View for MemRegion {
    type V = MemRegionView;

    open spec fn view(&self) -> MemRegionView {
        MemRegionView { start: self.start, end: self.end, bytes: self.m@ }
    }
}

/// The first region at index `i` or later that holds `start..end`, or -1.
pub open spec fn find_region_from(regions: Seq<MemRegionView>, start: int, end: int, i: int) -> int
    decreases regions.len() - i,
{
    if i < 0 || i >= regions.len() {
        -1
    } else if regions[i].start <= start && end <= regions[i].end {
        i
    } else {
        find_region_from(regions, start, end, i + 1)
    }
}

/// The first region that holds `start..end`, or -1.
pub open spec fn find_region(regions: Seq<MemRegionView>, start: int, end: int) -> int {
    find_region_from(regions, start, end, 0)
}

proof fn lemma_find_region_skip(regions: Seq<MemRegionView>, start: int, end: int, a: int, b: int)
    requires
        0 <= a <= b,
        forall|j: int|
            a <= j < b && j < regions.len() ==> !(#[trigger] regions[j].start <= start && end
                <= regions[j].end),
    ensures
        find_region_from(regions, start, end, a) == find_region_from(regions, start, end, b),
    decreases b - a,
{
    if a < b {
        lemma_find_region_skip(regions, start, end, a + 1, b);
    }
}

proof fn lemma_find_region_range(regions: Seq<MemRegionView>, start: int, end: int, a: int)
    ensures
        -1 <= find_region_from(regions, start, end, a) < regions.len(),
        find_region_from(regions, start, end, a) >= 0 ==> regions[find_region_from(
            regions,
            start,
            end,
            a,
        )].start <= start && end <= regions[find_region_from(regions, start, end, a)].end,
    decreases regions.len() - a,
{
    if 0 <= a < regions.len() && !(regions[a].start <= start && end <= regions[a].end) {
        lemma_find_region_range(regions, start, end, a + 1);
    }
}

/// The byte that a read at `addr` gives: the one at index `addr` of the region holding
/// `addr..1` (a region's bytes are indexed by the address itself), or 0 when none does.
pub open spec fn pmem_read8(v: Seq<MemRegionView>, addr: u64) -> u8 {
    let i = find_region(v, addr as int, 1);
    if i >= 0 {
        v[i].bytes[addr as int]
    } else {
        0
    }
}

/// The memory after writing `val` at `addr`: the byte at index `addr` of the region holding
/// `addr..1` is replaced; nothing changes when no region holds it.
pub open spec fn pmem_write8(v: Seq<MemRegionView>, addr: u64, val: u8) -> Seq<MemRegionView> {
    let i = find_region(v, addr as int, 1);
    if i >= 0 {
        v.update(
            i,
            MemRegionView { start: v[i].start, end: v[i].end, bytes: v[i].bytes.update(addr as int, val) },
        )
    } else {
        v
    }
}

/// Reading a byte right after writing it gives the byte written, where a region holds it.
pub proof fn lemma_pmem_write8_read8(v: Seq<MemRegionView>, addr: u64, val: u8)
    requires
        find_region(v, addr as int, 1) >= 0,
        addr < v[find_region(v, addr as int, 1)].bytes.len(),
    ensures
        pmem_read8(pmem_write8(v, addr, val), addr) == val,
{
    let i = find_region(v, addr as int, 1);
    lemma_find_region_range(v, addr as int, 1, 0);
    let w = pmem_write8(v, addr, val);
    assert forall|j: int| 0 <= j < v.len() implies (#[trigger] w[j]).start == v[j].start && w[j].end
        == v[j].end by {}
    lemma_same_bounds_same_region(v, w, addr as int, 1, 0);
}

proof fn lemma_same_bounds_same_region(
    a: Seq<MemRegionView>,
    b: Seq<MemRegionView>,
    start: int,
    end: int,
    k: int,
)
    requires
        a.len() == b.len(),
        forall|j: int| 0 <= j < a.len() ==> (#[trigger] b[j]).start == a[j].start && b[j].end == a[j].end,
    ensures
        find_region_from(a, start, end, k) == find_region_from(b, start, end, k),
    decreases a.len() - k,
{
    if 0 <= k < a.len() {
        lemma_same_bounds_same_region(a, b, start, end, k + 1);
    }
}

/// A physical memory: regions in the order they were allocated.
pub struct Pmem {
    regions: Vec<MemRegion>,
}

impl View for Pmem {
    type V = Seq<MemRegionView>;

    closed spec fn view(&self) -> Seq<MemRegionView> {
        Seq::new(self.regions@.len(), |i: int| self.regions@[i]@)
    }
}

impl Default for Pmem {
    /// A memory without regions.
    fn default() -> (r: Self)
        ensures
            r@ == Seq::<MemRegionView>::empty(),
    {
        let r = Pmem { regions: Vec::new() };
        assert(r@ =~= Seq::<MemRegionView>::empty());
        r
    }
}

impl Pmem {
    /// Adds a zeroed region `start_addr..start_addr + size`.
    pub fn alloc_region(&mut self, start_addr: u64, size: u64)
        requires
            start_addr + size <= u64::MAX,
            size <= usize::MAX,
        ensures
            final(self)@ == old(self)@.push(
                MemRegionView {
                    start: start_addr,
                    end: (start_addr + size) as u64,
                    bytes: Seq::new(size as nat, |i: int| 0u8),
                },
            ),
    {
        let mut m: Vec<u8> = Vec::new();
        let n = size as usize;
        let mut i: usize = 0;
        while i < n
            invariant
                i <= n,
                n == size,
                m@ == Seq::new(i as nat, |k: int| 0u8),
            decreases n - i,
        {
            m.push(0);
            i = i + 1;
            assert(m@ =~= Seq::new(i as nat, |k: int| 0u8));
        }
        let ghost v0 = self@;
        self.regions.push(MemRegion { start: start_addr, end: start_addr + size, m });
        assert(self@ =~= v0.push(
            MemRegionView {
                start: start_addr,
                end: (start_addr + size) as u64,
                bytes: Seq::new(size as nat, |i: int| 0u8),
            },
        ));
    }

    fn find_index(&self, start: u64, end: u64) -> (r: Option<usize>)
        ensures
            r is Some <==> find_region(self@, start as int, end as int) >= 0,
            r is Some ==> r->0 == find_region(self@, start as int, end as int),
            r is Some ==> r->0 < self.regions@.len(),
            r is Some ==> self@[r->0 as int].start <= start && end <= self@[r->0 as int].end,
            r is Some ==> self@[r->0 as int] == self.regions@[r->0 as int]@,
    {
        proof {
            lemma_find_region_range(self@, start as int, end as int, 0);
        }
        let mut i: usize = 0;
        while i < self.regions.len()
            invariant
                i <= self.regions@.len(),
                forall|j: int|
                    0 <= j < i ==> !(#[trigger] self@[j].start <= start && end <= self@[j].end),
            decreases self.regions.len() - i,
        {
            let r = &self.regions[i];
            if start >= r.start && end <= r.end {
                proof {
                    lemma_find_region_skip(self@, start as int, end as int, 0, i as int);
                }
                return Some(i);
            }
            i = i + 1;
        }
        proof {
            lemma_find_region_skip(self@, start as int, end as int, 0, i as int);
        }
        None
    }

    /// The first region that holds `start..end`.
    pub fn find_mem_region(&self, start: u64, end: u64) -> (r: Option<&MemRegion>)
        ensures
            r is Some <==> find_region(self@, start as int, end as int) >= 0,
            r is Some ==> r->0@ == self@[find_region(self@, start as int, end as int)],
    {
        match self.find_index(start, end) {
            Some(i) => Some(&self.regions[i]),
            None => None,
        }
    }

    /// The first region that holds `start..end`, to be changed in place.
    pub fn find_mem_region_mut(&mut self, start: u64, end: u64) -> (r: Option<&mut MemRegion>)
        ensures
            r is Some <==> find_region(old(self)@, start as int, end as int) >= 0,
            r is None ==> final(self)@ == old(self)@,
            match r {
                Some(mr) => {
                    let i = find_region(old(self)@, start as int, end as int);
                    &&& (*mr)@ == old(self)@[i]
                    &&& final(self)@ == old(self)@.update(i, (*final(mr))@)
                },
                None => true,
            },
    {
        match self.find_index(start, end) {
            Some(i) => Some(&mut self.regions[i]),
            None => None,
        }
    }

    /// Puts the bytes of a file into the region that holds `addr..addr + contents.len()`,
    /// from the region's first byte on (as many as the region holds), or refuses when no
    /// region holds them.
    pub fn load_bin_file(&mut self, addr: u64, contents: &[u8]) -> (r: Result<(), &'static str>)
        requires
            addr + contents@.len() <= u64::MAX,
        ensures
            ({
                let v = old(self)@;
                let i = find_region(v, addr as int, addr + contents@.len());
                &&& r is Err <==> i < 0
                &&& r is Err ==> r->Err_0@ == "region is too small"@ && final(self)@ == v
                &&& r is Ok ==> final(self)@ == v.update(
                    i,
                    MemRegionView {
                        start: v[i].start,
                        end: v[i].end,
                        bytes: Seq::new(
                            v[i].bytes.len(),
                            |k: int|
                                if k < contents@.len() {
                                    contents@[k]
                                } else {
                                    v[i].bytes[k]
                                },
                        ),
                    },
                )
            }),
    {
        let f_size = contents.len() as u64;
        proof {
            lemma_find_region_range(self@, addr as int, addr + f_size, 0);
        }
        match self.find_mem_region_mut(addr, addr + f_size) {
            None => Err("region is too small"),
            Some(mr) => {
                let ghost b0 = mr.m@;
                let ghost r0 = mr@;
                let mut k: usize = 0;
                while k < mr.m.len() && k < contents.len()
                    invariant
                        k <= mr.m@.len(),
                        mr.start == r0.start,
                        mr.end == r0.end,
                        mr.m@.len() == b0.len(),
                        forall|j: int|
                            0 <= j < b0.len() ==> #[trigger] mr.m@[j] == if j < k
                                && j < contents@.len() {
                                contents@[j]
                            } else {
                                b0[j]
                            },
                    decreases mr.m@.len() - k,
                {
                    mr.m.set(k, contents[k]);
                    k = k + 1;
                }
                assert(mr.m@ =~= Seq::new(
                    b0.len(),
                    |j: int|
                        if j < contents@.len() {
                            contents@[j]
                        } else {
                            b0[j]
                        },
                ));
                Ok(())
            },
        }
    }

    /// The byte at index `addr` of the region holding `addr..1` (the region's bytes are
    /// indexed by the address itself), or 0 when no region holds it.
    pub fn read8(&self, addr: u64) -> (r: u8)
        requires
            ({
                let i = find_region(self@, addr as int, 1);
                i >= 0 ==> addr < self@[i].bytes.len()
            }),
        ensures
            r == pmem_read8(self@, addr),
    {
        match self.find_index(addr, 1) {
            Some(i) => {
                assert(addr < self.regions@[i as int].m.len());
                let a = addr as usize;
                self.regions[i].m[a]
            },
            None => 0,
        }
    }

    /// Writes the byte at index `addr` of the region holding `addr..1` (the region's bytes are
    /// indexed by the address itself); nothing happens when no region holds it.
    pub fn write8(&mut self, addr: u64, val: u8)
        requires
            ({
                let i = find_region(old(self)@, addr as int, 1);
                i >= 0 ==> addr < old(self)@[i].bytes.len()
            }),
        ensures
            final(self)@ == pmem_write8(old(self)@, addr, val),
    {
        proof {
            lemma_find_region_range(self@, addr as int, 1, 0);
        }
        if let Some(mr) = self.find_mem_region_mut(addr, 1) {
            assert(addr < mr.m.len());
            let a = addr as usize;
            mr.m.set(a, val);
        }
    }

    /// The little-endian 32-bit word at `addr`, in the region holding `addr..4`.
    pub fn read32(&self, addr: u64) -> (r: u32)
        requires
            ({
                let i = find_region(self@, addr as int, 4);
                i >= 0 && addr - self@[i].start + 4 <= self@[i].bytes.len()
            }),
        ensures
            ({
                let i = find_region(self@, addr as int, 4);
                r == le32(self@[i].bytes, addr - self@[i].start)
            }),
    {
        let i = self.find_index(addr, 4).unwrap();
        let mr = &self.regions[i];
        assert(addr - mr.start + 4 <= mr.m.len());
        let offs = (addr - mr.start) as usize;
        assert(offs as int == addr - mr.start);
        let b0 = mr.m[offs] as u32;
        let b1 = mr.m[offs + 1] as u32;
        let b2 = mr.m[offs + 2] as u32;
        let b3 = mr.m[offs + 3] as u32;
        crate::ram::le32_from_bytes(b0, b1, b2, b3)
    }

    /// The text of a dump of the first bytes of the region that holds the 16-byte-aligned span
    /// from `addr` (the bytes are taken from the region's start), the first line headed by the
    /// 16-byte boundary at or below `addr`, stopping after `size` bytes; each line is headed by
    /// the address 16 past its own, and one more header follows the stop.
    pub fn dump_hex(&self, addr: u64, size: u64) -> (r: String)
        requires
            size + 16 <= u64::MAX,
            ({
                let a = addr - addr % 16;
                let n = (size + 16) - (size + 16) % 16;
                let i = find_region(self@, a, a + n);
                &&& a + n + 16 <= u64::MAX
                &&& i >= 0
                &&& n <= self@[i].bytes.len()
            }),
        ensures
            ({
                let a = addr - addr % 16;
                let n = (size + 16) - (size + 16) % 16;
                let i = find_region(self@, a, a + n);
                r@ == hex_dump(self@[i].bytes, a as nat, size as nat, n as nat, true)
            }),
    {
        let aligned_addr = addr - addr % 16;
        let aligned_size = (size + 16) - (size + 16) % 16;
        let mr = self.find_mem_region(aligned_addr, aligned_addr + aligned_size).unwrap();
        assert(aligned_size <= mr.m.len());
        hex_dump_text(mr.m.as_slice(), aligned_addr, size, aligned_size as usize, true)
    }
}

} // verus!
