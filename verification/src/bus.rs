//! The system bus: routes physical addresses to RAM and devices.
use crate::ram::{le32, le64, put_bytes, put_le32, put_le64, MemError, Ram};
use crate::uart::{Device, TXDATA};
use vstd::prelude::*;

verus! {

/// What sits behind an address region, abstractly.
pub enum AgentView {
    /// RAM and its bytes (byte 0 at the region start).
    Ram { bytes: Seq<u8> },
    /// A UART and the bytes it transmitted that nobody took yet.
    Uart { tx: Seq<u8> },
}

/// An address region `start..end` and what sits behind it.
pub struct RegionView {
    pub start: u64,
    pub end: u64,
    pub agent: AgentView,
}

/// The bus, abstractly: its regions in attach order and the start of its RAM.
pub struct BusView {
    pub regions: Seq<RegionView>,
    pub ram_start: u64,
}

/// Whether region `r` covers `addr..addr + n`.
pub open spec fn covers(r: RegionView, addr: int, n: int) -> bool {
    r.start <= addr && addr + n <= r.end
}

/// The first region at index `i` or later that covers `addr..addr + n`, or -1.
pub open spec fn find_from(regions: Seq<RegionView>, addr: int, n: int, i: int) -> int
    decreases regions.len() - i,
{
    if i < 0 || i >= regions.len() {
        -1
    } else if covers(regions[i], addr, n) {
        i
    } else {
        find_from(regions, addr, n, i + 1)
    }
}

/// The first region at index `i` or later that starts at or below `addr` and ends at or above
/// `end`, or -1. (Writes look their region up this way.)
pub open spec fn find_w_from(regions: Seq<RegionView>, addr: int, end: int, i: int) -> int
    decreases regions.len() - i,
{
    if i < 0 || i >= regions.len() {
        -1
    } else if regions[i].start <= addr && end <= regions[i].end {
        i
    } else {
        find_w_from(regions, addr, end, i + 1)
    }
}

proof fn lemma_find_from_skip(regions: Seq<RegionView>, addr: int, n: int, a: int, b: int)
    requires
        0 <= a <= b,
        forall|j: int| a <= j < b && j < regions.len() ==> !covers(#[trigger] regions[j], addr, n),
    ensures
        find_from(regions, addr, n, a) == find_from(regions, addr, n, b),
    decreases b - a,
{
    if a < b {
        lemma_find_from_skip(regions, addr, n, a + 1, b);
    }
}

proof fn lemma_find_from_range(regions: Seq<RegionView>, addr: int, n: int, a: int)
    ensures
        -1 <= find_from(regions, addr, n, a) < regions.len(),
        find_from(regions, addr, n, a) >= 0 ==> covers(
            regions[find_from(regions, addr, n, a)],
            addr,
            n,
        ),
    decreases regions.len() - a,
{
    if 0 <= a < regions.len() && !covers(regions[a], addr, n) {
        lemma_find_from_range(regions, addr, n, a + 1);
    }
}

proof fn lemma_find_w_from_skip(regions: Seq<RegionView>, addr: int, end: int, a: int, b: int)
    requires
        0 <= a <= b,
        forall|j: int|
            a <= j < b && j < regions.len() ==> !(#[trigger] regions[j].start <= addr && end
                <= regions[j].end),
    ensures
        find_w_from(regions, addr, end, a) == find_w_from(regions, addr, end, b),
    decreases b - a,
{
    if a < b {
        lemma_find_w_from_skip(regions, addr, end, a + 1, b);
    }
}

proof fn lemma_find_w_from_range(regions: Seq<RegionView>, addr: int, end: int, a: int)
    ensures
        -1 <= find_w_from(regions, addr, end, a) < regions.len(),
        find_w_from(regions, addr, end, a) >= 0 ==> regions[find_w_from(regions, addr, end, a)].start
            <= addr && end <= regions[find_w_from(regions, addr, end, a)].end,
    decreases regions.len() - a,
{
    if 0 <= a < regions.len() && !(regions[a].start <= addr && end <= regions[a].end) {
        lemma_find_w_from_range(regions, addr, end, a + 1);
    }
}

/// The bytes that the UARTs among `regions` transmitted and nobody took, region by region.
pub open spec fn pending_output(regions: Seq<RegionView>) -> Seq<u8>
    decreases regions.len(),
{
    if regions.len() == 0 {
        Seq::empty()
    } else {
        pending_output(regions.drop_last()) + match regions.last().agent {
            AgentView::Uart { tx } => tx,
            AgentView::Ram { .. } => Seq::empty(),
        }
    }
}

/// The region with its UART's transmit queue emptied.
pub open spec fn drained(r: RegionView) -> RegionView {
    match r.agent {
        AgentView::Uart { .. } => RegionView { start: r.start, end: r.end, agent: AgentView::Uart { tx: Seq::empty() } },
        AgentView::Ram { .. } => r,
    }
}

/// Replacing the agent state of a region keeps every lookup result.
proof fn lemma_same_bounds_same_find(a: Seq<RegionView>, b: Seq<RegionView>, addr: int, n: int, k: int)
    requires
        a.len() == b.len(),
        forall|j: int| 0 <= j < a.len() ==> a[j].start == #[trigger] b[j].start && a[j].end == b[j].end,
    ensures
        find_from(a, addr, n, k) == find_from(b, addr, n, k),
        find_w_from(a, addr, n, k) == find_w_from(b, addr, n, k),
    decreases a.len() - k,
{
    if 0 <= k < a.len() {
        lemma_same_bounds_same_find(a, b, addr, n, k + 1);
    }
}

/// Reading a byte right after writing it through the bus gives the byte written, when the read
/// and the write go to the same region.
pub proof fn lemma_bus_write8_read8(b: BusView, addr: u64, v: u8)
    requires
        b.writable8(addr),
        b.readable8(addr),
        b.find(addr as int, 1) == b.find_w(addr as int, 1),
    ensures
        b.write8(addr, v).readable8(addr),
        b.write8(addr, v).read8(addr) == v,
{
    let w = b.write8(addr, v);
    lemma_find_w_from_range(b.regions, addr as int, 1, 0);
    lemma_same_bounds_same_find(b.regions, w.regions, addr as int, 1, 0);
}

/// Reading a 32-bit word right after writing it to RAM through the bus gives the word written,
/// when the read and the write go to the same region.
pub proof fn lemma_bus_write32_read32(b: BusView, addr: u64, v: u32)
    requires
        b.ram_writable(addr, 4),
        b.readable32(addr),
        b.find(addr as int, 4) == b.find_w(addr as int, 4),
    ensures
        b.write32(addr, v).readable32(addr),
        b.write32(addr, v).read32(addr) == v,
{
    let w = b.write32(addr, v);
    let i = b.find(addr as int, 4);
    lemma_find_w_from_range(b.regions, addr as int, 4, 0);
    lemma_same_bounds_same_find(b.regions, w.regions, addr as int, 4, 0);
    crate::ram::lemma_le32_roundtrip(b.ram_bytes(i), addr - b.regions[i].start, v);
}

/// Reading a 64-bit word right after writing it through the bus gives the word written, when
/// the read and the write go to the same region.
pub proof fn lemma_bus_write64_read64(b: BusView, addr: u64, v: u64)
    requires
        b.writable64(addr),
        b.readable64(addr),
        b.find(addr as int, 8) == b.find_w(addr as int, 8),
    ensures
        b.write64(addr, v).readable64(addr),
        b.write64(addr, v).read64(addr) == v,
{
    let w = b.write64(addr, v);
    let i = b.find(addr as int, 8);
    lemma_find_w_from_range(b.regions, addr as int, 8, 0);
    lemma_same_bounds_same_find(b.regions, w.regions, addr as int, 8, 0);
    crate::ram::lemma_le64_roundtrip(b.ram_bytes(i), addr - b.regions[i].start, v);
}

/// A byte written through the bus leaves every byte at another address readable with its old
/// value.
pub proof fn lemma_bus_write8_frame(b: BusView, addr: u64, v: u8, other: u64)
    requires
        b.writable8(addr),
        b.readable8(other),
        other != addr,
    ensures
        b.write8(addr, v).readable8(other),
        b.write8(addr, v).read8(other) == b.read8(other),
{
    let w = b.write8(addr, v);
    lemma_find_w_from_range(b.regions, addr as int, 1, 0);
    lemma_find_from_range(b.regions, other as int, 1, 0);
    lemma_same_bounds_same_find(b.regions, w.regions, other as int, 1, 0);
}

impl BusView {
    /// Index of the region a read of `n` bytes at `addr` goes to, or -1.
    pub open spec fn find(self, addr: int, n: int) -> int {
        find_from(self.regions, addr, n, 0)
    }

    /// Index of the region a write goes to: the first one starting at or below `addr` whose
    /// end is at least `end`, or -1.
    pub open spec fn find_w(self, addr: int, end: int) -> int {
        find_w_from(self.regions, addr, end, 0)
    }

    /// The RAM bytes of region `i`.
    pub open spec fn ram_bytes(self, i: int) -> Seq<u8> {
        self.regions[i].agent->Ram_bytes
    }

    /// Whether a byte can be read at `addr`.
    pub open spec fn readable8(self, addr: u64) -> bool {
        let i = self.find(addr as int, 1);
        &&& addr + 1 <= u64::MAX
        &&& i >= 0
        &&& self.regions[i].agent is Ram
        &&& addr - self.regions[i].start < self.ram_bytes(i).len()
    }

    /// The byte at `addr`.
    pub open spec fn read8(self, addr: u64) -> u8 {
        let i = self.find(addr as int, 1);
        self.ram_bytes(i)[addr - self.regions[i].start]
    }

    /// Whether a little-endian 32-bit word can be read at `addr`.
    pub open spec fn readable32(self, addr: u64) -> bool {
        let i = self.find(addr as int, 4);
        &&& addr + 4 <= u64::MAX
        &&& i >= 0
        &&& match self.regions[i].agent {
            AgentView::Ram { bytes } => addr - self.regions[i].start + 4 <= bytes.len(),
            AgentView::Uart { .. } => addr - self.regions[i].start == TXDATA,
        }
    }

    /// The little-endian 32-bit word at `addr`.
    pub open spec fn read32(self, addr: u64) -> u32 {
        let i = self.find(addr as int, 4);
        match self.regions[i].agent {
            AgentView::Ram { bytes } => le32(bytes, addr - self.regions[i].start),
            AgentView::Uart { .. } => 0,
        }
    }

    /// Whether a little-endian 64-bit word can be read at `addr`.
    pub open spec fn readable64(self, addr: u64) -> bool {
        let i = self.find(addr as int, 8);
        &&& addr + 8 <= u64::MAX
        &&& i >= 0
        &&& self.regions[i].agent is Ram
        &&& addr - self.regions[i].start + 8 <= self.ram_bytes(i).len()
    }

    /// The little-endian 64-bit word at `addr`.
    pub open spec fn read64(self, addr: u64) -> u64 {
        let i = self.find(addr as int, 8);
        le64(self.ram_bytes(i), addr - self.regions[i].start)
    }

    /// Whether a write of `n` bytes at `addr` lands in RAM it fits into.
    pub open spec fn ram_writable(self, addr: u64, n: int) -> bool {
        let i = self.find_w(addr as int, n);
        &&& i >= 0
        &&& self.regions[i].agent is Ram
        &&& addr - self.regions[i].start + n <= self.ram_bytes(i).len()
    }

    /// Whether a byte can be written at `addr`.
    pub open spec fn writable8(self, addr: u64) -> bool {
        self.ram_writable(addr, 1)
    }

    /// Whether a 32-bit word can be written at `addr`.
    pub open spec fn writable32(self, addr: u64) -> bool {
        let i = self.find_w(addr as int, 4);
        ||| self.ram_writable(addr, 4)
        ||| (i >= 0 && self.regions[i].agent is Uart && addr - self.regions[i].start == TXDATA)
    }

    /// Whether a 64-bit word can be written at `addr`.
    pub open spec fn writable64(self, addr: u64) -> bool {
        self.ram_writable(addr, 8)
    }

    /// The bus with the RAM bytes of region `i` replaced.
    pub open spec fn with_ram(self, i: int, bytes: Seq<u8>) -> BusView {
        BusView {
            regions: self.regions.update(
                i,
                RegionView {
                    start: self.regions[i].start,
                    end: self.regions[i].end,
                    agent: AgentView::Ram { bytes },
                },
            ),
            ram_start: self.ram_start,
        }
    }

    /// The bus after writing byte `v` at `addr`.
    pub open spec fn write8(self, addr: u64, v: u8) -> BusView {
        let i = self.find_w(addr as int, 1);
        self.with_ram(i, self.ram_bytes(i).update(addr - self.regions[i].start, v))
    }

    /// The bus after writing the 32-bit word `v` at `addr`.
    pub open spec fn write32(self, addr: u64, v: u32) -> BusView {
        let i = self.find_w(addr as int, 4);
        match self.regions[i].agent {
            AgentView::Ram { bytes } => self.with_ram(
                i,
                put_le32(bytes, addr - self.regions[i].start, v),
            ),
            AgentView::Uart { tx } => BusView {
                regions: self.regions.update(
                    i,
                    RegionView {
                        start: self.regions[i].start,
                        end: self.regions[i].end,
                        agent: AgentView::Uart { tx: tx.push((v % 256) as u8) },
                    },
                ),
                ram_start: self.ram_start,
            },
        }
    }

    /// The bus after writing the 64-bit word `v` at `addr`.
    pub open spec fn write64(self, addr: u64, v: u64) -> BusView {
        let i = self.find_w(addr as int, 8);
        self.with_ram(i, put_le64(self.ram_bytes(i), addr - self.regions[i].start, v))
    }
}

// Agents are kept in attach order; lookups take the first match.
enum BusAgent {
    Ram(Ram),
    Device(Device),
}

struct AddrRegion {
    start: u64,
    end: u64,
    agent: BusAgent,
}

impl AddrRegion {
    spec fn view(&self) -> RegionView {
        RegionView {
            start: self.start,
            end: self.end,
            agent: match self.agent {
                BusAgent::Ram(r) => AgentView::Ram { bytes: r.m@ },
                BusAgent::Device(d) => AgentView::Uart { tx: d.dev.pending() },
            },
        }
    }

    /// The agent behind the region covers the same addresses as the region.
    spec fn wf(&self) -> bool {
        match self.agent {
            BusAgent::Ram(r) => r.start == self.start && r.end == self.end,
            BusAgent::Device(d) => d.start == self.start && d.end == self.end,
        }
    }
}

/// The system bus. Regions are searched in the order they were attached.
pub struct Bus {
    regions: Vec<AddrRegion>,
    ram_start: u64,
}

impl View for Bus {
    type V = BusView;

    closed spec fn view(&self) -> BusView {
        BusView {
            regions: Seq::new(self.regions@.len(), |i: int| self.regions@[i].view()),
            ram_start: self.ram_start,
        }
    }
}

impl Default for Bus {
    /// A bus without regions.
    fn default() -> (r: Self)
        ensures
            r.wf(),
            r@.regions == Seq::<RegionView>::empty(),
            r@.ram_start == 0,
    {
        Bus::new()
    }
}

impl Bus {
    /// Every region covers exactly the addresses of the agent behind it.
    pub closed spec fn wf(&self) -> bool {
        forall|i: int| 0 <= i < self.regions@.len() ==> #[trigger] self.regions@[i].wf()
    }

    pub fn new() -> (r: Bus)
        ensures
            r.wf(),
            r@.regions == Seq::<RegionView>::empty(),
            r@.ram_start == 0,
    {
        let r = Bus { regions: Vec::new(), ram_start: 0 };
        assert(r@.regions =~= Seq::<RegionView>::empty());
        r
    }

    /// A bus with one RAM region. The RAM is created as `Ram::new(start, start + size)`, so it
    /// holds `start + size` zero bytes and covers `start..2 * start + size`.
    pub fn new_with_ram(start: u64, size: u64) -> (r: Bus)
        requires
            start + size <= usize::MAX,
            2 * start + size <= u64::MAX,
        ensures
            r.wf(),
            r@.regions == seq![
                RegionView {
                    start,
                    end: (2 * start + size) as u64,
                    agent: AgentView::Ram { bytes: Seq::new((start + size) as nat, |i: int| 0u8) },
                },
            ],
            r@.ram_start == start,
    {
        let ram = Ram::new(start, start + size);
        let mut bus = Bus::new();
        bus.attach_ram(ram);
        proof {
            assert(bus@.regions =~= seq![
                RegionView {
                    start,
                    end: (2 * start + size) as u64,
                    agent: AgentView::Ram { bytes: Seq::new((start + size) as nat, |i: int| 0u8) },
                },
            ]);
        }
        bus
    }

    /// Attaches the (only) RAM of the bus.
    pub fn attach_ram(&mut self, ram: Ram)
        requires
            old(self).wf(),
            old(self)@.ram_start == 0,
        ensures
            final(self).wf(),
            final(self)@.ram_start == ram.start,
            final(self)@.regions == old(self)@.regions.push(
                RegionView { start: ram.start, end: ram.end, agent: AgentView::Ram { bytes: ram.m@ } },
            ),
    {
        let ghost v0 = self@;
        self.ram_start = ram.start;
        let region = AddrRegion { start: ram.start, end: ram.end, agent: BusAgent::Ram(ram) };
        assert(region.wf());
        self.regions.push(region);
        proof {
            assert(self@.regions =~= v0.regions.push(region.view()));
        }
    }

    /// Attaches a device; its addresses must not lie inside an already attached region.
    pub fn attach_device(&mut self, dev: Device)
        requires
            old(self).wf(),
            dev.start <= dev.end,
            old(self)@.find(dev.start as int, dev.end - dev.start) == -1,
        ensures
            final(self).wf(),
            final(self)@.ram_start == old(self)@.ram_start,
            final(self)@.regions == old(self)@.regions.push(
                RegionView { start: dev.start, end: dev.end, agent: AgentView::Uart { tx: dev.dev.pending() } },
            ),
    {
        let ghost v0 = self@;
        let region = AddrRegion { start: dev.start, end: dev.end, agent: BusAgent::Device(dev) };
        assert(region.wf());
        self.regions.push(region);
        proof {
            assert(self@.regions =~= v0.regions.push(region.view()));
        }
    }

    /// The first region covering `start..start + size`.
    fn find_addr_region(&self, start: u64, size: u64) -> (r: Option<usize>)
        requires
            start + size <= u64::MAX,
        ensures
            r is Some <==> self@.find(start as int, size as int) >= 0,
            r is Some ==> r->0 == self@.find(start as int, size as int),
            r is Some ==> r->0 < self.regions@.len(),
            r is Some ==> covers(self@.regions[r->0 as int], start as int, size as int),
    {
        proof {
            lemma_find_from_range(self@.regions, start as int, size as int, 0);
        }
        let end = start + size;
        let mut i: usize = 0;
        while i < self.regions.len()
            invariant
                i <= self.regions@.len(),
                end == start + size,
                forall|j: int| 0 <= j < i ==> !covers(#[trigger] self@.regions[j], start as int, size as int),
            decreases self.regions.len() - i,
        {
            let r = &self.regions[i];
            if start >= r.start && end <= r.end {
                proof {
                    lemma_find_from_skip(self@.regions, start as int, size as int, 0, i as int);
                }
                return Some(i);
            }
            i = i + 1;
        }
        proof {
            lemma_find_from_skip(self@.regions, start as int, size as int, 0, i as int);
        }
        None
    }

    /// The first region starting at or below `start` whose end is at least `end`.
    fn find_addr_region_mut(&self, start: u64, end: u64) -> (r: Option<usize>)
        ensures
            r is Some <==> self@.find_w(start as int, end as int) >= 0,
            r is Some ==> r->0 == self@.find_w(start as int, end as int),
            r is Some ==> r->0 < self.regions@.len(),
            r is Some ==> self@.regions[r->0 as int].start <= start && end <= self@.regions[r->0 as int].end,
    {
        proof {
            lemma_find_w_from_range(self@.regions, start as int, end as int, 0);
        }
        let mut i: usize = 0;
        while i < self.regions.len()
            invariant
                i <= self.regions@.len(),
                forall|j: int|
                    0 <= j < i ==> !(#[trigger] self@.regions[j].start <= start && end
                        <= self@.regions[j].end),
            decreases self.regions.len() - i,
        {
            let r = &self.regions[i];
            if start >= r.start && end <= r.end {
                proof {
                    lemma_find_w_from_skip(self@.regions, start as int, end as int, 0, i as int);
                }
                return Some(i);
            }
            i = i + 1;
        }
        proof {
            lemma_find_w_from_skip(self@.regions, start as int, end as int, 0, i as int);
        }
        None
    }

    /// Whether region `i`, which covers `addr`, is RAM holding `n` bytes from `addr` on.
    fn ram_holds(&self, i: usize, addr: u64, n: u64) -> (r: bool)
        requires
            self.wf(),
            i < self.regions@.len(),
            self@.regions[i as int].start <= addr,
        ensures
            r == (self@.regions[i as int].agent is Ram && addr - self@.regions[i as int].start + n
                <= self@.ram_bytes(i as int).len()),
    {
        assert(self.regions@[i as int].wf());
        assert(self@.regions[i as int] == self.regions@[i as int].view());
        match &self.regions[i].agent {
            BusAgent::Ram(ram) => {
                let off = addr - ram.start;
                let len = ram.m.len() as u64;
                off <= len && len - off >= n
            },
            BusAgent::Device(_) => false,
        }
    }

    /// Whether a byte can be read at `addr`.
    pub fn is_readable8(&self, addr: u64) -> (r: bool)
        requires
            self.wf(),
        ensures
            r == self@.readable8(addr),
    {
        if addr > u64::MAX - 1 {
            return false;
        }
        match self.find_addr_region(addr, 1) {
            None => false,
            Some(i) => self.ram_holds(i, addr, 1),
        }
    }

    /// Whether a little-endian 32-bit word can be read at `addr`.
    pub fn is_readable32(&self, addr: u64) -> (r: bool)
        requires
            self.wf(),
        ensures
            r == self@.readable32(addr),
    {
        if addr > u64::MAX - 4 {
            return false;
        }
        match self.find_addr_region(addr, 4) {
            None => false,
            Some(i) => {
                assert(self.regions@[i as int].wf());
                assert(self@.regions[i as int] == self.regions@[i as int].view());
                match &self.regions[i].agent {
                    BusAgent::Ram(_) => self.ram_holds(i, addr, 4),
                    BusAgent::Device(dev) => addr - dev.start == TXDATA,
                }
            },
        }
    }

    /// Whether a little-endian 64-bit word can be read at `addr`.
    pub fn is_readable64(&self, addr: u64) -> (r: bool)
        requires
            self.wf(),
        ensures
            r == self@.readable64(addr),
    {
        if addr > u64::MAX - 8 {
            return false;
        }
        match self.find_addr_region(addr, 8) {
            None => false,
            Some(i) => self.ram_holds(i, addr, 8),
        }
    }

    /// Whether a byte can be written at `addr`.
    pub fn is_writable8(&self, addr: u64) -> (r: bool)
        requires
            self.wf(),
        ensures
            r == self@.writable8(addr),
    {
        match self.find_addr_region_mut(addr, 1) {
            None => false,
            Some(i) => self.ram_holds(i, addr, 1),
        }
    }

    /// Whether a little-endian 32-bit word can be written at `addr`.
    pub fn is_writable32(&self, addr: u64) -> (r: bool)
        requires
            self.wf(),
        ensures
            r == self@.writable32(addr),
    {
        match self.find_addr_region_mut(addr, 4) {
            None => false,
            Some(i) => {
                assert(self.regions@[i as int].wf());
                assert(self@.regions[i as int] == self.regions@[i as int].view());
                match &self.regions[i].agent {
                    BusAgent::Ram(_) => self.ram_holds(i, addr, 4),
                    BusAgent::Device(dev) => addr - dev.start == TXDATA,
                }
            },
        }
    }

    /// Whether a little-endian 64-bit word can be written at `addr`.
    pub fn is_writable64(&self, addr: u64) -> (r: bool)
        requires
            self.wf(),
        ensures
            r == self@.writable64(addr),
    {
        match self.find_addr_region_mut(addr, 8) {
            None => false,
            Some(i) => self.ram_holds(i, addr, 8),
        }
    }

    /// Reads a byte.
    pub fn read8(&self, addr: u64) -> (r: u8)
        requires
            self.wf(),
            self@.readable8(addr),
        ensures
            r == self@.read8(addr),
    {
        let i = self.find_addr_region(addr, 1).unwrap();
        assert(self.regions@[i as int].wf());
        assert(self@.regions[i as int] == self.regions@[i as int].view());
        match &self.regions[i].agent {
            BusAgent::Ram(ram) => ram.read8(addr),
            BusAgent::Device(_) => {
                assert(false);
                0
            },
        }
    }

    /// Reads a little-endian 32-bit word.
    pub fn read32(&self, addr: u64) -> (r: u32)
        requires
            self.wf(),
            self@.readable32(addr),
        ensures
            r == self@.read32(addr),
    {
        let i = self.find_addr_region(addr, 4).unwrap();
        assert(self.regions@[i as int].wf());
        assert(self@.regions[i as int] == self.regions@[i as int].view());
        match &self.regions[i].agent {
            BusAgent::Ram(ram) => ram.read32(addr),
            BusAgent::Device(dev) => dev.read32(addr),
        }
    }

    /// Reads a little-endian 64-bit word.
    pub fn read64(&self, addr: u64) -> (r: u64)
        requires
            self.wf(),
            self@.readable64(addr),
        ensures
            r == self@.read64(addr),
    {
        let i = self.find_addr_region(addr, 8).unwrap();
        assert(self.regions@[i as int].wf());
        assert(self@.regions[i as int] == self.regions@[i as int].view());
        match &self.regions[i].agent {
            BusAgent::Ram(ram) => ram.read64(addr),
            BusAgent::Device(_) => {
                assert(false);
                0
            },
        }
    }

    /// Writes a byte.
    pub fn write8(&mut self, addr: u64, val: u8)
        requires
            old(self).wf(),
            old(self)@.writable8(addr),
        ensures
            final(self).wf(),
            final(self)@ == old(self)@.write8(addr, val),
    {
        let ghost v0 = self@;
        let i = self.find_addr_region_mut(addr, 1).unwrap();
        assert(self.regions@[i as int].wf());
        assert(self@.regions[i as int] == self.regions@[i as int].view());
        let mut region = self.regions.remove(i);
        match &mut region.agent {
            BusAgent::Ram(ram) => ram.write8(addr, val),
            BusAgent::Device(_) => {
                assert(false);
            },
        }
        assert(region.wf());
        self.regions.insert(i, region);
        proof {
            assert(self@.regions =~= v0.write8(addr, val).regions);
        }
    }

    /// Writes a little-endian 32-bit word.
    pub fn write32(&mut self, addr: u64, val: u32)
        requires
            old(self).wf(),
            old(self)@.writable32(addr),
        ensures
            final(self).wf(),
            final(self)@ == old(self)@.write32(addr, val),
    {
        let ghost v0 = self@;
        let i = self.find_addr_region_mut(addr, 4).unwrap();
        assert(self.regions@[i as int].wf());
        assert(self@.regions[i as int] == self.regions@[i as int].view());
        let mut region = self.regions.remove(i);
        match &mut region.agent {
            BusAgent::Ram(ram) => ram.write32(addr, val),
            BusAgent::Device(dev) => dev.write32(addr, val),
        }
        assert(region.wf());
        self.regions.insert(i, region);
        proof {
            assert(self@.regions =~= v0.write32(addr, val).regions);
        }
    }

    /// Whether `get_ram(addr, size)` can be asked: the span fits in the address space, and
    /// where a RAM region covers it, it lies within the RAM's bytes.
    pub fn can_get_ram(&self, addr: u64, size: u64) -> (r: bool)
        requires
            self.wf(),
        ensures
            r == (addr + size <= u64::MAX && ({
                let i = self@.find(addr as int, size as int);
                i >= 0 && self@.regions[i].agent is Ram ==> addr - self@.regions[i].start + size
                    <= self@.ram_bytes(i).len()
            })),
    {
        if addr > u64::MAX - size {
            return false;
        }
        match self.find_addr_region(addr, size) {
            Some(i) => {
                assert(self.regions@[i as int].wf());
                assert(self@.regions[i as int] == self.regions@[i as int].view());
                match &self.regions[i].agent {
                    BusAgent::Device(_) => true,
                    BusAgent::Ram(ram) => (addr - self.regions[i].start) as u128 + size as u128
                        <= ram.m.len() as u128,
                }
            },
            None => true,
        }
    }

    /// Writes a little-endian 64-bit word.
    pub fn write64(&mut self, addr: u64, val: u64)
        requires
            old(self).wf(),
            old(self)@.writable64(addr),
        ensures
            final(self).wf(),
            final(self)@ == old(self)@.write64(addr, val),
    {
        let ghost v0 = self@;
        let i = self.find_addr_region_mut(addr, 8).unwrap();
        assert(self.regions@[i as int].wf());
        assert(self@.regions[i as int] == self.regions@[i as int].view());
        let mut region = self.regions.remove(i);
        match &mut region.agent {
            BusAgent::Ram(ram) => ram.write64(addr, val),
            BusAgent::Device(_) => {
                assert(false);
            },
        }
        assert(region.wf());
        self.regions.insert(i, region);
        proof {
            assert(self@.regions =~= v0.write64(addr, val).regions);
        }
    }
    /// The memory bytes `addr..addr+size`, if they lie in RAM.
    pub fn get_ram(&self, addr: u64, size: u64) -> (r: Option<&[u8]>)
        requires
            self.wf(),
            addr + size <= u64::MAX,
            ({
                let i = self@.find(addr as int, size as int);
                i >= 0 && self@.regions[i].agent is Ram ==> addr - self@.regions[i].start + size
                    <= self@.ram_bytes(i).len()
            }),
        ensures
            ({
                let i = self@.find(addr as int, size as int);
                &&& r is Some <==> (i >= 0 && self@.regions[i].agent is Ram)
                &&& r is Some ==> r->0@ == self@.ram_bytes(i).subrange(
                    addr - self@.regions[i].start,
                    addr - self@.regions[i].start + size,
                )
            }),
    {
        if let Some(i) = self.find_addr_region(addr, size) {
            assert(self.regions@[i as int].wf());
            assert(self@.regions[i as int] == self.regions@[i as int].view());
            match &self.regions[i].agent {
                BusAgent::Device(_) => None,
                BusAgent::Ram(ram) => ram.get_ram(addr, size),
            }
        } else {
            None
        }
    }

    /// Resizes the RAM (the region found from `ram_start`); new bytes are zero.
    pub fn set_ram_sz(&mut self, ram_sz: u64)
        requires
            old(self).wf(),
            ram_sz <= usize::MAX,
            ({
                let i = old(self)@.find_w(old(self)@.ram_start as int, 4);
                i >= 0 && old(self)@.regions[i].agent is Ram
            }),
        ensures
            final(self).wf(),
            ({
                let v = old(self)@;
                let i = v.find_w(v.ram_start as int, 4);
                let b = v.ram_bytes(i);
                final(self)@ == v.with_ram(
                    i,
                    if ram_sz <= b.len() {
                        b.subrange(0, ram_sz as int)
                    } else {
                        b + Seq::new((ram_sz - b.len()) as nat, |k: int| 0u8)
                    },
                )
            }),
    {
        let ghost v0 = self@;
        let i = self.find_addr_region_mut(self.ram_start, 4).unwrap();
        assert(self.regions@[i as int].wf());
        assert(self@.regions[i as int] == self.regions@[i as int].view());
        let mut region = self.regions.remove(i);
        match &mut region.agent {
            BusAgent::Ram(ram) => ram.resize(ram_sz),
            BusAgent::Device(_) => {
                assert(false);
            },
        }
        assert(region.wf());
        self.regions.insert(i, region);
        proof {
            let b = v0.ram_bytes(i as int);
            assert(self@.regions =~= v0.with_ram(
                i as int,
                if ram_sz <= b.len() {
                    b.subrange(0, ram_sz as int)
                } else {
                    b + Seq::new((ram_sz - b.len()) as nat, |k: int| 0u8)
                },
            ).regions);
        }
    }

    /// Copies `bytes` into the RAM region found as for a write of `end` bytes at `addr`.
    fn load_into_ram(&mut self, addr: u64, end: u64, bytes: &[u8]) -> (r: Result<(), MemError>)
        requires
            old(self).wf(),
            ({
                let i = old(self)@.find_w(addr as int, end as int);
                i >= 0 && old(self)@.regions[i].agent is Ram ==> addr <= old(self)@.regions[i].end
            }),
        ensures
            final(self).wf(),
            ({
                let v = old(self)@;
                let i = v.find_w(addr as int, end as int);
                if i < 0 || !(v.regions[i].agent is Ram) {
                    r == Err::<(), MemError>(MemError::NoSuitableRamRegion) && final(self)@ == v
                } else if addr - v.regions[i].start + bytes@.len() > v.ram_bytes(i).len() {
                    r == Err::<(), MemError>(MemError::SizeIsWrong) && final(self)@ == v
                } else {
                    r is Ok && final(self)@ == v.with_ram(
                        i,
                        put_bytes(v.ram_bytes(i), addr - v.regions[i].start, bytes@),
                    )
                }
            }),
    {
        let ghost v0 = self@;
        if let Some(i) = self.find_addr_region_mut(addr, end) {
            assert(self.regions@[i as int].wf());
            assert(self@.regions[i as int] == self.regions@[i as int].view());
            let is_ram = match &self.regions[i].agent {
                BusAgent::Ram(_) => true,
                BusAgent::Device(_) => false,
            };
            if is_ram {
                let mut region = self.regions.remove(i);
                let res = match &mut region.agent {
                    BusAgent::Ram(ram) => ram.load_image(addr, bytes),
                    BusAgent::Device(_) => {
                        assert(false);
                        Err(MemError::NoSuitableRamRegion)
                    },
                };
                assert(region.wf());
                self.regions.insert(i, region);
                proof {
                    if res is Ok {
                        assert(self@.regions =~= v0.with_ram(
                            i as int,
                            put_bytes(v0.ram_bytes(i as int), addr - v0.regions[i as int].start, bytes@),
                        ).regions);
                    } else {
                        assert(self@.regions =~= v0.regions);
                    }
                }
                return res;
            }
        }
        Err(MemError::NoSuitableRamRegion)
    }

    /// Loads an in-memory image into RAM at `addr`.
    pub fn load_image(&mut self, addr: u64, image: &[u8]) -> (r: Result<(), MemError>)
        requires
            old(self).wf(),
            ({
                let i = old(self)@.find_w(addr as int, image@.len() as int);
                i >= 0 && old(self)@.regions[i].agent is Ram ==> addr <= old(self)@.regions[i].end
            }),
        ensures
            final(self).wf(),
            ({
                let v = old(self)@;
                let i = v.find_w(addr as int, image@.len() as int);
                if i < 0 || !(v.regions[i].agent is Ram) {
                    r == Err::<(), MemError>(MemError::NoSuitableRamRegion) && final(self)@ == v
                } else if addr - v.regions[i].start + image@.len() > v.ram_bytes(i).len() {
                    r == Err::<(), MemError>(MemError::SizeIsWrong) && final(self)@ == v
                } else {
                    r is Ok && final(self)@ == v.with_ram(
                        i,
                        put_bytes(v.ram_bytes(i), addr - v.regions[i].start, image@),
                    )
                }
            }),
    {
        let n = image.len() as u64;
        self.load_into_ram(addr, n, image)
    }

    /// Loads the contents of a binary file (already read into `contents`) into RAM at `addr`;
    /// the RAM region is looked up as for an 8-byte write at `addr`.
    pub fn load_file(&mut self, addr: u64, contents: &[u8]) -> (r: Result<(), MemError>)
        requires
            old(self).wf(),
            ({
                let i = old(self)@.find_w(addr as int, 8);
                i >= 0 && old(self)@.regions[i].agent is Ram ==> addr <= old(self)@.regions[i].end
            }),
        ensures
            final(self).wf(),
            ({
                let v = old(self)@;
                let i = v.find_w(addr as int, 8);
                if i < 0 || !(v.regions[i].agent is Ram) {
                    r == Err::<(), MemError>(MemError::NoSuitableRamRegion) && final(self)@ == v
                } else if addr - v.regions[i].start + contents@.len() > v.ram_bytes(i).len() {
                    r == Err::<(), MemError>(MemError::SizeIsWrong) && final(self)@ == v
                } else {
                    r is Ok && final(self)@ == v.with_ram(
                        i,
                        put_bytes(v.ram_bytes(i), addr - v.regions[i].start, contents@),
                    )
                }
            }),
    {
        self.load_into_ram(addr, 8, contents)
    }
    /// Hands out what the UARTs transmitted, in region order, and empties their queues.
    pub fn take_device_output(&mut self) -> (r: Vec<u8>)
        requires
            old(self).wf(),
        ensures
            final(self).wf(),
            r@ == pending_output(old(self)@.regions),
            final(self)@.ram_start == old(self)@.ram_start,
            final(self)@.regions == old(self)@.regions.map_values(|g: RegionView| drained(g)),
    {
        let ghost v0 = self@;
        let mut out: Vec<u8> = Vec::new();
        let mut i: usize = 0;
        while i < self.regions.len()
            invariant
                self.wf(),
                i <= self.regions@.len(),
                self.regions@.len() == v0.regions.len(),
                self@.ram_start == v0.ram_start,
                out@ == pending_output(v0.regions.take(i as int)),
                forall|j: int| 0 <= j < i ==> self@.regions[j] == drained(v0.regions[j]),
                forall|j: int| i <= j < v0.regions.len() ==> self@.regions[j] == v0.regions[j],
            decreases self.regions.len() - i,
        {
            let ghost before = self@;
            let ghost before_vec = self.regions@;
            assert(self.regions@[i as int].wf());
            assert(self@.regions[i as int] == self.regions@[i as int].view());
            let mut region = self.regions.remove(i);
            let ghost rv0 = region.view();
            assert(rv0 == v0.regions[i as int]);
            let bytes = match &mut region.agent {
                BusAgent::Ram(_) => Vec::new(),
                BusAgent::Device(dev) => dev.dev.take_output(),
            };
            assert(bytes@ == match rv0.agent {
                AgentView::Uart { tx } => tx,
                AgentView::Ram { .. } => Seq::<u8>::empty(),
            });
            assert(region.wf());
            self.regions.insert(i, region);
            let ghost out0 = out@;
            let ghost got = bytes@;
            let mut bytes = bytes;
            out.append(&mut bytes);
            proof {
                assert(v0.regions.take(i + 1).drop_last() =~= v0.regions.take(i as int));
                assert(v0.regions.take(i + 1).last() == rv0);
                assert(out@ == out0 + got);
                assert(pending_output(v0.regions.take(i + 1)) == pending_output(
                    v0.regions.take(i + 1).drop_last(),
                ) + got);
                assert(self@.regions[i as int] == drained(v0.regions[i as int]));
                assert(self.regions@ =~= before_vec.update(i as int, region));
                assert forall|j: int| 0 <= j < self.regions@.len() && j != i implies self@.regions[j]
                    == before.regions[j] by {
                    assert(self@.regions[j] == self.regions@[j].view());
                    assert(before.regions[j] == before_vec[j].view());
                }
                assert forall|j: int| 0 <= j < i + 1 implies self@.regions[j] == drained(v0.regions[j]) by {
                    if j < i {
                        assert(self@.regions[j] == before.regions[j]);
                    }
                }
            }
            i = i + 1;
        }
        proof {
            assert(v0.regions.take(i as int) =~= v0.regions);
            assert(self@.regions =~= v0.regions.map_values(|g: RegionView| drained(g)));
        }
        out
    }
}

} // verus!
