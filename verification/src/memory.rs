//! The machine's 4 KiB of byte-addressable memory, with an optional access
//! heatmap for front ends that visualise memory traffic.

use vstd::prelude::*;

verus! {

/// The number of addressable bytes.
pub const MEMORY_SIZE: usize = 4096;

/// How much one observed read warms a cell of the heatmap.
pub const READ_HEAT: u8 = 20;

/// The heat of a cell right after an observed write.
pub const WRITE_HEAT: u8 = 255;

/// The cell that an address names: addresses wrap around at 4096.
pub open spec fn wrap_address(addr: int) -> int {
    addr % 4096
}

/// The mathematical content of a `Memory`.
#[verifier::ext_equal]
pub struct MemoryView {
    /// The 4096 stored bytes.
    pub bytes: Seq<u8>,
    /// The heat of each cell; all zero unless `observed`.
    pub heatmap: Seq<u8>,
    /// Whether `get` and `set` record their accesses in the heatmap.
    pub observed: bool,
}

impl MemoryView {
    /// A memory of 4096 zero bytes that nothing has touched yet.
    pub open spec fn blank(observed: bool) -> MemoryView {
        MemoryView {
            bytes: Seq::new(4096, |a: int| 0u8),
            heatmap: Seq::new(4096, |a: int| 0u8),
            observed,
        }
    }

    /// Both sequences have one entry per cell.
    pub open spec fn wf(self) -> bool {
        self.bytes.len() == 4096 && self.heatmap.len() == 4096
    }

    /// The byte stored at `addr`.
    pub open spec fn read(self, addr: int) -> u8 {
        self.bytes[wrap_address(addr)]
    }

    /// The memory after storing `value` at `addr` without recording it.
    pub open spec fn write(self, addr: int, value: u8) -> MemoryView {
        MemoryView { bytes: self.bytes.update(wrap_address(addr), value), ..self }
    }

    /// The memory after the cell at `addr` took the heat `heat`, if accesses
    /// are observed at all.
    pub open spec fn heated(self, addr: int, heat: u8) -> MemoryView {
        if self.observed {
            MemoryView { heatmap: self.heatmap.update(wrap_address(addr), heat), ..self }
        } else {
            self
        }
    }

    /// The heat of the cell at `addr` after one more observed read.
    pub open spec fn read_heat(self, addr: int) -> u8 {
        let h = self.heatmap[wrap_address(addr)];
        if h + READ_HEAT > 255 {
            255u8
        } else {
            (h + READ_HEAT) as u8
        }
    }

    /// The memory after an observed read of `addr`.
    pub open spec fn observe_read(self, addr: int) -> MemoryView {
        self.heated(addr, self.read_heat(addr))
    }

    /// The memory after an observed write of `value` to `addr`.
    pub open spec fn observe_write(self, addr: int, value: u8) -> MemoryView {
        self.write(addr, value).heated(addr, WRITE_HEAT)
    }

    /// The memory after every cell of the heatmap cooled by one, down to zero.
    pub open spec fn cooled(self) -> MemoryView {
        MemoryView {
            heatmap: Seq::new(
                self.heatmap.len(),
                |k: int| if self.heatmap[k] == 0 { 0u8 } else { (self.heatmap[k] - 1) as u8 },
            ),
            ..self
        }
    }

    /// The memory after `data` was written byte by byte, with observed
    /// writes, to `base`, `base + 1`, and so on, wrapping around at 4096.
    pub open spec fn load(self, base: int, data: Seq<u8>) -> MemoryView
        decreases data.len(),
    {
        if data.len() == 0 {
            self
        } else {
            self.load(base, data.drop_last()).observe_write(
                base + data.len() - 1,
                data.last(),
            )
        }
    }

    /// The `n` bytes stored from `addr` on, wrapping around at 4096.
    pub open spec fn read_range(self, addr: int, n: nat) -> Seq<u8> {
        Seq::new(n, |k: int| self.read(addr + k))
    }
}

/// Loading writes each byte where it belongs: as long as the data is not
/// longer than the memory, the cell that lies `k` cells after `base`, going
/// around the end of memory, holds byte `k` of the data if there is one, and
/// its old content otherwise.
pub proof fn lemma_load_contents(m: MemoryView, base: int, data: Seq<u8>)
    requires
        m.wf(),
        data.len() <= 4096,
    ensures
        m.load(base, data).wf(),
        m.load(base, data).observed == m.observed,
        forall|a: int|
            0 <= a < 4096 ==> #[trigger] m.load(base, data).bytes[a] == if (a - base) % 4096
                < data.len() {
                data[(a - base) % 4096]
            } else {
                m.bytes[a]
            },
    decreases data.len(),
{
    if data.len() > 0 {
        let prefix = data.drop_last();
        lemma_load_contents(m, base, prefix);
        let before = m.load(base, prefix);
        let last = base + data.len() - 1;
        assert forall|a: int| 0 <= a < 4096 implies #[trigger] m.load(base, data).bytes[a] == if (a
            - base) % 4096 < data.len() {
            data[(a - base) % 4096]
        } else {
            m.bytes[a]
        } by {
            assert(before.bytes[a] == if (a - base) % 4096 < prefix.len() {
                prefix[(a - base) % 4096]
            } else {
                m.bytes[a]
            });
            assert(a == wrap_address(last) <==> (a - base) % 4096 == data.len() - 1);
        }
    }
}

/// 4096 bytes of memory.
pub struct Memory {
    mem: [u8; 4096],
    heatmap: [u8; 4096],
    observed: bool,
}

impl View for Memory {
    type V = MemoryView;

    closed spec fn view(&self) -> MemoryView {
        MemoryView { bytes: self.mem@, heatmap: self.heatmap@, observed: self.observed }
    }
}

impl Memory {
    /// The content of a memory is well formed.
    pub proof fn lemma_wf(&self)
        ensures
            self@.wf(),
    {
    }

    /// Zero-filled memory whose accesses are not observed.
    pub fn new() -> (m: Self)
        ensures
            m@ == MemoryView::blank(false),
    {
        Memory { mem: [0; 4096], heatmap: [0; 4096], observed: false }
    }

    /// Zero-filled memory that records every `get` and `set` in its heatmap.
    pub fn with_heatmap() -> (m: Self)
        ensures
            m@ == MemoryView::blank(true),
    {
        Memory { mem: [0; 4096], heatmap: [0; 4096], observed: true }
    }

    /// Whether accesses are recorded in the heatmap.
    pub fn is_observed(&self) -> (b: bool)
        ensures
            b == self@.observed,
            self@.wf(),
    {
        self.observed
    }

    /// The heat of the cell at `i`.
    pub fn heat(&self, i: u16) -> (h: u8)
        ensures
            h == self@.heatmap[wrap_address(i as int)],
            self@.wf(),
    {
        let a: usize = (i % 4096) as usize;
        self.heatmap[a]
    }

    /// The heat of every cell, for a front end to draw.
    pub fn heatmap(&self) -> (heat: &[u8; 4096])
        ensures
            heat@ == self@.heatmap,
    {
        &self.heatmap
    }

    /// Cools every cell of the heatmap by one.
    pub fn tick(&mut self)
        ensures
            final(self)@ == old(self)@.cooled(),
            final(self)@.wf(),
    {
        let mut k: usize = 0;
        while k < MEMORY_SIZE
            invariant
                k <= MEMORY_SIZE,
                self.mem == old(self).mem,
                self.observed == old(self).observed,
                forall|j: int| 0 <= j < k ==> self.heatmap@[j] == old(self)@.cooled().heatmap[j],
                forall|j: int| k <= j < 4096 ==> self.heatmap@[j] == old(self).heatmap@[j],
            decreases MEMORY_SIZE - k,
        {
            self.heatmap[k] = self.heatmap[k].saturating_sub(1);
            k += 1;
        }
    }

    /// Reads the byte at `i` and, if accesses are observed, warms its cell.
    pub fn get(&mut self, i: u16) -> (b: u8)
        ensures
            b == old(self)@.read(i as int),
            final(self)@ == old(self)@.observe_read(i as int),
            final(self)@.wf(),
    {
        let a: usize = (i % 4096) as usize;
        if self.observed {
            self.heatmap[a] = self.heatmap[a].saturating_add(READ_HEAT);
        }
        self.mem[a]
    }

    /// Writes `v` at `i` and, if accesses are observed, marks its cell hot.
    pub fn set(&mut self, i: u16, v: u8)
        ensures
            final(self)@ == old(self)@.observe_write(i as int, v),
            final(self)@.wf(),
    {
        let a: usize = (i % 4096) as usize;
        if self.observed {
            self.heatmap[a] = WRITE_HEAT;
        }
        self.mem[a] = v;
    }

    /// Reads the byte at `i` without recording the access.
    pub fn peek(&self, i: u16) -> (b: u8)
        ensures
            b == self@.read(i as int),
            self@.wf(),
    {
        let a: usize = (i % 4096) as usize;
        self.mem[a]
    }

    /// Writes `v` at `i` without recording the access.
    pub fn poke(&mut self, i: u16, v: u8)
        ensures
            final(self)@ == old(self)@.write(i as int, v),
            final(self)@.wf(),
    {
        let a: usize = (i % 4096) as usize;
        self.mem[a] = v;
    }

    /// Copies `data` into memory from `base` on, overwriting what was there;
    /// each byte is an observed write, and addresses wrap around at 4096.
    pub fn load(&mut self, base: u16, data: &[u8])
        ensures
            final(self)@ == old(self)@.load(base as int, data@),
            final(self)@.wf(),
    {
        let mut k: usize = 0;
        let mut addr: u16 = base;
        while k < data.len()
            invariant
                k <= data.len(),
                wrap_address(addr as int) == wrap_address(base + k),
                self@ == old(self)@.load(base as int, data@.take(k as int)),
                self@.wf(),
            decreases data.len() - k,
        {
            proof {
                assert(data@.take(k + 1).drop_last() == data@.take(k as int));
                assert(data@.take(k + 1).last() == data@[k as int]);
            }
            self.set(addr, data[k]);
            addr = addr.wrapping_add(1);
            k += 1;
        }
        proof {
            assert(data@.take(k as int) == data@);
        }
    }
}

} // verus!
