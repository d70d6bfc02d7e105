//! Multi-hop pointer-path resolution.
//!
//! A memory path is a non-empty sequence of unsigned 32-bit offsets applied to
//! a base address. For every offset except the last, a 32-bit big-endian
//! pointer value is read at (current address + offset) and the next address is
//! the *original base* plus that value — the layout is a table of pointers
//! anchored at one base, not a linked chain. The final offset is added to the
//! last resolved address and the value there is read directly. An empty path
//! has no final offset and always yields nothing; any failed read collapses
//! the whole resolution to nothing.
//!
//! [`PathWalk`] exposes the resolution one read at a time, so a driver that
//! owns the actual read capability can perform the reads; [`read_host_path`]
//! runs the same walk against an in-library [`MemTable`] of pointer cells.

use vstd::prelude::*;

verus! {

/// Wrapping 64-bit address addition.
pub open spec fn wadd(a: u64, b: u64) -> u64 {
    vstd::wrapping::u64_specs::wrapping_add(a, b)
}

/// Big-endian interpretation of four bytes, most significant first.
pub open spec fn spec_be_u32(b0: u8, b1: u8, b2: u8, b3: u8) -> u32 {
    ((b0 as int) * 0x100_0000 + (b1 as int) * 0x1_0000 + (b2 as int) * 0x100 + (b3 as int)) as u32
}

/// Assembles a 32-bit value from four bytes read in memory order, treating
/// them as big-endian (the wire convention for every multi-byte value read
/// out of the foreign process).
pub fn be_u32(b0: u8, b1: u8, b2: u8, b3: u8) -> (r: u32)
    ensures
        r == spec_be_u32(b0, b1, b2, b3),
{
    (b0 as u32) * 0x100_0000 + (b1 as u32) * 0x1_0000 + (b2 as u32) * 0x100 + (b3 as u32)
}

/// A table of 32-bit cells at absolute addresses: the in-library model of the
/// foreign address space, used to run and test path resolutions on constructed
/// memory. A read at an address not present in the table fails, like a read of
/// an unmapped page.
pub struct MemTable {
    pub cells: Vec<(u64, u32)>,
}

/// The value of the first cell in `cells` at `addr`, scanning from index `i`.
pub open spec fn table_lookup_from(cells: Seq<(u64, u32)>, addr: u64, i: int) -> Option<u32>
    decreases cells.len() - i,
{
    if i < 0 || i >= cells.len() {
        None
    } else if cells[i].0 == addr {
        Some(cells[i].1)
    } else {
        table_lookup_from(cells, addr, i + 1)
    }
}

/// The value stored at `addr`, or nothing if the table has no cell there.
pub open spec fn table_lookup(cells: Seq<(u64, u32)>, addr: u64) -> Option<u32> {
    table_lookup_from(cells, addr, 0)
}

impl MemTable {
    /// Reads the 32-bit cell at `addr`; fails when no cell is there.
    pub fn read_u32(&self, addr: u64) -> (r: Option<u32>)
        ensures
            r == table_lookup(self.cells@, addr),
    {
        let mut i: usize = 0;
        loop
            invariant
                i <= self.cells.len(),
                table_lookup(self.cells@, addr) == table_lookup_from(self.cells@, addr, i as int),
            decreases self.cells.len() - i,
        {
            if i >= self.cells.len() {
                return None;
            }
            if self.cells[i].0 == addr {
                return Some(self.cells[i].1);
            }
            i = i + 1;
        }
    }
}

/// The base address resolved after the first `n` pointer hops of `offsets`
/// against `mem`: `Some(base)` for `n == 0`; nothing as soon as one pointer
/// read fails. Each successful hop re-anchors at the original base.
pub open spec fn spec_resolved(mem: Seq<(u64, u32)>, base: u64, offsets: Seq<u32>, n: int) -> Option<
    u64,
>
    decreases n,
{
    if n <= 0 {
        Some(base)
    } else {
        match spec_resolved(mem, base, offsets, n - 1) {
            None => None,
            Some(a) => match table_lookup(mem, wadd(a, offsets[n - 1] as u64)) {
                None => None,
                Some(v) => Some(wadd(base, v as u64)),
            },
        }
    }
}

/// The value a full path read yields: nothing for an empty path; otherwise the
/// cell at (last resolved address + final offset), if every read succeeds.
pub open spec fn spec_path_read(mem: Seq<(u64, u32)>, base: u64, offsets: Seq<u32>) -> Option<u32> {
    if offsets.len() == 0 {
        None
    } else {
        match spec_resolved(mem, base, offsets, offsets.len() - 1) {
            None => None,
            Some(a) => table_lookup(mem, wadd(a, offsets[offsets.len() - 1] as u64)),
        }
    }
}

/// One path resolution in progress, advanced one pointer read at a time by a
/// driver that owns the read capability. The walk only does the address
/// bookkeeping; it never reads memory itself.
pub struct PathWalk {
    /// The original base address every hop re-anchors to.
    pub base: u64,
    /// The path being resolved.
    pub offsets: Vec<u32>,
    /// How many pointer hops have been resolved so far.
    pub index: usize,
    /// The address the next offset applies to.
    pub address: u64,
    /// Whether a pointer read failed (or the path was empty from the start).
    pub failed: bool,
}

impl PathWalk {
    /// Structural soundness: a live walk sits on a real offset index.
    pub open spec fn wf(self) -> bool {
        !self.failed ==> self.index < self.offsets@.len()
    }

    /// The walk agrees with the resolution of its path against `mem` so far.
    pub open spec fn consistent_with(self, mem: Seq<(u64, u32)>) -> bool {
        &&& (!self.failed ==> spec_resolved(mem, self.base, self.offsets@, self.index as int)
            == Some(self.address))
        &&& (self.failed ==> spec_path_read(mem, self.base, self.offsets@) is None)
    }

    /// Starts a walk of `offsets` from `base`. An empty path fails at once.
    pub fn new(base: u64, offsets: Vec<u32>) -> (w: PathWalk)
        ensures
            w.base == base,
            w.offsets == offsets,
            w.index == 0,
            w.address == base,
            w.failed == (offsets@.len() == 0),
            w.wf(),
    {
        let failed = offsets.len() == 0;
        PathWalk { base, offsets, index: 0, address: base, failed }
    }

    /// The address of the next pointer cell to read, while pointer hops
    /// remain; nothing once the walk has failed or only the final read is
    /// left.
    pub fn pointer_read_request(&self) -> (r: Option<u64>)
        ensures
            r == (if !self.failed && self.index + 1 < self.offsets@.len() {
                Some(wadd(self.address, self.offsets@[self.index as int] as u64))
            } else {
                None::<u64>
            }),
    {
        if self.failed || self.offsets.len() == 0 {
            return None;
        }
        if self.index < self.offsets.len() - 1 {
            Some(self.address.wrapping_add(self.offsets[self.index] as u64))
        } else {
            None
        }
    }

    /// Feeds the outcome of the pointer read that `pointer_read_request`
    /// asked for: a failed read fails the walk; a value re-anchors the walk
    /// at base + value and moves to the next offset.
    pub fn feed_pointer(&mut self, value: Option<u32>)
        requires
            !old(self).failed,
            old(self).index + 1 < old(self).offsets@.len(),
        ensures
            final(self).base == old(self).base,
            final(self).offsets == old(self).offsets,
            match value {
                None => final(self).failed,
                Some(v) => {
                    &&& !final(self).failed
                    &&& final(self).index == old(self).index + 1
                    &&& final(self).address == wadd(old(self).base, v as u64)
                },
            },
    {
        match value {
            None => {
                self.failed = true;
            },
            Some(v) => {
                let n: usize = self.offsets.len();
                assert(self.index + 1 < n);
                self.address = self.base.wrapping_add(v as u64);
                self.index = self.index + 1;
            },
        }
    }

    /// The address of the final value, once every pointer hop has been
    /// resolved; nothing while hops remain or after a failure.
    pub fn final_read_address(&self) -> (r: Option<u64>)
        ensures
            r == (if !self.failed && self.index + 1 == self.offsets@.len() {
                Some(wadd(self.address, self.offsets@[self.index as int] as u64))
            } else {
                None::<u64>
            }),
    {
        if self.failed || self.offsets.len() == 0 {
            return None;
        }
        if self.index == self.offsets.len() - 1 {
            Some(self.address.wrapping_add(self.offsets[self.index] as u64))
        } else {
            None
        }
    }
}

/// Once a resolution has failed at hop `n`, it stays failed at every later
/// hop.
pub proof fn lemma_resolved_none_persists(
    mem: Seq<(u64, u32)>,
    base: u64,
    offsets: Seq<u32>,
    n: int,
    m: int,
)
    requires
        0 <= n <= m,
        spec_resolved(mem, base, offsets, n) is None,
    ensures
        spec_resolved(mem, base, offsets, m) is None,
    decreases m - n,
{
    if m > n {
        lemma_resolved_none_persists(mem, base, offsets, n, m - 1);
    }
}

/// Law: if any intermediate pointer read of a path fails — the resolution
/// reaches hop `n` but the pointer cell for hop `n` is absent — the whole
/// path read yields nothing, whatever lies at the remaining offsets.
pub proof fn lemma_path_read_failure(
    mem: Seq<(u64, u32)>,
    base: u64,
    offsets: Seq<u32>,
    n: int,
    a: u64,
)
    requires
        0 <= n < offsets.len() - 1,
        spec_resolved(mem, base, offsets, n) == Some(a),
        table_lookup(mem, wadd(a, offsets[n] as u64)) is None,
    ensures
        spec_path_read(mem, base, offsets) is None,
{
    assert(spec_resolved(mem, base, offsets, n + 1) is None);
    lemma_resolved_none_persists(mem, base, offsets, n + 1, offsets.len() - 1);
}

/// Law: for a non-empty path whose pointer cells are all present, the read
/// returns exactly the value stored at the final resolved address.
pub proof fn lemma_path_read_complete(
    mem: Seq<(u64, u32)>,
    base: u64,
    offsets: Seq<u32>,
    a: u64,
    v: u32,
)
    requires
        offsets.len() > 0,
        spec_resolved(mem, base, offsets, offsets.len() - 1) == Some(a),
        table_lookup(mem, wadd(a, offsets[offsets.len() - 1] as u64)) == Some(v),
    ensures
        spec_path_read(mem, base, offsets) == Some(v),
{
}

/// Law: a path with no offsets yields nothing.
pub proof fn lemma_path_read_empty(mem: Seq<(u64, u32)>, base: u64, offsets: Seq<u32>)
    requires
        offsets.len() == 0,
    ensures
        spec_path_read(mem, base, offsets) is None,
{
}

/// Resolves a full path against an in-library memory table by driving a
/// [`PathWalk`] to the end, exactly as an external driver does against the
/// live process.
pub fn read_host_path(mem: &MemTable, base: u64, offsets: Vec<u32>) -> (r: Option<u32>)
    ensures
        r == spec_path_read(mem.cells@, base, offsets@),
{
    let ghost offs = offsets@;
    let mut walk = PathWalk::new(base, offsets);
    loop
        invariant
            walk.base == base,
            walk.offsets@ == offs,
            walk.wf(),
            walk.consistent_with(mem.cells@),
        ensures
            walk.base == base,
            walk.offsets@ == offs,
            walk.wf(),
            walk.consistent_with(mem.cells@),
            !walk.failed ==> walk.index + 1 == offs.len(),
        decreases offs.len() - walk.index,
    {
        match walk.pointer_read_request() {
            Some(addr) => {
                match mem.read_u32(addr) {
                    Some(v) => {
                        walk.feed_pointer(Some(v));
                    },
                    None => {
                        proof {
                            lemma_resolved_none_persists(
                                mem.cells@,
                                base,
                                offs,
                                walk.index + 1,
                                offs.len() - 1,
                            );
                        }
                        walk.feed_pointer(None);
                        break;
                    },
                }
            },
            None => {
                break;
            },
        }
    }
    match walk.final_read_address() {
        Some(addr) => mem.read_u32(addr),
        None => None,
    }
}

} // verus!
