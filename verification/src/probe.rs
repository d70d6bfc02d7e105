//! Anchor discovery: one scan over the process's mapped memory regions.
//!
//! The target exports no stable named symbol for its primary data table, but
//! the process loader produces a stable structural signature: a region of
//! exactly one page (0x1000 bytes) immediately followed by a region of size
//! 0xFFFFF000. The anchor is the start address of the first region of such a
//! pair. The driver enumerates the regions in their natural order (querying
//! address and size may fail per region) and retries the whole scan on the
//! next tick when it yields nothing.

use vstd::prelude::*;

verus! {

/// One mapped memory region as the enumeration reports it. A field is absent
/// when the corresponding query failed.
#[derive(Clone, Copy)]
pub struct MemRange {
    pub address: Option<u64>,
    pub size: Option<u64>,
}

/// Size of the first region of the signature pair: exactly one page.
pub const PAGE_REGION_SIZE: u64 = 0x1000;

/// Size of the region that must immediately follow the one-page region.
pub const COMPLEMENT_REGION_SIZE: u64 = 0xFFFFF000;

/// The scan from index `i` on: walks the regions in order looking for the
/// adjacent pair signature. A failed address or size query anywhere the scan
/// looks aborts the whole attempt, as does reaching the end of the
/// enumeration.
pub open spec fn spec_scan(ranges: Seq<MemRange>, i: int) -> Option<u64>
    decreases ranges.len() - i,
{
    if i < 0 || i >= ranges.len() {
        None
    } else {
        match ranges[i].size {
            None => None,
            Some(s) => if s == PAGE_REGION_SIZE {
                match ranges[i].address {
                    None => None,
                    Some(a) => if i + 1 >= ranges.len() {
                        None
                    } else {
                        match ranges[i + 1].size {
                            None => None,
                            Some(s2) => if s2 == COMPLEMENT_REGION_SIZE {
                                Some(a)
                            } else {
                                spec_scan(ranges, i + 1)
                            },
                        }
                    },
                }
            } else {
                spec_scan(ranges, i + 1)
            },
        }
    }
}

/// The anchor address the whole enumeration yields, if the signature pair is
/// found.
pub open spec fn spec_find_anchor(ranges: Seq<MemRange>) -> Option<u64> {
    spec_scan(ranges, 0)
}

/// Scans the enumerated regions for the signature pair and returns the anchor
/// address: the start of the first one-page region immediately followed by a
/// region of the complement size. Yields nothing when no pair exists or a
/// query the scan depends on failed; the caller retries on a later tick.
pub fn find_anchor(ranges: &Vec<MemRange>) -> (r: Option<u64>)
    ensures
        r == spec_find_anchor(ranges@),
{
    let mut i: usize = 0;
    loop
        invariant
            i <= ranges.len(),
            spec_find_anchor(ranges@) == spec_scan(ranges@, i as int),
        decreases ranges.len() - i,
    {
        if i >= ranges.len() {
            return None;
        }
        match ranges[i].size {
            None => {
                return None;
            },
            Some(s) => {
                if s == PAGE_REGION_SIZE {
                    match ranges[i].address {
                        None => {
                            return None;
                        },
                        Some(a) => {
                            if i + 1 >= ranges.len() {
                                return None;
                            }
                            match ranges[i + 1].size {
                                None => {
                                    return None;
                                },
                                Some(s2) => {
                                    if s2 == COMPLEMENT_REGION_SIZE {
                                        return Some(a);
                                    }
                                },
                            }
                        },
                    }
                }
            },
        }
        i = i + 1;
    }
}

} // verus!
