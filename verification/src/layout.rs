//! The target title's memory layout: the offset paths, relative to the
//! discovered anchor, of every cell the update loop reads each tick.

use vstd::prelude::*;

verus! {

/// Path to the 32-bit loading-state cell (read big-endian).
pub fn loading_state_path() -> (r: Vec<u32>)
    ensures
        r@ == seq![0x833678A0u32, 0x4u32, 0xE0u32, 0x13Cu32],
{
    let mut r: Vec<u32> = Vec::new();
    r.push(0x833678A0);
    r.push(0x4);
    r.push(0xE0);
    r.push(0x13C);
    assert(r@ =~= seq![0x833678A0u32, 0x4u32, 0xE0u32, 0x13Cu32]);
    r
}

/// Path to the one-byte stuck-loading flag: set while the game is effectively
/// stuck loading, whatever the loading screen shows.
pub fn stuck_flag_path() -> (r: Vec<u32>)
    ensures
        r@ == seq![0x83367A4Cu32],
{
    let mut r: Vec<u32> = Vec::new();
    r.push(0x83367A4C);
    assert(r@ =~= seq![0x83367A4Cu32]);
    r
}

/// Path to the one-byte internal id of the current stage; 0 means "no stage /
/// world map".
pub fn stage_path() -> (r: Vec<u32>)
    ensures
        r@ == seq![0x83367900u32, 0x8u32, 0xACu32, 0x0u32],
{
    let mut r: Vec<u32> = Vec::new();
    r.push(0x83367900);
    r.push(0x8);
    r.push(0xAC);
    r.push(0x0);
    assert(r@ =~= seq![0x83367900u32, 0x8u32, 0xACu32, 0x0u32]);
    r
}

/// Path to the raw in-game clock, a 32-bit float (read big-endian) counting
/// seconds.
pub fn clock_path() -> (r: Vec<u32>)
    ensures
        r@ == seq![0x83367900u32, 0x8u32, 0x5Cu32],
{
    let mut r: Vec<u32> = Vec::new();
    r.push(0x83367900);
    r.push(0x8);
    r.push(0x5C);
    assert(r@ =~= seq![0x83367900u32, 0x8u32, 0x5Cu32]);
    r
}

} // verus!
