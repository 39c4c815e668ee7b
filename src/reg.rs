//! Addresses of the memory-mapped registers and memory regions.
use vstd::prelude::*;

verus! {

pub const REG_GRAPHICS_MODE: u32 = 0x0400_0000;
pub const REG_BG_AFFINE: u32 = 0x0400_0000;
pub const REG_VCOUNT: u32 = 0x0400_0006;
pub const REG_BGCNT: u32 = 0x0400_0008;
pub const REG_BG_OFS: u32 = 0x0400_0010;
pub const REG_BG_VOFS: u32 = 0x0400_0012;
pub const REG_DATA_IN0: u32 = 0x0400_0120;
pub const REG_DATA_IN1: u32 = 0x0400_0122;
pub const REG_DATA_IN2: u32 = 0x0400_0124;
pub const REG_DATA_IN3: u32 = 0x0400_0126;
pub const REG_SIOCNT: u32 = 0x0400_0128;
pub const REG_DATA_OUT: u32 = 0x0400_012A;
pub const REG_KEY_INPUT: u32 = 0x0400_0130;
pub const REG_RCNT: u32 = 0x0400_0134;
pub const REG_IE: u32 = 0x0400_0200;
pub const REG_IME: u32 = 0x0400_0208;
pub const VRAM: u32 = 0x0600_0000;
pub const OAM: u32 = 0x0700_0000;

} // verus!
