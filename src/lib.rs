//! Memory management for a small fixed work-RAM region on a handheld console
//! without an operating system: a typed address wrapper, a chunk allocator with
//! address-ordered free and used lists, owning containers built on it, the
//! bit layouts of the display and input registers, and the conversion of RGB
//! images into palette-indexed sprite data.

pub mod ptr;
pub mod heap;
pub mod guarantees;
pub mod boxed;
pub mod collections;
pub mod graphics;
pub mod sprites;
pub mod reg;
pub mod tiled_bg;
pub mod input;
pub mod palette;
