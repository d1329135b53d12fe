use vstd::prelude::*;
use crate::dev::vga::{VGA_HEIGHT, VGA_WIDTH};

verus! {

/// First address of the framebuffer.
pub const ADDR: u64 = 0xb8000;

/// Size of the framebuffer window: three bytes for each pixel.
pub const SIZE: u64 = 3 * VGA_WIDTH * VGA_HEIGHT;

/// Last address of the framebuffer window (inclusive).
pub const END: u64 = ADDR + SIZE;

} // verus!
