//! Addressing rules for Serial Presence Detect (SPD) EEPROMs as laid down by
//! EE1004: the 7-bit device select codes of the logical functions, the two
//! 256-byte pages of the 512-byte SPD image, and the byte offsets of the
//! fields stored in it.

use vstd::prelude::*;

pub mod function;
pub mod offset;
pub mod page;

pub use function::Function;
pub use offset::Offset;
pub use page::Page;

verus! {

/// Number of devices that can share one bus.
pub const MAX_DEVICES: u8 = 8;

/// Size in bytes of the whole SPD image.
pub const MAX_SIZE: usize = 512;

/// Size in bytes of one page of the SPD image.
pub const PAGE_SIZE: usize = 256;

} // verus!
