//! ASCII bytes with a role in the line protocol.

use vstd::prelude::*;

verus! {

/// `#`: start of a line; also discards a partially received line.
pub const FRAME_START: u8 = 0x23;

/// `:`: separates DST from TEXT.
pub const COLON: u8 = 0x3a;

/// `\`: starts an escape sequence in TEXT.
pub const BACKSLASH: u8 = 0x5c;

/// `\n`: line ending.
pub const LF: u8 = 0x0a;

/// `\r`: line ending.
pub const CR: u8 = 0x0d;

} // verus!
