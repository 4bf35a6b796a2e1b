//! Boot-protocol keyboard input reports (8 bytes: modifiers, reserved, six keys).

use vstd::prelude::*;

verus! {

/// How long a key is held down (ms) so that the host registers the press.
pub const KEY_HOLD_MS: u64 = 20;

/// Gap between keystrokes (ms) so that the host can tell repetitions apart.
pub const KEY_GAP_MS: u64 = 10;

/// The input report that presses `keycode` with the modifier bits `modifier`.
pub fn key_down_report(modifier: u8, keycode: u8) -> (r: [u8; 8])
    ensures
        r@ == seq![modifier, 0u8, keycode, 0u8, 0u8, 0u8, 0u8, 0u8],
{
    let r = [modifier, 0x00, keycode, 0, 0, 0, 0, 0];
    assert(r@ =~= seq![modifier, 0u8, keycode, 0u8, 0u8, 0u8, 0u8, 0u8]);
    r
}

/// The input report that releases every key and modifier.
pub fn key_up_report() -> (r: [u8; 8])
    ensures
        r@ == seq![0u8, 0u8, 0u8, 0u8, 0u8, 0u8, 0u8, 0u8],
{
    let r = [0u8; 8];
    assert(r@ =~= seq![0u8, 0u8, 0u8, 0u8, 0u8, 0u8, 0u8, 0u8]);
    r
}

} // verus!
