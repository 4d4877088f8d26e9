//! The global hot keys: left arrow records system sound, right arrow the microphone,
//! each for as long as it is held.

use vstd::prelude::*;

verus! {

/// A hot-key event the interface reacts to.
#[derive(Clone, Copy, Debug, PartialEq, Eq, Structural)]
pub enum HotkeyAction {
    LoopbackPress,
    LoopbackRelease,
    MicPress,
    MicRelease,
}

/// The action for a key event: `pressed` tells press from release, `id` is the key that
/// changed, `left_id` and `right_id` the registered left and right arrow keys.
pub open spec fn spec_hotkey_action(pressed: bool, id: u32, left_id: u32, right_id: u32) -> Option<HotkeyAction> {
    if id == left_id {
        Some(if pressed { HotkeyAction::LoopbackPress } else { HotkeyAction::LoopbackRelease })
    } else if id == right_id {
        Some(if pressed { HotkeyAction::MicPress } else { HotkeyAction::MicRelease })
    } else {
        None
    }
}

/// Maps a key event to its action (see `spec_hotkey_action`).
pub fn hotkey_action(pressed: bool, id: u32, left_id: u32, right_id: u32) -> (r: Option<HotkeyAction>)
    ensures
        r == spec_hotkey_action(pressed, id, left_id, right_id),
{
    if pressed && id == left_id {
        Some(HotkeyAction::LoopbackPress)
    } else if !pressed && id == left_id {
        Some(HotkeyAction::LoopbackRelease)
    } else if pressed && id == right_id {
        Some(HotkeyAction::MicPress)
    } else if !pressed && id == right_id {
        Some(HotkeyAction::MicRelease)
    } else {
        None
    }
}

} // verus!
