use vstd::prelude::*;

verus! {

/// The toggle signal after a hotkey event: a press of the registered hotkey
/// flips it; any other event leaves it.
pub fn toggled_signal(current: bool, event_id: u32, hotkey_id: u32, pressed: bool) -> (r: bool)
    ensures
        r == if event_id == hotkey_id && pressed {
            !current
        } else {
            current
        },
{
    if event_id == hotkey_id && pressed {
        !current
    } else {
        current
    }
}

} // verus!
