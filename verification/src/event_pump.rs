use vstd::prelude::*;

verus! {

/// The most pending GTK events that one tick of the event pump handles.
pub const MAX_EVENTS_PER_TICK: u32 = 4;

/// One decision of the event pump that runs on every timer tick while a
/// webview is embedded under X11. `handled` events were handled so far in this
/// tick and `pending` tells whether GTK has more waiting. Returns the count
/// after handling one more, or `None` when the tick is over.
pub fn pump_step(handled: u32, pending: bool) -> (next: Option<u32>)
    ensures
        next == (if pending && handled < MAX_EVENTS_PER_TICK {
            Some((handled + 1) as u32)
        } else {
            None::<u32>
        }),
        next matches Some(n) ==> n <= MAX_EVENTS_PER_TICK,
{
    if pending && handled < MAX_EVENTS_PER_TICK {
        Some(handled + 1)
    } else {
        None
    }
}

} // verus!
