//! Display-facing values: the message and option screens handed to the
//! renderer, and the staleness rule for live readings.
//!
//! Rendering itself is the display driver's business; these types only
//! carry what it draws.

use vstd::prelude::*;

verus! {

/// A single status message to show full-screen.
pub struct MsgDisplay<'a>(pub &'a str);

impl<'a> MsgDisplay<'a> {
    pub fn new(msg: &'a str) -> (r: MsgDisplay<'a>)
        ensures
            r.0@ == msg@,
    {
        MsgDisplay(msg)
    }
}

/// A numbered list of choices to show, one per button.
pub struct OptionDisplay<'a, 'b>(pub &'a [&'b str]);

impl<'a, 'b> OptionDisplay<'a, 'b> {
    pub fn new(opts: &'a [&'b str]) -> (r: OptionDisplay<'a, 'b>)
        ensures
            r.0@ == opts@,
    {
        OptionDisplay(opts)
    }
}

/// Drops a timestamped reading once it is more than five seconds old, so
/// a stalled sensor shows as absent rather than frozen. Timestamps are
/// milliseconds on the caller's monotonic clock.
pub fn none_if_stale<T>(x: (T, u64), now_ms: u64) -> (r: Option<(T, u64)>)
    requires
        x.1 <= now_ms,
    ensures
        now_ms - x.1 > 5000 ==> r is None,
        now_ms - x.1 <= 5000 ==> r == Some(x),
{
    if now_ms - x.1 > 5000 {
        None
    } else {
        Some(x)
    }
}

} // verus!

