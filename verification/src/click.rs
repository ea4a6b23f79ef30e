//! Double-click detection for the tray icon: two clicks within a threshold
//! count as one double click. Only the clock is read from outside; the
//! decision over the two instants is verified.

use vstd::prelude::*;

verus! {

/// The difference of two instants in milliseconds, clamped at zero when the
/// clock stepped backwards.
pub open spec fn spec_elapsed(now: u64, before: u64) -> u64 {
    if now >= before {
        (now - before) as u64
    } else {
        0
    }
}

/// Relies on std's `SystemTime::now` and `duration_since(UNIX_EPOCH)`:
/// milliseconds since the epoch, zero if the clock predates it. Nothing is
/// promised of the clock's value.
#[verifier::external_body]
fn now_millis() -> u64 {
    match std::time::SystemTime::now().duration_since(std::time::UNIX_EPOCH) {
        Ok(d) => d.as_millis() as u64,
        Err(_) => 0,
    }
}

/// The instant of the last click and the double-click threshold.
pub struct ClickState {
    pub last_click_time: u64,
    pub threshold_ms: u64,
}

impl ClickState {
    pub open spec fn spec_threshold(self) -> u64 {
        self.threshold_ms
    }

    /// A fresh state with the given threshold, 500 ms when none is given
    /// (the platform convention for double clicks). The last-click instant
    /// starts at the current clock reading.
    pub fn new(double_click_threshold_ms: Option<u64>) -> (r: ClickState)
        ensures
            r.spec_threshold() == (match double_click_threshold_ms {
                Some(t) => t,
                None => 500u64,
            }),
    {
        let threshold = match double_click_threshold_ms {
            Some(t) => t,
            None => 500,
        };
        ClickState { last_click_time: now_millis(), threshold_ms: threshold }
    }

    /// The decision over two instants: the second click of a double click
    /// falls strictly within the threshold of the first.
    pub fn is_double_click_at(&mut self, now_ms: u64) -> (r: bool)
        ensures
            final(self).last_click_time == now_ms,
            final(self).spec_threshold() == old(self).spec_threshold(),
            r == (spec_elapsed(now_ms, old(self).last_click_time) < old(self).spec_threshold()),
    {
        let elapsed = if now_ms >= self.last_click_time {
            now_ms - self.last_click_time
        } else {
            0
        };
        let is_double = elapsed < self.threshold_ms;
        self.last_click_time = now_ms;
        is_double
    }

    /// Record a click at the current instant and tell whether it completed a
    /// double click: the elapsed time since the previous click, clamped at
    /// zero, lies strictly within the threshold.
    pub fn is_double_click(&mut self) -> (r: bool)
        ensures
            final(self).spec_threshold() == old(self).spec_threshold(),
            r == (spec_elapsed(final(self).last_click_time, old(self).last_click_time) < old(
                self,
            ).spec_threshold()),
    {
        let now = now_millis();
        self.is_double_click_at(now)
    }
}

} // verus!
