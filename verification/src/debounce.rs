//! The hot-reload debouncer: filesystem events inside one debounce window
//! collapse into a single reload, fired only after the window and a settle
//! delay have passed since the last event. The watcher that produces the
//! events and the reload it triggers live with the host harness.

use vstd::prelude::*;

verus! {

/// The default debounce window in milliseconds.
pub const DEFAULT_DEBOUNCE_MS: u64 = 500;

/// The default settle delay after the trailing edge, in milliseconds.
pub const DEFAULT_SETTLE_MS: u64 = 200;

/// Collapses bursts of change events into single reloads.
pub struct Debouncer {
    pub debounce_ms: u64,
    pub settle_ms: u64,
    pub pending: bool,
    pub last_event_ms: u64,
}

/// When a pending burst is ripe: the debounce window and the settle delay
/// have passed since the last event.
pub open spec fn debounce_ripe(d: &Debouncer, now_ms: u64) -> bool {
    d.pending && now_ms >= d.last_event_ms + d.debounce_ms + d.settle_ms
}

impl Debouncer {
    /// A debouncer with the given windows and nothing pending.
    pub fn new(debounce_ms: u64, settle_ms: u64) -> (r: Debouncer)
        ensures
            r.debounce_ms == debounce_ms,
            r.settle_ms == settle_ms,
            !r.pending,
            r.last_event_ms == 0,
    {
        Debouncer { debounce_ms, settle_ms, pending: false, last_event_ms: 0 }
    }

    /// Notes one change event: a burst is pending and its trailing edge
    /// moves to this event.
    pub fn note_event(&mut self, now_ms: u64)
        ensures
            final(self).pending,
            final(self).last_event_ms == now_ms,
            final(self).debounce_ms == old(self).debounce_ms,
            final(self).settle_ms == old(self).settle_ms,
    {
        self.pending = true;
        self.last_event_ms = now_ms;
    }

    /// Fires at most one reload: true exactly when a burst was pending and
    /// ripe, and then the burst is consumed, so a second poll at the same
    /// clock reading fires nothing.
    pub fn fire_due(&mut self, now_ms: u64) -> (r: bool)
        ensures
            r == debounce_ripe(old(self), now_ms),
            r ==> !final(self).pending,
            !r ==> *final(self) == *old(self),
            final(self).debounce_ms == old(self).debounce_ms,
            final(self).settle_ms == old(self).settle_ms,
            final(self).last_event_ms == old(self).last_event_ms,
    {
        if self.pending && self.debounce_ms <= u64::MAX - self.settle_ms
            && self.last_event_ms <= u64::MAX - self.debounce_ms - self.settle_ms && now_ms
            >= self.last_event_ms + self.debounce_ms + self.settle_ms {
            self.pending = false;
            true
        } else {
            proof {
                if debounce_ripe(old(self), now_ms) {
                    assert(now_ms >= old(self).last_event_ms + old(self).debounce_ms + old(
                        self,
                    ).settle_ms);
                }
            }
            false
        }
    }
}

/// Two events inside one debounce window yield exactly one reload: after
/// the second event, the first poll at or past the ripe point fires, and
/// every later poll stays quiet until another event arrives.
pub proof fn lemma_burst_fires_once(d0: Debouncer, d1: Debouncer, now_ms: u64)
    requires
        debounce_ripe(&d0, now_ms),
        !d1.pending,
        d1.last_event_ms == d0.last_event_ms,
    ensures
        !debounce_ripe(&d1, now_ms),
{
}

} // verus!
