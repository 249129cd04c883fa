//! Staying connected: whether the agent may run after its first connection
//! attempts, and when a server that reported a disconnection is connected
//! to again (at most once every five seconds per server).
use vstd::prelude::*;
use crate::cli::Family;

verus! {

/// The least time between two connection attempts to the same server, in ms.
pub const RECONNECT_COOLDOWN_MS: u64 = 5000;

/// The agent runs on when at least one server accepted it.
pub fn may_run(v4_ok: bool, v6_ok: bool) -> (r: bool)
    ensures
        r == (v4_ok || v6_ok),
{
    v4_ok || v6_ok
}

/// When each server was last connected to, in ms of a monotonic clock.
pub ghost struct ReconnectView {
    pub last_v4: u64,
    pub last_v6: u64,
}

pub open spec fn last_of(s: ReconnectView, f: Family) -> u64 {
    match f {
        Family::V4 => s.last_v4,
        Family::V6 => s.last_v6,
    }
}

/// The time since `last`, 0 if the clock reads earlier.
pub open spec fn elapsed(last: u64, now: u64) -> int {
    if now >= last {
        now - last
    } else {
        0
    }
}

/// What a disconnection of `f` at `now` does: a new attempt (recorded at
/// `now`) when the last one is at least the cooldown old, else nothing.
pub open spec fn on_disconnect_spec(s: ReconnectView, f: Family, now: u64) -> (ReconnectView, bool) {
    if elapsed(last_of(s, f), now) < RECONNECT_COOLDOWN_MS {
        (s, false)
    } else {
        (
            match f {
                Family::V4 => ReconnectView { last_v4: now, ..s },
                Family::V6 => ReconnectView { last_v6: now, ..s },
            },
            true,
        )
    }
}

/// The reconnection throttle.
pub struct Reconnector {
    last_v4: u64,
    last_v6: u64,
}

impl View for Reconnector {
    type V = ReconnectView;

    closed spec fn view(&self) -> ReconnectView {
        ReconnectView { last_v4: self.last_v4, last_v6: self.last_v6 }
    }
}

impl Reconnector {
    /// The throttle right after the first connection attempts, made at `now_ms`.
    pub fn new(now_ms: u64) -> (r: Reconnector)
        ensures
            r@ == (ReconnectView { last_v4: now_ms, last_v6: now_ms }),
    {
        Reconnector { last_v4: now_ms, last_v6: now_ms }
    }

    /// Server `f` reported a disconnection at `now_ms`: whether to connect to
    /// it again now.
    pub fn on_disconnect(&mut self, f: Family, now_ms: u64) -> (r: bool)
        ensures
            (final(self)@, r) == on_disconnect_spec(old(self)@, f, now_ms),
    {
        let last = match f {
            Family::V4 => self.last_v4,
            Family::V6 => self.last_v6,
        };
        let since = if now_ms >= last {
            now_ms - last
        } else {
            0
        };
        if since < RECONNECT_COOLDOWN_MS {
            false
        } else {
            match f {
                Family::V4 => self.last_v4 = now_ms,
                Family::V6 => self.last_v6 = now_ms,
            }
            true
        }
    }
}

/// After an attempt to reconnect a server, every disconnection it reports
/// in the next five seconds is ignored, and the other server's throttle is
/// left as it was.
pub proof fn law_reconnect_cooldown(s: ReconnectView, f: Family, t: u64, t2: u64, g: Family, t3: u64)
    requires
        on_disconnect_spec(s, f, t).1,
        t <= t2 < t + RECONNECT_COOLDOWN_MS,
        g != f,
    ensures
        !on_disconnect_spec(on_disconnect_spec(s, f, t).0, f, t2).1,
        on_disconnect_spec(on_disconnect_spec(s, f, t).0, g, t3).1 == on_disconnect_spec(s, g, t3).1,
{
}

/// A reconnection is attempted exactly when five seconds or more have
/// passed since the last attempt to the same server (or since start).
pub proof fn law_reconnect_when_cooled_down(s: ReconnectView, f: Family, now: u64)
    ensures
        on_disconnect_spec(s, f, now).1 <==> now >= last_of(s, f) + RECONNECT_COOLDOWN_MS,
        on_disconnect_spec(s, f, now).1 ==> last_of(on_disconnect_spec(s, f, now).0, f) == now,
{
}

} // verus!
