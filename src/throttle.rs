use vstd::prelude::*;

verus! {

/// Distance between two instants, in seconds.
pub open spec fn distance(a: int, b: int) -> int {
    if a >= b {
        a - b
    } else {
        b - a
    }
}

/// A restart is allowed when none was recorded, or when the last one lies
/// strictly more than `cooldown` seconds away from `now`.
pub open spec fn restart_allowed(last_restart: Option<i64>, cooldown: u32, now: i64) -> bool {
    match last_restart {
        None => true,
        Some(t) => distance(now as int, t as int) > cooldown,
    }
}

/// Whether the restart control is offered. Instants are seconds on the
/// local wall clock.
pub fn is_restart_allowed(last_restart: Option<i64>, cooldown_seconds: u32, now: i64) -> (r: bool)
    ensures
        r == restart_allowed(last_restart, cooldown_seconds, now),
{
    match last_restart {
        None => true,
        Some(t) => {
            let d: i128 = now as i128 - t as i128;
            let a: i128 = if d < 0 {
                -d
            } else {
                d
            };
            a > cooldown_seconds as i128
        },
    }
}

/// Restart bookkeeping: when the managed container was last restarted.
pub struct RestartRecord {
    pub last_restart: Option<i64>,
}

impl RestartRecord {
    /// No restart recorded yet.
    pub fn new() -> (r: RestartRecord)
        ensures
            r.last_restart is None,
    {
        RestartRecord { last_restart: None }
    }

    /// Records a restart that has completed at `now`.
    pub fn stamp(&mut self, now: i64)
        ensures
            final(self).last_restart == Some(now),
    {
        self.last_restart = Some(now);
    }

    /// Whether a new restart is offered at `now`.
    pub fn allows_restart(&self, cooldown_seconds: u32, now: i64) -> (r: bool)
        ensures
            r == restart_allowed(self.last_restart, cooldown_seconds, now),
    {
        is_restart_allowed(self.last_restart, cooldown_seconds, now)
    }
}

} // verus!
