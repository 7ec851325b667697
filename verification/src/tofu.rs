//! Trust on first use: a window after activation in which new keys are
//! trusted when they first connect.

use vstd::prelude::*;
use crate::time::{
    clock_reading, current_timestamp, whole_seconds_between, whole_seconds_since, wrap_i64,
    wrapped_as_i64, Timestamp,
};

verus! {

/// Default length of the trust-on-first-use window, in seconds.
pub const DEFAULT_TOFU_TIMEOUT_SECS: u64 = 45;

/// Whether trust on first use was switched on, when, and for how long.
#[derive(Debug, Clone, Copy)]
pub struct TofuState {
    pub active: bool,
    pub activated_at: Option<Timestamp>,
    pub timeout_sec: u64,
}

impl Default for TofuState {
    fn default() -> (r: Self)
        ensures
            r == (TofuState { active: false, activated_at: None, timeout_sec: DEFAULT_TOFU_TIMEOUT_SECS }),
    {
        TofuState { active: false, activated_at: None, timeout_sec: DEFAULT_TOFU_TIMEOUT_SECS }
    }
}

impl TofuState {
    /// The activation instant, if any, is a representable non-leap instant.
    pub open spec fn wf(self) -> bool {
        self.activated_at matches Some(t) ==> t.wf()
    }

    /// Whether the window is open at `now`: switched on, and fewer whole
    /// seconds than `timeout_sec as i64` have passed since activation.
    pub open spec fn active_at(self, now: Timestamp) -> bool {
        &&& self.active
        &&& match self.activated_at {
            Some(at) => whole_seconds_between(now, at) < wrap_i64(self.timeout_sec),
            None => false,
        }
    }

    /// Whether the window is open at `now`.
    pub fn is_active_at(&self, now: Timestamp) -> (r: bool)
        requires
            self.wf(),
            now.wf(),
        ensures
            r == self.active_at(now),
    {
        if !self.active {
            return false;
        }
        match self.activated_at {
            Some(at) => (whole_seconds_since(now, at) as i128) < wrapped_as_i64(self.timeout_sec),
            None => false,
        }
    }

    /// Whether the window is open now, by the system clock.
    pub fn is_active(&self) -> (r: bool)
        requires
            self.wf(),
        ensures
            exists|now: Timestamp| clock_reading(now) && r == self.active_at(now),
            !self.active ==> !r,
    {
        let now = current_timestamp();
        self.is_active_at(now)
    }

    /// Opens the window at `now` for `timeout_sec` seconds.
    pub fn activate_at(&mut self, timeout_sec: u64, now: Timestamp)
        ensures
            *final(self) == (TofuState { active: true, activated_at: Some(now), timeout_sec }),
    {
        self.active = true;
        self.activated_at = Some(now);
        self.timeout_sec = timeout_sec;
    }

    /// Opens the window now, by the system clock, for `timeout_sec` seconds.
    pub fn activate(&mut self, timeout_sec: u64)
        ensures
            final(self).active,
            final(self).timeout_sec == timeout_sec,
            final(self).activated_at matches Some(t) && clock_reading(t),
    {
        let now = current_timestamp();
        self.activate_at(timeout_sec, now);
    }

    /// Closes the window.
    pub fn deactivate(&mut self)
        ensures
            *final(self) == (TofuState {
                active: false,
                activated_at: None,
                timeout_sec: old(self).timeout_sec,
            }),
    {
        self.active = false;
        self.activated_at = None;
    }
}

} // verus!
