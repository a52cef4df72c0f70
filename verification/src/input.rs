//! Per-action press/hold state machines implementing delayed auto-shift (DAS)
//! and auto-repeat rate (ARR), the constant-rate variant used for gravity,
//! and the lock-delay timer.
//!
//! All timers are pure elapsed-time comparisons over a monotonic timestamp in
//! milliseconds supplied by the caller; there is no background clock.

use vstd::prelude::*;

verus! {

/// Elapsed milliseconds from `last` to `now`, saturating at zero if `last`
/// lies in the future.
pub open spec fn spec_elapsed(last: u64, now: u64) -> int {
    if now >= last {
        now - last
    } else {
        0
    }
}

/// Phase of a held key: not held, held since the first tick, or held past the
/// DAS threshold and auto-repeating.
#[derive(PartialEq, Eq, Clone, Copy, Debug, Structural)]
pub enum KeyState {
    NPRESS,
    PRESS,
    DAS,
}

/// Configured DAS delay and ARR interval, in milliseconds.
#[derive(Clone, Copy, Debug, PartialEq, Eq, Structural)]
pub struct MotionConfig {
    pub das_delay: u64,
    pub arr: u64,
}

/// Press/hold state machine for one input action: fires immediately on a
/// fresh press, again once the DAS delay has elapsed, and then at the ARR
/// interval for as long as the key stays held.
#[derive(Clone, Copy, Debug, PartialEq, Eq)]
pub struct MotionState {
    pub key_state: KeyState,
    pub last_time: Option<u64>,
    pub config: MotionConfig,
}

impl MotionState {
    /// Whether one update with `(is_pressed, now)` reports "act now".
    /// The comparison is strict: an elapsed time exactly equal to the
    /// threshold does not yet fire.
    pub open spec fn spec_fires(self, is_pressed: bool, now: u64) -> bool {
        if !is_pressed {
            false
        } else {
            match self.key_state {
                KeyState::NPRESS => true,
                KeyState::PRESS => self.last_time matches Some(last)
                    && spec_elapsed(last, now) > self.config.das_delay,
                KeyState::DAS => self.last_time matches Some(last)
                    && spec_elapsed(last, now) > self.config.arr,
            }
        }
    }

    /// The state after one update with `(is_pressed, now)`: release resets to
    /// idle and clears the timestamp; a fresh press records `now`; a firing
    /// threshold crossing records `now` and enters (or stays in) auto-repeat.
    pub open spec fn spec_step(self, is_pressed: bool, now: u64) -> MotionState {
        if !is_pressed {
            MotionState { key_state: KeyState::NPRESS, last_time: Option::None, ..self }
        } else {
            match self.key_state {
                KeyState::NPRESS => MotionState {
                    key_state: KeyState::PRESS,
                    last_time: Option::Some(now),
                    ..self
                },
                KeyState::PRESS => if self.spec_fires(is_pressed, now) {
                    MotionState { key_state: KeyState::DAS, last_time: Option::Some(now), ..self }
                } else {
                    self
                },
                KeyState::DAS => if self.spec_fires(is_pressed, now) {
                    MotionState { key_state: KeyState::DAS, last_time: Option::Some(now), ..self }
                } else {
                    self
                },
            }
        }
    }

    pub fn new(das_delay: u64, arr: u64) -> (m: MotionState)
        ensures
            m.key_state == KeyState::NPRESS,
            m.last_time is None,
            m.config == (MotionConfig { das_delay, arr }),
    {
        MotionState {
            key_state: KeyState::NPRESS,
            last_time: None,
            config: MotionConfig { das_delay, arr },
        }
    }

    /// Overwrite the last-transition timestamp.
    pub fn reset_last(&mut self, time: u64)
        ensures
            *final(self) == (MotionState { last_time: Option::Some(time), ..*old(self) }),
    {
        self.last_time = Some(time);
    }

    /// One debounce step: report whether the action fires now, and advance
    /// the state machine accordingly.
    pub fn update(&mut self, is_pressed: bool, current_time: u64) -> (fires: bool)
        ensures
            fires == old(self).spec_fires(is_pressed, current_time),
            *final(self) == old(self).spec_step(is_pressed, current_time),
    {
        if !is_pressed {
            self.key_state = KeyState::NPRESS;
            self.last_time = None;
            return false;
        }
        match self.key_state {
            KeyState::NPRESS => {
                self.key_state = KeyState::PRESS;
                self.last_time = Some(current_time);
                true
            },
            KeyState::PRESS => {
                if let Some(last_time) = self.last_time {
                    let elapsed = if current_time >= last_time {
                        current_time - last_time
                    } else {
                        0
                    };
                    if elapsed > self.config.das_delay {
                        self.last_time = Some(current_time);
                        self.key_state = KeyState::DAS;
                        return true;
                    }
                }
                false
            },
            KeyState::DAS => {
                if let Some(last_time) = self.last_time {
                    let elapsed = if current_time >= last_time {
                        current_time - last_time
                    } else {
                        0
                    };
                    if elapsed > self.config.arr {
                        self.last_time = Some(current_time);
                        return true;
                    }
                }
                false
            },
        }
    }
}

/// A fresh press always fires on the very first held tick, whatever the
/// configured DAS delay and ARR interval.
pub proof fn lemma_fresh_press_fires(m: MotionState, now: u64)
    requires
        m.key_state == KeyState::NPRESS,
    ensures
        m.spec_fires(true, now),
{
}

/// Releasing a key and then pressing it again fires immediately at any later
/// time: no timestamp is carried over across the release.
pub proof fn lemma_release_then_press_refires(m: MotionState, t_release: u64, t_press: u64)
    ensures
        m.spec_step(false, t_release).spec_fires(true, t_press),
        m.spec_step(false, t_release).last_time is None,
{
}

/// Constant-rate variant of `MotionState`: the degenerate case DAS = ARR,
/// driven with a constantly-held key. Used for the gravity tick.
#[derive(Clone, Copy, Debug, PartialEq, Eq)]
pub struct ConstMotion {
    pub impl_motion: MotionState,
}

impl ConstMotion {
    /// Starts already in the held phase, with `now` as the reference
    /// timestamp, so the first firing comes one full period after `now`.
    pub fn new(delay: u64, now: u64) -> (c: ConstMotion)
        ensures
            c.impl_motion == (MotionState {
                key_state: KeyState::PRESS,
                last_time: Option::Some(now),
                config: MotionConfig { das_delay: delay, arr: delay },
            }),
    {
        ConstMotion {
            impl_motion: MotionState {
                key_state: KeyState::PRESS,
                last_time: Some(now),
                config: MotionConfig { das_delay: delay, arr: delay },
            },
        }
    }

    /// Restart the period from `time`.
    pub fn reset(&mut self, time: u64)
        ensures
            *final(self) == (ConstMotion {
                impl_motion: MotionState {
                    last_time: Option::Some(time),
                    ..old(self).impl_motion
                },
            }),
    {
        self.impl_motion.reset_last(time);
    }

    /// One tick: fires iff a full period has elapsed since the last firing.
    pub fn update(&mut self, current_time: u64) -> (fires: bool)
        ensures
            fires == old(self).impl_motion.spec_fires(true, current_time),
            final(self).impl_motion == old(self).impl_motion.spec_step(true, current_time),
    {
        self.impl_motion.update(true, current_time)
    }
}

/// Lock-delay timer: records when a piece first became unable to descend;
/// cleared whenever the piece descends again or settles.
#[derive(Clone, Copy, Debug, PartialEq, Eq)]
pub struct LockMgr {
    pub lock_delay: u64,
    pub lock_start_time: Option<u64>,
}

impl LockMgr {
    /// Whether the grounded piece's grace period has run out at `now`.
    /// Strict comparison: exactly `lock_delay` elapsed does not yet lock.
    pub open spec fn spec_locked(self, now: u64) -> bool {
        self.lock_start_time matches Some(start) && spec_elapsed(start, now) > self.lock_delay
    }

    pub fn new(delay: u64) -> (m: LockMgr)
        ensures
            m.lock_delay == delay,
            m.lock_start_time is None,
    {
        LockMgr { lock_delay: delay, lock_start_time: None }
    }

    /// Clear the timer: the piece moved, descended or settled.
    pub fn reset(&mut self)
        ensures
            *final(self) == (LockMgr { lock_start_time: Option::None, ..*old(self) }),
    {
        self.lock_start_time = None;
    }

    /// Start the timer at `now` unless it is already running; either way,
    /// return the running start time.
    pub fn start_if_not(&mut self, now: u64) -> (start: Option<u64>)
        ensures
            final(self).lock_delay == old(self).lock_delay,
            final(self).lock_start_time == if old(self).lock_start_time is Some {
                old(self).lock_start_time
            } else {
                Option::Some(now)
            },
            start == final(self).lock_start_time,
    {
        if self.lock_start_time.is_none() {
            self.lock_start_time = Some(now);
        }
        self.lock_start_time
    }

    /// Whether the piece must settle now.
    pub fn lock(&self, now: u64) -> (locked: bool)
        ensures
            locked == self.spec_locked(now),
    {
        if let Some(start) = self.lock_start_time {
            let elapsed = if now >= start {
                now - start
            } else {
                0
            };
            if elapsed > self.lock_delay {
                return true;
            }
        }
        false
    }
}

} // verus!
