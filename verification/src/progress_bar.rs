//! The doubling progress gauge.
//!
//! A chat stream has no known length, so the gauge grows toward a moving
//! maximum: whenever the position reaches the current maximum the maximum
//! doubles, and when the position falls to half of it the maximum halves.
//! This module keeps the gauge's counters and their exact update rules; how a
//! terminal draws them is not this crate's concern.

use vstd::prelude::*;
use vstd::string::StringExecFns;
use crate::errors::AiCriticError;

verus! {

/// The maximum a fresh gauge starts with.
pub const STARTING_MAX: u64 = 50;

/// An open-ended progress gauge: a named position under a doubling maximum.
#[derive(Debug, Clone)]
pub struct DoublingProgressBar {
    pub name: String,
    pub current_progress: u64,
    pub max_value: u64,
}

/// The gauge after one step forward: the position grows by one and the
/// maximum doubles when the position has caught up with it.
pub open spec fn spec_inc(pb: DoublingProgressBar) -> DoublingProgressBar {
    let cur = (pb.current_progress + 1) as u64;
    DoublingProgressBar {
        current_progress: cur,
        max_value: if cur >= pb.max_value {
            (2 * pb.max_value) as u64
        } else {
            pb.max_value
        },
        ..pb
    }
}

/// The gauge after one step back: at zero nothing changes; otherwise the
/// position shrinks by one and the maximum halves (to no less than one) when
/// the position has fallen to half of it.
pub open spec fn spec_dec(pb: DoublingProgressBar) -> DoublingProgressBar {
    if pb.current_progress == 0 {
        pb
    } else {
        let cur = (pb.current_progress - 1) as u64;
        let half = pb.max_value / 2;
        DoublingProgressBar {
            current_progress: cur,
            max_value: if cur <= half {
                if half >= 1 {
                    half
                } else {
                    1
                }
            } else {
                pb.max_value
            },
            ..pb
        }
    }
}

/// The gauge after a reset: position zero under the starting maximum.
pub open spec fn spec_reset(pb: DoublingProgressBar) -> DoublingProgressBar {
    DoublingProgressBar { current_progress: 0, max_value: STARTING_MAX, ..pb }
}

impl DoublingProgressBar {
    /// A fresh gauge under the given name.
    pub fn new(name: &str) -> (r: Result<DoublingProgressBar, AiCriticError>)
        ensures
            r matches Ok(pb) && pb.name@ == name@ && pb.current_progress == 0 && pb.max_value
                == STARTING_MAX,
    {
        Ok(DoublingProgressBar {
            name: String::from_str(name),
            current_progress: 0,
            max_value: STARTING_MAX,
        })
    }

    /// One step forward.
    pub fn inc(&mut self)
        requires
            old(self).current_progress < u64::MAX,
            old(self).max_value <= u64::MAX / 2,
        ensures
            *final(self) == spec_inc(*old(self)),
    {
        self.current_progress = self.current_progress + 1;
        if self.current_progress >= self.max_value {
            self.max_value = self.max_value * 2;
        }
    }

    /// One step back.
    pub fn dec(&mut self)
        ensures
            *final(self) == spec_dec(*old(self)),
    {
        if self.current_progress == 0 {
            return ;
        }
        self.current_progress = self.current_progress - 1;
        if self.current_progress <= self.max_value / 2 {
            self.max_value = self.max_value / 2;
            if self.max_value < 1 {
                self.max_value = 1;
            }
        }
    }

    /// Back to the starting state, keeping the name.
    pub fn reset_to_zero(&mut self)
        ensures
            *final(self) == spec_reset(*old(self)),
    {
        self.current_progress = 0;
        self.max_value = STARTING_MAX;
    }
}

} // verus!
