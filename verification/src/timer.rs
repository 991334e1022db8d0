//! The bookkeeping of the periodic timer that drives the exchange. Setting
//! and killing the timer is the operating system's part and the caller's.

use vstd::prelude::*;
use crate::error::TimerError;

verus! {

/// The handle of a periodic timer: the id the operating system gave it, or
/// zero while there is none.
pub struct NativeTimerWrapper {
    timer_id: u32,
}

impl View for NativeTimerWrapper {
    type V = u32;

    closed spec fn view(&self) -> u32 {
        self.timer_id
    }
}

impl NativeTimerWrapper {
    /// A handle without a timer.
    pub fn new() -> (r: NativeTimerWrapper)
        ensures
            r@ == 0,
    {
        NativeTimerWrapper { timer_id: 0 }
    }

    /// The id of the timer, zero while there is none.
    pub fn timer_id(&self) -> (r: u32)
        ensures
            r == self@,
    {
        self.timer_id
    }

    /// The period to ask of the operating system, in whole milliseconds,
    /// for a period in nanoseconds.
    pub fn period_ms(period_ns: u32) -> (r: u32)
        ensures
            r == period_ns / 1000000,
    {
        period_ns / 1000 / 1000
    }

    /// Takes the id that the operating system returned for the new timer.
    /// Zero means that none was created: the handle stays as it was.
    pub fn start(&mut self, timer_id: u32) -> (r: Result<bool, TimerError>)
        ensures
            timer_id == 0 ==> r == Err::<bool, TimerError>(TimerError::CreationFailed) && final(self)@ == old(self)@,
            timer_id != 0 ==> r == Ok::<bool, TimerError>(true) && final(self)@ == timer_id,
    {
        if timer_id == 0 {
            return Err(TimerError::CreationFailed);
        }
        self.timer_id = timer_id;
        Ok(true)
    }

    /// Whether closing has a timer to kill first.
    pub fn needs_kill(&self) -> (r: bool)
        ensures
            r == (self@ != 0),
    {
        self.timer_id != 0
    }

    /// Closes the handle. `kill_failed` says whether the operating system
    /// refused to kill the timer; it counts only where there was one.
    pub fn close(&mut self, kill_failed: bool) -> (r: Result<(), TimerError>)
        ensures
            final(self)@ == old(self)@,
            r == if old(self)@ != 0 && kill_failed {
                Err::<(), TimerError>(TimerError::DeleteFailed)
            } else {
                Ok::<(), TimerError>(())
            },
    {
        if self.timer_id != 0 && kill_failed {
            return Err(TimerError::DeleteFailed);
        }
        Ok(())
    }
}

} // verus!
