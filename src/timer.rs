use vstd::prelude::*;

verus! {

/// A repeating countdown over nanoseconds.
///
/// Each `tick` adds the elapsed time; the timer is `finished` on a tick that reaches its duration,
/// and then starts over with what was left beyond it.
#[derive(Clone, Copy, Debug, PartialEq, Eq, Structural)]
pub struct AnimationTimer {
    pub duration: u64,
    pub elapsed: u64,
    pub finished: bool,
}

impl AnimationTimer {
    pub open spec fn new_spec(duration: u64) -> AnimationTimer {
        AnimationTimer { duration, elapsed: 0, finished: false }
    }

    /// The timer after `delta` more nanoseconds (elapsed time saturates at the largest `u64`).
    pub open spec fn ticked(self, delta: u64) -> AnimationTimer {
        let total: u64 = if self.elapsed + delta > u64::MAX {
            u64::MAX
        } else {
            (self.elapsed + delta) as u64
        };
        if total >= self.duration {
            AnimationTimer {
                duration: self.duration,
                elapsed: if self.duration == 0 {
                    0
                } else {
                    (total % self.duration) as u64
                },
                finished: true,
            }
        } else {
            AnimationTimer { duration: self.duration, elapsed: total, finished: false }
        }
    }

    pub fn from_nanos(duration: u64) -> (r: AnimationTimer)
        ensures
            r == AnimationTimer::new_spec(duration),
    {
        AnimationTimer { duration, elapsed: 0, finished: false }
    }

    pub fn tick(&mut self, delta: u64)
        ensures
            *final(self) == old(self).ticked(delta),
    {
        let total: u64 = self.elapsed.saturating_add(delta);
        if total >= self.duration {
            self.elapsed = if self.duration == 0 {
                0
            } else {
                total % self.duration
            };
            self.finished = true;
        } else {
            self.elapsed = total;
            self.finished = false;
        }
    }

    pub fn finished(&self) -> (r: bool)
        ensures
            r == self.finished,
    {
        self.finished
    }

    pub fn reset(&mut self)
        ensures
            *final(self) == AnimationTimer::new_spec(old(self).duration),
    {
        self.elapsed = 0;
        self.finished = false;
    }

    pub fn set_duration(&mut self, duration: u64)
        ensures
            *final(self) == (AnimationTimer { duration, ..*old(self) }),
    {
        self.duration = duration;
    }
}

} // verus!
