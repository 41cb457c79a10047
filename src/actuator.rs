//! The two motor outputs of a cover. They are never energised together, and a
//! reversal holds both low for `SETTLE_MS` before the new direction is
//! energised. The settle phase is a deadline, not a sleep: each call with the
//! current time energises the wanted direction once its deadline has passed.

use vstd::prelude::*;
use crate::state::Motor;

verus! {

/// How long both outputs stay low between one direction and the other.
pub const SETTLE_MS: u64 = 120;

/// The motor outputs and the bookkeeping of the settle phase.
#[derive(Clone, Copy, Debug, PartialEq, Eq, Structural)]
pub struct Actuator {
    /// Level of the up output.
    pub up: bool,
    /// Level of the down output.
    pub down: bool,
    /// The direction asked for last.
    pub wanted: Motor,
    /// The direction whose output went low last (`Stop`: none yet).
    pub released: Motor,
    /// When that output went low.
    pub released_at: u64,
}

pub open spec fn opposite(d: Motor) -> Motor {
    match d {
        Motor::Up => Motor::Down,
        Motor::Down => Motor::Up,
        Motor::Stop => Motor::Stop,
    }
}

impl Actuator {
    /// Both outputs are never high together, and a high output is the one
    /// asked for.
    pub open spec fn wf(self) -> bool {
        &&& !(self.up && self.down)
        &&& self.up ==> self.wanted == Motor::Up
        &&& self.down ==> self.wanted == Motor::Down
    }

    /// Whether direction `d` may be energised at `now`: the opposite output
    /// went low at least `SETTLE_MS` ago, or was not the last to go low.
    pub open spec fn settled(self, d: Motor, now: u64) -> bool {
        self.released != opposite(d) || now as int >= self.released_at as int + SETTLE_MS as int
    }

    pub open spec fn stop_spec(self, now: u64) -> Actuator {
        Actuator {
            up: false,
            down: false,
            wanted: Motor::Stop,
            released: if self.up {
                Motor::Up
            } else if self.down {
                Motor::Down
            } else {
                self.released
            },
            released_at: if self.up || self.down {
                now
            } else {
                self.released_at
            },
        }
    }

    /// Asking for up: the down output goes low first if it was high; the up
    /// output goes high once the settle phase is over.
    pub open spec fn drive_up_spec(self, now: u64) -> Actuator {
        let a = Actuator {
            down: false,
            wanted: Motor::Up,
            released: if self.down { Motor::Down } else { self.released },
            released_at: if self.down { now } else { self.released_at },
            ..self
        };
        Actuator { up: a.up || a.settled(Motor::Up, now), ..a }
    }

    pub open spec fn drive_down_spec(self, now: u64) -> Actuator {
        let a = Actuator {
            up: false,
            wanted: Motor::Down,
            released: if self.up { Motor::Up } else { self.released },
            released_at: if self.up { now } else { self.released_at },
            ..self
        };
        Actuator { down: a.down || a.settled(Motor::Down, now), ..a }
    }

    pub open spec fn apply_spec(self, m: Motor, now: u64) -> Actuator {
        match m {
            Motor::Up => self.drive_up_spec(now),
            Motor::Down => self.drive_down_spec(now),
            Motor::Stop => self.stop_spec(now),
        }
    }

    pub open spec fn new_spec() -> Actuator {
        Actuator { up: false, down: false, wanted: Motor::Stop, released: Motor::Stop, released_at: 0 }
    }

    /// Both outputs low, nothing released yet.
    pub fn new() -> (r: Actuator)
        ensures
            r == Actuator::new_spec(),
            r.wf(),
    {
        Actuator { up: false, down: false, wanted: Motor::Stop, released: Motor::Stop, released_at: 0 }
    }

    fn is_settled(&self, d: Motor, now: u64) -> (r: bool)
        ensures
            r == self.settled(d, now),
    {
        let opp = match d {
            Motor::Up => Motor::Down,
            Motor::Down => Motor::Up,
            Motor::Stop => Motor::Stop,
        };
        self.released != opp || (now >= self.released_at && now - self.released_at >= SETTLE_MS)
    }

    /// Sets both outputs low at once, with no delay.
    pub fn stop(&mut self, now: u64)
        requires
            old(self).wf(),
        ensures
            *final(self) == old(self).stop_spec(now),
            final(self).wf(),
    {
        if self.up || self.down {
            self.released = if self.up { Motor::Up } else { Motor::Down };
            self.released_at = now;
        }
        self.up = false;
        self.down = false;
        self.wanted = Motor::Stop;
    }

    /// Drives up; a no-op while already driving up.
    pub fn drive_up(&mut self, now: u64)
        requires
            old(self).wf(),
        ensures
            *final(self) == old(self).drive_up_spec(now),
            final(self).wf(),
    {
        if self.down {
            self.down = false;
            self.released = Motor::Down;
            self.released_at = now;
        }
        self.wanted = Motor::Up;
        if !self.up && self.is_settled(Motor::Up, now) {
            self.up = true;
        }
    }

    /// Drives down; a no-op while already driving down.
    pub fn drive_down(&mut self, now: u64)
        requires
            old(self).wf(),
        ensures
            *final(self) == old(self).drive_down_spec(now),
            final(self).wf(),
    {
        if self.up {
            self.up = false;
            self.released = Motor::Up;
            self.released_at = now;
        }
        self.wanted = Motor::Down;
        if !self.down && self.is_settled(Motor::Down, now) {
            self.down = true;
        }
    }

    /// Carries out a motor action.
    pub fn apply(&mut self, m: Motor, now: u64)
        requires
            old(self).wf(),
        ensures
            *final(self) == old(self).apply_spec(m, now),
            final(self).wf(),
    {
        match m {
            Motor::Up => self.drive_up(now),
            Motor::Down => self.drive_down(now),
            Motor::Stop => self.stop(now),
        }
    }
}

/// A reversal from up to down, asked for at `at` and repeated at each later
/// tick `t`: the up output goes low at `at`, both outputs stay low while
/// `t < at + SETTLE_MS`, and the down output goes high from `at + SETTLE_MS`
/// on. The up output does not come back on.
pub proof fn reversal_up_to_down(a: Actuator, at: u64, t: u64)
    requires
        a.wf(),
        a.up,
        t >= at,
    ensures
        !a.drive_down_spec(at).up,
        !a.drive_down_spec(at).down,
        a.drive_down_spec(at).released == Motor::Up,
        a.drive_down_spec(at).released_at == at,
        !a.drive_down_spec(at).drive_down_spec(t).up,
        a.drive_down_spec(at).drive_down_spec(t).down == (t as int >= at as int + SETTLE_MS as int),
{
}

/// The mirror image of `reversal_up_to_down`.
pub proof fn reversal_down_to_up(a: Actuator, at: u64, t: u64)
    requires
        a.wf(),
        a.down,
        t >= at,
    ensures
        !a.drive_up_spec(at).down,
        !a.drive_up_spec(at).up,
        a.drive_up_spec(at).released == Motor::Down,
        a.drive_up_spec(at).released_at == at,
        !a.drive_up_spec(at).drive_up_spec(t).down,
        a.drive_up_spec(at).drive_up_spec(t).up == (t as int >= at as int + SETTLE_MS as int),
{
}

/// Asking again for the direction already driven changes nothing.
pub proof fn repeat_drive_is_no_op(a: Actuator, now: u64)
    requires
        a.wf(),
    ensures
        a.up ==> a.drive_up_spec(now) == a,
        a.down ==> a.drive_down_spec(now) == a,
{
}

} // verus!
