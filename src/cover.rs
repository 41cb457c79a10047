//! One cover: its configuration, its runtime state, its pending command and
//! its motor outputs.

use vstd::prelude::*;
use crate::actuator::Actuator;
use crate::bus::{at_most_once_filter, subscribe_at_most_once};
use crate::position::{
    decimal, estimate, estimate_bounds, estimate_spec, percent_text, valid_position, whole_percent,
    FULLY_OPEN,
};
use crate::state::{motor_for, motor_of, step, step_spec, Payload, State};

verus! {

/// Why a cover, or a set of covers, cannot be built.
#[derive(Clone, Copy, Debug, PartialEq, Eq, Structural)]
pub enum ConfigError {
    /// A pin is used twice.
    DuplicatePin,
    /// A travel-time limit is zero.
    ZeroTravelTime,
    /// Two covers share a base topic.
    DuplicateTopic,
}

/// A cover. Times are milliseconds on a clock that the caller reads.
pub struct Cover {
    pub up_motor_pin: u8,
    pub down_motor_pin: u8,
    pub up_limit_pin: u8,
    pub down_limit_pin: u8,
    pub up_time_limit_ms: u64,
    pub down_time_limit_ms: u64,
    pub base_topic: String,
    pub state: State,
    /// When the current state began.
    pub state_start_ms: u64,
    /// Hundredths of a percent; `None` until a limit has been seen or a
    /// traverse estimated.
    pub position: Option<u32>,
    /// The latest command not yet handled; a newer one replaces it.
    pub pending: Option<Payload>,
    pub actuator: Actuator,
}

pub open spec fn pins_distinct(a: u8, b: u8, c: u8, d: u8) -> bool {
    a != b && a != c && a != d && b != c && b != d && c != d
}

/// The time spent in a state that began at `start`; zero if the clock reads
/// earlier than that.
pub open spec fn elapsed_spec(start: u64, now: u64) -> u64 {
    if now >= start { (now - start) as u64 } else { 0 }
}

/// The text published when the position goes from `before` to `after`.
pub open spec fn publish_spec(before: Option<u32>, after: Option<u32>) -> Option<Seq<u8>> {
    match after {
        Some(p) => if before != after { Some(decimal(whole_percent(p))) } else { None },
        None => None,
    }
}

impl Cover {
    pub open spec fn wf(self) -> bool {
        &&& pins_distinct(self.up_motor_pin, self.down_motor_pin, self.up_limit_pin, self.down_limit_pin)
        &&& self.up_time_limit_ms > 0
        &&& self.down_time_limit_ms > 0
        &&& valid_position(self.position)
        &&& self.actuator.wf()
    }

    /// The cover after one tick at `now` with the given sensor readings.
    pub open spec fn tick_spec(self, up_pressed: bool, down_pressed: bool, now: u64) -> Cover {
        let elapsed = elapsed_spec(self.state_start_ms, now);
        let s = step_spec(
            self.state,
            up_pressed,
            down_pressed,
            elapsed,
            self.up_time_limit_ms,
            self.down_time_limit_ms,
            self.pending,
        );
        let pending = if s.consumed { None } else { self.pending };
        let (state, start, position) = match s.next {
            Some(next) => (
                next,
                now,
                estimate_spec(
                    self.position,
                    self.state,
                    next,
                    elapsed,
                    self.up_time_limit_ms,
                    self.down_time_limit_ms,
                ),
            ),
            None => (self.state, self.state_start_ms, self.position),
        };
        Cover {
            state,
            state_start_ms: start,
            position,
            pending,
            actuator: self.actuator.apply_spec(motor_of(state), now),
            ..self
        }
    }

    /// A cover in the Initial state at `now_ms`, position unknown, motors
    /// stopped. The four pins must differ and both limits be non-zero.
    pub fn new(
        up_motor_pin: u8,
        down_motor_pin: u8,
        up_limit_pin: u8,
        down_limit_pin: u8,
        up_time_limit_ms: u64,
        down_time_limit_ms: u64,
        base_topic: String,
        now_ms: u64,
    ) -> (r: Result<Cover, ConfigError>)
        ensures
            r == Err::<Cover, ConfigError>(ConfigError::DuplicatePin) <==> !pins_distinct(
                up_motor_pin,
                down_motor_pin,
                up_limit_pin,
                down_limit_pin,
            ),
            r == Err::<Cover, ConfigError>(ConfigError::ZeroTravelTime) <==> (pins_distinct(
                up_motor_pin,
                down_motor_pin,
                up_limit_pin,
                down_limit_pin,
            ) && (up_time_limit_ms == 0 || down_time_limit_ms == 0)),
            r is Ok <==> (pins_distinct(up_motor_pin, down_motor_pin, up_limit_pin, down_limit_pin)
                && up_time_limit_ms > 0 && down_time_limit_ms > 0),
            r is Ok ==> ({
                let c = r->Ok_0;
                &&& c.wf()
                &&& c.up_motor_pin == up_motor_pin
                &&& c.down_motor_pin == down_motor_pin
                &&& c.up_limit_pin == up_limit_pin
                &&& c.down_limit_pin == down_limit_pin
                &&& c.up_time_limit_ms == up_time_limit_ms
                &&& c.down_time_limit_ms == down_time_limit_ms
                &&& c.base_topic == base_topic
                &&& c.state == State::Initial
                &&& c.state_start_ms == now_ms
                &&& c.position is None
                &&& c.pending is None
                &&& c.actuator == Actuator::new_spec()
            }),
    {
        if !(up_motor_pin != down_motor_pin && up_motor_pin != up_limit_pin
            && up_motor_pin != down_limit_pin && down_motor_pin != up_limit_pin
            && down_motor_pin != down_limit_pin && up_limit_pin != down_limit_pin) {
            return Err(ConfigError::DuplicatePin);
        }
        if up_time_limit_ms == 0 || down_time_limit_ms == 0 {
            return Err(ConfigError::ZeroTravelTime);
        }
        Ok(Cover {
            up_motor_pin,
            down_motor_pin,
            up_limit_pin,
            down_limit_pin,
            up_time_limit_ms,
            down_time_limit_ms,
            base_topic,
            state: State::Initial,
            state_start_ms: now_ms,
            position: None,
            pending: None,
            actuator: Actuator::new(),
        })
    }

    /// The base topic the cover listens on.
    pub fn topic(&self) -> (r: &str)
        ensures
            r@ == self.base_topic@,
    {
        self.base_topic.as_str()
    }

    /// The subscription for the cover's base topic.
    pub fn subscribe_filter(&self) -> (r: rumqttc::SubscribeFilter)
        ensures
            r == at_most_once_filter(self.base_topic@),
    {
        subscribe_at_most_once(self.base_topic.clone())
    }

    /// The topic the position is published on: the base topic followed by
    /// `/position`.
    pub fn position_topic(&self) -> (r: String)
        ensures
            r@ == self.base_topic@ + "/position"@,
    {
        self.base_topic.clone().concat("/position")
    }

    /// Queues a command for the next tick. The queue holds one command: a
    /// newer one replaces any command still pending, since only the latest
    /// intent matters.
    pub fn payload(&mut self, payload: Payload)
        ensures
            *final(self) == (Cover { pending: Some(payload), ..*old(self) }),
    {
        self.pending = Some(payload);
    }

    /// Sets both motor outputs low at once.
    pub fn motor_stop(&mut self, now_ms: u64)
        requires
            old(self).wf(),
        ensures
            *final(self) == (Cover { actuator: old(self).actuator.stop_spec(now_ms), ..*old(self) }),
            final(self).wf(),
    {
        self.actuator.stop(now_ms);
    }

    /// The text of the current position, if known.
    pub fn position_payload(&self) -> (r: Option<Vec<u8>>)
        requires
            self.wf(),
        ensures
            match self.position {
                Some(p) => r is Some && r->Some_0@ == decimal(whole_percent(p)),
                None => r is None,
            },
    {
        match self.position {
            Some(p) => Some(percent_text(p)),
            None => None,
        }
    }

    /// One control tick at `now_ms`: reads the two limit sensors and the
    /// pending command, moves to the next state, updates the position
    /// estimate and the motor outputs. Returns the text to publish when the
    /// position estimate changed.
    pub fn tick(&mut self, up_pressed: bool, down_pressed: bool, now_ms: u64) -> (r: Option<Vec<u8>>)
        requires
            old(self).wf(),
        ensures
            *final(self) == old(self).tick_spec(up_pressed, down_pressed, now_ms),
            final(self).wf(),
            match publish_spec(old(self).position, final(self).position) {
                Some(t) => r is Some && r->Some_0@ == t,
                None => r is None,
            },
    {
        let before = self.position;
        let elapsed: u64 = if now_ms >= self.state_start_ms {
            now_ms - self.state_start_ms
        } else {
            0
        };
        let s = step(
            self.state,
            up_pressed,
            down_pressed,
            elapsed,
            self.up_time_limit_ms,
            self.down_time_limit_ms,
            self.pending,
        );
        if s.consumed {
            self.pending = None;
        }
        match s.next {
            Some(next) => {
                self.position = estimate(
                    self.position,
                    self.state,
                    next,
                    elapsed,
                    self.up_time_limit_ms,
                    self.down_time_limit_ms,
                );
                self.state = next;
                self.state_start_ms = now_ms;
            },
            None => {},
        }
        let m = motor_for(self.state);
        self.actuator.apply(m, now_ms);
        match self.position {
            Some(p) => {
                if before != self.position {
                    Some(percent_text(p))
                } else {
                    None
                }
            },
            None => None,
        }
    }
}

/// From any state but Error, a tick on which both limit sensors read pressed
/// moves the cover to Error and leaves both motor outputs low, whatever
/// command is pending.
pub proof fn contradiction_forces_error(c: Cover, now: u64)
    requires
        c.wf(),
        c.state != State::Error,
    ensures
        c.tick_spec(true, true, now).state == State::Error,
        !c.tick_spec(true, true, now).actuator.up,
        !c.tick_spec(true, true, now).actuator.down,
{
}

/// Error is absorbing: no tick leaves it, and the motors stay stopped.
pub proof fn error_is_absorbing(c: Cover, up_pressed: bool, down_pressed: bool, now: u64)
    requires
        c.wf(),
        c.state == State::Error,
    ensures
        c.tick_spec(up_pressed, down_pressed, now).state == State::Error,
        c.tick_spec(up_pressed, down_pressed, now).pending is None,
        !c.tick_spec(up_pressed, down_pressed, now).actuator.up,
        !c.tick_spec(up_pressed, down_pressed, now).actuator.down,
{
}

/// Opening past the up travel-time limit with the up-limit sensor silent
/// moves the cover to Open at that tick, position fully open and motors
/// stopped; no later tick moves it to Open again.
pub proof fn timeout_opens_once(c: Cover, now: u64, later: u64, up_later: bool, down_later: bool)
    requires
        c.wf(),
        c.state == State::Opening,
        elapsed_spec(c.state_start_ms, now) > c.up_time_limit_ms,
        later >= now,
    ensures
        ({
            let c1 = c.tick_spec(false, false, now);
            &&& c1.state == State::Open
            &&& c1.state_start_ms == now
            &&& c1.position == Some(FULLY_OPEN)
            &&& !c1.actuator.up && !c1.actuator.down
            &&& step_spec(
                c1.state,
                up_later,
                down_later,
                elapsed_spec(c1.state_start_ms, later),
                c1.up_time_limit_ms,
                c1.down_time_limit_ms,
                c1.pending,
            ).next != Some(State::Open)
        }),
{
}

/// Every tick keeps the estimate between fully closed and fully open, and
/// the two motor outputs are never high together.
pub proof fn tick_keeps_invariants(c: Cover, up_pressed: bool, down_pressed: bool, now: u64)
    requires
        c.wf(),
    ensures
        c.tick_spec(up_pressed, down_pressed, now).wf(),
        valid_position(c.tick_spec(up_pressed, down_pressed, now).position),
        !(c.tick_spec(up_pressed, down_pressed, now).actuator.up && c.tick_spec(
            up_pressed,
            down_pressed,
            now,
        ).actuator.down),
{
    let elapsed = elapsed_spec(c.state_start_ms, now);
    let s = step_spec(
        c.state,
        up_pressed,
        down_pressed,
        elapsed,
        c.up_time_limit_ms,
        c.down_time_limit_ms,
        c.pending,
    );
    if let Some(next) = s.next {
        estimate_bounds(c.position, c.state, next, elapsed, c.up_time_limit_ms, c.down_time_limit_ms);
    }
}

} // verus!
