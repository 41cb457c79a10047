//! The cover's states, the commands it accepts and the pure decision function
//! that picks the next state on each tick.

use vstd::prelude::*;

verus! {

/// A command addressed to a cover.
#[derive(Clone, Copy, Debug, PartialEq, Eq, Structural)]
pub enum Payload {
    Up,
    Down,
    Stop,
}

/// The state of one cover.
#[derive(Clone, Copy, Debug, PartialEq, Eq, Structural)]
pub enum State {
    Closed,
    Closing,
    Open,
    Opening,
    Partial,
    Initial,
    /// Terminal: commands are dropped and the motors stay stopped. The only
    /// way out is to restart the process, which starts again from Initial.
    Error,
}

impl Default for State {
    fn default() -> (r: Self)
        ensures
            r == State::Initial,
    {
        State::Initial
    }
}

/// What the motor does while the cover is in a state.
#[derive(Clone, Copy, Debug, PartialEq, Eq, Structural)]
pub enum Motor {
    Stop,
    Up,
    Down,
}

/// The outcome of one decision: the state to move to (`None`: stay), and
/// whether the pending command was taken off the queue.
#[derive(Clone, Copy, Debug, PartialEq, Eq, Structural)]
pub struct Step {
    pub next: Option<State>,
    pub consumed: bool,
}

/// The motor action that goes with a state: up while opening, down while
/// closing, stopped otherwise.
pub open spec fn motor_of(s: State) -> Motor {
    match s {
        State::Opening => Motor::Up,
        State::Closing => Motor::Down,
        _ => Motor::Stop,
    }
}

pub open spec fn stay(consumed: bool) -> Step {
    Step { next: None, consumed }
}

pub open spec fn go(s: State, consumed: bool) -> Step {
    Step { next: Some(s), consumed }
}

/// The transition table. Sensor readings are checked first; a command is
/// consumed only where the state's row gets as far as looking at it.
pub open spec fn step_spec(
    state: State,
    up_pressed: bool,
    down_pressed: bool,
    elapsed_ms: u64,
    up_time_limit_ms: u64,
    down_time_limit_ms: u64,
    command: Option<Payload>,
) -> Step {
    let took = command.is_some();
    match state {
        State::Error => stay(took),
        State::Initial => {
            if up_pressed && down_pressed {
                go(State::Error, false)
            } else if up_pressed {
                go(State::Open, false)
            } else if down_pressed {
                go(State::Closed, false)
            } else {
                go(State::Partial, false)
            }
        },
        State::Closed => {
            if up_pressed {
                go(State::Error, false)
            } else if command == Some(Payload::Up) {
                go(State::Opening, true)
            } else {
                stay(took)
            }
        },
        State::Open => {
            if down_pressed {
                go(State::Error, false)
            } else if command == Some(Payload::Down) {
                go(State::Closing, true)
            } else {
                stay(took)
            }
        },
        State::Opening => {
            if up_pressed && down_pressed {
                go(State::Error, false)
            } else if up_pressed || elapsed_ms > up_time_limit_ms {
                go(State::Open, false)
            } else if command == Some(Payload::Down) {
                go(State::Closing, true)
            } else if command == Some(Payload::Stop) {
                go(State::Partial, true)
            } else {
                stay(took)
            }
        },
        State::Closing => {
            if up_pressed && down_pressed {
                go(State::Error, false)
            } else if down_pressed || elapsed_ms > down_time_limit_ms {
                go(State::Closed, false)
            } else if command == Some(Payload::Up) {
                go(State::Opening, true)
            } else if command == Some(Payload::Stop) {
                go(State::Partial, true)
            } else {
                stay(took)
            }
        },
        State::Partial => {
            if up_pressed && down_pressed {
                go(State::Error, false)
            } else if up_pressed {
                go(State::Open, false)
            } else if down_pressed {
                go(State::Closed, false)
            } else if command == Some(Payload::Up) {
                go(State::Opening, true)
            } else if command == Some(Payload::Down) {
                go(State::Closing, true)
            } else {
                stay(took)
            }
        },
    }
}

/// The motor action for a state.
pub fn motor_for(s: State) -> (r: Motor)
    ensures
        r == motor_of(s),
{
    match s {
        State::Opening => Motor::Up,
        State::Closing => Motor::Down,
        _ => Motor::Stop,
    }
}

/// Decides the next state of a cover from its current state, the two limit
/// sensors, the time spent in the current state, the travel-time limits and
/// the pending command, if any.
pub fn step(
    state: State,
    up_pressed: bool,
    down_pressed: bool,
    elapsed_ms: u64,
    up_time_limit_ms: u64,
    down_time_limit_ms: u64,
    command: Option<Payload>,
) -> (r: Step)
    ensures
        r == step_spec(
            state,
            up_pressed,
            down_pressed,
            elapsed_ms,
            up_time_limit_ms,
            down_time_limit_ms,
            command,
        ),
{
    let took = command.is_some();
    let both = up_pressed && down_pressed;
    match state {
        State::Error => Step { next: None, consumed: took },
        State::Initial => {
            let next = if both {
                State::Error
            } else if up_pressed {
                State::Open
            } else if down_pressed {
                State::Closed
            } else {
                State::Partial
            };
            Step { next: Some(next), consumed: false }
        },
        State::Closed => {
            if up_pressed {
                Step { next: Some(State::Error), consumed: false }
            } else {
                match command {
                    Some(Payload::Up) => Step { next: Some(State::Opening), consumed: true },
                    _ => Step { next: None, consumed: took },
                }
            }
        },
        State::Open => {
            if down_pressed {
                Step { next: Some(State::Error), consumed: false }
            } else {
                match command {
                    Some(Payload::Down) => Step { next: Some(State::Closing), consumed: true },
                    _ => Step { next: None, consumed: took },
                }
            }
        },
        State::Opening => {
            if both {
                Step { next: Some(State::Error), consumed: false }
            } else if up_pressed || elapsed_ms > up_time_limit_ms {
                Step { next: Some(State::Open), consumed: false }
            } else {
                match command {
                    Some(Payload::Down) => Step { next: Some(State::Closing), consumed: true },
                    Some(Payload::Stop) => Step { next: Some(State::Partial), consumed: true },
                    _ => Step { next: None, consumed: took },
                }
            }
        },
        State::Closing => {
            if both {
                Step { next: Some(State::Error), consumed: false }
            } else if down_pressed || elapsed_ms > down_time_limit_ms {
                Step { next: Some(State::Closed), consumed: false }
            } else {
                match command {
                    Some(Payload::Up) => Step { next: Some(State::Opening), consumed: true },
                    Some(Payload::Stop) => Step { next: Some(State::Partial), consumed: true },
                    _ => Step { next: None, consumed: took },
                }
            }
        },
        State::Partial => {
            if both {
                Step { next: Some(State::Error), consumed: false }
            } else if up_pressed {
                Step { next: Some(State::Open), consumed: false }
            } else if down_pressed {
                Step { next: Some(State::Closed), consumed: false }
            } else {
                match command {
                    Some(Payload::Up) => Step { next: Some(State::Opening), consumed: true },
                    Some(Payload::Down) => Step { next: Some(State::Closing), consumed: true },
                    _ => Step { next: None, consumed: took },
                }
            }
        },
    }
}

} // verus!
