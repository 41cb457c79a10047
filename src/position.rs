//! The time-based position estimate. A position is held in hundredths of a
//! percent: `0` is fully closed and `FULLY_OPEN` is fully open.

use vstd::prelude::*;
use crate::state::State;

verus! {

/// The position of a fully open cover.
pub const FULLY_OPEN: u32 = 10000;

/// The highest estimate that travel time alone may give while opening.
pub const OPENING_CEILING: u32 = 9900;

/// The lowest estimate that travel time alone may give while closing.
pub const CLOSING_FLOOR: u32 = 100;

/// The share of a full traverse covered in `elapsed_ms`, for a traverse that
/// takes `limit_ms`, in hundredths of a percent.
pub open spec fn travelled(elapsed_ms: u64, limit_ms: u64) -> int
    recommends
        limit_ms > 0,
{
    (elapsed_ms as int * FULLY_OPEN as int) / (limit_ms as int)
}

pub open spec fn valid_position(p: Option<u32>) -> bool {
    match p {
        Some(v) => v <= FULLY_OPEN,
        None => true,
    }
}

/// The estimate after leaving state `from` for state `to`, `elapsed_ms` after
/// entering `from`. Reaching Open or Closed fixes the position; travel alone
/// never claims either end. An unknown start counts as closed when opening
/// and as open when closing.
pub open spec fn estimate_spec(
    prev: Option<u32>,
    from: State,
    to: State,
    elapsed_ms: u64,
    up_time_limit_ms: u64,
    down_time_limit_ms: u64,
) -> Option<u32> {
    if to == State::Open {
        Some(FULLY_OPEN)
    } else if to == State::Closed {
        Some(0)
    } else if from == State::Opening {
        let p = prev.unwrap_or(0) as int + travelled(elapsed_ms, up_time_limit_ms);
        Some(if p > OPENING_CEILING as int { OPENING_CEILING } else { p as u32 })
    } else if from == State::Closing {
        let p = prev.unwrap_or(FULLY_OPEN) as int - travelled(elapsed_ms, down_time_limit_ms);
        Some(if p < CLOSING_FLOOR as int { CLOSING_FLOOR } else { p as u32 })
    } else {
        prev
    }
}

/// Share of a traverse covered, capped at a full traverse.
fn travelled_capped(elapsed_ms: u64, limit_ms: u64) -> (r: u32)
    requires
        limit_ms > 0,
    ensures
        r as int == if travelled(elapsed_ms, limit_ms) > FULLY_OPEN as int {
            FULLY_OPEN as int
        } else {
            travelled(elapsed_ms, limit_ms)
        },
{
    let scaled: u128 = (elapsed_ms as u128) * 10000u128;
    let t: u128 = scaled / (limit_ms as u128);
    assert(t as int == travelled(elapsed_ms, limit_ms));
    if t > FULLY_OPEN as u128 {
        FULLY_OPEN
    } else {
        t as u32
    }
}

/// The position estimate after a transition from `from` to `to`.
pub fn estimate(
    prev: Option<u32>,
    from: State,
    to: State,
    elapsed_ms: u64,
    up_time_limit_ms: u64,
    down_time_limit_ms: u64,
) -> (r: Option<u32>)
    requires
        valid_position(prev),
        up_time_limit_ms > 0,
        down_time_limit_ms > 0,
    ensures
        r == estimate_spec(prev, from, to, elapsed_ms, up_time_limit_ms, down_time_limit_ms),
        valid_position(r),
{
    proof {
        assert(travelled(elapsed_ms, up_time_limit_ms) >= 0) by (nonlinear_arith)
            requires up_time_limit_ms > 0;
        assert(travelled(elapsed_ms, down_time_limit_ms) >= 0) by (nonlinear_arith)
            requires down_time_limit_ms > 0;
    }
    if to == State::Open {
        Some(FULLY_OPEN)
    } else if to == State::Closed {
        Some(0)
    } else if from == State::Opening {
        let start: u32 = match prev {
            Some(v) => v,
            None => 0,
        };
        let d = travelled_capped(elapsed_ms, up_time_limit_ms);
        if start + d > OPENING_CEILING {
            Some(OPENING_CEILING)
        } else {
            Some(start + d)
        }
    } else if from == State::Closing {
        let start: u32 = match prev {
            Some(v) => v,
            None => FULLY_OPEN,
        };
        let d = travelled_capped(elapsed_ms, down_time_limit_ms);
        if d > start || start - d < CLOSING_FLOOR {
            Some(CLOSING_FLOOR)
        } else {
            Some(start - d)
        }
    } else {
        prev
    }
}

/// The estimate always lies between fully closed and fully open. Reaching
/// Open makes it exactly fully open and reaching Closed exactly fully closed;
/// any other exit from Opening leaves it at most `OPENING_CEILING`, and any
/// other exit from Closing at least `CLOSING_FLOOR`.
pub proof fn estimate_bounds(
    prev: Option<u32>,
    from: State,
    to: State,
    elapsed_ms: u64,
    up_time_limit_ms: u64,
    down_time_limit_ms: u64,
)
    requires
        valid_position(prev),
        up_time_limit_ms > 0,
        down_time_limit_ms > 0,
    ensures
        ({
            let r = estimate_spec(prev, from, to, elapsed_ms, up_time_limit_ms, down_time_limit_ms);
            &&& valid_position(r)
            &&& to == State::Open ==> r == Some(FULLY_OPEN)
            &&& to == State::Closed ==> r == Some(0u32)
            &&& from == State::Opening && to != State::Open && to != State::Closed ==> r is Some
                && r->Some_0 <= OPENING_CEILING
            &&& from == State::Closing && to != State::Closed && to != State::Open ==> r is Some
                && r->Some_0 >= CLOSING_FLOOR
        }),
{
    assert(travelled(elapsed_ms, up_time_limit_ms) >= 0) by (nonlinear_arith)
        requires up_time_limit_ms > 0;
    assert(travelled(elapsed_ms, down_time_limit_ms) >= 0) by (nonlinear_arith)
        requires down_time_limit_ms > 0;
}

/// The whole-number percentage that a position rounds to (half up).
pub open spec fn whole_percent(p: u32) -> nat {
    ((p as nat + 50) / 100) as nat
}

/// The decimal digits of `n` as ASCII bytes, most significant first.
pub open spec fn decimal(n: nat) -> Seq<u8>
    decreases n,
{
    if n < 10 {
        seq![(48 + n) as u8]
    } else {
        decimal(n / 10).push((48 + n % 10) as u8)
    }
}

/// The text published for a position: its whole-number percentage in decimal.
pub fn percent_text(p: u32) -> (r: Vec<u8>)
    requires
        p <= FULLY_OPEN,
    ensures
        r@ == decimal(whole_percent(p)),
{
    let n: u32 = (p + 50) / 100;
    proof {
        reveal_with_fuel(decimal, 3);
    }
    if n >= 100 {
        assert(n == 100);
        vec![49u8, 48u8, 48u8]
    } else if n >= 10 {
        let r = vec![(48 + n / 10) as u8, (48 + n % 10) as u8];
        assert(r@ =~= decimal(n as nat));
        r
    } else {
        let r = vec![(48 + n) as u8];
        assert(r@ =~= decimal(n as nat));
        r
    }
}

} // verus!
