//! Result and PnL computation for signal resolution.
//!
//! Given the entry value recorded at publication and the value observed at
//! resolution, a signal wins, loses or pushes depending on its direction,
//! and its PnL is the relative price move scaled to basis points and signed
//! so that it is always stated in the strategist's favor.
use vstd::prelude::*;

use crate::types::Direction;
use crate::types::Signal;
use crate::types::SignalResult;
use crate::types::MAX_MARKET_VALUE;

verus! {

/// Directions that treat a higher resolved value as a win. The remaining
/// directions (`Down`, `Under`, `No`) are the mirror group.
pub open spec fn is_bullish(direction: Direction) -> bool {
    direction == Direction::Up || direction == Direction::Over || direction == Direction::Yes
}

/// The entry value a signal is judged against: its recorded entry value, or
/// zero when none was recorded.
pub open spec fn entry_of(entry_value: Option<u64>) -> u64 {
    match entry_value {
        Some(e) => e,
        None => 0u64,
    }
}

/// Outcome classification. A zero entry or zero resolved value is a
/// degenerate case and always pushes; otherwise the signal wins when the
/// value moved in the predicted direction, loses when it moved against it,
/// and pushes when it did not move.
pub open spec fn spec_signal_result(direction: Direction, entry: u64, resolved: u64) -> SignalResult {
    if entry == 0 || resolved == 0 {
        SignalResult::Push
    } else if resolved == entry {
        SignalResult::Push
    } else if (resolved > entry) == is_bullish(direction) {
        SignalResult::Win
    } else {
        SignalResult::Lose
    }
}

/// PnL in basis points: `(resolved - entry) * 10000 / entry`, truncated
/// toward zero, negated for the bearish direction group so that a correct
/// prediction always yields a non-negative PnL. Zero in the degenerate
/// cases.
pub open spec fn spec_pnl_bps(direction: Direction, entry: u64, resolved: u64) -> int {
    if entry == 0 || resolved == 0 {
        0int
    } else {
        let raw: int = if resolved >= entry {
            (resolved - entry) * 10000 / (entry as int)
        } else {
            -((entry - resolved) * 10000 / (entry as int))
        };
        if is_bullish(direction) {
            raw
        } else {
            -raw
        }
    }
}

/// Computes the outcome and PnL of a signal against the observed value.
/// Pure: no state is touched.
pub fn calculate_signal_result(signal: &Signal, resolved_value: u64) -> (r: (SignalResult, i64))
    requires
        signal.entry_value matches Some(e) ==> e <= MAX_MARKET_VALUE,
        resolved_value <= MAX_MARKET_VALUE,
    ensures
        r.0 == spec_signal_result(signal.direction, entry_of(signal.entry_value), resolved_value),
        r.1 == spec_pnl_bps(signal.direction, entry_of(signal.entry_value), resolved_value),
{
    let entry: u64 = match signal.entry_value {
        Some(e) => e,
        None => 0,
    };
    if entry == 0 || resolved_value == 0 {
        return (SignalResult::Push, 0);
    }
    let bullish: bool = match signal.direction {
        Direction::Up | Direction::Over | Direction::Yes => true,
        Direction::Down | Direction::Under | Direction::No => false,
    };
    let gained: bool = resolved_value >= entry;
    let diff: u64 = if gained {
        resolved_value - entry
    } else {
        entry - resolved_value
    };
    let scaled: u64 = diff * 10000;
    let magnitude: u64 = scaled / entry;
    proof {
        assert(magnitude <= scaled) by (nonlinear_arith)
            requires
                entry >= 1,
                scaled >= 0,
                magnitude == scaled as int / entry as int,
        {
        }
    }
    let raw: i64 = if gained {
        magnitude as i64
    } else {
        -(magnitude as i64)
    };
    let pnl: i64 = if bullish {
        raw
    } else {
        -raw
    };
    let result = if resolved_value > entry {
        if bullish {
            SignalResult::Win
        } else {
            SignalResult::Lose
        }
    } else if resolved_value < entry {
        if bullish {
            SignalResult::Lose
        } else {
            SignalResult::Win
        }
    } else {
        SignalResult::Push
    };
    (result, pnl)
}

} // verus!
