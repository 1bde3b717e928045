use vstd::prelude::*;

verus! {

/// Most tickets that may be opened against one order inside one day window.
pub const MAX_FILLS_PER_DAY: u16 = 70;

/// Least number of seconds between two ticket creations on the same order.
pub const FILL_COOLDOWN_SECS: i64 = 2;

/// Length of the rate-limit day window, in seconds.
pub const SECONDS_PER_DAY: i64 = 24 * 60 * 60;

/// A remainder at or below this threshold is dust: the order may be closed
/// once nothing is reserved.
pub const ORDER_CLOSE_DUST: u64 = 1_000_000;

} // verus!
