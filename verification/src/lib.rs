//! Schedule-aware decomposition of insulin-delivery history.
//!
//! Turns a raw log of boluses, temp basals and carbohydrate entries into
//! discrete, time-windowed records for insulin-on-board and carbs-on-board
//! estimation.  All quantities are fixed-point integers: basal rates and carb
//! ratios in thousandths (milli-units per hour, milligrams per unit), insulin
//! amounts in micro-units, carbohydrates in milligrams, instants in
//! milliseconds since the Unix epoch (UTC).

use vstd::prelude::*;

pub mod time;
pub mod treatment;
pub mod profile;
pub mod schedule;
pub mod basal;
pub mod carbs;
pub mod history;
pub mod meal;

verus! {

/// The one recoverable error of this library: a timestamp string that none of
/// the accepted formats matches.  It carries the rejected text.
#[derive(Debug)]
pub enum OrefError {
    InvalidTimestamp(String),
}

} // verus!

