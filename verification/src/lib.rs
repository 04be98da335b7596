//! Core logic of a networked nixie-tube clock: a drifting local clock kept in
//! step with a network time source, epoch-to-digit time formatting, a
//! diff-based render planner for multiplexed PWM driver chips, and a
//! fixed-arena menu tree navigated by a single cursor.

use vstd::prelude::*;

pub mod channels;
pub mod display;
pub mod handler;
pub mod menu;
pub mod ntp;

verus! {

/// Number of microseconds in one second; the local clock's microsecond
/// field always stays below this.
pub const MICROS_PER_SECOND: u32 = 1_000_000;

} // verus!
