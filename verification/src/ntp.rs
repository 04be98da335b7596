//! ClockSource: the free-running local clock that a network time source
//! keeps honest. Between resyncs the clock extrapolates by the current tick
//! period, carrying overflowing microseconds into whole seconds; a resync is
//! due on the very first tick and whenever the clock has free-run for more
//! than the resync interval since the last authoritative answer.

use vstd::prelude::*;

use crate::handler::{HandlerTime, NixieHandlerCommand};
use crate::MICROS_PER_SECOND;

verus! {

/// Seconds of free-running after which the next tick queries the time
/// source again: about 17 minutes, little enough drift on a free
/// oscillator, little enough traffic on the network.
pub const RESYNC_INTERVAL_SECONDS: u64 = 1024;

/// One NTP fraction unit is 2^-32 s; this constant is 2^32.
pub const NTP_FRACTION_UNITS_PER_SECOND: u64 = 4_294_967_296;

/// Asks ClockSource to adopt a new reporting period.
pub struct NixieNPTCommand {
    pub ticker_duration: TickPeriod,
}

/// A reporting period, split like the clock itself into whole seconds and
/// microseconds within the second.
#[derive(Clone, Copy, Debug, PartialEq, Eq, Structural)]
pub struct TickPeriod {
    pub secs: u64,
    pub micros: u32,
}

impl TickPeriod {
    /// The microsecond part names less than a whole second.
    pub open spec fn wf(&self) -> bool {
        self.micros < MICROS_PER_SECOND
    }

    /// The whole period in microseconds.
    pub open spec fn total_micros(&self) -> int {
        self.secs * MICROS_PER_SECOND + self.micros
    }

    pub fn from_micros(total: u64) -> (r: Self)
        ensures
            r.wf(),
            r.total_micros() == total,
            r.secs == total / (MICROS_PER_SECOND as u64),
            r.micros == total % (MICROS_PER_SECOND as u64),
    {
        proof {
            vstd::arithmetic::div_mod::lemma_fundamental_div_mod(
                total as int,
                MICROS_PER_SECOND as int,
            );
        }
        TickPeriod {
            secs: total / (MICROS_PER_SECOND as u64),
            micros: (total % (MICROS_PER_SECOND as u64)) as u32,
        }
    }

    /// The period of a reporting rate in ticks per second, rounded up to a
    /// whole microsecond so the rate is never exceeded.
    pub fn from_hz(hz: u32) -> (r: Self)
        requires
            1 <= hz,
        ensures
            r.wf(),
            r.total_micros() == (MICROS_PER_SECOND + hz - 1) as u64 / hz as u64,
    {
        Self::from_micros(((MICROS_PER_SECOND as u64) + (hz as u64) - 1) / (hz as u64))
    }
}

/// An epoch instant the NTP exchange stamps outgoing packets with.
#[derive(Clone, Copy)]
pub struct Timestamp {
    pub seconds: u64,
    pub micros: u32,
}

impl Timestamp {
    pub fn new(seconds: u64, micros: u32) -> (r: Self)
        ensures
            r.seconds == seconds,
            r.micros == micros,
    {
        Self { seconds, micros }
    }

    pub fn timestamp_sec(&self) -> (r: u64)
        ensures
            r == self.seconds,
    {
        self.seconds
    }

    pub fn timestamp_subsec_micros(&self) -> (r: u32)
        ensures
            r == self.micros,
    {
        self.micros
    }
}

impl Default for Timestamp {
    /// The zero instant.
    fn default() -> (r: Self)
        ensures
            r.seconds == 0,
            r.micros == 0,
    {
        Self { seconds: 0u64, micros: 0u32 }
    }
}

/// The microseconds named by an NTP 32-bit second fraction:
/// `floor(fraction * 1_000_000 / 2^32)`, always below one second.
pub fn micros_of_fraction(fraction: u32) -> (r: u32)
    ensures
        r == (fraction as int) * (MICROS_PER_SECOND as int) / (NTP_FRACTION_UNITS_PER_SECOND as int),
        r < MICROS_PER_SECOND,
{
    proof {
        vstd::arithmetic::mul::lemma_mul_inequality(
            fraction as int,
            0xffff_ffff,
            MICROS_PER_SECOND as int,
        );
    }
    let wide: u64 = (fraction as u64) * (MICROS_PER_SECOND as u64);
    proof {
        vstd::arithmetic::div_mod::lemma_div_is_ordered(
            wide as int,
            0xffff_ffff * (MICROS_PER_SECOND as int),
            NTP_FRACTION_UNITS_PER_SECOND as int,
        );
    }
    (wide / NTP_FRACTION_UNITS_PER_SECOND) as u32
}

/// The local clock: the instant it believes in, the watermark of the last
/// successful resync, and whether it has ever synced at all.
#[derive(Clone, Copy, Debug)]
pub struct ClockState {
    pub seconds: u64,
    pub micros: u32,
    pub last_sync_seconds: u64,
    pub first_sync: bool,
}

/// A resync is due on the very first tick and whenever the clock has moved
/// more than the resync interval past the last sync watermark — and never
/// otherwise.
pub open spec fn spec_needs_resync(s: ClockState) -> bool {
    s.first_sync || s.seconds > s.last_sync_seconds + RESYNC_INTERVAL_SECONDS
}

impl ClockState {
    /// The microsecond part names less than a whole second.
    pub open spec fn wf(&self) -> bool {
        self.micros < MICROS_PER_SECOND
    }

    /// The clock before the first tick: at the epoch, never synced.
    pub fn new() -> (r: Self)
        ensures
            r.seconds == 0,
            r.micros == 0,
            r.last_sync_seconds == 0,
            r.first_sync,
            r.wf(),
    {
        ClockState { seconds: 0, micros: 0, last_sync_seconds: 0, first_sync: true }
    }

    /// Whether this tick must query the time source.
    pub fn needs_resync(&self) -> (r: bool)
        ensures
            r == spec_needs_resync(*self),
    {
        self.first_sync || (self.seconds >= RESYNC_INTERVAL_SECONDS && self.seconds
            - RESYNC_INTERVAL_SECONDS > self.last_sync_seconds)
    }

    /// Adopt an authoritative answer: seconds and NTP second fraction
    /// overwrite the clock, the sync watermark moves to now, and the clock
    /// counts as synced.
    pub fn apply_sync(&mut self, server_seconds: u64, server_fraction: u32)
        ensures
            final(self).seconds == server_seconds,
            final(self).micros == (server_fraction as int) * (MICROS_PER_SECOND as int) / (
            NTP_FRACTION_UNITS_PER_SECOND as int),
            final(self).last_sync_seconds == server_seconds,
            !final(self).first_sync,
            final(self).wf(),
    {
        self.seconds = server_seconds;
        self.micros = micros_of_fraction(server_fraction);
        self.last_sync_seconds = server_seconds;
        self.first_sync = false;
    }

    /// The instant to publish this tick.
    pub fn current_time(&self) -> (r: HandlerTime)
        ensures
            r.seconds == self.seconds,
            r.micros == self.micros,
    {
        HandlerTime { seconds: self.seconds, micros: self.micros }
    }

    /// The command that publishes the current instant to TimeFormatter.
    pub fn report(&self) -> (r: NixieHandlerCommand)
        ensures
            r matches NixieHandlerCommand::DispTime(ht) && ht.seconds == self.seconds
                && ht.micros == self.micros,
    {
        NixieHandlerCommand::DispTime(self.current_time())
    }

    /// Move the clock one tick period forward: seconds and microseconds add
    /// up separately, then whole seconds carry out of the microsecond part,
    /// which stays below one second. The instant as a microsecond total is
    /// exactly the old instant plus the period.
    pub fn advance(&mut self, period: TickPeriod)
        requires
            old(self).wf(),
            period.wf(),
            old(self).seconds + period.secs + 1 <= u64::MAX,
        ensures
            final(self).wf(),
            final(self).micros == (old(self).micros + period.micros) % (MICROS_PER_SECOND as int),
            final(self).seconds == old(self).seconds + period.secs + (old(self).micros
                + period.micros) / (MICROS_PER_SECOND as int),
            final(self).seconds * MICROS_PER_SECOND + final(self).micros == old(self).seconds
                * MICROS_PER_SECOND + old(self).micros + period.total_micros(),
            final(self).last_sync_seconds == old(self).last_sync_seconds,
            final(self).first_sync == old(self).first_sync,
    {
        self.seconds = self.seconds + period.secs;
        let micros_sum: u32 = self.micros + period.micros;
        self.seconds = self.seconds + (micros_sum / MICROS_PER_SECOND) as u64;
        self.micros = micros_sum % MICROS_PER_SECOND;
    }
}

/// On the very first tick a resync always occurs.
pub proof fn lemma_first_tick_resyncs(s: ClockState)
    requires
        s.first_sync,
    ensures
        spec_needs_resync(s),
{
}

/// After the first sync, a tick resyncs exactly when the clock stands more
/// than the resync interval past the last sync watermark — never otherwise.
pub proof fn lemma_resync_only_when_stale(s: ClockState)
    requires
        !s.first_sync,
    ensures
        spec_needs_resync(s) <==> s.seconds > s.last_sync_seconds + RESYNC_INTERVAL_SECONDS,
{
}

} // verus!
