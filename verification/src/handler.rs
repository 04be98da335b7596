//! TimeFormatter: turns an epoch timestamp into the nixie picture for that
//! instant — six civil-time digits (UTC) and one of twelve commas lit as a
//! sub-second progress marker.

use vstd::prelude::*;

use crate::display::{NixieDispCommand, NixieState};
use crate::MICROS_PER_SECOND;
use chrono::Timelike;

verus! {

/// The largest epoch second count chrono can represent as a date
/// (the last second of its maximum year, 262142).
pub const MAX_EPOCH_SECONDS: u64 = 8_210_266_876_799;

/// The duty-cycle value used for full brightness: all 4096 counts on.
pub const MAX_BRIGHTNESS: u16 = 4095;

/// What ClockSource hands to TimeFormatter; a tagged union so that further
/// command kinds can be added without breaking consumers.
pub enum NixieHandlerCommand {
    DispTime(HandlerTime),
}

/// An epoch instant: whole seconds and the microseconds within the second.
#[derive(Clone, Copy, Debug)]
pub struct HandlerTime {
    pub seconds: u64,
    pub micros: u32,
}

/// The hour of day of an epoch second count, in UTC, counting non-leap
/// seconds.
pub open spec fn spec_hour(secs: int) -> int {
    (secs / 3600) % 24
}

/// The minute within the hour of an epoch second count.
pub open spec fn spec_minute(secs: int) -> int {
    (secs / 60) % 60
}

/// The second within the minute of an epoch second count.
pub open spec fn spec_second(secs: int) -> int {
    secs % 60
}

/// The sub-second animation index of a millisecond-within-second value:
/// `min(12 * ms / 1000, 11)`.
pub open spec fn spec_twelfth(ms: int) -> int {
    if 12 * ms / 1000 < 11 {
        12 * ms / 1000
    } else {
        11
    }
}

/// The six digit values that display an epoch second count as `hh mm ss`.
pub open spec fn spec_time_digits(secs: int) -> Seq<u8> {
    seq![
        (spec_hour(secs) / 10) as u8,
        (spec_hour(secs) % 10) as u8,
        (spec_minute(secs) / 10) as u8,
        (spec_minute(secs) % 10) as u8,
        (spec_second(secs) / 10) as u8,
        (spec_second(secs) % 10) as u8,
    ]
}

/// Relies on chrono's `DateTime::<Utc>::from_timestamp` and the `Timelike`
/// accessors `hour`, `minute` and `second`: an in-range UNIX timestamp
/// decodes to a UTC civil time, and since chrono counts non-leap seconds,
/// its time of day is the epoch second count reduced modulo one day.
#[verifier::external_body]
fn epoch_to_civil(secs: u64, micros: u32) -> (r: Option<(u32, u32, u32)>)
    requires
        secs <= MAX_EPOCH_SECONDS,
        micros < MICROS_PER_SECOND,
    ensures
        r == Some(
            (
                ((secs / 3600) % 24) as u32,
                ((secs / 60) % 60) as u32,
                (secs % 60) as u32,
            ),
        ),
{
    match chrono::DateTime::from_timestamp(secs as i64, micros * 1000) {
        None => None,
        Some(dt) => Some((dt.hour(), dt.minute(), dt.second())),
    }
}

/// The animation index for a millisecond within the current second: the
/// comma that is lit advances one position roughly every 83 ms, capped at
/// the last position.
pub fn twelfth_of_millis(millis: u32) -> (r: usize)
    requires
        millis < 1000,
    ensures
        r == spec_twelfth(millis as int),
        r < 12,
{
    let t: u32 = (12 * millis) / 1000;
    if t < 11 {
        t as usize
    } else {
        11
    }
}

/// Format one command from ClockSource. A timestamp in chrono's range with
/// in-range microseconds yields the `hh mm ss` picture at full brightness
/// with exactly the sub-second comma lit; anything else is a decode failure
/// and yields nothing (the caller treats that as fatal).
pub fn handle_command(message: &NixieHandlerCommand) -> (r: Option<NixieDispCommand>)
    ensures
        match *message {
            NixieHandlerCommand::DispTime(ht) => {
                &&& (r is Some <==> (ht.seconds <= MAX_EPOCH_SECONDS && ht.micros
                    < MICROS_PER_SECOND))
                &&& match r {
                    Some(dc) => {
                        &&& dc.brightness == MAX_BRIGHTNESS as usize
                        &&& dc.nixie_state.digit_seq() == spec_time_digits(ht.seconds as int)
                        &&& forall|i: int|
                            0 <= i < 12 ==> (dc.nixie_state.comma_seq()[i] <==> i == spec_twelfth(
                                (ht.micros / 1000) as int,
                            ))
                    },
                    None => true,
                }
            },
        },
{
    match message {
        NixieHandlerCommand::DispTime(ht) => {
            if ht.seconds > MAX_EPOCH_SECONDS || ht.micros >= MICROS_PER_SECOND {
                return None;
            }
            let civil = epoch_to_civil(ht.seconds, ht.micros);
            match civil {
                None => None,
                Some((hour, minute, seconds)) => {
                    let millis = ht.micros / 1000;
                    let twelths = twelfth_of_millis(millis);
                    let mut commas = [false; 12];
                    commas[twelths] = true;
                    assert(forall|i: int|
                        0 <= i < 12 ==> (commas@[i] <==> i == spec_twelfth(millis as int)));
                    let nixie_state = NixieState::from_hmsc(hour, minute, seconds, commas);
                    proof {
                        assert(nixie_state.digit_seq() =~= spec_time_digits(ht.seconds as int));
                    }
                    Some(NixieDispCommand { brightness: MAX_BRIGHTNESS as usize, nixie_state })
                },
            }
        },
    }
}

} // verus!
