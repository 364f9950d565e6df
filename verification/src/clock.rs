use vstd::prelude::*;
use crate::bindings::{clock_since_epoch, utc_timestamp, LATEST_TIMESTAMP};

verus! {

/// The time a clock reading stands for, in whole seconds since the Unix
/// epoch: its seconds, when they lie within what chrono can represent.
pub open spec fn reading_timestamp(reading: Option<(u64, u32)>) -> Option<int> {
    match reading {
        Some((secs, _)) => if secs <= LATEST_TIMESTAMP {
            Some(secs as int)
        } else {
            None
        },
        None => None,
    }
}

/// `reading` is a reading the system clock can give: an outcome of a call of
/// `clock_since_epoch`.
pub closed spec fn clock_can_read(reading: Option<(u64, u32)>) -> bool {
    call_ensures(clock_since_epoch, (), reading)
}

/// The whole seconds since the Unix epoch that chrono makes of a reading of
/// the system clock (seconds and nanoseconds since the epoch; `None`: the
/// clock read before the epoch): the reading's seconds when chrono can
/// represent that instant, `None` when it lies past the latest one.
pub fn timestamp_from_reading(reading: Option<(u64, u32)>) -> (r: Option<i64>)
    ensures
        match reading {
            None => r is None,
            Some((secs, nanos)) => {
                &&& (secs <= LATEST_TIMESTAMP && nanos < 1_000_000_000 ==> r == Some(secs as i64))
                &&& (secs > LATEST_TIMESTAMP ==> r is None)
                &&& (r matches Some(t) ==> t == secs)
            },
        },
{
    match reading {
        None => None,
        Some((secs, nanos)) => {
            if secs <= i64::MAX as u64 {
                utc_timestamp(secs as i64, nanos)
            } else {
                None
            }
        },
    }
}

/// `now` is what a call of `current_timestamp` can answer: the clock was read
/// during that call and `now` is made of that reading.
pub open spec fn clock_gives(now: Option<i64>) -> bool {
    call_ensures(current_timestamp, (), now)
}

/// The current time in whole seconds since the Unix epoch, as chrono reads
/// the system clock: `timestamp_from_reading` of the clock's reading, so
/// `None` when the clock reads before the epoch or past the latest instant
/// chrono can represent.  Which time comes back depends on the clock.
pub fn current_timestamp() -> (r: Option<i64>)
    ensures
        r matches Some(t) ==> 0 <= t <= LATEST_TIMESTAMP,
        exists|reading: Option<(u64, u32)>|
            #[trigger] clock_can_read(reading) && (reading matches Some((_, nanos)) ==> nanos < 1_000_000_000)
                && reading_timestamp(reading) == match r {
                Some(t) => Some(t as int),
                None => None::<int>,
            },
{
    let read_clock = clock_since_epoch;
    let reading = read_clock();
    let r = timestamp_from_reading(reading);
    proof {
        assert(clock_can_read(reading));
        assert(reading_timestamp(reading) == match r {
            Some(t) => Some(t as int),
            None => None::<int>,
        });
    }
    r
}

/// `current_timestamp` answers the whole seconds of the reading the system
/// clock gave during the call: some reading of the clock has exactly those
/// seconds (with under a second of nanoseconds), and `None` comes only from
/// a clock that read before the epoch or past chrono's latest instant.
pub proof fn lemma_current_timestamp_is_the_clock_seconds(now: Option<i64>)
    requires
        clock_gives(now),
    ensures
        now matches Some(t) ==> 0 <= t <= LATEST_TIMESTAMP && exists|nanos: u32|
            nanos < 1_000_000_000 && #[trigger] clock_can_read(Some((t as u64, nanos))),
        now is None ==> exists|reading: Option<(u64, u32)>|
            #[trigger] clock_can_read(reading) && (reading matches Some((secs, _)) ==> secs > LATEST_TIMESTAMP),
{
    let reading = choose|reading: Option<(u64, u32)>|
        #[trigger] clock_can_read(reading) && reading_timestamp(reading) == match now {
            Some(t) => Some(t as int),
            None => None::<int>,
        };
    assert(call_ensures(clock_since_epoch, (), reading));
    if let Some(t) = now {
        let (secs, nanos) = reading->0;
        assert(secs == t);
        assert(reading == Some((t as u64, nanos)));
        assert(nanos < 1_000_000_000);
    }
}

} // verus!
