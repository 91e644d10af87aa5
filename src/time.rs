//! Local wall-clock time as plain numbers, and the query windows that the
//! reports and the look-behind search use.

use vstd::prelude::*;

verus! {

pub const SECOND_MS: i64 = 1000;

pub const MINUTE_MS: i64 = 60_000;

pub const HOUR_MS: i64 = 3_600_000;

pub const DAY_MS: i64 = 86_400_000;

/// 9999-12-31T23:59:59.999, the last instant this library handles.
pub const LATEST_MS: i64 = 253_402_300_799_999;

/// The day number of 0001-01-01; windows reaching further back are cut there.
pub const EARLIEST_DAY: i64 = -719_162;

/// An instant together with the local UTC offset in force at it.
///
/// Days are numbered from 1970-01-01 (day 0) on the local calendar; the offset
/// in force at the instant is used for every local time of a window.
#[derive(Clone, Copy, Debug)]
pub struct LocalTime {
    /// Milliseconds since 1970-01-01T00:00:00 UTC.
    pub epoch_ms: i64,
    /// Local time minus UTC, in milliseconds.
    pub offset_ms: i64,
}

/// The relative period a time report covers.
#[derive(Clone, Copy, Debug, PartialEq, Eq, Structural)]
pub enum TimeGet {
    Today,
    Week,
    Yesterday,
}

/// A query range in milliseconds since the epoch.
#[derive(Clone, Copy, Debug, PartialEq, Eq, Structural)]
pub struct TimeWindow {
    pub start_ms: i64,
    pub end_ms: i64,
}

impl LocalTime {
    pub open spec fn wf(&self) -> bool {
        &&& 0 <= self.epoch_ms <= LATEST_MS
        &&& -DAY_MS < self.offset_ms < DAY_MS
        &&& self.offset_ms % SECOND_MS == 0
    }

    /// Milliseconds since the epoch of the local wall clock reading.
    pub open spec fn wall_ms(&self) -> int {
        self.epoch_ms + self.offset_ms
    }

    /// The local calendar day of the instant.
    pub open spec fn day(&self) -> int {
        self.wall_ms() / (DAY_MS as int)
    }

    /// A local time given as an epoch instant and an offset in whole seconds;
    /// `None` where the instant lies outside years 1970 to 9999 or the offset
    /// is a day or more.
    pub fn from_parts(epoch_ms: i64, offset_secs: i32) -> (r: Option<LocalTime>)
        ensures
            r is Some <==> (0 <= epoch_ms <= LATEST_MS && -86_400 < offset_secs < 86_400),
            r matches Some(t) ==> t.wf() && t.epoch_ms == epoch_ms && t.offset_ms == offset_secs
                * 1000,
    {
        if 0 <= epoch_ms && epoch_ms <= LATEST_MS && -86_400 < offset_secs && offset_secs < 86_400 {
            Some(LocalTime { epoch_ms, offset_ms: offset_secs as i64 * 1000 })
        } else {
            None
        }
    }

    /// The current local time, where the system clock lies in the years this
    /// library handles.
    pub fn now() -> (r: Option<LocalTime>)
        ensures
            r matches Some(t) ==> t.wf(),
    {
        let (epoch_ms, offset_secs) = clock_now();
        LocalTime::from_parts(epoch_ms, offset_secs)
    }

    /// The local calendar day of the instant.
    pub fn local_day(&self) -> (r: i64)
        requires
            self.wf(),
        ensures
            r == self.day(),
            -1 <= r <= LATEST_MS / DAY_MS + 1,
    {
        let wall = self.epoch_ms + self.offset_ms;
        if wall < 0 {
            -1
        } else {
            wall / DAY_MS
        }
    }
}

/// Relies on chrono's `Local::now`: the current instant in milliseconds since
/// the epoch, and the local offset then in force, whose `local_minus_utc`
/// chrono keeps strictly within a day either way.
#[verifier::external_body]
fn clock_now() -> (r: (i64, i32))
    ensures
        -86_400 < r.1 < 86_400,
{
    let now = chrono::Local::now();
    (now.timestamp_millis(), now.offset().local_minus_utc())
}

/// Day of the week counted from Monday (0) to Sunday (6); day 0 was a Thursday.
pub open spec fn weekday_from_monday(day: int) -> int {
    (day + 3) % 7
}

/// The instant at which the local clock reads 00:00:01 on `day`.
pub open spec fn day_start_ms(day: int, offset_ms: int) -> int {
    day * DAY_MS + SECOND_MS - offset_ms
}

/// The instant at which the local clock reads 23:59:59 on `day`.
pub open spec fn day_last_second_ms(day: int, offset_ms: int) -> int {
    day * DAY_MS + DAY_MS - SECOND_MS - offset_ms
}

/// The first day of the week (Monday) that holds `day`.
pub open spec fn week_start_day(day: int) -> int {
    day - weekday_from_monday(day)
}

/// The window a report over `selector` covers, seen from `now`.
pub open spec fn window_of(selector: TimeGet, now: LocalTime) -> (int, int) {
    match selector {
        TimeGet::Today => (day_start_ms(now.day(), now.offset_ms as int), now.epoch_ms as int),
        TimeGet::Week => (
            day_start_ms(week_start_day(now.day()), now.offset_ms as int),
            now.epoch_ms as int,
        ),
        TimeGet::Yesterday => (
            day_start_ms(now.day() - 1, now.offset_ms as int),
            day_last_second_ms(now.day() - 1, now.offset_ms as int),
        ),
    }
}

fn day_start(day: i64, offset_ms: i64) -> (r: i64)
    requires
        EARLIEST_DAY <= day <= LATEST_MS / DAY_MS + 1,
        -DAY_MS < offset_ms < DAY_MS,
    ensures
        r == day_start_ms(day as int, offset_ms as int),
{
    day * DAY_MS + SECOND_MS - offset_ms
}

/// Resolves a relative period into the window its report queries: from
/// 00:00:01 local time on the first day of the period, to `now`, or for
/// yesterday to 23:59:59 local time of that day.
pub fn resolve(selector: TimeGet, now: &LocalTime) -> (r: TimeWindow)
    requires
        now.wf(),
    ensures
        (r.start_ms as int, r.end_ms as int) == window_of(selector, *now),
        selector == TimeGet::Today && now.wall_ms() % (DAY_MS as int) > SECOND_MS ==> r.start_ms
            < r.end_ms,
        selector == TimeGet::Week ==> (r.start_ms + now.offset_ms) % (DAY_MS as int) == SECOND_MS
            && weekday_from_monday((r.start_ms + now.offset_ms) / (DAY_MS as int)) == 0,
{
    proof {
        if selector == TimeGet::Today && now.wall_ms() % (DAY_MS as int) > SECOND_MS {
            today_window_nonempty(*now);
        }
        week_window_starts_on_monday(*now);
    }
    let day = now.local_day();
    match selector {
        TimeGet::Today => TimeWindow { start_ms: day_start(day, now.offset_ms), end_ms: now.epoch_ms },
        TimeGet::Week => {
            let monday = day - (day + 3) % 7;
            TimeWindow { start_ms: day_start(monday, now.offset_ms), end_ms: now.epoch_ms }
        },
        TimeGet::Yesterday => {
            let start = day_start(day - 1, now.offset_ms);
            TimeWindow { start_ms: start, end_ms: start + (DAY_MS - 2 * SECOND_MS) }
        },
    }
}

/// The first day a look-behind of `days` days from `now` covers, cut at
/// 0001-01-01.
pub open spec fn look_behind_day(days: u32, now: LocalTime) -> int {
    if now.day() - days < EARLIEST_DAY {
        EARLIEST_DAY as int
    } else {
        now.day() - days
    }
}

/// The window searched for the last tracked entry: from 00:00:01 local time
/// `days` days before `now`, to `now`.
pub fn look_behind_window(days: u32, now: &LocalTime) -> (r: TimeWindow)
    requires
        now.wf(),
    ensures
        r.start_ms == day_start_ms(look_behind_day(days, *now), now.offset_ms as int),
        r.end_ms == now.epoch_ms,
{
    let day = now.local_day();
    let first = if day - (days as i64) < EARLIEST_DAY {
        EARLIEST_DAY
    } else {
        day - days as i64
    };
    TimeWindow { start_ms: day_start(first, now.offset_ms), end_ms: now.epoch_ms }
}

/// The local date and time `wall_ms` reads as, `dd/mm/YYYY HH:MM:SS`.
pub uninterp spec fn calendar_text(wall_ms: int) -> Seq<char>;

/// Relies on chrono's `DateTime::from_timestamp_millis`, which covers every
/// instant of the years 1 to 10000, and its `%d/%m/%Y %H:%M:%S` format: the
/// text depends on `wall_ms` alone.
#[verifier::external_body]
fn calendar_reading(wall_ms: i64) -> (r: String)
    requires
        EARLIEST_DAY * DAY_MS <= wall_ms <= LATEST_MS + DAY_MS,
    ensures
        r@ == calendar_text(wall_ms as int),
{
    match chrono::DateTime::from_timestamp_millis(wall_ms) {
        Some(t) => t.naive_utc().format("%d/%m/%Y %H:%M:%S").to_string(),
        None => String::new(),
    }
}

/// The local date and time, `dd/mm/YYYY HH:MM:SS`, at which a look-behind
/// window of `days` days from `now` starts.
pub fn look_behind_start_text(days: u32, now: &LocalTime) -> (r: String)
    requires
        now.wf(),
    ensures
        r@ == calendar_text(look_behind_day(days, *now) * DAY_MS + SECOND_MS),
{
    let w = look_behind_window(days, now);
    calendar_reading(w.start_ms + now.offset_ms)
}

/// A today window is not empty once the local clock has passed 00:00:01.
pub proof fn today_window_nonempty(now: LocalTime)
    requires
        now.wf(),
        now.wall_ms() % (DAY_MS as int) > SECOND_MS,
    ensures
        window_of(TimeGet::Today, now).0 < window_of(TimeGet::Today, now).1,
{
    let w = now.wall_ms();
    assert(w == now.day() * DAY_MS + w % (DAY_MS as int));
}

/// A week window starts at 00:00:01 local time on a Monday, whichever day of
/// the week `now` falls on.
pub proof fn week_window_starts_on_monday(now: LocalTime)
    requires
        now.wf(),
    ensures
        (window_of(TimeGet::Week, now).0 + now.offset_ms) % (DAY_MS as int) == SECOND_MS,
        weekday_from_monday((window_of(TimeGet::Week, now).0 + now.offset_ms) / (DAY_MS as int))
            == 0,
{
    let m = week_start_day(now.day());
    let local_start = window_of(TimeGet::Week, now).0 + now.offset_ms;
    assert(local_start == m * DAY_MS + SECOND_MS);
    assert(local_start / (DAY_MS as int) == m);
    assert(local_start % (DAY_MS as int) == SECOND_MS);
    let x = now.day() + 3;
    assert(m + 3 == x - x % 7);
    assert((x - x % 7) % 7 == 0);
}

} // verus!
