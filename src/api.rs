//! The reports of the client's commands, computed from the entries that the
//! service returned for their windows.

use vstd::prelude::*;
use crate::decimal::{push_signed, signed_text};
use crate::display::{fmt_time, hours_text};
use crate::decimal::parse_i64;
use crate::entries::{
    calculate_time, durations_valid, is_latest, parse_timestamp, starts_valid, total_duration,
    CoreError, EntryField, TimeEntries, TimeEntry,
};
use crate::time::{
    calendar_text, look_behind_day, look_behind_start_text, LocalTime, TimeGet, DAY_MS, MINUTE_MS,
    SECOND_MS,
};

verus! {

/// What a task command reports on.
#[derive(Clone, Copy, Debug, PartialEq, Eq, Structural)]
pub enum TaskGet {
    Last,
    Sprint,
}

/// The words naming a report's period.
pub open spec fn period_text(selector: TimeGet) -> Seq<char> {
    match selector {
        TimeGet::Today => "today"@,
        TimeGet::Week => "this week"@,
        TimeGet::Yesterday => "yesterday"@,
    }
}

/// The quota of a period: a day's, or five days' for a week.
pub open spec fn quota_of(selector: TimeGet, daily_quota_ms: int) -> int {
    match selector {
        TimeGet::Week => 5 * daily_quota_ms,
        _ => daily_quota_ms,
    }
}

/// The line reporting time tracked in a period against its quota.
pub open spec fn time_report_text(selector: TimeGet, tracked_ms: int, daily_quota_ms: int) -> Seq<
    char,
> {
    "\u{231B} Tracked time "@ + period_text(selector) + ": "@ + hours_text(tracked_ms)
        + " out of "@ + hours_text(quota_of(selector, daily_quota_ms))
}

/// Writes the line reporting time tracked in a period against its quota.
pub fn time_report(selector: TimeGet, tracked_ms: i64, daily_quota_ms: i64) -> (r: String)
    requires
        i64::MIN <= 5 * daily_quota_ms <= i64::MAX,
    ensures
        r@ == time_report_text(selector, tracked_ms as int, daily_quota_ms as int),
{
    let mut out = String::from_str("\u{231B} Tracked time ");
    let (period, quota) = match selector {
        TimeGet::Today => ("today", daily_quota_ms),
        TimeGet::Week => ("this week", 5 * daily_quota_ms),
        TimeGet::Yesterday => ("yesterday", daily_quota_ms),
    };
    out.append(period);
    out.append(": ");
    out.append(fmt_time(tracked_ms).as_str());
    out.append(" out of ");
    out.append(fmt_time(quota).as_str());
    out
}

/// Reports the time tracked in the entries of a period's window against the
/// period's quota.
pub fn time_get(selector: TimeGet, entries: &TimeEntries, daily_quota_ms: i64) -> (r: Result<
    String,
    CoreError,
>)
    requires
        i64::MIN <= 5 * daily_quota_ms <= i64::MAX,
    ensures
        r is Ok <==> durations_valid(entries.data@) && i64::MIN <= total_duration(entries.data@)
            <= i64::MAX,
        r matches Ok(t) ==> t@ == time_report_text(
            selector,
            total_duration(entries.data@),
            daily_quota_ms as int,
        ),
        r matches Err(e) ==> e == CoreError::DataIntegrity(EntryField::Duration),
{
    match calculate_time(entries) {
        Ok(total) => Ok(time_report(selector, total, daily_quota_ms)),
        Err(e) => Err(e),
    }
}

/// Whole minutes of `ms`, rounded toward zero.
pub open spec fn whole_minutes(ms: int) -> int {
    if ms < 0 {
        -((-ms) / (MINUTE_MS as int))
    } else {
        ms / (MINUTE_MS as int)
    }
}

/// The lines naming an entry's task and its status.
pub open spec fn task_section(e: TimeEntry) -> Seq<char> {
    match e.task {
        Some(t) => "\u{2705} [TASK]       "@ + t.name@ + match e.task_url {
            Some(u) => " ("@ + u@ + ")"@,
            None => Seq::empty(),
        } + "\n"@ + "\u{1F4CA} [STATUS]     "@ + t.status@ + "\n"@,
        None => "No task associated with this entry\n"@,
    }
}

/// The report on an entry that ended at `end_ms` and lasted `duration_ms`:
/// its task, the time since it ended, and its duration.
pub open spec fn task_text(e: TimeEntry, now_ms: int, end_ms: int, duration_ms: int) -> Seq<char> {
    let since = whole_minutes(now_ms - end_ms);
    task_section(e) + "\u{23F0} [LAST ENTRY] "@ + signed_text(since) + " minutes ("@ + hours_text(
        since * MINUTE_MS,
    ) + ") ago\n"@ + "\u{231B} [DURATION]   "@ + signed_text(whole_minutes(duration_ms))
        + " minutes ("@ + hours_text(duration_ms) + ")\n"@
}

fn minutes_of(ms: i64) -> (r: i64)
    ensures
        r == whole_minutes(ms as int),
{
    ms / MINUTE_MS
}

/// Writes the report on one entry, as seen at `now`.
pub fn fmt_task(entry: &TimeEntry, now: &LocalTime) -> (r: Result<String, CoreError>)
    requires
        now.wf(),
    ensures
        entry.end_ms() is None ==> r == Err::<String, CoreError>(
            CoreError::DataIntegrity(EntryField::End),
        ),
        entry.end_ms() is Some && entry.duration_ms() is None ==> r == Err::<String, CoreError>(
            CoreError::DataIntegrity(EntryField::Duration),
        ),
        entry.end_ms() is Some && entry.duration_ms() is Some ==> (r matches Ok(t) && t@
            == task_text(
            *entry,
            now.epoch_ms as int,
            entry.end_ms()->0 as int,
            entry.duration_ms()->0 as int,
        )),
{
    let end = match parse_timestamp(entry.end.as_str()) {
        Some(v) => v,
        None => {
            return Err(CoreError::DataIntegrity(EntryField::End));
        },
    };
    let duration = match parse_i64(entry.duration.as_str()) {
        Some(v) => v,
        None => {
            return Err(CoreError::DataIntegrity(EntryField::Duration));
        },
    };
    let mut out = String::new();
    match &entry.task {
        Some(task) => {
            out.append("\u{2705} [TASK]       ");
            out.append(task.name.as_str());
            if let Some(url) = &entry.task_url {
                out.append(" (");
                out.append(url.as_str());
                out.append(")");
            }
            out.append("\n");
            out.append("\u{1F4CA} [STATUS]     ");
            out.append(task.status.as_str());
            out.append("\n");
        },
        None => {
            out.append("No task associated with this entry\n");
        },
    }
    assert(out@ =~= task_section(*entry));
    let since = minutes_of(now.epoch_ms - end);
    out.append("\u{23F0} [LAST ENTRY] ");
    push_signed(&mut out, since);
    out.append(" minutes (");
    out.append(fmt_time(since * MINUTE_MS).as_str());
    out.append(") ago\n");
    out.append("\u{231B} [DURATION]   ");
    push_signed(&mut out, minutes_of(duration));
    out.append(" minutes (");
    out.append(fmt_time(duration).as_str());
    out.append(")\n");
    assert(out@ =~= task_text(*entry, now.epoch_ms as int, end as int, duration as int));
    Ok(out)
}

/// The report where no entry was tracked since a window's start.
pub open spec fn no_tasks_text(days: u32, now: LocalTime) -> Seq<char> {
    "No tasks tracked since "@ + calendar_text(look_behind_day(days, now) * DAY_MS + SECOND_MS)
}

/// Reports on the last task tracked in a look-behind window of
/// `look_behind_days` days, from the entries the service returned for it.
pub fn task_get(arg: TaskGet, look_behind_days: u32, entries: &TimeEntries, now: &LocalTime) -> (r:
    Result<String, CoreError>)
    requires
        now.wf(),
    ensures
        arg == TaskGet::Sprint ==> r == Err::<String, CoreError>(CoreError::Unsupported),
        arg == TaskGet::Last && entries.data@.len() == 0 ==> (r matches Ok(t) && t@
            == no_tasks_text(look_behind_days, *now)),
        arg == TaskGet::Last && entries.data@.len() > 0 && !starts_valid(entries.data@) ==> r
            == Err::<String, CoreError>(CoreError::DataIntegrity(EntryField::Start)),
        arg == TaskGet::Last && entries.data@.len() > 0 && starts_valid(entries.data@) ==> exists|
            i: int,
        |
            is_latest(entries.data@, i) && ({
                let e = entries.data@[i];
                &&& e.end_ms() is None ==> r == Err::<String, CoreError>(
                    CoreError::DataIntegrity(EntryField::End),
                )
                &&& e.end_ms() is Some && e.duration_ms() is None ==> r == Err::<String, CoreError>(
                    CoreError::DataIntegrity(EntryField::Duration),
                )
                &&& e.end_ms() is Some && e.duration_ms() is Some ==> (r matches Ok(t) && t@
                    == task_text(
                    e,
                    now.epoch_ms as int,
                    e.end_ms()->0 as int,
                    e.duration_ms()->0 as int,
                ))
            }),
{
    match arg {
        TaskGet::Sprint => Err(CoreError::Unsupported),
        TaskGet::Last => match entries.latest_index() {
            Ok(i) => fmt_task(&entries.data[i], now),
            Err(CoreError::NotFound) => {
                let mut out = String::from_str("No tasks tracked since ");
                out.append(look_behind_start_text(look_behind_days, now).as_str());
                Ok(out)
            },
            Err(e) => Err(e),
        },
    }
}

/// Listing tasks is not offered.
pub fn tasks_list() -> (r: Result<(), CoreError>)
    ensures
        r == Err::<(), CoreError>(CoreError::Unsupported),
{
    Err(CoreError::Unsupported)
}

/// Setting a task's status is not offered.
pub fn task_set_status() -> (r: Result<(), CoreError>)
    ensures
        r == Err::<(), CoreError>(CoreError::Unsupported),
{
    Err(CoreError::Unsupported)
}

/// Commenting on a task is not offered.
pub fn task_create_comment() -> (r: Result<(), CoreError>)
    ensures
        r == Err::<(), CoreError>(CoreError::Unsupported),
{
    Err(CoreError::Unsupported)
}

} // verus!
