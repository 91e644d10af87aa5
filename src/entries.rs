//! Time entries as the service reports them, and what is read from them:
//! their total duration and the latest one.

use vstd::prelude::*;
use crate::decimal::{parse_i64, parsed_i64};
use crate::time::LATEST_MS;

verus! {

/// The task a time entry was tracked against.
#[derive(Clone, Debug)]
pub struct Task {
    pub id: String,
    pub name: String,
    pub status: String,
}

/// One time entry; its timestamps and duration are decimal strings of
/// milliseconds, as the service sends them.
#[derive(Clone, Debug)]
pub struct TimeEntry {
    pub id: String,
    pub task: Option<Task>,
    pub start: String,
    pub end: String,
    pub duration: String,
    pub task_url: Option<String>,
}

/// The entries of one query, in the order the service returned them.
#[derive(Clone, Debug)]
pub struct TimeEntries {
    pub data: Vec<TimeEntry>,
}

/// A numeric field of a time entry.
#[derive(Clone, Copy, Debug, PartialEq, Eq, Structural)]
pub enum EntryField {
    Start,
    End,
    Duration,
}

/// A rule of time tracking that a request would break.
#[derive(Clone, Copy, Debug, PartialEq, Eq, Structural)]
pub enum Precondition {
    /// Tracking against the last entry, which has no task.
    NoTaskOnLastEntry,
    /// Free tracking needs an explicit duration.
    DurationMissing,
    /// The computed duration is zero or negative.
    DurationNotPositive,
}

/// Why an operation of this library failed.
#[derive(Clone, Copy, Debug, PartialEq, Eq, Structural)]
pub enum CoreError {
    /// A field sent by the service does not hold a valid number.
    DataIntegrity(EntryField),
    /// The request breaks a rule of time tracking.
    Precondition(Precondition),
    /// No entry was tracked in the look-behind window.
    NotFound,
    /// The operation is not offered.
    Unsupported,
}

impl CoreError {
    pub open spec fn message_text(&self) -> Seq<char> {
        match self {
            CoreError::DataIntegrity(EntryField::Start) => "The service sent an entry whose start is not a valid timestamp"@,
            CoreError::DataIntegrity(EntryField::End) => "The service sent an entry whose end is not a valid timestamp"@,
            CoreError::DataIntegrity(EntryField::Duration) => "The service sent an entry whose duration is not a valid number"@,
            CoreError::Precondition(Precondition::NoTaskOnLastEntry) => "No task id found for last time entry"@,
            CoreError::Precondition(Precondition::DurationMissing) => "Duration must be set for free time tracking"@,
            CoreError::Precondition(Precondition::DurationNotPositive) => "The time to track must be positive"@,
            CoreError::NotFound => "No tasks tracked in the look-behind window"@,
            CoreError::Unsupported => "This operation is not supported yet"@,
        }
    }

    /// The text shown for the error.
    pub fn message(&self) -> (r: String)
        ensures
            r@ == self.message_text(),
    {
        let text = match self {
            CoreError::DataIntegrity(EntryField::Start) => "The service sent an entry whose start is not a valid timestamp",
            CoreError::DataIntegrity(EntryField::End) => "The service sent an entry whose end is not a valid timestamp",
            CoreError::DataIntegrity(EntryField::Duration) => "The service sent an entry whose duration is not a valid number",
            CoreError::Precondition(Precondition::NoTaskOnLastEntry) => "No task id found for last time entry",
            CoreError::Precondition(Precondition::DurationMissing) => "Duration must be set for free time tracking",
            CoreError::Precondition(Precondition::DurationNotPositive) => "The time to track must be positive",
            CoreError::NotFound => "No tasks tracked in the look-behind window",
            CoreError::Unsupported => "This operation is not supported yet",
        };
        String::from_str(text)
    }
}

/// A timestamp: a decimal number of milliseconds from 1970 to the year 9999.
pub open spec fn timestamp_value(s: Seq<char>) -> Option<i64> {
    match parsed_i64(s) {
        Some(v) => if 0 <= v <= LATEST_MS {
            Some(v)
        } else {
            None
        },
        None => None,
    }
}

/// Reads a timestamp field.
pub fn parse_timestamp(s: &str) -> (r: Option<i64>)
    ensures
        r == timestamp_value(s@),
{
    match parse_i64(s) {
        Some(v) => if 0 <= v && v <= LATEST_MS {
            Some(v)
        } else {
            None
        },
        None => None,
    }
}

impl TimeEntry {
    pub open spec fn duration_ms(&self) -> Option<i64> {
        parsed_i64(self.duration@)
    }

    pub open spec fn start_ms(&self) -> Option<i64> {
        timestamp_value(self.start@)
    }

    pub open spec fn end_ms(&self) -> Option<i64> {
        timestamp_value(self.end@)
    }
}

pub open spec fn durations_valid(s: Seq<TimeEntry>) -> bool {
    forall|i: int| 0 <= i < s.len() ==> (#[trigger] s[i]).duration_ms() is Some
}

/// The sum of the durations of `s`, in milliseconds.
pub open spec fn total_duration(s: Seq<TimeEntry>) -> int
    decreases s.len(),
{
    if s.len() == 0 {
        0
    } else {
        total_duration(s.drop_last()) + s.last().duration_ms()->0
    }
}

pub open spec fn starts_valid(s: Seq<TimeEntry>) -> bool {
    forall|i: int| 0 <= i < s.len() ==> (#[trigger] s[i]).start_ms() is Some
}

/// `i` is the entry of `s` that started last; of several that started at the
/// same time, the one listed last.
pub open spec fn is_latest(s: Seq<TimeEntry>, i: int) -> bool {
    &&& 0 <= i < s.len()
    &&& forall|j: int| 0 <= j < s.len() ==> (#[trigger] s[j]).start_ms()->0 <= s[i].start_ms()->0
    &&& forall|j: int| i < j < s.len() ==> (#[trigger] s[j]).start_ms()->0 < s[i].start_ms()->0
}

/// The total tracked time of a list of entries, in milliseconds.
pub fn calculate_time(entries: &TimeEntries) -> (r: Result<i64, CoreError>)
    ensures
        r is Ok <==> durations_valid(entries.data@) && i64::MIN <= total_duration(entries.data@)
            <= i64::MAX,
        r matches Ok(total) ==> total == total_duration(entries.data@),
        r matches Err(e) ==> e == CoreError::DataIntegrity(EntryField::Duration),
{
    let ghost s = entries.data@;
    let n = entries.data.len();
    let mut total: i128 = 0;
    let mut i: usize = 0;
    while i < n
        invariant
            n == s.len(),
            s == entries.data@,
            0 <= i <= n,
            total == total_duration(s.take(i as int)),
            forall|k: int| 0 <= k < i ==> (#[trigger] s[k]).duration_ms() is Some,
            -(i as int) * 0x8000_0000_0000_0000 <= total <= (i as int) * 0x8000_0000_0000_0000,
        decreases n - i,
    {
        match parse_i64(entries.data[i].duration.as_str()) {
            Some(d) => {
                assert(s.take(i as int + 1).drop_last() =~= s.take(i as int));
                total = total + d as i128;
                i = i + 1;
            },
            None => {
                return Err(CoreError::DataIntegrity(EntryField::Duration));
            },
        }
    }
    assert(s.take(n as int) =~= s);
    if i64::MIN as i128 <= total && total <= i64::MAX as i128 {
        Ok(total as i64)
    } else {
        Err(CoreError::DataIntegrity(EntryField::Duration))
    }
}

impl TimeEntries {
    /// The index of the entry that started last; of several that started at
    /// the same time, the one listed last.
    pub fn latest_index(&self) -> (r: Result<usize, CoreError>)
        ensures
            self.data@.len() == 0 ==> r == Err::<usize, CoreError>(CoreError::NotFound),
            self.data@.len() > 0 && !starts_valid(self.data@) ==> r == Err::<usize, CoreError>(
                CoreError::DataIntegrity(EntryField::Start),
            ),
            self.data@.len() > 0 && starts_valid(self.data@) ==> (r matches Ok(i) && is_latest(
                self.data@,
                i as int,
            )),
    {
        let ghost s = self.data@;
        let n = self.data.len();
        if n == 0 {
            return Err(CoreError::NotFound);
        }
        let mut best: usize = 0;
        let mut best_start: i64 = 0;
        let mut i: usize = 0;
        while i < n
            invariant
                n == s.len(),
                s == self.data@,
                0 <= i <= n,
                n > 0,
                forall|k: int| 0 <= k < i ==> (#[trigger] s[k]).start_ms() is Some,
                i > 0 ==> best < i && s[best as int].start_ms() == Some(best_start),
                forall|j: int| 0 <= j < i ==> (#[trigger] s[j]).start_ms()->0 <= best_start,
                forall|j: int| best < j < i ==> (#[trigger] s[j]).start_ms()->0 < best_start,
            decreases n - i,
        {
            match parse_timestamp(self.data[i].start.as_str()) {
                Some(t) => {
                    if i == 0 || t >= best_start {
                        best = i;
                        best_start = t;
                    }
                    i = i + 1;
                },
                None => {
                    return Err(CoreError::DataIntegrity(EntryField::Start));
                },
            }
        }
        Ok(best)
    }
}

} // verus!
