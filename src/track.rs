//! Tracking requests: the new time entry that a tracking command records,
//! computed from its flags, the last entry and the current time.

use vstd::prelude::*;
use crate::decimal::{push_signed, signed_text};
use crate::display::{fmt_time, hours_text};
use crate::entries::{parse_timestamp, CoreError, EntryField, Precondition, TimeEntry};
use crate::time::{LocalTime, MINUTE_MS};

verus! {

/// An option of a tracking command.
#[derive(Clone, Debug)]
pub enum TimeTrackFlag {
    Description(String),
    /// A duration in minutes.
    Duration(u32),
}

/// What a tracking command records time against.
#[derive(Clone, Debug)]
pub enum TimeTrackMode {
    /// The task of the last tracked entry.
    Last,
    /// No task.
    Free,
    /// The task with this id.
    TaskId(String),
}

/// A tracking command.
#[derive(Clone, Debug)]
pub struct TimeTrack {
    pub mode: TimeTrackMode,
    pub flags: Vec<TimeTrackFlag>,
}

/// A new time entry, ready to be sent.
#[derive(Clone, Debug)]
pub struct TrackingRequest {
    pub start_ms: i64,
    pub end_ms: i64,
    pub duration_ms: i64,
    pub task_id: Option<String>,
    pub description: Option<String>,
}

impl TrackingRequest {
    /// A recordable entry lasts from its start to its end, for a positive time.
    pub open spec fn wf(&self) -> bool {
        &&& self.duration_ms == self.end_ms - self.start_ms
        &&& self.duration_ms > 0
    }
}

/// The minutes of the last duration flag, or 0 where there is none.
pub open spec fn explicit_minutes(flags: Seq<TimeTrackFlag>) -> nat
    decreases flags.len(),
{
    if flags.len() == 0 {
        0
    } else {
        match flags.last() {
            TimeTrackFlag::Duration(m) => m as nat,
            _ => explicit_minutes(flags.drop_last()),
        }
    }
}

/// The text of the last description flag, or nothing where there is none.
pub open spec fn description_text(flags: Seq<TimeTrackFlag>) -> Seq<char>
    decreases flags.len(),
{
    if flags.len() == 0 {
        Seq::empty()
    } else {
        match flags.last() {
            TimeTrackFlag::Description(d) => d@,
            _ => description_text(flags.drop_last()),
        }
    }
}

/// The duration that continues `last`: the explicit one if given, else the
/// time from the end of `last` to `now_ms`, which must be positive.
pub open spec fn continuation(minutes: nat, last: &TimeEntry, now_ms: int) -> Result<int, CoreError> {
    if minutes != 0 {
        Ok(minutes * MINUTE_MS)
    } else {
        match last.end_ms() {
            None => Err(CoreError::DataIntegrity(EntryField::End)),
            Some(end) => if now_ms - end > 0 {
                Ok(now_ms - end)
            } else {
                Err(CoreError::Precondition(Precondition::DurationNotPositive))
            },
        }
    }
}

/// The duration a tracking command records, or why it records none.
pub open spec fn tracked_duration(
    mode: TimeTrackMode,
    minutes: nat,
    last: Option<&TimeEntry>,
    now_ms: int,
) -> Result<int, CoreError> {
    match mode {
        TimeTrackMode::Free => if minutes == 0 {
            Err(CoreError::Precondition(Precondition::DurationMissing))
        } else {
            Ok(minutes * MINUTE_MS)
        },
        TimeTrackMode::Last => match last {
            None => Err(CoreError::NotFound),
            Some(e) => if e.task is None {
                Err(CoreError::Precondition(Precondition::NoTaskOnLastEntry))
            } else {
                continuation(minutes, e, now_ms)
            },
        },
        TimeTrackMode::TaskId(_) => if minutes != 0 {
            Ok(minutes * MINUTE_MS)
        } else {
            match last {
                None => Err(CoreError::NotFound),
                Some(e) => continuation(0, e, now_ms),
            }
        },
    }
}

/// The id of the task a tracking command records against.
pub open spec fn tracked_task(mode: TimeTrackMode, last: Option<&TimeEntry>) -> Option<Seq<char>> {
    match mode {
        TimeTrackMode::Free => None,
        TimeTrackMode::Last => Some(last->0.task->0.id@),
        TimeTrackMode::TaskId(id) => Some(id@),
    }
}

pub open spec fn text_of(o: Option<String>) -> Option<Seq<char>> {
    match o {
        Some(s) => Some(s@),
        None => None,
    }
}

/// Reads the flags: the last duration given, in minutes (0 where none is),
/// and the last description given (empty where none is).
pub fn flag_values(flags: &Vec<TimeTrackFlag>) -> (r: (u32, String))
    ensures
        r.0 == explicit_minutes(flags@),
        r.1@ == description_text(flags@),
{
    let ghost s = flags@;
    let mut minutes: u32 = 0;
    let mut description = String::new();
    let mut i: usize = 0;
    while i < flags.len()
        invariant
            s == flags@,
            0 <= i <= s.len(),
            minutes == explicit_minutes(s.take(i as int)),
            description@ == description_text(s.take(i as int)),
        decreases s.len() - i,
    {
        assert(s.take(i as int + 1).drop_last() =~= s.take(i as int));
        match &flags[i] {
            TimeTrackFlag::Duration(m) => {
                minutes = *m;
            },
            TimeTrackFlag::Description(d) => {
                description = d.clone();
            },
        }
        i = i + 1;
    }
    assert(s.take(s.len() as int) =~= s);
    (minutes, description)
}

fn continue_from(minutes: u32, last: &TimeEntry, now_ms: i64) -> (r: Result<i64, CoreError>)
    requires
        0 <= now_ms <= crate::time::LATEST_MS,
    ensures
        match continuation(minutes as nat, last, now_ms as int) {
            Ok(d) => r == Ok::<i64, CoreError>(d as i64) && d > 0 && d <= now_ms + 60_000 * 0xffff_ffff,
            Err(e) => r == Err::<i64, CoreError>(e),
        },
{
    if minutes != 0 {
        return Ok(minutes as i64 * MINUTE_MS);
    }
    match parse_timestamp(last.end.as_str()) {
        None => Err(CoreError::DataIntegrity(EntryField::End)),
        Some(end) => if now_ms - end > 0 {
            Ok(now_ms - end)
        } else {
            Err(CoreError::Precondition(Precondition::DurationNotPositive))
        },
    }
}

/// Computes the entry a tracking command records at `now`: it ends at `now`
/// and lasts the explicit duration, or, where none is given and a task is
/// continued, the time since the last entry ended.
pub fn compute_tracking(args: &TimeTrack, last: Option<&TimeEntry>, now: &LocalTime) -> (r: Result<
    TrackingRequest,
    CoreError,
>)
    requires
        now.wf(),
    ensures
        ({
            let outcome = tracked_duration(
                args.mode,
                explicit_minutes(args.flags@),
                last,
                now.epoch_ms as int,
            );
            match outcome {
                Ok(d) => r matches Ok(req) && req.wf() && req.duration_ms == d
                    && req.end_ms == now.epoch_ms && req.start_ms == now.epoch_ms - d
                    && text_of(req.task_id) == tracked_task(args.mode, last) && text_of(
                    req.description,
                ) == (if description_text(args.flags@).len() == 0 {
                    None
                } else {
                    Some(description_text(args.flags@))
                }),
                Err(e) => r == Err::<TrackingRequest, CoreError>(e),
            }
        }),
{
    let (minutes, description) = flag_values(&args.flags);
    let now_ms = now.epoch_ms;
    let (duration, task_id) = match &args.mode {
        TimeTrackMode::Free => {
            if minutes == 0 {
                return Err(CoreError::Precondition(Precondition::DurationMissing));
            }
            (minutes as i64 * MINUTE_MS, None)
        },
        TimeTrackMode::Last => match last {
            None => {
                return Err(CoreError::NotFound);
            },
            Some(e) => match &e.task {
                None => {
                    return Err(CoreError::Precondition(Precondition::NoTaskOnLastEntry));
                },
                Some(task) => match continue_from(minutes, e, now_ms) {
                    Ok(d) => (d, Some(task.id.clone())),
                    Err(err) => {
                        return Err(err);
                    },
                },
            },
        },
        TimeTrackMode::TaskId(id) => {
            if minutes != 0 {
                (minutes as i64 * MINUTE_MS, Some(id.clone()))
            } else {
                match last {
                    None => {
                        return Err(CoreError::NotFound);
                    },
                    Some(e) => match continue_from(0, e, now_ms) {
                        Ok(d) => (d, Some(id.clone())),
                        Err(err) => {
                            return Err(err);
                        },
                    },
                }
            }
        },
    };
    let description = if description.as_str().is_empty() {
        None
    } else {
        Some(description)
    };
    Ok(
        TrackingRequest {
            start_ms: now_ms - duration,
            end_ms: now_ms,
            duration_ms: duration,
            task_id,
            description,
        },
    )
}

impl TimeTrack {
    /// Whether the command needs the last tracked entry: to continue its
    /// task, or to measure the gap since it ended.
    pub fn needs_last_entry(&self) -> (r: bool)
        ensures
            r == (self.mode is Last || (self.mode is TaskId && explicit_minutes(self.flags@) == 0)),
    {
        match &self.mode {
            TimeTrackMode::Last => true,
            TimeTrackMode::Free => false,
            TimeTrackMode::TaskId(_) => flag_values(&self.flags).0 == 0,
        }
    }
}

/// Continuing the last task with no explicit duration records exactly the
/// gap between the end of the last entry and now.
pub proof fn last_mode_backfills_gap(flags: Seq<TimeTrackFlag>, last: &TimeEntry, now_ms: int)
    requires
        explicit_minutes(flags) == 0,
        last.task is Some,
        last.end_ms() is Some,
        last.end_ms()->0 < now_ms,
    ensures
        tracked_duration(TimeTrackMode::Last, explicit_minutes(flags), Some(last), now_ms) == Ok::<
            int,
            CoreError,
        >(now_ms - last.end_ms()->0),
{
}

/// Free tracking without an explicit duration is refused as breaking a
/// rule of time tracking, whatever the last entry and the time.
pub proof fn free_tracking_needs_duration(
    flags: Seq<TimeTrackFlag>,
    last: Option<&TimeEntry>,
    now_ms: int,
)
    requires
        explicit_minutes(flags) == 0,
    ensures
        tracked_duration(TimeTrackMode::Free, explicit_minutes(flags), last, now_ms) == Err::<
            int,
            CoreError,
        >(CoreError::Precondition(Precondition::DurationMissing)),
{
}

pub open spec fn field(key: Seq<char>, value: Seq<char>) -> Seq<(Seq<char>, Seq<char>)> {
    seq![(key, value)]
}

pub open spec fn fields_view(v: Seq<(String, String)>) -> Seq<(Seq<char>, Seq<char>)> {
    v.map_values(|p: (String, String)| (p.0@, p.1@))
}

/// The fields of the JSON object the service takes for a new time entry,
/// every value a string: the description and task id where present, then the
/// start, end and duration in milliseconds.
pub open spec fn body_fields_of(req: TrackingRequest) -> Seq<(Seq<char>, Seq<char>)> {
    (match req.description {
        Some(d) => field("description"@, d@),
        None => Seq::empty(),
    }) + (match req.task_id {
        Some(t) => field("tid"@, t@),
        None => Seq::empty(),
    }) + field("start"@, signed_text(req.start_ms as int)) + field(
        "end"@,
        signed_text(req.end_ms as int),
    ) + field("duration"@, signed_text(req.duration_ms as int))
}

/// The text of a JSON object whose members are `fields`, each value a string.
pub uninterp spec fn json_object_text(fields: Seq<(Seq<char>, Seq<char>)>) -> Seq<char>;

/// Relies on serde_json: `Value::to_string` of an object built from string
/// members writes JSON text that depends on those members alone.
#[verifier::external_body]
fn json_object(fields: &Vec<(String, String)>) -> (r: String)
    ensures
        r@ == json_object_text(fields_view(fields@)),
{
    let object: serde_json::Map<String, serde_json::Value> = fields
        .iter()
        .map(|(k, v)| (k.clone(), serde_json::Value::String(v.clone())))
        .collect();
    serde_json::Value::Object(object).to_string()
}

fn number_text(v: i64) -> (r: String)
    ensures
        r@ == signed_text(v as int),
{
    let mut out = String::new();
    push_signed(&mut out, v);
    out
}

impl TrackingRequest {
    /// The members of the request body, in order.
    pub fn body_fields(&self) -> (r: Vec<(String, String)>)
        ensures
            fields_view(r@) == body_fields_of(*self),
    {
        proof {
            reveal_strlit("description");
            reveal_strlit("tid");
            reveal_strlit("start");
            reveal_strlit("end");
            reveal_strlit("duration");
        }
        let mut fields: Vec<(String, String)> = Vec::new();
        if let Some(d) = &self.description {
            fields.push((String::from_str("description"), d.clone()));
        }
        if let Some(t) = &self.task_id {
            fields.push((String::from_str("tid"), t.clone()));
        }
        fields.push((String::from_str("start"), number_text(self.start_ms)));
        fields.push((String::from_str("end"), number_text(self.end_ms)));
        fields.push((String::from_str("duration"), number_text(self.duration_ms)));
        assert(fields_view(fields@) =~= body_fields_of(*self));
        fields
    }

    /// The JSON body that records this entry.
    pub fn body(&self) -> (r: String)
        ensures
            r@ == json_object_text(body_fields_of(*self)),
    {
        json_object(&self.body_fields())
    }
}

/// The line that confirms a recorded entry, naming its task where known.
pub open spec fn tracked_text(duration_ms: int, task_name: Option<Seq<char>>) -> Seq<char> {
    "\u{231B} Tracked "@ + hours_text(duration_ms) + match task_name {
        Some(n) => " for task "@ + n,
        None => Seq::empty(),
    }
}

/// Writes the line that confirms a recorded entry.
pub fn tracked_message(duration_ms: i64, task_name: Option<&String>) -> (r: String)
    ensures
        r@ == tracked_text(
            duration_ms as int,
            match task_name {
                Some(n) => Some(n@),
                None => None,
            },
        ),
{
    let mut out = String::from_str("\u{231B} Tracked ");
    out.append(fmt_time(duration_ms).as_str());
    if let Some(n) = task_name {
        out.append(" for task ");
        out.append(n.as_str());
    }
    out
}

/// The task name a confirmation shows: that of the continued last entry.
pub open spec fn confirmed_task_name(mode: TimeTrackMode, last: Option<&TimeEntry>) -> Option<
    Seq<char>,
> {
    match (mode, last) {
        (TimeTrackMode::Last, Some(e)) => match e.task {
            Some(t) => Some(t.name@),
            None => None,
        },
        _ => None,
    }
}

/// Writes the line that confirms the entry a tracking command recorded,
/// naming the task where the last entry's task was continued.
pub fn time_track_message(args: &TimeTrack, last: Option<&TimeEntry>, req: &TrackingRequest) -> (r:
    String)
    ensures
        r@ == tracked_text(req.duration_ms as int, confirmed_task_name(args.mode, last)),
{
    let name = match (&args.mode, last) {
        (TimeTrackMode::Last, Some(e)) => match &e.task {
            Some(t) => Some(&t.name),
            None => None,
        },
        _ => None,
    };
    tracked_message(req.duration_ms, name)
}

} // verus!
