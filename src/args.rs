//! The command line: which report or tracking command to run.

use vstd::prelude::*;
use vstd::slice::slice_subrange;
use itertools::{Either, Itertools};
use crate::api::TaskGet;
use crate::decimal::{parse_u32, parsed_u32};
use crate::time::TimeGet;
use crate::track::{TimeTrack, TimeTrackFlag, TimeTrackMode};

verus! {

/// A command line the client cannot run.
#[derive(Clone, Debug)]
pub enum ArgError {
    ArgCount(String),
    ArgValue(String),
}

/// The kind of a command.
#[derive(Clone, Copy, Debug, PartialEq, Eq, Structural)]
pub enum Mode {
    TimeGet,
    TimeTrack,
}

/// A command read from the command line.
#[derive(Clone, Debug)]
pub enum Command {
    TimeGet(TimeGet),
    TaskGet(TaskGet),
    TimeTrack(TimeTrack),
}

impl ArgError {
    pub open spec fn message_text(&self) -> Seq<char> {
        match self {
            ArgError::ArgCount(m) => "\u{1F6AB} [ARGUMENT ERROR] Invalid number of arguments: "@
                + m@,
            ArgError::ArgValue(m) => "\u{1F6AB} [ARGUMENT ERROR] Invalid argument value: "@ + m@,
        }
    }

    /// The text shown for the error.
    pub fn message(&self) -> (r: String)
        ensures
            r@ == self.message_text(),
    {
        match self {
            ArgError::ArgCount(m) => {
                let mut out = String::from_str(
                    "\u{1F6AB} [ARGUMENT ERROR] Invalid number of arguments: ",
                );
                out.append(m.as_str());
                out
            },
            ArgError::ArgValue(m) => {
                let mut out = String::from_str(
                    "\u{1F6AB} [ARGUMENT ERROR] Invalid argument value: ",
                );
                out.append(m.as_str());
                out
            },
        }
    }
}

pub open spec fn is_description_flag(s: Seq<char>) -> bool {
    s == "-D"@ || s == "--description"@
}

pub open spec fn is_duration_flag(s: Seq<char>) -> bool {
    s == "-d"@ || s == "--duration"@
}

/// The first chunk of a tracking command's arguments, read two at a time.
pub open spec fn chunk(a: Seq<String>) -> Seq<String> {
    if a.len() < 2 {
        a
    } else {
        a.take(2)
    }
}

/// The rest of the arguments after the first chunk.
pub open spec fn after_chunk(a: Seq<String>) -> Seq<String> {
    if a.len() < 2 {
        Seq::empty()
    } else {
        a.subrange(2, a.len() as int)
    }
}

/// A chunk is a flag with its value where its first argument starts with
/// `-`; any other chunk is a positional argument, whose partner is skipped.
pub open spec fn is_flag_chunk(c: Seq<String>) -> bool {
    c.len() > 0 && c[0]@.len() > 0 && c[0]@[0] == '-'
}

/// The positional arguments, in order.
pub open spec fn positionals_of(a: Seq<String>) -> Seq<String>
    decreases a.len(),
{
    if a.len() == 0 {
        Seq::empty()
    } else if is_flag_chunk(a) {
        positionals_of(after_chunk(a))
    } else {
        seq![a[0]] + positionals_of(after_chunk(a))
    }
}

/// The flag chunks, in order.
pub open spec fn flag_chunks(a: Seq<String>) -> Seq<Seq<String>>
    decreases a.len(),
{
    if a.len() == 0 {
        Seq::empty()
    } else if is_flag_chunk(a) {
        seq![chunk(a)] + flag_chunks(after_chunk(a))
    } else {
        flag_chunks(after_chunk(a))
    }
}

/// What a flag chunk reads as: a flag, or the message saying what is wrong.
pub open spec fn flag_outcome(c: Seq<String>) -> Result<TimeTrackFlag, Seq<char>> {
    let key = c[0]@;
    if is_description_flag(key) || is_duration_flag(key) {
        if c.len() < 2 {
            Err("Missing value for flag "@ + key)
        } else if is_description_flag(key) {
            Ok(TimeTrackFlag::Description(c[1]))
        } else {
            match parsed_u32(c[1]@) {
                Some(v) => Ok(TimeTrackFlag::Duration(v)),
                None => Err("Invalid value for flag "@ + key),
            }
        }
    } else {
        Err("Invalid flag: "@ + key)
    }
}

/// `r` is how the flag chunk `c` reads.
pub open spec fn reads_flag(c: Seq<String>, r: Result<TimeTrackFlag, ArgError>) -> bool {
    match (flag_outcome(c), r) {
        (Ok(f), Ok(g)) => f == g,
        (Err(m), Err(ArgError::ArgValue(e))) => e@ == m,
        _ => false,
    }
}

/// How each flag chunk of the arguments reads, in order.
pub open spec fn outcomes(a: Seq<String>) -> Seq<Result<TimeTrackFlag, Seq<char>>> {
    flag_chunks(a).map_values(|c: Seq<String>| flag_outcome(c))
}

/// The message of the first flag that does not read.
pub open spec fn first_error(o: Seq<Result<TimeTrackFlag, Seq<char>>>) -> Option<Seq<char>>
    decreases o.len(),
{
    if o.len() == 0 {
        None
    } else {
        match first_error(o.drop_last()) {
            Some(m) => Some(m),
            None => match o.last() {
                Err(m) => Some(m),
                Ok(_) => None,
            },
        }
    }
}

/// The flags read, in order.
pub open spec fn ok_flags(o: Seq<Result<TimeTrackFlag, Seq<char>>>) -> Seq<TimeTrackFlag>
    decreases o.len(),
{
    if o.len() == 0 {
        Seq::empty()
    } else {
        ok_flags(o.drop_last()) + match o.last() {
            Ok(f) => seq![f],
            Err(_) => Seq::empty(),
        }
    }
}

/// The mode of a tracking command with these positional arguments.
pub open spec fn track_mode(positionals: Seq<String>) -> TimeTrackMode {
    if positionals.len() == 0 {
        TimeTrackMode::Free
    } else if positionals[0]@ == "last"@ {
        TimeTrackMode::Last
    } else {
        TimeTrackMode::TaskId(positionals[0])
    }
}

fn same_text(s: &String, t: &str) -> (r: bool)
    ensures
        r == (s@ == t@),
{
    *s == String::from_str(t)
}

fn starts_with_dash(s: &String) -> (r: bool)
    ensures
        r == (s@.len() > 0 && s@[0] == '-'),
{
    let t = s.as_str();
    t.unicode_len() > 0 && t.get_char(0) == '-'
}

fn with_text(prefix: &str, s: &String) -> (r: String)
    ensures
        r@ == prefix@ + s@,
{
    let mut out = String::from_str(prefix);
    out.append(s.as_str());
    out
}

/// How one chunk of a tracking command's arguments reads.
#[derive(Debug)]
pub enum ChunkRead {
    Positional(String),
    Flag(Result<TimeTrackFlag, ArgError>),
}

/// Reads one chunk of one or two arguments.
pub fn read_chunk(c: &[String]) -> (r: ChunkRead)
    requires
        1 <= c@.len() <= 2,
    ensures
        match r {
            ChunkRead::Positional(p) => !is_flag_chunk(c@) && p == c@[0],
            ChunkRead::Flag(f) => is_flag_chunk(c@) && reads_flag(c@, f),
        },
{
    let key = &c[0];
    if !starts_with_dash(key) {
        return ChunkRead::Positional(key.clone());
    }
    let is_description = same_text(key, "-D") || same_text(key, "--description");
    let is_duration = same_text(key, "-d") || same_text(key, "--duration");
    let read = if is_description || is_duration {
        if c.len() < 2 {
            Err(ArgError::ArgValue(with_text("Missing value for flag ", key)))
        } else if is_description {
            Ok(TimeTrackFlag::Description(c[1].clone()))
        } else {
            match parse_u32(c[1].as_str()) {
                Some(v) => Ok(TimeTrackFlag::Duration(v)),
                None => Err(ArgError::ArgValue(with_text("Invalid value for flag ", key))),
            }
        }
    } else {
        Err(ArgError::ArgValue(with_text("Invalid flag: ", key)))
    };
    ChunkRead::Flag(read)
}

/// Relies on itertools' `Itertools::partition_map` over the slice's
/// `chunks(2)`: each chunk is read by `read_chunk`, and the positional
/// arguments and the flag reads come out apart, each in the order of the
/// chunks.
#[verifier::external_body]
fn partition_chunks(args: &[String]) -> (r: (Vec<String>, Vec<Result<TimeTrackFlag, ArgError>>))
    ensures
        r.0@ == positionals_of(args@),
        r.1@.len() == flag_chunks(args@).len(),
        forall|k: int| 0 <= k < r.1@.len() ==> reads_flag(flag_chunks(args@)[k], #[trigger] r.1@[k]),
{
    args.chunks(2).partition_map(|c| match read_chunk(c) {
        ChunkRead::Positional(p) => Either::Left(p),
        ChunkRead::Flag(f) => Either::Right(f),
    })
}

/// Reads the arguments of a tracking command, from the first after
/// `timetrack`: two at a time, a flag and its value or a positional argument
/// (whose partner is skipped). The first positional argument names the task
/// (`last` for the last entry's); with none the time is tracked freely.
pub fn parse_track_args(args: &Vec<String>, from: usize) -> (r: Result<TimeTrack, ArgError>)
    requires
        from <= args@.len(),
    ensures
        ({
            let a = args@.subrange(from as int, args@.len() as int);
            match first_error(outcomes(a)) {
                Some(m) => r matches Err(ArgError::ArgValue(e)) && e@ == m,
                None => r matches Ok(tt) && tt.flags@ == ok_flags(outcomes(a)) && tt.mode
                    == track_mode(positionals_of(a)),
            }
        }),
{
    let ghost a = args@.subrange(from as int, args@.len() as int);
    let ghost o = outcomes(a);
    let rest = slice_subrange(args.as_slice(), from, args.len());
    let (positionals, reads) = partition_chunks(rest);
    let mut flags: Vec<TimeTrackFlag> = Vec::new();
    let mut i: usize = 0;
    while i < reads.len()
        invariant
            a == args@.subrange(from as int, args@.len() as int),
            o == outcomes(a),
            reads@.len() == o.len(),
            forall|k: int| 0 <= k < o.len() ==> reads_flag(flag_chunks(a)[k], #[trigger] reads@[k]),
            0 <= i <= reads@.len(),
            first_error(o.take(i as int)) is None,
            flags@ == ok_flags(o.take(i as int)),
        decreases reads@.len() - i,
    {
        assert(o.take(i as int + 1).drop_last() =~= o.take(i as int));
        assert(o[i as int] == flag_outcome(flag_chunks(a)[i as int]));
        match &reads[i] {
            Ok(TimeTrackFlag::Duration(m)) => {
                flags.push(TimeTrackFlag::Duration(*m));
            },
            Ok(TimeTrackFlag::Description(d)) => {
                flags.push(TimeTrackFlag::Description(d.clone()));
            },
            Err(ArgError::ArgValue(m)) => {
                proof {
                    first_error_of_prefix(o, i as int + 1);
                }
                return Err(ArgError::ArgValue(m.clone()));
            },
            Err(ArgError::ArgCount(m)) => {
                return Err(ArgError::ArgCount(m.clone()));
            },
        }
        i = i + 1;
    }
    assert(o.take(o.len() as int) =~= o);
    let mode = if positionals.len() == 0 {
        TimeTrackMode::Free
    } else if same_text(&positionals[0], "last") {
        TimeTrackMode::Last
    } else {
        TimeTrackMode::TaskId(positionals[0].clone())
    };
    Ok(TimeTrack { mode, flags })
}

/// Once a prefix of the reads holds an error, the first error of the whole
/// is that of the prefix.
proof fn first_error_of_prefix(o: Seq<Result<TimeTrackFlag, Seq<char>>>, n: int)
    requires
        0 <= n <= o.len(),
        first_error(o.take(n)) is Some,
    ensures
        first_error(o) == first_error(o.take(n)),
    decreases o.len() - n,
{
    if n < o.len() {
        assert(o.take(n + 1).drop_last() =~= o.take(n));
        first_error_of_prefix(o, n + 1);
    } else {
        assert(o.take(n) =~= o);
    }
}

pub open spec fn selector_of(s: Seq<char>) -> Option<TimeGet> {
    if s == "today"@ {
        Some(TimeGet::Today)
    } else if s == "week"@ {
        Some(TimeGet::Week)
    } else if s == "yesterday"@ {
        Some(TimeGet::Yesterday)
    } else {
        None
    }
}

pub open spec fn task_arg_of(s: Seq<char>) -> Option<TaskGet> {
    if s == "last"@ {
        Some(TaskGet::Last)
    } else if s == "sprint"@ {
        Some(TaskGet::Sprint)
    } else {
        None
    }
}

/// Reads a command line, without the program's name: `timeget` with a
/// period, `taskget` with `last` or `sprint`, or `timetrack` with its
/// arguments.
pub fn parse_args(args: &Vec<String>) -> (r: Result<Command, ArgError>)
    ensures
        args@.len() < 2 ==> (r matches Err(ArgError::ArgCount(m)) && m@
            == "Expects at least two arguments"@),
        args@.len() >= 2 && args@[0]@ == "timeget"@ ==> match selector_of(args@[1]@) {
            Some(sel) => r matches Ok(Command::TimeGet(s)) && s == sel,
            None => r matches Err(ArgError::ArgValue(m)) && m@
                == "Invalid second argument for first argument 'timeget'. Only 'today', 'week' and 'yesterday' are valid!"@,
        },
        args@.len() >= 2 && args@[0]@ == "taskget"@ ==> match task_arg_of(args@[1]@) {
            Some(arg) => r matches Ok(Command::TaskGet(t)) && t == arg,
            None => r matches Err(ArgError::ArgValue(m)) && m@
                == "Invalid second argument for first argument 'taskget'. Only 'last' and 'sprint' are valid!"@,
        },
        args@.len() >= 2 && args@[0]@ == "timetrack"@ ==> ({
            let a = args@.subrange(1, args@.len() as int);
            match first_error(outcomes(a)) {
                Some(m) => r matches Err(ArgError::ArgValue(e)) && e@ == m,
                None => r matches Ok(Command::TimeTrack(tt)) && tt.flags@ == ok_flags(outcomes(a))
                    && tt.mode == track_mode(positionals_of(a)),
            }
        }),
        args@.len() >= 2 && args@[0]@ != "timeget"@ && args@[0]@ != "taskget"@ && args@[0]@
            != "timetrack"@ ==> (r matches Err(ArgError::ArgValue(m)) && m@
            == "Invalid first argument! Only 'timeget', 'taskget' and 'timetrack' are valid!"@),
{
    proof {
        reveal_strlit("timeget");
        reveal_strlit("taskget");
        reveal_strlit("timetrack");
        assert("timeget"@[1] != "taskget"@[1]);
        assert("timeget"@[4] != "timetrack"@[4]);
        assert("taskget"@[1] != "timetrack"@[1]);
    }
    if args.len() < 2 {
        return Err(ArgError::ArgCount(String::from_str("Expects at least two arguments")));
    }
    let first = &args[0];
    let second = &args[1];
    if same_text(first, "timeget") {
        if same_text(second, "today") {
            Ok(Command::TimeGet(TimeGet::Today))
        } else if same_text(second, "week") {
            Ok(Command::TimeGet(TimeGet::Week))
        } else if same_text(second, "yesterday") {
            Ok(Command::TimeGet(TimeGet::Yesterday))
        } else {
            Err(
                ArgError::ArgValue(
                    String::from_str(
                        "Invalid second argument for first argument 'timeget'. Only 'today', 'week' and 'yesterday' are valid!",
                    ),
                ),
            )
        }
    } else if same_text(first, "taskget") {
        if same_text(second, "last") {
            Ok(Command::TaskGet(TaskGet::Last))
        } else if same_text(second, "sprint") {
            Ok(Command::TaskGet(TaskGet::Sprint))
        } else {
            Err(
                ArgError::ArgValue(
                    String::from_str(
                        "Invalid second argument for first argument 'taskget'. Only 'last' and 'sprint' are valid!",
                    ),
                ),
            )
        }
    } else if same_text(first, "timetrack") {
        match parse_track_args(args, 1) {
            Ok(tt) => Ok(Command::TimeTrack(tt)),
            Err(e) => Err(e),
        }
    } else {
        Err(
            ArgError::ArgValue(
                String::from_str(
                    "Invalid first argument! Only 'timeget', 'taskget' and 'timetrack' are valid!",
                ),
            ),
        )
    }
}

} // verus!
