use cupcli::api::TaskGet;
use cupcli::args::{parse_args, parse_track_args, read_chunk, ArgError, ChunkRead, Command};
use cupcli::time::TimeGet;
use cupcli::track::{TimeTrackFlag, TimeTrackMode};

fn words(s: &[&str]) -> Vec<String> {
    s.iter().map(|w| w.to_string()).collect()
}

fn value_error(r: Result<Command, ArgError>) -> String {
    match r {
        Err(ArgError::ArgValue(m)) => m,
        other => panic!("expected a value error, got {:?}", other),
    }
}

#[test]
fn too_few_arguments() {
    match parse_args(&words(&["timeget"])) {
        Err(ArgError::ArgCount(m)) => assert_eq!(m, "Expects at least two arguments"),
        other => panic!("{:?}", other),
    }
}

#[test]
fn time_get_periods() {
    assert!(matches!(parse_args(&words(&["timeget", "today"])), Ok(Command::TimeGet(TimeGet::Today))));
    assert!(matches!(parse_args(&words(&["timeget", "week"])), Ok(Command::TimeGet(TimeGet::Week))));
    assert!(matches!(parse_args(&words(&["timeget", "yesterday"])), Ok(Command::TimeGet(TimeGet::Yesterday))));
    assert_eq!(
        value_error(parse_args(&words(&["timeget", "month"]))),
        "Invalid second argument for first argument 'timeget'. Only 'today', 'week' and 'yesterday' are valid!"
    );
}

#[test]
fn task_get_arguments() {
    assert!(matches!(parse_args(&words(&["taskget", "last"])), Ok(Command::TaskGet(TaskGet::Last))));
    assert!(matches!(parse_args(&words(&["taskget", "sprint"])), Ok(Command::TaskGet(TaskGet::Sprint))));
    assert_eq!(
        value_error(parse_args(&words(&["taskget", "first"]))),
        "Invalid second argument for first argument 'taskget'. Only 'last' and 'sprint' are valid!"
    );
}

#[test]
fn unknown_command() {
    assert_eq!(
        value_error(parse_args(&words(&["timeset", "today"]))),
        "Invalid first argument! Only 'timeget', 'taskget' and 'timetrack' are valid!"
    );
}

#[test]
fn track_last_with_flags() {
    match parse_args(&words(&["timetrack", "-d", "30", "-D", "standup", "last"])) {
        Ok(Command::TimeTrack(t)) => {
            assert!(matches!(t.mode, TimeTrackMode::Last));
            assert_eq!(t.flags.len(), 2);
            assert!(matches!(t.flags[0], TimeTrackFlag::Duration(30)));
            assert!(matches!(&t.flags[1], TimeTrackFlag::Description(d) if d == "standup"));
        }
        other => panic!("{:?}", other),
    }
}

#[test]
fn track_free_and_task_id() {
    match parse_args(&words(&["timetrack", "--duration", "15"])) {
        Ok(Command::TimeTrack(t)) => {
            assert!(matches!(t.mode, TimeTrackMode::Free));
            assert!(matches!(t.flags[0], TimeTrackFlag::Duration(15)));
        }
        other => panic!("{:?}", other),
    }
    match parse_args(&words(&["timetrack", "--description", "x", "86abc"])) {
        Ok(Command::TimeTrack(t)) => {
            assert!(matches!(&t.mode, TimeTrackMode::TaskId(id) if id == "86abc"));
        }
        other => panic!("{:?}", other),
    }
}

#[test]
fn positional_arguments_take_two_places() {
    match parse_args(&words(&["timetrack", "last", "-d", "30"])) {
        Ok(Command::TimeTrack(t)) => {
            assert!(matches!(t.mode, TimeTrackMode::Last));
            assert!(t.flags.is_empty());
        }
        other => panic!("{:?}", other),
    }
}

#[test]
fn bad_flags() {
    assert_eq!(value_error(parse_args(&words(&["timetrack", "-d", "soon"]))), "Invalid value for flag -d");
    assert_eq!(value_error(parse_args(&words(&["timetrack", "-d", "-5"]))), "Invalid value for flag -d");
    assert_eq!(value_error(parse_args(&words(&["timetrack", "-x", "1"]))), "Invalid flag: -x");
    assert_eq!(value_error(parse_args(&words(&["timetrack", "-d"]))), "Missing value for flag -d");
    assert_eq!(
        value_error(parse_args(&words(&["timetrack", "-q", "1", "-d", "z"]))),
        "Invalid flag: -q"
    );
}

#[test]
fn track_arguments_from_an_offset() {
    let args = words(&["x", "y", "-d", "+7"]);
    let t = parse_track_args(&args, 2).unwrap();
    assert!(matches!(t.flags[0], TimeTrackFlag::Duration(7)));
    assert!(matches!(t.mode, TimeTrackMode::Free));
}

#[test]
fn argument_error_messages() {
    let e = ArgError::ArgCount("Expects at least two arguments".to_string());
    assert_eq!(e.message(), "\u{1F6AB} [ARGUMENT ERROR] Invalid number of arguments: Expects at least two arguments");
    let e = ArgError::ArgValue("Invalid flag: -x".to_string());
    assert_eq!(e.message(), "\u{1F6AB} [ARGUMENT ERROR] Invalid argument value: Invalid flag: -x");
}

#[test]
fn chunks_read_as_flags_or_positionals() {
    assert!(matches!(read_chunk(&words(&["last", "-d"])), ChunkRead::Positional(p) if p == "last"));
    assert!(matches!(read_chunk(&words(&["-D", "notes"])), ChunkRead::Flag(Ok(TimeTrackFlag::Description(d))) if d == "notes"));
    assert!(matches!(read_chunk(&words(&["--duration", "90"])), ChunkRead::Flag(Ok(TimeTrackFlag::Duration(90)))));
    assert!(matches!(read_chunk(&words(&["--duration"])), ChunkRead::Flag(Err(ArgError::ArgValue(m))) if m == "Missing value for flag --duration"));
    assert!(matches!(read_chunk(&words(&["-z", "1"])), ChunkRead::Flag(Err(ArgError::ArgValue(m))) if m == "Invalid flag: -z"));
}
