use cupcli::config::{parse_cfg_line, Cfg, DEFAULT_DAILY_QUOTA_MS, DEFAULT_LOOK_BEHIND_DAYS};
use cupcli::entries::{calculate_time, parse_timestamp, CoreError, EntryField, TimeEntries, TimeEntry};

#[test]
fn settings_lines_split_at_the_first_sign() {
    assert_eq!(parse_cfg_line("teamid=1234"), Some(("teamid".to_string(), "1234".to_string())));
    assert_eq!(parse_cfg_line("cu_auth=ab=cd"), Some(("cu_auth".to_string(), "ab".to_string())));
    assert_eq!(parse_cfg_line("listid="), Some(("listid".to_string(), String::new())));
    assert_eq!(parse_cfg_line("=x"), Some((String::new(), "x".to_string())));
    assert_eq!(parse_cfg_line("no sign here"), None);
    assert_eq!(parse_cfg_line("ключ=значение"), Some(("ключ".to_string(), "значение".to_string())));
}

#[test]
fn settings_apply_by_key() {
    let mut cfg = Cfg::new();
    assert_eq!(cfg.daily_quota_ms, DEFAULT_DAILY_QUOTA_MS);
    assert_eq!(cfg.look_behind, DEFAULT_LOOK_BEHIND_DAYS);
    assert!(!cfg.is_complete());
    assert!(cfg.set("cu_auth", "SECRET-REDACTED".to_string()));
    assert!(!cfg.is_complete());
    assert!(cfg.set("teamid", "42".to_string()));
    assert!(cfg.is_complete());
    assert!(cfg.set("spaceid", "s".to_string()));
    assert!(cfg.set("folderid", "f".to_string()));
    assert!(cfg.set("listid", "l".to_string()));
    assert!(cfg.set("lookBehind", "3".to_string()));
    assert!(cfg.set("lookBehind", "many".to_string()));
    assert!(!cfg.set("colour", "blue".to_string()));
    assert_eq!(cfg.token, "SECRET-REDACTED");
    assert_eq!(cfg.team_id, "42");
    assert_eq!((cfg.space_id.as_str(), cfg.folder_id.as_str(), cfg.list_id.as_str()), ("s", "f", "l"));
    assert_eq!(cfg.look_behind, 3);
}

fn total_of(duration: &str) -> Result<i64, CoreError> {
    let e = TimeEntry {
        id: "e".to_string(),
        task: None,
        start: "0".to_string(),
        end: "0".to_string(),
        duration: duration.to_string(),
        task_url: None,
    };
    calculate_time(&TimeEntries { data: vec![e] })
}

fn look_behind_after(value: &str) -> u32 {
    let mut cfg = Cfg::new();
    cfg.set("lookBehind", "5".to_string());
    cfg.set("lookBehind", value.to_string());
    cfg.look_behind
}

#[test]
fn integers_read_from_text() {
    let bad = Err(CoreError::DataIntegrity(EntryField::Duration));
    assert_eq!(total_of("42"), Ok(42));
    assert_eq!(total_of("+7"), Ok(7));
    assert_eq!(total_of("-3600000"), Ok(-3_600_000));
    assert_eq!(total_of("9223372036854775807"), Ok(i64::MAX));
    assert_eq!(total_of("9223372036854775808"), bad);
    assert_eq!(total_of(" 1"), bad);
    assert_eq!(total_of("1.0"), bad);
    assert_eq!(total_of("-"), bad);
    assert_eq!(parse_timestamp("1710460800000"), Some(1_710_460_800_000));
    assert_eq!(parse_timestamp("-1"), None);
    assert_eq!(parse_timestamp("253402300800000"), None);
    assert_eq!(look_behind_after("4294967295"), u32::MAX);
    assert_eq!(look_behind_after("4294967296"), 5);
    assert_eq!(look_behind_after("-0"), 5);
    assert_eq!(look_behind_after("+12"), 12);
}
