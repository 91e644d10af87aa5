//! The client's settings, read from `key=value` lines.

use vstd::prelude::*;
use crate::decimal::{parse_u32, parsed_u32};
use crate::time::HOUR_MS;

verus! {

/// The quota of a day where none is set: eight hours.
pub const DEFAULT_DAILY_QUOTA_MS: i64 = 8 * HOUR_MS;

/// The days searched back for the last entry where none is set.
pub const DEFAULT_LOOK_BEHIND_DAYS: u32 = 7;

/// The client's settings.
#[derive(Clone, Debug)]
pub struct Cfg {
    pub token: String,
    pub team_id: String,
    pub space_id: String,
    pub folder_id: String,
    pub list_id: String,
    /// The hours to track each day, in milliseconds.
    pub daily_quota_ms: i64,
    /// How many days back the last entry is searched for.
    pub look_behind: u32,
}

/// `key=value` is how `line` starts, the value running up to the next `=`
/// or the end of the line, and neither holding an `=`.
pub open spec fn is_setting(line: Seq<char>, key: Seq<char>, value: Seq<char>) -> bool {
    &&& !key.contains('=')
    &&& !value.contains('=')
    &&& (line == key + seq!['='] + value || (key + seq!['='] + value + seq!['=']).is_prefix_of(
        line,
    ))
}

fn find_char(s: &str, c: char) -> (r: Option<usize>)
    ensures
        r is None <==> !s@.contains(c),
        r matches Some(i) ==> i < s@.len() && s@[i as int] == c && !s@.take(i as int).contains(c),
{
    let n = s.unicode_len();
    let mut i: usize = 0;
    while i < n
        invariant
            n == s@.len(),
            0 <= i <= n,
            forall|j: int| 0 <= j < i ==> s@[j] != c,
        decreases n - i,
    {
        if s.get_char(i) == c {
            assert(!s@.take(i as int).contains(c));
            return Some(i);
        }
        i = i + 1;
    }
    None
}

/// Splits a settings line `key=value`, the value running up to the next `=`
/// or the end of the line; `None` where the line holds no `=`.
pub fn parse_cfg_line(line: &str) -> (r: Option<(String, String)>)
    ensures
        r is None <==> !line@.contains('='),
        r matches Some(p) ==> is_setting(line@, p.0@, p.1@),
{
    let n = line.unicode_len();
    match find_char(line, '=') {
        None => None,
        Some(i) => {
            let key = line.substring_char(0, i);
            let rest = line.substring_char(i + 1, n);
            let value = match find_char(rest, '=') {
                None => {
                    assert(line@ =~= key@ + seq!['='] + rest@);
                    rest
                },
                Some(k) => {
                    let v = rest.substring_char(0, k);
                    assert(v@ =~= rest@.take(k as int));
                    assert((key@ + seq!['='] + v@ + seq!['=']) =~= line@.take(i + k + 2));
                    v
                },
            };
            assert(key@ =~= line@.take(i as int));
            Some((String::from_str(key), String::from_str(value)))
        },
    }
}

impl Cfg {
    /// Settings with nothing set: no token or ids, an eight-hour day, and a
    /// look-behind of seven days.
    pub fn new() -> (r: Cfg)
        ensures
            r.token@.len() == 0,
            r.team_id@.len() == 0,
            r.space_id@.len() == 0,
            r.folder_id@.len() == 0,
            r.list_id@.len() == 0,
            r.daily_quota_ms == DEFAULT_DAILY_QUOTA_MS,
            r.look_behind == DEFAULT_LOOK_BEHIND_DAYS,
    {
        Cfg {
            token: String::new(),
            team_id: String::new(),
            space_id: String::new(),
            folder_id: String::new(),
            list_id: String::new(),
            daily_quota_ms: DEFAULT_DAILY_QUOTA_MS,
            look_behind: DEFAULT_LOOK_BEHIND_DAYS,
        }
    }

    /// Whether the settings name a token and a team, which every request needs.
    pub fn is_complete(&self) -> (r: bool)
        ensures
            r == (self.token@.len() > 0 && self.team_id@.len() > 0),
    {
        !self.token.as_str().is_empty() && !self.team_id.as_str().is_empty()
    }

    /// Applies one setting given as text; `false`, with nothing changed, for
    /// a key it does not know. `lookBehind` keeps its value where the text is
    /// not a number of days.
    pub fn set(&mut self, key: &str, value: String) -> (known: bool)
        ensures
            known == (key@ == "cu_auth"@ || key@ == "teamid"@ || key@ == "spaceid"@ || key@
                == "folderid"@ || key@ == "listid"@ || key@ == "lookBehind"@),
            final(self).token == (if key@ == "cu_auth"@ {
                value
            } else {
                old(self).token
            }),
            final(self).team_id == (if key@ == "teamid"@ {
                value
            } else {
                old(self).team_id
            }),
            final(self).space_id == (if key@ == "spaceid"@ {
                value
            } else {
                old(self).space_id
            }),
            final(self).folder_id == (if key@ == "folderid"@ {
                value
            } else {
                old(self).folder_id
            }),
            final(self).list_id == (if key@ == "listid"@ {
                value
            } else {
                old(self).list_id
            }),
            final(self).look_behind == (if key@ == "lookBehind"@ && parsed_u32(value@) is Some {
                parsed_u32(value@)->0
            } else {
                old(self).look_behind
            }),
            final(self).daily_quota_ms == old(self).daily_quota_ms,
    {
        proof {
            reveal_strlit("cu_auth");
            reveal_strlit("teamid");
            reveal_strlit("spaceid");
            reveal_strlit("folderid");
            reveal_strlit("listid");
            reveal_strlit("lookBehind");
            assert("cu_auth"@[0] != "spaceid"@[0]);
            assert("teamid"@[0] != "listid"@[0]);
            assert("lookBehind"@[1] != "listid"@[1]);
            assert("lookBehind"@[0] != "cu_auth"@[0]);
            assert("lookBehind"@[0] != "teamid"@[0]);
            assert("lookBehind"@[0] != "spaceid"@[0]);
            assert("lookBehind"@[0] != "folderid"@[0]);
        }
        let k = String::from_str(key);
        if k == String::from_str("cu_auth") {
            self.token = value;
        } else if k == String::from_str("teamid") {
            self.team_id = value;
        } else if k == String::from_str("spaceid") {
            self.space_id = value;
        } else if k == String::from_str("folderid") {
            self.folder_id = value;
        } else if k == String::from_str("listid") {
            self.list_id = value;
        } else if k == String::from_str("lookBehind") {
            match parse_u32(value.as_str()) {
                Some(days) => {
                    self.look_behind = days;
                },
                None => {},
            }
        } else {
            return false;
        }
        true
    }
}

} // verus!
