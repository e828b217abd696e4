use vstd::prelude::*;
use vstd::string::StringExecFns;
use crate::calendar::{date_text, datetime_text, format_date, format_datetime};
use crate::event::{opt_view, same_text, HookInput};
use crate::text::{chars_of, string_of};

verus! {

/// One entry of the dated tool-usage log.
#[derive(Clone, Debug, PartialEq, Eq)]
pub struct LogRecord {
    /// Name of the day's log file.
    pub file_name: String,
    /// The line to append, newline included.
    pub line: String,
}

/// Longest command excerpt that a log line holds, in characters.
pub open spec fn command_excerpt_len() -> nat {
    100
}

pub open spec fn or_unknown(o: Option<Seq<char>>) -> Seq<char> {
    match o {
        Some(s) => s,
        None => "unknown"@,
    }
}

/// What a log line says about the action, by tool.
pub open spec fn log_detail(input: HookInput) -> Seq<char> {
    let tool = or_unknown(input.tool_v());
    if tool == "Edit"@ || tool == "Write"@ || tool == "Read"@ {
        "file="@ + or_unknown(input.path_v())
    } else if tool == "Bash"@ {
        "cmd="@ + match input.command_v() {
            Some(c) => if c.len() > command_excerpt_len() {
                c.take(command_excerpt_len() as int)
            } else {
                c
            },
            None => "unknown"@,
        }
    } else if tool == "Glob"@ || tool == "Grep"@ {
        "pattern="@ + or_unknown(input.pattern_v())
    } else {
        Seq::empty()
    }
}

pub open spec fn log_line(input: HookInput, now: nat) -> Seq<char> {
    "["@ + datetime_text(now) + "] session="@ + or_unknown(opt_view(input.session_id))
        + " tool="@ + or_unknown(input.tool_v()) + " "@ + log_detail(input) + "\n"@
}

pub open spec fn log_file_name(now: nat) -> Seq<char> {
    "session-"@ + date_text(now) + ".log"@
}

fn or_unknown_exec(o: Option<&str>) -> (r: &str)
    ensures
        r@ == or_unknown(crate::event::opt_str_view(o)),
{
    match o {
        Some(s) => s,
        None => "unknown",
    }
}

fn excerpt(c: &str) -> (r: String)
    ensures
        r@ == (if c@.len() > command_excerpt_len() {
            c@.take(command_excerpt_len() as int)
        } else {
            c@
        }),
{
    let cs = chars_of(c);
    if cs.len() <= 100 {
        return String::from_str(c);
    }
    let mut out: Vec<char> = Vec::new();
    let mut i: usize = 0;
    while i < 100
        invariant
            cs@.len() > 100,
            i <= 100,
            out@ == cs@.take(i as int),
        decreases 100 - i,
    {
        out.push(cs[i]);
        assert(cs@.take(i + 1) =~= cs@.take(i as int).push(cs@[i as int]));
        i += 1;
    }
    string_of(&out)
}

fn detail(input: &HookInput) -> (r: String)
    ensures
        r@ == log_detail(*input),
{
    let tool = or_unknown_exec(input.tool());
    if same_text(tool, "Edit") || same_text(tool, "Write") || same_text(tool, "Read") {
        String::from_str("file=").concat(or_unknown_exec(input.file_path()))
    } else if same_text(tool, "Bash") {
        match input.command() {
            Some(c) => String::from_str("cmd=").concat(excerpt(c).as_str()),
            None => String::from_str("cmd=").concat("unknown"),
        }
    } else if same_text(tool, "Glob") || same_text(tool, "Grep") {
        String::from_str("pattern=").concat(or_unknown_exec(input.search_pattern()))
    } else {
        let r = String::from_str("");
        proof {
            reveal_strlit("");
        }
        assert(r@ =~= Seq::<char>::empty());
        r
    }
}

/// The log entry for an event observed at second `now` of the Unix epoch.
pub fn session_logger(input: &HookInput, now: u64) -> (r: LogRecord)
    ensures
        r.file_name@ == log_file_name(now as nat),
        r.line@ == log_line(*input, now as nat),
{
    let session: &str = match &input.session_id {
        Some(s) => s.as_str(),
        None => "unknown",
    };
    let line = String::from_str("[").concat(format_datetime(now).as_str()).concat("] session=")
        .concat(session).concat(" tool=").concat(or_unknown_exec(input.tool())).concat(" ")
        .concat(detail(input).as_str()).concat("\n");
    let file_name = String::from_str("session-").concat(format_date(now).as_str()).concat(".log");
    LogRecord { file_name, line }
}

} // verus!
