//! The log-line formatter: renders a log record as
//! `[<date> <time>,<millis>][<thread-id>:<thread-name-or-empty>] - <level> - <message>`,
//! with the date and time as `YYYY-MM-DD HH:MM:SS` on the local clock and the
//! milliseconds truncated from the sub-second nanoseconds.

use vstd::prelude::*;

use crate::clock::ClockTime;
use crate::clock::clock_now;
use crate::clock::current_thread_id;
use crate::text::spec_padded;
use crate::text::spec_sdec;
use crate::text::spec_udec;
use crate::text::push_padded;
use crate::text::push_signed;
use crate::text::push_unsigned;

verus! {

/// A message's severity.
#[derive(Clone, Copy, PartialEq, Eq, Structural, Debug)]
pub enum Level {
    Error,
    Warn,
    Info,
    Debug,
    Trace,
}

/// The level's name as it appears in a formatted line.
pub open spec fn spec_level_name(l: Level) -> Seq<char> {
    match l {
        Level::Error => "ERROR"@,
        Level::Warn => "WARN"@,
        Level::Info => "INFO"@,
        Level::Debug => "DEBUG"@,
        Level::Trace => "TRACE"@,
    }
}

/// The level's name as it appears in a formatted line.
pub fn level_name(l: Level) -> (s: &'static str)
    ensures
        s@ == spec_level_name(l),
{
    match l {
        Level::Error => "ERROR",
        Level::Warn => "WARN",
        Level::Info => "INFO",
        Level::Debug => "DEBUG",
        Level::Trace => "TRACE",
    }
}

/// One log call's data: when it happened, on which thread, how severe, and
/// the formatted message. Produced per call and consumed synchronously by the
/// formatter.
pub struct LogRecord {
    pub time: ClockTime,
    pub thread_id: usize,
    pub thread_name: Option<String>,
    pub level: Level,
    pub message: String,
}

impl LogRecord {
    pub open spec fn wf(&self) -> bool {
        self.time.wf()
    }
}

/// The thread name as formatted: the name itself, or nothing.
pub open spec fn spec_thread_name(name: Option<String>) -> Seq<char> {
    match name {
        None => Seq::<char>::empty(),
        Some(n) => n@,
    }
}

/// The full formatted line for a record.
pub open spec fn spec_log_line(r: LogRecord) -> Seq<char> {
    "["@ + spec_sdec(r.time.year + 1900) + "-"@ + spec_padded((r.time.mon + 1) as nat, 2) + "-"@
        + spec_padded(r.time.mday as nat, 2) + " "@ + spec_padded(r.time.hour as nat, 2) + ":"@
        + spec_padded(r.time.min as nat, 2) + ":"@ + spec_padded(r.time.sec as nat, 2) + ","@
        + spec_padded((r.time.nsec as nat) / 1_000_000, 3) + "]["@ + spec_udec(
        r.thread_id as nat,
    ) + ":"@ + spec_thread_name(r.thread_name) + "] - "@ + spec_level_name(r.level) + " - "@
        + r.message@
}

/// The thread name to format: the name itself, or the empty string.
fn thread_name_str(name: &Option<String>) -> (s: &str)
    ensures
        s@ == spec_thread_name(*name),
{
    match name {
        Some(n) => n.as_str(),
        None => {
            proof {
                reveal_strlit("");
                assert(""@ =~= Seq::<char>::empty());
            }
            ""
        },
    }
}

/// Renders a record as the line the logging sink writes. The result is a
/// function of the record alone, so formatting the same record again yields
/// the identical line.
pub fn format_record(r: &LogRecord) -> (s: String)
    requires
        r.wf(),
    ensures
        s@ == spec_log_line(*r),
{
    let mut s = String::from_str("[");
    push_signed(&mut s, r.time.year as i64 + 1900);
    s.append("-");
    push_padded(&mut s, (r.time.mon + 1) as u64, 2);
    s.append("-");
    push_padded(&mut s, r.time.mday as u64, 2);
    s.append(" ");
    push_padded(&mut s, r.time.hour as u64, 2);
    s.append(":");
    push_padded(&mut s, r.time.min as u64, 2);
    s.append(":");
    push_padded(&mut s, r.time.sec as u64, 2);
    s.append(",");
    push_padded(&mut s, ((r.time.nsec as u32) / 1_000_000) as u64, 3);
    s.append("][");
    push_unsigned(&mut s, r.thread_id as u64);
    s.append(":");
    s.append(thread_name_str(&r.thread_name));
    s.append("] - ");
    s.append(level_name(r.level));
    s.append(" - ");
    s.append(r.message.as_str());
    s
}

/// Reads the clock and the calling thread's identifier into a record around
/// the given name, level and message.
pub fn capture_record(thread_name: Option<String>, level: Level, message: String) -> (r:
    LogRecord)
    ensures
        r.wf(),
        r.thread_name == thread_name,
        r.level == level,
        r.message == message,
{
    LogRecord {
        time: clock_now(),
        thread_id: current_thread_id(),
        thread_name,
        level,
        message,
    }
}

/// Formats a record captured at the current instant on the calling thread.
/// Whatever the clock and the thread identifier turn out to be, the result is
/// the formatted line of a well-formed record holding the given name, level
/// and message.
pub fn format_record_now(thread_name: Option<String>, level: Level, message: String) -> (s:
    String)
    ensures
        exists|r: LogRecord|
            r.wf() && r.thread_name == thread_name && r.level == level && r.message == message
                && s@ == #[trigger] spec_log_line(r),
{
    let r = capture_record(thread_name, level, message);
    let s = format_record(&r);
    proof {
        assert(s@ == spec_log_line(r));
    }
    s
}

/// Formatting is deterministic: two renderings of the same record are
/// byte-identical.
pub proof fn lemma_format_deterministic(r: LogRecord, s1: Seq<char>, s2: Seq<char>)
    requires
        s1 == spec_log_line(r),
        s2 == spec_log_line(r),
    ensures
        s1 == s2,
{
}

} // verus!
