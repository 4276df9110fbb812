//! Times of a session, and the lines of the log.

use crate::text::{push_decimal, trim_end};
#[allow(unused_imports)]
use crate::text::{decimal, trimmed_end};
use vstd::prelude::*;

verus! {

/// A point in time on a clock that never goes back, in nanoseconds since the clock was started.
#[derive(Debug, Clone, Copy, PartialEq, Eq, Structural)]
pub struct Timestamp {
    pub nanos: u128,
}

/// Metrics collected for each session.
#[derive(Debug, PartialEq)]
pub struct SessionMetrics {
    pub session_id: String,
    pub hotkey_start: Option<Timestamp>,
    pub hotkey_end: Option<Timestamp>,
    pub asr_connect_start: Option<Timestamp>,
    pub asr_connected: Option<Timestamp>,
    pub asr_final_received: Option<Timestamp>,
    pub llm_start: Option<Timestamp>,
    pub llm_end: Option<Timestamp>,
    pub paste_done: Option<Timestamp>,
    pub clipboard_restored: Option<Timestamp>,
    pub error_type: Option<String>,
    pub auto_pasted: bool,
}

/// The whole milliseconds from one point in time to another; 0 if the other comes first.
pub open spec fn elapsed_ms(start: Timestamp, end: Timestamp) -> nat {
    if start.nanos <= end.nanos {
        ((end.nanos - start.nanos) / 1_000_000) as nat
    } else {
        0
    }
}

/// The number of values of a 64-bit word.
pub open spec fn word_range() -> nat {
    0x1_0000_0000_0000_0000
}

/// The time between two events, in milliseconds, if both have taken place. Of more milliseconds
/// than fit in 64 bits, the lower 64 bits are kept.
pub open spec fn interval_ms(start: Option<Timestamp>, end: Option<Timestamp>) -> Option<nat> {
    match (start, end) {
        (Some(start), Some(end)) => Some(elapsed_ms(start, end) % word_range()),
        _ => None,
    }
}

/// An optional number as a natural number.
pub open spec fn optional_nat(n: Option<u64>) -> Option<nat> {
    match n {
        Some(n) => Some(n as nat),
        None => None,
    }
}

/// A time in a summary: its decimal notation, or a question mark if it is not known.
pub open spec fn interval_text(interval: Option<nat>) -> Seq<char> {
    match interval {
        Some(ms) => decimal(ms),
        None => "?"@,
    }
}

/// The text `true` or `false`.
pub open spec fn bool_text(b: bool) -> Seq<char> {
    if b {
        "true"@
    } else {
        "false"@
    }
}

/// A string as the standard library shows it for debugging: in double quotes, with escapes.
pub uninterp spec fn quoted(s: Seq<char>) -> Seq<char>;

/// Shows a string for debugging, as the `Debug` format of `str` in the standard library does.
///
/// Trusted: the result is a function of the characters of the string alone. Which characters are
/// escaped, and how, is not stated.
#[verifier::external_body]
fn quote(s: &str) -> (shown: String)
    ensures
        shown@ == quoted(s@),
{
    format!("{:?}", s)
}

/// An optional string as the standard library shows it for debugging.
pub open spec fn debug_text(s: Option<String>) -> Seq<char> {
    match s {
        Some(s) => "Some("@ + quoted(s@) + ")"@,
        None => "None"@,
    }
}

fn push_interval(out: &mut String, interval: Option<u64>)
    ensures
        final(out)@ == old(out)@ + interval_text(optional_nat(interval)),
{
    match interval {
        Some(ms) => push_decimal(out, ms as u128),
        None => out.append("?"),
    }
}

impl SessionMetrics {
    /// The metrics of a session in which nothing has taken place yet.
    pub fn new(session_id: &str) -> (metrics: Self)
        ensures
            metrics.session_id@ == session_id@,
            metrics == (SessionMetrics {
                session_id: metrics.session_id,
                hotkey_start: None,
                hotkey_end: None,
                asr_connect_start: None,
                asr_connected: None,
                asr_final_received: None,
                llm_start: None,
                llm_end: None,
                paste_done: None,
                clipboard_restored: None,
                error_type: None,
                auto_pasted: false,
            }),
    {
        SessionMetrics {
            session_id: session_id.to_string(),
            hotkey_start: None,
            hotkey_end: None,
            asr_connect_start: None,
            asr_connected: None,
            asr_final_received: None,
            llm_start: None,
            llm_end: None,
            paste_done: None,
            clipboard_restored: None,
            error_type: None,
            auto_pasted: false,
        }
    }

    /// The time from one event to another, in milliseconds, if both have taken place.
    pub fn duration_ms(start: Option<Timestamp>, end: Option<Timestamp>) -> (ms: Option<u64>)
        ensures
            optional_nat(ms) == interval_ms(start, end),
            match (start, end) {
                (Some(start), Some(end)) => {
                    &&& ms is Some
                    &&& start.nanos >= end.nanos ==> ms->0 == 0
                    &&& start.nanos < end.nanos ==> ms->0 == ((end.nanos - start.nanos)
                        / 1_000_000) % 0x1_0000_0000_0000_0000
                },
                _ => ms is None,
            },
    {
        match (start, end) {
            (Some(start), Some(end)) => {
                let elapsed: u128 = if start.nanos <= end.nanos {
                    (end.nanos - start.nanos) / 1_000_000
                } else {
                    0
                };
                assert(elapsed as u64 == elapsed % 0x1_0000_0000_0000_0000) by (bit_vector);
                Some(
                    #[verifier::truncate]
                    (elapsed as u64),
                )
            },
            _ => None,
        }
    }

    /// How long the user has spoken, in milliseconds.
    pub fn recording_duration_ms(&self) -> (ms: Option<u64>)
        ensures
            optional_nat(ms) == interval_ms(self.hotkey_start, self.hotkey_end),
    {
        Self::duration_ms(self.hotkey_start, self.hotkey_end)
    }

    /// How long it took to connect to the speech recognizer, in milliseconds.
    pub fn asr_connect_duration_ms(&self) -> (ms: Option<u64>)
        ensures
            optional_nat(ms) == interval_ms(self.asr_connect_start, self.asr_connected),
    {
        Self::duration_ms(self.asr_connect_start, self.asr_connected)
    }

    /// How long the final result took after the user had spoken, in milliseconds.
    pub fn asr_finalize_duration_ms(&self) -> (ms: Option<u64>)
        ensures
            optional_nat(ms) == interval_ms(self.hotkey_end, self.asr_final_received),
    {
        Self::duration_ms(self.hotkey_end, self.asr_final_received)
    }

    /// How long the language model took, in milliseconds.
    pub fn llm_duration_ms(&self) -> (ms: Option<u64>)
        ensures
            optional_nat(ms) == interval_ms(self.llm_start, self.llm_end),
    {
        Self::duration_ms(self.llm_start, self.llm_end)
    }

    /// The text of [`SessionMetrics::summary`].
    pub open spec fn summary_text(self) -> Seq<char> {
        "session="@ + self.session_id@ + " recording="@ + interval_text(
            interval_ms(self.hotkey_start, self.hotkey_end),
        ) + "ms asr_connect="@ + interval_text(
            interval_ms(self.asr_connect_start, self.asr_connected),
        ) + "ms asr_finalize="@ + interval_text(
            interval_ms(self.hotkey_end, self.asr_final_received),
        ) + "ms llm="@ + interval_text(interval_ms(self.llm_start, self.llm_end)) + "ms pasted="@
            + bool_text(self.auto_pasted) + " error="@ + debug_text(self.error_type)
    }

    /// The metrics in one line.
    pub fn summary(&self) -> (line: String)
        ensures
            line@ == self.summary_text(),
    {
        let mut line = "session=".to_string();
        line.append(self.session_id.as_str());
        line.append(" recording=");
        push_interval(&mut line, self.recording_duration_ms());
        line.append("ms asr_connect=");
        push_interval(&mut line, self.asr_connect_duration_ms());
        line.append("ms asr_finalize=");
        push_interval(&mut line, self.asr_finalize_duration_ms());
        line.append("ms llm=");
        push_interval(&mut line, self.llm_duration_ms());
        line.append("ms pasted=");
        if self.auto_pasted {
            line.append("true");
        } else {
            line.append("false");
        }
        line.append(" error=");
        let ghost before = line@;
        match &self.error_type {
            Some(error) => {
                line.append("Some(");
                line.append(quote(error.as_str()).as_str());
                line.append(")");
                assert(line@ == before + debug_text(self.error_type));
            },
            None => {
                line.append("None");
            },
        }
        line
    }
}

/// The times between three events in a row add up to the time from the first to the last, but
/// for the part of a millisecond that is lost between them.
pub proof fn intervals_add_up(first: Timestamp, second: Timestamp, third: Timestamp)
    requires
        first.nanos <= second.nanos <= third.nanos,
    ensures
        elapsed_ms(first, second) + elapsed_ms(second, third) <= elapsed_ms(first, third)
            <= elapsed_ms(first, second) + elapsed_ms(second, third) + 1,
{
}

/// Waiting longer never makes an interval shorter.
pub proof fn intervals_grow(start: Timestamp, end: Timestamp, later: Timestamp)
    requires
        end.nanos <= later.nanos,
    ensures
        elapsed_ms(start, end) <= elapsed_ms(start, later),
{
}

/// An interval is known exactly where both of its ends are. It is the number of whole milliseconds
/// that fit between them, none if they come in the wrong order, as far as 64 bits hold it.
pub proof fn intervals_count_whole_milliseconds(start: Timestamp, end: Timestamp)
    ensures
        elapsed_ms(start, end) * 1_000_000 <= (if start.nanos <= end.nanos {
            end.nanos - start.nanos
        } else {
            0
        }) < (elapsed_ms(start, end) + 1) * 1_000_000,
        elapsed_ms(start, end) < 0x1_0000_0000_0000_0000 ==> interval_ms(Some(start), Some(end))
            == Some(elapsed_ms(start, end)),
        interval_ms(Some(start), Some(end)) matches Some(ms) && ms < 0x1_0000_0000_0000_0000 && (
        elapsed_ms(start, end) - ms) % 0x1_0000_0000_0000_0000 == 0,
        interval_ms(None, Some(end)) is None,
        interval_ms(Some(start), None) is None,
        interval_ms(None, None) is None,
{
}

/// What a summary says of an interval: its milliseconds in decimal notation, or a question mark
/// where one of its ends is missing.
pub open spec fn shown_between(start: Option<Timestamp>, end: Option<Timestamp>) -> Seq<char> {
    if start is Some && end is Some {
        decimal(interval_ms(start, end)->0)
    } else {
        seq!['?']
    }
}

/// Whether a summary, whatever the paste and the error, is `head`, then whether the text was
/// pasted, and then the error.
pub open spec fn tells_paste_and_error(metrics: SessionMetrics, head: Seq<char>) -> bool {
    forall|pasted: bool, error: Option<String>|
        (#[trigger] (SessionMetrics {
            auto_pasted: pasted,
            error_type: error,
            ..metrics
        }).summary_text()) == head + " pasted="@ + (if pasted {
            "true"@
        } else {
            "false"@
        }) + " error="@ + (match error {
            Some(text) => "Some("@ + quoted(text@) + ")"@,
            None => "None"@,
        })
}

/// A summary says that the text was pasted exactly where it was, whatever the error, and it says
/// the error, whether or not the text was pasted. What stands before that depends on neither.
pub proof fn summaries_tell_of_the_paste_and_the_error(metrics: SessionMetrics)
    ensures
        exists|head: Seq<char>| tells_paste_and_error(metrics, head),
{
    reveal_strlit("ms pasted=");
    reveal_strlit(" pasted=");
    let before = "session="@ + metrics.session_id@ + " recording="@ + interval_text(
        interval_ms(metrics.hotkey_start, metrics.hotkey_end),
    ) + "ms asr_connect="@ + interval_text(
        interval_ms(metrics.asr_connect_start, metrics.asr_connected),
    ) + "ms asr_finalize="@ + interval_text(
        interval_ms(metrics.hotkey_end, metrics.asr_final_received),
    ) + "ms llm="@ + interval_text(interval_ms(metrics.llm_start, metrics.llm_end));
    let head = before + seq!['m', 's'];
    assert(head + " pasted="@ == before + "ms pasted="@);
    assert(tells_paste_and_error(metrics, head));
}

/// Whether a summary, whatever the times of the recording, is `head`, then how long it took, then
/// `middle`, then how long the final result took after it, and then `tail`.
pub open spec fn tells_recording(
    metrics: SessionMetrics,
    head: Seq<char>,
    middle: Seq<char>,
    tail: Seq<char>,
) -> bool {
    forall|start: Option<Timestamp>, end: Option<Timestamp>, result: Option<Timestamp>|
        (#[trigger] (SessionMetrics {
            hotkey_start: start,
            hotkey_end: end,
            asr_final_received: result,
            ..metrics
        }).summary_text()) == head + " recording="@ + shown_between(start, end) + "ms"@ + middle
            + " asr_finalize="@ + shown_between(end, result) + "ms"@ + tail
}

/// A summary says how long the recording took, and how long the final result took after it. What
/// stands around that does not depend on those times.
pub proof fn summaries_tell_of_the_recording(metrics: SessionMetrics)
    ensures
        exists|head: Seq<char>, middle: Seq<char>, tail: Seq<char>|
            tells_recording(metrics, head, middle, tail),
{
    reveal_strlit("?");
    reveal_strlit("ms");
    reveal_strlit("ms asr_connect=");
    reveal_strlit(" asr_connect=");
    reveal_strlit("ms asr_finalize=");
    reveal_strlit(" asr_finalize=");
    reveal_strlit("ms llm=");
    reveal_strlit(" llm=");
    let head = "session="@ + metrics.session_id@;
    let connect = interval_text(interval_ms(metrics.asr_connect_start, metrics.asr_connected));
    let middle = " asr_connect="@ + connect + "ms"@;
    let tail = " llm="@ + interval_text(interval_ms(metrics.llm_start, metrics.llm_end))
        + "ms pasted="@ + bool_text(metrics.auto_pasted) + " error="@ + debug_text(
        metrics.error_type,
    );
    assert forall|start: Option<Timestamp>, end: Option<Timestamp>, result: Option<Timestamp>|
        (#[trigger] (SessionMetrics {
            hotkey_start: start,
            hotkey_end: end,
            asr_final_received: result,
            ..metrics
        }).summary_text()) == head + " recording="@ + shown_between(start, end) + "ms"@ + middle
            + " asr_finalize="@ + shown_between(end, result) + "ms"@ + tail by {
        shown_as_interval(start, end);
        shown_as_interval(end, result);
    }
    assert(tells_recording(metrics, head, middle, tail));
}

proof fn shown_as_interval(start: Option<Timestamp>, end: Option<Timestamp>)
    ensures
        shown_between(start, end) == interval_text(interval_ms(start, end)),
{
    reveal_strlit("?");
    assert("?"@ == seq!['?']);
}

/// Whether a summary, whatever the times of the connection, is `head`, then how long it took to
/// connect, and then `tail`.
pub open spec fn tells_connection(
    metrics: SessionMetrics,
    head: Seq<char>,
    tail: Seq<char>,
) -> bool {
    forall|start: Option<Timestamp>, end: Option<Timestamp>|
        (#[trigger] (SessionMetrics {
            asr_connect_start: start,
            asr_connected: end,
            ..metrics
        }).summary_text()) == head + " asr_connect="@ + shown_between(start, end) + "ms"@ + tail
}

/// A summary says how long it took to connect to the speech recognizer. What stands around that
/// does not depend on those times.
pub proof fn summaries_tell_of_the_connection(metrics: SessionMetrics)
    ensures
        exists|head: Seq<char>, tail: Seq<char>| tells_connection(metrics, head, tail),
{
    reveal_strlit("ms");
    reveal_strlit("ms asr_connect=");
    reveal_strlit(" asr_connect=");
    reveal_strlit("ms asr_finalize=");
    reveal_strlit(" asr_finalize=");
    let head = "session="@ + metrics.session_id@ + " recording="@ + interval_text(
        interval_ms(metrics.hotkey_start, metrics.hotkey_end),
    ) + "ms"@;
    let tail = " asr_finalize="@ + interval_text(
        interval_ms(metrics.hotkey_end, metrics.asr_final_received),
    ) + "ms llm="@ + interval_text(interval_ms(metrics.llm_start, metrics.llm_end)) + "ms pasted="@
        + bool_text(metrics.auto_pasted) + " error="@ + debug_text(metrics.error_type);
    assert forall|start: Option<Timestamp>, end: Option<Timestamp>|
        (#[trigger] (SessionMetrics {
            asr_connect_start: start,
            asr_connected: end,
            ..metrics
        }).summary_text()) == head + " asr_connect="@ + shown_between(start, end) + "ms"@
            + tail by {
        shown_as_interval(start, end);
    }
    assert(tells_connection(metrics, head, tail));
}

/// Whether a summary, whatever the times of the language model, is `head`, then how long it took,
/// and then `tail`.
pub open spec fn tells_llm(metrics: SessionMetrics, head: Seq<char>, tail: Seq<char>) -> bool {
    forall|start: Option<Timestamp>, end: Option<Timestamp>|
        (#[trigger] (SessionMetrics {
            llm_start: start,
            llm_end: end,
            ..metrics
        }).summary_text()) == head + " llm="@ + shown_between(start, end) + "ms"@ + tail
}

/// A summary says how long the language model took. What stands around that does not depend on
/// those times.
pub proof fn summaries_tell_of_the_language_model(metrics: SessionMetrics)
    ensures
        exists|head: Seq<char>, tail: Seq<char>| tells_llm(metrics, head, tail),
{
    reveal_strlit("ms");
    reveal_strlit("ms llm=");
    reveal_strlit(" llm=");
    reveal_strlit("ms pasted=");
    reveal_strlit(" pasted=");
    let head = "session="@ + metrics.session_id@ + " recording="@ + interval_text(
        interval_ms(metrics.hotkey_start, metrics.hotkey_end),
    ) + "ms asr_connect="@ + interval_text(
        interval_ms(metrics.asr_connect_start, metrics.asr_connected),
    ) + "ms asr_finalize="@ + interval_text(
        interval_ms(metrics.hotkey_end, metrics.asr_final_received),
    ) + "ms"@;
    let tail = " pasted="@ + bool_text(metrics.auto_pasted) + " error="@ + debug_text(
        metrics.error_type,
    );
    assert forall|start: Option<Timestamp>, end: Option<Timestamp>|
        (#[trigger] (SessionMetrics {
            llm_start: start,
            llm_end: end,
            ..metrics
        }).summary_text()) == head + " llm="@ + shown_between(start, end) + "ms"@ + tail by {
        shown_as_interval(start, end);
    }
    assert(tells_llm(metrics, head, tail));
}

/// Whether a summary, whatever the session and the times that it does not tell, begins with the
/// session and goes on with `tail`.
pub open spec fn tells_session(metrics: SessionMetrics, tail: Seq<char>) -> bool {
    forall|id: String, pasted: Option<Timestamp>, restored: Option<Timestamp>|
        (#[trigger] (SessionMetrics {
            session_id: id,
            paste_done: pasted,
            clipboard_restored: restored,
            ..metrics
        }).summary_text()) == "session="@ + id@ + tail
}

/// A summary begins with the session. The rest depends neither on that, nor on when the text was
/// pasted and the clipboard restored.
pub proof fn summaries_tell_of_the_session(metrics: SessionMetrics)
    ensures
        exists|tail: Seq<char>| tells_session(metrics, tail),
{
    let tail = " recording="@ + interval_text(
        interval_ms(metrics.hotkey_start, metrics.hotkey_end),
    ) + "ms asr_connect="@ + interval_text(
        interval_ms(metrics.asr_connect_start, metrics.asr_connected),
    ) + "ms asr_finalize="@ + interval_text(
        interval_ms(metrics.hotkey_end, metrics.asr_final_received),
    ) + "ms llm="@ + interval_text(interval_ms(metrics.llm_start, metrics.llm_end)) + "ms pasted="@
        + bool_text(metrics.auto_pasted) + " error="@ + debug_text(metrics.error_type);
    assert forall|id: String, pasted: Option<Timestamp>, restored: Option<Timestamp>|
        (#[trigger] (SessionMetrics {
            session_id: id,
            paste_done: pasted,
            clipboard_restored: restored,
            ..metrics
        }).summary_text()) == "session="@ + id@ + tail by {
        let line = (SessionMetrics {
            session_id: id,
            paste_done: pasted,
            clipboard_restored: restored,
            ..metrics
        }).summary_text();
        assert(line =~= "session="@ + id@ + tail);
    }
    assert(tells_session(metrics, tail));
}

/// How much a line of the log matters.
#[derive(Debug, Clone, Copy, PartialEq, Eq, Structural)]
pub enum Level {
    Error,
    Warn,
    Info,
    Debug,
    Trace,
}

/// Which lines are logged.
#[derive(Debug, Clone, Copy, PartialEq, Eq, Structural)]
pub enum LevelFilter {
    Off,
    Error,
    Warn,
    Info,
    Debug,
    Trace,
}

impl Level {
    /// How little the level matters: 1 for an error, up to 5 for a trace.
    pub open spec fn rank(self) -> nat {
        match self {
            Level::Error => 1,
            Level::Warn => 2,
            Level::Info => 3,
            Level::Debug => 4,
            Level::Trace => 5,
        }
    }

    /// The name of the level.
    pub open spec fn title(self) -> Seq<char> {
        match self {
            Level::Error => "ERROR"@,
            Level::Warn => "WARN"@,
            Level::Info => "INFO"@,
            Level::Debug => "DEBUG"@,
            Level::Trace => "TRACE"@,
        }
    }

    /// The name of the level.
    pub fn name(self) -> (name: &'static str)
        ensures
            name@ == self.title(),
    {
        match self {
            Level::Error => "ERROR",
            Level::Warn => "WARN",
            Level::Info => "INFO",
            Level::Debug => "DEBUG",
            Level::Trace => "TRACE",
        }
    }
}

impl LevelFilter {
    /// The rank of the least important level that is logged.
    pub open spec fn limit(self) -> nat {
        match self {
            LevelFilter::Off => 0,
            LevelFilter::Error => 1,
            LevelFilter::Warn => 2,
            LevelFilter::Info => 3,
            LevelFilter::Debug => 4,
            LevelFilter::Trace => 5,
        }
    }

    /// Tells whether lines of a level are logged.
    pub fn enabled(self, level: Level) -> (yes: bool)
        ensures
            yes == (level.rank() <= self.limit()),
    {
        match (self, level) {
            (LevelFilter::Off, _) => false,
            (LevelFilter::Error, Level::Error) => true,
            (LevelFilter::Error, _) => false,
            (LevelFilter::Warn, Level::Error | Level::Warn) => true,
            (LevelFilter::Warn, _) => false,
            (LevelFilter::Info, Level::Debug | Level::Trace) => false,
            (LevelFilter::Info, _) => true,
            (LevelFilter::Debug, Level::Trace) => false,
            (LevelFilter::Debug, _) => true,
            (LevelFilter::Trace, _) => true,
        }
    }
}

/// The number by which the user interface knows a level: that of a trace is that of a debug line.
pub open spec fn ffi_level(level: Level) -> i32 {
    match level {
        Level::Error => 0,
        Level::Warn => 1,
        Level::Info => 2,
        Level::Debug => 3,
        Level::Trace => 3,
    }
}

/// The number by which the user interface knows a level.
pub fn level_to_ffi(level: Level) -> (number: i32)
    ensures
        number == ffi_level(level),
{
    match level {
        Level::Error => 0,
        Level::Warn => 1,
        Level::Info => 2,
        Level::Debug | Level::Trace => 3,
    }
}

/// A line of the log, and what the user interface is told of it.
#[derive(Debug, PartialEq)]
pub struct LogEntry {
    pub line: String,
    pub event_level: i32,
    pub event_text: String,
}

/// A line of the log: the time in milliseconds, the level and the message.
pub open spec fn log_line(ts_ms: nat, level: Level, message: Seq<char>) -> Seq<char> {
    "["@ + decimal(ts_ms) + "] ["@ + level.title() + "] "@ + message + "\n"@
}

/// What is logged of a message: nothing, if lines of its level are not.
pub fn log_entry(filter: LevelFilter, ts_ms: u128, level: Level, message: &str) -> (entry: Option<
    LogEntry,
>)
    ensures
        match entry {
            Some(entry) => {
                &&& level.rank() <= filter.limit()
                &&& entry.line@ == log_line(ts_ms as nat, level, message@)
                &&& entry.line@ == "["@ + decimal(ts_ms as nat) + "] ["@ + level.title() + "] "@
                    + message@ + "\n"@
                &&& entry.event_level == ffi_level(level)
                &&& entry.event_text@ == trimmed_end(entry.line@)
            },
            None => level.rank() > filter.limit(),
        },
{
    if !filter.enabled(level) {
        return None;
    }
    let mut line = "[".to_string();
    push_decimal(&mut line, ts_ms);
    line.append("] [");
    line.append(level.name());
    line.append("] ");
    line.append(message);
    line.append("\n");
    let event_text = trim_end(line.as_str()).to_string();
    Some(LogEntry { line, event_level: level_to_ffi(level), event_text })
}

/// A line of the log holds its message whole and unchanged: the line is that of no message, with
/// the message put in before its end. The level and the time stand before it, in brackets, and do
/// not depend on it.
pub proof fn logged_messages_are_whole(ts_ms: nat, level: Level, message: Seq<char>)
    ensures
        log_line(ts_ms, level, message) == log_line(ts_ms, level, seq![]).drop_last() + message
            + seq!['\n'],
        log_line(ts_ms, level, seq![]) == seq!['['] + decimal(ts_ms) + seq![']', ' ', '[']
            + level.title() + seq![']', ' ', '\n'],
{
    reveal_strlit("[");
    reveal_strlit("] [");
    reveal_strlit("] ");
    reveal_strlit("\n");
}

/// A filter logs the level of its own name and all that matter more, and no other; each level
/// matters less than the one before it. The user interface knows the levels by numbers that keep
/// this order, and does not tell a trace from a debug line.
pub proof fn levels_are_ordered(filter: LevelFilter, level: Level, other: Level)
    ensures
        Level::Error.rank() < Level::Warn.rank() < Level::Info.rank() < Level::Debug.rank()
            < Level::Trace.rank(),
        level.rank() <= filter.limit() <==> match filter {
            LevelFilter::Off => false,
            LevelFilter::Error => level is Error,
            LevelFilter::Warn => level is Error || level is Warn,
            LevelFilter::Info => !(level is Debug || level is Trace),
            LevelFilter::Debug => !(level is Trace),
            LevelFilter::Trace => true,
        },
        level.rank() <= other.rank() ==> ffi_level(level) <= ffi_level(other),
        0 <= ffi_level(level) <= 3,
        ffi_level(level) == ffi_level(other) <==> level == other || (level.rank() >= 4
            && other.rank() >= 4),
{
}

/// A line of the log ends its last line, and the user interface is told it without that end and
/// without the white space before it.
pub proof fn logged_events_are_trimmed_lines(ts_ms: nat, level: Level, message: Seq<char>)
    ensures
        log_line(ts_ms, level, message).last() == '\n',
        trimmed_end(log_line(ts_ms, level, message)) == trimmed_end(
            log_line(ts_ms, level, message).drop_last(),
        ),
{
    reveal_strlit("\n");
}

/// Each duration of a session is that between its own two events, and nothing else of the metrics
/// has a bearing on it: it is known exactly where both have taken place.
pub proof fn durations_are_between_their_own_events(
    metrics: SessionMetrics,
    recording: Option<u64>,
    connect: Option<u64>,
    finalize: Option<u64>,
    llm: Option<u64>,
)
    requires
        call_ensures(SessionMetrics::recording_duration_ms, (&metrics,), recording),
        call_ensures(SessionMetrics::asr_connect_duration_ms, (&metrics,), connect),
        call_ensures(SessionMetrics::asr_finalize_duration_ms, (&metrics,), finalize),
        call_ensures(SessionMetrics::llm_duration_ms, (&metrics,), llm),
    ensures
        lies_between(recording, metrics.hotkey_start, metrics.hotkey_end),
        lies_between(connect, metrics.asr_connect_start, metrics.asr_connected),
        lies_between(finalize, metrics.hotkey_end, metrics.asr_final_received),
        lies_between(llm, metrics.llm_start, metrics.llm_end),
{
}

/// Whether a number is that of the whole milliseconds between two events, none where one of them is
/// missing. Events in the wrong order are no time apart, and times that 64 bits do not hold are not
/// looked at.
pub open spec fn lies_between(
    ms: Option<u64>,
    start: Option<Timestamp>,
    end: Option<Timestamp>,
) -> bool {
    match (ms, start, end) {
        (Some(ms), Some(start), Some(end)) => {
            ||| start.nanos > end.nanos && ms == 0
            ||| start.nanos <= end.nanos && ms * 1_000_000 <= end.nanos - start.nanos < (ms + 1)
                * 1_000_000
            ||| end.nanos - start.nanos >= 0x1_0000_0000_0000_0000 * 1_000_000
        },
        (None, Some(_), Some(_)) => false,
        (ms, _, _) => ms is None,
    }
}

/// A summary is the text that the laws of summaries speak of, and that of a session in which
/// nothing has taken place yet says so.
pub proof fn fresh_metrics_know_nothing(session_id: &str, metrics: SessionMetrics, line: String)
    requires
        call_ensures(SessionMetrics::new, (session_id,), metrics),
        call_ensures(SessionMetrics::summary, (&metrics,), line),
    ensures
        line@ == metrics.summary_text(),
        metrics.session_id@ == session_id@,
        metrics.hotkey_start is None && metrics.hotkey_end is None,
        metrics.asr_connect_start is None && metrics.asr_connected is None,
        metrics.asr_final_received is None,
        metrics.llm_start is None && metrics.llm_end is None,
        metrics.paste_done is None && metrics.clipboard_restored is None,
        metrics.error_type is None,
        !metrics.auto_pasted,
        line@ == "session="@ + session_id@
            + " recording=?ms asr_connect=?ms asr_finalize=?ms llm=?ms pasted=false error=None"@,
{
    reveal_strlit("session=");
    reveal_strlit(" recording=");
    reveal_strlit("ms asr_connect=");
    reveal_strlit("ms asr_finalize=");
    reveal_strlit("ms llm=");
    reveal_strlit("ms pasted=");
    reveal_strlit(" error=");
    reveal_strlit("?");
    reveal_strlit("false");
    reveal_strlit("None");
    reveal_strlit(
        " recording=?ms asr_connect=?ms asr_finalize=?ms llm=?ms pasted=false error=None",
    );
}

/// A message is logged exactly where its level is, whatever it says. Its line holds the time, the
/// level and the message, and the user interface is told the number of the level and the line
/// without white space at its end.
pub proof fn messages_are_logged_by_their_level(
    filter: LevelFilter,
    ts_ms: u128,
    level: Level,
    message: &str,
    entry: Option<LogEntry>,
    enabled: bool,
    number: i32,
)
    requires
        call_ensures(log_entry, (filter, ts_ms, level, message), entry),
        call_ensures(LevelFilter::enabled, (filter, level), enabled),
        call_ensures(level_to_ffi, (level,), number),
    ensures
        entry is Some <==> enabled,
        entry matches Some(entry) ==> {
            &&& entry.line@ == seq!['['] + decimal(ts_ms as nat) + seq![']', ' ', '[']
                + level.title() + seq![']', ' '] + message@ + seq!['\n']
            &&& entry.event_level == number
            &&& entry.event_text@ == trimmed_end(entry.line@)
        },
{
    reveal_strlit("[");
    reveal_strlit("] [");
    reveal_strlit("] ");
    reveal_strlit("\n");
    assert("["@ == seq!['[']);
    assert("] ["@ == seq![']', ' ', '[']);
    assert("] "@ == seq![']', ' ']);
    assert("\n"@ == seq!['\n']);
}

} // verus!
