//! Connection dumps: one entry per line, `[time] [date] [..] [..] [tid] ... ::`
//! followed by a signal that a dump is taken or skipped and why, the
//! statistics of the connection pool, or the traces of the connections in use
//! as JSON.
pub mod error;

use crate::number::{parse_u64, parse_uint_spec};
use crate::parser::tokenizer::error::ErrorSpec;
use crate::parser::tokenizer::{
    expect_spec, lemma_newline, lemma_take_until_shrinks, newline, str_from_utf8, take_until_spec,
    take_within_spec, to_string, Tokenizer,
};
use crate::parser::tokenizer;
use crate::text::{bytes_of, is_prefix, split_once, split_once_spec, starts_with, str_eq, trim, trim_bytes, trim_start, trim_start_bytes};
use crate::types::{TimestampError, TimestampErrorView};
use crate::util::{offset_unix_timestamp_millis, offset_unix_timestamp_millis_spec, unix_timestamp_millis, unix_timestamp_millis_spec};
use error::{Error, ErrorView};
use time::Error as TimeError;
use vstd::prelude::*;
use vstd::utf8::{decode_utf8, encode_utf8, valid_utf8};

verus! {

broadcast use vstd::utf8::encode_utf8_valid_utf8, vstd::utf8::encode_utf8_decode_utf8;

/// Time of an entry, as in `14:30:10.237`.
pub const CONNECTION_DUMP_TIME_FORMAT: &'static str = "[hour]:[minute]:[second].[subsecond]";

/// Date of an entry, as in `11-02-2026`.
pub const CONNECTION_DUMP_DATE_FORMAT: &'static str = "[day]-[month]-[year]";

/// Start time of a connection trace, with its offset from UTC.
pub const TRACE_DATE_TIME_FORMAT: &'static str = "[year]-[month]-[day] [hour]:[minute]:[second].[subsecond] [offset_hour sign:mandatory][offset_minute]";

/// The text before the cause of a dump that is taken.
pub const CAUSE_PREAMBLE: &'static str = "Going to dump performance logs.";

/// The text before the cause of a dump that is skipped.
pub const SKIPPING_CAUSE_PREAMBLE: &'static str = "Skipping to dump performance logs";

/// The text before the statistics of the connection pool.
pub const CNX_STATS_PREAMBLE: &'static str = "Connection Pool Stats ::";

/// The text before the traces of the connections in use.
pub const TRACE_INFO_PREAMBLE: &'static str = "In use TraceInfo ::";

/// Reads connection dump entries one after the other.
#[derive(Debug)]
pub struct ConnectionDumpParser<'a>(&'a str, ParserState);

#[derive(Debug)]
pub enum ParserState {
    Initial,
    Entry,
}

impl<'a> View for ConnectionDumpParser<'a> {
    type V = Seq<u8>;

    /// The text that is still to be read.
    closed spec fn view(&self) -> Seq<u8> {
        bytes_of(self.0)
    }
}

/// Why a performance dump was taken or skipped.
#[derive(Debug, Clone, Copy, PartialEq, Eq, Structural)]
pub enum Cause {
    HighCPU,
    HighMemory,
    NoManagedConnections,
    URL,
}

/// A dump was taken (or, when `suppressed`, skipped) for `cause`.
#[derive(Debug, Clone, Copy, PartialEq, Eq, Structural)]
pub struct Signal {
    pub timestamp: u64,
    pub tid: u64,
    pub cause: Cause,
    pub suppressed: bool,
}

/// The statistics of the connection pool.
#[derive(Debug, Clone, Copy, PartialEq, Eq, Structural)]
pub struct Stats {
    pub timestamp: u64,
    pub tid: u64,
    pub used: u64,
    pub free: u64,
    pub total: u64,
}

/// The traces of the connections in use, as the JSON array the entry holds.
#[derive(Debug)]
pub struct TraceDump<'a> {
    pub tid: u64,
    pub timestamp: u64,
    /// A JSON array of traces.
    pub traces: &'a str,
}

/// One trace of a connection in use.
#[derive(Debug)]
pub struct Trace<'a> {
    /// Milliseconds.
    pub duration: u64,
    /// Unix milliseconds.
    pub start_time: u64,
    pub stack_trace: Vec<&'a str>,
    pub id: u64,
    pub invoked_by: Option<&'a str>,
    pub thread_name: &'a str,
}

#[derive(Debug)]
pub enum ConnectionDumpEntry<'a> {
    Signal(Signal),
    Stats(Stats),
    Trace(TraceDump<'a>),
}

/// An entry with its texts given by their bytes.
pub enum ConnectionDumpEntryView {
    Signal(Signal),
    Stats(Stats),
    Trace { tid: u64, timestamp: u64, traces: Seq<u8> },
}

impl<'a> View for ConnectionDumpEntry<'a> {
    type V = ConnectionDumpEntryView;

    open spec fn view(&self) -> ConnectionDumpEntryView {
        match self {
            ConnectionDumpEntry::Signal(s) => ConnectionDumpEntryView::Signal(*s),
            ConnectionDumpEntry::Stats(s) => ConnectionDumpEntryView::Stats(*s),
            ConnectionDumpEntry::Trace(t) => ConnectionDumpEntryView::Trace {
                tid: t.tid,
                timestamp: t.timestamp,
                traces: bytes_of(t.traces),
            },
        }
    }
}

/// The cause written as `s`.
pub open spec fn cause_of(s: Seq<u8>) -> Option<Cause> {
    if s == bytes_of("High CPU") {
        Some(Cause::HighCPU)
    } else if s == bytes_of("No ManagedConnections") {
        Some(Cause::NoManagedConnections)
    } else if s == bytes_of("High Memory Consumption") {
        Some(Cause::HighMemory)
    } else if s == bytes_of("URL invocation") {
        Some(Cause::URL)
    } else {
        None
    }
}

/// The name under which a cause is shown and stored.
pub open spec fn cause_name(c: Cause) -> Seq<u8> {
    match c {
        Cause::HighCPU => bytes_of("High CPU"),
        Cause::NoManagedConnections => bytes_of("No ManagedConnections"),
        Cause::HighMemory => bytes_of("High Memory Consumption"),
        Cause::URL => bytes_of("URL Invocation"),
    }
}

/// The error for bytes that are not a cause: the bytes as text, or a notice
/// when they are not UTF-8.
pub open spec fn unknown_cause_text(b: Seq<u8>) -> Seq<u8> {
    if valid_utf8(b) {
        b
    } else {
        bytes_of("Unable to convert bytes to String")
    }
}

impl Cause {
    /// `High CPU`, `No ManagedConnections`, `High Memory Consumption` or
    /// `URL invocation`.
    pub fn from_str(s: &str) -> (r: Result<Cause, Error>)
        ensures
            match cause_of(bytes_of(s)) {
                Some(c) => r == Ok::<Cause, Error>(c),
                None => r matches Err(e) && e@ == ErrorView::Cause(bytes_of(s)),
            },
    {
        if str_eq(s, "High CPU") {
            Ok(Cause::HighCPU)
        } else if str_eq(s, "No ManagedConnections") {
            Ok(Cause::NoManagedConnections)
        } else if str_eq(s, "High Memory Consumption") {
            Ok(Cause::HighMemory)
        } else if str_eq(s, "URL invocation") {
            Ok(Cause::URL)
        } else {
            Err(Error::Cause(to_string(s)))
        }
    }

    /// The cause written as the bytes `value`.
    pub fn try_from(value: &[u8]) -> (r: Result<Cause, Error>)
        ensures
            match cause_of(value@) {
                Some(c) => r == Ok::<Cause, Error>(c),
                None => r matches Err(e) && e@ == ErrorView::Cause(unknown_cause_text(value@)),
            },
    {
        match str_from_utf8(value) {
            Ok(s) => Cause::from_str(s),
            Err(_) => {
                proof {
                    reveal_strlit("High CPU");
                    reveal_strlit("No ManagedConnections");
                    reveal_strlit("High Memory Consumption");
                    reveal_strlit("URL invocation");
                }
                Err(Error::Cause(to_string("Unable to convert bytes to String")))
            },
        }
    }

    /// The name under which the cause is shown and stored.
    pub fn as_str(&self) -> (r: &'static str)
        ensures
            bytes_of(r) == cause_name(*self),
    {
        match self {
            Self::HighCPU => "High CPU",
            Self::NoManagedConnections => "No ManagedConnections",
            Self::HighMemory => "High Memory Consumption",
            Self::URL => "URL Invocation",
        }
    }
}


/// The error for a missing delimiter.
pub open spec fn not_found(d: Seq<u8>) -> ErrorView {
    ErrorView::InvalidFormat(ErrorSpec::DelimiterNotFound(d))
}

/// A signal entry: what follows the preamble ends with the cause.
pub open spec fn signal_spec(c: Seq<u8>, timestamp: u64, tid: u64, suppressed: bool) -> Result<ConnectionDumpEntryView, ErrorView> {
    match cause_of(c) {
        None => Err(ErrorView::Cause(c)),
        Some(cause) => Ok(ConnectionDumpEntryView::Signal(Signal { timestamp, tid, cause, suppressed })),
    }
}

/// The statistics of the pool: `used_connections: <n>, free_connections:
/// <n>, max_connections: <n>`, with whitespace allowed around the numbers.
pub open spec fn stats_spec(t1: Seq<u8>, timestamp: u64, tid: u64) -> Result<ConnectionDumpEntryView, ErrorView> {
    match expect_spec(t1, bytes_of("used_connections:")) {
        Err(e) => Err(ErrorView::InvalidFormat(e)),
        Ok(t2) => match take_until_spec(t2, bytes_of(",")) {
            None => Err(not_found(bytes_of(","))),
            Some((u, t3)) => match parse_uint_spec(trim_bytes(u), u64::MAX as int) {
                Err(e) => Err(ErrorView::Number(e)),
                Ok(used) => match expect_spec(trim_start_bytes(t3), bytes_of("free_connections:")) {
                    Err(e) => Err(ErrorView::InvalidFormat(e)),
                    Ok(t5) => match take_until_spec(t5, bytes_of(",")) {
                        None => Err(not_found(bytes_of(","))),
                        Some((f, t6)) => match parse_uint_spec(trim_bytes(f), u64::MAX as int) {
                            Err(e) => Err(ErrorView::Number(e)),
                            Ok(free) => match expect_spec(trim_start_bytes(t6), bytes_of("max_connections:")) {
                                Err(e) => Err(ErrorView::InvalidFormat(e)),
                                Ok(t8) => match parse_uint_spec(trim_bytes(t8), u64::MAX as int) {
                                    Err(e) => Err(ErrorView::Number(e)),
                                    Ok(total) => Ok(
                                        ConnectionDumpEntryView::Stats(
                                            Stats { timestamp, tid, used: used as u64, free: free as u64, total: total as u64 },
                                        ),
                                    ),
                                },
                            },
                        },
                    },
                },
            },
        },
    }
}

/// What follows the `::` of an entry (from its first non-whitespace byte):
/// a taken or skipped dump with its cause, the pool statistics, or the
/// traces of the connections in use.
pub open spec fn entry_body_spec(t: Seq<u8>, timestamp: u64, tid: u64) -> Result<ConnectionDumpEntryView, ErrorView> {
    if is_prefix(bytes_of(CAUSE_PREAMBLE), t) {
        let t1 = trim_start_bytes(expect_spec(t, bytes_of(CAUSE_PREAMBLE))->Ok_0);
        match expect_spec(t1, bytes_of("Cause")) {
            Err(e) => Err(ErrorView::InvalidFormat(e)),
            Ok(t2) => match expect_spec(trim_start_bytes(t2), bytes_of(":")) {
                Err(e) => Err(ErrorView::InvalidFormat(e)),
                Ok(t4) => signal_spec(trim_bytes(trim_start_bytes(t4)), timestamp, tid, false),
            },
        }
    } else if is_prefix(bytes_of(SKIPPING_CAUSE_PREAMBLE), t) {
        let t1 = expect_spec(t, bytes_of(SKIPPING_CAUSE_PREAMBLE))->Ok_0;
        match take_until_spec(t1, bytes_of(".")) {
            None => Err(not_found(bytes_of("."))),
            Some((_, t2)) => match take_until_spec(t2, bytes_of(":")) {
                None => Err(not_found(bytes_of("."))),
                Some((_, t3)) => signal_spec(trim_bytes(trim_start_bytes(t3)), timestamp, tid, true),
            },
        }
    } else if is_prefix(bytes_of(CNX_STATS_PREAMBLE), t) {
        stats_spec(trim_start_bytes(expect_spec(t, bytes_of(CNX_STATS_PREAMBLE))->Ok_0), timestamp, tid)
    } else if is_prefix(bytes_of(TRACE_INFO_PREAMBLE), t) {
        Ok(
            ConnectionDumpEntryView::Trace {
                tid,
                timestamp,
                traces: trim_start_bytes(expect_spec(t, bytes_of(TRACE_INFO_PREAMBLE))->Ok_0),
            },
        )
    } else {
        Err(ErrorView::UnrecognizedConnectionDumpEntry(t))
    }
}

/// An entry line: `[time] [date] [..] [..] [tid]`, text up to `::`, then the
/// entry's body. The time and date are read with the connection dump
/// formats, as UTC.
pub open spec fn entry_spec(t: Seq<u8>) -> Result<ConnectionDumpEntryView, ErrorView> {
    match take_within_spec(t, bytes_of("["), bytes_of("]")) {
        Err(e) => Err(ErrorView::InvalidFormat(e)),
        Ok((time, t1)) => match take_within_spec(t1, bytes_of("["), bytes_of("]")) {
            Err(e) => Err(ErrorView::InvalidFormat(e)),
            Ok((date, t2)) => match unix_timestamp_millis_spec(
                decode_utf8(time),
                decode_utf8(date),
                CONNECTION_DUMP_TIME_FORMAT@,
                CONNECTION_DUMP_DATE_FORMAT@,
            ) {
                None => Err(ErrorView::Timestamp(TimestampErrorView::Parse)),
                Some(Err(())) => Err(ErrorView::Timestamp(TimestampErrorView::Conversion)),
                Some(Ok(timestamp)) => match take_within_spec(t2, bytes_of("["), bytes_of("]")) {
                    Err(e) => Err(ErrorView::InvalidFormat(e)),
                    Ok((_, t3)) => match take_within_spec(t3, bytes_of("["), bytes_of("]")) {
                        Err(e) => Err(ErrorView::InvalidFormat(e)),
                        Ok((_, t4)) => match take_within_spec(t4, bytes_of("["), bytes_of("]")) {
                            Err(e) => Err(ErrorView::InvalidFormat(e)),
                            Ok((id, t5)) => match parse_uint_spec(id, u64::MAX as int) {
                                Err(e) => Err(ErrorView::Number(e)),
                                Ok(tid) => match take_until_spec(t5, bytes_of("::")) {
                                    None => Err(not_found(bytes_of("::"))),
                                    Some((_, t6)) => entry_body_spec(trim_start_bytes(t6), timestamp, tid as u64),
                                },
                            },
                        },
                    },
                },
            },
        },
    }
}

impl core::str::FromStr for Cause {
    type Err = Error;

    fn from_str(s: &str) -> Result<Self, Self::Err> {
        Cause::from_str(s)
    }
}

/// The next line of `t` and the text after it.
pub open spec fn line_spec(t: Seq<u8>) -> Option<(Seq<u8>, Seq<u8>)> {
    take_until_spec(t, newline())
}

/// Skips the lines that do not start with `[` after leading whitespace;
/// gives the text from the first line that does.
pub open spec fn entry_search(t: Seq<u8>) -> Option<Seq<u8>>
    decreases t.len(),
{
    match line_spec(t) {
        None => None,
        Some((line, rest)) => {
            proof {
                lemma_newline();
                lemma_take_until_shrinks(t, newline());
            }
            if is_prefix(bytes_of("["), trim_start_bytes(line)) {
                Some(t)
            } else {
                entry_search(rest)
            }
        },
    }
}

/// What the parser yields from the text `text`, and the text left for the
/// entries after it.
pub open spec fn next_spec(text: Seq<u8>) -> (Option<Result<ConnectionDumpEntryView, ErrorView>>, Seq<u8>) {
    let t = trim_start_bytes(text);
    if t.len() == 0 {
        (None, text)
    } else {
        match entry_search(t) {
            None => (None, text),
            Some(t1) => match line_spec(t1) {
                None => (None, text),
                Some((line, rest)) => (Some(entry_spec(line)), rest),
            },
        }
    }
}

/// The number before the first space of a duration such as `1500 ms`, or 0
/// when there is no space or the number is not a `u64`.
pub open spec fn duration_millis_spec(s: Seq<u8>) -> u64 {
    match split_once_spec(s, bytes_of(" ")) {
        Some((n, _)) => match parse_uint_spec(n, u64::MAX as int) {
            Ok(v) => v as u64,
            Err(_) => 0,
        },
        None => 0,
    }
}

/// The milliseconds of a trace's duration, written as a number, a space and
/// a unit; 0 when it is not written so.
pub fn duration_millis(s: &str) -> (r: u64)
    ensures
        r == duration_millis_spec(bytes_of(s)),
{
    match split_once(s, " ") {
        Some((n, _)) => match parse_u64(n) {
            Ok(v) => v,
            Err(_) => 0,
        },
        None => 0,
    }
}

/// The Unix milliseconds of a trace's start time, written in the trace
/// format with an offset from UTC (an instant before 1970 wraps around).
pub fn epoch_millis(s: &str) -> (r: Result<u64, TimeError>)
    ensures
        r is Ok <==> offset_unix_timestamp_millis_spec(s@, TRACE_DATE_TIME_FORMAT@) is Some,
        r matches Ok(v) ==> offset_unix_timestamp_millis_spec(s@, TRACE_DATE_TIME_FORMAT@) == Some(v),
{
    offset_unix_timestamp_millis(s, TRACE_DATE_TIME_FORMAT)
}

impl<'a> ConnectionDumpParser<'a> {
    pub fn new(data: &'a str) -> (r: Self)
        ensures
            r@ == bytes_of(data),
    {
        Self(data, ParserState::Initial)
    }

    /// A parser over bytes, which must be valid UTF-8.
    pub fn try_from(value: &'a [u8]) -> (r: Result<Self, core::str::Utf8Error>)
        ensures
            r is Ok <==> valid_utf8(value@),
            r matches Ok(p) ==> p@ == value@,
    {
        let data = str_from_utf8(value)?;
        Ok(Self::new(data))
    }

    fn parse_signal(c: &str, timestamp: u64, tid: u64, suppressed: bool) -> (r: Result<ConnectionDumpEntry<'a>, Error>)
        ensures
            r matches Ok(e) ==> signal_spec(bytes_of(c), timestamp, tid, suppressed) == Ok::<ConnectionDumpEntryView, ErrorView>(e@),
            r matches Err(e) ==> signal_spec(bytes_of(c), timestamp, tid, suppressed) == Err::<ConnectionDumpEntryView, ErrorView>(e@),
    {
        let cause = Cause::from_str(c)?;
        Ok(ConnectionDumpEntry::Signal(Signal { cause, timestamp, tid, suppressed }))
    }

    fn parse_stats(tok: Tokenizer<'a>, timestamp: u64, tid: u64) -> (r: Result<ConnectionDumpEntry<'a>, Error>)
        ensures
            r matches Ok(e) ==> stats_spec(tok@, timestamp, tid) == Ok::<ConnectionDumpEntryView, ErrorView>(e@),
            r matches Err(e) ==> stats_spec(tok@, timestamp, tid) == Err::<ConnectionDumpEntryView, ErrorView>(e@),
    {
        let mut tok = tok;
        if let Err(e) = tok.expect("used_connections:") {
            return Err(Error::InvalidFormat(e));
        }
        let used = match tok.take_until(",") {
            Some(u) => match parse_u64(trim(u)) {
                Ok(v) => v,
                Err(e) => return Err(Error::Number(e)),
            },
            None => return Err(Error::InvalidFormat(tokenizer::error::Error::DelimiterNotFound(to_string(",")))),
        };
        tok.skip_whitespace();
        if let Err(e) = tok.expect("free_connections:") {
            return Err(Error::InvalidFormat(e));
        }
        let free = match tok.take_until(",") {
            Some(f) => match parse_u64(trim(f)) {
                Ok(v) => v,
                Err(e) => return Err(Error::Number(e)),
            },
            None => return Err(Error::InvalidFormat(tokenizer::error::Error::DelimiterNotFound(to_string(",")))),
        };
        tok.skip_whitespace();
        if let Err(e) = tok.expect("max_connections:") {
            return Err(Error::InvalidFormat(e));
        }
        let rest = trim(tok.remaining());
        let total = match parse_u64(rest) {
            Ok(v) => v,
            Err(e) => return Err(Error::Number(e)),
        };
        Ok(ConnectionDumpEntry::Stats(Stats { tid, timestamp, used, free, total }))
    }

    /// Reads one entry line.
    pub fn parse_entry(line: &'a str) -> (r: Result<ConnectionDumpEntry<'a>, Error>)
        ensures
            r matches Ok(e) ==> entry_spec(bytes_of(line)) == Ok::<ConnectionDumpEntryView, ErrorView>(e@),
            r matches Err(e) ==> entry_spec(bytes_of(line)) == Err::<ConnectionDumpEntryView, ErrorView>(e@),
    {
        let mut tok = Tokenizer::new(line);
        let time = match tok.take_within("[", "]") {
            Ok(x) => x,
            Err(e) => return Err(Error::InvalidFormat(e)),
        };
        let date = match tok.take_within("[", "]") {
            Ok(x) => x,
            Err(e) => return Err(Error::InvalidFormat(e)),
        };
        let timestamp = match unix_timestamp_millis(time, date, CONNECTION_DUMP_TIME_FORMAT, CONNECTION_DUMP_DATE_FORMAT) {
            Ok(v) => v,
            Err(e) => return Err(Error::Timestamp(e)),
        };
        if let Err(e) = tok.take_within("[", "]") {
            return Err(Error::InvalidFormat(e));
        }
        if let Err(e) = tok.take_within("[", "]") {
            return Err(Error::InvalidFormat(e));
        }
        let tid = match tok.take_within("[", "]") {
            Ok(x) => match parse_u64(x) {
                Ok(v) => v,
                Err(e) => return Err(Error::Number(e)),
            },
            Err(e) => return Err(Error::InvalidFormat(e)),
        };
        if tok.take_until("::").is_none() {
            return Err(Error::InvalidFormat(tokenizer::error::Error::DelimiterNotFound(to_string("::"))));
        }
        tok.skip_whitespace();
        if tok.peek(CAUSE_PREAMBLE) {
            let _ = tok.expect(CAUSE_PREAMBLE);
            tok.skip_whitespace();
            if let Err(e) = tok.expect("Cause") {
                return Err(Error::InvalidFormat(e));
            }
            tok.skip_whitespace();
            if let Err(e) = tok.expect(":") {
                return Err(Error::InvalidFormat(e));
            }
            tok.skip_whitespace();
            Self::parse_signal(trim(tok.remaining()), timestamp, tid, false)
        } else if tok.peek(SKIPPING_CAUSE_PREAMBLE) {
            let _ = tok.expect(SKIPPING_CAUSE_PREAMBLE);
            if tok.take_until(".").is_none() {
                return Err(Error::InvalidFormat(tokenizer::error::Error::DelimiterNotFound(to_string("."))));
            }
            if tok.take_until(":").is_none() {
                return Err(Error::InvalidFormat(tokenizer::error::Error::DelimiterNotFound(to_string("."))));
            }
            tok.skip_whitespace();
            Self::parse_signal(trim(tok.remaining()), timestamp, tid, true)
        } else if tok.peek(CNX_STATS_PREAMBLE) {
            let _ = tok.expect(CNX_STATS_PREAMBLE);
            tok.skip_whitespace();
            Self::parse_stats(tok, timestamp, tid)
        } else if tok.peek(TRACE_INFO_PREAMBLE) {
            let _ = tok.expect(TRACE_INFO_PREAMBLE);
            tok.skip_whitespace();
            let traces = tok.remaining();
            Ok(ConnectionDumpEntry::Trace(TraceDump { tid, timestamp, traces }))
        } else {
            Err(Error::UnrecognizedConnectionDumpEntry(to_string(tok.remaining())))
        }
    }

    fn find_entry(tok: &mut Tokenizer<'a>) -> (r: bool)
        ensures
            match entry_search(old(tok)@) {
                None => !r,
                Some(t) => r && final(tok)@ == t,
            },
    {
        let ghost start = tok@;
        loop
            invariant
                start == old(tok)@,
                entry_search(start) == entry_search(tok@),
            decreases tok@.len(),
        {
            let ghost before = tok@;
            proof {
                lemma_newline();
                lemma_take_until_shrinks(before, newline());
            }
            let line = match tok.peek_line() {
                Some(line) => line,
                None => return false,
            };
            if starts_with(trim_start(line), "[") {
                return true;
            }
            let _ = tok.get_line();
        }
    }

    /// The next entry, or `None` when no entry line is left.
    pub fn next(&mut self) -> (r: Option<Result<ConnectionDumpEntry<'a>, Error>>)
        ensures
            ({
                let (expected, rest) = next_spec(old(self)@);
                &&& match r {
                    None => expected is None,
                    Some(Ok(e)) => expected == Some(Ok::<ConnectionDumpEntryView, ErrorView>(e@)),
                    Some(Err(e)) => expected == Some(Err::<ConnectionDumpEntryView, ErrorView>(e@)),
                }
                &&& final(self)@ == rest
            }),
    {
        let mut tok = Tokenizer::new(self.0);
        tok.skip_whitespace();
        if tok.is_empty() {
            return None;
        }
        if Self::find_entry(&mut tok) {
            self.1 = ParserState::Entry;
        } else {
            return None;
        }
        let line = tok.get_line()?;
        let entry = Self::parse_entry(line);
        self.0 = tok.remaining();
        Some(entry)
    }
}


proof fn lemma_entry_search_len(t: Seq<u8>)
    ensures
        entry_search(t) matches Some(t1) ==> t1.len() <= t.len() && line_spec(t1) is Some,
    decreases t.len(),
{
    lemma_newline();
    lemma_take_until_shrinks(t, newline());
    if let Some((_, rest)) = line_spec(t) {
        lemma_entry_search_len(rest);
    }
}

/// Each entry read leaves less text to read, so reading the entries of a
/// text one after the other comes to an end.
pub proof fn lemma_next_progress(text: Seq<u8>)
    ensures
        next_spec(text).0 is Some ==> next_spec(text).1.len() < text.len(),
{
    broadcast use crate::text::lemma_trim_start_shorter;

    let t = trim_start_bytes(text);
    lemma_entry_search_len(t);
    lemma_newline();
    if let Some(t1) = entry_search(t) {
        lemma_take_until_shrinks(t1, newline());
    }
}


/// Reading the name of a cause gives the cause back, except for `URL`,
/// whose name (`URL Invocation`) differs from the text it is read from
/// (`URL invocation`).
pub proof fn lemma_cause_name_round_trip(c: Cause)
    requires
        c != Cause::URL,
    ensures
        cause_of(cause_name(c)) == Some(c),
{
    reveal_strlit("High CPU");
    reveal_strlit("No ManagedConnections");
    reveal_strlit("High Memory Consumption");
    reveal_strlit("URL invocation");
    assert(decode_utf8(bytes_of("High CPU")) == "High CPU"@);
    assert(decode_utf8(bytes_of("No ManagedConnections")) == "No ManagedConnections"@);
    assert(decode_utf8(bytes_of("High Memory Consumption")) == "High Memory Consumption"@);
    assert(decode_utf8(bytes_of("URL invocation")) == "URL invocation"@);
}

} // verus!
