//! Stuck thread logs: a header line when a thread is found stuck (followed
//! by its stack trace) and another when it is released.
pub mod error;

use crate::number::{parse_u64, parse_uint_spec};
use crate::parser::cpumonitoring::{frame_spec, line_spec, FrameView};
use crate::parser::tokenizer::error::ErrorSpec;
use crate::parser::tokenizer::{
    lemma_newline, lemma_take_until_shrinks, newline, take_until_spec, take_within_spec, Parser,
    Tokenizer,
};
use crate::parser::tokenizer;
use crate::text::{bytes_of, is_prefix, starts_with, str_eq, trim, trim_bytes, trim_start, trim_start_bytes};
use crate::types::{TimestampError, TimestampErrorView};
use crate::util::{
    comma_separated_spec, parse_comma_separated_u64, unix_timestamp_millis,
    unix_timestamp_millis_spec, CLOCK_TIME_FORMAT, DAY_MONTH_YEAR_FORMAT,
};
use error::{Error, ErrorView};
use vstd::prelude::*;
use vstd::utf8::decode_utf8;

verus! {

broadcast use vstd::utf8::encode_utf8_valid_utf8, vstd::utf8::encode_utf8_decode_utf8;

/// Reads stuck thread entries one after the other.
pub struct StuckthreadParser<'a>(&'a str, ParserState);

enum ParserState {
    Initial,
    Header,
}

/// An event of a stuck thread.
#[derive(Debug)]
pub enum Stuckthread<'a> {
    /// The thread was found stuck.
    Begin {
        start: u64,
        tid: u64,
        name: &'a str,
        request: &'a str,
        trace: Trace<'a>,
        active: Option<u64>,
    },
    /// The thread was released after `duration` milliseconds.
    End { tid: u64, name: &'a str, duration: u64, active: Option<u64> },
}

/// The stack trace of a stuck thread.
#[derive(Debug)]
pub struct Trace<'a>(pub Vec<Frame<'a>>);

/// One stack frame.
#[derive(Debug)]
pub struct Frame<'a> {
    pub source: &'a str,
    pub method: &'a str,
}

impl<'a> View for Frame<'a> {
    type V = FrameView;

    open spec fn view(&self) -> FrameView {
        (bytes_of(self.method), bytes_of(self.source))
    }
}

impl<'a> View for Trace<'a> {
    type V = Seq<FrameView>;

    open spec fn view(&self) -> Seq<FrameView> {
        self.0@.map_values(|f: Frame<'a>| f@)
    }
}

/// An event with its texts given by their bytes.
pub enum StuckthreadView {
    Begin {
        start: u64,
        tid: u64,
        name: Seq<u8>,
        request: Seq<u8>,
        trace: Seq<FrameView>,
        active: Option<u64>,
    },
    End { tid: u64, name: Seq<u8>, duration: u64, active: Option<u64> },
}

impl<'a> View for Stuckthread<'a> {
    type V = StuckthreadView;

    open spec fn view(&self) -> StuckthreadView {
        match self {
            Stuckthread::Begin { start, tid, name, request, trace, active } => StuckthreadView::Begin {
                start: *start,
                tid: *tid,
                name: bytes_of(*name),
                request: bytes_of(*request),
                trace: trace@,
                active: *active,
            },
            Stuckthread::End { tid, name, duration, active } => StuckthreadView::End {
                tid: *tid,
                name: bytes_of(*name),
                duration: *duration,
                active: *active,
            },
        }
    }
}

impl<'a> Parser<'a> for Frame<'a> {
    type Error = Error;

    /// Expects `<whitespace>at<whitespace><method>(<source>)`.
    fn parse(data: &'a str) -> (r: Result<Self, Self::Error>)
        ensures
            r is Ok <==> frame_spec(bytes_of(data)) is Ok,
            r matches Ok(f) ==> frame_spec(bytes_of(data)) == Ok::<FrameView, ErrorSpec>(f@),
            r matches Err(e) ==> e@ == ErrorView::InvalidFormat(frame_spec(bytes_of(data))->Err_0),
    {
        let mut tok = Tokenizer::new(data);
        tok.skip_whitespace();
        if let Err(e) = tok.expect("at") {
            return Err(Error::InvalidFormat(e));
        }
        tok.skip_whitespace();
        let method = match tok.take_until_exclusive("(") {
            Ok(m) => m,
            Err(e) => return Err(Error::InvalidFormat(e)),
        };
        let source = match tok.take_within("(", ")") {
            Ok(s) => s,
            Err(e) => return Err(Error::InvalidFormat(e)),
        };
        Ok(Frame { source, method })
    }
}

/// The next `[...]` group; absent when no `[` is left, an error when the `[`
/// is not closed.
pub open spec fn optional_group_spec(t: Seq<u8>) -> Result<Option<Seq<u8>>, ErrorSpec> {
    match take_within_spec(t, bytes_of("["), bytes_of("]")) {
        Ok((a, _)) => Ok(Some(a)),
        Err(e) => if e == ErrorSpec::DelimiterNotFound(bytes_of("[")) {
            Ok(None)
        } else {
            Err(e)
        },
    }
}

/// The part of a header common to both events:
/// `[time]...[date]...::...[name]...[tid]...[duration]`. Gives the start
/// time, the name, the thread id, the duration and the text after it.
pub open spec fn header_common_spec(d: Seq<u8>) -> Result<(u64, Seq<u8>, u64, u64, Seq<u8>), ErrorView> {
    match take_within_spec(d, bytes_of("["), bytes_of("]")) {
        Err(e) => Err(ErrorView::InvalidFormat(e)),
        Ok((time, t1)) => match take_within_spec(t1, bytes_of("["), bytes_of("]")) {
            Err(e) => Err(ErrorView::InvalidFormat(e)),
            Ok((date, t2)) => match unix_timestamp_millis_spec(
                decode_utf8(time),
                decode_utf8(date),
                CLOCK_TIME_FORMAT@,
                DAY_MONTH_YEAR_FORMAT@,
            ) {
                None => Err(ErrorView::ParseTime(TimestampErrorView::Parse)),
                Some(Err(_)) => Err(ErrorView::ParseTime(TimestampErrorView::Conversion)),
                Some(Ok(start)) => match take_until_spec(t2, bytes_of("::")) {
                    None => Err(ErrorView::InvalidFormat(ErrorSpec::DelimiterNotFound(bytes_of("::")))),
                    Some((_, t3)) => match take_within_spec(t3, bytes_of("["), bytes_of("]")) {
                        Err(e) => Err(ErrorView::InvalidFormat(e)),
                        Ok((name, t4)) => match take_within_spec(t4, bytes_of("["), bytes_of("]")) {
                            Err(e) => Err(ErrorView::InvalidFormat(e)),
                            Ok((tid, t5)) => match parse_uint_spec(trim_bytes(tid), u64::MAX as int) {
                                Err(e) => Err(ErrorView::ParseTID(e)),
                                Ok(tid) => match take_within_spec(t5, bytes_of("["), bytes_of("]")) {
                                    Err(e) => Err(ErrorView::InvalidFormat(e)),
                                    Ok((duration, t6)) => match comma_separated_spec(trim_bytes(duration), 0) {
                                        Err(e) => Err(ErrorView::ParseDuration(e)),
                                        Ok(duration) => Ok((start, trim_bytes(name), tid as u64, duration, t6)),
                                    },
                                },
                            },
                        },
                    },
                },
            },
        },
    }
}

/// The active thread count of a header: `None` when absent or (for a
/// stuck thread) not a number.
pub open spec fn begin_active(a: Option<Seq<u8>>) -> Option<u64> {
    match a {
        None => None,
        Some(a) => match parse_uint_spec(a, u64::MAX as int) {
            Ok(v) => Some(v as u64),
            Err(_) => None,
        },
    }
}

/// A header line. A release (no stack trace follows) ends with the optional
/// `[active]` count; a stuck thread has `[since ...]`, `[request]`, a
/// threshold group and the optional `[active]` count.
pub open spec fn header_spec(d: Seq<u8>, has_stacktrace: bool) -> Result<StuckthreadView, ErrorView> {
    match header_common_spec(d) {
        Err(e) => Err(e),
        Ok((start, name, tid, duration, t)) => if !has_stacktrace {
            match optional_group_spec(t) {
                Err(e) => Err(ErrorView::InvalidFormat(e)),
                Ok(None) => Ok(StuckthreadView::End { tid, name, duration, active: None }),
                Ok(Some(a)) => match parse_uint_spec(trim_bytes(a), u64::MAX as int) {
                    Err(e) => Err(ErrorView::ParseTID(e)),
                    Ok(v) => Ok(StuckthreadView::End { tid, name, duration, active: Some(v as u64) }),
                },
            }
        } else {
            match take_within_spec(t, bytes_of("["), bytes_of("]")) {
                Err(e) => Err(ErrorView::InvalidFormat(e)),
                Ok((_, t1)) => match take_within_spec(t1, bytes_of("["), bytes_of("]")) {
                    Err(e) => Err(ErrorView::InvalidFormat(e)),
                    Ok((request, t2)) => match take_within_spec(t2, bytes_of("["), bytes_of("]")) {
                        Err(e) => Err(ErrorView::InvalidFormat(e)),
                        Ok((_, t3)) => match optional_group_spec(t3) {
                            Err(e) => Err(ErrorView::InvalidFormat(e)),
                            Ok(a) => Ok(
                                StuckthreadView::Begin {
                                    start,
                                    tid,
                                    name,
                                    request: trim_bytes(request),
                                    trace: seq![],
                                    active: begin_active(a),
                                },
                            ),
                        },
                    },
                },
            }
        },
    }
}

/// In the header of a stuck thread, the groups after the common part are
/// `[since ...]`, `[request]` and the threshold; the group after those is the
/// number of stuck threads then active. When it is a decimal number, the
/// stuck-thread event carries that number; when it is absent or not a number,
/// the event carries none.
pub proof fn lemma_begin_active_count(d: Seq<u8>)
    ensures
        header_spec(d, true) is Ok ==> ({
            let t = header_common_spec(d)->Ok_0.4;
            let t1 = take_within_spec(t, bytes_of("["), bytes_of("]"))->Ok_0.1;
            let t2 = take_within_spec(t1, bytes_of("["), bytes_of("]"))->Ok_0.1;
            let t3 = take_within_spec(t2, bytes_of("["), bytes_of("]"))->Ok_0.1;
            header_spec(d, true)->Ok_0 matches StuckthreadView::Begin { active, .. } && match optional_group_spec(t3) {
                Ok(Some(a)) => match parse_uint_spec(a, u64::MAX as int) {
                    Ok(n) => active == Some(n as u64),
                    Err(_) => active is None,
                },
                _ => active is None,
            }
        }),
{
}

/// In the header of a release, the optional group after the common part is
/// the number of stuck threads then active: when it is there, the release
/// event carries that number (after trimming) and a group that is not a
/// number is an error; when it is absent, the event carries none. Both kinds
/// of event carry the start, thread id, name and duration of the common part.
pub proof fn lemma_end_active_count(d: Seq<u8>)
    ensures
        header_spec(d, false) matches Ok(v) ==> ({
            let (start, name, tid, duration, t) = header_common_spec(d)->Ok_0;
            v matches StuckthreadView::End { tid: vt, name: vn, duration: vd, active } && vt == tid && vn == name
                && vd == duration && match optional_group_spec(t) {
                Ok(Some(a)) => parse_uint_spec(trim_bytes(a), u64::MAX as int) matches Ok(n) && active == Some(n as u64),
                _ => active is None,
            }
        }),
        header_spec(d, true) matches Ok(v) ==> ({
            let (start, name, tid, duration, t) = header_common_spec(d)->Ok_0;
            v matches StuckthreadView::Begin { start: vs, tid: vt, name: vn, .. } && vs == start && vt == tid && vn == name
        }),
{
}

/// The frame lines after the stack trace preamble: every line that does
/// not start with `[`, and every line that starts with `at`.
pub open spec fn trace_lines_spec(t: Seq<u8>) -> Result<(Seq<FrameView>, Seq<u8>), ErrorView>
    decreases t.len(),
{
    match line_spec(t) {
        None => Ok((seq![], t)),
        Some((line, rest)) => {
            proof {
                lemma_newline();
                lemma_take_until_shrinks(t, newline());
            }
            if !is_prefix(bytes_of("["), trim_bytes(line)) || is_prefix(bytes_of("at"), trim_bytes(line)) {
                match frame_spec(line) {
                    Err(e) => Err(ErrorView::InvalidFormat(e)),
                    Ok(f) => match trace_lines_spec(rest) {
                        Err(e) => Err(e),
                        Ok((fs, t2)) => Ok((seq![f] + fs, t2)),
                    },
                }
            } else {
                Ok((seq![], t))
            }
        },
    }
}

/// What the parser yields from the text `text` when a header has (`seen`)
/// or has not been met before, the text left, and whether a header has
/// been met.
pub open spec fn next_spec(text: Seq<u8>, seen: bool) -> (Option<Result<StuckthreadView, ErrorView>>, Seq<u8>, bool) {
    let t = trim_start_bytes(text);
    let here = match line_spec(t) {
        Some((l, _)) => is_prefix(bytes_of("["), trim_start_bytes(l)),
        None => false,
    };
    let seen2 = seen || here;
    if t.len() == 0 {
        (None, text, seen)
    } else if !seen2 {
        let rest = match line_spec(t) {
            Some((_, r)) => r,
            None => seq![],
        };
        (Some(Err(ErrorView::HeaderNotFound)), rest, seen)
    } else {
        match line_spec(t) {
            None => (None, text, seen2),
            Some((header, r1)) => match line_spec(r1) {
                None => (None, text, seen2),
                Some((next, _)) => {
                    let has = is_prefix(bytes_of("java.lang.Throwable"), trim_bytes(next));
                    match header_spec(header, has) {
                        Err(e) => (Some(Err(e)), r1, seen2),
                        Ok(v) => match v {
                            StuckthreadView::Begin { start, tid, name, request, trace: _, active } if has => {
                                let r2 = line_spec(r1).unwrap().1;
                                match trace_lines_spec(r2) {
                                    Err(e) => (Some(Err(e)), r2, seen2),
                                    Ok((fs, r3)) => (
                                        Some(Ok(StuckthreadView::Begin { start, tid, name, request, trace: fs, active })),
                                        r3,
                                        seen2,
                                    ),
                                }
                            },
                            _ => (Some(Ok(v)), r1, seen2),
                        },
                    }
                },
            },
        }
    }
}

fn optional_group<'b>(tok: &mut Tokenizer<'b>) -> (r: Result<Option<&'b str>, tokenizer::error::Error>)
    ensures
        match optional_group_spec(old(tok)@) {
            Ok(None) => r matches Ok(None),
            Ok(Some(a)) => r matches Ok(Some(x)) && bytes_of(x) == a,
            Err(e) => r matches Err(e2) && e2@ == e,
        },
{
    match tok.take_within("[", "]") {
        Ok(a) => Ok(Some(a)),
        Err(e) => {
            let is_open = match &e {
                tokenizer::error::Error::DelimiterNotFound(x) => str_eq(x.as_str(), "["),
                _ => false,
            };
            if is_open {
                Ok(None)
            } else {
                Err(e)
            }
        },
    }
}

impl<'a> View for StuckthreadParser<'a> {
    type V = (Seq<u8>, bool);

    /// The text still to be read, and whether a header has been met.
    closed spec fn view(&self) -> (Seq<u8>, bool) {
        (bytes_of(self.0), self.1 is Header)
    }
}

impl<'a> StuckthreadParser<'a> {
    const PREAMBLE: &'static str = "java.lang.Throwable";

    pub fn new(data: &'a str) -> (r: Self)
        ensures
            r@ == (bytes_of(data), false),
    {
        Self(data, ParserState::Initial)
    }

    /// A parser over bytes, which must be valid UTF-8.
    pub fn try_from(value: &'a [u8]) -> (r: Result<Self, core::str::Utf8Error>)
        ensures
            r is Ok <==> vstd::utf8::valid_utf8(value@),
            r matches Ok(p) ==> p@ == (value@, false),
    {
        let value = tokenizer::str_from_utf8(value)?;
        Ok(Self::new(value))
    }

    fn header_common<'b>(data: &'b str) -> (r: Result<(u64, &'b str, u64, u64, Tokenizer<'b>), Error>)
        ensures
            r matches Ok((start, name, tid, duration, t)) ==> header_common_spec(bytes_of(data)) == Ok::<(u64, Seq<u8>, u64, u64, Seq<u8>), ErrorView>((start, bytes_of(name), tid, duration, t@)),
            r matches Err(e) ==> header_common_spec(bytes_of(data)) == Err::<(u64, Seq<u8>, u64, u64, Seq<u8>), ErrorView>(e@),
    {
        let mut tok = Tokenizer::new(data);
        let raw_time = match tok.take_within("[", "]") {
            Ok(x) => x,
            Err(e) => return Err(Error::InvalidFormat(e)),
        };
        let raw_date = match tok.take_within("[", "]") {
            Ok(x) => x,
            Err(e) => return Err(Error::InvalidFormat(e)),
        };
        let start = match unix_timestamp_millis(raw_time, raw_date, CLOCK_TIME_FORMAT, DAY_MONTH_YEAR_FORMAT) {
            Ok(v) => v,
            Err(e) => return Err(Error::ParseTime(e)),
        };
        if tok.take_until("::").is_none() {
            return Err(Error::InvalidFormat(tokenizer::error::Error::DelimiterNotFound(tokenizer::to_string("::"))));
        }
        let name = match tok.take_within("[", "]") {
            Ok(x) => trim(x),
            Err(e) => return Err(Error::InvalidFormat(e)),
        };
        let tid = match tok.take_within("[", "]") {
            Ok(x) => match parse_u64(trim(x)) {
                Ok(v) => v,
                Err(e) => return Err(Error::ParseTID(e)),
            },
            Err(e) => return Err(Error::InvalidFormat(e)),
        };
        let duration = match tok.take_within("[", "]") {
            Ok(x) => match parse_comma_separated_u64(trim(x)) {
                Ok(v) => v,
                Err(e) => return Err(Error::ParseDuration(e)),
            },
            Err(e) => return Err(Error::InvalidFormat(e)),
        };
        Ok((start, name, tid, duration, tok))
    }

    /// Reads a header line; `has_stacktrace` tells whether a stack trace
    /// follows it, which makes it the header of a stuck thread.
    pub fn parse_header<'b>(data: &'b str, has_stacktrace: bool) -> (r: Result<Stuckthread<'b>, Error>)
        ensures
            r matches Ok(v) ==> header_spec(bytes_of(data), has_stacktrace) == Ok::<StuckthreadView, ErrorView>(v@),
            r matches Err(e) ==> header_spec(bytes_of(data), has_stacktrace) == Err::<StuckthreadView, ErrorView>(e@),
    {
        let (start, name, tid, duration, mut tok) = Self::header_common(data)?;
        if !has_stacktrace {
            let active = match optional_group(&mut tok) {
                Ok(None) => None,
                Ok(Some(a)) => match parse_u64(trim(a)) {
                    Ok(v) => Some(v),
                    Err(e) => return Err(Error::ParseTID(e)),
                },
                Err(e) => return Err(Error::InvalidFormat(e)),
            };
            Ok(Stuckthread::End { tid, name, duration, active })
        } else {
            if let Err(e) = tok.take_within("[", "]") {
                return Err(Error::InvalidFormat(e));
            }
            let request = match tok.take_within("[", "]") {
                Ok(x) => trim(x),
                Err(e) => return Err(Error::InvalidFormat(e)),
            };
            if let Err(e) = tok.take_within("[", "]") {
                return Err(Error::InvalidFormat(e));
            }
            let active = match optional_group(&mut tok) {
                Ok(None) => None,
                Ok(Some(a)) => match parse_u64(a) {
                    Ok(v) => Some(v),
                    Err(_) => None,
                },
                Err(e) => return Err(Error::InvalidFormat(e)),
            };
            let trace = Trace(Vec::new());
            proof {
                assert(trace@ =~= seq![]);
            }
            Ok(Stuckthread::Begin { start, tid, name, request, trace, active })
        }
    }

    fn read_trace(tok: &mut Tokenizer<'a>) -> (r: Result<Vec<Frame<'a>>, Error>)
        ensures
            match trace_lines_spec(old(tok)@) {
                Ok((fs, rest)) => r matches Ok(v) && v@.map_values(|f: Frame<'a>| f@) == fs && final(tok)@ == rest,
                Err(e) => r matches Err(e2) && e2@ == e,
            },
    {
        let mut frames: Vec<Frame<'a>> = Vec::new();
        let ghost start = tok@;
        loop
            invariant
                start == old(tok)@,
                trace_lines_spec(start) == match trace_lines_spec(tok@) {
                    Ok((fs, t2)) => Ok((frames@.map_values(|f: Frame<'a>| f@) + fs, t2)),
                    Err(e) => Err(e),
                },
            decreases tok@.len(),
        {
            let ghost before = tok@;
            proof {
                lemma_newline();
                lemma_take_until_shrinks(before, newline());
            }
            let line = match tok.peek_line() {
                Some(line) => line,
                None => {
                    assert(frames@.map_values(|f: Frame<'a>| f@) + seq![] =~= frames@.map_values(|f: Frame<'a>| f@));
                    return Ok(frames);
                },
            };
            let l = trim(line);
            if !(!starts_with(l, "[") || starts_with(l, "at")) {
                assert(frames@.map_values(|f: Frame<'a>| f@) + seq![] =~= frames@.map_values(|f: Frame<'a>| f@));
                return Ok(frames);
            }
            let frame = Frame::parse(line)?;
            let ghost old_frames = frames@;
            frames.push(frame);
            tok.get_line();
            proof {
                assert(frames@.map_values(|f: Frame<'a>| f@) =~= old_frames.map_values(|f: Frame<'a>| f@) + seq![frame@]);
                match trace_lines_spec(tok@) {
                    Ok((fs, t2)) => {
                        assert(old_frames.map_values(|f: Frame<'a>| f@) + (seq![frame@] + fs) =~= frames@.map_values(|f: Frame<'a>| f@) + fs);
                    },
                    Err(_) => {},
                }
            }
        }
    }

    /// The next event; `None` when a header has no line after it.
    pub fn next(&mut self) -> (r: Option<Result<Stuckthread<'a>, Error>>)
        ensures
            ({
                let (expected, rest, seen) = next_spec(old(self)@.0, old(self)@.1);
                &&& match r {
                    None => expected is None,
                    Some(Ok(v)) => expected == Some(Ok::<StuckthreadView, ErrorView>(v@)),
                    Some(Err(e)) => expected == Some(Err::<StuckthreadView, ErrorView>(e@)),
                }
                &&& final(self)@ == (rest, seen)
            }),
    {
        let mut tok = Tokenizer::new(self.0);
        tok.skip_whitespace();
        if tok.is_empty() {
            return None;
        }
        if let Some(line) = tok.peek_line() {
            if starts_with(trim_start(line), "[") {
                self.1 = ParserState::Header;
            }
        }
        if let ParserState::Initial = self.1 {
            match tok.get_line() {
                Some(_) => {
                    self.0 = tok.remaining();
                },
                None => {
                    proof {
                        lemma_empty_bytes();
                    }
                    self.0 = "";
                },
            }
            return Some(Err(Error::HeaderNotFound));
        }
        let header = tok.get_line()?;
        let next = tok.peek_line()?;
        let has_stacktrace = starts_with(trim(next), Self::PREAMBLE);
        let thread = match Self::parse_header(header, has_stacktrace) {
            Ok(t) => t,
            Err(e) => {
                self.0 = tok.rest();
                return Some(Err(e));
            },
        };
        match thread {
            Stuckthread::Begin { start, tid, name, request, trace: _, active } if has_stacktrace => {
                let _ = tok.get_line();
                let after_preamble = tok.rest();
                let frames = match Self::read_trace(&mut tok) {
                    Ok(f) => f,
                    Err(e) => {
                        self.0 = after_preamble;
                        return Some(Err(e));
                    },
                };
                self.0 = tok.remaining();
                Some(Ok(Stuckthread::Begin { start, tid, name, request, trace: Trace(frames), active }))
            },
            _ => {
                self.0 = tok.remaining();
                Some(Ok(thread))
            },
        }
    }
}


proof fn lemma_trace_lines_len(t: Seq<u8>)
    ensures
        trace_lines_spec(t) matches Ok((_, r)) ==> r.len() <= t.len(),
    decreases t.len(),
{
    lemma_newline();
    lemma_take_until_shrinks(t, newline());
    if let Some((_, rest)) = line_spec(t) {
        lemma_trace_lines_len(rest);
    }
}

/// The empty string has no bytes.
proof fn lemma_empty_bytes()
    ensures
        bytes_of("") == Seq::<u8>::empty(),
{
    reveal_strlit("");
    assert(""@ =~= Seq::<char>::empty());
    assert(vstd::utf8::encode_utf8(Seq::<char>::empty()) =~= Seq::<u8>::empty());
}

/// Each entry read, or each error reported, leaves less text to read, so
/// reading the entries of a text one after the other comes to an end.
pub proof fn lemma_next_progress(text: Seq<u8>, seen: bool)
    ensures
        next_spec(text, seen).0 is Some ==> next_spec(text, seen).1.len() < text.len(),
{
    broadcast use crate::text::lemma_trim_start_shorter;

    let t = trim_start_bytes(text);
    lemma_newline();
    lemma_take_until_shrinks(t, newline());
    if let Some((_, r1)) = line_spec(t) {
        lemma_take_until_shrinks(r1, newline());
        if let Some((_, r2)) = line_spec(r1) {
            lemma_trace_lines_len(r2);
        }
    }
}

} // verus!
