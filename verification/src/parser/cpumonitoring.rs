//! CPU monitoring logs: for each sampled thread a header line with the time,
//! a line with the thread id and its CPU usage, a line with its name and
//! state, and an optional stack trace.
pub mod error;

use crate::number::{check_float, float_check_spec, parse_u64, parse_uint_spec, ParseFloatError};
use crate::parser::tokenizer::error::ErrorSpec;
use crate::parser::tokenizer::{
    expect_spec, lemma_newline, lemma_take_until_shrinks, newline, take_until_exclusive_spec,
    take_until_spec, take_within_spec, Parser, Tokenizer,
};
use crate::parser::tokenizer;
use crate::text::{bytes_of, is_prefix, str_eq, trim, trim_bytes, trim_start, trim_start_bytes};
use crate::types::TimestampError;
use crate::util::{
    millis_of_nanos, unix_timestamp_millis, unix_timestamp_millis_spec,
    CLOCK_TIME_FORMAT, DAY_MONTH_YEAR_FORMAT,
};
use error::{Error, ErrorView};
use vstd::prelude::*;
use vstd::utf8::decode_utf8;

verus! {

broadcast use vstd::utf8::encode_utf8_valid_utf8, vstd::utf8::encode_utf8_decode_utf8;

/// Reads CPU monitoring entries one after the other.
#[derive(Debug)]
pub struct CPUMonitoringParser<'a>(&'a str, ParserState);

#[derive(Debug)]
enum ParserState {
    EntryHeader,
    EntryID,
    EntryState,
    EntryTrace,
}

/// One sampled thread.
#[derive(Debug)]
pub struct CPUMonitoring<'a> {
    /// Unix time in milliseconds of the sample (0 when out of range).
    pub timestamp: u64,
    pub tid: u64,
    /// The CPU usage as written in the log: a floating-point literal.
    pub usage: &'a str,
    pub name: Option<&'a str>,
    pub state: State,
    pub trace: Option<CPUTrace<'a>>,
}

/// A stack trace: frames from the innermost outwards.
#[derive(Debug)]
pub struct CPUTrace<'a>(pub Vec<Frame<'a>>);

/// One stack frame: the method and its source location.
#[derive(Debug)]
pub struct Frame<'a> {
    pub method: &'a str,
    pub source: &'a str,
}

/// A Java thread state.
#[derive(Debug, PartialEq, Eq, Structural, Clone, Copy)]
pub enum State {
    New,
    Runnable,
    Blocked,
    Waiting,
    TimedWaiting,
    Terminated,
    Unknown,
}

/// A frame as the bytes of its method and of its source.
pub type FrameView = (Seq<u8>, Seq<u8>);

impl<'a> View for Frame<'a> {
    type V = FrameView;

    open spec fn view(&self) -> FrameView {
        (bytes_of(self.method), bytes_of(self.source))
    }
}

impl<'a> View for CPUTrace<'a> {
    type V = Seq<FrameView>;

    open spec fn view(&self) -> Seq<FrameView> {
        self.0@.map_values(|f: Frame<'a>| f@)
    }
}

/// An entry with its texts given by their bytes.
pub struct CPUMonitoringView {
    pub timestamp: u64,
    pub tid: u64,
    pub usage: Seq<u8>,
    pub name: Option<Seq<u8>>,
    pub state: State,
    pub trace: Option<Seq<FrameView>>,
}

impl<'a> View for CPUMonitoring<'a> {
    type V = CPUMonitoringView;

    open spec fn view(&self) -> CPUMonitoringView {
        CPUMonitoringView {
            timestamp: self.timestamp,
            tid: self.tid,
            usage: bytes_of(self.usage),
            name: match self.name {
                Some(n) => Some(bytes_of(n)),
                None => None,
            },
            state: self.state,
            trace: match &self.trace {
                Some(t) => Some(t@),
                None => None,
            },
        }
    }
}

/// The state named by a state text; any other text is `Unknown`.
pub open spec fn state_of(s: Seq<u8>) -> State {
    if s == bytes_of("NEW") {
        State::New
    } else if s == bytes_of("RUNNABLE") {
        State::Runnable
    } else if s == bytes_of("BLOCKED") {
        State::Blocked
    } else if s == bytes_of("WAITING") {
        State::Waiting
    } else if s == bytes_of("TIMED_WAITING") {
        State::TimedWaiting
    } else if s == bytes_of("TERMINATED") {
        State::Terminated
    } else {
        State::Unknown
    }
}

/// The text that names a state.
pub open spec fn state_name(s: State) -> Seq<u8> {
    match s {
        State::New => bytes_of("NEW"),
        State::Runnable => bytes_of("RUNNABLE"),
        State::Blocked => bytes_of("BLOCKED"),
        State::Waiting => bytes_of("WAITING"),
        State::TimedWaiting => bytes_of("TIMED_WAITING"),
        State::Terminated => bytes_of("TERMINATED"),
        State::Unknown => bytes_of("UNKNOWN"),
    }
}

impl<'a> From<&'a str> for State {
    fn from(value: &'a str) -> (r: Self) {
        if str_eq(value, "NEW") {
            State::New
        } else if str_eq(value, "RUNNABLE") {
            State::Runnable
        } else if str_eq(value, "BLOCKED") {
            State::Blocked
        } else if str_eq(value, "WAITING") {
            State::Waiting
        } else if str_eq(value, "TIMED_WAITING") {
            State::TimedWaiting
        } else if str_eq(value, "TERMINATED") {
            State::Terminated
        } else {
            State::Unknown
        }
    }
}

impl<'a> vstd::std_specs::convert::FromSpecImpl<&'a str> for State {
    open spec fn obeys_from_spec() -> bool {
        true
    }

    open spec fn from_spec(v: &'a str) -> State {
        state_of(bytes_of(v))
    }
}

impl State {
    /// The text that names the state.
    pub fn into_str(&self) -> (r: &'static str)
        ensures
            bytes_of(r) == state_name(*self),
    {
        match self {
            Self::New => "NEW",
            Self::Runnable => "RUNNABLE",
            Self::Blocked => "BLOCKED",
            Self::Waiting => "WAITING",
            Self::TimedWaiting => "TIMED_WAITING",
            Self::Terminated => "TERMINATED",
            Self::Unknown => "UNKNOWN",
        }
    }
}

/// A frame line: optional whitespace, `at`, whitespace, the method up to
/// `(`, and the source between `(` and `)`.
pub open spec fn frame_spec(d: Seq<u8>) -> Result<FrameView, ErrorSpec> {
    match expect_spec(trim_start_bytes(d), bytes_of("at")) {
        Err(e) => Err(e),
        Ok(t) => match take_until_exclusive_spec(trim_start_bytes(t), bytes_of("(")) {
            Err(e) => Err(e),
            Ok((method, t2)) => match take_within_spec(t2, bytes_of("("), bytes_of(")")) {
                Err(e) => Err(e),
                Ok((source, _)) => Ok((method, source)),
            },
        },
    }
}

impl<'a> Parser<'a> for Frame<'a> {
    type Error = Error;

    /// Expects `<whitespace>at<whitespace><method>(<source>)`.
    fn parse(data: &'a str) -> (r: Result<Self, Self::Error>)
        ensures
            r is Ok <==> frame_spec(bytes_of(data)) is Ok,
            r matches Ok(f) ==> frame_spec(bytes_of(data)) == Ok::<FrameView, ErrorSpec>(f@),
            r matches Err(e) ==> e@ == ErrorView::InvalidFormat(frame_spec(bytes_of(data))->Err_0),
    {
        let mut tok = Tokenizer::new(data);
        tok.skip_whitespace();
        match tok.expect("at") {
            Ok(()) => {},
            Err(e) => return Err(Error::InvalidFormat(e)),
        }
        tok.skip_whitespace();
        let method = match tok.take_until_exclusive("(") {
            Ok(m) => m,
            Err(e) => return Err(Error::InvalidFormat(e)),
        };
        let source = match tok.take_within("(", ")") {
            Ok(s) => s,
            Err(e) => return Err(Error::InvalidFormat(e)),
        };
        Ok(Frame { method, source })
    }
}

/// A stack trace: one frame per complete line (a last line without a
/// newline is not read).
pub open spec fn trace_spec(t: Seq<u8>) -> Result<Seq<FrameView>, ErrorSpec>
    decreases t.len(),
{
    match take_until_spec(t, newline()) {
        None => Ok(seq![]),
        Some((line, rest)) => {
            proof {
                lemma_newline();
                lemma_take_until_shrinks(t, newline());
            }
            match frame_spec(line) {
                Err(e) => Err(e),
                Ok(f) => match trace_spec(rest) {
                    Err(e) => Err(e),
                    Ok(fs) => Ok(seq![f] + fs),
                },
            }
        },
    }
}

impl<'a> Parser<'a> for CPUTrace<'a> {
    type Error = Error;

    fn parse(data: &'a str) -> (r: Result<Self, Self::Error>)
        ensures
            r is Ok <==> trace_spec(bytes_of(data)) is Ok,
            r matches Ok(t) ==> trace_spec(bytes_of(data)) == Ok::<Seq<FrameView>, ErrorSpec>(t@),
            r matches Err(e) ==> e@ == ErrorView::InvalidFormat(trace_spec(bytes_of(data))->Err_0),
    {
        let mut tok = Tokenizer::new(data);
        let mut frames: Vec<Frame<'a>> = Vec::new();
        loop
            invariant
                trace_spec(bytes_of(data)) == match trace_spec(tok@) {
                    Ok(fs) => Ok(frames@.map_values(|f: Frame<'a>| f@) + fs),
                    Err(e) => Err(e),
                },
            decreases tok@.len(),
        {
            let ghost before = tok@;
            proof {
                lemma_newline();
                lemma_take_until_shrinks(before, newline());
            }
            let line = match tok.get_line() {
                Some(line) => line,
                None => {
                    assert(frames@.map_values(|f: Frame<'a>| f@) + seq![] =~= frames@.map_values(|f: Frame<'a>| f@));
                    return Ok(CPUTrace(frames));
                },
            };
            let frame = Frame::parse(line)?;
            let ghost old_frames = frames@;
            frames.push(frame);
            proof {
                assert(frames@.map_values(|f: Frame<'a>| f@) =~= old_frames.map_values(|f: Frame<'a>| f@) + seq![frame@]);
                match trace_spec(tok@) {
                    Ok(fs) => {
                        assert(old_frames.map_values(|f: Frame<'a>| f@) + (seq![frame@] + fs) =~= frames@.map_values(|f: Frame<'a>| f@) + fs);
                    },
                    Err(_) => {},
                }
            }
        }
    }
}

/// The next line of `t` and the text after it.
pub open spec fn line_spec(t: Seq<u8>) -> Option<(Seq<u8>, Seq<u8>)> {
    take_until_spec(t, newline())
}

/// Looks for the entry header: a line starting with `[` whose next line
/// starts with `Thread`. Gives the header and the text after it.
pub open spec fn header_search(t: Seq<u8>) -> Option<(Seq<u8>, Seq<u8>)>
    decreases t.len(),
{
    match line_spec(t) {
        None => None,
        Some((line, rest)) => {
            proof {
                lemma_newline();
                lemma_take_until_shrinks(t, newline());
            }
            if is_prefix(bytes_of("["), line) && match line_spec(rest) {
                Some((next, _)) => is_prefix(bytes_of("Thread"), next),
                None => false,
            } {
                Some((line, rest))
            } else {
                header_search(rest)
            }
        },
    }
}

/// The timestamp of a header `[time]...[date]...`: time and date are read
/// with the clock-time and day-month-year formats; an instant outside the
/// range of a `u64` count of milliseconds gives 0.
pub open spec fn header_timestamp_spec(line: Seq<u8>) -> Result<u64, ErrorView> {
    match take_within_spec(line, bytes_of("["), bytes_of("]")) {
        Err(e) => Err(ErrorView::InvalidFormat(e)),
        Ok((time, l2)) => match take_within_spec(l2, bytes_of("["), bytes_of("]")) {
            Err(e) => Err(ErrorView::InvalidFormat(e)),
            Ok((date, _)) => match unix_timestamp_millis_spec(
                decode_utf8(time),
                decode_utf8(date),
                CLOCK_TIME_FORMAT@,
                DAY_MONTH_YEAR_FORMAT@,
            ) {
                None => Err(ErrorView::ParseTimestamp),
                Some(Ok(v)) => Ok(v),
                Some(Err(_)) => Ok(0),
            },
        },
    }
}

/// The line `Thread Info:Thread Id :<tid>, has CPU usage :<usage>`.
pub open spec fn info_spec(info: Seq<u8>) -> Result<(u64, Seq<u8>), ErrorView> {
    match expect_spec(info, bytes_of("Thread Info:")) {
        Err(e) => Err(ErrorView::InvalidFormat(e)),
        Ok(t1) => match expect_spec(t1, bytes_of("Thread Id :")) {
            Err(e) => Err(ErrorView::InvalidFormat(e)),
            Ok(t2) => match take_until_spec(t2, bytes_of(",")) {
                None => Err(ErrorView::InvalidFormat(ErrorSpec::DelimiterNotFound(bytes_of(",")))),
                Some((id, t3)) => match parse_uint_spec(trim_bytes(id), u64::MAX as int) {
                    Err(e) => Err(ErrorView::ParseThreadID(e)),
                    Ok(tid) => match expect_spec(trim_start_bytes(t3), bytes_of("has CPU usage :")) {
                        Err(e) => Err(ErrorView::InvalidFormat(e)),
                        Ok(t4) => if t4.len() == 0 {
                            Err(
                                ErrorView::InvalidFormat(
                                    ErrorSpec::DelimiterNotFound(bytes_of("<newline>")),
                                ),
                            )
                        } else {
                            match float_check_spec(trim_bytes(t4)) {
                                Err(e) => Err(ErrorView::ParseCPU(e)),
                                Ok(_) => Ok((tid as u64, trim_bytes(t4))),
                            }
                        },
                    },
                },
            },
        },
    }
}

/// The line `Thread Name: <name>, Thread State: <state>`; the name is absent
/// when there is no comma.
pub open spec fn name_state_spec(line: Seq<u8>) -> Result<(Option<Seq<u8>>, State), ErrorView> {
    match expect_spec(line, bytes_of("Thread Name:")) {
        Err(e) => Err(ErrorView::InvalidFormat(e)),
        Ok(t1) => {
            let t2 = trim_start_bytes(t1);
            let (name, t3) = match take_until_spec(t2, bytes_of(",")) {
                Some((n, r)) => (Some(n), r),
                None => (None, t2),
            };
            match expect_spec(trim_start_bytes(t3), bytes_of("Thread State:")) {
                Err(e) => Err(ErrorView::InvalidFormat(e)),
                Ok(t4) => Ok((name, state_of(trim_bytes(t4)))),
            }
        },
    }
}

/// The frame lines that follow: lines whose text starts with `at`.
pub open spec fn frames_spec(t: Seq<u8>) -> Result<(Seq<FrameView>, Seq<u8>), ErrorView>
    decreases t.len(),
{
    match line_spec(t) {
        None => Ok((seq![], t)),
        Some((line, rest)) => {
            proof {
                lemma_newline();
                lemma_take_until_shrinks(t, newline());
            }
            if trim_bytes(line).len() != 0 && is_prefix(bytes_of("at"), trim_start_bytes(line)) {
                match frame_spec(line) {
                    Err(e) => Err(ErrorView::InvalidFormat(e)),
                    Ok(f) => match frames_spec(rest) {
                        Err(e) => Err(e),
                        Ok((fs, t2)) => Ok((seq![f] + fs, t2)),
                    },
                }
            } else {
                Ok((seq![], t))
            }
        },
    }
}

/// What the parser yields from the text `text`, and the text left for the
/// entries after it.
pub open spec fn next_spec(text: Seq<u8>) -> (Option<Result<CPUMonitoringView, ErrorView>>, Seq<u8>) {
    let t = trim_start_bytes(text);
    if t.len() == 0 {
        (None, t)
    } else {
        match header_search(t) {
            None => (None, t),
            Some((header, after)) => match header_timestamp_spec(header) {
                Err(e) => (Some(Err(e)), after),
                Ok(timestamp) => match line_spec(after) {
                    None => (None, t),
                    Some((info, after2)) => match info_spec(info) {
                        Err(e) => (Some(Err(e)), after2),
                        Ok((tid, usage)) => match line_spec(after2) {
                            None => (None, t),
                            Some((line, after3)) => match name_state_spec(line) {
                                Err(e) => (Some(Err(e)), after3),
                                Ok((name, state)) => match frames_spec(after3) {
                                    Err(e) => (Some(Err(e)), after3),
                                    Ok((frames, after4)) => (
                                        Some(
                                            Ok(
                                                CPUMonitoringView {
                                                    timestamp,
                                                    tid,
                                                    usage,
                                                    name,
                                                    state,
                                                    trace: if frames.len() == 0 {
                                                        None
                                                    } else {
                                                        Some(frames)
                                                    },
                                                },
                                            ),
                                        ),
                                        after4,
                                    ),
                                },
                            },
                        },
                    },
                },
            },
        }
    }
}

impl<'a> CPUMonitoringParser<'a> {
    pub fn new(data: &'a str) -> (r: Self)
        ensures
            r@ == bytes_of(data),
    {
        Self(data, ParserState::EntryHeader)
    }

    /// A parser over bytes, which must be valid UTF-8.
    pub fn try_from(value: &'a [u8]) -> (r: Result<Self, core::str::Utf8Error>)
        ensures
            r is Ok <==> vstd::utf8::valid_utf8(value@),
            r matches Ok(p) ==> p@ == value@,
    {
        let value = tokenizer::str_from_utf8(value)?;
        Ok(Self::new(value))
    }

    fn header_timestamp(line: &'a str) -> (r: Result<u64, Error>)
        ensures
            r matches Ok(v) ==> header_timestamp_spec(bytes_of(line)) == Ok::<u64, ErrorView>(v),
            r matches Err(e) ==> header_timestamp_spec(bytes_of(line)) == Err::<u64, ErrorView>(e@),
    {
        let mut header_tokenizer = Tokenizer::new(line);
        let time = match header_tokenizer.take_within("[", "]") {
            Ok(time) => time,
            Err(e) => return Err(Error::InvalidFormat(e)),
        };
        let date = match header_tokenizer.take_within("[", "]") {
            Ok(date) => date,
            Err(e) => return Err(Error::InvalidFormat(e)),
        };
        match unix_timestamp_millis(time, date, CLOCK_TIME_FORMAT, DAY_MONTH_YEAR_FORMAT) {
            Ok(v) => Ok(v),
            Err(TimestampError::Parse(e)) => Err(Error::ParseTimestamp(e)),
            Err(TimestampError::Conversion) => Ok(0),
        }
    }

    fn parse_info(info: &'a str) -> (r: Result<(u64, &'a str), Error>)
        ensures
            r matches Ok((tid, usage)) ==> info_spec(bytes_of(info)) == Ok::<(u64, Seq<u8>), ErrorView>((tid, bytes_of(usage))),
            r matches Err(e) ==> info_spec(bytes_of(info)) == Err::<(u64, Seq<u8>), ErrorView>(e@),
    {
        let mut tok = Tokenizer::new(info);
        if let Err(e) = tok.expect("Thread Info:") {
            return Err(Error::InvalidFormat(e));
        }
        if let Err(e) = tok.expect("Thread Id :") {
            return Err(Error::InvalidFormat(e));
        }
        let tid = match tok.take_until(",") {
            Some(id) => match parse_u64(trim(id)) {
                Ok(v) => v,
                Err(e) => return Err(Error::ParseThreadID(e)),
            },
            None => return Err(Error::InvalidFormat(tokenizer::error::Error::DelimiterNotFound(tokenizer::to_string(",")))),
        };
        tok.skip_whitespace();
        if let Err(e) = tok.expect("has CPU usage :") {
            return Err(Error::InvalidFormat(e));
        }
        let rest = tok.remaining();
        if rest.as_bytes().len() == 0 {
            return Err(Error::InvalidFormat(tokenizer::error::Error::DelimiterNotFound(tokenizer::to_string("<newline>"))));
        }
        let usage = trim(rest);
        match check_float(usage) {
            Ok(()) => Ok((tid, usage)),
            Err(e) => Err(Error::ParseCPU(e)),
        }
    }

    fn parse_name_state(line: &'a str) -> (r: Result<(Option<&'a str>, State), Error>)
        ensures
            r matches Ok((name, state)) ==> name_state_spec(bytes_of(line)) == Ok::<(Option<Seq<u8>>, State), ErrorView>((
                match name {
                    Some(n) => Some(bytes_of(n)),
                    None => None,
                },
                state,
            )),
            r matches Err(e) ==> name_state_spec(bytes_of(line)) == Err::<(Option<Seq<u8>>, State), ErrorView>(e@),
    {
        let mut tok = Tokenizer::new(line);
        if let Err(e) = tok.expect("Thread Name:") {
            return Err(Error::InvalidFormat(e));
        }
        tok.skip_whitespace();
        let name = tok.take_until(",");
        tok.skip_whitespace();
        if let Err(e) = tok.expect("Thread State:") {
            return Err(Error::InvalidFormat(e));
        }
        let state = tok.remaining();
        let state = State::from(trim(state));
        Ok((name, state))
    }

    fn find_header(iter: &mut Tokenizer<'a>) -> (r: Option<&'a str>)
        ensures
            match header_search(old(iter)@) {
                None => r is None,
                Some((h, rest)) => r matches Some(l) && bytes_of(l) == h && final(iter)@ == rest,
            },
    {
        let ghost t = iter@;
        loop
            invariant
                t == old(iter)@,
                header_search(t) == header_search(iter@),
            decreases iter@.len(),
        {
            let ghost before = iter@;
            proof {
                lemma_newline();
                lemma_take_until_shrinks(before, newline());
            }
            let line = match iter.get_line() {
                Some(line) => line,
                None => return None,
            };
            if crate::text::starts_with(line, "[") {
                let found = match iter.peek_line() {
                    Some(next) => crate::text::starts_with(next, "Thread"),
                    None => false,
                };
                if found {
                    return Some(line);
                }
            }
        }
    }

    fn read_frames(iter: &mut Tokenizer<'a>) -> (r: Result<Vec<Frame<'a>>, Error>)
        ensures
            match frames_spec(old(iter)@) {
                Ok((fs, rest)) => r matches Ok(v) && v@.map_values(|f: Frame<'a>| f@) == fs && final(iter)@ == rest,
                Err(e) => r matches Err(e2) && e2@ == e,
            },
    {
        let mut frames: Vec<Frame<'a>> = Vec::new();
        let ghost start = iter@;
        loop
            invariant
                start == old(iter)@,
                frames_spec(start) == match frames_spec(iter@) {
                    Ok((fs, t2)) => Ok((frames@.map_values(|f: Frame<'a>| f@) + fs, t2)),
                    Err(e) => Err(e),
                },
            decreases iter@.len(),
        {
            let ghost before = iter@;
            proof {
                lemma_newline();
                lemma_take_until_shrinks(before, newline());
            }
            let line = match iter.peek_line() {
                Some(line) => line,
                None => {
                    assert(frames@.map_values(|f: Frame<'a>| f@) + seq![] =~= frames@.map_values(|f: Frame<'a>| f@));
                    return Ok(frames);
                },
            };
            if !(trim(line).as_bytes().len() != 0 && crate::text::starts_with(trim_start(line), "at")) {
                assert(frames@.map_values(|f: Frame<'a>| f@) + seq![] =~= frames@.map_values(|f: Frame<'a>| f@));
                return Ok(frames);
            }
            let frame = Frame::parse(line)?;
            let ghost old_frames = frames@;
            frames.push(frame);
            iter.get_line();
            proof {
                assert(frames@.map_values(|f: Frame<'a>| f@) =~= old_frames.map_values(|f: Frame<'a>| f@) + seq![frame@]);
                match frames_spec(iter@) {
                    Ok((fs, t2)) => {
                        assert(old_frames.map_values(|f: Frame<'a>| f@) + (seq![frame@] + fs) =~= frames@.map_values(|f: Frame<'a>| f@) + fs);
                    },
                    Err(_) => {},
                }
            }
        }
    }

    /// The next entry, or `None` when no complete entry header is left.
    pub fn next(&mut self) -> (r: Option<Result<CPUMonitoring<'a>, Error>>)
        ensures
            ({
                let (expected, rest) = next_spec(old(self)@);
                &&& match r {
                    None => expected is None,
                    Some(Ok(e)) => expected == Some(Ok::<CPUMonitoringView, ErrorView>(e@)),
                    Some(Err(e)) => expected == Some(Err::<CPUMonitoringView, ErrorView>(e@)),
                }
                &&& final(self)@ == rest
            }),
    {
        self.0 = trim_start(self.0);
        if self.0.as_bytes().len() == 0 {
            return None;
        }
        let ghost t = bytes_of(self.0);
        let mut iter = Tokenizer::new(self.0);
        let header = match Self::find_header(&mut iter) {
            Some(h) => h,
            None => return None,
        };
        let timestamp = match Self::header_timestamp(header) {
            Ok(v) => v,
            Err(e) => {
                self.0 = iter.rest();
                return Some(Err(e));
            },
        };
        self.1 = ParserState::EntryID;
        let info = iter.get_line()?;
        let (tid, usage) = match Self::parse_info(info) {
            Ok(p) => p,
            Err(e) => {
                self.0 = iter.rest();
                return Some(Err(e));
            },
        };
        self.1 = ParserState::EntryState;
        let line = iter.get_line()?;
        let (name, state) = match Self::parse_name_state(line) {
            Ok(p) => p,
            Err(e) => {
                self.0 = iter.rest();
                return Some(Err(e));
            },
        };
        self.1 = ParserState::EntryTrace;
        let after_state = iter.rest();
        let frames = match Self::read_frames(&mut iter) {
            Ok(f) => f,
            Err(e) => {
                self.0 = after_state;
                return Some(Err(e));
            },
        };
        let trace = if frames.len() == 0 {
            None
        } else {
            Some(CPUTrace(frames))
        };
        self.0 = iter.remaining();
        self.1 = ParserState::EntryHeader;
        Some(Ok(CPUMonitoring { timestamp, tid, usage, name, state, trace }))
    }
}

impl<'a> View for CPUMonitoringParser<'a> {
    type V = Seq<u8>;

    /// The text that is still to be read.
    closed spec fn view(&self) -> Seq<u8> {
        bytes_of(self.0)
    }
}


proof fn lemma_header_search_len(t: Seq<u8>)
    ensures
        header_search(t) matches Some((_, rest)) ==> rest.len() < t.len(),
    decreases t.len(),
{
    lemma_newline();
    lemma_take_until_shrinks(t, newline());
    if let Some((_, rest)) = line_spec(t) {
        lemma_header_search_len(rest);
    }
}

proof fn lemma_frames_len(t: Seq<u8>)
    ensures
        frames_spec(t) matches Ok((_, r)) ==> r.len() <= t.len(),
    decreases t.len(),
{
    lemma_newline();
    lemma_take_until_shrinks(t, newline());
    if let Some((_, rest)) = line_spec(t) {
        lemma_frames_len(rest);
    }
}

/// Each entry read, or each error reported, leaves less text to read, so
/// reading the entries of a text one after the other comes to an end.
pub proof fn lemma_next_progress(text: Seq<u8>)
    ensures
        next_spec(text).0 is Some ==> next_spec(text).1.len() < text.len(),
{
    broadcast use crate::text::lemma_trim_start_shorter;

    let t = trim_start_bytes(text);
    lemma_header_search_len(t);
    lemma_newline();
    if let Some((_, after)) = header_search(t) {
        lemma_take_until_shrinks(after, newline());
        if let Some((_, after2)) = line_spec(after) {
            lemma_take_until_shrinks(after2, newline());
            if let Some((_, after3)) = line_spec(after2) {
                lemma_frames_len(after3);
            }
        }
    }
}


/// Reading the name of a state gives the state back.
pub proof fn lemma_state_name_round_trip(s: State)
    ensures
        state_of(state_name(s)) == s,
{
    reveal_strlit("NEW");
    reveal_strlit("RUNNABLE");
    reveal_strlit("BLOCKED");
    reveal_strlit("WAITING");
    reveal_strlit("TIMED_WAITING");
    reveal_strlit("TERMINATED");
    reveal_strlit("UNKNOWN");
    assert(decode_utf8(bytes_of("NEW")) == "NEW"@);
    assert(decode_utf8(bytes_of("RUNNABLE")) == "RUNNABLE"@);
    assert(decode_utf8(bytes_of("BLOCKED")) == "BLOCKED"@);
    assert(decode_utf8(bytes_of("WAITING")) == "WAITING"@);
    assert(decode_utf8(bytes_of("TIMED_WAITING")) == "TIMED_WAITING"@);
    assert(decode_utf8(bytes_of("TERMINATED")) == "TERMINATED"@);
    assert(decode_utf8(bytes_of("UNKNOWN")) == "UNKNOWN"@);
}

} // verus!
