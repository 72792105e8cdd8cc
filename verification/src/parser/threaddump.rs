//! Thread dumps: a `Thread dump` line with the time of the dump, then one
//! block per thread with its name, id, state and stack trace.
pub mod error;

use crate::number::{parse_u64, parse_uint_spec};
use crate::parser::cpumonitoring::line_spec;
use crate::parser::tokenizer::error::ErrorSpec;
use crate::parser::tokenizer::{
    expect_spec, lemma_newline, lemma_take_until_shrinks, newline, take_until_exclusive_spec,
    take_until_fallible_spec, take_within_spec, Tokenizer,
};
use crate::parser::tokenizer;
use crate::text::{
    bytes_of, contains, find, is_prefix, lemma_nonempty_bytes, lemma_trim_start_len, split_once_spec, starts_with, trim,
    trim_bytes, trim_start, trim_start_bytes,
};
use crate::text::{lemma_find_props, lemma_split_once_len, lemma_trim_start_shorter};
use crate::types::{TimestampError, TimestampErrorView};
use crate::util::{utc_unix_timestamp_millis, utc_unix_timestamp_millis_spec};
use error::{Error, ErrorView};
use vstd::prelude::*;
use vstd::utf8::decode_utf8;

verus! {

broadcast use vstd::utf8::encode_utf8_valid_utf8, vstd::utf8::encode_utf8_decode_utf8;

/// Date and time of a dump, as in `2026-02-11 14:30:10.237`.
pub const THREADDUMP_TIMESTAMP_FORMAT: &'static str = "[year]-[month]-[day] [hour]:[minute]:[second].[subsecond]";

/// Reads thread dumps one after the other.
#[derive(Debug)]
pub struct ThreadDumpParser<'a>(&'a str, ParserState);

#[derive(Debug)]
pub enum ParserState {
    Initial,
    Timestamp,
    Thread,
    FinishDump,
}

/// One dump: the threads and the Unix time in milliseconds.
#[derive(Debug)]
pub struct ThreadDump<'a> {
    pub threads: Vec<Thread<'a>>,
    pub timestamp: u64,
}

#[derive(Debug)]
pub struct Thread<'a> {
    pub tid: u64,
    pub name: &'a str,
    pub state: State<'a>,
    pub trace: Option<Trace<'a>>,
}

/// A Java thread state with what the thread waits for.
#[derive(Debug)]
#[allow(inconsistent_fields)]
pub enum State<'a> {
    New,
    Runnable,
    Terminated,
    TimedWaiting { waiting_on: Option<Object<'a>> },
    Waiting {
        waiting_on: Object<'a>,
        lock: Option<Lock<'a>>,
        lock_owner_tid: Option<u64>,
        lock_owner_name: Option<LockOwner<'a>>,
    },
    Blocked { blocked_on: Object<'a>, lock: Lock<'a>, lock_owner_tid: u64, lock_owner_name: LockOwner<'a> },
}

/// The stack trace of a thread.
#[derive(Debug)]
pub struct Trace<'a>(pub Vec<Element<'a>>);

/// A line of a stack trace.
#[derive(Debug)]
pub enum Element<'a> {
    Lock { object: Object<'a> },
    Frame { method: &'a str, source: &'a str },
}

#[derive(Debug)]
pub struct Object<'a>(pub &'a str);

#[derive(Debug)]
pub struct Lock<'a>(pub &'a str);

#[derive(Debug)]
pub struct LockOwner<'a>(pub &'a str);

/// A state with its texts given by their bytes.
#[allow(inconsistent_fields)]
pub enum StateView {
    New,
    Runnable,
    Terminated,
    TimedWaiting { waiting_on: Option<Seq<u8>> },
    Waiting {
        waiting_on: Seq<u8>,
        lock: Option<Seq<u8>>,
        lock_owner_tid: Option<u64>,
        lock_owner_name: Option<Seq<u8>>,
    },
    Blocked { blocked_on: Seq<u8>, lock: Seq<u8>, lock_owner_tid: u64, lock_owner_name: Seq<u8> },
}

impl<'a> View for State<'a> {
    type V = StateView;

    open spec fn view(&self) -> StateView {
        match self {
            State::New => StateView::New,
            State::Runnable => StateView::Runnable,
            State::Terminated => StateView::Terminated,
            State::TimedWaiting { waiting_on } => StateView::TimedWaiting {
                waiting_on: match waiting_on {
                    Some(o) => Some(bytes_of(o.0)),
                    None => None,
                },
            },
            State::Waiting { waiting_on, lock, lock_owner_tid, lock_owner_name } => StateView::Waiting {
                waiting_on: bytes_of(waiting_on.0),
                lock: match lock {
                    Some(l) => Some(bytes_of(l.0)),
                    None => None,
                },
                lock_owner_tid: *lock_owner_tid,
                lock_owner_name: match lock_owner_name {
                    Some(o) => Some(bytes_of(o.0)),
                    None => None,
                },
            },
            State::Blocked { blocked_on, lock, lock_owner_tid, lock_owner_name } => StateView::Blocked {
                blocked_on: bytes_of(blocked_on.0),
                lock: bytes_of(lock.0),
                lock_owner_tid: *lock_owner_tid,
                lock_owner_name: bytes_of(lock_owner_name.0),
            },
        }
    }
}

impl<'a> State<'a> {
    /// The name of the state as a thread dump writes it.
    pub fn as_str(&self) -> (r: &'static str)
        ensures
            bytes_of(r) == state_name(self@),
    {
        match self {
            State::New => "NEW",
            State::Runnable => "RUNNABLE",
            State::Terminated => "TERMINATED",
            State::TimedWaiting { .. } => "TIMED_WAITING",
            State::Waiting { .. } => "WAITING",
            State::Blocked { .. } => "BLOCKED",
        }
    }
}

/// The name of a state as a thread dump writes it.
pub open spec fn state_name(s: StateView) -> Seq<u8> {
    match s {
        StateView::New => bytes_of("NEW"),
        StateView::Runnable => bytes_of("RUNNABLE"),
        StateView::Terminated => bytes_of("TERMINATED"),
        StateView::TimedWaiting { .. } => bytes_of("TIMED_WAITING"),
        StateView::Waiting { .. } => bytes_of("WAITING"),
        StateView::Blocked { .. } => bytes_of("BLOCKED"),
    }
}

/// A trace line as the bytes of its texts.
pub enum ElementView {
    Lock { object: Seq<u8> },
    Frame { method: Seq<u8>, source: Seq<u8> },
}

impl<'a> View for Element<'a> {
    type V = ElementView;

    open spec fn view(&self) -> ElementView {
        match self {
            Element::Lock { object } => ElementView::Lock { object: bytes_of(object.0) },
            Element::Frame { method, source } => ElementView::Frame {
                method: bytes_of(*method),
                source: bytes_of(*source),
            },
        }
    }
}

impl<'a> View for Trace<'a> {
    type V = Seq<ElementView>;

    open spec fn view(&self) -> Seq<ElementView> {
        self.0@.map_values(|e: Element<'a>| e@)
    }
}

impl<'a> Trace<'a> {
    /// The lines of the trace.
    pub fn as_ref(&self) -> (r: &Vec<Element<'a>>)
        ensures
            r@ == self.0@,
    {
        &self.0
    }

    /// The lines of the trace.
    pub fn deref(&self) -> (r: &Vec<Element<'a>>)
        ensures
            r@ == self.0@,
    {
        self.as_ref()
    }
}

/// A thread with its texts given by their bytes.
pub struct ThreadView {
    pub tid: u64,
    pub name: Seq<u8>,
    pub state: StateView,
    pub trace: Option<Seq<ElementView>>,
}

impl<'a> View for Thread<'a> {
    type V = ThreadView;

    open spec fn view(&self) -> ThreadView {
        ThreadView {
            tid: self.tid,
            name: bytes_of(self.name),
            state: self.state@,
            trace: match &self.trace {
                Some(t) => Some(t@),
                None => None,
            },
        }
    }
}

/// `LockName: <lock> Owner Id: <tid> Owner Name: <name>` up to the end of
/// the line, with whitespace allowed between the parts. Gives the lock, the
/// owner's id and name, and where reading stopped.
pub open spec fn lock_info_spec(t: Seq<u8>) -> (Result<(Seq<u8>, u64, Seq<u8>), ErrorView>, Seq<u8>) {
    match expect_spec(t, bytes_of("LockName:")) {
        Err(e) => (Err(ErrorView::InvalidFormat(e)), t),
        Ok(t1) => {
            let t1 = trim_start_bytes(t1);
            match take_until_fallible_spec(t1, bytes_of(" ")) {
                Err(e) => (Err(ErrorView::InvalidFormat(e)), t1),
                Ok((lock, t2)) => {
                    let t2 = trim_start_bytes(t2);
                    match expect_spec(t2, bytes_of("Owner Id:")) {
                        Err(e) => (Err(ErrorView::InvalidFormat(e)), t2),
                        Ok(t3) => {
                            let t3 = trim_start_bytes(t3);
                            match take_until_fallible_spec(t3, bytes_of(" ")) {
                                Err(e) => (Err(ErrorView::InvalidFormat(e)), t3),
                                Ok((id, t4)) => match parse_uint_spec(id, u64::MAX as int) {
                                    Err(e) => (Err(ErrorView::IntegerParse(e)), t4),
                                    Ok(owner) => {
                                        let t5 = trim_start_bytes(t4);
                                        match expect_spec(t5, bytes_of("Owner Name:")) {
                                            Err(e) => (Err(ErrorView::InvalidFormat(e)), t5),
                                            Ok(t6) => {
                                                let t6 = trim_start_bytes(t6);
                                                match take_until_fallible_spec(t6, bytes_of("\n")) {
                                                    Err(e) => (Err(ErrorView::InvalidFormat(e)), t6),
                                                    Ok((name, t7)) => (Ok((lock, owner as u64, name)), t7),
                                                }
                                            },
                                        }
                                    },
                                },
                            }
                        },
                    }
                },
            }
        },
    }
}

/// The state of a thread, starting at `Java.lang.Thread.State:`. Gives the
/// state and where reading stopped.
pub open spec fn thread_state_spec(t: Seq<u8>) -> (Result<StateView, ErrorView>, Seq<u8>) {
    let t0 = trim_start_bytes(t);
    match expect_spec(t0, bytes_of("Java.lang.Thread.State:")) {
        Err(e) => (Err(ErrorView::InvalidFormat(e)), t0),
        Ok(t1) => {
            let t2 = trim_start_bytes(t1);
            if is_prefix(bytes_of("RUNNABLE"), t2) {
                (Ok(StateView::Runnable), trim_start_bytes(expect_spec(t2, bytes_of("RUNNABLE"))->Ok_0))
            } else if is_prefix(bytes_of("TERMINATED"), t2) {
                (Ok(StateView::Terminated), trim_start_bytes(expect_spec(t2, bytes_of("TERMINATED"))->Ok_0))
            } else if is_prefix(bytes_of("NEW"), t2) {
                (Ok(StateView::New), trim_start_bytes(expect_spec(t2, bytes_of("NEW"))->Ok_0))
            } else if is_prefix(bytes_of("TIMED_WAITING"), t2) {
                let t3 = trim_start_bytes(expect_spec(t2, bytes_of("TIMED_WAITING"))->Ok_0);
                if is_prefix(bytes_of("on"), t3) {
                    let t4 = trim_start_bytes(expect_spec(t3, bytes_of("on"))->Ok_0);
                    match take_until_fallible_spec(t4, bytes_of("\n")) {
                        Err(e) => (Err(ErrorView::InvalidFormat(e)), t4),
                        Ok((object, t5)) => (Ok(StateView::TimedWaiting { waiting_on: Some(object) }), t5),
                    }
                } else {
                    (Ok(StateView::TimedWaiting { waiting_on: None }), t3)
                }
            } else if is_prefix(bytes_of("WAITING"), t2) {
                let t3 = trim_start_bytes(expect_spec(t2, bytes_of("WAITING"))->Ok_0);
                match expect_spec(t3, bytes_of("on")) {
                    Err(e) => (Err(ErrorView::InvalidFormat(e)), t3),
                    Ok(t4) => {
                        let t4 = trim_start_bytes(t4);
                        match take_until_fallible_spec(t4, bytes_of("\n")) {
                            Err(e) => (Err(ErrorView::InvalidFormat(e)), t4),
                            Ok((object, t5)) => {
                                let t5 = trim_start_bytes(t5);
                                if is_prefix(bytes_of("LockName:"), t5) {
                                    match lock_info_spec(t5) {
                                        (Err(e), t6) => (Err(e), t6),
                                        (Ok((lock, owner, name)), t6) => (
                                            Ok(
                                                StateView::Waiting {
                                                    waiting_on: object,
                                                    lock: Some(lock),
                                                    lock_owner_tid: Some(owner),
                                                    lock_owner_name: Some(name),
                                                },
                                            ),
                                            t6,
                                        ),
                                    }
                                } else {
                                    (
                                        Ok(
                                            StateView::Waiting {
                                                waiting_on: object,
                                                lock: None,
                                                lock_owner_tid: None,
                                                lock_owner_name: None,
                                            },
                                        ),
                                        t5,
                                    )
                                }
                            },
                        }
                    },
                }
            } else if is_prefix(bytes_of("BLOCKED"), t2) {
                let t3 = trim_start_bytes(expect_spec(t2, bytes_of("BLOCKED"))->Ok_0);
                match expect_spec(t3, bytes_of("waiting to lock")) {
                    Err(e) => (Err(ErrorView::InvalidFormat(e)), t3),
                    Ok(t4) => {
                        let t4 = trim_start_bytes(t4);
                        match take_until_fallible_spec(t4, bytes_of("\n")) {
                            Err(e) => (Err(ErrorView::InvalidFormat(e)), t4),
                            Ok((object, t5)) => match lock_info_spec(trim_start_bytes(t5)) {
                                (Err(e), t6) => (Err(e), t6),
                                (Ok((lock, owner, name)), t6) => (
                                    Ok(
                                        StateView::Blocked {
                                            blocked_on: object,
                                            lock,
                                            lock_owner_tid: owner,
                                            lock_owner_name: name,
                                        },
                                    ),
                                    trim_start_bytes(t6),
                                ),
                            },
                        }
                    },
                }
            } else {
                (Err(ErrorView::InvalidState), t2)
            }
        },
    }
}

fn lock_info<'a>(tok: &mut Tokenizer<'a>) -> (r: Result<(&'a str, u64, &'a str), Error>)
    ensures
        ({
            let (res, rest) = lock_info_spec(old(tok)@);
            &&& final(tok)@ == rest
            &&& match r {
                Ok((l, o, n)) => res == Ok::<(Seq<u8>, u64, Seq<u8>), ErrorView>((bytes_of(l), o, bytes_of(n))),
                Err(e) => res == Err::<(Seq<u8>, u64, Seq<u8>), ErrorView>(e@),
            }
        }),
{
    if let Err(e) = tok.expect("LockName:") {
        return Err(Error::InvalidFormat(e));
    }
    tok.skip_whitespace();
    let lock = match tok.take_until_fallible(" ") {
        Ok(x) => x,
        Err(e) => return Err(Error::InvalidFormat(e)),
    };
    tok.skip_whitespace();
    if let Err(e) = tok.expect("Owner Id:") {
        return Err(Error::InvalidFormat(e));
    }
    tok.skip_whitespace();
    let owner = match tok.take_until_fallible(" ") {
        Ok(x) => match parse_u64(x) {
            Ok(v) => v,
            Err(e) => return Err(Error::IntegerParse(e)),
        },
        Err(e) => return Err(Error::InvalidFormat(e)),
    };
    tok.skip_whitespace();
    if let Err(e) = tok.expect("Owner Name:") {
        return Err(Error::InvalidFormat(e));
    }
    tok.skip_whitespace();
    let name = match tok.take_until_fallible("\n") {
        Ok(x) => x,
        Err(e) => return Err(Error::InvalidFormat(e)),
    };
    Ok((lock, owner, name))
}

/// The lines of a stack trace, up to the first line that is neither a
/// `- locked` line nor a frame with `(`; that line is consumed too.
pub open spec fn trace_elements_spec(t: Seq<u8>) -> (Result<Seq<ElementView>, ErrorView>, Seq<u8>)
    decreases t.len(),
{
    match line_spec(t) {
        None => (Ok(seq![]), t),
        Some((line, rest)) => {
            proof {
                lemma_newline();
                lemma_take_until_shrinks(t, newline());
            }
            let l = trim_start_bytes(line);
            let tt = trim_start_bytes(l);
            if is_prefix(bytes_of("- locked"), tt) {
                let object = trim_bytes(expect_spec(tt, bytes_of("- locked"))->Ok_0);
                match trace_elements_spec(rest) {
                    (Ok(es), t2) => (Ok(seq![ElementView::Lock { object }] + es), t2),
                    (Err(e), t2) => (Err(e), t2),
                }
            } else if find(l, bytes_of("(")) is Some {
                match take_until_exclusive_spec(tt, bytes_of("(")) {
                    Err(e) => (Err(ErrorView::InvalidFormat(e)), t),
                    Ok((method, r1)) => match take_within_spec(r1, bytes_of("("), bytes_of(")")) {
                        Err(e) => (Err(ErrorView::InvalidFormat(e)), t),
                        Ok((source, _)) => match trace_elements_spec(rest) {
                            (Ok(es), t2) => (
                                Ok(seq![ElementView::Frame { method: trim_bytes(method), source }] + es),
                                t2,
                            ),
                            (Err(e), t2) => (Err(e), t2),
                        },
                    },
                }
            } else {
                (Ok(seq![]), rest)
            }
        },
    }
}

/// A thread block: `"<name>" Id=<tid> <state>` and its stack trace, which
/// is absent when the next thread follows right away. Gives the thread and
/// where reading stopped.
#[verifier::opaque]
pub open spec fn thread_spec(t: Seq<u8>) -> (Result<ThreadView, ErrorView>, Seq<u8>) {
    match take_within_spec(t, bytes_of("\""), bytes_of("\"")) {
        Err(e) => (Err(ErrorView::InvalidFormat(e)), t),
        Ok((name, t1)) => {
            let t1 = trim_start_bytes(t1);
            match expect_spec(t1, bytes_of("Id=")) {
                Err(e) => (Err(ErrorView::InvalidFormat(e)), t1),
                Ok(t2) => match take_until_fallible_spec(t2, bytes_of(" ")) {
                    Err(e) => (Err(ErrorView::InvalidFormat(e)), t2),
                    Ok((id, t3)) => match parse_uint_spec(id, u64::MAX as int) {
                        Err(e) => (Err(ErrorView::IntegerParse(e)), t3),
                        Ok(tid) => match thread_state_spec(t3) {
                            (Err(e), t4) => (Err(e), t4),
                            (Ok(state), t4) => {
                                let t5 = trim_start_bytes(t4);
                                if is_prefix(bytes_of("\""), t5) {
                                    (Ok(ThreadView { tid: tid as u64, name, state, trace: None }), t5)
                                } else {
                                    match trace_elements_spec(t5) {
                                        (Err(e), t6) => (Err(e), t6),
                                        (Ok(es), t6) => (
                                            Ok(
                                                ThreadView {
                                                    tid: tid as u64,
                                                    name,
                                                    state,
                                                    trace: if es.len() == 0 {
                                                        None
                                                    } else {
                                                        Some(es)
                                                    },
                                                },
                                            ),
                                            t6,
                                        ),
                                    }
                                }
                            },
                        },
                    },
                },
            }
        },
    }
}

/// One space before a text that starts with a printable ASCII character is
/// trimmed, and nothing of that text is.
proof fn lemma_trim_one_space(u: Seq<u8>)
    requires
        u.len() > 0,
        0x21 <= u[0] <= 0x7e,
    ensures
        trim_start_bytes(u) == u,
        trim_start_bytes(bytes_of(" ") + u) == u,
{
    reveal_strlit(" ");
    assert(vstd::string::is_ascii(" "));
    assert(bytes_of(" ").len() == 1 && bytes_of(" ")[0] == 32u8);
    let v = bytes_of(" ") + u;
    assert(v.subrange(1, v.len() as int) =~= u);
}

/// The text up to the first line break of a text whose first line is `x`.
#[verifier::rlimit(50)]
proof fn lemma_first_line(x: Seq<u8>, rest: Seq<u8>)
    requires
        !x.contains(10u8),
    ensures
        take_until_fallible_spec(x + bytes_of("\n") + rest, bytes_of("\n")) == Ok::<(Seq<u8>, Seq<u8>), ErrorSpec>((x, rest)),
{
    reveal_strlit("\n");
    assert(vstd::string::is_ascii("\n"));
    let nl = bytes_of("\n");
    assert(nl.len() == 1 && nl[0] == 10u8);
    let h = x + nl + rest;
    let k = x.len() as int;
    assert(h.subrange(k, k + 1) =~= nl);
    assert(crate::text::matches_at(h, nl, k));
    assert forall|j: int| 0 <= j < k implies !crate::text::matches_at(h, nl, j) by {
        if crate::text::matches_at(h, nl, j) {
            assert(h.subrange(j, j + 1)[0] == h[j]);
            assert(h[j] == x[j]);
            assert(x[j] == 10u8);
        }
    }
    lemma_find_props(h, nl);
    match find(h, nl) {
        Some(k2) => {
            if k2 < k {
                assert(!crate::text::matches_at(h, nl, k2));
            } else if k2 > k {
                assert(!crate::text::matches_at(h, nl, k));
            }
        },
        None => {
            assert(!crate::text::matches_at(h, nl, k));
        },
    }
    assert(find(h, nl) == Some(k));
    assert(h.subrange(0, k) =~= x);
    assert(h.subrange(k + 1, h.len() as int) =~= rest);
}

/// A thread waiting with a time-out on an object, `TIMED_WAITING on <x>`
/// followed by a line break, is read as waiting on exactly `x` (an object
/// text that starts with a printable character and has no line break), and
/// reading continues after that line.
pub proof fn lemma_timed_waiting_on(x: Seq<u8>, rest: Seq<u8>)
    requires
        x.len() > 0,
        0x21 <= x[0] <= 0x7e,
        !x.contains(10u8),
    ensures
        thread_state_spec(
            bytes_of("Java.lang.Thread.State:") + bytes_of(" ") + bytes_of("TIMED_WAITING") + bytes_of(" ")
                + bytes_of("on") + bytes_of(" ") + x + bytes_of("\n") + rest,
        ) == (Ok::<StateView, ErrorView>(StateView::TimedWaiting { waiting_on: Some(x) }), rest),
{
    reveal_strlit("Java.lang.Thread.State:");
    assert(vstd::string::is_ascii("Java.lang.Thread.State:"));
    reveal_strlit(" ");
    assert(vstd::string::is_ascii(" "));
    reveal_strlit("TIMED_WAITING");
    assert(vstd::string::is_ascii("TIMED_WAITING"));
    reveal_strlit("on");
    assert(vstd::string::is_ascii("on"));
    reveal_strlit("\n");
    assert(vstd::string::is_ascii("\n"));
    reveal_strlit("RUNNABLE");
    assert(vstd::string::is_ascii("RUNNABLE"));
    reveal_strlit("TERMINATED");
    assert(vstd::string::is_ascii("TERMINATED"));
    reveal_strlit("NEW");
    assert(vstd::string::is_ascii("NEW"));
    let a = bytes_of("Java.lang.Thread.State:");
    let sp = bytes_of(" ");
    let tw = bytes_of("TIMED_WAITING");
    let on = bytes_of("on");
    let nl = bytes_of("\n");
    assert(a.len() == 23 && a[0] == 74u8);
    assert(sp.len() == 1 && sp[0] == 32u8);
    assert(tw.len() == 13 && tw[0] == 84u8 && tw[1] == 73u8);
    assert(on.len() == 2 && on[0] == 111u8);
    assert(bytes_of("RUNNABLE").len() == 8 && bytes_of("RUNNABLE")[0] == 82u8);
    assert(bytes_of("TERMINATED").len() == 10 && bytes_of("TERMINATED")[1] == 69u8);
    assert(bytes_of("NEW").len() == 3 && bytes_of("NEW")[0] == 78u8);
    let y = x + nl + rest;
    let t3 = on + sp + y;
    let t2 = tw + sp + t3;
    let t1 = sp + t2;
    let h = a + t1;
    assert(h =~= a + sp + tw + sp + on + sp + x + nl + rest);
    assert(y[0] == x[0]);
    lemma_trim_one_space(h);
    assert(h.subrange(0, 23) =~= a);
    assert(h.subrange(23, h.len() as int) =~= t1);
    assert(expect_spec(h, a) == Ok::<Seq<u8>, ErrorSpec>(t1));
    lemma_trim_one_space(t2);
    assert(!is_prefix(bytes_of("RUNNABLE"), t2)) by {
        if is_prefix(bytes_of("RUNNABLE"), t2) {
            assert(t2.subrange(0, 8)[0] == t2[0]);
        }
    }
    assert(!is_prefix(bytes_of("TERMINATED"), t2)) by {
        if is_prefix(bytes_of("TERMINATED"), t2) {
            assert(t2.subrange(0, 10)[1] == t2[1]);
        }
    }
    assert(!is_prefix(bytes_of("NEW"), t2)) by {
        if is_prefix(bytes_of("NEW"), t2) {
            assert(t2.subrange(0, 3)[0] == t2[0]);
        }
    }
    assert(t2.subrange(0, 13) =~= tw);
    assert(is_prefix(tw, t2));
    assert(t2.subrange(13, t2.len() as int) =~= sp + t3);
    lemma_trim_one_space(t3);
    assert(t3.subrange(0, 2) =~= on);
    assert(is_prefix(on, t3));
    assert(t3.subrange(2, t3.len() as int) =~= sp + y);
    lemma_trim_one_space(y);
    lemma_first_line(x, rest);
}

/// `RUNNABLE` after the state label is read as that state, and reading
/// continues after the word and the whitespace that follows it.
pub proof fn lemma_runnable_state(y: Seq<u8>)
    ensures
        thread_state_spec(bytes_of("Java.lang.Thread.State:") + bytes_of(" ") + bytes_of("RUNNABLE") + y)
            == (Ok::<StateView, ErrorView>(StateView::Runnable), trim_start_bytes(y)),
{
    reveal_strlit("Java.lang.Thread.State:");
    assert(vstd::string::is_ascii("Java.lang.Thread.State:"));
    reveal_strlit(" ");
    assert(vstd::string::is_ascii(" "));
    reveal_strlit("RUNNABLE");
    assert(vstd::string::is_ascii("RUNNABLE"));
    let a = bytes_of("Java.lang.Thread.State:");
    let sp = bytes_of(" ");
    let wd = bytes_of("RUNNABLE");
    assert(a.len() == 23 && a[0] == 74u8);
    assert(sp.len() == 1 && sp[0] == 32u8);
    assert(wd.len() == 8 && 0x21 <= wd[0] <= 0x7e);
    let t2 = wd + y;
    let h = a + sp + t2;
    assert(h =~= a + sp + wd + y);
    lemma_trim_one_space(h);
    assert(h.subrange(0, 23) =~= a);
    assert(h.subrange(23, h.len() as int) =~= sp + t2);
    lemma_trim_one_space(t2);
    assert(t2.subrange(0, 8) =~= wd);
    assert(t2.subrange(8, t2.len() as int) =~= y);
}

/// `TERMINATED` after the state label is read as that state, and reading
/// continues after the word and the whitespace that follows it.
pub proof fn lemma_terminated_state(y: Seq<u8>)
    ensures
        thread_state_spec(bytes_of("Java.lang.Thread.State:") + bytes_of(" ") + bytes_of("TERMINATED") + y)
            == (Ok::<StateView, ErrorView>(StateView::Terminated), trim_start_bytes(y)),
{
    reveal_strlit("Java.lang.Thread.State:");
    assert(vstd::string::is_ascii("Java.lang.Thread.State:"));
    reveal_strlit(" ");
    assert(vstd::string::is_ascii(" "));
    reveal_strlit("TERMINATED");
    assert(vstd::string::is_ascii("TERMINATED"));
    reveal_strlit("RUNNABLE");
    assert(vstd::string::is_ascii("RUNNABLE"));
    let a = bytes_of("Java.lang.Thread.State:");
    let sp = bytes_of(" ");
    let wd = bytes_of("TERMINATED");
    assert(a.len() == 23 && a[0] == 74u8);
    assert(sp.len() == 1 && sp[0] == 32u8);
    assert(wd.len() == 10 && 0x21 <= wd[0] <= 0x7e);
    assert(bytes_of("RUNNABLE").len() == 8 && bytes_of("RUNNABLE")[0] != wd[0]);
    let t2 = wd + y;
    let h = a + sp + t2;
    assert(h =~= a + sp + wd + y);
    lemma_trim_one_space(h);
    assert(h.subrange(0, 23) =~= a);
    assert(h.subrange(23, h.len() as int) =~= sp + t2);
    lemma_trim_one_space(t2);
    assert(!is_prefix(bytes_of("RUNNABLE"), t2)) by {
        if is_prefix(bytes_of("RUNNABLE"), t2) {
            assert(t2.subrange(0, 8)[0] == t2[0]);
        }
    }
    assert(t2.subrange(0, 10) =~= wd);
    assert(t2.subrange(10, t2.len() as int) =~= y);
}

/// `NEW` after the state label is read as that state, and reading
/// continues after the word and the whitespace that follows it.
pub proof fn lemma_new_state(y: Seq<u8>)
    ensures
        thread_state_spec(bytes_of("Java.lang.Thread.State:") + bytes_of(" ") + bytes_of("NEW") + y)
            == (Ok::<StateView, ErrorView>(StateView::New), trim_start_bytes(y)),
{
    reveal_strlit("Java.lang.Thread.State:");
    assert(vstd::string::is_ascii("Java.lang.Thread.State:"));
    reveal_strlit(" ");
    assert(vstd::string::is_ascii(" "));
    reveal_strlit("NEW");
    assert(vstd::string::is_ascii("NEW"));
    reveal_strlit("RUNNABLE");
    assert(vstd::string::is_ascii("RUNNABLE"));
    reveal_strlit("TERMINATED");
    assert(vstd::string::is_ascii("TERMINATED"));
    let a = bytes_of("Java.lang.Thread.State:");
    let sp = bytes_of(" ");
    let wd = bytes_of("NEW");
    assert(a.len() == 23 && a[0] == 74u8);
    assert(sp.len() == 1 && sp[0] == 32u8);
    assert(wd.len() == 3 && 0x21 <= wd[0] <= 0x7e);
    assert(bytes_of("RUNNABLE").len() == 8 && bytes_of("RUNNABLE")[0] != wd[0]);
    assert(bytes_of("TERMINATED").len() == 10 && bytes_of("TERMINATED")[0] != wd[0]);
    let t2 = wd + y;
    let h = a + sp + t2;
    assert(h =~= a + sp + wd + y);
    lemma_trim_one_space(h);
    assert(h.subrange(0, 23) =~= a);
    assert(h.subrange(23, h.len() as int) =~= sp + t2);
    lemma_trim_one_space(t2);
    assert(!is_prefix(bytes_of("RUNNABLE"), t2)) by {
        if is_prefix(bytes_of("RUNNABLE"), t2) {
            assert(t2.subrange(0, 8)[0] == t2[0]);
        }
    }
    assert(!is_prefix(bytes_of("TERMINATED"), t2)) by {
        if is_prefix(bytes_of("TERMINATED"), t2) {
            assert(t2.subrange(0, 10)[0] == t2[0]);
        }
    }
    assert(t2.subrange(0, 3) =~= wd);
    assert(t2.subrange(3, t2.len() as int) =~= y);
}

/// A thread waiting on an object without a lock, `WAITING on <x>` followed by
/// a line break and text that does not start with `LockName:`, is read as
/// waiting on exactly `x`, with no lock, and reading continues at that text.
pub proof fn lemma_waiting_on(x: Seq<u8>, rest: Seq<u8>)
    requires
        x.len() > 0,
        0x21 <= x[0] <= 0x7e,
        !x.contains(10u8),
        !is_prefix(bytes_of("LockName:"), trim_start_bytes(rest)),
    ensures
        thread_state_spec(
            bytes_of("Java.lang.Thread.State:") + bytes_of(" ") + bytes_of("WAITING") + bytes_of(" ")
                + bytes_of("on") + bytes_of(" ") + x + bytes_of("\n") + rest,
        ) == (
            Ok::<StateView, ErrorView>(
                StateView::Waiting { waiting_on: x, lock: None, lock_owner_tid: None, lock_owner_name: None },
            ),
            trim_start_bytes(rest),
        ),
{
    reveal_strlit("Java.lang.Thread.State:");
    assert(vstd::string::is_ascii("Java.lang.Thread.State:"));
    reveal_strlit(" ");
    assert(vstd::string::is_ascii(" "));
    reveal_strlit("RUNNABLE");
    assert(vstd::string::is_ascii("RUNNABLE"));
    reveal_strlit("TERMINATED");
    assert(vstd::string::is_ascii("TERMINATED"));
    reveal_strlit("NEW");
    assert(vstd::string::is_ascii("NEW"));
    reveal_strlit("TIMED_WAITING");
    assert(vstd::string::is_ascii("TIMED_WAITING"));
    reveal_strlit("WAITING");
    assert(vstd::string::is_ascii("WAITING"));
    reveal_strlit("on");
    assert(vstd::string::is_ascii("on"));
    reveal_strlit("\n");
    assert(vstd::string::is_ascii("\n"));
    let a = bytes_of("Java.lang.Thread.State:");
    let sp = bytes_of(" ");
    assert(a.len() == 23 && a[0] == 74u8);
    assert(sp.len() == 1 && sp[0] == 32u8);
    assert(bytes_of("RUNNABLE").len() == 8 && bytes_of("RUNNABLE")[0] == 82u8);
    assert(bytes_of("TERMINATED").len() == 10 && bytes_of("TERMINATED")[0] == 84u8 && bytes_of("TERMINATED")[1] == 69u8);
    assert(bytes_of("NEW").len() == 3 && bytes_of("NEW")[0] == 78u8);
    assert(bytes_of("TIMED_WAITING").len() == 13 && bytes_of("TIMED_WAITING")[0] == 84u8);
    assert(bytes_of("WAITING").len() == 7 && bytes_of("WAITING")[0] == 87u8);
    assert(bytes_of("on").len() == 2 && bytes_of("on")[0] == 111u8);
    let nl = bytes_of("\n");
    let on = bytes_of("on");
    let wt = bytes_of("WAITING");
    let y = x + nl + rest;
    let t3 = on + sp + y;
    let t2 = wt + sp + t3;
    let h = a + sp + t2;
    assert(h =~= a + sp + wt + sp + on + sp + x + nl + rest);
    assert(y[0] == x[0]);
    lemma_trim_one_space(h);
    assert(h.subrange(0, 23) =~= a);
    assert(h.subrange(23, h.len() as int) =~= sp + t2);
    lemma_trim_one_space(t2);
    assert(!is_prefix(bytes_of("RUNNABLE"), t2)) by {
        if is_prefix(bytes_of("RUNNABLE"), t2) {
            assert(t2.subrange(0, 8)[0] == t2[0]);
        }
    }
    assert(!is_prefix(bytes_of("TERMINATED"), t2)) by {
        if is_prefix(bytes_of("TERMINATED"), t2) {
            assert(t2.subrange(0, 10)[0] == t2[0]);
        }
    }
    assert(!is_prefix(bytes_of("NEW"), t2)) by {
        if is_prefix(bytes_of("NEW"), t2) {
            assert(t2.subrange(0, 3)[0] == t2[0]);
        }
    }
    assert(!is_prefix(bytes_of("TIMED_WAITING"), t2)) by {
        if is_prefix(bytes_of("TIMED_WAITING"), t2) {
            assert(t2.subrange(0, 13)[0] == t2[0]);
        }
    }
    assert(t2.subrange(0, 7) =~= wt);
    assert(t2.subrange(7, t2.len() as int) =~= sp + t3);
    lemma_trim_one_space(t3);
    assert(t3.subrange(0, 2) =~= on);
    assert(t3.subrange(2, t3.len() as int) =~= sp + y);
    lemma_trim_one_space(y);
    lemma_first_line(x, rest);
}

/// A dump with its texts given by their bytes.
pub struct ThreadDumpView {
    pub threads: Seq<ThreadView>,
    pub timestamp: u64,
}

impl<'a> View for ThreadDump<'a> {
    type V = ThreadDumpView;

    open spec fn view(&self) -> ThreadDumpView {
        ThreadDumpView { threads: self.threads@.map_values(|t: Thread<'a>| t@), timestamp: self.timestamp }
    }
}

impl<'a> View for ThreadDumpParser<'a> {
    type V = Seq<u8>;

    /// The text that is still to be read.
    closed spec fn view(&self) -> Seq<u8> {
        bytes_of(self.0)
    }
}

/// The delimiters that the thread blocks are cut at are not empty.
pub proof fn lemma_delimiters()
    ensures
        bytes_of("\"").len() == 1,
        bytes_of(" ").len() == 1,
        bytes_of("\n").len() == 1,
{
    reveal_strlit("\"");
    reveal_strlit(" ");
    reveal_strlit("\n");
    reveal_with_fuel(vstd::utf8::encode_utf8, 2);
    lemma_nonempty_bytes("\"");
    lemma_nonempty_bytes(" ");
    lemma_nonempty_bytes("\n");
    assert(bytes_of("\"") =~= vstd::utf8::encode_scalar('"' as u32));
    assert(bytes_of(" ") =~= vstd::utf8::encode_scalar(' ' as u32));
    assert(bytes_of("\n") =~= vstd::utf8::encode_scalar('\n' as u32));
}

pub proof fn lemma_lock_info_len(t: Seq<u8>)
    ensures
        lock_info_spec(t).1.len() <= t.len(),
{
    broadcast use lemma_split_once_len, lemma_trim_start_shorter;

}

pub proof fn lemma_thread_state_len(t: Seq<u8>)
    ensures
        thread_state_spec(t).1.len() <= t.len(),
{
    broadcast use lemma_split_once_len, lemma_trim_start_shorter;

    let t0 = trim_start_bytes(t);
    if let Ok(t1) = expect_spec(t0, bytes_of("Java.lang.Thread.State:")) {
        let t2 = trim_start_bytes(t1);
        let t3 = trim_start_bytes(expect_spec(t2, bytes_of("WAITING"))->Ok_0);
        if let Ok(t4) = expect_spec(t3, bytes_of("on")) {
            let t4 = trim_start_bytes(t4);
            if let Some((_, t5)) = split_once_spec(t4, bytes_of("\n")) {
                lemma_lock_info_len(trim_start_bytes(t5));
            }
        }
        let b3 = trim_start_bytes(expect_spec(t2, bytes_of("BLOCKED"))->Ok_0);
        if let Ok(t4) = expect_spec(b3, bytes_of("waiting to lock")) {
            let t4 = trim_start_bytes(t4);
            if let Some((_, t5)) = split_once_spec(t4, bytes_of("\n")) {
                lemma_lock_info_len(trim_start_bytes(t5));
            }
        }
    }
}

pub proof fn lemma_trace_len(t: Seq<u8>)
    ensures
        trace_elements_spec(t).1.len() <= t.len(),
    decreases t.len(),
{
    lemma_newline();
    lemma_take_until_shrinks(t, newline());
    if let Some((_, rest)) = line_spec(t) {
        lemma_trace_len(rest);
    }
}

/// Reading a thread block that succeeds consumes at least its quoted name.
pub proof fn lemma_thread_len(t: Seq<u8>)
    ensures
        thread_spec(t).0 is Ok ==> thread_spec(t).1.len() < t.len(),
        thread_spec(t).1.len() <= t.len(),
{
    broadcast use lemma_split_once_len, lemma_trim_start_shorter;

    reveal(thread_spec);
    lemma_delimiters();
    if let Ok((_, t1)) = take_within_spec(t, bytes_of("\""), bytes_of("\"")) {
        let t1 = trim_start_bytes(t1);
        if let Ok(t2) = expect_spec(t1, bytes_of("Id=")) {
            if let Ok((_, t3)) = take_until_fallible_spec(t2, bytes_of(" ")) {
                lemma_thread_state_len(t3);
                let t5 = trim_start_bytes(thread_state_spec(t3).1);
                lemma_trace_len(t5);
            }
        }
    }
}

/// Looks for the first line whose text, after leading whitespace, starts
/// with `Thread dump`; gives the text from that line on.
pub open spec fn dump_search(t: Seq<u8>) -> Option<Seq<u8>>
    decreases t.len(),
{
    match line_spec(t) {
        None => None,
        Some((line, rest)) => {
            proof {
                lemma_newline();
                lemma_take_until_shrinks(t, newline());
            }
            if is_prefix(bytes_of("Thread dump"), trim_start_bytes(line)) {
                Some(t)
            } else {
                dump_search(rest)
            }
        },
    }
}

/// The threads of a dump: thread blocks, which begin with a line whose text
/// starts with `"`, are read up to a line that starts with `TriggeredTime`
/// or `Thread dump` or up to the last complete line; other lines are
/// skipped. Gives the threads and where reading stopped.
pub open spec fn threads_spec(t: Seq<u8>) -> (Result<Seq<ThreadView>, ErrorView>, Seq<u8>)
    decreases t.len(),
{
    match line_spec(t) {
        None => (Ok(seq![]), t),
        Some((line, rest)) => {
            proof {
                lemma_newline();
                lemma_take_until_shrinks(t, newline());
                lemma_thread_len(t);
            }
            let l = trim_start_bytes(line);
            if is_prefix(bytes_of("TriggeredTime"), l) || is_prefix(bytes_of("Thread dump"), l) {
                (Ok(seq![]), t)
            } else if is_prefix(bytes_of("\""), l) {
                match thread_spec(t) {
                    (Err(e), t2) => (Err(e), t2),
                    (Ok(th), t2) => match threads_spec(t2) {
                        (Ok(ths), t3) => (Ok(seq![th] + ths), t3),
                        (Err(e), t3) => (Err(e), t3),
                    },
                }
            } else {
                threads_spec(rest)
            }
        },
    }
}

/// What the parser yields from the text `text`, and the text left for the
/// dumps after it: the dump header `Thread dump :<label>: <date and time>`,
/// whose date and time are read as UTC with the dump timestamp format, and
/// then the threads.
pub open spec fn next_spec(text: Seq<u8>) -> (Option<Result<ThreadDumpView, ErrorView>>, Seq<u8>) {
    let t = trim_start_bytes(text);
    if t.len() == 0 {
        (None, text)
    } else {
        match dump_search(t) {
            None => (None, text),
            Some(t1) => match expect_spec(t1, bytes_of("Thread dump")) {
                Err(e) => (Some(Err(ErrorView::InvalidFormat(e))), match line_spec(t1) {
                    Some((_, r)) => r,
                    None => t1,
                }),
                Ok(t2) => {
                    let t3 = trim_start_bytes(t2);
                    match expect_spec(t3, bytes_of(":")) {
                        Err(e) => (Some(Err(ErrorView::InvalidFormat(e))), t3),
                        Ok(t4) => match take_until_fallible_spec(t4, bytes_of(":")) {
                            Err(e) => (Some(Err(ErrorView::InvalidFormat(e))), t4),
                            Ok((_, t5)) => {
                                let t6 = trim_start_bytes(t5);
                                match line_spec(t6) {
                                    None => (None, text),
                                    Some((ts, t7)) => match utc_unix_timestamp_millis_spec(
                                        decode_utf8(ts),
                                        THREADDUMP_TIMESTAMP_FORMAT@,
                                    ) {
                                        None => (Some(Err(ErrorView::Timestamp(TimestampErrorView::Parse))), t7),
                                        Some(Err(())) => (
                                            Some(Err(ErrorView::Timestamp(TimestampErrorView::Conversion))),
                                            t7,
                                        ),
                                        Some(Ok(timestamp)) => match threads_spec(t7) {
                                            (Err(e), t8) => (Some(Err(e)), t8),
                                            (Ok(threads), t8) => (
                                                Some(Ok(ThreadDumpView { threads, timestamp })),
                                                t8,
                                            ),
                                        },
                                    },
                                }
                            },
                        },
                    }
                },
            },
        }
    }
}

impl<'a> ThreadDumpParser<'a> {
    pub fn new(data: &'a str) -> (r: Self)
        ensures
            r@ == bytes_of(data),
    {
        Self(data, ParserState::Initial)
    }

    /// A parser over bytes, which must be valid UTF-8.
    pub fn try_from(value: &'a [u8]) -> (r: Result<Self, core::str::Utf8Error>)
        ensures
            r is Ok <==> vstd::utf8::valid_utf8(value@),
            r matches Ok(p) ==> p@ == value@,
    {
        let data = tokenizer::str_from_utf8(value)?;
        Ok(Self::new(data))
    }

    /// Reads a thread state, starting at `Java.lang.Thread.State:`.
    pub fn parse_thread_state(tok: &mut Tokenizer<'a>) -> (r: Result<State<'a>, Error>)
        ensures
            ({
                let (res, rest) = thread_state_spec(old(tok)@);
                &&& final(tok)@ == rest
                &&& match r {
                    Ok(s) => res == Ok::<StateView, ErrorView>(s@),
                    Err(e) => res == Err::<StateView, ErrorView>(e@),
                }
            }),
    {
        tok.skip_whitespace();
        if let Err(e) = tok.expect("Java.lang.Thread.State:") {
            return Err(Error::InvalidFormat(e));
        }
        tok.skip_whitespace();
        if tok.peek("RUNNABLE") {
            let _ = tok.expect("RUNNABLE");
            tok.skip_whitespace();
            Ok(State::Runnable)
        } else if tok.peek("TERMINATED") {
            let _ = tok.expect("TERMINATED");
            tok.skip_whitespace();
            Ok(State::Terminated)
        } else if tok.peek("NEW") {
            let _ = tok.expect("NEW");
            tok.skip_whitespace();
            Ok(State::New)
        } else if tok.peek("TIMED_WAITING") {
            let _ = tok.expect("TIMED_WAITING");
            tok.skip_whitespace();
            if tok.peek("on") {
                let _ = tok.expect("on");
                tok.skip_whitespace();
                let object = match tok.take_until_fallible("\n") {
                    Ok(x) => x,
                    Err(e) => return Err(Error::InvalidFormat(e)),
                };
                Ok(State::TimedWaiting { waiting_on: Some(Object(object)) })
            } else {
                Ok(State::TimedWaiting { waiting_on: None })
            }
        } else if tok.peek("WAITING") {
            let _ = tok.expect("WAITING");
            tok.skip_whitespace();
            if let Err(e) = tok.expect("on") {
                return Err(Error::InvalidFormat(e));
            }
            tok.skip_whitespace();
            let object = match tok.take_until_fallible("\n") {
                Ok(x) => x,
                Err(e) => return Err(Error::InvalidFormat(e)),
            };
            tok.skip_whitespace();
            if tok.peek("LockName:") {
                let (lockname, owner_id, owner_name) = lock_info(tok)?;
                Ok(
                    State::Waiting {
                        waiting_on: Object(object),
                        lock: Some(Lock(lockname)),
                        lock_owner_tid: Some(owner_id),
                        lock_owner_name: Some(LockOwner(owner_name)),
                    },
                )
            } else {
                Ok(
                    State::Waiting {
                        waiting_on: Object(object),
                        lock: None,
                        lock_owner_tid: None,
                        lock_owner_name: None,
                    },
                )
            }
        } else if tok.peek("BLOCKED") {
            let _ = tok.expect("BLOCKED");
            tok.skip_whitespace();
            if let Err(e) = tok.expect("waiting to lock") {
                return Err(Error::InvalidFormat(e));
            }
            tok.skip_whitespace();
            let object = match tok.take_until_fallible("\n") {
                Ok(x) => x,
                Err(e) => return Err(Error::InvalidFormat(e)),
            };
            tok.skip_whitespace();
            let (lock, owner, owner_name) = lock_info(tok)?;
            tok.skip_whitespace();
            Ok(
                State::Blocked {
                    blocked_on: Object(object),
                    lock: Lock(lock),
                    lock_owner_tid: owner,
                    lock_owner_name: LockOwner(owner_name),
                },
            )
        } else {
            Err(Error::InvalidState)
        }
    }

    fn read_trace(tok: &mut Tokenizer<'a>) -> (r: Result<Vec<Element<'a>>, Error>)
        ensures
            ({
                let (res, rest) = trace_elements_spec(old(tok)@);
                &&& final(tok)@ == rest
                &&& match r {
                    Ok(v) => res == Ok::<Seq<ElementView>, ErrorView>(v@.map_values(|e: Element<'a>| e@)),
                    Err(e) => res == Err::<Seq<ElementView>, ErrorView>(e@),
                }
            }),
    {
        let mut traces: Vec<Element<'a>> = Vec::new();
        let ghost start = tok@;
        loop
            invariant
                start == old(tok)@,
                trace_elements_spec(start) == match trace_elements_spec(tok@) {
                    (Ok(es), t2) => (Ok(traces@.map_values(|e: Element<'a>| e@) + es), t2),
                    (Err(e), t2) => (Err(e), t2),
                },
            decreases tok@.len(),
        {
            let ghost before = tok@;
            proof {
                lemma_newline();
                lemma_take_until_shrinks(before, newline());
            }
            let line = match tok.peek_line() {
                Some(line) => line,
                None => {
                    assert(traces@.map_values(|e: Element<'a>| e@) + seq![] =~= traces@.map_values(|e: Element<'a>| e@));
                    return Ok(traces);
                },
            };
            let line = trim_start(line);
            let mut ttok = Tokenizer::new(line);
            ttok.skip_whitespace();
            let element = if ttok.peek("- locked") {
                let _ = ttok.expect("- locked");
                let object = trim(ttok.remaining());
                Element::Lock { object: Object(object) }
            } else if contains(line, "(") {
                let method = match ttok.take_until_exclusive("(") {
                    Ok(m) => trim(m),
                    Err(e) => return Err(Error::InvalidFormat(e)),
                };
                let source = match ttok.take_within("(", ")") {
                    Ok(s) => s,
                    Err(e) => return Err(Error::InvalidFormat(e)),
                };
                Element::Frame { method, source }
            } else {
                let _ = tok.get_line();
                assert(traces@.map_values(|e: Element<'a>| e@) + seq![] =~= traces@.map_values(|e: Element<'a>| e@));
                return Ok(traces);
            };
            let ghost old_traces = traces@;
            traces.push(element);
            let _ = tok.get_line();
            proof {
                assert(traces@.map_values(|e: Element<'a>| e@) =~= old_traces.map_values(|e: Element<'a>| e@) + seq![element@]);
                match trace_elements_spec(tok@) {
                    (Ok(es), _) => {
                        assert(old_traces.map_values(|e: Element<'a>| e@) + (seq![element@] + es) =~= traces@.map_values(|e: Element<'a>| e@) + es);
                    },
                    (Err(_), _) => {},
                }
            }
        }
    }

    /// Reads one thread block.
    pub fn parse_thread(tok: &mut Tokenizer<'a>) -> (r: Result<Thread<'a>, Error>)
        ensures
            ({
                let (res, rest) = thread_spec(old(tok)@);
                &&& final(tok)@ == rest
                &&& match r {
                    Ok(t) => res == Ok::<ThreadView, ErrorView>(t@),
                    Err(e) => res == Err::<ThreadView, ErrorView>(e@),
                }
            }),
    {
        proof {
            reveal(thread_spec);
        }
        let name = match tok.take_within("\"", "\"") {
            Ok(x) => x,
            Err(e) => return Err(Error::InvalidFormat(e)),
        };
        tok.skip_whitespace();
        if let Err(e) = tok.expect("Id=") {
            return Err(Error::InvalidFormat(e));
        }
        let tid = match tok.take_until_fallible(" ") {
            Ok(x) => match parse_u64(x) {
                Ok(v) => v,
                Err(e) => return Err(Error::IntegerParse(e)),
            },
            Err(e) => return Err(Error::InvalidFormat(e)),
        };
        let state = Self::parse_thread_state(tok)?;
        tok.skip_whitespace();
        if tok.peek("\"") {
            return Ok(Thread { tid, name, state, trace: None });
        }
        let traces = Self::read_trace(tok)?;
        let trace = if traces.len() == 0 {
            None
        } else {
            Some(Trace(traces))
        };
        Ok(Thread { tid, name, state, trace })
    }

    /// Moves `tok` to the first line that starts with `Thread dump` after
    /// leading whitespace; false when there is none.
    fn find_dump(tok: &mut Tokenizer<'a>) -> (r: bool)
        ensures
            match dump_search(old(tok)@) {
                None => !r,
                Some(t) => r && final(tok)@ == t,
            },
    {
        let ghost start = tok@;
        loop
            invariant
                start == old(tok)@,
                dump_search(start) == dump_search(tok@),
            decreases tok@.len(),
        {
            let ghost before = tok@;
            proof {
                lemma_newline();
                lemma_take_until_shrinks(before, newline());
            }
            let line = match tok.peek_line() {
                Some(line) => line,
                None => return false,
            };
            if starts_with(trim_start(line), "Thread dump") {
                return true;
            }
            let _ = tok.get_line();
        }
    }

    #[verifier::rlimit(40)]
    fn read_threads(tok: &mut Tokenizer<'a>) -> (r: Result<Vec<Thread<'a>>, Error>)
        ensures
            ({
                let (res, rest) = threads_spec(old(tok)@);
                &&& final(tok)@ == rest
                &&& match r {
                    Ok(v) => res == Ok::<Seq<ThreadView>, ErrorView>(v@.map_values(|t: Thread<'a>| t@)),
                    Err(e) => res == Err::<Seq<ThreadView>, ErrorView>(e@),
                }
            }),
    {
        let mut threads: Vec<Thread<'a>> = Vec::new();
        let ghost start = tok@;
        loop
            invariant
                start == old(tok)@,
                threads_spec(start) == match threads_spec(tok@) {
                    (Ok(ts), t2) => (Ok(threads@.map_values(|t: Thread<'a>| t@) + ts), t2),
                    (Err(e), t2) => (Err(e), t2),
                },
            decreases tok@.len(),
        {
            let ghost before = tok@;
            proof {
                lemma_newline();
                lemma_take_until_shrinks(before, newline());
                lemma_thread_len(before);
            }
            let line = match tok.peek_line() {
                Some(line) => line,
                None => {
                    assert(threads@.map_values(|t: Thread<'a>| t@) + seq![] =~= threads@.map_values(|t: Thread<'a>| t@));
                    return Ok(threads);
                },
            };
            let line = trim_start(line);
            if starts_with(line, "TriggeredTime") || starts_with(line, "Thread dump") {
                assert(threads@.map_values(|t: Thread<'a>| t@) + seq![] =~= threads@.map_values(|t: Thread<'a>| t@));
                return Ok(threads);
            }
            if starts_with(line, "\"") {
                let thread = Self::parse_thread(tok)?;
                let ghost old_threads = threads@;
                threads.push(thread);
                proof {
                    assert(threads@.map_values(|t: Thread<'a>| t@) =~= old_threads.map_values(|t: Thread<'a>| t@) + seq![thread@]);
                    match threads_spec(tok@) {
                        (Ok(ts), _) => {
                            assert(old_threads.map_values(|t: Thread<'a>| t@) + (seq![thread@] + ts) =~= threads@.map_values(|t: Thread<'a>| t@) + ts);
                        },
                        (Err(_), _) => {},
                    }
                }
            } else {
                let _ = tok.get_line();
            }
        }
    }

    /// The next dump, or `None` when no dump header is left.
    pub fn next(&mut self) -> (r: Option<Result<ThreadDump<'a>, Error>>)
        ensures
            ({
                let (expected, rest) = next_spec(old(self)@);
                &&& match r {
                    None => expected is None,
                    Some(Ok(d)) => expected == Some(Ok::<ThreadDumpView, ErrorView>(d@)),
                    Some(Err(e)) => expected == Some(Err::<ThreadDumpView, ErrorView>(e@)),
                }
                &&& final(self)@ == rest
            }),
    {
        let mut tok = Tokenizer::new(self.0);
        tok.skip_whitespace();
        if tok.is_empty() {
            return None;
        }
        self.1 = ParserState::Initial;
        if !Self::find_dump(&mut tok) {
            return None;
        }
        self.1 = ParserState::Timestamp;
        if let Err(e) = tok.expect("Thread dump") {
            let _ = tok.get_line();
            self.0 = tok.remaining();
            return Some(Err(Error::InvalidFormat(e)));
        }
        tok.skip_whitespace();
        if let Err(e) = tok.expect(":") {
            self.0 = tok.remaining();
            return Some(Err(Error::InvalidFormat(e)));
        }
        if let Err(e) = tok.take_until_fallible(":") {
            self.0 = tok.remaining();
            return Some(Err(Error::InvalidFormat(e)));
        }
        tok.skip_whitespace();
        let timestamp = tok.get_line()?;
        let timestamp = match utc_unix_timestamp_millis(timestamp, THREADDUMP_TIMESTAMP_FORMAT) {
            Ok(timestamp) => timestamp,
            Err(e) => {
                self.0 = tok.remaining();
                return Some(Err(Error::Timestamp(e)));
            },
        };
        self.1 = ParserState::Thread;
        let threads = match Self::read_threads(&mut tok) {
            Ok(threads) => threads,
            Err(e) => {
                self.0 = tok.remaining();
                return Some(Err(e));
            },
        };
        self.1 = ParserState::FinishDump;
        self.0 = tok.remaining();
        Some(Ok(ThreadDump { threads, timestamp }))
    }
}


proof fn lemma_dump_search_len(t: Seq<u8>)
    ensures
        dump_search(t) matches Some(t1) ==> t1.len() <= t.len(),
    decreases t.len(),
{
    lemma_newline();
    lemma_take_until_shrinks(t, newline());
    if let Some((_, rest)) = line_spec(t) {
        lemma_dump_search_len(rest);
    }
}

proof fn lemma_dump_search_found(t: Seq<u8>)
    ensures
        dump_search(t) matches Some(t1) ==> line_spec(t1) is Some,
    decreases t.len(),
{
    lemma_newline();
    lemma_take_until_shrinks(t, newline());
    if let Some((_, rest)) = line_spec(t) {
        lemma_dump_search_found(rest);
    }
}

proof fn lemma_threads_len(t: Seq<u8>)
    ensures
        threads_spec(t).1.len() <= t.len(),
    decreases t.len(),
{
    lemma_newline();
    lemma_take_until_shrinks(t, newline());
    lemma_thread_len(t);
    if let Some((_, rest)) = line_spec(t) {
        lemma_threads_len(rest);
        let t2 = thread_spec(t).1;
        if thread_spec(t).0 is Ok {
            lemma_threads_len(t2);
        }
    }
}

/// Each dump read, or each error reported, leaves less text to read, so
/// reading the dumps of a text one after the other comes to an end.
pub proof fn lemma_next_progress(text: Seq<u8>)
    ensures
        next_spec(text).0 is Some ==> next_spec(text).1.len() < text.len(),
{
    broadcast use lemma_split_once_len, lemma_trim_start_shorter;

    let t = trim_start_bytes(text);
    lemma_dump_search_len(t);
    lemma_newline();
    if let Some(t1) = dump_search(t) {
        lemma_dump_search_found(t);
        lemma_take_until_shrinks(t1, newline());
        if let Ok(t2) = expect_spec(t1, bytes_of("Thread dump")) {
            reveal_strlit("Thread dump");
            crate::text::lemma_nonempty_bytes("Thread dump");
            tokenizer::lemma_expect_reconstructs(t1, bytes_of("Thread dump"));
            let t3 = trim_start_bytes(t2);
            if let Ok(t4) = expect_spec(t3, bytes_of(":")) {
                tokenizer::lemma_expect_reconstructs(t3, bytes_of(":"));
                if let Ok((_, t5)) = take_until_fallible_spec(t4, bytes_of(":")) {
                    let t6 = trim_start_bytes(t5);
                    lemma_take_until_shrinks(t6, newline());
                    if let Some((_, t7)) = line_spec(t6) {
                        lemma_threads_len(t7);
                    }
                }
            }
        }
    }
}

} // verus!
