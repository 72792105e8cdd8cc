use sps::number::{ParseFloatError, ParseIntError};
use sps::parser::cpumemstats::error::Error as StatError;
use sps::parser::cpumemstats::CPUMemStatsParser;
use sps::parser::cpumonitoring::error::Error as MonError;
use sps::parser::cpumonitoring::CPUMonitoringParser;
use sps::parser::stuckquery::error::{ColumnDataError, Error as QueryError};
use sps::parser::stuckquery::{RunningQuery, StuckqueryParser};
use sps::parser::stuckthread::error::Error as StuckError;
use sps::parser::stuckthread::{Stuckthread, StuckthreadParser};
use sps::parser::threaddump::error::Error as DumpError;
use sps::parser::threaddump::ThreadDumpParser;
use sps::parser::tokenizer::{Parser, Tokenizer};
use sps::types::{ParseInt, TimestampError};

#[test]
fn stuckthread_release_entry() {
    let text = "[14:30:10.237] [11-02-2026] StuckThread :: [worker-1] [42] [1,500] [3]\n[14:30:11.000] [11-02-2026] x\n";
    let mut parser = StuckthreadParser::new(text);
    match parser.next() {
        Some(Ok(Stuckthread::End { tid, name, duration, active })) => {
            assert_eq!((tid, name, duration, active), (42, "worker-1", 1500, Some(3)));
        },
        other => panic!("unexpected {:?}", other),
    }
}

#[test]
fn stuckthread_stuck_entry_with_trace() {
    let text = "[14:30:10.237] [11-02-2026] StuckThread :: [worker-1] [42] [600] [since 10] [ /req ] [threshold]\njava.lang.Throwable\n\tat a.b.C.run(C.java:1)\n[end]\n";
    let mut parser = StuckthreadParser::new(text);
    match parser.next() {
        Some(Ok(Stuckthread::Begin { start, tid, name, request, trace, active })) => {
            assert_eq!((start, tid, name, request, active), (1770820210237, 42, "worker-1", "/req", None));
            assert_eq!(trace.0.len(), 1);
            assert_eq!(trace.0[0].method, "a.b.C.run");
        },
        other => panic!("unexpected {:?}", other),
    }
}

#[test]
fn stuckthread_errors() {
    let text = "[14:30:10.237] [11-02-2026] S :: [w] [42] [1x] [3]\nnext\n";
    let mut parser = StuckthreadParser::new(text);
    assert!(matches!(parser.next(), Some(Err(StuckError::ParseDuration(ParseInt::InvalidDigit(b'x'))))));
    let text = "[14:30:10.237] [11-02-2026] S :: [w] [abc] [1] [3]\nnext\n";
    let mut parser = StuckthreadParser::new(text);
    assert!(matches!(parser.next(), Some(Err(StuckError::ParseTID(ParseIntError::InvalidDigit)))));
    let mut parser = StuckthreadParser::new("garbage\nmore\n");
    assert!(matches!(parser.next(), Some(Err(StuckError::HeaderNotFound))));
    let text = "[25:30:10.237] [11-02-2026] S :: [w] [1] [1] [3]\nnext\n";
    let mut parser = StuckthreadParser::new(text);
    assert!(matches!(parser.next(), Some(Err(StuckError::ParseTime(TimestampError::Parse(_))))));
}

#[test]
fn cpumonitoring_errors() {
    let header = "[14:30:10.237] [11-02-2026] CPUMonitoring\n";
    let text = format!("{header}Thread Info:Thread Id : x5, has CPU usage : 1\nThread Name: a, Thread State: NEW\n");
    let mut parser = CPUMonitoringParser::new(&text);
    assert!(matches!(parser.next(), Some(Err(MonError::ParseThreadID(ParseIntError::InvalidDigit)))));
    let text = format!("{header}Thread Info:Thread Id : 5, has CPU usage : lots\nThread Name: a, Thread State: NEW\n");
    let mut parser = CPUMonitoringParser::new(&text);
    assert!(matches!(parser.next(), Some(Err(MonError::ParseCPU(ParseFloatError::Invalid)))));
    let text = "[99:30:10.237] [11-02-2026] CPUMonitoring\nThread Info:Thread Id : 5, has CPU usage : 1\n";
    let mut parser = CPUMonitoringParser::new(text);
    assert!(matches!(parser.next(), Some(Err(MonError::ParseTimestamp(_)))));
    let text = format!("{header}Thread Info:Thread Id : 5, has CPU usage : 1\nThread Name: a, Thread State: NEW\n\tat broken\n");
    let mut parser = CPUMonitoringParser::new(&text);
    assert!(matches!(parser.next(), Some(Err(MonError::InvalidFormat(_)))));
}

#[test]
fn threaddump_errors() {
    let mut parser = ThreadDumpParser::new("Thread dump : L: not a date\n\"a\" Id=1 Java.lang.Thread.State: NEW\n");
    assert!(matches!(parser.next(), Some(Err(DumpError::Timestamp(TimestampError::Parse(_))))));
    let mut tok = Tokenizer::new("\"a\" Id=abc Java.lang.Thread.State: NEW");
    assert!(matches!(ThreadDumpParser::parse_thread(&mut tok), Err(DumpError::IntegerParse(ParseIntError::InvalidDigit))));
    let mut tok = Tokenizer::new("no quotes here");
    assert!(matches!(ThreadDumpParser::parse_thread(&mut tok), Err(DumpError::InvalidFormat(_))));
    let mut parser = ThreadDumpParser::new("nothing to see\n");
    assert!(parser.next().is_none());
}

#[test]
fn stuckquery_errors() {
    let text = "[14:30:10.237] [11-02-2026] Q ::\n|--|\n| T |\n|--|\n| a | b |\n|--|\n";
    let mut parser = StuckqueryParser::new(text);
    assert!(matches!(parser.next(), Some(Err(QueryError::UnableToDetectTableKind))));
    let text = "[99:30:10.237] [11-02-2026] Q ::\n|--|\n";
    let mut parser = StuckqueryParser::new(text);
    assert!(matches!(parser.next(), Some(Err(QueryError::TimestampParse(_)))));
    let row = "| 1 | weird | 2 | 0 |  |  | 1 | 1 | 1 | 1 | 1 | 1 | s | c | l | h | d | p | 1 | 2026-02-11 14:30:10.237 | 2026-02-11 14:30:10.237 | 1 |";
    assert!(matches!(
        RunningQuery::parse(row),
        Err(QueryError::Parse(c, ColumnDataError::MSSQLStatus(_))) if c == "Status"
    ));
    let row = "| 1 | running | 2 | 0 | CXPACKET | res | 1.5 | 2 | 3 | 4 | 5 | 6.5 | s | c | l | h | d | p | 7 | 2026-02-11 14:30:10.237 | 2026-02-11 14:30:10.237 | 8 |";
    let q = RunningQuery::parse(row).unwrap();
    assert_eq!(q.wait_type.as_ref().map(|w| w.as_str()), Some("CXPACKET"));
    assert_eq!(q.wait_resource, Some("res"));
    assert_eq!((q.logical_reads, q.reads, q.writes, q.host_process, q.open_txn), (3, 4, 5, 7, 8));
    assert_eq!((q.last_request_end, q.login_time), (1770820210237, 1770820210237));
}

#[test]
fn cpumemstats_unknown_table() {
    let text = "[14:30:10.237] [11-02-2026] CPU stats\n|------|\n| x |\n|------|\n| Foo | Bar |\n|------|\n";
    let mut parser = CPUMemStatsParser::new(text);
    assert!(matches!(parser.next(), Some(Err(StatError::UnableToDetectTableType(l))) if l == "| Foo | Bar |"));
    let mut parser = CPUMemStatsParser::new("   \n  ");
    assert!(parser.next().is_none());
}

#[test]
fn parsers_end_after_errors() {
    let mut parser = StuckthreadParser::new("");
    assert!(parser.next().is_none());
    let mut parser = StuckthreadParser::new("garbage\nmore\nlast");
    let mut n = 0;
    while let Some(item) = parser.next() {
        assert!(matches!(item, Err(StuckError::HeaderNotFound)));
        n += 1;
        assert!(n < 10);
    }
    assert_eq!(n, 3);
    let text = "[14:30:10.237] [11-02-2026] S :: [w] [abc] [1] [3]\nnext\n";
    let mut parser = StuckthreadParser::new(text);
    let mut n = 0;
    while parser.next().is_some() {
        n += 1;
        assert!(n < 10);
    }

    let text = "[99:30:10.237] [11-02-2026] CPUMonitoring\nThread Info:Thread Id : 5, has CPU usage : 1\n";
    let mut parser = CPUMonitoringParser::new(text);
    assert!(matches!(parser.next(), Some(Err(MonError::ParseTimestamp(_)))));
    let mut n = 0;
    while parser.next().is_some() {
        n += 1;
        assert!(n < 10);
    }

    let text = "[99:30:10.237] [11-02-2026] Q ::\n|--|\n";
    let mut parser = StuckqueryParser::new(text);
    assert!(matches!(parser.next(), Some(Err(QueryError::TimestampParse(_)))));
    let mut n = 0;
    while parser.next().is_some() {
        n += 1;
        assert!(n < 10);
    }

    let text = "[14:30:10.237] [11-02-2026] CPU stats\n|------|\n| x |\n|------|\n| Foo | Bar |\n|------|\n";
    let mut parser = CPUMemStatsParser::new(text);
    assert!(parser.next().is_some());
    let mut n = 0;
    while parser.next().is_some() {
        n += 1;
        assert!(n < 10);
    }

    let mut parser = ThreadDumpParser::new("Thread dump : L: not a date\n\"a\" Id=1 Java.lang.Thread.State: NEW\n");
    assert!(parser.next().is_some());
    let mut n = 0;
    while parser.next().is_some() {
        n += 1;
        assert!(n < 10);
    }
}
