use sps::number::ParseIntError;
use sps::parser::connectiondump::{
    duration_millis, epoch_millis, Cause, ConnectionDumpEntry, ConnectionDumpParser,
};
use sps::parser::connectiondump::error::Error as CdError;
use sps::parser::cpumemstats::{CPUMemStatsParser, LinuxStat, StatTable, WindowsCPUStat};
use sps::parser::cpumemstats::error::Error as StatError;
use sps::parser::cpumonitoring::{CPUMonitoringParser, State};
use sps::parser::stuckquery::{
    MSSQLStatus, PGSQLQuery, PGSQLState, Stuckquery, StuckqueryParser,
};
use sps::parser::stuckquery::error::{ColumnDataError, Error as QueryError};
use sps::parser::threaddump::{Element, State as ThreadState, ThreadDumpParser};
use sps::parser::tokenizer::error::Error as TokError;
use sps::parser::tokenizer::{Parser, Tokenizer};
use sps::parser::{DBKind, WaitType};
use sps::store::stuckthread::{aggregate_stuckthreads, StuckthreadRow};
use sps::store::tables::Tables;
use sps::types::ParseInt;
use sps::util::{get_files, log_file_number, log_file_order, parse_comma_separated_u64};

#[test]
fn tokenizer_take_until_splits_at_needle() {
    let mut tok = Tokenizer::new("key=value=more");
    assert_eq!(tok.take_until("="), Some("key"));
    assert_eq!(tok.take_until("#"), None);
    assert_eq!(tok.remaining(), "value=more");
}

#[test]
fn tokenizer_expect_errors() {
    let mut tok = Tokenizer::new("ab");
    assert!(matches!(tok.expect("abc"), Err(TokError::NotEnoughData)));
    let mut tok = Tokenizer::new("xyz rest");
    match tok.expect("abc") {
        Err(TokError::Expected { expected, got }) => {
            assert_eq!(expected, "abc");
            assert_eq!(got, "xyz");
        },
        other => panic!("unexpected {:?}", other),
    }
    assert!(tok.expect("xyz").is_ok());
    assert_eq!(tok.remaining(), " rest");
}

#[test]
fn tokenizer_expect_got_stops_at_character_boundary() {
    let mut tok = Tokenizer::new("aéb");
    match tok.expect("ab") {
        Err(TokError::Expected { got, .. }) => assert_eq!(got, "a"),
        other => panic!("unexpected {:?}", other),
    }
}

#[test]
fn tokenizer_take_within_and_lines() {
    let mut tok = Tokenizer::new("[12:00] [date] tail\nsecond\nthird");
    assert_eq!(tok.take_within("[", "]").unwrap(), "12:00");
    assert_eq!(tok.take_within_exclusive("[", "]").unwrap(), "date");
    assert_eq!(tok.peek_line(), Some("] tail"));
    assert_eq!(tok.get_line(), Some("] tail"));
    assert_eq!(tok.get_line(), Some("second"));
    assert_eq!(tok.get_line(), None);
    assert!(matches!(tok.take_within("(", ")"), Err(TokError::DelimiterNotFound(d)) if d == "("));
    assert!(!tok.is_empty());
    assert_eq!(tok.remaining(), "third");
}

#[test]
fn tokenizer_whitespace_and_bytes() {
    let mut tok = Tokenizer::new(" \t\u{a0}x");
    tok.skip_whitespace();
    assert!(tok.peek("x"));
    assert!(Tokenizer::from_bytes(&[0xff, 0xfe]).is_err());
    assert!(Tokenizer::from_bytes(b"ok").is_ok());
    let mut tok = Tokenizer::new("a:b");
    assert!(matches!(tok.take_until_fallible(";"), Err(TokError::DelimiterNotFound(d)) if d == ";"));
    assert_eq!(tok.take_until_exclusive(":").unwrap(), "a");
    assert_eq!(tok.peek_until("b"), Some(":"));
}

#[test]
fn comma_separated_numbers() {
    assert_eq!(parse_comma_separated_u64("12,345"), Ok(12345));
    assert_eq!(parse_comma_separated_u64(""), Ok(0));
    assert_eq!(parse_comma_separated_u64("1,2,3"), Ok(123));
    assert_eq!(parse_comma_separated_u64("1a"), Err(ParseInt::InvalidDigit(b'a')));
}

#[test]
fn wait_type_names_round_trip() {
    let w = WaitType::parse("ABR");
    assert_eq!(w, WaitType::ABR);
    assert_eq!(w.as_str(), "ABR");
    let w = WaitType::parse("FULLTEXT GATHERER");
    assert_eq!(w, WaitType::FULLTEXT_GATHERER);
    assert_eq!(w.as_str(), "FULLTEXT GATHERER");
    let w = WaitType::parse("XTP_TRUNCATION_LSN");
    assert_eq!(w, WaitType::XTP_TRUNCATION_LSN);
    let w = WaitType::parse("NOT_A_WAIT_TYPE");
    assert_eq!(w, WaitType::Unknown(String::from("NOT_A_WAIT_TYPE")));
    assert_eq!(w.as_str(), "NOT_A_WAIT_TYPE");
}

#[test]
fn wait_type_parse_gives_back_listed_types() {
    let listed = vec![
        WaitType::PREEMPTIVE_OS_NETVALIDATEPASSWORDPOLICY,
        WaitType::PREEMPTIVE_OS_NETVALIDATEPASSWORDPOLICYFREE,
        WaitType::BACKUPTHREAD,
        WaitType::BACKUP_OPERATOR,
        WaitType::CLRHOST_STATE_ACCESS,
        WaitType::CLR_AUTO_EVENT,
    ];
    for w in listed {
        assert_eq!(WaitType::parse(w.as_str()), w);
    }
}

#[test]
fn wait_type_descriptions() {
    assert_eq!(
        WaitType::ABR.description(),
        "Identified for informational purposes only. Not supported. Future compatibility isn't guaranteed."
    );
    assert_eq!(WaitType::ASSEMBLY_LOAD.description(), "Occurs during exclusive access to assembly loading.");
    assert_eq!(WaitType::Unknown(String::from("x")).description(), "Not present in the generated wait-type table.");
}

#[test]
fn cause_names() {
    assert_eq!(Cause::from_str("High CPU").unwrap(), Cause::HighCPU);
    assert_eq!(Cause::from_str("URL invocation").unwrap(), Cause::URL);
    assert_eq!(Cause::URL.as_str(), "URL Invocation");
    assert_eq!(Cause::HighMemory.as_str(), "High Memory Consumption");
    assert_eq!(Cause::from_str(Cause::HighMemory.as_str()).unwrap(), Cause::HighMemory);
    assert!(matches!(Cause::from_str("Low CPU"), Err(CdError::Cause(s)) if s == "Low CPU"));
    assert_eq!(Cause::try_from(b"No ManagedConnections".as_slice()).unwrap(), Cause::NoManagedConnections);
    assert!(matches!(Cause::try_from([0xffu8].as_slice()), Err(CdError::Cause(s)) if s == "Unable to convert bytes to String"));
}

#[test]
fn connection_dump_iterates_entries() {
    let text = "noise\n[14:30:11.022]|[11-02-2026]|[ConnectionDump]|[INFO]|[205]| :: Connection Pool Stats :: used_connections:9, free_connections:71, max_connections:80\n[14:30:10.237]|[11-02-2026]|[CD]|[INFO]|[7]| :: In use TraceInfo :: [{\"id\":\"1\"}]\n[14:30:10.237]|[11-02-2026]|[CD]|[INFO]|[7]| :: Something else\n";
    let mut parser = ConnectionDumpParser::new(text);
    match parser.next() {
        Some(Ok(ConnectionDumpEntry::Stats(s))) => {
            assert_eq!(s.timestamp, 1770820211022);
            assert_eq!((s.tid, s.used, s.free, s.total), (205, 9, 71, 80));
        },
        other => panic!("unexpected {:?}", other),
    }
    match parser.next() {
        Some(Ok(ConnectionDumpEntry::Trace(t))) => {
            assert_eq!(t.tid, 7);
            assert_eq!(t.traces, "[{\"id\":\"1\"}]");
        },
        other => panic!("unexpected {:?}", other),
    }
    match parser.next() {
        Some(Err(CdError::UnrecognizedConnectionDumpEntry(s))) => assert_eq!(s, "Something else"),
        other => panic!("unexpected {:?}", other),
    }
    assert!(parser.next().is_none());
}

#[test]
fn connection_dump_errors() {
    let e = ConnectionDumpParser::parse_entry("[14:30:10.237]|[11-02-2026]|[CD]|[INFO]|[x]| :: y");
    assert!(matches!(e, Err(CdError::Number(ParseIntError::InvalidDigit))));
    let e = ConnectionDumpParser::parse_entry("[99:30:10.237]|[11-02-2026]|[CD]|[INFO]|[1]| :: y");
    assert!(matches!(e, Err(CdError::Timestamp(_))));
    let e = ConnectionDumpParser::parse_entry("[14:30:10.237]|[11-02-2026]|[CD]|[INFO]|[1]| no separator");
    assert!(matches!(e, Err(CdError::InvalidFormat(TokError::DelimiterNotFound(d))) if d == "::"));
}

#[test]
fn trace_durations_and_start_times() {
    assert_eq!(duration_millis("1500 ms"), 1500);
    assert_eq!(duration_millis("1500"), 0);
    assert_eq!(duration_millis("x ms"), 0);
    assert_eq!(epoch_millis("2026-02-11 14:30:10.237 +0100").unwrap(), 1770816610237);
    assert!(epoch_millis("yesterday").is_err());
}

#[test]
fn cpumonitoring_reads_an_entry() {
    let text = "[14:30:10.237] [11-02-2026] CPUMonitoring\nThread Info:Thread Id : 5227, has CPU usage : 12.5\nThread Name: Asset_8:XML, Thread State: RUNNABLE\n\tat a.b.C.run(C.java:10)\n\tat a.b.D.main(D.java:5)\n\n";
    let mut parser = CPUMonitoringParser::new(text);
    let entry = parser.next().unwrap().unwrap();
    assert_eq!(entry.timestamp, 1770820210237);
    assert_eq!(entry.tid, 5227);
    assert_eq!(entry.usage, "12.5");
    assert_eq!(entry.name, Some("Asset_8:XML"));
    assert_eq!(entry.state, State::Runnable);
    let trace = entry.trace.unwrap();
    assert_eq!(trace.0.len(), 2);
    assert_eq!(trace.0[0].method, "a.b.C.run");
    assert_eq!(trace.0[0].source, "C.java:10");
    assert!(parser.next().is_none());
}

#[test]
fn cpumonitoring_state_names_round_trip() {
    for s in [State::New, State::Runnable, State::Blocked, State::Waiting, State::TimedWaiting, State::Terminated, State::Unknown] {
        assert_eq!(State::from(s.into_str()), s);
    }
    assert_eq!(State::from("sleeping"), State::Unknown);
}

#[test]
fn threaddump_reads_a_dump() {
    let text = "Thread dump : Label: 2026-02-11 14:30:10.237\n\"main\" Id=1 Java.lang.Thread.State: RUNNABLE\n\tat a.b.C.run(C.java:10)\n\t- locked <0x1234>\n\n\"Reference Handler\" Id=2 Java.lang.Thread.State: WAITING on java.lang.ref.Reference$Lock@1\n\tat java.lang.Object.wait(Native Method)\n\nTriggeredTime: x\n";
    let mut parser = ThreadDumpParser::new(text);
    let dump = parser.next().unwrap().unwrap();
    assert_eq!(dump.timestamp, 1770820210237);
    assert_eq!(dump.threads.len(), 2);
    let main = &dump.threads[0];
    assert_eq!((main.tid, main.name), (1, "main"));
    let trace = main.trace.as_ref().unwrap();
    assert_eq!(trace.as_ref().len(), 2);
    assert!(matches!(trace.0[0], Element::Frame { source: "C.java:10", .. }));
    assert!(matches!(trace.0[1], Element::Lock { .. }));
    let handler = &dump.threads[1];
    assert_eq!(handler.name, "Reference Handler");
    assert!(matches!(handler.state, ThreadState::Waiting { lock: None, lock_owner_tid: None, .. }));
    assert_eq!(handler.state.as_str(), "WAITING");
}

#[test]
fn threaddump_blocked_state() {
    let text = "Java.lang.Thread.State: BLOCKED waiting to lock <0x1>\nLockName: L1 Owner Id: 7 Owner Name: worker\nrest";
    let mut tok = Tokenizer::new(text);
    let state = ThreadDumpParser::parse_thread_state(&mut tok).unwrap();
    match state {
        ThreadState::Blocked { blocked_on, lock, lock_owner_tid, lock_owner_name } => {
            assert_eq!(blocked_on.0, "<0x1>");
            assert_eq!(lock.0, "L1");
            assert_eq!(lock_owner_tid, 7);
            assert_eq!(lock_owner_name.0, "worker");
        },
        other => panic!("unexpected {:?}", other),
    }
    let mut tok = Tokenizer::new("Java.lang.Thread.State: PARKED");
    assert!(ThreadDumpParser::parse_thread_state(&mut tok).is_err());
}

#[test]
fn stuckquery_reads_a_pgsql_table() {
    let text = "[14:30:10.237] [11-02-2026] Stuck queries ::\n|----|\n| Long Running Queries |\n|----|\n| pid | Query Time (s) | Txn Time (s) | db |\n|----|\n| 42 | 1.5 | 0.5 | db | active | t | SELECT 1 | 2026-02-11 14:30:10.237+01:00 | app | 10.0.0.1 |  | 5432 |\n";
    let mut parser = StuckqueryParser::new(text);
    let table = parser.next().unwrap().unwrap();
    assert_eq!(table.timestamp, 1770820210237);
    assert_eq!(table.queries.len(), 1);
    match &table.queries[0] {
        Stuckquery::PGSQL(q) => {
            assert_eq!(q.pid, 42);
            assert_eq!(q.query_time, "1.5");
            assert_eq!(q.state, PGSQLState::Active);
            assert!(q.waiting);
            assert_eq!(q.query, "SELECT 1");
            assert_eq!(q.state_change, 1770820210237);
            assert_eq!(q.client_addr, 0x0a000001);
            assert_eq!(q.client_host, None);
            assert_eq!(q.client_port, Some(5432));
        },
        other => panic!("unexpected {:?}", other),
    }
    assert!(parser.next().is_none());
}

#[test]
fn stuckquery_table_kind_and_name() {
    let lines = ["|--|", "| Currently Running Queries |", "|--|", "| Session ID | Status |", "|--|"];
    assert_eq!(StuckqueryParser::detect_kind(&lines), Some(DBKind::MSSQL));
    assert_eq!(StuckqueryParser::extract_table_name(&lines), Some("Currently Running Queries"));
    let lines = ["|--|", "|--|", "|--|", "| pid |", "|--|"];
    assert_eq!(StuckqueryParser::detect_kind(&lines), Some(DBKind::PGSQL));
    let lines = ["x", "no bars"];
    assert_eq!(StuckqueryParser::detect_kind(&lines), None);
    assert_eq!(StuckqueryParser::extract_table_name(&lines), None);
    assert_eq!(MSSQLStatus::parse("sleeping").unwrap(), MSSQLStatus::Sleeping);
    assert!(PGSQLState::parse("idle").is_err());
}

#[test]
fn stuckquery_row_errors() {
    assert!(matches!(PGSQLQuery::parse("| x |"), Err(QueryError::Parse(c, ColumnDataError::Integer(_))) if c == "pid"));
    assert!(matches!(PGSQLQuery::parse("| 1 | 2 |"), Err(QueryError::InvalidFormat(_))));
    assert!(matches!(
        PGSQLQuery::parse("| 1 | 1.5 | 0.5 | db | busy | t | q | 2026-02-11 14:30:10.237+01:00 | app | 10.0.0.1 |  |  |"),
        Err(QueryError::Parse(c, ColumnDataError::PGSQLState(_))) if c == "state"
    ));
    assert!(matches!(
        PGSQLQuery::parse("| 1 | 1.5 | 0.5 | db | active | t | q | 2026-02-11 14:30:10.237+01:00 | app | 300.0.0.1 |  |  |"),
        Err(QueryError::Parse(c, ColumnDataError::IpV4Addr(_))) if c == "Client Address"
    ));
    let text = "[14:30:10.237] [11-02-2026] Stuck queries ::\n| a |\n| b |\nnext\n";
    let mut parser = StuckqueryParser::new(text);
    assert!(matches!(parser.next(), Some(Err(QueryError::InvalidTableHeader))));
}

#[test]
fn cpumemstats_reads_a_unix_table() {
    let text = "[14:30:10.237] [11-02-2026] CPU stats\n|------|\n| x |\n|------|\n| User | PID | Name | CPU | MEM | Path |\n|------|\n| root | 1 | init | 0.5 | 10.5 | /sbin/init |\n| a | b | Total CPU Usage | 12.5 | 100.25 |\n";
    let mut parser = CPUMemStatsParser::new(text);
    match parser.next() {
        Some(Ok(StatTable::UNIX(t))) => {
            assert_eq!(t.timestamp, 1770820210237);
            assert_eq!(t.stats.len(), 1);
            assert_eq!(t.stats[0].name, "init");
            assert_eq!(t.stats[0].path, "/sbin/init");
            assert_eq!(t.cpu, "12.5");
            assert_eq!(t.mem, "100.25");
        },
        other => panic!("unexpected {:?}", other),
    }
    assert!(parser.next().is_none());
}

#[test]
fn cpumemstats_columns_and_totals() {
    let columns = CPUMemStatsParser::columns("| PID | Name | PID | CPU |");
    assert_eq!(columns, vec!["PID", "Name", "CPU"]);
    assert_eq!(WindowsCPUStat::parse_total("| Total CPU | 46.86 |").unwrap(), "46.86");
    assert!(matches!(
        WindowsCPUStat::parse_total("| Total Memory | 1 |"),
        Err(StatError::InvalidPreamble(a, b)) if a == "Total CPU" && b == "Total Memory"
    ));
    assert_eq!(LinuxStat::parse_total("| | | Total CPU Usage | 1.5 | 2.5 |").unwrap(), ("1.5", "2.5"));
    assert!(matches!(LinuxStat::parse("| u | x | n | 1 | 1 | p |"), Err(StatError::ParsePID(_))));
    assert!(matches!(LinuxStat::parse("| u | 1 | n | one | 1 | p |"), Err(StatError::ParseUsage(_))));
}

#[test]
fn stuckthread_records_are_paired() {
    let row = |timestamp: u64, tid: u64, duration: u64, name: &str, request: Option<&str>, active: Option<u64>| StuckthreadRow {
        timestamp,
        tid,
        duration,
        name: name.to_string(),
        request: request.map(|r| r.to_string()),
        active,
    };
    let rows = vec![
        row(100, 1, 0, "t1", Some("/req"), Some(3)),
        row(200, 2, 50, "t2", None, None),
        row(500, 1, 600, "t1", None, Some(4)),
        row(600, 3, 0, "t3", Some("/x"), None),
    ];
    let out = aggregate_stuckthreads(&rows);
    assert_eq!(out.len(), 3);
    assert_eq!((out[0].tid, out[0].begin, out[0].end), (2, None, Some(200)));
    assert_eq!((out[1].tid, out[1].begin, out[1].end), (1, Some(100), Some(700)));
    assert_eq!(out[1].request.as_deref(), Some("/req"));
    assert_eq!((out[1].active_start, out[1].active_end, out[1].duration), (Some(3), Some(4), 600));
    assert_eq!((out[2].tid, out[2].begin, out[2].end), (3, Some(600), None));
}

#[test]
fn table_names() {
    assert_eq!(Tables::CPUMonitoring.into_str(), "cpumonitoring");
    assert_eq!(Tables::StuckqueryBlockingMSSQL.into_str(), "stuckquery_mssql_blocking");
    assert_eq!(Tables::ConnectionDumpTraces.into_str(), "connectiondump_stacktraces");
    let all = [
        Tables::CPUMonitoring,
        Tables::CPUMonitoringStackTraces,
        Tables::WindowsCPUStats,
        Tables::WindowsMemoryStats,
        Tables::LinuxStats,
        Tables::Stuckthread,
        Tables::StuckthreadTraces,
        Tables::StuckqueryPGSQL,
        Tables::StuckqueryMSSQL,
        Tables::StuckqueryBlockingMSSQL,
        Tables::ConnectionDump,
        Tables::ConnectionDumpTraces,
    ];
    for (i, a) in all.iter().enumerate() {
        for (j, b) in all.iter().enumerate() {
            assert_eq!(i == j, a.into_str() == b.into_str());
        }
    }
}

#[test]
fn log_files_are_read_oldest_first() {
    let names: Vec<String> = ["CPUMonitoring0.txt", "CPUMonitoring10.txt", "other.txt", "CPUMonitoring2.txt", "CPUMonitoringX.txt", "stuckthreads1.txt"]
        .iter()
        .map(|s| s.to_string())
        .collect();
    assert_eq!(log_file_order(&names, "CPUMonitoring", ".txt"), vec![1, 3, 0, 4]);
    assert_eq!(log_file_number("serverout49.txt", "serverout", ".txt"), Some(49));
    assert_eq!(log_file_number("serverout300.txt", "serverout", ".txt"), None);
    let files = get_files(&names);
    assert_eq!(files.cpumonitoring, vec!["CPUMonitoring10.txt", "CPUMonitoring2.txt", "CPUMonitoring0.txt", "CPUMonitoringX.txt"]);
    assert!(files.cpumemstats.is_empty());
    assert_eq!(files.stuckthreads, vec!["stuckthreads1.txt"]);
}
