use sps::parser::connectiondump::{Cause, ConnectionDumpEntry, ConnectionDumpParser, Signal, Stats};
use sps::parser::cpumemstats::{LinuxStat, WindowsCPUStat, WindowsMemoryStat};
use sps::parser::cpumonitoring::State;
use sps::parser::stuckthread::Frame;
use sps::parser::threaddump::{State as ThreadState, ThreadDumpParser};
use sps::parser::tokenizer::{Parser, Tokenizer};

#[test]
fn cpumonitoring_state_from() {
    let state = "RUNNABLE";
    let parsed = State::from(state);
    assert!(matches!(parsed, State::Runnable));
    let state = "NEW";
    let parsed = State::from(state);
    assert!(matches!(parsed, State::New));
    let state = "TERMINATED";
    let parsed = State::from(state);
    assert!(matches!(parsed, State::Terminated));
    let state = "WAITING";
    let parsed = State::from(state);
    assert!(matches!(parsed, State::Waiting));
    let state = "TIMED_WAITING";
    let parsed = State::from(state);
    assert!(matches!(parsed, State::TimedWaiting));
    let state = "BLOCKED";
    let parsed = State::from(state);
    assert!(matches!(parsed, State::Blocked));
}

#[test]
fn stuckthread_frame_parse() {
    let data = "	at java.base@17.0.17/java.lang.Thread.run(Unknown Source)";
    let frame = Frame::parse(data);
    assert!(frame.is_ok(), "Error during parsing: {:?}", frame.unwrap_err());
    let frame = frame.unwrap();
    assert_eq!(frame.method, "java.base@17.0.17/java.lang.Thread.run");
    assert_eq!(frame.source, "Unknown Source");
}

#[test]
fn threaddump_thread_header_only() {
    let line = r#""Reference Handler"  Id=2  Java.lang.Thread.State: RUNNABLE"#;
    let mut tok = Tokenizer::new(line);
    let result = ThreadDumpParser::parse_thread(&mut tok);
    assert!(result.is_ok(), "Error during parsing: {:?}", result.unwrap_err());
    let thread = result.unwrap();
    assert!(matches!(thread.state, ThreadState::Runnable));
    assert_eq!(thread.tid, 2);
    assert_eq!(thread.name, "Reference Handler");
    assert!(matches!(thread.trace, None));

    let line = r#""Signal Dispatcher"  Id=4  Java.lang.Thread.State: RUNNABLE"#;
    let mut tok = Tokenizer::new(line);

    let result = ThreadDumpParser::parse_thread(&mut tok);
    assert!(result.is_ok(), "Error during parsing: {:?}", result.unwrap_err());
    let thread = result.unwrap();
    assert!(matches!(thread.state, ThreadState::Runnable));
    assert_eq!(thread.tid, 4);
    assert_eq!(thread.name, "Signal Dispatcher");
    assert!(matches!(thread.trace, None));
}

#[test]
fn cpumemstats_linux_stat() {
    let line = "|  dinesh-+  |  196716   |  rust-analyzer                                                                          |  0.10625             |  1607.22265625   |  rust-analyzer                                                                                                                                                                                                                                                                                                                                                                                                                                                                                                                                                                                                                                                                                                                                                                                                                                                                                                                                                                                                                                                                                                                                                                                                                                                                                                                                                                                                                                                                                                                                                                                                                                                                                                                                                                                                                                                                                                                                                                                                                                                                                                                                                                                                                                                                                                                                                                                                                                                                                                                                                                                                                                                                                                                                                                                                                                                                                                                                                                                                                                                                                                                                                                                                                                                                                                                                                                                                                                                                                                                                                                                                                                                                                                                                                                                                                                                                                                                                                                                                                                                                                                                                                                                                                                                                                                                                                                                                                                                                                                                                                                                                                                                                                                                                                                                                                                                                                                                                                                                                                                                                                                                                                                                                                                                                                                                                                                                                                                                                                                        |";
    let stat = LinuxStat::parse(line);
    assert!(stat.is_ok(), "Error during parsing Linux CPUMemstats: {:?}", stat.unwrap_err());
    let stat = stat.unwrap();
    assert_eq!("dinesh-+", stat.user);
    assert_eq!(196716, stat.pid);
    assert_eq!("rust-analyzer", stat.name);
    assert_eq!(0.10625f32, stat.cpu.parse::<f32>().unwrap());
    assert_eq!(1607.22265625f32, stat.mem.parse::<f32>().unwrap());
    assert_eq!("rust-analyzer", stat.path);
}

#[test]
fn cpumemstats_windows_cpustat() {
    let line = "|  System               |  4           |  7.33           |                                                                               |";
    let stat = WindowsCPUStat::parse(line);
    assert!(stat.is_ok(), "Error during parsing Linux CPUMemstats: {:?}", stat.unwrap_err());
    let stat = stat.unwrap();
    assert_eq!("System", stat.name);
    assert_eq!(4, stat.pid);
    assert_eq!(7.33f32, stat.cpu.parse::<f32>().unwrap());
    assert_eq!(None, stat.path);
}

#[test]
fn cpumemstats_windows_memstat() {
    let line = "|  MsMpEng.exe                  |  4820        |  84.46        |                                                                                                              |";
    let stat = WindowsMemoryStat::parse(line);
    assert!(stat.is_ok(), "Error during parsing Linux CPUMemstats: {:?}", stat.unwrap_err());
    let stat = stat.unwrap();
    assert_eq!("MsMpEng.exe", stat.name);
    assert_eq!(4820u64, stat.pid);
    assert_eq!(84.46f32, stat.mem.parse::<f32>().unwrap());
    assert_eq!(None, stat.path);
}

#[test]
fn cd_cause_entry() {
    let line = "[14:30:10.237]|[11-02-2026]|[ConnectionDump]|[INFO]|[201]| :: Going to dump performance logs. Cause : High CPU ";
    let entry = ConnectionDumpParser::parse_entry(line);
    assert!(entry.is_ok(), "Error during parsing: {:?}", entry.unwrap_err());
    let entry = entry.unwrap();
    assert!(matches!(entry, ConnectionDumpEntry::Signal(_)));
    if let ConnectionDumpEntry::Signal(Signal { cause, timestamp, tid, suppressed }) = entry {
        assert!(matches!(cause, Cause::HighCPU));
        assert_ne!(timestamp, 0);
        assert_eq!(tid, 201);
        assert_eq!(suppressed, false);
    }
}

#[test]
fn cd_connection_pool_stats() {
    let line = "[14:30:11.022]|[11-02-2026]|[ConnectionDump]|[INFO]|[205]| :: Connection Pool Stats :: used_connections:9, free_connections:71, max_connections:80";
    let entry = ConnectionDumpParser::parse_entry(line);
    assert!(entry.is_ok(), "Error during parsing: {:?}", entry.unwrap_err());
    let entry = entry.unwrap();
    assert!(matches!(entry, ConnectionDumpEntry::Stats(_)));
    if let ConnectionDumpEntry::Stats(Stats { tid, timestamp, used, free, total }) = entry {
        assert_eq!(tid, 205);
        assert_ne!(timestamp, 0);
        assert_eq!(used, 9);
        assert_eq!(free, 71);
        assert_eq!(total, 80);
    }
}

#[test]
fn cd_skipping_performance() {
    let line = "[15:08:03.660]|[11-02-2026]|[ConnectionDump]|[INFO]|[6744]| :: Skipping to dump performance logs for 960 seconds from last dump. Current trigger- Cause : High CPU";
    let entry = ConnectionDumpParser::parse_entry(line);
    assert!(entry.is_ok(), "Error during parsing: {:?}", entry.unwrap_err());
    let entry = entry.unwrap();
    if let ConnectionDumpEntry::Signal(Signal { cause, timestamp, tid, suppressed }) = entry {
        assert_ne!(timestamp, 0);
        assert_eq!(tid, 6744);
        assert!(matches!(cause, Cause::HighCPU));
        assert_eq!(suppressed, true);
    }
}

#[test]
fn cd_skipping_performance_nmc() {
    let line = "[02:04:00.888]|[29-07-2026]|[ConnectionDump]|[INFO]|[67]| :: Skipping to dump performance logs for 120 seconds from last dump. Current trigger- Cause : No ManagedConnections";
    let entry = ConnectionDumpParser::parse_entry(line);
    assert!(entry.is_ok(), "Error during parsing: {:?}", entry.unwrap_err());
    let entry = entry.unwrap();
    if let ConnectionDumpEntry::Signal(Signal { cause, timestamp, tid, suppressed }) = entry {
        assert_ne!(timestamp, 0);
        assert_eq!(tid, 67);
        assert!(matches!(cause, Cause::NoManagedConnections));
        assert_eq!(suppressed, true);
    }
}
