//! The tables of the log database.
use crate::text::bytes_of;
use vstd::prelude::*;
use vstd::utf8::decode_utf8;

verus! {

/// A table of the log database.
#[derive(Debug, Clone, Copy, PartialEq, Eq, Structural)]
pub enum Tables {
    CPUMonitoring,
    CPUMonitoringStackTraces,
    WindowsCPUStats,
    WindowsMemoryStats,
    LinuxStats,
    Stuckthread,
    StuckthreadTraces,
    StuckqueryPGSQL,
    StuckqueryMSSQL,
    StuckqueryBlockingMSSQL,
    ConnectionDump,
    ConnectionDumpTraces,
}

/// The name of a table in the database.
pub open spec fn table_name(t: Tables) -> Seq<u8> {
    match t {
        Tables::CPUMonitoringStackTraces => bytes_of("cpumonitoring_stacktraces"),
        Tables::CPUMonitoring => bytes_of("cpumonitoring"),
        Tables::WindowsCPUStats => bytes_of("windows_cpu_stats"),
        Tables::WindowsMemoryStats => bytes_of("windows_memory_stats"),
        Tables::LinuxStats => bytes_of("linux_stats"),
        Tables::Stuckthread => bytes_of("stuckthread"),
        Tables::StuckthreadTraces => bytes_of("stuckthread_traces"),
        Tables::StuckqueryPGSQL => bytes_of("stuckquery_pgsql"),
        Tables::StuckqueryMSSQL => bytes_of("stuckquery_mssql"),
        Tables::StuckqueryBlockingMSSQL => bytes_of("stuckquery_mssql_blocking"),
        Tables::ConnectionDump => bytes_of("connectiondump"),
        Tables::ConnectionDumpTraces => bytes_of("connectiondump_stacktraces"),
    }
}

impl Tables {
    /// The name of the table in the database.
    pub fn into_str(&self) -> (r: &'static str)
        ensures
            bytes_of(r) == table_name(*self),
    {
        match self {
            Self::CPUMonitoringStackTraces => "cpumonitoring_stacktraces",
            Self::CPUMonitoring => "cpumonitoring",
            Self::WindowsCPUStats => "windows_cpu_stats",
            Self::WindowsMemoryStats => "windows_memory_stats",
            Self::LinuxStats => "linux_stats",
            Self::Stuckthread => "stuckthread",
            Self::StuckthreadTraces => "stuckthread_traces",
            Self::StuckqueryPGSQL => "stuckquery_pgsql",
            Self::StuckqueryMSSQL => "stuckquery_mssql",
            Self::StuckqueryBlockingMSSQL => "stuckquery_mssql_blocking",
            Self::ConnectionDump => "connectiondump",
            Self::ConnectionDumpTraces => "connectiondump_stacktraces",
        }
    }
}

/// Different tables have different names in the database.
pub proof fn lemma_table_names_distinct(a: Tables, b: Tables)
    requires
        a != b,
    ensures
        table_name(a) != table_name(b),
{
    broadcast use vstd::utf8::encode_utf8_decode_utf8;

    reveal_strlit("cpumonitoring_stacktraces");
    reveal_strlit("cpumonitoring");
    reveal_strlit("windows_cpu_stats");
    reveal_strlit("windows_memory_stats");
    reveal_strlit("linux_stats");
    reveal_strlit("stuckthread");
    reveal_strlit("stuckthread_traces");
    reveal_strlit("stuckquery_pgsql");
    reveal_strlit("stuckquery_mssql");
    reveal_strlit("stuckquery_mssql_blocking");
    reveal_strlit("connectiondump");
    reveal_strlit("connectiondump_stacktraces");
    assert(decode_utf8(bytes_of("cpumonitoring_stacktraces")) == "cpumonitoring_stacktraces"@);
    assert(decode_utf8(bytes_of("cpumonitoring")) == "cpumonitoring"@);
    assert(decode_utf8(bytes_of("windows_cpu_stats")) == "windows_cpu_stats"@);
    assert(decode_utf8(bytes_of("windows_memory_stats")) == "windows_memory_stats"@);
    assert(decode_utf8(bytes_of("linux_stats")) == "linux_stats"@);
    assert(decode_utf8(bytes_of("stuckthread")) == "stuckthread"@);
    assert(decode_utf8(bytes_of("stuckthread_traces")) == "stuckthread_traces"@);
    assert(decode_utf8(bytes_of("stuckquery_pgsql")) == "stuckquery_pgsql"@);
    assert(decode_utf8(bytes_of("stuckquery_mssql")) == "stuckquery_mssql"@);
    assert(decode_utf8(bytes_of("stuckquery_mssql_blocking")) == "stuckquery_mssql_blocking"@);
    assert(decode_utf8(bytes_of("connectiondump")) == "connectiondump"@);
    assert(decode_utf8(bytes_of("connectiondump_stacktraces")) == "connectiondump_stacktraces"@);
    assert("cpumonitoring_stacktraces"@[0] != "stuckquery_mssql_blocking"@[0]);
    assert("linux_stats"@[0] != "stuckthread"@[0]);
    assert("stuckquery_pgsql"@[11] != "stuckquery_mssql"@[11]);
    if table_name(a) == table_name(b) {
        assert(decode_utf8(table_name(a)) == decode_utf8(table_name(b)));
    }
}

} // verus!
