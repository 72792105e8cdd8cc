//! Stuck query logs: tables of long-running queries of PostgreSQL or SQL
//! Server. Each table has a header line with its time and date, five header
//! lines starting with `|` (the second with the table's name, the fourth
//! with the column names), and one row per query.
pub mod error;

use crate::number::{
    check_float, float_check_spec, ipv4_spec, parse_ipv4_bits, parse_u16, parse_u64, parse_uint_spec,
};
use crate::parser::tokenizer::error::ErrorSpec;
use crate::parser::tokenizer::{
    lemma_newline, lemma_take_until_shrinks, newline, take_until_spec, take_within_exclusive_spec,
    take_within_spec, to_string, Parser, Tokenizer,
};
use crate::parser::table::{
    cell_step, cells_rest, column_names, lemma_cell_step_shrinks, lemma_contains_push, missing_cell_error, next_cell,
    row_cell,
};
use crate::parser::wait_type::is_listed_wait_type;
use crate::parser::{DBKind, WaitType};
use crate::text::{
    bytes_of, ends_with, is_prefix, is_suffix, lemma_find_props, split_once_spec, starts_with, str_eq, trim,
    trim_bytes, trim_end, trim_end_bytes, trim_start, trim_start_bytes,
};
use crate::types::{TimestampError, TimestampErrorView};
use crate::util::{
    unix_timestamp_millis, unix_timestamp_millis_spec, utc_unix_timestamp_millis,
    utc_unix_timestamp_millis_spec,
};
use error::{
    ColumnDataError, ColumnDataErrorView, Error, ErrorView, MSSQLStatusParse, PGSQLStateParse,
};
use vstd::prelude::*;
use vstd::utf8::decode_utf8;

verus! {

broadcast use vstd::utf8::encode_utf8_valid_utf8, vstd::utf8::encode_utf8_decode_utf8;

/// Time of the table header, as in `14:30:10.237`.
pub const STUCKQUERY_TIME_FORMAT: &'static str = "[hour]:[minute]:[second].[subsecond]";

/// Date of the table header, as in `11-02-2026`.
pub const STUCKQUERY_DATE_FORMAT: &'static str = "[day]-[month]-[year]";

/// Time of the last state change of a PostgreSQL backend.
pub const STUCKQUERY_STATE_CHANGE_FORMAT: &'static str = "[year]-[month]-[day] [hour]:[minute]:[second].[subsecond][offset_hour sign:mandatory]:[offset_minute]";

/// Login and request times of SQL Server sessions.
pub const STUCKQUERY_LOGIN_TIME_FORMAT: &'static str = "[year]-[month]-[day] [hour]:[minute]:[second].[subsecond]";

/// Reads stuck query tables one after the other.
#[derive(Debug)]
pub struct StuckqueryParser<'a>(&'a str, ParserState);

#[derive(Debug)]
enum ParserState {
    Initial,
    Header,
}

impl<'a> View for StuckqueryParser<'a> {
    type V = Seq<u8>;

    /// The text that is still to be read.
    closed spec fn view(&self) -> Seq<u8> {
        bytes_of(self.0)
    }
}

/// A table: its rows and the Unix time in milliseconds of its header.
#[derive(Debug)]
pub struct StuckqueryTable<'a> {
    pub queries: Vec<Stuckquery<'a>>,
    pub timestamp: u64,
}

#[derive(Debug)]
pub enum Stuckquery<'a> {
    PGSQL(PGSQLQuery<'a>),
    MSSQL(MSSQLQuery<'a>),
}

#[derive(Debug)]
pub enum MSSQLQuery<'a> {
    Blocking(BlockingQuery<'a>),
    Running(RunningQuery<'a>),
}

/// The state of a PostgreSQL backend.
#[derive(Debug, Clone, Copy, PartialEq, Eq, Structural)]
pub enum PGSQLState {
    Active,
    Idle,
}

/// The status of an SQL Server request.
#[derive(Debug, Clone, Copy, PartialEq, Eq, Structural)]
pub enum MSSQLStatus {
    Background,
    Rollback,
    Running,
    Runnable,
    Sleeping,
    Suspended,
}

/// The PostgreSQL state written as `s`, or `s` itself when it is none.
pub open spec fn pgsql_state_spec(s: Seq<u8>) -> Result<PGSQLState, Seq<u8>> {
    if s == bytes_of("active") {
        Ok(PGSQLState::Active)
    } else if s == bytes_of("idle in transaction") {
        Ok(PGSQLState::Idle)
    } else {
        Err(s)
    }
}

/// The SQL Server status written as `s`, or `s` itself when it is none.
pub open spec fn mssql_status_spec(s: Seq<u8>) -> Result<MSSQLStatus, Seq<u8>> {
    if s == bytes_of("running") {
        Ok(MSSQLStatus::Running)
    } else if s == bytes_of("runnable") {
        Ok(MSSQLStatus::Runnable)
    } else if s == bytes_of("rollback") {
        Ok(MSSQLStatus::Rollback)
    } else if s == bytes_of("sleeping") {
        Ok(MSSQLStatus::Sleeping)
    } else if s == bytes_of("background") {
        Ok(MSSQLStatus::Background)
    } else if s == bytes_of("suspended") {
        Ok(MSSQLStatus::Suspended)
    } else {
        Err(s)
    }
}

/// The word that SQL Server writes for each status.
pub open spec fn mssql_status_word(s: MSSQLStatus) -> Seq<u8> {
    match s {
        MSSQLStatus::Background => bytes_of("background"),
        MSSQLStatus::Rollback => bytes_of("rollback"),
        MSSQLStatus::Running => bytes_of("running"),
        MSSQLStatus::Runnable => bytes_of("runnable"),
        MSSQLStatus::Sleeping => bytes_of("sleeping"),
        MSSQLStatus::Suspended => bytes_of("suspended"),
    }
}

/// The word that PostgreSQL writes for each state.
pub open spec fn pgsql_state_word(s: PGSQLState) -> Seq<u8> {
    match s {
        PGSQLState::Active => bytes_of("active"),
        PGSQLState::Idle => bytes_of("idle in transaction"),
    }
}

/// Reading the word of a SQL Server status gives that status, so each of
/// the six words gives its own status and no two give the same one.
pub proof fn lemma_mssql_status_round_trip(s: MSSQLStatus)
    ensures
        mssql_status_spec(mssql_status_word(s)) == Ok::<MSSQLStatus, Seq<u8>>(s),
{
    reveal_strlit("background");
    reveal_strlit("rollback");
    reveal_strlit("running");
    reveal_strlit("runnable");
    reveal_strlit("sleeping");
    reveal_strlit("suspended");
    assert(decode_utf8(bytes_of("background")) == "background"@);
    assert(decode_utf8(bytes_of("rollback")) == "rollback"@);
    assert(decode_utf8(bytes_of("running")) == "running"@);
    assert(decode_utf8(bytes_of("runnable")) == "runnable"@);
    assert(decode_utf8(bytes_of("sleeping")) == "sleeping"@);
    assert(decode_utf8(bytes_of("suspended")) == "suspended"@);
    assert("runnable"@[1] != "rollback"@[1]);
    assert("runnable"@[0] != "sleeping"@[0]);
    assert("rollback"@[0] != "sleeping"@[0]);
    assert(bytes_of("running") != bytes_of("runnable"));
    assert(bytes_of("running") != bytes_of("rollback"));
    assert(bytes_of("running") != bytes_of("sleeping"));
    assert(bytes_of("running") != bytes_of("background"));
    assert(bytes_of("running") != bytes_of("suspended"));
    assert(bytes_of("runnable") != bytes_of("rollback"));
    assert(bytes_of("runnable") != bytes_of("sleeping"));
    assert(bytes_of("runnable") != bytes_of("background"));
    assert(bytes_of("runnable") != bytes_of("suspended"));
    assert(bytes_of("rollback") != bytes_of("sleeping"));
    assert(bytes_of("rollback") != bytes_of("background"));
    assert(bytes_of("rollback") != bytes_of("suspended"));
    assert(bytes_of("sleeping") != bytes_of("background"));
    assert(bytes_of("sleeping") != bytes_of("suspended"));
    assert(bytes_of("background") != bytes_of("suspended"));
}

/// Only the six status words are read as a status; any other text is
/// reported back as it is.
pub proof fn lemma_mssql_status_words(w: Seq<u8>)
    ensures
        mssql_status_spec(w) matches Ok(st) ==> w == mssql_status_word(st),
        mssql_status_spec(w) matches Err(t) ==> t == w,
{
}

/// Only the two state words are read as a state; any other text is reported
/// back as it is.
pub proof fn lemma_pgsql_state_words(w: Seq<u8>)
    ensures
        pgsql_state_spec(w) matches Ok(st) ==> w == pgsql_state_word(st),
        pgsql_state_spec(w) matches Err(t) ==> t == w,
{
}

/// Reading the word of a PostgreSQL state gives that state.
pub proof fn lemma_pgsql_state_round_trip(s: PGSQLState)
    ensures
        pgsql_state_spec(pgsql_state_word(s)) == Ok::<PGSQLState, Seq<u8>>(s),
{
    reveal_strlit("active");
    reveal_strlit("idle in transaction");
    assert(decode_utf8(bytes_of("active")) == "active"@);
    assert(decode_utf8(bytes_of("idle in transaction")) == "idle in transaction"@);
    assert(bytes_of("active") != bytes_of("idle in transaction"));
}

impl PGSQLState {
    /// `active` or `idle in transaction`.
    pub fn parse(s: &str) -> (r: Result<PGSQLState, PGSQLStateParse>)
        ensures
            match pgsql_state_spec(bytes_of(s)) {
                Ok(v) => r == Ok::<PGSQLState, PGSQLStateParse>(v),
                Err(t) => r matches Err(PGSQLStateParse::UnknownState(u)) && vstd::utf8::encode_utf8(u@) == t,
            },
    {
        if str_eq(s, "active") {
            Ok(PGSQLState::Active)
        } else if str_eq(s, "idle in transaction") {
            Ok(PGSQLState::Idle)
        } else {
            Err(PGSQLStateParse::UnknownState(to_string(s)))
        }
    }
}

impl core::str::FromStr for PGSQLState {
    type Err = PGSQLStateParse;

    fn from_str(s: &str) -> Result<Self, Self::Err> {
        PGSQLState::parse(s)
    }
}

impl MSSQLStatus {
    /// `running`, `runnable`, `rollback`, `sleeping`, `background` or
    /// `suspended`.
    pub fn parse(s: &str) -> (r: Result<MSSQLStatus, MSSQLStatusParse>)
        ensures
            match mssql_status_spec(bytes_of(s)) {
                Ok(v) => r == Ok::<MSSQLStatus, MSSQLStatusParse>(v),
                Err(t) => r matches Err(MSSQLStatusParse::UnknownStatus(u)) && vstd::utf8::encode_utf8(u@) == t,
            },
    {
        if str_eq(s, "running") {
            Ok(MSSQLStatus::Running)
        } else if str_eq(s, "runnable") {
            Ok(MSSQLStatus::Runnable)
        } else if str_eq(s, "rollback") {
            Ok(MSSQLStatus::Rollback)
        } else if str_eq(s, "sleeping") {
            Ok(MSSQLStatus::Sleeping)
        } else if str_eq(s, "background") {
            Ok(MSSQLStatus::Background)
        } else if str_eq(s, "suspended") {
            Ok(MSSQLStatus::Suspended)
        } else {
            Err(MSSQLStatusParse::UnknownStatus(to_string(s)))
        }
    }
}

impl core::str::FromStr for MSSQLStatus {
    type Err = MSSQLStatusParse;

    fn from_str(s: &str) -> Result<Self, Self::Err> {
        MSSQLStatus::parse(s)
    }
}

/// The error for a row that has fewer cells than the table has columns.
pub open spec fn missing_cell() -> ErrorView {
    ErrorView::InvalidFormat(missing_cell_error())
}

/// An integer column.
pub open spec fn int_cell(t: Seq<u8>, i: nat, column: Seq<u8>) -> Result<u64, ErrorView> {
    match row_cell(t, i) {
        None => Err(missing_cell()),
        Some(c) => match parse_uint_spec(c, u64::MAX as int) {
            Err(e) => Err(ErrorView::Parse(column, ColumnDataErrorView::Integer(e))),
            Ok(v) => Ok(v as u64),
        },
    }
}

/// A column of seconds written as a floating-point literal.
pub open spec fn float_cell(t: Seq<u8>, i: nat, column: Seq<u8>) -> Result<Seq<u8>, ErrorView> {
    match row_cell(t, i) {
        None => Err(missing_cell()),
        Some(c) => match float_check_spec(c) {
            Err(e) => Err(ErrorView::Parse(column, ColumnDataErrorView::Float(e))),
            Ok(_) => Ok(c),
        },
    }
}

/// A text column.
pub open spec fn text_cell(t: Seq<u8>, i: nat) -> Result<Seq<u8>, ErrorView> {
    match row_cell(t, i) {
        None => Err(missing_cell()),
        Some(c) => Ok(c),
    }
}

/// A text column that may be empty.
pub open spec fn opt_text_cell(t: Seq<u8>, i: nat) -> Result<Option<Seq<u8>>, ErrorView> {
    match row_cell(t, i) {
        None => Err(missing_cell()),
        Some(c) => Ok(
            if c.len() == 0 {
                None
            } else {
                Some(c)
            },
        ),
    }
}

/// A PostgreSQL state column.
pub open spec fn pgstate_cell(t: Seq<u8>, i: nat, column: Seq<u8>) -> Result<PGSQLState, ErrorView> {
    match row_cell(t, i) {
        None => Err(missing_cell()),
        Some(c) => match pgsql_state_spec(c) {
            Err(s) => Err(ErrorView::Parse(column, ColumnDataErrorView::PGSQLState(s))),
            Ok(v) => Ok(v),
        },
    }
}

/// An SQL Server status column.
pub open spec fn status_cell(t: Seq<u8>, i: nat, column: Seq<u8>) -> Result<MSSQLStatus, ErrorView> {
    match row_cell(t, i) {
        None => Err(missing_cell()),
        Some(c) => match mssql_status_spec(c) {
            Err(s) => Err(ErrorView::Parse(column, ColumnDataErrorView::MSSQLStatus(s))),
            Ok(v) => Ok(v),
        },
    }
}

/// A yes/no column: `t` is yes.
pub open spec fn flag_cell(t: Seq<u8>, i: nat) -> Result<bool, ErrorView> {
    match row_cell(t, i) {
        None => Err(missing_cell()),
        Some(c) => Ok(c == bytes_of("t")),
    }
}

/// A date-and-time column read with `fmt`, as UTC.
pub open spec fn ts_cell(t: Seq<u8>, i: nat, fmt: Seq<char>) -> Result<u64, ErrorView> {
    match row_cell(t, i) {
        None => Err(missing_cell()),
        Some(c) => match utc_unix_timestamp_millis_spec(decode_utf8(c), fmt) {
            None => Err(ErrorView::TimestampParse(TimestampErrorView::Parse)),
            Some(Err(())) => Err(ErrorView::TimestampParse(TimestampErrorView::Conversion)),
            Some(Ok(v)) => Ok(v),
        },
    }
}

/// An IPv4 address column, as the address's 32 bits.
pub open spec fn addr_cell(t: Seq<u8>, i: nat, column: Seq<u8>) -> Result<u32, ErrorView> {
    match row_cell(t, i) {
        None => Err(missing_cell()),
        Some(c) => match ipv4_spec(c) {
            None => Err(ErrorView::Parse(column, ColumnDataErrorView::IpV4Addr)),
            Some(v) => Ok(v as u32),
        },
    }
}

/// A port column that may be empty.
pub open spec fn port_cell(t: Seq<u8>, i: nat, column: Seq<u8>) -> Result<Option<u16>, ErrorView> {
    match row_cell(t, i) {
        None => Err(missing_cell()),
        Some(c) => if c.len() == 0 {
            Ok(None)
        } else {
            match parse_uint_spec(c, u16::MAX as int) {
                Err(e) => Err(ErrorView::Parse(column, ColumnDataErrorView::Integer(e))),
                Ok(v) => Ok(Some(v as u16)),
            }
        },
    }
}

/// A wait type column that may be empty, by the name of the wait type.
pub open spec fn wait_cell(t: Seq<u8>, i: nat) -> Result<Option<Seq<char>>, ErrorView> {
    match row_cell(t, i) {
        None => Err(missing_cell()),
        Some(c) => Ok(
            if c.len() == 0 {
                None
            } else {
                Some(decode_utf8(c))
            },
        ),
    }
}

/// The bytes of an optional text.
pub open spec fn opt_bytes(o: Option<&str>) -> Option<Seq<u8>> {
    match o {
        Some(s) => Some(bytes_of(s)),
        None => None,
    }
}

/// The name of an optional wait type.
pub open spec fn opt_wait_name(o: Option<WaitType>) -> Option<Seq<char>> {
    match o {
        Some(w) => Some(w@),
        None => None,
    }
}

/// A row of a PostgreSQL stuck query table.
#[derive(Debug)]
pub struct PGSQLQuery<'a> {
    pub pid: u64,
    /// Seconds, as the decimal text of the column.
    pub query_time: &'a str,
    /// Seconds, as the decimal text of the column.
    pub txn_time: &'a str,
    pub db_name: &'a str,
    pub state: PGSQLState,
    pub waiting: bool,
    pub query: &'a str,
    pub state_change: u64,
    pub application_name: &'a str,
    pub client_addr: u32,
    pub client_host: Option<&'a str>,
    pub client_port: Option<u16>,
}

/// A row with its texts given by their bytes.
pub struct PGSQLQueryView {
    pub pid: u64,
    pub query_time: Seq<u8>,
    pub txn_time: Seq<u8>,
    pub db_name: Seq<u8>,
    pub state: PGSQLState,
    pub waiting: bool,
    pub query: Seq<u8>,
    pub state_change: u64,
    pub application_name: Seq<u8>,
    pub client_addr: u32,
    pub client_host: Option<Seq<u8>>,
    pub client_port: Option<u16>,
}

impl<'a> View for PGSQLQuery<'a> {
    type V = PGSQLQueryView;

    open spec fn view(&self) -> PGSQLQueryView {
        PGSQLQueryView {
            pid: self.pid,
            query_time: bytes_of(self.query_time),
            txn_time: bytes_of(self.txn_time),
            db_name: bytes_of(self.db_name),
            state: self.state,
            waiting: self.waiting,
            query: bytes_of(self.query),
            state_change: self.state_change,
            application_name: bytes_of(self.application_name),
            client_addr: self.client_addr,
            client_host: opt_bytes(self.client_host),
            client_port: self.client_port,
        }
    }
}

/// What a row of this table gives: the columns are read in order and the
/// first one that cannot be read gives the error.
#[verifier::opaque]
pub open spec fn pgsql_row_spec(t: Seq<u8>) -> Result<PGSQLQueryView, ErrorView> {
    let pid = int_cell(t, 0, bytes_of("pid"));
    let query_time = float_cell(t, 1, bytes_of("Query Time (s)"));
    let txn_time = float_cell(t, 2, bytes_of("Txn Time (s)"));
    let db_name = text_cell(t, 3);
    let state = pgstate_cell(t, 4, bytes_of("state"));
    let waiting = flag_cell(t, 5);
    let query = text_cell(t, 6);
    let state_change = ts_cell(t, 7, STUCKQUERY_STATE_CHANGE_FORMAT@);
    let application_name = text_cell(t, 8);
    let client_addr = addr_cell(t, 9, bytes_of("Client Address"));
    let client_host = opt_text_cell(t, 10);
    let client_port = port_cell(t, 11, bytes_of("Client Port"));
    if pid is Err {
        Err(pid->Err_0)
    } else if query_time is Err {
        Err(query_time->Err_0)
    } else if txn_time is Err {
        Err(txn_time->Err_0)
    } else if db_name is Err {
        Err(db_name->Err_0)
    } else if state is Err {
        Err(state->Err_0)
    } else if waiting is Err {
        Err(waiting->Err_0)
    } else if query is Err {
        Err(query->Err_0)
    } else if state_change is Err {
        Err(state_change->Err_0)
    } else if application_name is Err {
        Err(application_name->Err_0)
    } else if client_addr is Err {
        Err(client_addr->Err_0)
    } else if client_host is Err {
        Err(client_host->Err_0)
    } else if client_port is Err {
        Err(client_port->Err_0)
    } else {
        Ok(
            PGSQLQueryView {
                pid: pid->Ok_0,
                query_time: query_time->Ok_0,
                txn_time: txn_time->Ok_0,
                db_name: db_name->Ok_0,
                state: state->Ok_0,
                waiting: waiting->Ok_0,
                query: query->Ok_0,
                state_change: state_change->Ok_0,
                application_name: application_name->Ok_0,
                client_addr: client_addr->Ok_0,
                client_host: client_host->Ok_0,
                client_port: client_port->Ok_0,
            },
        )
    }
}

impl<'a> Parser<'a> for PGSQLQuery<'a> {
    type Error = Error;

    /// Reads the columns of a row `| a | b | ... |` in order.
    fn parse(data: &'a str) -> (r: Result<Self, Self::Error>)
        ensures
            r matches Ok(q) ==> pgsql_row_spec(bytes_of(data)) == Ok::<PGSQLQueryView, ErrorView>(q@),
            r matches Err(e) ==> pgsql_row_spec(bytes_of(data)) == Err::<PGSQLQueryView, ErrorView>(e@),
    {
        proof {
            reveal(pgsql_row_spec);
        }
        let ghost row = bytes_of(data);
        let mut tok = Tokenizer::new(data);
        let c = next_row_cell(&mut tok, Ghost(row), Ghost(0nat))?;
        let pid = match parse_u64(c) {
            Ok(v) => v,
            Err(e) => return Err(Error::Parse(to_string("pid"), ColumnDataError::Integer(e))),
        };
        let c = next_row_cell(&mut tok, Ghost(row), Ghost(1nat))?;
        if let Err(e) = check_float(c) {
            return Err(Error::Parse(to_string("Query Time (s)"), ColumnDataError::Float(e)));
        }
        let query_time = c;
        let c = next_row_cell(&mut tok, Ghost(row), Ghost(2nat))?;
        if let Err(e) = check_float(c) {
            return Err(Error::Parse(to_string("Txn Time (s)"), ColumnDataError::Float(e)));
        }
        let txn_time = c;
        let c = next_row_cell(&mut tok, Ghost(row), Ghost(3nat))?;
        let db_name = c;
        let c = next_row_cell(&mut tok, Ghost(row), Ghost(4nat))?;
        let state = match PGSQLState::parse(c) {
            Ok(v) => v,
            Err(e) => return Err(Error::Parse(to_string("state"), ColumnDataError::PGSQLState(e))),
        };
        let c = next_row_cell(&mut tok, Ghost(row), Ghost(5nat))?;
        let waiting = str_eq(c, "t");
        let c = next_row_cell(&mut tok, Ghost(row), Ghost(6nat))?;
        let query = c;
        let c = next_row_cell(&mut tok, Ghost(row), Ghost(7nat))?;
        let state_change = match utc_unix_timestamp_millis(c, STUCKQUERY_STATE_CHANGE_FORMAT) {
            Ok(v) => v,
            Err(e) => return Err(Error::TimestampParse(e)),
        };
        let c = next_row_cell(&mut tok, Ghost(row), Ghost(8nat))?;
        let application_name = c;
        let c = next_row_cell(&mut tok, Ghost(row), Ghost(9nat))?;
        let client_addr = match parse_ipv4_bits(c) {
            Ok(v) => v,
            Err(e) => return Err(Error::Parse(to_string("Client Address"), ColumnDataError::IpV4Addr(e))),
        };
        let c = next_row_cell(&mut tok, Ghost(row), Ghost(10nat))?;
        let client_host = if c.as_bytes().len() == 0 {
            None
        } else {
            Some(c)
        };
        let c = next_row_cell(&mut tok, Ghost(row), Ghost(11nat))?;
        let client_port = if c.as_bytes().len() == 0 {
            None
        } else {
            match parse_u16(c) {
                Ok(v) => Some(v),
                Err(e) => return Err(Error::Parse(to_string("Client Port"), ColumnDataError::Integer(e))),
            }
        };
        Ok(PGSQLQuery { pid, query_time, txn_time, db_name, state, waiting, query, state_change, application_name, client_addr, client_host, client_port })
    }
}

/// A row of the SQL Server table of currently running queries.
#[derive(Debug)]
pub struct RunningQuery<'a> {
    pub session_id: u64,
    pub status: MSSQLStatus,
    pub txn_id: u64,
    pub blocked_by: u64,
    pub wait_type: Option<WaitType>,
    pub wait_resource: Option<&'a str>,
    /// Seconds, as the decimal text of the column.
    pub wait_time_ms: &'a str,
    /// Seconds, as the decimal text of the column.
    pub cpu_time_ms: &'a str,
    pub logical_reads: u64,
    pub reads: u64,
    pub writes: u64,
    /// Seconds, as the decimal text of the column.
    pub elapsed: &'a str,
    pub statement: &'a str,
    pub command: &'a str,
    pub login: &'a str,
    pub host: &'a str,
    pub db: &'a str,
    pub program: &'a str,
    pub host_process: u64,
    pub last_request_end: u64,
    pub login_time: u64,
    pub open_txn: u64,
}

/// A row with its texts given by their bytes.
pub struct RunningQueryView {
    pub session_id: u64,
    pub status: MSSQLStatus,
    pub txn_id: u64,
    pub blocked_by: u64,
    pub wait_type: Option<Seq<char>>,
    pub wait_resource: Option<Seq<u8>>,
    pub wait_time_ms: Seq<u8>,
    pub cpu_time_ms: Seq<u8>,
    pub logical_reads: u64,
    pub reads: u64,
    pub writes: u64,
    pub elapsed: Seq<u8>,
    pub statement: Seq<u8>,
    pub command: Seq<u8>,
    pub login: Seq<u8>,
    pub host: Seq<u8>,
    pub db: Seq<u8>,
    pub program: Seq<u8>,
    pub host_process: u64,
    pub last_request_end: u64,
    pub login_time: u64,
    pub open_txn: u64,
}

impl<'a> View for RunningQuery<'a> {
    type V = RunningQueryView;

    open spec fn view(&self) -> RunningQueryView {
        RunningQueryView {
            session_id: self.session_id,
            status: self.status,
            txn_id: self.txn_id,
            blocked_by: self.blocked_by,
            wait_type: opt_wait_name(self.wait_type),
            wait_resource: opt_bytes(self.wait_resource),
            wait_time_ms: bytes_of(self.wait_time_ms),
            cpu_time_ms: bytes_of(self.cpu_time_ms),
            logical_reads: self.logical_reads,
            reads: self.reads,
            writes: self.writes,
            elapsed: bytes_of(self.elapsed),
            statement: bytes_of(self.statement),
            command: bytes_of(self.command),
            login: bytes_of(self.login),
            host: bytes_of(self.host),
            db: bytes_of(self.db),
            program: bytes_of(self.program),
            host_process: self.host_process,
            last_request_end: self.last_request_end,
            login_time: self.login_time,
            open_txn: self.open_txn,
        }
    }
}

/// What a row of this table gives: the columns are read in order and the
/// first one that cannot be read gives the error.
#[verifier::opaque]
pub open spec fn running_row_spec(t: Seq<u8>) -> Result<RunningQueryView, ErrorView> {
    let session_id = int_cell(t, 0, bytes_of("Session ID"));
    let status = status_cell(t, 1, bytes_of("Status"));
    let txn_id = int_cell(t, 2, bytes_of("Txn ID"));
    let blocked_by = int_cell(t, 3, bytes_of("Blocked by"));
    let wait_type = wait_cell(t, 4);
    let wait_resource = opt_text_cell(t, 5);
    let wait_time_ms = float_cell(t, 6, bytes_of("Wait Time"));
    let cpu_time_ms = float_cell(t, 7, bytes_of("CPU Time"));
    let logical_reads = int_cell(t, 8, bytes_of("Logical Reads"));
    let reads = int_cell(t, 9, bytes_of("Physical Reads"));
    let writes = int_cell(t, 10, bytes_of("Physical Writes"));
    let elapsed = float_cell(t, 11, bytes_of("Elapsed Time"));
    let statement = text_cell(t, 12);
    let command = text_cell(t, 13);
    let login = text_cell(t, 14);
    let host = text_cell(t, 15);
    let db = text_cell(t, 16);
    let program = text_cell(t, 17);
    let host_process = int_cell(t, 18, bytes_of("Host Process ID"));
    let last_request_end = ts_cell(t, 19, STUCKQUERY_LOGIN_TIME_FORMAT@);
    let login_time = ts_cell(t, 20, STUCKQUERY_LOGIN_TIME_FORMAT@);
    let open_txn = int_cell(t, 21, bytes_of("Open Txn"));
    if session_id is Err {
        Err(session_id->Err_0)
    } else if status is Err {
        Err(status->Err_0)
    } else if txn_id is Err {
        Err(txn_id->Err_0)
    } else if blocked_by is Err {
        Err(blocked_by->Err_0)
    } else if wait_type is Err {
        Err(wait_type->Err_0)
    } else if wait_resource is Err {
        Err(wait_resource->Err_0)
    } else if wait_time_ms is Err {
        Err(wait_time_ms->Err_0)
    } else if cpu_time_ms is Err {
        Err(cpu_time_ms->Err_0)
    } else if logical_reads is Err {
        Err(logical_reads->Err_0)
    } else if reads is Err {
        Err(reads->Err_0)
    } else if writes is Err {
        Err(writes->Err_0)
    } else if elapsed is Err {
        Err(elapsed->Err_0)
    } else if statement is Err {
        Err(statement->Err_0)
    } else if command is Err {
        Err(command->Err_0)
    } else if login is Err {
        Err(login->Err_0)
    } else if host is Err {
        Err(host->Err_0)
    } else if db is Err {
        Err(db->Err_0)
    } else if program is Err {
        Err(program->Err_0)
    } else if host_process is Err {
        Err(host_process->Err_0)
    } else if last_request_end is Err {
        Err(last_request_end->Err_0)
    } else if login_time is Err {
        Err(login_time->Err_0)
    } else if open_txn is Err {
        Err(open_txn->Err_0)
    } else {
        Ok(
            RunningQueryView {
                session_id: session_id->Ok_0,
                status: status->Ok_0,
                txn_id: txn_id->Ok_0,
                blocked_by: blocked_by->Ok_0,
                wait_type: wait_type->Ok_0,
                wait_resource: wait_resource->Ok_0,
                wait_time_ms: wait_time_ms->Ok_0,
                cpu_time_ms: cpu_time_ms->Ok_0,
                logical_reads: logical_reads->Ok_0,
                reads: reads->Ok_0,
                writes: writes->Ok_0,
                elapsed: elapsed->Ok_0,
                statement: statement->Ok_0,
                command: command->Ok_0,
                login: login->Ok_0,
                host: host->Ok_0,
                db: db->Ok_0,
                program: program->Ok_0,
                host_process: host_process->Ok_0,
                last_request_end: last_request_end->Ok_0,
                login_time: login_time->Ok_0,
                open_txn: open_txn->Ok_0,
            },
        )
    }
}

impl<'a> Parser<'a> for RunningQuery<'a> {
    type Error = Error;

    /// Reads the columns of a row `| a | b | ... |` in order.
    fn parse(data: &'a str) -> (r: Result<Self, Self::Error>)
        ensures
            r matches Ok(q) ==> running_row_spec(bytes_of(data)) == Ok::<RunningQueryView, ErrorView>(q@),
            r matches Err(e) ==> running_row_spec(bytes_of(data)) == Err::<RunningQueryView, ErrorView>(e@),
            r matches Ok(q) ==> (q.wait_type matches Some(w) ==> (w is Unknown <==> !is_listed_wait_type(w@))),
    {
        proof {
            reveal(running_row_spec);
        }
        let ghost row = bytes_of(data);
        let mut tok = Tokenizer::new(data);
        let c = next_row_cell(&mut tok, Ghost(row), Ghost(0nat))?;
        let session_id = match parse_u64(c) {
            Ok(v) => v,
            Err(e) => return Err(Error::Parse(to_string("Session ID"), ColumnDataError::Integer(e))),
        };
        let c = next_row_cell(&mut tok, Ghost(row), Ghost(1nat))?;
        let status = match MSSQLStatus::parse(c) {
            Ok(v) => v,
            Err(e) => return Err(Error::Parse(to_string("Status"), ColumnDataError::MSSQLStatus(e))),
        };
        let c = next_row_cell(&mut tok, Ghost(row), Ghost(2nat))?;
        let txn_id = match parse_u64(c) {
            Ok(v) => v,
            Err(e) => return Err(Error::Parse(to_string("Txn ID"), ColumnDataError::Integer(e))),
        };
        let c = next_row_cell(&mut tok, Ghost(row), Ghost(3nat))?;
        let blocked_by = match parse_u64(c) {
            Ok(v) => v,
            Err(e) => return Err(Error::Parse(to_string("Blocked by"), ColumnDataError::Integer(e))),
        };
        let c = next_row_cell(&mut tok, Ghost(row), Ghost(4nat))?;
        let wait_type = if c.as_bytes().len() == 0 {
            None
        } else {
            Some(WaitType::parse(c))
        };
        let c = next_row_cell(&mut tok, Ghost(row), Ghost(5nat))?;
        let wait_resource = if c.as_bytes().len() == 0 {
            None
        } else {
            Some(c)
        };
        let c = next_row_cell(&mut tok, Ghost(row), Ghost(6nat))?;
        if let Err(e) = check_float(c) {
            return Err(Error::Parse(to_string("Wait Time"), ColumnDataError::Float(e)));
        }
        let wait_time_ms = c;
        let c = next_row_cell(&mut tok, Ghost(row), Ghost(7nat))?;
        if let Err(e) = check_float(c) {
            return Err(Error::Parse(to_string("CPU Time"), ColumnDataError::Float(e)));
        }
        let cpu_time_ms = c;
        let c = next_row_cell(&mut tok, Ghost(row), Ghost(8nat))?;
        let logical_reads = match parse_u64(c) {
            Ok(v) => v,
            Err(e) => return Err(Error::Parse(to_string("Logical Reads"), ColumnDataError::Integer(e))),
        };
        let c = next_row_cell(&mut tok, Ghost(row), Ghost(9nat))?;
        let reads = match parse_u64(c) {
            Ok(v) => v,
            Err(e) => return Err(Error::Parse(to_string("Physical Reads"), ColumnDataError::Integer(e))),
        };
        let c = next_row_cell(&mut tok, Ghost(row), Ghost(10nat))?;
        let writes = match parse_u64(c) {
            Ok(v) => v,
            Err(e) => return Err(Error::Parse(to_string("Physical Writes"), ColumnDataError::Integer(e))),
        };
        let c = next_row_cell(&mut tok, Ghost(row), Ghost(11nat))?;
        if let Err(e) = check_float(c) {
            return Err(Error::Parse(to_string("Elapsed Time"), ColumnDataError::Float(e)));
        }
        let elapsed = c;
        let c = next_row_cell(&mut tok, Ghost(row), Ghost(12nat))?;
        let statement = c;
        let c = next_row_cell(&mut tok, Ghost(row), Ghost(13nat))?;
        let command = c;
        let c = next_row_cell(&mut tok, Ghost(row), Ghost(14nat))?;
        let login = c;
        let c = next_row_cell(&mut tok, Ghost(row), Ghost(15nat))?;
        let host = c;
        let c = next_row_cell(&mut tok, Ghost(row), Ghost(16nat))?;
        let db = c;
        let c = next_row_cell(&mut tok, Ghost(row), Ghost(17nat))?;
        let program = c;
        let c = next_row_cell(&mut tok, Ghost(row), Ghost(18nat))?;
        let host_process = match parse_u64(c) {
            Ok(v) => v,
            Err(e) => return Err(Error::Parse(to_string("Host Process ID"), ColumnDataError::Integer(e))),
        };
        let c = next_row_cell(&mut tok, Ghost(row), Ghost(19nat))?;
        let last_request_end = match utc_unix_timestamp_millis(c, STUCKQUERY_LOGIN_TIME_FORMAT) {
            Ok(v) => v,
            Err(e) => return Err(Error::TimestampParse(e)),
        };
        let c = next_row_cell(&mut tok, Ghost(row), Ghost(20nat))?;
        let login_time = match utc_unix_timestamp_millis(c, STUCKQUERY_LOGIN_TIME_FORMAT) {
            Ok(v) => v,
            Err(e) => return Err(Error::TimestampParse(e)),
        };
        let c = next_row_cell(&mut tok, Ghost(row), Ghost(21nat))?;
        let open_txn = match parse_u64(c) {
            Ok(v) => v,
            Err(e) => return Err(Error::Parse(to_string("Open Txn"), ColumnDataError::Integer(e))),
        };
        Ok(RunningQuery { session_id, status, txn_id, blocked_by, wait_type, wait_resource, wait_time_ms, cpu_time_ms, logical_reads, reads, writes, elapsed, statement, command, login, host, db, program, host_process, last_request_end, login_time, open_txn })
    }
}

/// A row of the SQL Server table of currently blocking queries.
#[derive(Debug)]
pub struct BlockingQuery<'a> {
    pub head_blocker: u64,
    pub session_id: u64,
    pub txn_id: u64,
    pub blocking_session_id: u64,
    pub wait_type: Option<WaitType>,
    pub wait_duration: u64,
    pub wait_resource: Option<&'a str>,
    pub statement_start_offset: u64,
    pub statement_end_offset: u64,
    pub plan_handle: &'a str,
    pub sql_handle: &'a str,
    pub most_recent_sql_handle: &'a str,
    pub level: u64,
    pub blocker_query_or_most_recent_query: &'a str,
}

/// A row with its texts given by their bytes.
pub struct BlockingQueryView {
    pub head_blocker: u64,
    pub session_id: u64,
    pub txn_id: u64,
    pub blocking_session_id: u64,
    pub wait_type: Option<Seq<char>>,
    pub wait_duration: u64,
    pub wait_resource: Option<Seq<u8>>,
    pub statement_start_offset: u64,
    pub statement_end_offset: u64,
    pub plan_handle: Seq<u8>,
    pub sql_handle: Seq<u8>,
    pub most_recent_sql_handle: Seq<u8>,
    pub level: u64,
    pub blocker_query_or_most_recent_query: Seq<u8>,
}

impl<'a> View for BlockingQuery<'a> {
    type V = BlockingQueryView;

    open spec fn view(&self) -> BlockingQueryView {
        BlockingQueryView {
            head_blocker: self.head_blocker,
            session_id: self.session_id,
            txn_id: self.txn_id,
            blocking_session_id: self.blocking_session_id,
            wait_type: opt_wait_name(self.wait_type),
            wait_duration: self.wait_duration,
            wait_resource: opt_bytes(self.wait_resource),
            statement_start_offset: self.statement_start_offset,
            statement_end_offset: self.statement_end_offset,
            plan_handle: bytes_of(self.plan_handle),
            sql_handle: bytes_of(self.sql_handle),
            most_recent_sql_handle: bytes_of(self.most_recent_sql_handle),
            level: self.level,
            blocker_query_or_most_recent_query: bytes_of(self.blocker_query_or_most_recent_query),
        }
    }
}

/// What a row of this table gives: the columns are read in order and the
/// first one that cannot be read gives the error.
#[verifier::opaque]
pub open spec fn blocking_row_spec(t: Seq<u8>) -> Result<BlockingQueryView, ErrorView> {
    let head_blocker = int_cell(t, 0, bytes_of("Head Blocker Session ID"));
    let session_id = int_cell(t, 1, bytes_of("Session ID"));
    let txn_id = int_cell(t, 2, bytes_of("Txn ID"));
    let blocking_session_id = int_cell(t, 3, bytes_of("Blocking Session ID"));
    let wait_type = wait_cell(t, 4);
    let wait_duration = int_cell(t, 5, bytes_of("Wait Duration"));
    let wait_resource = opt_text_cell(t, 6);
    let statement_start_offset = int_cell(t, 7, bytes_of("Statement Start Offset"));
    let statement_end_offset = int_cell(t, 8, bytes_of("Statement End Offset"));
    let plan_handle = text_cell(t, 9);
    let sql_handle = text_cell(t, 10);
    let most_recent_sql_handle = text_cell(t, 11);
    let level = int_cell(t, 12, bytes_of("Level"));
    let blocker_query_or_most_recent_query = text_cell(t, 13);
    if head_blocker is Err {
        Err(head_blocker->Err_0)
    } else if session_id is Err {
        Err(session_id->Err_0)
    } else if txn_id is Err {
        Err(txn_id->Err_0)
    } else if blocking_session_id is Err {
        Err(blocking_session_id->Err_0)
    } else if wait_type is Err {
        Err(wait_type->Err_0)
    } else if wait_duration is Err {
        Err(wait_duration->Err_0)
    } else if wait_resource is Err {
        Err(wait_resource->Err_0)
    } else if statement_start_offset is Err {
        Err(statement_start_offset->Err_0)
    } else if statement_end_offset is Err {
        Err(statement_end_offset->Err_0)
    } else if plan_handle is Err {
        Err(plan_handle->Err_0)
    } else if sql_handle is Err {
        Err(sql_handle->Err_0)
    } else if most_recent_sql_handle is Err {
        Err(most_recent_sql_handle->Err_0)
    } else if level is Err {
        Err(level->Err_0)
    } else if blocker_query_or_most_recent_query is Err {
        Err(blocker_query_or_most_recent_query->Err_0)
    } else {
        Ok(
            BlockingQueryView {
                head_blocker: head_blocker->Ok_0,
                session_id: session_id->Ok_0,
                txn_id: txn_id->Ok_0,
                blocking_session_id: blocking_session_id->Ok_0,
                wait_type: wait_type->Ok_0,
                wait_duration: wait_duration->Ok_0,
                wait_resource: wait_resource->Ok_0,
                statement_start_offset: statement_start_offset->Ok_0,
                statement_end_offset: statement_end_offset->Ok_0,
                plan_handle: plan_handle->Ok_0,
                sql_handle: sql_handle->Ok_0,
                most_recent_sql_handle: most_recent_sql_handle->Ok_0,
                level: level->Ok_0,
                blocker_query_or_most_recent_query: blocker_query_or_most_recent_query->Ok_0,
            },
        )
    }
}

impl<'a> Parser<'a> for BlockingQuery<'a> {
    type Error = Error;

    /// Reads the columns of a row `| a | b | ... |` in order.
    fn parse(data: &'a str) -> (r: Result<Self, Self::Error>)
        ensures
            r matches Ok(q) ==> blocking_row_spec(bytes_of(data)) == Ok::<BlockingQueryView, ErrorView>(q@),
            r matches Err(e) ==> blocking_row_spec(bytes_of(data)) == Err::<BlockingQueryView, ErrorView>(e@),
            r matches Ok(q) ==> (q.wait_type matches Some(w) ==> (w is Unknown <==> !is_listed_wait_type(w@))),
    {
        proof {
            reveal(blocking_row_spec);
        }
        let ghost row = bytes_of(data);
        let mut tok = Tokenizer::new(data);
        let c = next_row_cell(&mut tok, Ghost(row), Ghost(0nat))?;
        let head_blocker = match parse_u64(c) {
            Ok(v) => v,
            Err(e) => return Err(Error::Parse(to_string("Head Blocker Session ID"), ColumnDataError::Integer(e))),
        };
        let c = next_row_cell(&mut tok, Ghost(row), Ghost(1nat))?;
        let session_id = match parse_u64(c) {
            Ok(v) => v,
            Err(e) => return Err(Error::Parse(to_string("Session ID"), ColumnDataError::Integer(e))),
        };
        let c = next_row_cell(&mut tok, Ghost(row), Ghost(2nat))?;
        let txn_id = match parse_u64(c) {
            Ok(v) => v,
            Err(e) => return Err(Error::Parse(to_string("Txn ID"), ColumnDataError::Integer(e))),
        };
        let c = next_row_cell(&mut tok, Ghost(row), Ghost(3nat))?;
        let blocking_session_id = match parse_u64(c) {
            Ok(v) => v,
            Err(e) => return Err(Error::Parse(to_string("Blocking Session ID"), ColumnDataError::Integer(e))),
        };
        let c = next_row_cell(&mut tok, Ghost(row), Ghost(4nat))?;
        let wait_type = if c.as_bytes().len() == 0 {
            None
        } else {
            Some(WaitType::parse(c))
        };
        let c = next_row_cell(&mut tok, Ghost(row), Ghost(5nat))?;
        let wait_duration = match parse_u64(c) {
            Ok(v) => v,
            Err(e) => return Err(Error::Parse(to_string("Wait Duration"), ColumnDataError::Integer(e))),
        };
        let c = next_row_cell(&mut tok, Ghost(row), Ghost(6nat))?;
        let wait_resource = if c.as_bytes().len() == 0 {
            None
        } else {
            Some(c)
        };
        let c = next_row_cell(&mut tok, Ghost(row), Ghost(7nat))?;
        let statement_start_offset = match parse_u64(c) {
            Ok(v) => v,
            Err(e) => return Err(Error::Parse(to_string("Statement Start Offset"), ColumnDataError::Integer(e))),
        };
        let c = next_row_cell(&mut tok, Ghost(row), Ghost(8nat))?;
        let statement_end_offset = match parse_u64(c) {
            Ok(v) => v,
            Err(e) => return Err(Error::Parse(to_string("Statement End Offset"), ColumnDataError::Integer(e))),
        };
        let c = next_row_cell(&mut tok, Ghost(row), Ghost(9nat))?;
        let plan_handle = c;
        let c = next_row_cell(&mut tok, Ghost(row), Ghost(10nat))?;
        let sql_handle = c;
        let c = next_row_cell(&mut tok, Ghost(row), Ghost(11nat))?;
        let most_recent_sql_handle = c;
        let c = next_row_cell(&mut tok, Ghost(row), Ghost(12nat))?;
        let level = match parse_u64(c) {
            Ok(v) => v,
            Err(e) => return Err(Error::Parse(to_string("Level"), ColumnDataError::Integer(e))),
        };
        let c = next_row_cell(&mut tok, Ghost(row), Ghost(13nat))?;
        let blocker_query_or_most_recent_query = c;
        Ok(BlockingQuery { head_blocker, session_id, txn_id, blocking_session_id, wait_type, wait_duration, wait_resource, statement_start_offset, statement_end_offset, plan_handle, sql_handle, most_recent_sql_handle, level, blocker_query_or_most_recent_query })
    }
}


/// A row of a table with its texts given by their bytes.
pub enum StuckqueryView {
    PGSQL(PGSQLQueryView),
    MSSQL(MSSQLQueryView),
}

/// An SQL Server row with its texts given by their bytes.
pub enum MSSQLQueryView {
    Blocking(BlockingQueryView),
    Running(RunningQueryView),
}

impl<'a> View for MSSQLQuery<'a> {
    type V = MSSQLQueryView;

    open spec fn view(&self) -> MSSQLQueryView {
        match self {
            MSSQLQuery::Blocking(q) => MSSQLQueryView::Blocking(q@),
            MSSQLQuery::Running(q) => MSSQLQueryView::Running(q@),
        }
    }
}

impl<'a> View for Stuckquery<'a> {
    type V = StuckqueryView;

    open spec fn view(&self) -> StuckqueryView {
        match self {
            Stuckquery::PGSQL(q) => StuckqueryView::PGSQL(q@),
            Stuckquery::MSSQL(q) => StuckqueryView::MSSQL(q@),
        }
    }
}

/// A table with its texts given by their bytes.
pub struct StuckqueryTableView {
    pub queries: Seq<StuckqueryView>,
    pub timestamp: u64,
}

impl<'a> View for StuckqueryTable<'a> {
    type V = StuckqueryTableView;

    open spec fn view(&self) -> StuckqueryTableView {
        StuckqueryTableView {
            queries: self.queries@.map_values(|q: Stuckquery<'a>| q@),
            timestamp: self.timestamp,
        }
    }
}

/// The next line of `t` and the text after it.
pub open spec fn line_spec(t: Seq<u8>) -> Option<(Seq<u8>, Seq<u8>)> {
    take_until_spec(t, newline())
}

/// Reads cell `i` of `row`, the tokenizer standing after the cells before it.
fn next_row_cell<'a>(tok: &mut Tokenizer<'a>, row: Ghost<Seq<u8>>, i: Ghost<nat>) -> (r: Result<&'a str, Error>)
    requires
        old(tok)@ == cells_rest(row@, i@),
    ensures
        match row_cell(row@, i@) {
            Some(c) => r matches Ok(s) && bytes_of(s) == c && final(tok)@ == cells_rest(row@, i@ + 1),
            None => r matches Err(e) && e@ == missing_cell(),
        },
{
    match next_cell(tok, row, i) {
        Ok(c) => Ok(c),
        Err(e) => Err(Error::InvalidFormat(e)),
    }
}

/// The database of a table by the names of its columns: a `pid` column
/// means PostgreSQL, a `Session ID` or `Logical Reads` column SQL Server.
pub open spec fn kind_of_columns(columns: Seq<Seq<u8>>) -> Option<DBKind> {
    if columns.contains(bytes_of("pid")) {
        Some(DBKind::PGSQL)
    } else if columns.contains(bytes_of("Session ID")) || columns.contains(bytes_of("Logical Reads")) {
        Some(DBKind::MSSQL)
    } else {
        None
    }
}

/// The name of a table: the text between the first two `|` of its second
/// header line, without surrounding whitespace.
pub open spec fn table_name_spec(lines: Seq<Seq<u8>>) -> Option<Seq<u8>> {
    if lines.len() < 2 {
        None
    } else {
        match take_within_spec(lines[1], bytes_of("|"), bytes_of("|")) {
            Ok((d, _)) => Some(trim_bytes(d)),
            Err(_) => None,
        }
    }
}

/// The time of a table header `[time] [date] ...`: the time and the date are
/// read with the stuck query formats, as UTC.
pub open spec fn header_spec(line: Seq<u8>) -> Result<u64, ErrorView> {
    match take_within_spec(line, bytes_of("["), bytes_of("]")) {
        Err(e) => Err(ErrorView::InvalidFormat(e)),
        Ok((time, l2)) => match take_within_spec(l2, bytes_of("["), bytes_of("]")) {
            Err(e) => Err(ErrorView::InvalidFormat(e)),
            Ok((date, _)) => match unix_timestamp_millis_spec(
                decode_utf8(time),
                decode_utf8(date),
                STUCKQUERY_TIME_FORMAT@,
                STUCKQUERY_DATE_FORMAT@,
            ) {
                None => Err(ErrorView::TimestampParse(TimestampErrorView::Parse)),
                Some(Err(())) => Err(ErrorView::TimestampParse(TimestampErrorView::Conversion)),
                Some(Ok(v)) => Ok(v),
            },
        },
    }
}

/// Skips the lines that start with `[` but do not end with `::`; gives the
/// text from the first line that is not such a line.
pub open spec fn skip_to_header(t: Seq<u8>) -> Seq<u8>
    decreases t.len(),
{
    match line_spec(t) {
        None => t,
        Some((line, rest)) => {
            proof {
                lemma_newline();
                lemma_take_until_shrinks(t, newline());
            }
            if is_prefix(bytes_of("["), trim_start_bytes(line)) && !is_suffix(bytes_of("::"), trim_end_bytes(line)) {
                skip_to_header(rest)
            } else {
                t
            }
        },
    }
}

/// The header lines of a table: up to `n` lines that start with `|`. Gives
/// them and the text after them.
pub open spec fn header_lines_spec(t: Seq<u8>, n: nat) -> (Seq<Seq<u8>>, Seq<u8>)
    decreases n,
{
    if n == 0 {
        (seq![], t)
    } else {
        match line_spec(t) {
            None => (seq![], t),
            Some((line, rest)) => if is_prefix(bytes_of("|"), line) {
                let (ls, r) = header_lines_spec(rest, (n - 1) as nat);
                (seq![line] + ls, r)
            } else {
                (seq![], t)
            },
        }
    }
}

/// What one row of a table of the given kind and name gives: `None` for a
/// row of an SQL Server table whose name is not known, which is skipped.
pub open spec fn row_spec(line: Seq<u8>, kind: DBKind, name: Seq<u8>) -> Result<Option<StuckqueryView>, ErrorView> {
    match kind {
        DBKind::PGSQL => match pgsql_row_spec(line) {
            Ok(q) => Ok(Some(StuckqueryView::PGSQL(q))),
            Err(e) => Err(e),
        },
        DBKind::MSSQL => if name == bytes_of("Currently Running Queries") {
            match running_row_spec(line) {
                Ok(q) => Ok(Some(StuckqueryView::MSSQL(MSSQLQueryView::Running(q)))),
                Err(e) => Err(e),
            }
        } else if name == bytes_of("Currently Blocking Query Details") {
            match blocking_row_spec(line) {
                Ok(q) => Ok(Some(StuckqueryView::MSSQL(MSSQLQueryView::Blocking(q)))),
                Err(e) => Err(e),
            }
        } else {
            Ok(None)
        },
    }
}

/// The rows of a table: the lines that start with `|`, up to the first line
/// that does not; the first row that cannot be read gives the error. Gives
/// the rows and the text after them.
pub open spec fn rows_spec(t: Seq<u8>, kind: DBKind, name: Seq<u8>) -> Result<(Seq<StuckqueryView>, Seq<u8>), ErrorView>
    decreases t.len(),
{
    match line_spec(t) {
        None => Ok((seq![], t)),
        Some((line, rest)) => {
            proof {
                lemma_newline();
                lemma_take_until_shrinks(t, newline());
            }
            if !is_prefix(bytes_of("|"), line) {
                Ok((seq![], t))
            } else {
                match row_spec(line, kind, name) {
                    Err(e) => Err(e),
                    Ok(q) => match rows_spec(rest, kind, name) {
                        Err(e) => Err(e),
                        Ok((qs, r)) => Ok(
                            (
                                match q {
                                    Some(q) => seq![q] + qs,
                                    None => qs,
                                },
                                r,
                            ),
                        ),
                    },
                }
            }
        },
    }
}

/// What the parser yields from the text `text`, and the text left for the
/// tables after it.
pub open spec fn next_spec(text: Seq<u8>) -> (Option<Result<StuckqueryTableView, ErrorView>>, Seq<u8>) {
    if text.len() == 0 {
        (None, text)
    } else {
        match line_spec(skip_to_header(text)) {
            None => (None, text),
            Some((header, t2)) => match header_spec(header) {
                Err(e) => (Some(Err(e)), t2),
                Ok(timestamp) => {
                    let (lines, t4) = header_lines_spec(trim_start_bytes(t2), 5);
                    if lines.len() != 5 {
                        (Some(Err(ErrorView::InvalidTableHeader)), t4)
                    } else {
                        match kind_of_columns(column_names(lines[3])) {
                            None => (Some(Err(ErrorView::UnableToDetectTableKind)), t4),
                            Some(kind) => match table_name_spec(lines) {
                                None => (Some(Err(ErrorView::UnableToDetectTableKind)), t4),
                                Some(name) => match rows_spec(t4, kind, name) {
                                    Err(e) => (Some(Err(e)), t4),
                                    Ok((queries, t5)) => (Some(Ok(StuckqueryTableView { queries, timestamp })), t5),
                                },
                            },
                        }
                    }
                },
            },
        }
    }
}

impl<'a> StuckqueryParser<'a> {
    pub fn new(data: &'a str) -> (r: Self)
        ensures
            r@ == bytes_of(data),
    {
        Self(data, ParserState::Initial)
    }

    /// A parser over bytes, which must be valid UTF-8.
    pub fn try_from(value: &'a [u8]) -> (r: Result<Self, core::str::Utf8Error>)
        ensures
            r is Ok <==> vstd::utf8::valid_utf8(value@),
            r matches Ok(p) ==> p@ == value@,
    {
        let data = crate::parser::tokenizer::str_from_utf8(value)?;
        Ok(Self::new(data))
    }

    /// The time of a table header line.
    pub fn parse_header(header: &str) -> (r: Result<u64, Error>)
        ensures
            r matches Ok(v) ==> header_spec(bytes_of(header)) == Ok::<u64, ErrorView>(v),
            r matches Err(e) ==> header_spec(bytes_of(header)) == Err::<u64, ErrorView>(e@),
    {
        let mut htok = Tokenizer::new(header);
        let time = match htok.take_within("[", "]") {
            Ok(t) => t,
            Err(e) => return Err(Error::InvalidFormat(e)),
        };
        let date = match htok.take_within("[", "]") {
            Ok(d) => d,
            Err(e) => return Err(Error::InvalidFormat(e)),
        };
        match unix_timestamp_millis(time, date, STUCKQUERY_TIME_FORMAT, STUCKQUERY_DATE_FORMAT) {
            Ok(v) => Ok(v),
            Err(e) => Err(Error::TimestampParse(e)),
        }
    }

    /// The database of a table by the column names in the last header line
    /// but one.
    pub fn detect_kind(table_header_lines: &[&str]) -> (r: Option<DBKind>)
        requires
            table_header_lines@.len() >= 2,
        ensures
            r == kind_of_columns(column_names(bytes_of(table_header_lines@[table_header_lines@.len() - 2]))),
    {
        let line = table_header_lines[table_header_lines.len() - 2];
        let ghost all = column_names(bytes_of(line));
        let mut tok = Tokenizer::new(line);
        let mut has_pid = false;
        let mut has_session = false;
        let mut has_reads = false;
        let ghost mut seen: Seq<Seq<u8>> = seq![];
        loop
            invariant
                all == column_names(bytes_of(line)),
                all == seen + column_names(tok@),
                has_pid == seen.contains(bytes_of("pid")),
                has_session == seen.contains(bytes_of("Session ID")),
                has_reads == seen.contains(bytes_of("Logical Reads")),
            ensures
                all == seen,
            decreases tok@.len(),
        {
            proof {
                lemma_cell_step_shrinks(tok@);
            }
            let ghost before = tok@;
            let column = match tok.take_within_exclusive("|", "|") {
                Ok(c) => trim(c),
                Err(_) => {
                    assert(seen + column_names(tok@) =~= seen);
                    break;
                },
            };
            proof {
                assert(seen + column_names(before) =~= (seen + seq![bytes_of(column)]) + column_names(tok@));
                lemma_contains_push(seen, bytes_of(column), bytes_of("pid"));
                lemma_contains_push(seen, bytes_of(column), bytes_of("Session ID"));
                lemma_contains_push(seen, bytes_of(column), bytes_of("Logical Reads"));
                seen = seen + seq![bytes_of(column)];
            }
            if str_eq(column, "pid") {
                has_pid = true;
            }
            if str_eq(column, "Session ID") {
                has_session = true;
            }
            if str_eq(column, "Logical Reads") {
                has_reads = true;
            }
        }
        if has_pid {
            Some(DBKind::PGSQL)
        } else if has_session || has_reads {
            Some(DBKind::MSSQL)
        } else {
            None
        }
    }

    /// The name of a table: the text between the first two `|` of its
    /// second header line.
    pub fn extract_table_name<'s, 'b>(table_header_lines: &'b [&'s str]) -> (r: Option<&'s str>)
        ensures
            match table_name_spec(table_header_lines@.map_values(|l: &'s str| bytes_of(l))) {
                Some(n) => r matches Some(s) && bytes_of(s) == n,
                None => r is None,
            },
    {
        if table_header_lines.len() < 2 {
            return None;
        }
        let mut tok = Tokenizer::new(table_header_lines[1]);
        match tok.take_within("|", "|") {
            Ok(s) => Some(trim(s)),
            Err(_) => None,
        }
    }

    fn skip_header_lines(tok: &mut Tokenizer<'a>)
        ensures
            final(tok)@ == skip_to_header(old(tok)@),
    {
        let ghost start = tok@;
        loop
            invariant
                start == old(tok)@,
                skip_to_header(start) == skip_to_header(tok@),
            decreases tok@.len(),
        {
            let ghost before = tok@;
            proof {
                lemma_newline();
                lemma_take_until_shrinks(before, newline());
            }
            let line = match tok.peek_line() {
                Some(line) => line,
                None => return,
            };
            if !starts_with(trim_start(line), "[") || ends_with(trim_end(line), "::") {
                return;
            }
            let _ = tok.get_line();
        }
    }

    fn read_header_lines(tok: &mut Tokenizer<'a>) -> (r: Vec<&'a str>)
        ensures
            r@.map_values(|l: &'a str| bytes_of(l)) == header_lines_spec(old(tok)@, 5).0,
            final(tok)@ == header_lines_spec(old(tok)@, 5).1,
    {
        let mut lines: Vec<&'a str> = Vec::new();
        let mut count: usize = 0;
        let ghost start = tok@;
        while count != 5
            invariant
                start == old(tok)@,
                count <= 5,
                lines@.len() == count,
                header_lines_spec(start, 5) == ({
                    let (ls, r) = header_lines_spec(tok@, (5 - count) as nat);
                    (lines@.map_values(|l: &'a str| bytes_of(l)) + ls, r)
                }),
            ensures
                header_lines_spec(tok@, (5 - count) as nat) == (Seq::<Seq<u8>>::empty(), tok@),
            decreases 5 - count,
        {
            let line = match tok.peek_line() {
                Some(line) => line,
                None => break,
            };
            if !starts_with(line, "|") {
                break;
            }
            let ghost old_lines = lines@;
            lines.push(line);
            count += 1;
            let _ = tok.get_line();
            proof {
                let (ls, r) = header_lines_spec(tok@, (5 - count) as nat);
                assert(lines@.map_values(|l: &'a str| bytes_of(l)) =~= old_lines.map_values(|l: &'a str| bytes_of(l)) + seq![bytes_of(line)]);
                assert(old_lines.map_values(|l: &'a str| bytes_of(l)) + (seq![bytes_of(line)] + ls) =~= lines@.map_values(|l: &'a str| bytes_of(l)) + ls);
            }
        }
        proof {
            let (ls, r) = header_lines_spec(tok@, (5 - count) as nat);
            assert(lines@.map_values(|l: &'a str| bytes_of(l)) + seq![] =~= lines@.map_values(|l: &'a str| bytes_of(l)));
        }
        lines
    }

    fn read_rows(tok: &mut Tokenizer<'a>, kind: DBKind, name: &str) -> (r: Result<Vec<Stuckquery<'a>>, Error>)
        ensures
            match rows_spec(old(tok)@, kind, bytes_of(name)) {
                Ok((qs, rest)) => r matches Ok(v) && v@.map_values(|q: Stuckquery<'a>| q@) == qs && final(tok)@ == rest,
                Err(e) => r matches Err(e2) && e2@ == e,
            },
    {
        let mut queries: Vec<Stuckquery<'a>> = Vec::new();
        let ghost start = tok@;
        loop
            invariant
                start == old(tok)@,
                rows_spec(start, kind, bytes_of(name)) == match rows_spec(tok@, kind, bytes_of(name)) {
                    Ok((qs, r)) => Ok((queries@.map_values(|q: Stuckquery<'a>| q@) + qs, r)),
                    Err(e) => Err(e),
                },
            decreases tok@.len(),
        {
            let ghost before = tok@;
            proof {
                lemma_newline();
                lemma_take_until_shrinks(before, newline());
            }
            let line = match tok.peek_line() {
                Some(line) => line,
                None => {
                    assert(queries@.map_values(|q: Stuckquery<'a>| q@) + seq![] =~= queries@.map_values(|q: Stuckquery<'a>| q@));
                    return Ok(queries);
                },
            };
            if !starts_with(line, "|") {
                assert(queries@.map_values(|q: Stuckquery<'a>| q@) + seq![] =~= queries@.map_values(|q: Stuckquery<'a>| q@));
                return Ok(queries);
            }
            let query = match kind {
                DBKind::PGSQL => Some(Stuckquery::PGSQL(PGSQLQuery::parse(line)?)),
                DBKind::MSSQL => if str_eq(name, "Currently Running Queries") {
                    Some(Stuckquery::MSSQL(MSSQLQuery::Running(RunningQuery::parse(line)?)))
                } else if str_eq(name, "Currently Blocking Query Details") {
                    Some(Stuckquery::MSSQL(MSSQLQuery::Blocking(BlockingQuery::parse(line)?)))
                } else {
                    None
                },
            };
            let ghost old_queries = queries@;
            let _ = tok.get_line();
            match query {
                Some(q) => {
                    queries.push(q);
                    proof {
                        assert(queries@.map_values(|x: Stuckquery<'a>| x@) =~= old_queries.map_values(|x: Stuckquery<'a>| x@) + seq![q@]);
                        match rows_spec(tok@, kind, bytes_of(name)) {
                            Ok((qs, _)) => {
                                assert(old_queries.map_values(|x: Stuckquery<'a>| x@) + (seq![q@] + qs) =~= queries@.map_values(|x: Stuckquery<'a>| x@) + qs);
                            },
                            Err(_) => {},
                        }
                    }
                },
                None => {},
            }
        }
    }

    /// The next table, or `None` when no table header is left.
    pub fn next(&mut self) -> (r: Option<Result<StuckqueryTable<'a>, Error>>)
        ensures
            ({
                let (expected, rest) = next_spec(old(self)@);
                &&& match r {
                    None => expected is None,
                    Some(Ok(t)) => expected == Some(Ok::<StuckqueryTableView, ErrorView>(t@)),
                    Some(Err(e)) => expected == Some(Err::<StuckqueryTableView, ErrorView>(e@)),
                }
                &&& final(self)@ == rest
            }),
    {
        let mut tok = Tokenizer::new(self.0);
        if tok.is_empty() {
            return None;
        }
        self.1 = ParserState::Initial;
        Self::skip_header_lines(&mut tok);
        self.1 = ParserState::Header;
        let header = tok.get_line()?;
        let timestamp = match Self::parse_header(header) {
            Ok(x) => x,
            Err(e) => {
                self.0 = tok.rest();
                return Some(Err(e));
            },
        };
        tok.skip_whitespace();
        let table_header_lines = Self::read_header_lines(&mut tok);
        if table_header_lines.len() != 5 {
            self.0 = tok.remaining();
            return Some(Err(Error::InvalidTableHeader));
        }
        let table_kind = match Self::detect_kind(table_header_lines.as_slice()) {
            Some(k) => k,
            None => {
                self.0 = tok.remaining();
                return Some(Err(Error::UnableToDetectTableKind));
            },
        };
        let table_name = match Self::extract_table_name(table_header_lines.as_slice()) {
            Some(n) => n,
            None => {
                self.0 = tok.remaining();
                return Some(Err(Error::UnableToDetectTableKind));
            },
        };
        let after_header = tok.rest();
        let queries = match Self::read_rows(&mut tok, table_kind, table_name) {
            Ok(q) => q,
            Err(e) => {
                self.0 = after_header;
                return Some(Err(e));
            },
        };
        self.0 = tok.remaining();
        Some(Ok(StuckqueryTable { queries, timestamp }))
    }
}


proof fn lemma_skip_to_header_len(t: Seq<u8>)
    ensures
        skip_to_header(t).len() <= t.len(),
    decreases t.len(),
{
    lemma_newline();
    lemma_take_until_shrinks(t, newline());
    if let Some((_, rest)) = line_spec(t) {
        lemma_skip_to_header_len(rest);
    }
}

proof fn lemma_header_lines_len(t: Seq<u8>, n: nat)
    ensures
        header_lines_spec(t, n).1.len() <= t.len(),
    decreases n,
{
    lemma_newline();
    lemma_take_until_shrinks(t, newline());
    if n > 0 {
        if let Some((_, rest)) = line_spec(t) {
            lemma_header_lines_len(rest, (n - 1) as nat);
        }
    }
}

proof fn lemma_rows_len(t: Seq<u8>, kind: DBKind, name: Seq<u8>)
    ensures
        rows_spec(t, kind, name) matches Ok((_, r)) ==> r.len() <= t.len(),
    decreases t.len(),
{
    lemma_newline();
    lemma_take_until_shrinks(t, newline());
    if let Some((_, rest)) = line_spec(t) {
        lemma_rows_len(rest, kind, name);
    }
}

/// Each table read, or each error reported, leaves less text to read, so
/// reading the tables of a text one after the other comes to an end.
pub proof fn lemma_next_progress(text: Seq<u8>)
    ensures
        next_spec(text).0 is Some ==> next_spec(text).1.len() < text.len(),
{
    broadcast use crate::text::lemma_trim_start_shorter;

    let t1 = skip_to_header(text);
    lemma_skip_to_header_len(text);
    lemma_newline();
    lemma_take_until_shrinks(t1, newline());
    if let Some((_, t2)) = line_spec(t1) {
        let t3 = trim_start_bytes(t2);
        lemma_header_lines_len(t3, 5);
        let t4 = header_lines_spec(t3, 5).1;
        let lines = header_lines_spec(t3, 5).0;
        if lines.len() == 5 {
            if let Some(kind) = kind_of_columns(column_names(lines[3])) {
                if let Some(name) = table_name_spec(lines) {
                    lemma_rows_len(t4, kind, name);
                }
            }
        }
    }
}

} // verus!
