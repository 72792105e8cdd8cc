//! CPU and memory statistics logs: tables of processes with their CPU or
//! memory usage, as UNIX hosts (`ps`) and Windows hosts write them. Each
//! table has a header line with its time and date, three more lines, a line
//! of column names, a separator line, one line per process and a total line.
pub mod error;

use crate::number::{check_float, float_check_spec, parse_u64, parse_uint_spec};
use crate::parser::table::{
    cell_step, cells_rest, column_names, lemma_cell_step_shrinks, lemma_contains_push, missing_cell_error, next_cell,
    row_cell,
};
use crate::parser::tokenizer::{
    lemma_newline, lemma_take_until_shrinks, newline, take_until_spec, take_within_spec, to_string, Parser,
    Tokenizer,
};
use crate::parser::tokenizer;
use crate::text::{bytes_of, contains, find, is_prefix, starts_with, str_eq, trim, trim_bytes, trim_start, trim_start_bytes};
use crate::util::{unix_timestamp_millis, unix_timestamp_millis_spec};
use error::{Error, ErrorView};
use vstd::prelude::*;
use vstd::utf8::decode_utf8;

verus! {

broadcast use vstd::utf8::encode_utf8_valid_utf8, vstd::utf8::encode_utf8_decode_utf8;

/// Time of the table header, as in `14:30:10.237`.
pub const CPUMEMSTATS_TIME_FORMAT: &'static str = "[hour]:[minute]:[second].[subsecond]";

/// Date of the table header, as in `11-02-2026`.
pub const CPUMEMSTATS_DATE_FORMAT: &'static str = "[day]-[month]-[year]";

/// First cell of the total line of the Windows memory table.
pub const WINDOWS_MEMORY_PREAMBLE: &'static str = "Total Memory";

/// First cell of the total line of the Windows CPU table.
pub const WINDOWS_CPU_PREAMBLE: &'static str = "Total CPU";

/// Third cell of the total line of the UNIX table.
pub const LINUX_PREAMBLE: &'static str = "Total CPU Usage";

/// Reads statistics tables one after the other.
#[derive(Debug)]
pub struct CPUMemStatsParser<'a>(&'a str, ParserState);

#[derive(Debug)]
enum ParserState {
    Initial,
    Timestamp,
    WindowsCPUHeader,
    WindowsCPUStat,
    WindowsCPUTotal,
    WindowsMemoryHeader,
    WindowsMemoryStat,
    WindowsMemoryTotal,
    UNIXHeader,
    UNIXStat,
    UNIXTotal,
}

impl<'a> View for CPUMemStatsParser<'a> {
    type V = Seq<u8>;

    /// The text that is still to be read.
    closed spec fn view(&self) -> Seq<u8> {
        bytes_of(self.0)
    }
}

/// The kinds of statistics tables.
#[derive(Debug, Clone, Copy, PartialEq, Eq, Structural)]
pub enum StatTableKind {
    UNIX,
    WCPU,
    WMEM,
}

/// The bytes of an optional text.
pub open spec fn opt_bytes(o: Option<&str>) -> Option<Seq<u8>> {
    match o {
        Some(s) => Some(bytes_of(s)),
        None => None,
    }
}

/// The error for a line with fewer cells than are read from it.
pub open spec fn missing_cell() -> ErrorView {
    ErrorView::InvalidFormat(missing_cell_error())
}

/// A process id column.
pub open spec fn int_cell(t: Seq<u8>, i: nat) -> Result<u64, ErrorView> {
    match row_cell(t, i) {
        None => Err(missing_cell()),
        Some(c) => match parse_uint_spec(c, u64::MAX as int) {
            Err(e) => Err(ErrorView::ParsePID(e)),
            Ok(v) => Ok(v as u64),
        },
    }
}

/// A usage column, written as a floating-point literal.
pub open spec fn float_cell(t: Seq<u8>, i: nat) -> Result<Seq<u8>, ErrorView> {
    match row_cell(t, i) {
        None => Err(missing_cell()),
        Some(c) => match float_check_spec(c) {
            Err(e) => Err(ErrorView::ParseUsage(e)),
            Ok(_) => Ok(c),
        },
    }
}

/// A text column.
pub open spec fn text_cell(t: Seq<u8>, i: nat) -> Result<Seq<u8>, ErrorView> {
    match row_cell(t, i) {
        None => Err(missing_cell()),
        Some(c) => Ok(c),
    }
}

/// A text column that may be empty.
pub open spec fn opt_text_cell(t: Seq<u8>, i: nat) -> Result<Option<Seq<u8>>, ErrorView> {
    match row_cell(t, i) {
        None => Err(missing_cell()),
        Some(c) => Ok(
            if c.len() == 0 {
                None
            } else {
                Some(c)
            },
        ),
    }
}

fn stat_cell<'a>(tok: &mut Tokenizer<'a>, row: Ghost<Seq<u8>>, i: Ghost<nat>) -> (r: Result<&'a str, Error>)
    requires
        old(tok)@ == cells_rest(row@, i@),
    ensures
        match row_cell(row@, i@) {
            Some(c) => r matches Ok(s) && bytes_of(s) == c && final(tok)@ == cells_rest(row@, i@ + 1),
            None => r matches Err(e) && e@ == missing_cell(),
        },
{
    match next_cell(tok, row, i) {
        Ok(c) => Ok(c),
        Err(e) => Err(Error::InvalidFormat(e)),
    }
}

/// The total line of a Windows table: `preamble` in the first cell and the
/// total in the second.
pub open spec fn windows_total_spec(t: Seq<u8>, preamble: Seq<u8>) -> Result<Seq<u8>, ErrorView> {
    match row_cell(t, 0) {
        None => Err(missing_cell()),
        Some(p) => if p != preamble {
            Err(ErrorView::InvalidPreamble(preamble, p))
        } else {
            float_cell(t, 1)
        },
    }
}

/// The total line of the UNIX table: two cells, the preamble, then the total
/// CPU usage and the total memory usage.
pub open spec fn linux_total_spec(t: Seq<u8>) -> Result<(Seq<u8>, Seq<u8>), ErrorView> {
    if row_cell(t, 0) is None || row_cell(t, 1) is None {
        Err(missing_cell())
    } else {
        match row_cell(t, 2) {
            None => Err(missing_cell()),
            Some(p) => if p != bytes_of(LINUX_PREAMBLE) {
                Err(ErrorView::InvalidPreamble(bytes_of(LINUX_PREAMBLE), p))
            } else {
                let cpu = float_cell(t, 3);
                let mem = float_cell(t, 4);
                if cpu is Err {
                    Err(cpu->Err_0)
                } else if mem is Err {
                    Err(mem->Err_0)
                } else {
                    Ok((cpu->Ok_0, mem->Ok_0))
                }
            },
        }
    }
}

fn windows_total<'b>(data: &'b str, preamble: &str) -> (r: Result<&'b str, Error>)
    ensures
        r matches Ok(v) ==> windows_total_spec(bytes_of(data), bytes_of(preamble)) == Ok::<Seq<u8>, ErrorView>(bytes_of(v)),
        r matches Err(e) ==> windows_total_spec(bytes_of(data), bytes_of(preamble)) == Err::<Seq<u8>, ErrorView>(e@),
{
    let ghost row = bytes_of(data);
    let mut tok = Tokenizer::new(data);
    let p = stat_cell(&mut tok, Ghost(row), Ghost(0nat))?;
    if !str_eq(p, preamble) {
        return Err(Error::InvalidPreamble(to_string(preamble), to_string(p)));
    }
    let total = stat_cell(&mut tok, Ghost(row), Ghost(1nat))?;
    match check_float(total) {
        Ok(()) => Ok(total),
        Err(e) => Err(Error::ParseUsage(e)),
    }
}

/// A process line of the Windows memory table.
#[derive(Debug)]
pub struct WindowsMemoryStat<'a> {
    pub name: &'a str,
    pub pid: u64,
    /// A percentage or megabytes, as the decimal text of the column.
    pub mem: &'a str,
    pub path: Option<&'a str>,
}

/// A process line with its texts given by their bytes.
pub struct WindowsMemoryStatView {
    pub name: Seq<u8>,
    pub pid: u64,
    pub mem: Seq<u8>,
    pub path: Option<Seq<u8>>,
}

impl<'a> View for WindowsMemoryStat<'a> {
    type V = WindowsMemoryStatView;

    open spec fn view(&self) -> WindowsMemoryStatView {
        WindowsMemoryStatView {
            name: bytes_of(self.name),
            pid: self.pid,
            mem: bytes_of(self.mem),
            path: opt_bytes(self.path),
        }
    }
}

/// What a process line gives: the columns are read in order and the first
/// one that cannot be read gives the error.
#[verifier::opaque]
pub open spec fn wmem_row_spec(t: Seq<u8>) -> Result<WindowsMemoryStatView, ErrorView> {
    let name = text_cell(t, 0);
    let pid = int_cell(t, 1);
    let mem = float_cell(t, 2);
    let path = opt_text_cell(t, 3);
    if name is Err {
        Err(name->Err_0)
    } else if pid is Err {
        Err(pid->Err_0)
    } else if mem is Err {
        Err(mem->Err_0)
    } else if path is Err {
        Err(path->Err_0)
    } else {
        Ok(
            WindowsMemoryStatView {
                name: name->Ok_0,
                pid: pid->Ok_0,
                mem: mem->Ok_0,
                path: path->Ok_0,
            },
        )
    }
}

impl<'a> Parser<'a> for WindowsMemoryStat<'a> {
    type Error = Error;

    fn parse(data: &'a str) -> (r: Result<Self, Self::Error>)
        ensures
            r matches Ok(s) ==> wmem_row_spec(bytes_of(data)) == Ok::<WindowsMemoryStatView, ErrorView>(s@),
            r matches Err(e) ==> wmem_row_spec(bytes_of(data)) == Err::<WindowsMemoryStatView, ErrorView>(e@),
    {
        proof {
            reveal(wmem_row_spec);
        }
        let ghost row = bytes_of(data);
        let mut tok = Tokenizer::new(data);
        let c = stat_cell(&mut tok, Ghost(row), Ghost(0nat))?;
        let name = c;
        let c = stat_cell(&mut tok, Ghost(row), Ghost(1nat))?;
        let pid = match parse_u64(c) {
            Ok(v) => v,
            Err(e) => return Err(Error::ParsePID(e)),
        };
        let c = stat_cell(&mut tok, Ghost(row), Ghost(2nat))?;
        if let Err(e) = check_float(c) {
            return Err(Error::ParseUsage(e));
        }
        let mem = c;
        let c = stat_cell(&mut tok, Ghost(row), Ghost(3nat))?;
        let path = if c.as_bytes().len() == 0 {
            None
        } else {
            Some(c)
        };
        Ok(WindowsMemoryStat { name, pid, mem, path })
    }
}

/// A process line of the Windows CPU table.
#[derive(Debug)]
pub struct WindowsCPUStat<'a> {
    pub name: &'a str,
    pub pid: u64,
    /// A percentage or megabytes, as the decimal text of the column.
    pub cpu: &'a str,
    pub path: Option<&'a str>,
}

/// A process line with its texts given by their bytes.
pub struct WindowsCPUStatView {
    pub name: Seq<u8>,
    pub pid: u64,
    pub cpu: Seq<u8>,
    pub path: Option<Seq<u8>>,
}

impl<'a> View for WindowsCPUStat<'a> {
    type V = WindowsCPUStatView;

    open spec fn view(&self) -> WindowsCPUStatView {
        WindowsCPUStatView {
            name: bytes_of(self.name),
            pid: self.pid,
            cpu: bytes_of(self.cpu),
            path: opt_bytes(self.path),
        }
    }
}

/// What a process line gives: the columns are read in order and the first
/// one that cannot be read gives the error.
#[verifier::opaque]
pub open spec fn wcpu_row_spec(t: Seq<u8>) -> Result<WindowsCPUStatView, ErrorView> {
    let name = text_cell(t, 0);
    let pid = int_cell(t, 1);
    let cpu = float_cell(t, 2);
    let path = opt_text_cell(t, 3);
    if name is Err {
        Err(name->Err_0)
    } else if pid is Err {
        Err(pid->Err_0)
    } else if cpu is Err {
        Err(cpu->Err_0)
    } else if path is Err {
        Err(path->Err_0)
    } else {
        Ok(
            WindowsCPUStatView {
                name: name->Ok_0,
                pid: pid->Ok_0,
                cpu: cpu->Ok_0,
                path: path->Ok_0,
            },
        )
    }
}

impl<'a> Parser<'a> for WindowsCPUStat<'a> {
    type Error = Error;

    fn parse(data: &'a str) -> (r: Result<Self, Self::Error>)
        ensures
            r matches Ok(s) ==> wcpu_row_spec(bytes_of(data)) == Ok::<WindowsCPUStatView, ErrorView>(s@),
            r matches Err(e) ==> wcpu_row_spec(bytes_of(data)) == Err::<WindowsCPUStatView, ErrorView>(e@),
    {
        proof {
            reveal(wcpu_row_spec);
        }
        let ghost row = bytes_of(data);
        let mut tok = Tokenizer::new(data);
        let c = stat_cell(&mut tok, Ghost(row), Ghost(0nat))?;
        let name = c;
        let c = stat_cell(&mut tok, Ghost(row), Ghost(1nat))?;
        let pid = match parse_u64(c) {
            Ok(v) => v,
            Err(e) => return Err(Error::ParsePID(e)),
        };
        let c = stat_cell(&mut tok, Ghost(row), Ghost(2nat))?;
        if let Err(e) = check_float(c) {
            return Err(Error::ParseUsage(e));
        }
        let cpu = c;
        let c = stat_cell(&mut tok, Ghost(row), Ghost(3nat))?;
        let path = if c.as_bytes().len() == 0 {
            None
        } else {
            Some(c)
        };
        Ok(WindowsCPUStat { name, pid, cpu, path })
    }
}

/// A process line of the UNIX table.
#[derive(Debug)]
pub struct LinuxStat<'a> {
    pub user: &'a str,
    pub pid: u64,
    pub name: &'a str,
    /// A percentage or megabytes, as the decimal text of the column.
    pub cpu: &'a str,
    /// A percentage or megabytes, as the decimal text of the column.
    pub mem: &'a str,
    pub path: &'a str,
}

/// A process line with its texts given by their bytes.
pub struct LinuxStatView {
    pub user: Seq<u8>,
    pub pid: u64,
    pub name: Seq<u8>,
    pub cpu: Seq<u8>,
    pub mem: Seq<u8>,
    pub path: Seq<u8>,
}

impl<'a> View for LinuxStat<'a> {
    type V = LinuxStatView;

    open spec fn view(&self) -> LinuxStatView {
        LinuxStatView {
            user: bytes_of(self.user),
            pid: self.pid,
            name: bytes_of(self.name),
            cpu: bytes_of(self.cpu),
            mem: bytes_of(self.mem),
            path: bytes_of(self.path),
        }
    }
}

/// What a process line gives: the columns are read in order and the first
/// one that cannot be read gives the error.
#[verifier::opaque]
pub open spec fn linux_row_spec(t: Seq<u8>) -> Result<LinuxStatView, ErrorView> {
    let user = text_cell(t, 0);
    let pid = int_cell(t, 1);
    let name = text_cell(t, 2);
    let cpu = float_cell(t, 3);
    let mem = float_cell(t, 4);
    let path = text_cell(t, 5);
    if user is Err {
        Err(user->Err_0)
    } else if pid is Err {
        Err(pid->Err_0)
    } else if name is Err {
        Err(name->Err_0)
    } else if cpu is Err {
        Err(cpu->Err_0)
    } else if mem is Err {
        Err(mem->Err_0)
    } else if path is Err {
        Err(path->Err_0)
    } else {
        Ok(
            LinuxStatView {
                user: user->Ok_0,
                pid: pid->Ok_0,
                name: name->Ok_0,
                cpu: cpu->Ok_0,
                mem: mem->Ok_0,
                path: path->Ok_0,
            },
        )
    }
}

impl<'a> Parser<'a> for LinuxStat<'a> {
    type Error = Error;

    fn parse(data: &'a str) -> (r: Result<Self, Self::Error>)
        ensures
            r matches Ok(s) ==> linux_row_spec(bytes_of(data)) == Ok::<LinuxStatView, ErrorView>(s@),
            r matches Err(e) ==> linux_row_spec(bytes_of(data)) == Err::<LinuxStatView, ErrorView>(e@),
    {
        proof {
            reveal(linux_row_spec);
        }
        let ghost row = bytes_of(data);
        let mut tok = Tokenizer::new(data);
        let c = stat_cell(&mut tok, Ghost(row), Ghost(0nat))?;
        let user = c;
        let c = stat_cell(&mut tok, Ghost(row), Ghost(1nat))?;
        let pid = match parse_u64(c) {
            Ok(v) => v,
            Err(e) => return Err(Error::ParsePID(e)),
        };
        let c = stat_cell(&mut tok, Ghost(row), Ghost(2nat))?;
        let name = c;
        let c = stat_cell(&mut tok, Ghost(row), Ghost(3nat))?;
        if let Err(e) = check_float(c) {
            return Err(Error::ParseUsage(e));
        }
        let cpu = c;
        let c = stat_cell(&mut tok, Ghost(row), Ghost(4nat))?;
        if let Err(e) = check_float(c) {
            return Err(Error::ParseUsage(e));
        }
        let mem = c;
        let c = stat_cell(&mut tok, Ghost(row), Ghost(5nat))?;
        let path = c;
        Ok(LinuxStat { user, pid, name, cpu, mem, path })
    }
}

impl WindowsMemoryStat<'_> {
    /// The total line: `Total Memory` and the total in megabytes.
    pub fn parse_total<'b>(data: &'b str) -> (r: Result<&'b str, Error>)
        ensures
            r matches Ok(v) ==> windows_total_spec(bytes_of(data), bytes_of(WINDOWS_MEMORY_PREAMBLE)) == Ok::<Seq<u8>, ErrorView>(bytes_of(v)),
            r matches Err(e) ==> windows_total_spec(bytes_of(data), bytes_of(WINDOWS_MEMORY_PREAMBLE)) == Err::<Seq<u8>, ErrorView>(e@),
    {
        windows_total(data, WINDOWS_MEMORY_PREAMBLE)
    }
}

impl WindowsCPUStat<'_> {
    /// The total line: `Total CPU` and the total usage.
    pub fn parse_total<'b>(data: &'b str) -> (r: Result<&'b str, Error>)
        ensures
            r matches Ok(v) ==> windows_total_spec(bytes_of(data), bytes_of(WINDOWS_CPU_PREAMBLE)) == Ok::<Seq<u8>, ErrorView>(bytes_of(v)),
            r matches Err(e) ==> windows_total_spec(bytes_of(data), bytes_of(WINDOWS_CPU_PREAMBLE)) == Err::<Seq<u8>, ErrorView>(e@),
    {
        windows_total(data, WINDOWS_CPU_PREAMBLE)
    }
}

impl LinuxStat<'_> {
    /// The total line: two cells, `Total CPU Usage`, the total CPU usage and
    /// the total memory usage.
    pub fn parse_total<'b>(data: &'b str) -> (r: Result<(&'b str, &'b str), Error>)
        ensures
            r matches Ok((c, m)) ==> linux_total_spec(bytes_of(data)) == Ok::<(Seq<u8>, Seq<u8>), ErrorView>((bytes_of(c), bytes_of(m))),
            r matches Err(e) ==> linux_total_spec(bytes_of(data)) == Err::<(Seq<u8>, Seq<u8>), ErrorView>(e@),
    {
        let ghost row = bytes_of(data);
        let mut tok = Tokenizer::new(data);
        let _ = stat_cell(&mut tok, Ghost(row), Ghost(0nat))?;
        let _ = stat_cell(&mut tok, Ghost(row), Ghost(1nat))?;
        let preamble = stat_cell(&mut tok, Ghost(row), Ghost(2nat))?;
        if !str_eq(preamble, LINUX_PREAMBLE) {
            return Err(Error::InvalidPreamble(to_string(LINUX_PREAMBLE), to_string(preamble)));
        }
        let cpu = stat_cell(&mut tok, Ghost(row), Ghost(3nat))?;
        if let Err(e) = check_float(cpu) {
            return Err(Error::ParseUsage(e));
        }
        let mem = stat_cell(&mut tok, Ghost(row), Ghost(4nat))?;
        if let Err(e) = check_float(mem) {
            return Err(Error::ParseUsage(e));
        }
        Ok((cpu, mem))
    }
}

/// A UNIX table: the processes, the time of the table in Unix milliseconds
/// (0 when the header's time and date give none), and the totals.
#[derive(Debug)]
pub struct LinuxStatTable<'a> {
    pub stats: Vec<LinuxStat<'a>>,
    pub timestamp: u64,
    /// The total CPU usage, as the decimal text of the total line.
    pub cpu: &'a str,
    /// The total memory usage, as the decimal text of the total line.
    pub mem: &'a str,
}

/// A Windows CPU table.
#[derive(Debug)]
pub struct WindowsCPUTable<'a> {
    pub stats: Vec<WindowsCPUStat<'a>>,
    pub timestamp: u64,
    /// The total CPU usage, as the decimal text of the total line.
    pub total: &'a str,
}

/// A Windows memory table.
#[derive(Debug)]
pub struct WindowsMemoryTable<'a> {
    pub stats: Vec<WindowsMemoryStat<'a>>,
    /// The total memory in megabytes, as the decimal text of the total line.
    pub total: &'a str,
    pub timestamp: u64,
}

#[derive(Debug)]
pub enum StatTable<'a> {
    UNIX(LinuxStatTable<'a>),
    WCPU(WindowsCPUTable<'a>),
    WMEM(WindowsMemoryTable<'a>),
}

/// A table with its texts given by their bytes.
#[allow(inconsistent_fields)]
pub enum StatTableView {
    UNIX { stats: Seq<LinuxStatView>, timestamp: u64, cpu: Seq<u8>, mem: Seq<u8> },
    WCPU { stats: Seq<WindowsCPUStatView>, timestamp: u64, total: Seq<u8> },
    WMEM { stats: Seq<WindowsMemoryStatView>, timestamp: u64, total: Seq<u8> },
}

impl<'a> View for StatTable<'a> {
    type V = StatTableView;

    open spec fn view(&self) -> StatTableView {
        match self {
            StatTable::UNIX(t) => StatTableView::UNIX {
                stats: t.stats@.map_values(|s: LinuxStat<'a>| s@),
                timestamp: t.timestamp,
                cpu: bytes_of(t.cpu),
                mem: bytes_of(t.mem),
            },
            StatTable::WCPU(t) => StatTableView::WCPU {
                stats: t.stats@.map_values(|s: WindowsCPUStat<'a>| s@),
                timestamp: t.timestamp,
                total: bytes_of(t.total),
            },
            StatTable::WMEM(t) => StatTableView::WMEM {
                stats: t.stats@.map_values(|s: WindowsMemoryStat<'a>| s@),
                timestamp: t.timestamp,
                total: bytes_of(t.total),
            },
        }
    }
}

/// The items of `s` with every repetition left out; each stays where it
/// first occurs.
pub open spec fn dedup(s: Seq<Seq<u8>>) -> Seq<Seq<u8>>
    decreases s.len(),
{
    if s.len() == 0 {
        seq![]
    } else {
        let d = dedup(s.drop_last());
        if d.contains(s.last()) {
            d
        } else {
            d.push(s.last())
        }
    }
}

/// Leaving out repetitions keeps every item.
pub proof fn lemma_dedup_contains(s: Seq<Seq<u8>>, x: Seq<u8>)
    ensures
        dedup(s).contains(x) == s.contains(x),
    decreases s.len(),
{
    if s.len() > 0 {
        lemma_dedup_contains(s.drop_last(), x);
        assert(s =~= s.drop_last() + seq![s.last()]);
        lemma_contains_push(s.drop_last(), s.last(), x);
        let d = dedup(s.drop_last());
        if !d.contains(s.last()) {
            assert(d.push(s.last()) =~= d + seq![s.last()]);
            lemma_contains_push(d, s.last(), x);
        }
    }
}

/// Leaving out repetitions leaves no item twice.
pub proof fn lemma_dedup_distinct(s: Seq<Seq<u8>>)
    ensures
        forall|i: int, j: int| 0 <= i < j < dedup(s).len() ==> dedup(s)[i] != dedup(s)[j],
    decreases s.len(),
{
    if s.len() > 0 {
        lemma_dedup_distinct(s.drop_last());
        let d = dedup(s.drop_last());
        if !d.contains(s.last()) {
            assert forall|i: int, j: int| 0 <= i < j < d.push(s.last()).len() implies d.push(s.last())[i] != d.push(s.last())[j] by {
                if j == d.len() {
                    if d[i] == s.last() {
                        assert(d.contains(s.last()));
                    }
                }
            }
        }
    }
}

fn contains_str(v: &Vec<&str>, s: &str) -> (r: bool)
    ensures
        r == v@.map_values(|c: &str| bytes_of(c)).contains(bytes_of(s)),
{
    let mut i: usize = 0;
    while i < v.len()
        invariant
            i <= v@.len(),
            forall|j: int| 0 <= j < i ==> bytes_of(#[trigger] v@[j]) != bytes_of(s),
        decreases v@.len() - i,
    {
        if str_eq(v[i], s) {
            assert(v@.map_values(|c: &str| bytes_of(c))[i as int] == bytes_of(s));
            return true;
        }
        i += 1;
    }
    proof {
        let m = v@.map_values(|c: &str| bytes_of(c));
        if m.contains(bytes_of(s)) {
            let j = choose|j: int| 0 <= j < m.len() && #[trigger] m[j] == bytes_of(s);
            assert(bytes_of(v@[j]) == bytes_of(s));
        }
    }
    false
}

/// The kind of a table by its column names.
pub open spec fn table_kind_of(columns: Seq<Seq<u8>>) -> Option<StatTableKind> {
    if columns.contains(bytes_of("User")) && columns.contains(bytes_of("PID")) {
        Some(StatTableKind::UNIX)
    } else if columns.contains(bytes_of("CPU Usage (%)")) && columns.contains(bytes_of("Process ID")) {
        Some(StatTableKind::WCPU)
    } else if columns.contains(bytes_of("Memory (MB)")) && columns.contains(bytes_of("Process ID")) {
        Some(StatTableKind::WMEM)
    } else {
        None
    }
}

/// The kind of a table is fixed by the documented columns of its header: `User`
/// and `PID` for `ps` on UNIX, `CPU Usage (%)` and `Process ID` for Windows
/// CPU, and `Memory (MB)` and `Process ID` for Windows memory, checked in that
/// order; a header with none of these column pairs has no kind.
pub proof fn lemma_table_kind_columns(columns: Seq<Seq<u8>>)
    ensures
        columns.contains(bytes_of("User")) && columns.contains(bytes_of("PID"))
            ==> table_kind_of(columns) == Some(StatTableKind::UNIX),
        !(columns.contains(bytes_of("User")) && columns.contains(bytes_of("PID")))
            && columns.contains(bytes_of("CPU Usage (%)")) && columns.contains(bytes_of("Process ID"))
            ==> table_kind_of(columns) == Some(StatTableKind::WCPU),
        !(columns.contains(bytes_of("User")) && columns.contains(bytes_of("PID")))
            && !(columns.contains(bytes_of("CPU Usage (%)")) && columns.contains(bytes_of("Process ID")))
            && columns.contains(bytes_of("Memory (MB)")) && columns.contains(bytes_of("Process ID"))
            ==> table_kind_of(columns) == Some(StatTableKind::WMEM),
        table_kind_of(columns) is None <==> {
            &&& !(columns.contains(bytes_of("User")) && columns.contains(bytes_of("PID")))
            &&& !(columns.contains(bytes_of("CPU Usage (%)")) && columns.contains(bytes_of("Process ID")))
            &&& !(columns.contains(bytes_of("Memory (MB)")) && columns.contains(bytes_of("Process ID")))
        },
{
}

/// The next line of `t` and the text after it.
pub open spec fn line_spec(t: Seq<u8>) -> Option<(Seq<u8>, Seq<u8>)> {
    take_until_spec(t, newline())
}

/// Looks for the table header: a line starting with `[` whose next line
/// starts with `|` after leading whitespace. Gives the header and the text
/// after it.
pub open spec fn table_header_search(t: Seq<u8>) -> Option<(Seq<u8>, Seq<u8>)>
    decreases t.len(),
{
    match line_spec(t) {
        None => None,
        Some((line, rest)) => {
            proof {
                lemma_newline();
                lemma_take_until_shrinks(t, newline());
            }
            if is_prefix(bytes_of("["), line) && match line_spec(rest) {
                Some((next, _)) => is_prefix(bytes_of("|"), trim_start_bytes(next)),
                None => false,
            } {
                Some((line, rest))
            } else {
                table_header_search(rest)
            }
        },
    }
}

/// The time of a table header `[time] [date] ...` in Unix milliseconds, or
/// 0 when the time and date give none.
pub open spec fn header_timestamp(time: Seq<u8>, date: Seq<u8>) -> u64 {
    match unix_timestamp_millis_spec(
        decode_utf8(time),
        decode_utf8(date),
        CPUMEMSTATS_TIME_FORMAT@,
        CPUMEMSTATS_DATE_FORMAT@,
    ) {
        Some(Ok(v)) => v,
        _ => 0,
    }
}

/// The process lines of a UNIX table, up to the total line (the first line
/// that holds the total's preamble), which is not read. `None` when a line
/// that does not start with `|` or the end of the text comes first.
pub open spec fn linux_rows_spec(t: Seq<u8>) -> Result<Option<(Seq<LinuxStatView>, Seq<u8>)>, ErrorView>
    decreases t.len(),
{
    match line_spec(t) {
        None => Ok(None),
        Some((line, rest)) => {
            proof {
                lemma_newline();
                lemma_take_until_shrinks(t, newline());
            }
            if !(is_prefix(bytes_of("|"), line)) {
                Ok(None)
            } else if find(line, bytes_of(LINUX_PREAMBLE)) is Some {
                Ok(Some((seq![], t)))
            } else {
                match linux_row_spec(line) {
                    Err(e) => Err(e),
                    Ok(s) => match linux_rows_spec(rest) {
                        Err(e) => Err(e),
                        Ok(None) => Ok(None),
                        Ok(Some((ss, r))) => Ok(Some((seq![s] + ss, r))),
                    },
                }
            }
        },
    }
}

fn read_linux_rows<'a>(tok: &mut Tokenizer<'a>) -> (r: Result<Option<Vec<LinuxStat<'a>>>, Error>)
    ensures
        match linux_rows_spec(old(tok)@) {
            Ok(Some((ss, rest))) => r matches Ok(Some(v)) && v@.map_values(|s: LinuxStat<'a>| s@) == ss && final(tok)@ == rest,
            Ok(None) => r matches Ok(None),
            Err(e) => r matches Err(e2) && e2@ == e,
        },
{
    let mut stats: Vec<LinuxStat<'a>> = Vec::new();
    let ghost start = tok@;
    loop
        invariant
            start == old(tok)@,
            linux_rows_spec(start) == match linux_rows_spec(tok@) {
                Ok(Some((ss, r))) => Ok(Some((stats@.map_values(|s: LinuxStat<'a>| s@) + ss, r))),
                other => other,
            },
        decreases tok@.len(),
    {
        let ghost before = tok@;
        proof {
            lemma_newline();
            lemma_take_until_shrinks(before, newline());
        }
        let line = match tok.peek_line() {
            Some(line) => line,
            None => return Ok(None),
        };
        if !starts_with(line, "|") {
            return Ok(None);
        }
        if contains(line, LINUX_PREAMBLE) {
            assert(stats@.map_values(|s: LinuxStat<'a>| s@) + seq![] =~= stats@.map_values(|s: LinuxStat<'a>| s@));
            return Ok(Some(stats));
        }
        let stat = LinuxStat::parse(line)?;
        let ghost old_stats = stats@;
        stats.push(stat);
        let _ = tok.get_line();
        proof {
            assert(stats@.map_values(|s: LinuxStat<'a>| s@) =~= old_stats.map_values(|s: LinuxStat<'a>| s@) + seq![stat@]);
            match linux_rows_spec(tok@) {
                Ok(Some((ss, _))) => {
                    assert(old_stats.map_values(|s: LinuxStat<'a>| s@) + (seq![stat@] + ss) =~= stats@.map_values(|s: LinuxStat<'a>| s@) + ss);
                },
                _ => {},
            }
        }
    }
}

/// The process lines of a WCPU table, up to the total line (the first line
/// that holds the total's preamble), which is not read. `None` when a line
/// that does not start with `|` or the end of the text comes first.
pub open spec fn wcpu_rows_spec(t: Seq<u8>) -> Result<Option<(Seq<WindowsCPUStatView>, Seq<u8>)>, ErrorView>
    decreases t.len(),
{
    match line_spec(t) {
        None => Ok(None),
        Some((line, rest)) => {
            proof {
                lemma_newline();
                lemma_take_until_shrinks(t, newline());
            }
            if !(is_prefix(bytes_of("|"), trim_bytes(line))) {
                Ok(None)
            } else if find(line, bytes_of(WINDOWS_CPU_PREAMBLE)) is Some {
                Ok(Some((seq![], t)))
            } else {
                match wcpu_row_spec(line) {
                    Err(e) => Err(e),
                    Ok(s) => match wcpu_rows_spec(rest) {
                        Err(e) => Err(e),
                        Ok(None) => Ok(None),
                        Ok(Some((ss, r))) => Ok(Some((seq![s] + ss, r))),
                    },
                }
            }
        },
    }
}

fn read_wcpu_rows<'a>(tok: &mut Tokenizer<'a>) -> (r: Result<Option<Vec<WindowsCPUStat<'a>>>, Error>)
    ensures
        match wcpu_rows_spec(old(tok)@) {
            Ok(Some((ss, rest))) => r matches Ok(Some(v)) && v@.map_values(|s: WindowsCPUStat<'a>| s@) == ss && final(tok)@ == rest,
            Ok(None) => r matches Ok(None),
            Err(e) => r matches Err(e2) && e2@ == e,
        },
{
    let mut stats: Vec<WindowsCPUStat<'a>> = Vec::new();
    let ghost start = tok@;
    loop
        invariant
            start == old(tok)@,
            wcpu_rows_spec(start) == match wcpu_rows_spec(tok@) {
                Ok(Some((ss, r))) => Ok(Some((stats@.map_values(|s: WindowsCPUStat<'a>| s@) + ss, r))),
                other => other,
            },
        decreases tok@.len(),
    {
        let ghost before = tok@;
        proof {
            lemma_newline();
            lemma_take_until_shrinks(before, newline());
        }
        let line = match tok.peek_line() {
            Some(line) => line,
            None => return Ok(None),
        };
        if !starts_with(trim(line), "|") {
            return Ok(None);
        }
        if contains(line, WINDOWS_CPU_PREAMBLE) {
            assert(stats@.map_values(|s: WindowsCPUStat<'a>| s@) + seq![] =~= stats@.map_values(|s: WindowsCPUStat<'a>| s@));
            return Ok(Some(stats));
        }
        let stat = WindowsCPUStat::parse(line)?;
        let ghost old_stats = stats@;
        stats.push(stat);
        let _ = tok.get_line();
        proof {
            assert(stats@.map_values(|s: WindowsCPUStat<'a>| s@) =~= old_stats.map_values(|s: WindowsCPUStat<'a>| s@) + seq![stat@]);
            match wcpu_rows_spec(tok@) {
                Ok(Some((ss, _))) => {
                    assert(old_stats.map_values(|s: WindowsCPUStat<'a>| s@) + (seq![stat@] + ss) =~= stats@.map_values(|s: WindowsCPUStat<'a>| s@) + ss);
                },
                _ => {},
            }
        }
    }
}

/// The process lines of a WMEM table, up to the total line (the first line
/// that holds the total's preamble), which is not read. `None` when a line
/// that does not start with `|` or the end of the text comes first.
pub open spec fn wmem_rows_spec(t: Seq<u8>) -> Result<Option<(Seq<WindowsMemoryStatView>, Seq<u8>)>, ErrorView>
    decreases t.len(),
{
    match line_spec(t) {
        None => Ok(None),
        Some((line, rest)) => {
            proof {
                lemma_newline();
                lemma_take_until_shrinks(t, newline());
            }
            if !(is_prefix(bytes_of("|"), trim_bytes(line))) {
                Ok(None)
            } else if find(line, bytes_of(WINDOWS_MEMORY_PREAMBLE)) is Some {
                Ok(Some((seq![], t)))
            } else {
                match wmem_row_spec(line) {
                    Err(e) => Err(e),
                    Ok(s) => match wmem_rows_spec(rest) {
                        Err(e) => Err(e),
                        Ok(None) => Ok(None),
                        Ok(Some((ss, r))) => Ok(Some((seq![s] + ss, r))),
                    },
                }
            }
        },
    }
}

fn read_wmem_rows<'a>(tok: &mut Tokenizer<'a>) -> (r: Result<Option<Vec<WindowsMemoryStat<'a>>>, Error>)
    ensures
        match wmem_rows_spec(old(tok)@) {
            Ok(Some((ss, rest))) => r matches Ok(Some(v)) && v@.map_values(|s: WindowsMemoryStat<'a>| s@) == ss && final(tok)@ == rest,
            Ok(None) => r matches Ok(None),
            Err(e) => r matches Err(e2) && e2@ == e,
        },
{
    let mut stats: Vec<WindowsMemoryStat<'a>> = Vec::new();
    let ghost start = tok@;
    loop
        invariant
            start == old(tok)@,
            wmem_rows_spec(start) == match wmem_rows_spec(tok@) {
                Ok(Some((ss, r))) => Ok(Some((stats@.map_values(|s: WindowsMemoryStat<'a>| s@) + ss, r))),
                other => other,
            },
        decreases tok@.len(),
    {
        let ghost before = tok@;
        proof {
            lemma_newline();
            lemma_take_until_shrinks(before, newline());
        }
        let line = match tok.peek_line() {
            Some(line) => line,
            None => return Ok(None),
        };
        if !starts_with(trim(line), "|") {
            return Ok(None);
        }
        if contains(line, WINDOWS_MEMORY_PREAMBLE) {
            assert(stats@.map_values(|s: WindowsMemoryStat<'a>| s@) + seq![] =~= stats@.map_values(|s: WindowsMemoryStat<'a>| s@));
            return Ok(Some(stats));
        }
        let stat = WindowsMemoryStat::parse(line)?;
        let ghost old_stats = stats@;
        stats.push(stat);
        let _ = tok.get_line();
        proof {
            assert(stats@.map_values(|s: WindowsMemoryStat<'a>| s@) =~= old_stats.map_values(|s: WindowsMemoryStat<'a>| s@) + seq![stat@]);
            match wmem_rows_spec(tok@) {
                Ok(Some((ss, _))) => {
                    assert(old_stats.map_values(|s: WindowsMemoryStat<'a>| s@) + (seq![stat@] + ss) =~= stats@.map_values(|s: WindowsMemoryStat<'a>| s@) + ss);
                },
                _ => {},
            }
        }
    }
}

/// The text after the next `n` lines, when there are that many.
pub open spec fn after_lines(t: Seq<u8>, n: nat) -> Option<Seq<u8>>
    decreases n,
{
    if n == 0 {
        Some(t)
    } else {
        match line_spec(t) {
            None => None,
            Some((_, rest)) => after_lines(rest, (n - 1) as nat),
        }
    }
}

/// The process lines and the total line of a table of the given kind, from
/// `t` on; `text` is the parser's text, which stays when nothing is given,
/// and `skip` the text after the table's header line, which is left when
/// reading fails.
pub open spec fn table_body_spec(t: Seq<u8>, kind: StatTableKind, timestamp: u64, text: Seq<u8>, skip: Seq<u8>) -> (
    Option<Result<StatTableView, ErrorView>>,
    Seq<u8>,
) {
    match kind {
        StatTableKind::UNIX => match linux_rows_spec(t) {
            Err(e) => (Some(Err(e)), skip),
            Ok(None) => (None, text),
            Ok(Some((stats, t5))) => match line_spec(t5) {
                None => (None, text),
                Some((total, t6)) => match linux_total_spec(total) {
                    Err(e) => (Some(Err(e)), skip),
                    Ok((cpu, mem)) => (Some(Ok(StatTableView::UNIX { stats, timestamp, cpu, mem })), t6),
                },
            },
        },
        StatTableKind::WCPU => match wcpu_rows_spec(t) {
            Err(e) => (Some(Err(e)), skip),
            Ok(None) => (None, text),
            Ok(Some((stats, t5))) => match line_spec(t5) {
                None => (None, text),
                Some((line, t6)) => match windows_total_spec(line, bytes_of(WINDOWS_CPU_PREAMBLE)) {
                    Err(e) => (Some(Err(e)), skip),
                    Ok(total) => (Some(Ok(StatTableView::WCPU { stats, timestamp, total })), t6),
                },
            },
        },
        StatTableKind::WMEM => match wmem_rows_spec(t) {
            Err(e) => (Some(Err(e)), skip),
            Ok(None) => (None, text),
            Ok(Some((stats, t5))) => match line_spec(t5) {
                None => (None, text),
                Some((line, t6)) => match windows_total_spec(line, bytes_of(WINDOWS_MEMORY_PREAMBLE)) {
                    Err(e) => (Some(Err(e)), skip),
                    Ok(total) => (Some(Ok(StatTableView::WMEM { stats, timestamp, total })), t6),
                },
            },
        },
    }
}

/// What the parser yields from the text `text`, and the text left for the
/// tables after it.
pub open spec fn next_spec(text: Seq<u8>) -> (Option<Result<StatTableView, ErrorView>>, Seq<u8>) {
    let t = trim_start_bytes(text);
    if t.len() == 0 {
        (None, text)
    } else {
        match table_header_search(t) {
            None => (None, text),
            Some((header, t1)) => match take_within_spec(header, bytes_of("["), bytes_of("]")) {
                Err(e) => (Some(Err(ErrorView::InvalidFormat(e))), t1),
                Ok((time, h2)) => match take_within_spec(h2, bytes_of("["), bytes_of("]")) {
                    Err(e) => (Some(Err(ErrorView::InvalidFormat(e))), t1),
                    Ok((date, _)) => match after_lines(t1, 3) {
                        None => (None, text),
                        Some(t2) => match line_spec(t2) {
                            None => (None, text),
                            Some((columns, t3)) => match table_kind_of(column_names(columns)) {
                                None => (Some(Err(ErrorView::UnableToDetectTableType(columns))), t1),
                                Some(kind) => match line_spec(t3) {
                                    None => (None, text),
                                    Some((_, t4)) => table_body_spec(t4, kind, header_timestamp(time, date), text, t1),
                                },
                            },
                        },
                    },
                },
            },
        }
    }
}

impl<'a> CPUMemStatsParser<'a> {
    pub fn new(data: &'a str) -> (r: Self)
        ensures
            r@ == bytes_of(data),
    {
        Self(data, ParserState::Initial)
    }

    /// A parser over bytes, which must be valid UTF-8.
    pub fn try_from(value: &'a [u8]) -> (r: Result<Self, core::str::Utf8Error>)
        ensures
            r is Ok <==> vstd::utf8::valid_utf8(value@),
            r matches Ok(p) ==> p@ == value@,
    {
        let value = tokenizer::str_from_utf8(value)?;
        Ok(Self::new(value))
    }

    /// The column names of a header line, each once, in the order in which
    /// they first occur.
    pub fn columns<'b>(header: &'b str) -> (r: Vec<&'b str>)
        ensures
            r@.map_values(|c: &'b str| bytes_of(c)) == dedup(column_names(bytes_of(header))),
    {
        let mut columns: Vec<&'b str> = Vec::new();
        let mut htok = Tokenizer::new(header);
        let ghost all = column_names(bytes_of(header));
        let ghost mut seen: Seq<Seq<u8>> = seq![];
        loop
            invariant
                all == column_names(bytes_of(header)),
                all == seen + column_names(htok@),
                columns@.map_values(|c: &'b str| bytes_of(c)) == dedup(seen),
            ensures
                columns@.map_values(|c: &'b str| bytes_of(c)) == dedup(all),
            decreases htok@.len(),
        {
            proof {
                lemma_cell_step_shrinks(htok@);
            }
            let ghost before = htok@;
            let inner = match htok.take_within_exclusive("|", "|") {
                Ok(c) => trim(c),
                Err(_) => {
                    assert(seen + column_names(htok@) =~= seen);
                    break;
                },
            };
            let present = contains_str(&columns, inner);
            let ghost old_columns = columns@;
            proof {
                let ns = seen + seq![bytes_of(inner)];
                assert(ns.drop_last() =~= seen);
                assert(seen + column_names(before) =~= ns + column_names(htok@));
            }
            if !present {
                columns.push(inner);
                proof {
                    assert(columns@.map_values(|c: &'b str| bytes_of(c)) =~= old_columns.map_values(|c: &'b str| bytes_of(c)).push(bytes_of(inner)));
                }
            }
            proof {
                seen = seen + seq![bytes_of(inner)];
            }
        }
        columns
    }

    fn find_table_header(iter: &mut Tokenizer<'a>) -> (r: Option<&'a str>)
        ensures
            match table_header_search(old(iter)@) {
                None => r is None,
                Some((h, rest)) => r matches Some(l) && bytes_of(l) == h && final(iter)@ == rest,
            },
    {
        let ghost t = iter@;
        loop
            invariant
                t == old(iter)@,
                table_header_search(t) == table_header_search(iter@),
            decreases iter@.len(),
        {
            let ghost before = iter@;
            proof {
                lemma_newline();
                lemma_take_until_shrinks(before, newline());
            }
            let line = match iter.get_line() {
                Some(line) => line,
                None => return None,
            };
            if starts_with(line, "[") {
                let found = match iter.peek_line() {
                    Some(next) => starts_with(trim_start(next), "|"),
                    None => false,
                };
                if found {
                    return Some(line);
                }
            }
        }
    }

    /// The next table, or `None` when no complete table is left.
    pub fn next(&mut self) -> (r: Option<Result<StatTable<'a>, Error>>)
        ensures
            ({
                let (expected, rest) = next_spec(old(self)@);
                &&& match r {
                    None => expected is None,
                    Some(Ok(t)) => expected == Some(Ok::<StatTableView, ErrorView>(t@)),
                    Some(Err(e)) => expected == Some(Err::<StatTableView, ErrorView>(e@)),
                }
                &&& final(self)@ == rest
            }),
    {
        let mut tok = Tokenizer::new(self.0);
        tok.skip_whitespace();
        if tok.is_empty() {
            return None;
        }
        self.1 = ParserState::Initial;
        let header = match Self::find_table_header(&mut tok) {
            Some(h) => h,
            None => return None,
        };
        let after_header = tok.rest();
        let mut htok = Tokenizer::new(header);
        let time = match htok.take_within("[", "]") {
            Ok(time) => time,
            Err(e) => {
                self.0 = after_header;
                return Some(Err(Error::InvalidFormat(e)));
            },
        };
        let date = match htok.take_within("[", "]") {
            Ok(date) => date,
            Err(e) => {
                self.0 = after_header;
                return Some(Err(Error::InvalidFormat(e)));
            },
        };
        let timestamp = match unix_timestamp_millis(time, date, CPUMEMSTATS_TIME_FORMAT, CPUMEMSTATS_DATE_FORMAT) {
            Ok(v) => v,
            Err(_) => 0,
        };
        self.1 = ParserState::Timestamp;
        proof {
            reveal_with_fuel(after_lines, 4);
        }
        let _ = tok.get_line()?;
        let _ = tok.get_line()?;
        let _ = tok.get_line()?;
        let line = tok.get_line()?;
        let columns = Self::columns(line);
        proof {
            let names = column_names(bytes_of(line));
            lemma_dedup_contains(names, bytes_of("User"));
            lemma_dedup_contains(names, bytes_of("PID"));
            lemma_dedup_contains(names, bytes_of("CPU Usage (%)"));
            lemma_dedup_contains(names, bytes_of("Process ID"));
            lemma_dedup_contains(names, bytes_of("Memory (MB)"));
        }
        let kind = if contains_str(&columns, "User") && contains_str(&columns, "PID") {
            self.1 = ParserState::UNIXHeader;
            StatTableKind::UNIX
        } else if contains_str(&columns, "CPU Usage (%)") && contains_str(&columns, "Process ID") {
            self.1 = ParserState::WindowsCPUHeader;
            StatTableKind::WCPU
        } else if contains_str(&columns, "Memory (MB)") && contains_str(&columns, "Process ID") {
            self.1 = ParserState::WindowsMemoryHeader;
            StatTableKind::WMEM
        } else {
            self.0 = after_header;
            return Some(Err(Error::UnableToDetectTableType(to_string(line))));
        };
        let _ = tok.get_line()?;
        match kind {
            StatTableKind::UNIX => {
                self.1 = ParserState::UNIXStat;
                let stats = match read_linux_rows(&mut tok) {
                    Ok(Some(s)) => s,
                    Ok(None) => return None,
                    Err(e) => {
                        self.0 = after_header;
                        return Some(Err(e));
                    },
                };
                self.1 = ParserState::UNIXTotal;
                let (cpu, mem) = match LinuxStat::parse_total(tok.get_line()?) {
                    Ok(x) => x,
                    Err(e) => {
                        self.0 = after_header;
                        return Some(Err(e));
                    },
                };
                self.0 = tok.remaining();
                Some(Ok(StatTable::UNIX(LinuxStatTable { stats, timestamp, cpu, mem })))
            },
            StatTableKind::WCPU => {
                self.1 = ParserState::WindowsCPUStat;
                let stats = match read_wcpu_rows(&mut tok) {
                    Ok(Some(s)) => s,
                    Ok(None) => return None,
                    Err(e) => {
                        self.0 = after_header;
                        return Some(Err(e));
                    },
                };
                self.1 = ParserState::WindowsCPUTotal;
                let total = match WindowsCPUStat::parse_total(tok.get_line()?) {
                    Ok(x) => x,
                    Err(e) => {
                        self.0 = after_header;
                        return Some(Err(e));
                    },
                };
                self.0 = tok.remaining();
                Some(Ok(StatTable::WCPU(WindowsCPUTable { stats, total, timestamp })))
            },
            StatTableKind::WMEM => {
                self.1 = ParserState::WindowsMemoryStat;
                let stats = match read_wmem_rows(&mut tok) {
                    Ok(Some(s)) => s,
                    Ok(None) => return None,
                    Err(e) => {
                        self.0 = after_header;
                        return Some(Err(e));
                    },
                };
                self.1 = ParserState::WindowsMemoryTotal;
                let total = match WindowsMemoryStat::parse_total(tok.get_line()?) {
                    Ok(x) => x,
                    Err(e) => {
                        self.0 = after_header;
                        return Some(Err(e));
                    },
                };
                self.0 = tok.remaining();
                Some(Ok(StatTable::WMEM(WindowsMemoryTable { stats, total, timestamp })))
            },
        }
    }
}


proof fn lemma_table_header_search_len(t: Seq<u8>)
    ensures
        table_header_search(t) matches Some((_, rest)) ==> rest.len() < t.len(),
    decreases t.len(),
{
    lemma_newline();
    lemma_take_until_shrinks(t, newline());
    if let Some((_, rest)) = line_spec(t) {
        lemma_table_header_search_len(rest);
    }
}

proof fn lemma_after_lines_len(t: Seq<u8>, n: nat)
    ensures
        after_lines(t, n) matches Some(r) ==> r.len() <= t.len(),
    decreases n,
{
    lemma_newline();
    lemma_take_until_shrinks(t, newline());
    if n > 0 {
        if let Some((_, rest)) = line_spec(t) {
            lemma_after_lines_len(rest, (n - 1) as nat);
        }
    }
}

proof fn lemma_linux_rows_len(t: Seq<u8>)
    ensures
        linux_rows_spec(t) matches Ok(Some((_, r))) ==> r.len() <= t.len(),
    decreases t.len(),
{
    lemma_newline();
    lemma_take_until_shrinks(t, newline());
    if let Some((_, rest)) = line_spec(t) {
        lemma_linux_rows_len(rest);
    }
}

proof fn lemma_wcpu_rows_len(t: Seq<u8>)
    ensures
        wcpu_rows_spec(t) matches Ok(Some((_, r))) ==> r.len() <= t.len(),
    decreases t.len(),
{
    lemma_newline();
    lemma_take_until_shrinks(t, newline());
    if let Some((_, rest)) = line_spec(t) {
        lemma_wcpu_rows_len(rest);
    }
}

proof fn lemma_wmem_rows_len(t: Seq<u8>)
    ensures
        wmem_rows_spec(t) matches Ok(Some((_, r))) ==> r.len() <= t.len(),
    decreases t.len(),
{
    lemma_newline();
    lemma_take_until_shrinks(t, newline());
    if let Some((_, rest)) = line_spec(t) {
        lemma_wmem_rows_len(rest);
    }
}

/// Each table read, or each error reported, leaves less text to read, so
/// reading the tables of a text one after the other comes to an end.
pub proof fn lemma_next_progress(text: Seq<u8>)
    ensures
        next_spec(text).0 is Some ==> next_spec(text).1.len() < text.len(),
{
    broadcast use crate::text::lemma_trim_start_shorter;

    let t = trim_start_bytes(text);
    lemma_table_header_search_len(t);
    lemma_newline();
    if let Some((_, t1)) = table_header_search(t) {
        lemma_after_lines_len(t1, 3);
        if let Some(t2) = after_lines(t1, 3) {
            lemma_take_until_shrinks(t2, newline());
            if let Some((_, t3)) = line_spec(t2) {
                lemma_take_until_shrinks(t3, newline());
                if let Some((_, t4)) = line_spec(t3) {
                    lemma_linux_rows_len(t4);
                    lemma_wcpu_rows_len(t4);
                    lemma_wmem_rows_len(t4);
                    if let Ok(Some((_, t5))) = linux_rows_spec(t4) {
                        lemma_take_until_shrinks(t5, newline());
                    }
                    if let Ok(Some((_, t5))) = wcpu_rows_spec(t4) {
                        lemma_take_until_shrinks(t5, newline());
                    }
                    if let Ok(Some((_, t5))) = wmem_rows_spec(t4) {
                        lemma_take_until_shrinks(t5, newline());
                    }
                }
            }
        }
    }
}

} // verus!
