//! The order of the wait type names, and what it shows: no two wait types
//! in the list share a name, so reading the name of one gives it back.
use crate::parser::wait_type::WaitType;
use crate::parser::wait_type::is_listed_wait_type;
use crate::parser::wait_type::wait_type_name;
use crate::parser::wait_type::in_part_0;
use crate::parser::wait_type::listed_name_0;
use crate::parser::wait_type::lemma_name_in_part_0;
use crate::parser::wait_type::in_part_1;
use crate::parser::wait_type::listed_name_1;
use crate::parser::wait_type::lemma_name_in_part_1;
use crate::parser::wait_type::in_part_2;
use crate::parser::wait_type::listed_name_2;
use crate::parser::wait_type::lemma_name_in_part_2;
use crate::parser::wait_type::in_part_3;
use crate::parser::wait_type::listed_name_3;
use crate::parser::wait_type::lemma_name_in_part_3;
use crate::parser::wait_type::in_part_4;
use crate::parser::wait_type::listed_name_4;
use crate::parser::wait_type::lemma_name_in_part_4;
use crate::parser::wait_type::in_part_5;
use crate::parser::wait_type::listed_name_5;
use crate::parser::wait_type::lemma_name_in_part_5;
use crate::parser::wait_type::in_part_6;
use crate::parser::wait_type::listed_name_6;
use crate::parser::wait_type::lemma_name_in_part_6;
use crate::parser::wait_type::in_part_7;
use crate::parser::wait_type::listed_name_7;
use crate::parser::wait_type::lemma_name_in_part_7;
use crate::parser::wait_type::in_part_8;
use crate::parser::wait_type::listed_name_8;
use crate::parser::wait_type::lemma_name_in_part_8;
use crate::parser::wait_type::in_part_9;
use crate::parser::wait_type::listed_name_9;
use crate::parser::wait_type::lemma_name_in_part_9;
use crate::parser::wait_type::in_part_10;
use crate::parser::wait_type::listed_name_10;
use crate::parser::wait_type::lemma_name_in_part_10;
use crate::parser::wait_type::in_part_11;
use crate::parser::wait_type::listed_name_11;
use crate::parser::wait_type::lemma_name_in_part_11;
use crate::parser::wait_type::in_part_12;
use crate::parser::wait_type::listed_name_12;
use crate::parser::wait_type::lemma_name_in_part_12;
use crate::parser::wait_type::in_part_13;
use crate::parser::wait_type::listed_name_13;
use crate::parser::wait_type::lemma_name_in_part_13;
use crate::parser::wait_type::in_part_14;
use crate::parser::wait_type::listed_name_14;
use crate::parser::wait_type::lemma_name_in_part_14;
use crate::parser::wait_type::in_part_15;
use crate::parser::wait_type::listed_name_15;
use crate::parser::wait_type::lemma_name_in_part_15;
use crate::parser::wait_type::in_part_16;
use crate::parser::wait_type::listed_name_16;
use crate::parser::wait_type::lemma_name_in_part_16;
use crate::parser::wait_type::in_part_17;
use crate::parser::wait_type::listed_name_17;
use crate::parser::wait_type::lemma_name_in_part_17;
use crate::parser::wait_type::in_part_18;
use crate::parser::wait_type::listed_name_18;
use crate::parser::wait_type::lemma_name_in_part_18;
use crate::parser::wait_type::in_part_19;
use crate::parser::wait_type::listed_name_19;
use crate::parser::wait_type::lemma_name_in_part_19;
use vstd::prelude::*;

verus! {

/// `a` comes before `b` when both are compared character by character from
/// position `i` on: at the first position where they differ, the character
/// of `a` has the smaller code, or `a` ends there and `b` goes on.
pub open spec fn name_lt_from(a: Seq<char>, b: Seq<char>, i: int) -> bool
    decreases a.len() - i,
{
    if i >= a.len() {
        i < b.len()
    } else if i >= b.len() {
        false
    } else if a[i] == b[i] {
        name_lt_from(a, b, i + 1)
    } else {
        (a[i] as u32) < (b[i] as u32)
    }
}

/// `a` comes strictly before `b` in the order of character codes.
pub open spec fn name_lt(a: Seq<char>, b: Seq<char>) -> bool {
    name_lt_from(a, b, 0)
}

/// A name never comes strictly before itself.
pub proof fn lemma_name_lt_irreflexive(a: Seq<char>, i: int)
    requires
        0 <= i,
    ensures
        !name_lt_from(a, a, i),
    decreases a.len() - i,
{
    if i < a.len() {
        lemma_name_lt_irreflexive(a, i + 1);
    }
}

/// The order of names is transitive.
pub proof fn lemma_name_lt_transitive(a: Seq<char>, b: Seq<char>, c: Seq<char>, i: int)
    requires
        0 <= i,
        name_lt_from(a, b, i),
        name_lt_from(b, c, i),
    ensures
        name_lt_from(a, c, i),
    decreases a.len() - i,
{
    if i < a.len() && i < b.len() && i < c.len() && a[i] == b[i] && b[i] == c[i] {
        lemma_name_lt_transitive(a, b, c, i + 1);
    }
}

/// The place of each wait type of part 0 within that part.
#[verifier::opaque]
pub open spec fn rank_in_part_0(w: WaitType) -> int {
    match w {
        WaitType::ABR => 0,
        WaitType::AM_INDBUILD_ALLOCATION => 1,
        WaitType::AM_SCHEMAMGR_UNSHARED_CACHE => 2,
        WaitType::ASSEMBLY_FILTER_HASHTABLE => 3,
        WaitType::ASSEMBLY_LOAD => 4,
        WaitType::ASYNC_DISKPOOL_LOCK => 5,
        WaitType::ASYNC_IO_COMPLETION => 6,
        WaitType::ASYNC_NETWORK_IO => 7,
        WaitType::ASYNC_OP_COMPLETION => 8,
        WaitType::ASYNC_OP_CONTEXT_READ => 9,
        WaitType::ASYNC_OP_CONTEXT_WRITE => 10,
        WaitType::ASYNC_SOCKETDUP_IO => 11,
        WaitType::AUDIT_GROUPCACHE_LOCK => 12,
        WaitType::AUDIT_LOGINCACHE_LOCK => 13,
        WaitType::AUDIT_ON_DEMAND_TARGET_LOCK => 14,
        WaitType::AUDIT_XE_SESSION_MGR => 15,
        WaitType::BACKUP => 16,
        WaitType::BACKUPBUFFER => 17,
        WaitType::BACKUPIO => 18,
        WaitType::BACKUPTHREAD => 19,
        WaitType::BACKUP_OPERATOR => 20,
        WaitType::BAD_PAGE_PROCESS => 21,
        WaitType::BLOB_METADATA => 22,
        WaitType::BMPALLOCATION => 23,
        WaitType::BMPBUILD => 24,
        WaitType::BMPREPARTITION => 25,
        WaitType::BMPREPLICATION => 26,
        WaitType::BPSORT => 27,
        WaitType::BROKER_CONNECTION_RECEIVE_TASK => 28,
        WaitType::BROKER_DISPATCHER => 29,
        WaitType::BROKER_ENDPOINT_STATE_MUTEX => 30,
        WaitType::BROKER_EVENTHANDLER => 31,
        WaitType::BROKER_FORWARDER => 32,
        WaitType::BROKER_INIT => 33,
        WaitType::BROKER_MASTERSTART => 34,
        WaitType::BROKER_RECEIVE_WAITFOR => 35,
        WaitType::BROKER_REGISTERALLENDPOINTS => 36,
        WaitType::BROKER_SERVICE => 37,
        WaitType::BROKER_SHUTDOWN => 38,
        WaitType::BROKER_START => 39,
        WaitType::BROKER_TASK_SHUTDOWN => 40,
        WaitType::BROKER_TASK_STOP => 41,
        WaitType::BROKER_TASK_SUBMIT => 42,
        WaitType::BROKER_TO_FLUSH => 43,
        WaitType::BROKER_TRANSMISSION_OBJECT => 44,
        WaitType::BROKER_TRANSMISSION_TABLE => 45,
        WaitType::BROKER_TRANSMISSION_WORK => 46,
        WaitType::BROKER_TRANSMITTER => 47,
        WaitType::BUFFERPOOL_SCAN => 48,
        WaitType::BUILTIN_HASHKEY_MUTEX => 49,
        _ => 0,
    }
}

/// The wait type at each place of part 0.
#[verifier::opaque]
pub open spec fn ranked_in_part_0(r: int) -> WaitType {
    if r == 0 {
        WaitType::ABR
    } else if r == 1 {
        WaitType::AM_INDBUILD_ALLOCATION
    } else if r == 2 {
        WaitType::AM_SCHEMAMGR_UNSHARED_CACHE
    } else if r == 3 {
        WaitType::ASSEMBLY_FILTER_HASHTABLE
    } else if r == 4 {
        WaitType::ASSEMBLY_LOAD
    } else if r == 5 {
        WaitType::ASYNC_DISKPOOL_LOCK
    } else if r == 6 {
        WaitType::ASYNC_IO_COMPLETION
    } else if r == 7 {
        WaitType::ASYNC_NETWORK_IO
    } else if r == 8 {
        WaitType::ASYNC_OP_COMPLETION
    } else if r == 9 {
        WaitType::ASYNC_OP_CONTEXT_READ
    } else if r == 10 {
        WaitType::ASYNC_OP_CONTEXT_WRITE
    } else if r == 11 {
        WaitType::ASYNC_SOCKETDUP_IO
    } else if r == 12 {
        WaitType::AUDIT_GROUPCACHE_LOCK
    } else if r == 13 {
        WaitType::AUDIT_LOGINCACHE_LOCK
    } else if r == 14 {
        WaitType::AUDIT_ON_DEMAND_TARGET_LOCK
    } else if r == 15 {
        WaitType::AUDIT_XE_SESSION_MGR
    } else if r == 16 {
        WaitType::BACKUP
    } else if r == 17 {
        WaitType::BACKUPBUFFER
    } else if r == 18 {
        WaitType::BACKUPIO
    } else if r == 19 {
        WaitType::BACKUPTHREAD
    } else if r == 20 {
        WaitType::BACKUP_OPERATOR
    } else if r == 21 {
        WaitType::BAD_PAGE_PROCESS
    } else if r == 22 {
        WaitType::BLOB_METADATA
    } else if r == 23 {
        WaitType::BMPALLOCATION
    } else if r == 24 {
        WaitType::BMPBUILD
    } else if r == 25 {
        WaitType::BMPREPARTITION
    } else if r == 26 {
        WaitType::BMPREPLICATION
    } else if r == 27 {
        WaitType::BPSORT
    } else if r == 28 {
        WaitType::BROKER_CONNECTION_RECEIVE_TASK
    } else if r == 29 {
        WaitType::BROKER_DISPATCHER
    } else if r == 30 {
        WaitType::BROKER_ENDPOINT_STATE_MUTEX
    } else if r == 31 {
        WaitType::BROKER_EVENTHANDLER
    } else if r == 32 {
        WaitType::BROKER_FORWARDER
    } else if r == 33 {
        WaitType::BROKER_INIT
    } else if r == 34 {
        WaitType::BROKER_MASTERSTART
    } else if r == 35 {
        WaitType::BROKER_RECEIVE_WAITFOR
    } else if r == 36 {
        WaitType::BROKER_REGISTERALLENDPOINTS
    } else if r == 37 {
        WaitType::BROKER_SERVICE
    } else if r == 38 {
        WaitType::BROKER_SHUTDOWN
    } else if r == 39 {
        WaitType::BROKER_START
    } else if r == 40 {
        WaitType::BROKER_TASK_SHUTDOWN
    } else if r == 41 {
        WaitType::BROKER_TASK_STOP
    } else if r == 42 {
        WaitType::BROKER_TASK_SUBMIT
    } else if r == 43 {
        WaitType::BROKER_TO_FLUSH
    } else if r == 44 {
        WaitType::BROKER_TRANSMISSION_OBJECT
    } else if r == 45 {
        WaitType::BROKER_TRANSMISSION_TABLE
    } else if r == 46 {
        WaitType::BROKER_TRANSMISSION_WORK
    } else if r == 47 {
        WaitType::BROKER_TRANSMITTER
    } else if r == 48 {
        WaitType::BUFFERPOOL_SCAN
    } else if r == 49 {
        WaitType::BUILTIN_HASHKEY_MUTEX
    } else {
        WaitType::ABR
    }
}

/// The name at each place of part 0.
#[verifier::opaque]
pub open spec fn name_in_part_0(r: int) -> Seq<char> {
    if r == 0 {
        "ABR"@
    } else if r == 1 {
        "AM_INDBUILD_ALLOCATION"@
    } else if r == 2 {
        "AM_SCHEMAMGR_UNSHARED_CACHE"@
    } else if r == 3 {
        "ASSEMBLY_FILTER_HASHTABLE"@
    } else if r == 4 {
        "ASSEMBLY_LOAD"@
    } else if r == 5 {
        "ASYNC_DISKPOOL_LOCK"@
    } else if r == 6 {
        "ASYNC_IO_COMPLETION"@
    } else if r == 7 {
        "ASYNC_NETWORK_IO"@
    } else if r == 8 {
        "ASYNC_OP_COMPLETION"@
    } else if r == 9 {
        "ASYNC_OP_CONTEXT_READ"@
    } else if r == 10 {
        "ASYNC_OP_CONTEXT_WRITE"@
    } else if r == 11 {
        "ASYNC_SOCKETDUP_IO"@
    } else if r == 12 {
        "AUDIT_GROUPCACHE_LOCK"@
    } else if r == 13 {
        "AUDIT_LOGINCACHE_LOCK"@
    } else if r == 14 {
        "AUDIT_ON_DEMAND_TARGET_LOCK"@
    } else if r == 15 {
        "AUDIT_XE_SESSION_MGR"@
    } else if r == 16 {
        "BACKUP"@
    } else if r == 17 {
        "BACKUPBUFFER"@
    } else if r == 18 {
        "BACKUPIO"@
    } else if r == 19 {
        "BACKUPTHREAD"@
    } else if r == 20 {
        "BACKUP_OPERATOR"@
    } else if r == 21 {
        "BAD_PAGE_PROCESS"@
    } else if r == 22 {
        "BLOB_METADATA"@
    } else if r == 23 {
        "BMPALLOCATION"@
    } else if r == 24 {
        "BMPBUILD"@
    } else if r == 25 {
        "BMPREPARTITION"@
    } else if r == 26 {
        "BMPREPLICATION"@
    } else if r == 27 {
        "BPSORT"@
    } else if r == 28 {
        "BROKER_CONNECTION_RECEIVE_TASK"@
    } else if r == 29 {
        "BROKER_DISPATCHER"@
    } else if r == 30 {
        "BROKER_ENDPOINT_STATE_MUTEX"@
    } else if r == 31 {
        "BROKER_EVENTHANDLER"@
    } else if r == 32 {
        "BROKER_FORWARDER"@
    } else if r == 33 {
        "BROKER_INIT"@
    } else if r == 34 {
        "BROKER_MASTERSTART"@
    } else if r == 35 {
        "BROKER_RECEIVE_WAITFOR"@
    } else if r == 36 {
        "BROKER_REGISTERALLENDPOINTS"@
    } else if r == 37 {
        "BROKER_SERVICE"@
    } else if r == 38 {
        "BROKER_SHUTDOWN"@
    } else if r == 39 {
        "BROKER_START"@
    } else if r == 40 {
        "BROKER_TASK_SHUTDOWN"@
    } else if r == 41 {
        "BROKER_TASK_STOP"@
    } else if r == 42 {
        "BROKER_TASK_SUBMIT"@
    } else if r == 43 {
        "BROKER_TO_FLUSH"@
    } else if r == 44 {
        "BROKER_TRANSMISSION_OBJECT"@
    } else if r == 45 {
        "BROKER_TRANSMISSION_TABLE"@
    } else if r == 46 {
        "BROKER_TRANSMISSION_WORK"@
    } else if r == 47 {
        "BROKER_TRANSMITTER"@
    } else if r == 48 {
        "BUFFERPOOL_SCAN"@
    } else if r == 49 {
        "BUILTIN_HASHKEY_MUTEX"@
    } else {
        seq![]
    }
}

/// The place of each wait type of part 1 within that part.
#[verifier::opaque]
pub open spec fn rank_in_part_1(w: WaitType) -> int {
    match w {
        WaitType::CHANGE_TRACKING_WAITFORCHANGES => 0,
        WaitType::CHECKPOINT_QUEUE => 1,
        WaitType::CHECK_PRINT_RECORD => 2,
        WaitType::CHECK_SCANNER_MUTEX => 3,
        WaitType::CHECK_TABLES_INITIALIZATION => 4,
        WaitType::CHECK_TABLES_SINGLE_SCAN => 5,
        WaitType::CHECK_TABLES_THREAD_BARRIER => 6,
        WaitType::CHKPT => 7,
        WaitType::CLEAR_DB => 8,
        WaitType::CLRHOST_STATE_ACCESS => 9,
        WaitType::CLR_AUTO_EVENT => 10,
        WaitType::CLR_CRST => 11,
        WaitType::CLR_JOIN => 12,
        WaitType::CLR_MANUAL_EVENT => 13,
        WaitType::CLR_MEMORY_SPY => 14,
        WaitType::CLR_MONITOR => 15,
        WaitType::CLR_RWLOCK_READER => 16,
        WaitType::CLR_RWLOCK_WRITER => 17,
        WaitType::CLR_SEMAPHORE => 18,
        WaitType::CLR_TASK_START => 19,
        WaitType::CMEMPARTITIONED => 20,
        WaitType::CMEMTHREAD => 21,
        WaitType::COLUMNSTORE_BUILD_THROTTLE => 22,
        WaitType::COLUMNSTORE_COLUMNDATASET_SESSION_LIST => 23,
        WaitType::COMMIT_TABLE => 24,
        WaitType::CONNECTION_ENDPOINT_LOCK => 25,
        WaitType::COUNTRECOVERYMGR => 26,
        WaitType::CREATE_DATINISERVICE => 27,
        WaitType::CXCONSUMER => 28,
        WaitType::CXPACKET => 29,
        WaitType::CXROWSET_SYNC => 30,
        WaitType::CXSYNC_CONSUMER => 31,
        WaitType::CXSYNC_PORT => 32,
        WaitType::DAC_INIT => 33,
        WaitType::DBCC_SCALE_OUT_EXPR_CACHE => 34,
        WaitType::DBMIRRORING_CMD => 35,
        WaitType::DBMIRROR_DBM_EVENT => 36,
        WaitType::DBMIRROR_DBM_MUTEX => 37,
        WaitType::DBMIRROR_EVENTS_QUEUE => 38,
        WaitType::DBMIRROR_SEND => 39,
        WaitType::DBMIRROR_WORKER_QUEUE => 40,
        WaitType::DBSEEDING_FLOWCONTROL => 41,
        WaitType::DBSEEDING_OPERATION => 42,
        WaitType::DEADLOCK_ENUM_MUTEX => 43,
        WaitType::DEADLOCK_TASK_SEARCH => 44,
        WaitType::DEBUG => 45,
        WaitType::DIRECTLOGCONSUMER_LIST => 46,
        WaitType::DIRTY_PAGE_POLL => 47,
        WaitType::DIRTY_PAGE_SYNC => 48,
        WaitType::DIRTY_PAGE_TABLE_LOCK => 49,
        _ => 0,
    }
}

/// The wait type at each place of part 1.
#[verifier::opaque]
pub open spec fn ranked_in_part_1(r: int) -> WaitType {
    if r == 0 {
        WaitType::CHANGE_TRACKING_WAITFORCHANGES
    } else if r == 1 {
        WaitType::CHECKPOINT_QUEUE
    } else if r == 2 {
        WaitType::CHECK_PRINT_RECORD
    } else if r == 3 {
        WaitType::CHECK_SCANNER_MUTEX
    } else if r == 4 {
        WaitType::CHECK_TABLES_INITIALIZATION
    } else if r == 5 {
        WaitType::CHECK_TABLES_SINGLE_SCAN
    } else if r == 6 {
        WaitType::CHECK_TABLES_THREAD_BARRIER
    } else if r == 7 {
        WaitType::CHKPT
    } else if r == 8 {
        WaitType::CLEAR_DB
    } else if r == 9 {
        WaitType::CLRHOST_STATE_ACCESS
    } else if r == 10 {
        WaitType::CLR_AUTO_EVENT
    } else if r == 11 {
        WaitType::CLR_CRST
    } else if r == 12 {
        WaitType::CLR_JOIN
    } else if r == 13 {
        WaitType::CLR_MANUAL_EVENT
    } else if r == 14 {
        WaitType::CLR_MEMORY_SPY
    } else if r == 15 {
        WaitType::CLR_MONITOR
    } else if r == 16 {
        WaitType::CLR_RWLOCK_READER
    } else if r == 17 {
        WaitType::CLR_RWLOCK_WRITER
    } else if r == 18 {
        WaitType::CLR_SEMAPHORE
    } else if r == 19 {
        WaitType::CLR_TASK_START
    } else if r == 20 {
        WaitType::CMEMPARTITIONED
    } else if r == 21 {
        WaitType::CMEMTHREAD
    } else if r == 22 {
        WaitType::COLUMNSTORE_BUILD_THROTTLE
    } else if r == 23 {
        WaitType::COLUMNSTORE_COLUMNDATASET_SESSION_LIST
    } else if r == 24 {
        WaitType::COMMIT_TABLE
    } else if r == 25 {
        WaitType::CONNECTION_ENDPOINT_LOCK
    } else if r == 26 {
        WaitType::COUNTRECOVERYMGR
    } else if r == 27 {
        WaitType::CREATE_DATINISERVICE
    } else if r == 28 {
        WaitType::CXCONSUMER
    } else if r == 29 {
        WaitType::CXPACKET
    } else if r == 30 {
        WaitType::CXROWSET_SYNC
    } else if r == 31 {
        WaitType::CXSYNC_CONSUMER
    } else if r == 32 {
        WaitType::CXSYNC_PORT
    } else if r == 33 {
        WaitType::DAC_INIT
    } else if r == 34 {
        WaitType::DBCC_SCALE_OUT_EXPR_CACHE
    } else if r == 35 {
        WaitType::DBMIRRORING_CMD
    } else if r == 36 {
        WaitType::DBMIRROR_DBM_EVENT
    } else if r == 37 {
        WaitType::DBMIRROR_DBM_MUTEX
    } else if r == 38 {
        WaitType::DBMIRROR_EVENTS_QUEUE
    } else if r == 39 {
        WaitType::DBMIRROR_SEND
    } else if r == 40 {
        WaitType::DBMIRROR_WORKER_QUEUE
    } else if r == 41 {
        WaitType::DBSEEDING_FLOWCONTROL
    } else if r == 42 {
        WaitType::DBSEEDING_OPERATION
    } else if r == 43 {
        WaitType::DEADLOCK_ENUM_MUTEX
    } else if r == 44 {
        WaitType::DEADLOCK_TASK_SEARCH
    } else if r == 45 {
        WaitType::DEBUG
    } else if r == 46 {
        WaitType::DIRECTLOGCONSUMER_LIST
    } else if r == 47 {
        WaitType::DIRTY_PAGE_POLL
    } else if r == 48 {
        WaitType::DIRTY_PAGE_SYNC
    } else if r == 49 {
        WaitType::DIRTY_PAGE_TABLE_LOCK
    } else {
        WaitType::CHANGE_TRACKING_WAITFORCHANGES
    }
}

/// The name at each place of part 1.
#[verifier::opaque]
pub open spec fn name_in_part_1(r: int) -> Seq<char> {
    if r == 0 {
        "CHANGE_TRACKING_WAITFORCHANGES"@
    } else if r == 1 {
        "CHECKPOINT_QUEUE"@
    } else if r == 2 {
        "CHECK_PRINT_RECORD"@
    } else if r == 3 {
        "CHECK_SCANNER_MUTEX"@
    } else if r == 4 {
        "CHECK_TABLES_INITIALIZATION"@
    } else if r == 5 {
        "CHECK_TABLES_SINGLE_SCAN"@
    } else if r == 6 {
        "CHECK_TABLES_THREAD_BARRIER"@
    } else if r == 7 {
        "CHKPT"@
    } else if r == 8 {
        "CLEAR_DB"@
    } else if r == 9 {
        "CLRHOST_STATE_ACCESS"@
    } else if r == 10 {
        "CLR_AUTO_EVENT"@
    } else if r == 11 {
        "CLR_CRST"@
    } else if r == 12 {
        "CLR_JOIN"@
    } else if r == 13 {
        "CLR_MANUAL_EVENT"@
    } else if r == 14 {
        "CLR_MEMORY_SPY"@
    } else if r == 15 {
        "CLR_MONITOR"@
    } else if r == 16 {
        "CLR_RWLOCK_READER"@
    } else if r == 17 {
        "CLR_RWLOCK_WRITER"@
    } else if r == 18 {
        "CLR_SEMAPHORE"@
    } else if r == 19 {
        "CLR_TASK_START"@
    } else if r == 20 {
        "CMEMPARTITIONED"@
    } else if r == 21 {
        "CMEMTHREAD"@
    } else if r == 22 {
        "COLUMNSTORE_BUILD_THROTTLE"@
    } else if r == 23 {
        "COLUMNSTORE_COLUMNDATASET_SESSION_LIST"@
    } else if r == 24 {
        "COMMIT_TABLE"@
    } else if r == 25 {
        "CONNECTION_ENDPOINT_LOCK"@
    } else if r == 26 {
        "COUNTRECOVERYMGR"@
    } else if r == 27 {
        "CREATE_DATINISERVICE"@
    } else if r == 28 {
        "CXCONSUMER"@
    } else if r == 29 {
        "CXPACKET"@
    } else if r == 30 {
        "CXROWSET_SYNC"@
    } else if r == 31 {
        "CXSYNC_CONSUMER"@
    } else if r == 32 {
        "CXSYNC_PORT"@
    } else if r == 33 {
        "DAC_INIT"@
    } else if r == 34 {
        "DBCC_SCALE_OUT_EXPR_CACHE"@
    } else if r == 35 {
        "DBMIRRORING_CMD"@
    } else if r == 36 {
        "DBMIRROR_DBM_EVENT"@
    } else if r == 37 {
        "DBMIRROR_DBM_MUTEX"@
    } else if r == 38 {
        "DBMIRROR_EVENTS_QUEUE"@
    } else if r == 39 {
        "DBMIRROR_SEND"@
    } else if r == 40 {
        "DBMIRROR_WORKER_QUEUE"@
    } else if r == 41 {
        "DBSEEDING_FLOWCONTROL"@
    } else if r == 42 {
        "DBSEEDING_OPERATION"@
    } else if r == 43 {
        "DEADLOCK_ENUM_MUTEX"@
    } else if r == 44 {
        "DEADLOCK_TASK_SEARCH"@
    } else if r == 45 {
        "DEBUG"@
    } else if r == 46 {
        "DIRECTLOGCONSUMER_LIST"@
    } else if r == 47 {
        "DIRTY_PAGE_POLL"@
    } else if r == 48 {
        "DIRTY_PAGE_SYNC"@
    } else if r == 49 {
        "DIRTY_PAGE_TABLE_LOCK"@
    } else {
        seq![]
    }
}

/// The place of each wait type of part 2 within that part.
#[verifier::opaque]
pub open spec fn rank_in_part_2(w: WaitType) -> int {
    match w {
        WaitType::DISABLE_VERSIONING => 0,
        WaitType::DISKIO_SUSPEND => 1,
        WaitType::DISPATCHER_PRIORITY_QUEUE_SEMAPHORE => 2,
        WaitType::DISPATCHER_QUEUE_SEMAPHORE => 3,
        WaitType::DLL_LOADING_MUTEX => 4,
        WaitType::DPT_ENTRY_LOCK => 5,
        WaitType::DROPTEMP => 6,
        WaitType::DROP_DATABASE_TIMER_TASK => 7,
        WaitType::DTC => 8,
        WaitType::DTCNEW_ENLIST => 9,
        WaitType::DTCNEW_PREPARE => 10,
        WaitType::DTCNEW_RECOVERY => 11,
        WaitType::DTCNEW_TM => 12,
        WaitType::DTCNEW_TRANSACTION_ENLISTMENT => 13,
        WaitType::DTCPNTSYNC => 14,
        WaitType::DTC_ABORT_REQUEST => 15,
        WaitType::DTC_RESOLVE => 16,
        WaitType::DTC_STATE => 17,
        WaitType::DTC_TMDOWN_REQUEST => 18,
        WaitType::DTC_WAITFOR_OUTCOME => 19,
        WaitType::DUMPTRIGGER => 20,
        WaitType::DUMP_LOG_COORDINATOR => 21,
        WaitType::DUMP_LOG_COORDINATOR_QUEUE => 22,
        WaitType::EC => 23,
        WaitType::EE_PMOLOCK => 24,
        WaitType::EE_SPECPROC_MAP_INIT => 25,
        WaitType::ENABLE_EMPTY_VERSIONING => 26,
        WaitType::ENABLE_VERSIONING => 27,
        WaitType::ERROR_REPORTING_MANAGER => 28,
        WaitType::EXCHANGE => 29,
        WaitType::EXECSYNC => 30,
        WaitType::EXECUTION_PIPE_EVENT_INTERNAL => 31,
        WaitType::EXTERNAL_RG_UPDATE => 32,
        WaitType::EXTERNAL_SCRIPT_NETWORK_IO => 33,
        WaitType::EXTERNAL_SCRIPT_PREPARE_SERVICE => 34,
        WaitType::EXTERNAL_SCRIPT_SHUTDOWN => 35,
        WaitType::EXTERNAL_WAIT_ON_LAUNCHER => 36,
        WaitType::FABRIC_HADR_TRANSPORT_CONNECTION => 37,
        WaitType::FABRIC_REPLICA_CONTROLLER_LIST => 38,
        WaitType::FABRIC_REPLICA_CONTROLLER_STATE_AND_CONFIG => 39,
        WaitType::FABRIC_REPLICA_PUBLISHER_EVENT_PUBLISH => 40,
        WaitType::FABRIC_REPLICA_PUBLISHER_SUBSCRIBER_LIST => 41,
        WaitType::FABRIC_WAIT_FOR_BUILD_REPLICA_EVENT_PROCESSING => 42,
        WaitType::FAILPOINT => 43,
        WaitType::FCB_REPLICA_READ => 44,
        WaitType::FCB_REPLICA_WRITE => 45,
        WaitType::FEATURE_SWITCHES_UPDATE => 46,
        WaitType::FFT_NSO_DB_KILL_FLAG => 47,
        WaitType::FFT_NSO_DB_LIST => 48,
        WaitType::FFT_NSO_FCB => 49,
        _ => 0,
    }
}

/// The wait type at each place of part 2.
#[verifier::opaque]
pub open spec fn ranked_in_part_2(r: int) -> WaitType {
    if r == 0 {
        WaitType::DISABLE_VERSIONING
    } else if r == 1 {
        WaitType::DISKIO_SUSPEND
    } else if r == 2 {
        WaitType::DISPATCHER_PRIORITY_QUEUE_SEMAPHORE
    } else if r == 3 {
        WaitType::DISPATCHER_QUEUE_SEMAPHORE
    } else if r == 4 {
        WaitType::DLL_LOADING_MUTEX
    } else if r == 5 {
        WaitType::DPT_ENTRY_LOCK
    } else if r == 6 {
        WaitType::DROPTEMP
    } else if r == 7 {
        WaitType::DROP_DATABASE_TIMER_TASK
    } else if r == 8 {
        WaitType::DTC
    } else if r == 9 {
        WaitType::DTCNEW_ENLIST
    } else if r == 10 {
        WaitType::DTCNEW_PREPARE
    } else if r == 11 {
        WaitType::DTCNEW_RECOVERY
    } else if r == 12 {
        WaitType::DTCNEW_TM
    } else if r == 13 {
        WaitType::DTCNEW_TRANSACTION_ENLISTMENT
    } else if r == 14 {
        WaitType::DTCPNTSYNC
    } else if r == 15 {
        WaitType::DTC_ABORT_REQUEST
    } else if r == 16 {
        WaitType::DTC_RESOLVE
    } else if r == 17 {
        WaitType::DTC_STATE
    } else if r == 18 {
        WaitType::DTC_TMDOWN_REQUEST
    } else if r == 19 {
        WaitType::DTC_WAITFOR_OUTCOME
    } else if r == 20 {
        WaitType::DUMPTRIGGER
    } else if r == 21 {
        WaitType::DUMP_LOG_COORDINATOR
    } else if r == 22 {
        WaitType::DUMP_LOG_COORDINATOR_QUEUE
    } else if r == 23 {
        WaitType::EC
    } else if r == 24 {
        WaitType::EE_PMOLOCK
    } else if r == 25 {
        WaitType::EE_SPECPROC_MAP_INIT
    } else if r == 26 {
        WaitType::ENABLE_EMPTY_VERSIONING
    } else if r == 27 {
        WaitType::ENABLE_VERSIONING
    } else if r == 28 {
        WaitType::ERROR_REPORTING_MANAGER
    } else if r == 29 {
        WaitType::EXCHANGE
    } else if r == 30 {
        WaitType::EXECSYNC
    } else if r == 31 {
        WaitType::EXECUTION_PIPE_EVENT_INTERNAL
    } else if r == 32 {
        WaitType::EXTERNAL_RG_UPDATE
    } else if r == 33 {
        WaitType::EXTERNAL_SCRIPT_NETWORK_IO
    } else if r == 34 {
        WaitType::EXTERNAL_SCRIPT_PREPARE_SERVICE
    } else if r == 35 {
        WaitType::EXTERNAL_SCRIPT_SHUTDOWN
    } else if r == 36 {
        WaitType::EXTERNAL_WAIT_ON_LAUNCHER
    } else if r == 37 {
        WaitType::FABRIC_HADR_TRANSPORT_CONNECTION
    } else if r == 38 {
        WaitType::FABRIC_REPLICA_CONTROLLER_LIST
    } else if r == 39 {
        WaitType::FABRIC_REPLICA_CONTROLLER_STATE_AND_CONFIG
    } else if r == 40 {
        WaitType::FABRIC_REPLICA_PUBLISHER_EVENT_PUBLISH
    } else if r == 41 {
        WaitType::FABRIC_REPLICA_PUBLISHER_SUBSCRIBER_LIST
    } else if r == 42 {
        WaitType::FABRIC_WAIT_FOR_BUILD_REPLICA_EVENT_PROCESSING
    } else if r == 43 {
        WaitType::FAILPOINT
    } else if r == 44 {
        WaitType::FCB_REPLICA_READ
    } else if r == 45 {
        WaitType::FCB_REPLICA_WRITE
    } else if r == 46 {
        WaitType::FEATURE_SWITCHES_UPDATE
    } else if r == 47 {
        WaitType::FFT_NSO_DB_KILL_FLAG
    } else if r == 48 {
        WaitType::FFT_NSO_DB_LIST
    } else if r == 49 {
        WaitType::FFT_NSO_FCB
    } else {
        WaitType::DISABLE_VERSIONING
    }
}

/// The name at each place of part 2.
#[verifier::opaque]
pub open spec fn name_in_part_2(r: int) -> Seq<char> {
    if r == 0 {
        "DISABLE_VERSIONING"@
    } else if r == 1 {
        "DISKIO_SUSPEND"@
    } else if r == 2 {
        "DISPATCHER_PRIORITY_QUEUE_SEMAPHORE"@
    } else if r == 3 {
        "DISPATCHER_QUEUE_SEMAPHORE"@
    } else if r == 4 {
        "DLL_LOADING_MUTEX"@
    } else if r == 5 {
        "DPT_ENTRY_LOCK"@
    } else if r == 6 {
        "DROPTEMP"@
    } else if r == 7 {
        "DROP_DATABASE_TIMER_TASK"@
    } else if r == 8 {
        "DTC"@
    } else if r == 9 {
        "DTCNEW_ENLIST"@
    } else if r == 10 {
        "DTCNEW_PREPARE"@
    } else if r == 11 {
        "DTCNEW_RECOVERY"@
    } else if r == 12 {
        "DTCNEW_TM"@
    } else if r == 13 {
        "DTCNEW_TRANSACTION_ENLISTMENT"@
    } else if r == 14 {
        "DTCPNTSYNC"@
    } else if r == 15 {
        "DTC_ABORT_REQUEST"@
    } else if r == 16 {
        "DTC_RESOLVE"@
    } else if r == 17 {
        "DTC_STATE"@
    } else if r == 18 {
        "DTC_TMDOWN_REQUEST"@
    } else if r == 19 {
        "DTC_WAITFOR_OUTCOME"@
    } else if r == 20 {
        "DUMPTRIGGER"@
    } else if r == 21 {
        "DUMP_LOG_COORDINATOR"@
    } else if r == 22 {
        "DUMP_LOG_COORDINATOR_QUEUE"@
    } else if r == 23 {
        "EC"@
    } else if r == 24 {
        "EE_PMOLOCK"@
    } else if r == 25 {
        "EE_SPECPROC_MAP_INIT"@
    } else if r == 26 {
        "ENABLE_EMPTY_VERSIONING"@
    } else if r == 27 {
        "ENABLE_VERSIONING"@
    } else if r == 28 {
        "ERROR_REPORTING_MANAGER"@
    } else if r == 29 {
        "EXCHANGE"@
    } else if r == 30 {
        "EXECSYNC"@
    } else if r == 31 {
        "EXECUTION_PIPE_EVENT_INTERNAL"@
    } else if r == 32 {
        "EXTERNAL_RG_UPDATE"@
    } else if r == 33 {
        "EXTERNAL_SCRIPT_NETWORK_IO"@
    } else if r == 34 {
        "EXTERNAL_SCRIPT_PREPARE_SERVICE"@
    } else if r == 35 {
        "EXTERNAL_SCRIPT_SHUTDOWN"@
    } else if r == 36 {
        "EXTERNAL_WAIT_ON_LAUNCHER"@
    } else if r == 37 {
        "FABRIC_HADR_TRANSPORT_CONNECTION"@
    } else if r == 38 {
        "FABRIC_REPLICA_CONTROLLER_LIST"@
    } else if r == 39 {
        "FABRIC_REPLICA_CONTROLLER_STATE_AND_CONFIG"@
    } else if r == 40 {
        "FABRIC_REPLICA_PUBLISHER_EVENT_PUBLISH"@
    } else if r == 41 {
        "FABRIC_REPLICA_PUBLISHER_SUBSCRIBER_LIST"@
    } else if r == 42 {
        "FABRIC_WAIT_FOR_BUILD_REPLICA_EVENT_PROCESSING"@
    } else if r == 43 {
        "FAILPOINT"@
    } else if r == 44 {
        "FCB_REPLICA_READ"@
    } else if r == 45 {
        "FCB_REPLICA_WRITE"@
    } else if r == 46 {
        "FEATURE_SWITCHES_UPDATE"@
    } else if r == 47 {
        "FFT_NSO_DB_KILL_FLAG"@
    } else if r == 48 {
        "FFT_NSO_DB_LIST"@
    } else if r == 49 {
        "FFT_NSO_FCB"@
    } else {
        seq![]
    }
}

/// The place of each wait type of part 3 within that part.
#[verifier::opaque]
pub open spec fn rank_in_part_3(w: WaitType) -> int {
    match w {
        WaitType::FFT_NSO_FCB_FIND => 0,
        WaitType::FFT_NSO_FCB_PARENT => 1,
        WaitType::FFT_NSO_FCB_RELEASE_CACHED_ENTRIES => 2,
        WaitType::FFT_NSO_FCB_STATE => 3,
        WaitType::FFT_NSO_FILEOBJECT => 4,
        WaitType::FFT_NSO_TABLE_LIST => 5,
        WaitType::FFT_NTFS_STORE => 6,
        WaitType::FFT_RECOVERY => 7,
        WaitType::FFT_RSFX_COMM => 8,
        WaitType::FFT_RSFX_WAIT_FOR_MEMORY => 9,
        WaitType::FFT_STARTUP_SHUTDOWN => 10,
        WaitType::FFT_STORE_DB => 11,
        WaitType::FFT_STORE_ROWSET_LIST => 12,
        WaitType::FFT_STORE_TABLE => 13,
        WaitType::FILESTREAM_CACHE => 14,
        WaitType::FILESTREAM_CHUNKER => 15,
        WaitType::FILESTREAM_CHUNKER_INIT => 16,
        WaitType::FILESTREAM_FCB => 17,
        WaitType::FILESTREAM_FILE_OBJECT => 18,
        WaitType::FILESTREAM_WORKITEM_QUEUE => 19,
        WaitType::FILETABLE_SHUTDOWN => 20,
        WaitType::FILE_VALIDATION_THREADS => 21,
        WaitType::FOREIGN_REDO => 22,
        WaitType::FORWARDER_TRANSITION => 23,
        WaitType::FSAGENT => 24,
        WaitType::FSA_FORCE_OWN_XACT => 25,
        WaitType::FSTR_CONFIG_MUTEX => 26,
        WaitType::FSTR_CONFIG_RWLOCK => 27,
        WaitType::FS_FC_RWLOCK => 28,
        WaitType::FS_GARBAGE_COLLECTOR_SHUTDOWN => 29,
        WaitType::FS_HEADER_RWLOCK => 30,
        WaitType::FS_LOGTRUNC_RWLOCK => 31,
        WaitType::FT_COMPROWSET_RWLOCK => 32,
        WaitType::FT_IFTSHC_MUTEX => 33,
        WaitType::FT_IFTSISM_MUTEX => 34,
        WaitType::FT_IFTS_ASYNC_WRITE_PIPE => 35,
        WaitType::FT_IFTS_BLOB_HASH => 36,
        WaitType::FT_IFTS_CATEALOG_SOURCE => 37,
        WaitType::FT_IFTS_CHUNK_BUFFER_CLIENT_MANAGER => 38,
        WaitType::FT_IFTS_CHUNK_BUFFER_PROTO_WORD_LIST => 39,
        WaitType::FT_IFTS_COMP_DESC_MANAGER => 40,
        WaitType::FT_IFTS_CONSUMER_PLUGIN => 41,
        WaitType::FT_IFTS_CRAWL_BATCH_LIST => 42,
        WaitType::FT_IFTS_CRAWL_CHILDREN => 43,
        WaitType::FT_IFTS_DOCID_INTERFACE_LIST => 44,
        WaitType::FT_IFTS_DOCID_LIST => 45,
        WaitType::FT_IFTS_FP_INFO_LIST => 46,
        WaitType::FT_IFTS_HOST_CONTROLLER => 47,
        WaitType::FT_IFTS_MASTER_MERGE_TASK_LIST => 48,
        WaitType::FT_IFTS_MEMREGPOOL => 49,
        _ => 0,
    }
}

/// The wait type at each place of part 3.
#[verifier::opaque]
pub open spec fn ranked_in_part_3(r: int) -> WaitType {
    if r == 0 {
        WaitType::FFT_NSO_FCB_FIND
    } else if r == 1 {
        WaitType::FFT_NSO_FCB_PARENT
    } else if r == 2 {
        WaitType::FFT_NSO_FCB_RELEASE_CACHED_ENTRIES
    } else if r == 3 {
        WaitType::FFT_NSO_FCB_STATE
    } else if r == 4 {
        WaitType::FFT_NSO_FILEOBJECT
    } else if r == 5 {
        WaitType::FFT_NSO_TABLE_LIST
    } else if r == 6 {
        WaitType::FFT_NTFS_STORE
    } else if r == 7 {
        WaitType::FFT_RECOVERY
    } else if r == 8 {
        WaitType::FFT_RSFX_COMM
    } else if r == 9 {
        WaitType::FFT_RSFX_WAIT_FOR_MEMORY
    } else if r == 10 {
        WaitType::FFT_STARTUP_SHUTDOWN
    } else if r == 11 {
        WaitType::FFT_STORE_DB
    } else if r == 12 {
        WaitType::FFT_STORE_ROWSET_LIST
    } else if r == 13 {
        WaitType::FFT_STORE_TABLE
    } else if r == 14 {
        WaitType::FILESTREAM_CACHE
    } else if r == 15 {
        WaitType::FILESTREAM_CHUNKER
    } else if r == 16 {
        WaitType::FILESTREAM_CHUNKER_INIT
    } else if r == 17 {
        WaitType::FILESTREAM_FCB
    } else if r == 18 {
        WaitType::FILESTREAM_FILE_OBJECT
    } else if r == 19 {
        WaitType::FILESTREAM_WORKITEM_QUEUE
    } else if r == 20 {
        WaitType::FILETABLE_SHUTDOWN
    } else if r == 21 {
        WaitType::FILE_VALIDATION_THREADS
    } else if r == 22 {
        WaitType::FOREIGN_REDO
    } else if r == 23 {
        WaitType::FORWARDER_TRANSITION
    } else if r == 24 {
        WaitType::FSAGENT
    } else if r == 25 {
        WaitType::FSA_FORCE_OWN_XACT
    } else if r == 26 {
        WaitType::FSTR_CONFIG_MUTEX
    } else if r == 27 {
        WaitType::FSTR_CONFIG_RWLOCK
    } else if r == 28 {
        WaitType::FS_FC_RWLOCK
    } else if r == 29 {
        WaitType::FS_GARBAGE_COLLECTOR_SHUTDOWN
    } else if r == 30 {
        WaitType::FS_HEADER_RWLOCK
    } else if r == 31 {
        WaitType::FS_LOGTRUNC_RWLOCK
    } else if r == 32 {
        WaitType::FT_COMPROWSET_RWLOCK
    } else if r == 33 {
        WaitType::FT_IFTSHC_MUTEX
    } else if r == 34 {
        WaitType::FT_IFTSISM_MUTEX
    } else if r == 35 {
        WaitType::FT_IFTS_ASYNC_WRITE_PIPE
    } else if r == 36 {
        WaitType::FT_IFTS_BLOB_HASH
    } else if r == 37 {
        WaitType::FT_IFTS_CATEALOG_SOURCE
    } else if r == 38 {
        WaitType::FT_IFTS_CHUNK_BUFFER_CLIENT_MANAGER
    } else if r == 39 {
        WaitType::FT_IFTS_CHUNK_BUFFER_PROTO_WORD_LIST
    } else if r == 40 {
        WaitType::FT_IFTS_COMP_DESC_MANAGER
    } else if r == 41 {
        WaitType::FT_IFTS_CONSUMER_PLUGIN
    } else if r == 42 {
        WaitType::FT_IFTS_CRAWL_BATCH_LIST
    } else if r == 43 {
        WaitType::FT_IFTS_CRAWL_CHILDREN
    } else if r == 44 {
        WaitType::FT_IFTS_DOCID_INTERFACE_LIST
    } else if r == 45 {
        WaitType::FT_IFTS_DOCID_LIST
    } else if r == 46 {
        WaitType::FT_IFTS_FP_INFO_LIST
    } else if r == 47 {
        WaitType::FT_IFTS_HOST_CONTROLLER
    } else if r == 48 {
        WaitType::FT_IFTS_MASTER_MERGE_TASK_LIST
    } else if r == 49 {
        WaitType::FT_IFTS_MEMREGPOOL
    } else {
        WaitType::FFT_NSO_FCB_FIND
    }
}

/// The name at each place of part 3.
#[verifier::opaque]
pub open spec fn name_in_part_3(r: int) -> Seq<char> {
    if r == 0 {
        "FFT_NSO_FCB_FIND"@
    } else if r == 1 {
        "FFT_NSO_FCB_PARENT"@
    } else if r == 2 {
        "FFT_NSO_FCB_RELEASE_CACHED_ENTRIES"@
    } else if r == 3 {
        "FFT_NSO_FCB_STATE"@
    } else if r == 4 {
        "FFT_NSO_FILEOBJECT"@
    } else if r == 5 {
        "FFT_NSO_TABLE_LIST"@
    } else if r == 6 {
        "FFT_NTFS_STORE"@
    } else if r == 7 {
        "FFT_RECOVERY"@
    } else if r == 8 {
        "FFT_RSFX_COMM"@
    } else if r == 9 {
        "FFT_RSFX_WAIT_FOR_MEMORY"@
    } else if r == 10 {
        "FFT_STARTUP_SHUTDOWN"@
    } else if r == 11 {
        "FFT_STORE_DB"@
    } else if r == 12 {
        "FFT_STORE_ROWSET_LIST"@
    } else if r == 13 {
        "FFT_STORE_TABLE"@
    } else if r == 14 {
        "FILESTREAM_CACHE"@
    } else if r == 15 {
        "FILESTREAM_CHUNKER"@
    } else if r == 16 {
        "FILESTREAM_CHUNKER_INIT"@
    } else if r == 17 {
        "FILESTREAM_FCB"@
    } else if r == 18 {
        "FILESTREAM_FILE_OBJECT"@
    } else if r == 19 {
        "FILESTREAM_WORKITEM_QUEUE"@
    } else if r == 20 {
        "FILETABLE_SHUTDOWN"@
    } else if r == 21 {
        "FILE_VALIDATION_THREADS"@
    } else if r == 22 {
        "FOREIGN_REDO"@
    } else if r == 23 {
        "FORWARDER_TRANSITION"@
    } else if r == 24 {
        "FSAGENT"@
    } else if r == 25 {
        "FSA_FORCE_OWN_XACT"@
    } else if r == 26 {
        "FSTR_CONFIG_MUTEX"@
    } else if r == 27 {
        "FSTR_CONFIG_RWLOCK"@
    } else if r == 28 {
        "FS_FC_RWLOCK"@
    } else if r == 29 {
        "FS_GARBAGE_COLLECTOR_SHUTDOWN"@
    } else if r == 30 {
        "FS_HEADER_RWLOCK"@
    } else if r == 31 {
        "FS_LOGTRUNC_RWLOCK"@
    } else if r == 32 {
        "FT_COMPROWSET_RWLOCK"@
    } else if r == 33 {
        "FT_IFTSHC_MUTEX"@
    } else if r == 34 {
        "FT_IFTSISM_MUTEX"@
    } else if r == 35 {
        "FT_IFTS_ASYNC_WRITE_PIPE"@
    } else if r == 36 {
        "FT_IFTS_BLOB_HASH"@
    } else if r == 37 {
        "FT_IFTS_CATEALOG_SOURCE"@
    } else if r == 38 {
        "FT_IFTS_CHUNK_BUFFER_CLIENT_MANAGER"@
    } else if r == 39 {
        "FT_IFTS_CHUNK_BUFFER_PROTO_WORD_LIST"@
    } else if r == 40 {
        "FT_IFTS_COMP_DESC_MANAGER"@
    } else if r == 41 {
        "FT_IFTS_CONSUMER_PLUGIN"@
    } else if r == 42 {
        "FT_IFTS_CRAWL_BATCH_LIST"@
    } else if r == 43 {
        "FT_IFTS_CRAWL_CHILDREN"@
    } else if r == 44 {
        "FT_IFTS_DOCID_INTERFACE_LIST"@
    } else if r == 45 {
        "FT_IFTS_DOCID_LIST"@
    } else if r == 46 {
        "FT_IFTS_FP_INFO_LIST"@
    } else if r == 47 {
        "FT_IFTS_HOST_CONTROLLER"@
    } else if r == 48 {
        "FT_IFTS_MASTER_MERGE_TASK_LIST"@
    } else if r == 49 {
        "FT_IFTS_MEMREGPOOL"@
    } else {
        seq![]
    }
}

/// The place of each wait type of part 4 within that part.
#[verifier::opaque]
pub open spec fn rank_in_part_4(w: WaitType) -> int {
    match w {
        WaitType::FT_IFTS_MERGE_FRAGMENT_SYNC => 0,
        WaitType::FT_IFTS_NOISE_WORDS_COLLECTION_CACHE => 1,
        WaitType::FT_IFTS_NOISE_WORDS_RESOURCE => 2,
        WaitType::FT_IFTS_OCCURRENCE_BUFFER_POOL => 3,
        WaitType::FT_IFTS_PIPELINE => 4,
        WaitType::FT_IFTS_PIPELINE_LIST => 5,
        WaitType::FT_IFTS_PIPELINE_MANAGER => 6,
        WaitType::FT_IFTS_PROJECT_FD_INFO_MAP => 7,
        WaitType::FT_IFTS_RWLOCK => 8,
        WaitType::FT_IFTS_SCHEDULER => 9,
        WaitType::FT_IFTS_SCHEDULER_IDLE_WAIT => 10,
        WaitType::FT_IFTS_SHARED_MEMORY => 11,
        WaitType::FT_IFTS_SHUTDOWN_PIPE => 12,
        WaitType::FT_IFTS_SRCH_FD_MANAGER => 13,
        WaitType::FT_IFTS_SRCH_FD_SERVICE => 14,
        WaitType::FT_IFTS_STOPLIST_CACHE_MANAGER => 15,
        WaitType::FT_IFTS_THESAURUS => 16,
        WaitType::FT_IFTS_VERSION_MANAGER => 17,
        WaitType::FT_IFTS_WORK_QUEUE => 18,
        WaitType::FT_MASTER_MERGE => 19,
        WaitType::FT_MASTER_MERGE_COORDINATOR => 20,
        WaitType::FT_METADATA_MUTEX => 21,
        WaitType::FT_PROPERTYLIST_CACHE => 22,
        WaitType::FT_RESTART_CRAWL => 23,
        WaitType::FULLTEXT_GATHERER => 24,
        WaitType::GDMA_GET_RESOURCE_OWNER => 25,
        WaitType::GHOSTCLEANUPSYNCMGR => 26,
        WaitType::GHOSTCLEANUP_UPDATE_STATS => 27,
        WaitType::GLOBAL_QUERY_CANCEL => 28,
        WaitType::GLOBAL_QUERY_CLOSE => 29,
        WaitType::GLOBAL_QUERY_CONSUMER => 30,
        WaitType::GLOBAL_QUERY_PRODUCER => 31,
        WaitType::GLOBAL_TRAN_CREATE => 32,
        WaitType::GLOBAL_TRAN_UCS_SESSION => 33,
        WaitType::GUARDIAN => 34,
        WaitType::HADR_AG_MUTEX => 35,
        WaitType::HADR_ARCONTROLLER_NOTIFICATIONS_SUBSCRIBER_LIST => 36,
        WaitType::HADR_AR_CRITICAL_SECTION_ENTRY => 37,
        WaitType::HADR_AR_MANAGER_MUTEX => 38,
        WaitType::HADR_AR_UNLOAD_COMPLETED => 39,
        WaitType::HADR_BACKUP_BULK_LOCK => 40,
        WaitType::HADR_BACKUP_QUEUE => 41,
        WaitType::HADR_CLUSAPI_CALL => 42,
        WaitType::HADR_COMPRESSED_CACHE_SYNC => 43,
        WaitType::HADR_CONNECTIVITY_INFO => 44,
        WaitType::HADR_DATABASE_FLOW_CONTROL => 45,
        WaitType::HADR_DATABASE_VERSIONING_STATE => 46,
        WaitType::HADR_DATABASE_WAIT_FOR_RECOVERY => 47,
        WaitType::HADR_DATABASE_WAIT_FOR_RESTART => 48,
        WaitType::HADR_DATABASE_WAIT_FOR_TRANSITION_TO_VERSIONING => 49,
        _ => 0,
    }
}

/// The wait type at each place of part 4.
#[verifier::opaque]
pub open spec fn ranked_in_part_4(r: int) -> WaitType {
    if r == 0 {
        WaitType::FT_IFTS_MERGE_FRAGMENT_SYNC
    } else if r == 1 {
        WaitType::FT_IFTS_NOISE_WORDS_COLLECTION_CACHE
    } else if r == 2 {
        WaitType::FT_IFTS_NOISE_WORDS_RESOURCE
    } else if r == 3 {
        WaitType::FT_IFTS_OCCURRENCE_BUFFER_POOL
    } else if r == 4 {
        WaitType::FT_IFTS_PIPELINE
    } else if r == 5 {
        WaitType::FT_IFTS_PIPELINE_LIST
    } else if r == 6 {
        WaitType::FT_IFTS_PIPELINE_MANAGER
    } else if r == 7 {
        WaitType::FT_IFTS_PROJECT_FD_INFO_MAP
    } else if r == 8 {
        WaitType::FT_IFTS_RWLOCK
    } else if r == 9 {
        WaitType::FT_IFTS_SCHEDULER
    } else if r == 10 {
        WaitType::FT_IFTS_SCHEDULER_IDLE_WAIT
    } else if r == 11 {
        WaitType::FT_IFTS_SHARED_MEMORY
    } else if r == 12 {
        WaitType::FT_IFTS_SHUTDOWN_PIPE
    } else if r == 13 {
        WaitType::FT_IFTS_SRCH_FD_MANAGER
    } else if r == 14 {
        WaitType::FT_IFTS_SRCH_FD_SERVICE
    } else if r == 15 {
        WaitType::FT_IFTS_STOPLIST_CACHE_MANAGER
    } else if r == 16 {
        WaitType::FT_IFTS_THESAURUS
    } else if r == 17 {
        WaitType::FT_IFTS_VERSION_MANAGER
    } else if r == 18 {
        WaitType::FT_IFTS_WORK_QUEUE
    } else if r == 19 {
        WaitType::FT_MASTER_MERGE
    } else if r == 20 {
        WaitType::FT_MASTER_MERGE_COORDINATOR
    } else if r == 21 {
        WaitType::FT_METADATA_MUTEX
    } else if r == 22 {
        WaitType::FT_PROPERTYLIST_CACHE
    } else if r == 23 {
        WaitType::FT_RESTART_CRAWL
    } else if r == 24 {
        WaitType::FULLTEXT_GATHERER
    } else if r == 25 {
        WaitType::GDMA_GET_RESOURCE_OWNER
    } else if r == 26 {
        WaitType::GHOSTCLEANUPSYNCMGR
    } else if r == 27 {
        WaitType::GHOSTCLEANUP_UPDATE_STATS
    } else if r == 28 {
        WaitType::GLOBAL_QUERY_CANCEL
    } else if r == 29 {
        WaitType::GLOBAL_QUERY_CLOSE
    } else if r == 30 {
        WaitType::GLOBAL_QUERY_CONSUMER
    } else if r == 31 {
        WaitType::GLOBAL_QUERY_PRODUCER
    } else if r == 32 {
        WaitType::GLOBAL_TRAN_CREATE
    } else if r == 33 {
        WaitType::GLOBAL_TRAN_UCS_SESSION
    } else if r == 34 {
        WaitType::GUARDIAN
    } else if r == 35 {
        WaitType::HADR_AG_MUTEX
    } else if r == 36 {
        WaitType::HADR_ARCONTROLLER_NOTIFICATIONS_SUBSCRIBER_LIST
    } else if r == 37 {
        WaitType::HADR_AR_CRITICAL_SECTION_ENTRY
    } else if r == 38 {
        WaitType::HADR_AR_MANAGER_MUTEX
    } else if r == 39 {
        WaitType::HADR_AR_UNLOAD_COMPLETED
    } else if r == 40 {
        WaitType::HADR_BACKUP_BULK_LOCK
    } else if r == 41 {
        WaitType::HADR_BACKUP_QUEUE
    } else if r == 42 {
        WaitType::HADR_CLUSAPI_CALL
    } else if r == 43 {
        WaitType::HADR_COMPRESSED_CACHE_SYNC
    } else if r == 44 {
        WaitType::HADR_CONNECTIVITY_INFO
    } else if r == 45 {
        WaitType::HADR_DATABASE_FLOW_CONTROL
    } else if r == 46 {
        WaitType::HADR_DATABASE_VERSIONING_STATE
    } else if r == 47 {
        WaitType::HADR_DATABASE_WAIT_FOR_RECOVERY
    } else if r == 48 {
        WaitType::HADR_DATABASE_WAIT_FOR_RESTART
    } else if r == 49 {
        WaitType::HADR_DATABASE_WAIT_FOR_TRANSITION_TO_VERSIONING
    } else {
        WaitType::FT_IFTS_MERGE_FRAGMENT_SYNC
    }
}

/// The name at each place of part 4.
#[verifier::opaque]
pub open spec fn name_in_part_4(r: int) -> Seq<char> {
    if r == 0 {
        "FT_IFTS_MERGE_FRAGMENT_SYNC"@
    } else if r == 1 {
        "FT_IFTS_NOISE_WORDS_COLLECTION_CACHE"@
    } else if r == 2 {
        "FT_IFTS_NOISE_WORDS_RESOURCE"@
    } else if r == 3 {
        "FT_IFTS_OCCURRENCE_BUFFER_POOL"@
    } else if r == 4 {
        "FT_IFTS_PIPELINE"@
    } else if r == 5 {
        "FT_IFTS_PIPELINE_LIST"@
    } else if r == 6 {
        "FT_IFTS_PIPELINE_MANAGER"@
    } else if r == 7 {
        "FT_IFTS_PROJECT_FD_INFO_MAP"@
    } else if r == 8 {
        "FT_IFTS_RWLOCK"@
    } else if r == 9 {
        "FT_IFTS_SCHEDULER"@
    } else if r == 10 {
        "FT_IFTS_SCHEDULER_IDLE_WAIT"@
    } else if r == 11 {
        "FT_IFTS_SHARED_MEMORY"@
    } else if r == 12 {
        "FT_IFTS_SHUTDOWN_PIPE"@
    } else if r == 13 {
        "FT_IFTS_SRCH_FD_MANAGER"@
    } else if r == 14 {
        "FT_IFTS_SRCH_FD_SERVICE"@
    } else if r == 15 {
        "FT_IFTS_STOPLIST_CACHE_MANAGER"@
    } else if r == 16 {
        "FT_IFTS_THESAURUS"@
    } else if r == 17 {
        "FT_IFTS_VERSION_MANAGER"@
    } else if r == 18 {
        "FT_IFTS_WORK_QUEUE"@
    } else if r == 19 {
        "FT_MASTER_MERGE"@
    } else if r == 20 {
        "FT_MASTER_MERGE_COORDINATOR"@
    } else if r == 21 {
        "FT_METADATA_MUTEX"@
    } else if r == 22 {
        "FT_PROPERTYLIST_CACHE"@
    } else if r == 23 {
        "FT_RESTART_CRAWL"@
    } else if r == 24 {
        "FULLTEXT GATHERER"@
    } else if r == 25 {
        "GDMA_GET_RESOURCE_OWNER"@
    } else if r == 26 {
        "GHOSTCLEANUPSYNCMGR"@
    } else if r == 27 {
        "GHOSTCLEANUP_UPDATE_STATS"@
    } else if r == 28 {
        "GLOBAL_QUERY_CANCEL"@
    } else if r == 29 {
        "GLOBAL_QUERY_CLOSE"@
    } else if r == 30 {
        "GLOBAL_QUERY_CONSUMER"@
    } else if r == 31 {
        "GLOBAL_QUERY_PRODUCER"@
    } else if r == 32 {
        "GLOBAL_TRAN_CREATE"@
    } else if r == 33 {
        "GLOBAL_TRAN_UCS_SESSION"@
    } else if r == 34 {
        "GUARDIAN"@
    } else if r == 35 {
        "HADR_AG_MUTEX"@
    } else if r == 36 {
        "HADR_ARCONTROLLER_NOTIFICATIONS_SUBSCRIBER_LIST"@
    } else if r == 37 {
        "HADR_AR_CRITICAL_SECTION_ENTRY"@
    } else if r == 38 {
        "HADR_AR_MANAGER_MUTEX"@
    } else if r == 39 {
        "HADR_AR_UNLOAD_COMPLETED"@
    } else if r == 40 {
        "HADR_BACKUP_BULK_LOCK"@
    } else if r == 41 {
        "HADR_BACKUP_QUEUE"@
    } else if r == 42 {
        "HADR_CLUSAPI_CALL"@
    } else if r == 43 {
        "HADR_COMPRESSED_CACHE_SYNC"@
    } else if r == 44 {
        "HADR_CONNECTIVITY_INFO"@
    } else if r == 45 {
        "HADR_DATABASE_FLOW_CONTROL"@
    } else if r == 46 {
        "HADR_DATABASE_VERSIONING_STATE"@
    } else if r == 47 {
        "HADR_DATABASE_WAIT_FOR_RECOVERY"@
    } else if r == 48 {
        "HADR_DATABASE_WAIT_FOR_RESTART"@
    } else if r == 49 {
        "HADR_DATABASE_WAIT_FOR_TRANSITION_TO_VERSIONING"@
    } else {
        seq![]
    }
}

/// The place of each wait type of part 5 within that part.
#[verifier::opaque]
pub open spec fn rank_in_part_5(w: WaitType) -> int {
    match w {
        WaitType::HADR_DBR_SUBSCRIBER => 0,
        WaitType::HADR_DBR_SUBSCRIBER_FILTER_LIST => 1,
        WaitType::HADR_DBSEEDING => 2,
        WaitType::HADR_DBSEEDING_LIST => 3,
        WaitType::HADR_DBSTATECHANGE_SYNC => 4,
        WaitType::HADR_DB_COMMAND => 5,
        WaitType::HADR_DB_OP_COMPLETION_SYNC => 6,
        WaitType::HADR_DB_OP_START_SYNC => 7,
        WaitType::HADR_FABRIC_CALLBACK => 8,
        WaitType::HADR_FILESTREAM_BLOCK_FLUSH => 9,
        WaitType::HADR_FILESTREAM_FILE_CLOSE => 10,
        WaitType::HADR_FILESTREAM_FILE_REQUEST => 11,
        WaitType::HADR_FILESTREAM_IOMGR => 12,
        WaitType::HADR_FILESTREAM_IOMGR_IOCOMPLETION => 13,
        WaitType::HADR_FILESTREAM_MANAGER => 14,
        WaitType::HADR_FILESTREAM_PREPROC => 15,
        WaitType::HADR_GROUP_COMMIT => 16,
        WaitType::HADR_LOGCAPTURE_SYNC => 17,
        WaitType::HADR_LOGCAPTURE_WAIT => 18,
        WaitType::HADR_LOGPROGRESS_SYNC => 19,
        WaitType::HADR_NOTIFICATION_DEQUEUE => 20,
        WaitType::HADR_NOTIFICATION_WORKER_EXCLUSIVE_ACCESS => 21,
        WaitType::HADR_NOTIFICATION_WORKER_STARTUP_SYNC => 22,
        WaitType::HADR_NOTIFICATION_WORKER_TERMINATION_SYNC => 23,
        WaitType::HADR_PARTNER_SYNC => 24,
        WaitType::HADR_READ_ALL_NETWORKS => 25,
        WaitType::HADR_RECOVERY_WAIT_FOR_CONNECTION => 26,
        WaitType::HADR_RECOVERY_WAIT_FOR_UNDO => 27,
        WaitType::HADR_REPLICAINFO_SYNC => 28,
        WaitType::HADR_SEEDING_CANCELLATION => 29,
        WaitType::HADR_SEEDING_FILE_LIST => 30,
        WaitType::HADR_SEEDING_LIMIT_BACKUPS => 31,
        WaitType::HADR_SEEDING_SYNC_COMPLETION => 32,
        WaitType::HADR_SEEDING_TIMEOUT_TASK => 33,
        WaitType::HADR_SEEDING_WAIT_FOR_COMPLETION => 34,
        WaitType::HADR_SYNCHRONIZING_THROTTLE => 35,
        WaitType::HADR_SYNC_COMMIT => 36,
        WaitType::HADR_TDS_LISTENER_SYNC => 37,
        WaitType::HADR_TDS_LISTENER_SYNC_PROCESSING => 38,
        WaitType::HADR_THROTTLE_LOG_RATE_GOVERNOR => 39,
        WaitType::HADR_THROTTLE_LOG_RATE_LOG_SIZE => 40,
        WaitType::HADR_THROTTLE_LOG_RATE_MISMATCHED_SLO => 41,
        WaitType::HADR_THROTTLE_LOG_RATE_SEEDING => 42,
        WaitType::HADR_THROTTLE_LOG_RATE_SEND_RECV_QUEUE_SIZE => 43,
        WaitType::HADR_TIMER_TASK => 44,
        WaitType::HADR_TRANSPORT_DBRLIST => 45,
        WaitType::HADR_TRANSPORT_FLOW_CONTROL => 46,
        WaitType::HADR_TRANSPORT_SESSION => 47,
        WaitType::HADR_WORK_POOL => 48,
        WaitType::HADR_WORK_QUEUE => 49,
        _ => 0,
    }
}

/// The wait type at each place of part 5.
#[verifier::opaque]
pub open spec fn ranked_in_part_5(r: int) -> WaitType {
    if r == 0 {
        WaitType::HADR_DBR_SUBSCRIBER
    } else if r == 1 {
        WaitType::HADR_DBR_SUBSCRIBER_FILTER_LIST
    } else if r == 2 {
        WaitType::HADR_DBSEEDING
    } else if r == 3 {
        WaitType::HADR_DBSEEDING_LIST
    } else if r == 4 {
        WaitType::HADR_DBSTATECHANGE_SYNC
    } else if r == 5 {
        WaitType::HADR_DB_COMMAND
    } else if r == 6 {
        WaitType::HADR_DB_OP_COMPLETION_SYNC
    } else if r == 7 {
        WaitType::HADR_DB_OP_START_SYNC
    } else if r == 8 {
        WaitType::HADR_FABRIC_CALLBACK
    } else if r == 9 {
        WaitType::HADR_FILESTREAM_BLOCK_FLUSH
    } else if r == 10 {
        WaitType::HADR_FILESTREAM_FILE_CLOSE
    } else if r == 11 {
        WaitType::HADR_FILESTREAM_FILE_REQUEST
    } else if r == 12 {
        WaitType::HADR_FILESTREAM_IOMGR
    } else if r == 13 {
        WaitType::HADR_FILESTREAM_IOMGR_IOCOMPLETION
    } else if r == 14 {
        WaitType::HADR_FILESTREAM_MANAGER
    } else if r == 15 {
        WaitType::HADR_FILESTREAM_PREPROC
    } else if r == 16 {
        WaitType::HADR_GROUP_COMMIT
    } else if r == 17 {
        WaitType::HADR_LOGCAPTURE_SYNC
    } else if r == 18 {
        WaitType::HADR_LOGCAPTURE_WAIT
    } else if r == 19 {
        WaitType::HADR_LOGPROGRESS_SYNC
    } else if r == 20 {
        WaitType::HADR_NOTIFICATION_DEQUEUE
    } else if r == 21 {
        WaitType::HADR_NOTIFICATION_WORKER_EXCLUSIVE_ACCESS
    } else if r == 22 {
        WaitType::HADR_NOTIFICATION_WORKER_STARTUP_SYNC
    } else if r == 23 {
        WaitType::HADR_NOTIFICATION_WORKER_TERMINATION_SYNC
    } else if r == 24 {
        WaitType::HADR_PARTNER_SYNC
    } else if r == 25 {
        WaitType::HADR_READ_ALL_NETWORKS
    } else if r == 26 {
        WaitType::HADR_RECOVERY_WAIT_FOR_CONNECTION
    } else if r == 27 {
        WaitType::HADR_RECOVERY_WAIT_FOR_UNDO
    } else if r == 28 {
        WaitType::HADR_REPLICAINFO_SYNC
    } else if r == 29 {
        WaitType::HADR_SEEDING_CANCELLATION
    } else if r == 30 {
        WaitType::HADR_SEEDING_FILE_LIST
    } else if r == 31 {
        WaitType::HADR_SEEDING_LIMIT_BACKUPS
    } else if r == 32 {
        WaitType::HADR_SEEDING_SYNC_COMPLETION
    } else if r == 33 {
        WaitType::HADR_SEEDING_TIMEOUT_TASK
    } else if r == 34 {
        WaitType::HADR_SEEDING_WAIT_FOR_COMPLETION
    } else if r == 35 {
        WaitType::HADR_SYNCHRONIZING_THROTTLE
    } else if r == 36 {
        WaitType::HADR_SYNC_COMMIT
    } else if r == 37 {
        WaitType::HADR_TDS_LISTENER_SYNC
    } else if r == 38 {
        WaitType::HADR_TDS_LISTENER_SYNC_PROCESSING
    } else if r == 39 {
        WaitType::HADR_THROTTLE_LOG_RATE_GOVERNOR
    } else if r == 40 {
        WaitType::HADR_THROTTLE_LOG_RATE_LOG_SIZE
    } else if r == 41 {
        WaitType::HADR_THROTTLE_LOG_RATE_MISMATCHED_SLO
    } else if r == 42 {
        WaitType::HADR_THROTTLE_LOG_RATE_SEEDING
    } else if r == 43 {
        WaitType::HADR_THROTTLE_LOG_RATE_SEND_RECV_QUEUE_SIZE
    } else if r == 44 {
        WaitType::HADR_TIMER_TASK
    } else if r == 45 {
        WaitType::HADR_TRANSPORT_DBRLIST
    } else if r == 46 {
        WaitType::HADR_TRANSPORT_FLOW_CONTROL
    } else if r == 47 {
        WaitType::HADR_TRANSPORT_SESSION
    } else if r == 48 {
        WaitType::HADR_WORK_POOL
    } else if r == 49 {
        WaitType::HADR_WORK_QUEUE
    } else {
        WaitType::HADR_DBR_SUBSCRIBER
    }
}

/// The name at each place of part 5.
#[verifier::opaque]
pub open spec fn name_in_part_5(r: int) -> Seq<char> {
    if r == 0 {
        "HADR_DBR_SUBSCRIBER"@
    } else if r == 1 {
        "HADR_DBR_SUBSCRIBER_FILTER_LIST"@
    } else if r == 2 {
        "HADR_DBSEEDING"@
    } else if r == 3 {
        "HADR_DBSEEDING_LIST"@
    } else if r == 4 {
        "HADR_DBSTATECHANGE_SYNC"@
    } else if r == 5 {
        "HADR_DB_COMMAND"@
    } else if r == 6 {
        "HADR_DB_OP_COMPLETION_SYNC"@
    } else if r == 7 {
        "HADR_DB_OP_START_SYNC"@
    } else if r == 8 {
        "HADR_FABRIC_CALLBACK"@
    } else if r == 9 {
        "HADR_FILESTREAM_BLOCK_FLUSH"@
    } else if r == 10 {
        "HADR_FILESTREAM_FILE_CLOSE"@
    } else if r == 11 {
        "HADR_FILESTREAM_FILE_REQUEST"@
    } else if r == 12 {
        "HADR_FILESTREAM_IOMGR"@
    } else if r == 13 {
        "HADR_FILESTREAM_IOMGR_IOCOMPLETION"@
    } else if r == 14 {
        "HADR_FILESTREAM_MANAGER"@
    } else if r == 15 {
        "HADR_FILESTREAM_PREPROC"@
    } else if r == 16 {
        "HADR_GROUP_COMMIT"@
    } else if r == 17 {
        "HADR_LOGCAPTURE_SYNC"@
    } else if r == 18 {
        "HADR_LOGCAPTURE_WAIT"@
    } else if r == 19 {
        "HADR_LOGPROGRESS_SYNC"@
    } else if r == 20 {
        "HADR_NOTIFICATION_DEQUEUE"@
    } else if r == 21 {
        "HADR_NOTIFICATION_WORKER_EXCLUSIVE_ACCESS"@
    } else if r == 22 {
        "HADR_NOTIFICATION_WORKER_STARTUP_SYNC"@
    } else if r == 23 {
        "HADR_NOTIFICATION_WORKER_TERMINATION_SYNC"@
    } else if r == 24 {
        "HADR_PARTNER_SYNC"@
    } else if r == 25 {
        "HADR_READ_ALL_NETWORKS"@
    } else if r == 26 {
        "HADR_RECOVERY_WAIT_FOR_CONNECTION"@
    } else if r == 27 {
        "HADR_RECOVERY_WAIT_FOR_UNDO"@
    } else if r == 28 {
        "HADR_REPLICAINFO_SYNC"@
    } else if r == 29 {
        "HADR_SEEDING_CANCELLATION"@
    } else if r == 30 {
        "HADR_SEEDING_FILE_LIST"@
    } else if r == 31 {
        "HADR_SEEDING_LIMIT_BACKUPS"@
    } else if r == 32 {
        "HADR_SEEDING_SYNC_COMPLETION"@
    } else if r == 33 {
        "HADR_SEEDING_TIMEOUT_TASK"@
    } else if r == 34 {
        "HADR_SEEDING_WAIT_FOR_COMPLETION"@
    } else if r == 35 {
        "HADR_SYNCHRONIZING_THROTTLE"@
    } else if r == 36 {
        "HADR_SYNC_COMMIT"@
    } else if r == 37 {
        "HADR_TDS_LISTENER_SYNC"@
    } else if r == 38 {
        "HADR_TDS_LISTENER_SYNC_PROCESSING"@
    } else if r == 39 {
        "HADR_THROTTLE_LOG_RATE_GOVERNOR"@
    } else if r == 40 {
        "HADR_THROTTLE_LOG_RATE_LOG_SIZE"@
    } else if r == 41 {
        "HADR_THROTTLE_LOG_RATE_MISMATCHED_SLO"@
    } else if r == 42 {
        "HADR_THROTTLE_LOG_RATE_SEEDING"@
    } else if r == 43 {
        "HADR_THROTTLE_LOG_RATE_SEND_RECV_QUEUE_SIZE"@
    } else if r == 44 {
        "HADR_TIMER_TASK"@
    } else if r == 45 {
        "HADR_TRANSPORT_DBRLIST"@
    } else if r == 46 {
        "HADR_TRANSPORT_FLOW_CONTROL"@
    } else if r == 47 {
        "HADR_TRANSPORT_SESSION"@
    } else if r == 48 {
        "HADR_WORK_POOL"@
    } else if r == 49 {
        "HADR_WORK_QUEUE"@
    } else {
        seq![]
    }
}

/// The place of each wait type of part 6 within that part.
#[verifier::opaque]
pub open spec fn rank_in_part_6(w: WaitType) -> int {
    match w {
        WaitType::HADR_XRF_STACK_ACCESS => 0,
        WaitType::HCCO_CACHE => 1,
        WaitType::HKCS_PARALLEL_MIGRATION => 2,
        WaitType::HKCS_PARALLEL_RECOVERY => 3,
        WaitType::HK_RESTORE_FILEMAP => 4,
        WaitType::HTBUILD => 5,
        WaitType::HTBUILD_AGG => 6,
        WaitType::HTBUILD_JOIN => 7,
        WaitType::HTDELETE => 8,
        WaitType::HTDELETE_AGG => 9,
        WaitType::HTDELETE_JOIN => 10,
        WaitType::HTMEMO => 11,
        WaitType::HTREINIT => 12,
        WaitType::HTREPARTITION => 13,
        WaitType::HTTP_ENUMERATION => 14,
        WaitType::HTTP_START => 15,
        WaitType::HTTP_STORAGE_CONNECTION => 16,
        WaitType::IMPPROV_IOWAIT => 17,
        WaitType::INSTANCE_LOG_RATE_GOVERNOR => 18,
        WaitType::INTERNAL_TESTING => 19,
        WaitType::IOAFF_RANGE_QUEUE => 20,
        WaitType::IO_AUDIT_MUTEX => 21,
        WaitType::IO_COMPLETION => 22,
        WaitType::IO_QUEUE_LIMIT => 23,
        WaitType::IO_RETRY => 24,
        WaitType::KSOURCE_WAKEUP => 25,
        WaitType::KTM_ENLISTMENT => 26,
        WaitType::KTM_RECOVERY_MANAGER => 27,
        WaitType::KTM_RECOVERY_RESOLUTION => 28,
        WaitType::LATCH_DT => 29,
        WaitType::LATCH_EX => 30,
        WaitType::LATCH_KP => 31,
        WaitType::LATCH_NL => 32,
        WaitType::LATCH_SH => 33,
        WaitType::LATCH_UP => 34,
        WaitType::LAZYWRITER_SLEEP => 35,
        WaitType::LCK_M_BU => 36,
        WaitType::LCK_M_BU_ABORT_BLOCKERS => 37,
        WaitType::LCK_M_BU_LOW_PRIORITY => 38,
        WaitType::LCK_M_IS => 39,
        WaitType::LCK_M_IS_ABORT_BLOCKERS => 40,
        WaitType::LCK_M_IS_LOW_PRIORITY => 41,
        WaitType::LCK_M_IU => 42,
        WaitType::LCK_M_IU_ABORT_BLOCKERS => 43,
        WaitType::LCK_M_IU_LOW_PRIORITY => 44,
        WaitType::LCK_M_IX => 45,
        WaitType::LCK_M_IX_ABORT_BLOCKERS => 46,
        WaitType::LCK_M_IX_LOW_PRIORITY => 47,
        WaitType::LCK_M_RIn_NL => 48,
        WaitType::LCK_M_RIn_NL_ABORT_BLOCKERS => 49,
        _ => 0,
    }
}

/// The wait type at each place of part 6.
#[verifier::opaque]
pub open spec fn ranked_in_part_6(r: int) -> WaitType {
    if r == 0 {
        WaitType::HADR_XRF_STACK_ACCESS
    } else if r == 1 {
        WaitType::HCCO_CACHE
    } else if r == 2 {
        WaitType::HKCS_PARALLEL_MIGRATION
    } else if r == 3 {
        WaitType::HKCS_PARALLEL_RECOVERY
    } else if r == 4 {
        WaitType::HK_RESTORE_FILEMAP
    } else if r == 5 {
        WaitType::HTBUILD
    } else if r == 6 {
        WaitType::HTBUILD_AGG
    } else if r == 7 {
        WaitType::HTBUILD_JOIN
    } else if r == 8 {
        WaitType::HTDELETE
    } else if r == 9 {
        WaitType::HTDELETE_AGG
    } else if r == 10 {
        WaitType::HTDELETE_JOIN
    } else if r == 11 {
        WaitType::HTMEMO
    } else if r == 12 {
        WaitType::HTREINIT
    } else if r == 13 {
        WaitType::HTREPARTITION
    } else if r == 14 {
        WaitType::HTTP_ENUMERATION
    } else if r == 15 {
        WaitType::HTTP_START
    } else if r == 16 {
        WaitType::HTTP_STORAGE_CONNECTION
    } else if r == 17 {
        WaitType::IMPPROV_IOWAIT
    } else if r == 18 {
        WaitType::INSTANCE_LOG_RATE_GOVERNOR
    } else if r == 19 {
        WaitType::INTERNAL_TESTING
    } else if r == 20 {
        WaitType::IOAFF_RANGE_QUEUE
    } else if r == 21 {
        WaitType::IO_AUDIT_MUTEX
    } else if r == 22 {
        WaitType::IO_COMPLETION
    } else if r == 23 {
        WaitType::IO_QUEUE_LIMIT
    } else if r == 24 {
        WaitType::IO_RETRY
    } else if r == 25 {
        WaitType::KSOURCE_WAKEUP
    } else if r == 26 {
        WaitType::KTM_ENLISTMENT
    } else if r == 27 {
        WaitType::KTM_RECOVERY_MANAGER
    } else if r == 28 {
        WaitType::KTM_RECOVERY_RESOLUTION
    } else if r == 29 {
        WaitType::LATCH_DT
    } else if r == 30 {
        WaitType::LATCH_EX
    } else if r == 31 {
        WaitType::LATCH_KP
    } else if r == 32 {
        WaitType::LATCH_NL
    } else if r == 33 {
        WaitType::LATCH_SH
    } else if r == 34 {
        WaitType::LATCH_UP
    } else if r == 35 {
        WaitType::LAZYWRITER_SLEEP
    } else if r == 36 {
        WaitType::LCK_M_BU
    } else if r == 37 {
        WaitType::LCK_M_BU_ABORT_BLOCKERS
    } else if r == 38 {
        WaitType::LCK_M_BU_LOW_PRIORITY
    } else if r == 39 {
        WaitType::LCK_M_IS
    } else if r == 40 {
        WaitType::LCK_M_IS_ABORT_BLOCKERS
    } else if r == 41 {
        WaitType::LCK_M_IS_LOW_PRIORITY
    } else if r == 42 {
        WaitType::LCK_M_IU
    } else if r == 43 {
        WaitType::LCK_M_IU_ABORT_BLOCKERS
    } else if r == 44 {
        WaitType::LCK_M_IU_LOW_PRIORITY
    } else if r == 45 {
        WaitType::LCK_M_IX
    } else if r == 46 {
        WaitType::LCK_M_IX_ABORT_BLOCKERS
    } else if r == 47 {
        WaitType::LCK_M_IX_LOW_PRIORITY
    } else if r == 48 {
        WaitType::LCK_M_RIn_NL
    } else if r == 49 {
        WaitType::LCK_M_RIn_NL_ABORT_BLOCKERS
    } else {
        WaitType::HADR_XRF_STACK_ACCESS
    }
}

/// The name at each place of part 6.
#[verifier::opaque]
pub open spec fn name_in_part_6(r: int) -> Seq<char> {
    if r == 0 {
        "HADR_XRF_STACK_ACCESS"@
    } else if r == 1 {
        "HCCO_CACHE"@
    } else if r == 2 {
        "HKCS_PARALLEL_MIGRATION"@
    } else if r == 3 {
        "HKCS_PARALLEL_RECOVERY"@
    } else if r == 4 {
        "HK_RESTORE_FILEMAP"@
    } else if r == 5 {
        "HTBUILD"@
    } else if r == 6 {
        "HTBUILD_AGG"@
    } else if r == 7 {
        "HTBUILD_JOIN"@
    } else if r == 8 {
        "HTDELETE"@
    } else if r == 9 {
        "HTDELETE_AGG"@
    } else if r == 10 {
        "HTDELETE_JOIN"@
    } else if r == 11 {
        "HTMEMO"@
    } else if r == 12 {
        "HTREINIT"@
    } else if r == 13 {
        "HTREPARTITION"@
    } else if r == 14 {
        "HTTP_ENUMERATION"@
    } else if r == 15 {
        "HTTP_START"@
    } else if r == 16 {
        "HTTP_STORAGE_CONNECTION"@
    } else if r == 17 {
        "IMPPROV_IOWAIT"@
    } else if r == 18 {
        "INSTANCE_LOG_RATE_GOVERNOR"@
    } else if r == 19 {
        "INTERNAL_TESTING"@
    } else if r == 20 {
        "IOAFF_RANGE_QUEUE"@
    } else if r == 21 {
        "IO_AUDIT_MUTEX"@
    } else if r == 22 {
        "IO_COMPLETION"@
    } else if r == 23 {
        "IO_QUEUE_LIMIT"@
    } else if r == 24 {
        "IO_RETRY"@
    } else if r == 25 {
        "KSOURCE_WAKEUP"@
    } else if r == 26 {
        "KTM_ENLISTMENT"@
    } else if r == 27 {
        "KTM_RECOVERY_MANAGER"@
    } else if r == 28 {
        "KTM_RECOVERY_RESOLUTION"@
    } else if r == 29 {
        "LATCH_DT"@
    } else if r == 30 {
        "LATCH_EX"@
    } else if r == 31 {
        "LATCH_KP"@
    } else if r == 32 {
        "LATCH_NL"@
    } else if r == 33 {
        "LATCH_SH"@
    } else if r == 34 {
        "LATCH_UP"@
    } else if r == 35 {
        "LAZYWRITER_SLEEP"@
    } else if r == 36 {
        "LCK_M_BU"@
    } else if r == 37 {
        "LCK_M_BU_ABORT_BLOCKERS"@
    } else if r == 38 {
        "LCK_M_BU_LOW_PRIORITY"@
    } else if r == 39 {
        "LCK_M_IS"@
    } else if r == 40 {
        "LCK_M_IS_ABORT_BLOCKERS"@
    } else if r == 41 {
        "LCK_M_IS_LOW_PRIORITY"@
    } else if r == 42 {
        "LCK_M_IU"@
    } else if r == 43 {
        "LCK_M_IU_ABORT_BLOCKERS"@
    } else if r == 44 {
        "LCK_M_IU_LOW_PRIORITY"@
    } else if r == 45 {
        "LCK_M_IX"@
    } else if r == 46 {
        "LCK_M_IX_ABORT_BLOCKERS"@
    } else if r == 47 {
        "LCK_M_IX_LOW_PRIORITY"@
    } else if r == 48 {
        "LCK_M_RIn_NL"@
    } else if r == 49 {
        "LCK_M_RIn_NL_ABORT_BLOCKERS"@
    } else {
        seq![]
    }
}

/// The place of each wait type of part 7 within that part.
#[verifier::opaque]
pub open spec fn rank_in_part_7(w: WaitType) -> int {
    match w {
        WaitType::LCK_M_RIn_NL_LOW_PRIORITY => 0,
        WaitType::LCK_M_RIn_S => 1,
        WaitType::LCK_M_RIn_S_ABORT_BLOCKERS => 2,
        WaitType::LCK_M_RIn_S_LOW_PRIORITY => 3,
        WaitType::LCK_M_RIn_U => 4,
        WaitType::LCK_M_RIn_U_ABORT_BLOCKERS => 5,
        WaitType::LCK_M_RIn_U_LOW_PRIORITY => 6,
        WaitType::LCK_M_RIn_X => 7,
        WaitType::LCK_M_RIn_X_ABORT_BLOCKERS => 8,
        WaitType::LCK_M_RIn_X_LOW_PRIORITY => 9,
        WaitType::LCK_M_RS_S => 10,
        WaitType::LCK_M_RS_S_ABORT_BLOCKERS => 11,
        WaitType::LCK_M_RS_S_LOW_PRIORITY => 12,
        WaitType::LCK_M_RS_U => 13,
        WaitType::LCK_M_RS_U_ABORT_BLOCKERS => 14,
        WaitType::LCK_M_RS_U_LOW_PRIORITY => 15,
        WaitType::LCK_M_RX_S => 16,
        WaitType::LCK_M_RX_S_ABORT_BLOCKERS => 17,
        WaitType::LCK_M_RX_S_LOW_PRIORITY => 18,
        WaitType::LCK_M_RX_U => 19,
        WaitType::LCK_M_RX_U_ABORT_BLOCKERS => 20,
        WaitType::LCK_M_RX_U_LOW_PRIORITY => 21,
        WaitType::LCK_M_RX_X => 22,
        WaitType::LCK_M_RX_X_ABORT_BLOCKERS => 23,
        WaitType::LCK_M_RX_X_LOW_PRIORITY => 24,
        WaitType::LCK_M_S => 25,
        WaitType::LCK_M_SCH_M => 26,
        WaitType::LCK_M_SCH_M_ABORT_BLOCKERS => 27,
        WaitType::LCK_M_SCH_M_LOW_PRIORITY => 28,
        WaitType::LCK_M_SCH_S => 29,
        WaitType::LCK_M_SCH_S_ABORT_BLOCKERS => 30,
        WaitType::LCK_M_SCH_S_LOW_PRIORITY => 31,
        WaitType::LCK_M_SIU => 32,
        WaitType::LCK_M_SIU_ABORT_BLOCKERS => 33,
        WaitType::LCK_M_SIU_LOW_PRIORITY => 34,
        WaitType::LCK_M_SIX => 35,
        WaitType::LCK_M_SIX_ABORT_BLOCKERS => 36,
        WaitType::LCK_M_SIX_LOW_PRIORITY => 37,
        WaitType::LCK_M_S_ABORT_BLOCKERS => 38,
        WaitType::LCK_M_S_LOW_PRIORITY => 39,
        WaitType::LCK_M_S_XACT => 40,
        WaitType::LCK_M_S_XACT_MODIFY => 41,
        WaitType::LCK_M_S_XACT_READ => 42,
        WaitType::LCK_M_U => 43,
        WaitType::LCK_M_UIX => 44,
        WaitType::LCK_M_UIX_ABORT_BLOCKERS => 45,
        WaitType::LCK_M_UIX_LOW_PRIORITY => 46,
        WaitType::LCK_M_U_ABORT_BLOCKERS => 47,
        WaitType::LCK_M_U_LOW_PRIORITY => 48,
        WaitType::LCK_M_X => 49,
        _ => 0,
    }
}

/// The wait type at each place of part 7.
#[verifier::opaque]
pub open spec fn ranked_in_part_7(r: int) -> WaitType {
    if r == 0 {
        WaitType::LCK_M_RIn_NL_LOW_PRIORITY
    } else if r == 1 {
        WaitType::LCK_M_RIn_S
    } else if r == 2 {
        WaitType::LCK_M_RIn_S_ABORT_BLOCKERS
    } else if r == 3 {
        WaitType::LCK_M_RIn_S_LOW_PRIORITY
    } else if r == 4 {
        WaitType::LCK_M_RIn_U
    } else if r == 5 {
        WaitType::LCK_M_RIn_U_ABORT_BLOCKERS
    } else if r == 6 {
        WaitType::LCK_M_RIn_U_LOW_PRIORITY
    } else if r == 7 {
        WaitType::LCK_M_RIn_X
    } else if r == 8 {
        WaitType::LCK_M_RIn_X_ABORT_BLOCKERS
    } else if r == 9 {
        WaitType::LCK_M_RIn_X_LOW_PRIORITY
    } else if r == 10 {
        WaitType::LCK_M_RS_S
    } else if r == 11 {
        WaitType::LCK_M_RS_S_ABORT_BLOCKERS
    } else if r == 12 {
        WaitType::LCK_M_RS_S_LOW_PRIORITY
    } else if r == 13 {
        WaitType::LCK_M_RS_U
    } else if r == 14 {
        WaitType::LCK_M_RS_U_ABORT_BLOCKERS
    } else if r == 15 {
        WaitType::LCK_M_RS_U_LOW_PRIORITY
    } else if r == 16 {
        WaitType::LCK_M_RX_S
    } else if r == 17 {
        WaitType::LCK_M_RX_S_ABORT_BLOCKERS
    } else if r == 18 {
        WaitType::LCK_M_RX_S_LOW_PRIORITY
    } else if r == 19 {
        WaitType::LCK_M_RX_U
    } else if r == 20 {
        WaitType::LCK_M_RX_U_ABORT_BLOCKERS
    } else if r == 21 {
        WaitType::LCK_M_RX_U_LOW_PRIORITY
    } else if r == 22 {
        WaitType::LCK_M_RX_X
    } else if r == 23 {
        WaitType::LCK_M_RX_X_ABORT_BLOCKERS
    } else if r == 24 {
        WaitType::LCK_M_RX_X_LOW_PRIORITY
    } else if r == 25 {
        WaitType::LCK_M_S
    } else if r == 26 {
        WaitType::LCK_M_SCH_M
    } else if r == 27 {
        WaitType::LCK_M_SCH_M_ABORT_BLOCKERS
    } else if r == 28 {
        WaitType::LCK_M_SCH_M_LOW_PRIORITY
    } else if r == 29 {
        WaitType::LCK_M_SCH_S
    } else if r == 30 {
        WaitType::LCK_M_SCH_S_ABORT_BLOCKERS
    } else if r == 31 {
        WaitType::LCK_M_SCH_S_LOW_PRIORITY
    } else if r == 32 {
        WaitType::LCK_M_SIU
    } else if r == 33 {
        WaitType::LCK_M_SIU_ABORT_BLOCKERS
    } else if r == 34 {
        WaitType::LCK_M_SIU_LOW_PRIORITY
    } else if r == 35 {
        WaitType::LCK_M_SIX
    } else if r == 36 {
        WaitType::LCK_M_SIX_ABORT_BLOCKERS
    } else if r == 37 {
        WaitType::LCK_M_SIX_LOW_PRIORITY
    } else if r == 38 {
        WaitType::LCK_M_S_ABORT_BLOCKERS
    } else if r == 39 {
        WaitType::LCK_M_S_LOW_PRIORITY
    } else if r == 40 {
        WaitType::LCK_M_S_XACT
    } else if r == 41 {
        WaitType::LCK_M_S_XACT_MODIFY
    } else if r == 42 {
        WaitType::LCK_M_S_XACT_READ
    } else if r == 43 {
        WaitType::LCK_M_U
    } else if r == 44 {
        WaitType::LCK_M_UIX
    } else if r == 45 {
        WaitType::LCK_M_UIX_ABORT_BLOCKERS
    } else if r == 46 {
        WaitType::LCK_M_UIX_LOW_PRIORITY
    } else if r == 47 {
        WaitType::LCK_M_U_ABORT_BLOCKERS
    } else if r == 48 {
        WaitType::LCK_M_U_LOW_PRIORITY
    } else if r == 49 {
        WaitType::LCK_M_X
    } else {
        WaitType::LCK_M_RIn_NL_LOW_PRIORITY
    }
}

/// The name at each place of part 7.
#[verifier::opaque]
pub open spec fn name_in_part_7(r: int) -> Seq<char> {
    if r == 0 {
        "LCK_M_RIn_NL_LOW_PRIORITY"@
    } else if r == 1 {
        "LCK_M_RIn_S"@
    } else if r == 2 {
        "LCK_M_RIn_S_ABORT_BLOCKERS"@
    } else if r == 3 {
        "LCK_M_RIn_S_LOW_PRIORITY"@
    } else if r == 4 {
        "LCK_M_RIn_U"@
    } else if r == 5 {
        "LCK_M_RIn_U_ABORT_BLOCKERS"@
    } else if r == 6 {
        "LCK_M_RIn_U_LOW_PRIORITY"@
    } else if r == 7 {
        "LCK_M_RIn_X"@
    } else if r == 8 {
        "LCK_M_RIn_X_ABORT_BLOCKERS"@
    } else if r == 9 {
        "LCK_M_RIn_X_LOW_PRIORITY"@
    } else if r == 10 {
        "LCK_M_RS_S"@
    } else if r == 11 {
        "LCK_M_RS_S_ABORT_BLOCKERS"@
    } else if r == 12 {
        "LCK_M_RS_S_LOW_PRIORITY"@
    } else if r == 13 {
        "LCK_M_RS_U"@
    } else if r == 14 {
        "LCK_M_RS_U_ABORT_BLOCKERS"@
    } else if r == 15 {
        "LCK_M_RS_U_LOW_PRIORITY"@
    } else if r == 16 {
        "LCK_M_RX_S"@
    } else if r == 17 {
        "LCK_M_RX_S_ABORT_BLOCKERS"@
    } else if r == 18 {
        "LCK_M_RX_S_LOW_PRIORITY"@
    } else if r == 19 {
        "LCK_M_RX_U"@
    } else if r == 20 {
        "LCK_M_RX_U_ABORT_BLOCKERS"@
    } else if r == 21 {
        "LCK_M_RX_U_LOW_PRIORITY"@
    } else if r == 22 {
        "LCK_M_RX_X"@
    } else if r == 23 {
        "LCK_M_RX_X_ABORT_BLOCKERS"@
    } else if r == 24 {
        "LCK_M_RX_X_LOW_PRIORITY"@
    } else if r == 25 {
        "LCK_M_S"@
    } else if r == 26 {
        "LCK_M_SCH_M"@
    } else if r == 27 {
        "LCK_M_SCH_M_ABORT_BLOCKERS"@
    } else if r == 28 {
        "LCK_M_SCH_M_LOW_PRIORITY"@
    } else if r == 29 {
        "LCK_M_SCH_S"@
    } else if r == 30 {
        "LCK_M_SCH_S_ABORT_BLOCKERS"@
    } else if r == 31 {
        "LCK_M_SCH_S_LOW_PRIORITY"@
    } else if r == 32 {
        "LCK_M_SIU"@
    } else if r == 33 {
        "LCK_M_SIU_ABORT_BLOCKERS"@
    } else if r == 34 {
        "LCK_M_SIU_LOW_PRIORITY"@
    } else if r == 35 {
        "LCK_M_SIX"@
    } else if r == 36 {
        "LCK_M_SIX_ABORT_BLOCKERS"@
    } else if r == 37 {
        "LCK_M_SIX_LOW_PRIORITY"@
    } else if r == 38 {
        "LCK_M_S_ABORT_BLOCKERS"@
    } else if r == 39 {
        "LCK_M_S_LOW_PRIORITY"@
    } else if r == 40 {
        "LCK_M_S_XACT"@
    } else if r == 41 {
        "LCK_M_S_XACT_MODIFY"@
    } else if r == 42 {
        "LCK_M_S_XACT_READ"@
    } else if r == 43 {
        "LCK_M_U"@
    } else if r == 44 {
        "LCK_M_UIX"@
    } else if r == 45 {
        "LCK_M_UIX_ABORT_BLOCKERS"@
    } else if r == 46 {
        "LCK_M_UIX_LOW_PRIORITY"@
    } else if r == 47 {
        "LCK_M_U_ABORT_BLOCKERS"@
    } else if r == 48 {
        "LCK_M_U_LOW_PRIORITY"@
    } else if r == 49 {
        "LCK_M_X"@
    } else {
        seq![]
    }
}

/// The place of each wait type of part 8 within that part.
#[verifier::opaque]
pub open spec fn rank_in_part_8(w: WaitType) -> int {
    match w {
        WaitType::LCK_M_X_ABORT_BLOCKERS => 0,
        WaitType::LCK_M_X_LOW_PRIORITY => 1,
        WaitType::LOGBUFFER => 2,
        WaitType::LOGCAPTURE_LOGPOOLTRUNCPOINT => 3,
        WaitType::LOGGENERATION => 4,
        WaitType::LOGMGR => 5,
        WaitType::LOGMGR_FLUSH => 6,
        WaitType::LOGMGR_PMM_LOG => 7,
        WaitType::LOGMGR_QUEUE => 8,
        WaitType::LOGMGR_RESERVE_APPEND => 9,
        WaitType::LOGPOOLREFCOUNTEDOBJECT_REFDONE => 10,
        WaitType::LOGPOOL_CACHESIZE => 11,
        WaitType::LOGPOOL_CONSUMER => 12,
        WaitType::LOGPOOL_CONSUMERSET => 13,
        WaitType::LOGPOOL_FREEPOOLS => 14,
        WaitType::LOGPOOL_MGRSET => 15,
        WaitType::LOGPOOL_REPLACEMENTSET => 16,
        WaitType::LOG_POOL_SCAN => 17,
        WaitType::LOG_RATE_GOVERNOR => 18,
        WaitType::LOWFAIL_MEMMGR_QUEUE => 19,
        WaitType::MD_AGENT_YIELD => 20,
        WaitType::MD_LAZYCACHE_RWLOCK => 21,
        WaitType::MEMORY_ALLOCATION_EXT => 22,
        WaitType::MEMORY_GRANT_UPDATE => 23,
        WaitType::METADATA_LAZYCACHE_RWLOCK => 24,
        WaitType::MIGRATIONBUFFER => 25,
        WaitType::MISCELLANEOUS => 26,
        WaitType::MSQL_DQ => 27,
        WaitType::MSQL_XACT_MGR_MUTEX => 28,
        WaitType::MSQL_XACT_MUTEX => 29,
        WaitType::MSQL_XP => 30,
        WaitType::MSSEARCH => 31,
        WaitType::NETWORKSXMLMGRLOAD => 32,
        WaitType::NET_WAITFOR_PACKET => 33,
        WaitType::NODE_CACHE_MUTEX => 34,
        WaitType::OLEDB => 35,
        WaitType::ONDEMAND_TASK_QUEUE => 36,
        WaitType::PAGEIOLATCH_DT => 37,
        WaitType::PAGEIOLATCH_EX => 38,
        WaitType::PAGEIOLATCH_KP => 39,
        WaitType::PAGEIOLATCH_NL => 40,
        WaitType::PAGEIOLATCH_SH => 41,
        WaitType::PAGEIOLATCH_UP => 42,
        WaitType::PAGELATCH_DT => 43,
        WaitType::PAGELATCH_EX => 44,
        WaitType::PAGELATCH_KP => 45,
        WaitType::PAGELATCH_NL => 46,
        WaitType::PAGELATCH_SH => 47,
        WaitType::PAGELATCH_UP => 48,
        WaitType::PARALLEL_BACKUP_QUEUE => 49,
        _ => 0,
    }
}

/// The wait type at each place of part 8.
#[verifier::opaque]
pub open spec fn ranked_in_part_8(r: int) -> WaitType {
    if r == 0 {
        WaitType::LCK_M_X_ABORT_BLOCKERS
    } else if r == 1 {
        WaitType::LCK_M_X_LOW_PRIORITY
    } else if r == 2 {
        WaitType::LOGBUFFER
    } else if r == 3 {
        WaitType::LOGCAPTURE_LOGPOOLTRUNCPOINT
    } else if r == 4 {
        WaitType::LOGGENERATION
    } else if r == 5 {
        WaitType::LOGMGR
    } else if r == 6 {
        WaitType::LOGMGR_FLUSH
    } else if r == 7 {
        WaitType::LOGMGR_PMM_LOG
    } else if r == 8 {
        WaitType::LOGMGR_QUEUE
    } else if r == 9 {
        WaitType::LOGMGR_RESERVE_APPEND
    } else if r == 10 {
        WaitType::LOGPOOLREFCOUNTEDOBJECT_REFDONE
    } else if r == 11 {
        WaitType::LOGPOOL_CACHESIZE
    } else if r == 12 {
        WaitType::LOGPOOL_CONSUMER
    } else if r == 13 {
        WaitType::LOGPOOL_CONSUMERSET
    } else if r == 14 {
        WaitType::LOGPOOL_FREEPOOLS
    } else if r == 15 {
        WaitType::LOGPOOL_MGRSET
    } else if r == 16 {
        WaitType::LOGPOOL_REPLACEMENTSET
    } else if r == 17 {
        WaitType::LOG_POOL_SCAN
    } else if r == 18 {
        WaitType::LOG_RATE_GOVERNOR
    } else if r == 19 {
        WaitType::LOWFAIL_MEMMGR_QUEUE
    } else if r == 20 {
        WaitType::MD_AGENT_YIELD
    } else if r == 21 {
        WaitType::MD_LAZYCACHE_RWLOCK
    } else if r == 22 {
        WaitType::MEMORY_ALLOCATION_EXT
    } else if r == 23 {
        WaitType::MEMORY_GRANT_UPDATE
    } else if r == 24 {
        WaitType::METADATA_LAZYCACHE_RWLOCK
    } else if r == 25 {
        WaitType::MIGRATIONBUFFER
    } else if r == 26 {
        WaitType::MISCELLANEOUS
    } else if r == 27 {
        WaitType::MSQL_DQ
    } else if r == 28 {
        WaitType::MSQL_XACT_MGR_MUTEX
    } else if r == 29 {
        WaitType::MSQL_XACT_MUTEX
    } else if r == 30 {
        WaitType::MSQL_XP
    } else if r == 31 {
        WaitType::MSSEARCH
    } else if r == 32 {
        WaitType::NETWORKSXMLMGRLOAD
    } else if r == 33 {
        WaitType::NET_WAITFOR_PACKET
    } else if r == 34 {
        WaitType::NODE_CACHE_MUTEX
    } else if r == 35 {
        WaitType::OLEDB
    } else if r == 36 {
        WaitType::ONDEMAND_TASK_QUEUE
    } else if r == 37 {
        WaitType::PAGEIOLATCH_DT
    } else if r == 38 {
        WaitType::PAGEIOLATCH_EX
    } else if r == 39 {
        WaitType::PAGEIOLATCH_KP
    } else if r == 40 {
        WaitType::PAGEIOLATCH_NL
    } else if r == 41 {
        WaitType::PAGEIOLATCH_SH
    } else if r == 42 {
        WaitType::PAGEIOLATCH_UP
    } else if r == 43 {
        WaitType::PAGELATCH_DT
    } else if r == 44 {
        WaitType::PAGELATCH_EX
    } else if r == 45 {
        WaitType::PAGELATCH_KP
    } else if r == 46 {
        WaitType::PAGELATCH_NL
    } else if r == 47 {
        WaitType::PAGELATCH_SH
    } else if r == 48 {
        WaitType::PAGELATCH_UP
    } else if r == 49 {
        WaitType::PARALLEL_BACKUP_QUEUE
    } else {
        WaitType::LCK_M_X_ABORT_BLOCKERS
    }
}

/// The name at each place of part 8.
#[verifier::opaque]
pub open spec fn name_in_part_8(r: int) -> Seq<char> {
    if r == 0 {
        "LCK_M_X_ABORT_BLOCKERS"@
    } else if r == 1 {
        "LCK_M_X_LOW_PRIORITY"@
    } else if r == 2 {
        "LOGBUFFER"@
    } else if r == 3 {
        "LOGCAPTURE_LOGPOOLTRUNCPOINT"@
    } else if r == 4 {
        "LOGGENERATION"@
    } else if r == 5 {
        "LOGMGR"@
    } else if r == 6 {
        "LOGMGR_FLUSH"@
    } else if r == 7 {
        "LOGMGR_PMM_LOG"@
    } else if r == 8 {
        "LOGMGR_QUEUE"@
    } else if r == 9 {
        "LOGMGR_RESERVE_APPEND"@
    } else if r == 10 {
        "LOGPOOLREFCOUNTEDOBJECT_REFDONE"@
    } else if r == 11 {
        "LOGPOOL_CACHESIZE"@
    } else if r == 12 {
        "LOGPOOL_CONSUMER"@
    } else if r == 13 {
        "LOGPOOL_CONSUMERSET"@
    } else if r == 14 {
        "LOGPOOL_FREEPOOLS"@
    } else if r == 15 {
        "LOGPOOL_MGRSET"@
    } else if r == 16 {
        "LOGPOOL_REPLACEMENTSET"@
    } else if r == 17 {
        "LOG_POOL_SCAN"@
    } else if r == 18 {
        "LOG_RATE_GOVERNOR"@
    } else if r == 19 {
        "LOWFAIL_MEMMGR_QUEUE"@
    } else if r == 20 {
        "MD_AGENT_YIELD"@
    } else if r == 21 {
        "MD_LAZYCACHE_RWLOCK"@
    } else if r == 22 {
        "MEMORY_ALLOCATION_EXT"@
    } else if r == 23 {
        "MEMORY_GRANT_UPDATE"@
    } else if r == 24 {
        "METADATA_LAZYCACHE_RWLOCK"@
    } else if r == 25 {
        "MIGRATIONBUFFER"@
    } else if r == 26 {
        "MISCELLANEOUS"@
    } else if r == 27 {
        "MSQL_DQ"@
    } else if r == 28 {
        "MSQL_XACT_MGR_MUTEX"@
    } else if r == 29 {
        "MSQL_XACT_MUTEX"@
    } else if r == 30 {
        "MSQL_XP"@
    } else if r == 31 {
        "MSSEARCH"@
    } else if r == 32 {
        "NETWORKSXMLMGRLOAD"@
    } else if r == 33 {
        "NET_WAITFOR_PACKET"@
    } else if r == 34 {
        "NODE_CACHE_MUTEX"@
    } else if r == 35 {
        "OLEDB"@
    } else if r == 36 {
        "ONDEMAND_TASK_QUEUE"@
    } else if r == 37 {
        "PAGEIOLATCH_DT"@
    } else if r == 38 {
        "PAGEIOLATCH_EX"@
    } else if r == 39 {
        "PAGEIOLATCH_KP"@
    } else if r == 40 {
        "PAGEIOLATCH_NL"@
    } else if r == 41 {
        "PAGEIOLATCH_SH"@
    } else if r == 42 {
        "PAGEIOLATCH_UP"@
    } else if r == 43 {
        "PAGELATCH_DT"@
    } else if r == 44 {
        "PAGELATCH_EX"@
    } else if r == 45 {
        "PAGELATCH_KP"@
    } else if r == 46 {
        "PAGELATCH_NL"@
    } else if r == 47 {
        "PAGELATCH_SH"@
    } else if r == 48 {
        "PAGELATCH_UP"@
    } else if r == 49 {
        "PARALLEL_BACKUP_QUEUE"@
    } else {
        seq![]
    }
}

/// The place of each wait type of part 9 within that part.
#[verifier::opaque]
pub open spec fn rank_in_part_9(w: WaitType) -> int {
    match w {
        WaitType::PARALLEL_REDO_DRAIN_WORKER => 0,
        WaitType::PARALLEL_REDO_FLOW_CONTROL => 1,
        WaitType::PARALLEL_REDO_LOG_CACHE => 2,
        WaitType::PARALLEL_REDO_TRAN_LIST => 3,
        WaitType::PARALLEL_REDO_TRAN_TURN => 4,
        WaitType::PARALLEL_REDO_WORKER_SYNC => 5,
        WaitType::PARALLEL_REDO_WORKER_WAIT_WORK => 6,
        WaitType::PERFORMANCE_COUNTERS_RWLOCK => 7,
        WaitType::PHYSICAL_SEEDING_DMV => 8,
        WaitType::POOL_LOG_RATE_GOVERNOR => 9,
        WaitType::PREEMPTIVE_ABR => 10,
        WaitType::PREEMPTIVE_AUDIT_ACCESS_EVENTLOG => 11,
        WaitType::PREEMPTIVE_AUDIT_ACCESS_SECLOG => 12,
        WaitType::PREEMPTIVE_CLOSEBACKUPMEDIA => 13,
        WaitType::PREEMPTIVE_CLOSEBACKUPTAPE => 14,
        WaitType::PREEMPTIVE_CLOSEBACKUPVDIDEVICE => 15,
        WaitType::PREEMPTIVE_CLUSAPI_CLUSTERRESOURCECONTROL => 16,
        WaitType::PREEMPTIVE_COM_COCREATEINSTANCE => 17,
        WaitType::PREEMPTIVE_COM_COGETCLASSOBJECT => 18,
        WaitType::PREEMPTIVE_COM_CREATEACCESSOR => 19,
        WaitType::PREEMPTIVE_COM_DELETEROWS => 20,
        WaitType::PREEMPTIVE_COM_GETCOMMANDTEXT => 21,
        WaitType::PREEMPTIVE_COM_GETDATA => 22,
        WaitType::PREEMPTIVE_COM_GETNEXTROWS => 23,
        WaitType::PREEMPTIVE_COM_GETRESULT => 24,
        WaitType::PREEMPTIVE_COM_GETROWSBYBOOKMARK => 25,
        WaitType::PREEMPTIVE_COM_LBFLUSH => 26,
        WaitType::PREEMPTIVE_COM_LBLOCKREGION => 27,
        WaitType::PREEMPTIVE_COM_LBREADAT => 28,
        WaitType::PREEMPTIVE_COM_LBSETSIZE => 29,
        WaitType::PREEMPTIVE_COM_LBSTAT => 30,
        WaitType::PREEMPTIVE_COM_LBUNLOCKREGION => 31,
        WaitType::PREEMPTIVE_COM_LBWRITEAT => 32,
        WaitType::PREEMPTIVE_COM_QUERYINTERFACE => 33,
        WaitType::PREEMPTIVE_COM_RELEASE => 34,
        WaitType::PREEMPTIVE_COM_RELEASEACCESSOR => 35,
        WaitType::PREEMPTIVE_COM_RELEASEROWS => 36,
        WaitType::PREEMPTIVE_COM_RELEASESESSION => 37,
        WaitType::PREEMPTIVE_COM_RESTARTPOSITION => 38,
        WaitType::PREEMPTIVE_COM_SEQSTRMREAD => 39,
        WaitType::PREEMPTIVE_COM_SEQSTRMREADANDWRITE => 40,
        WaitType::PREEMPTIVE_COM_SETDATAFAILURE => 41,
        WaitType::PREEMPTIVE_COM_SETPARAMETERINFO => 42,
        WaitType::PREEMPTIVE_COM_SETPARAMETERPROPERTIES => 43,
        WaitType::PREEMPTIVE_COM_STRMLOCKREGION => 44,
        WaitType::PREEMPTIVE_COM_STRMSEEKANDREAD => 45,
        WaitType::PREEMPTIVE_COM_STRMSEEKANDWRITE => 46,
        WaitType::PREEMPTIVE_COM_STRMSETSIZE => 47,
        WaitType::PREEMPTIVE_COM_STRMSTAT => 48,
        WaitType::PREEMPTIVE_COM_STRMUNLOCKREGION => 49,
        _ => 0,
    }
}

/// The wait type at each place of part 9.
#[verifier::opaque]
pub open spec fn ranked_in_part_9(r: int) -> WaitType {
    if r == 0 {
        WaitType::PARALLEL_REDO_DRAIN_WORKER
    } else if r == 1 {
        WaitType::PARALLEL_REDO_FLOW_CONTROL
    } else if r == 2 {
        WaitType::PARALLEL_REDO_LOG_CACHE
    } else if r == 3 {
        WaitType::PARALLEL_REDO_TRAN_LIST
    } else if r == 4 {
        WaitType::PARALLEL_REDO_TRAN_TURN
    } else if r == 5 {
        WaitType::PARALLEL_REDO_WORKER_SYNC
    } else if r == 6 {
        WaitType::PARALLEL_REDO_WORKER_WAIT_WORK
    } else if r == 7 {
        WaitType::PERFORMANCE_COUNTERS_RWLOCK
    } else if r == 8 {
        WaitType::PHYSICAL_SEEDING_DMV
    } else if r == 9 {
        WaitType::POOL_LOG_RATE_GOVERNOR
    } else if r == 10 {
        WaitType::PREEMPTIVE_ABR
    } else if r == 11 {
        WaitType::PREEMPTIVE_AUDIT_ACCESS_EVENTLOG
    } else if r == 12 {
        WaitType::PREEMPTIVE_AUDIT_ACCESS_SECLOG
    } else if r == 13 {
        WaitType::PREEMPTIVE_CLOSEBACKUPMEDIA
    } else if r == 14 {
        WaitType::PREEMPTIVE_CLOSEBACKUPTAPE
    } else if r == 15 {
        WaitType::PREEMPTIVE_CLOSEBACKUPVDIDEVICE
    } else if r == 16 {
        WaitType::PREEMPTIVE_CLUSAPI_CLUSTERRESOURCECONTROL
    } else if r == 17 {
        WaitType::PREEMPTIVE_COM_COCREATEINSTANCE
    } else if r == 18 {
        WaitType::PREEMPTIVE_COM_COGETCLASSOBJECT
    } else if r == 19 {
        WaitType::PREEMPTIVE_COM_CREATEACCESSOR
    } else if r == 20 {
        WaitType::PREEMPTIVE_COM_DELETEROWS
    } else if r == 21 {
        WaitType::PREEMPTIVE_COM_GETCOMMANDTEXT
    } else if r == 22 {
        WaitType::PREEMPTIVE_COM_GETDATA
    } else if r == 23 {
        WaitType::PREEMPTIVE_COM_GETNEXTROWS
    } else if r == 24 {
        WaitType::PREEMPTIVE_COM_GETRESULT
    } else if r == 25 {
        WaitType::PREEMPTIVE_COM_GETROWSBYBOOKMARK
    } else if r == 26 {
        WaitType::PREEMPTIVE_COM_LBFLUSH
    } else if r == 27 {
        WaitType::PREEMPTIVE_COM_LBLOCKREGION
    } else if r == 28 {
        WaitType::PREEMPTIVE_COM_LBREADAT
    } else if r == 29 {
        WaitType::PREEMPTIVE_COM_LBSETSIZE
    } else if r == 30 {
        WaitType::PREEMPTIVE_COM_LBSTAT
    } else if r == 31 {
        WaitType::PREEMPTIVE_COM_LBUNLOCKREGION
    } else if r == 32 {
        WaitType::PREEMPTIVE_COM_LBWRITEAT
    } else if r == 33 {
        WaitType::PREEMPTIVE_COM_QUERYINTERFACE
    } else if r == 34 {
        WaitType::PREEMPTIVE_COM_RELEASE
    } else if r == 35 {
        WaitType::PREEMPTIVE_COM_RELEASEACCESSOR
    } else if r == 36 {
        WaitType::PREEMPTIVE_COM_RELEASEROWS
    } else if r == 37 {
        WaitType::PREEMPTIVE_COM_RELEASESESSION
    } else if r == 38 {
        WaitType::PREEMPTIVE_COM_RESTARTPOSITION
    } else if r == 39 {
        WaitType::PREEMPTIVE_COM_SEQSTRMREAD
    } else if r == 40 {
        WaitType::PREEMPTIVE_COM_SEQSTRMREADANDWRITE
    } else if r == 41 {
        WaitType::PREEMPTIVE_COM_SETDATAFAILURE
    } else if r == 42 {
        WaitType::PREEMPTIVE_COM_SETPARAMETERINFO
    } else if r == 43 {
        WaitType::PREEMPTIVE_COM_SETPARAMETERPROPERTIES
    } else if r == 44 {
        WaitType::PREEMPTIVE_COM_STRMLOCKREGION
    } else if r == 45 {
        WaitType::PREEMPTIVE_COM_STRMSEEKANDREAD
    } else if r == 46 {
        WaitType::PREEMPTIVE_COM_STRMSEEKANDWRITE
    } else if r == 47 {
        WaitType::PREEMPTIVE_COM_STRMSETSIZE
    } else if r == 48 {
        WaitType::PREEMPTIVE_COM_STRMSTAT
    } else if r == 49 {
        WaitType::PREEMPTIVE_COM_STRMUNLOCKREGION
    } else {
        WaitType::PARALLEL_REDO_DRAIN_WORKER
    }
}

/// The name at each place of part 9.
#[verifier::opaque]
pub open spec fn name_in_part_9(r: int) -> Seq<char> {
    if r == 0 {
        "PARALLEL_REDO_DRAIN_WORKER"@
    } else if r == 1 {
        "PARALLEL_REDO_FLOW_CONTROL"@
    } else if r == 2 {
        "PARALLEL_REDO_LOG_CACHE"@
    } else if r == 3 {
        "PARALLEL_REDO_TRAN_LIST"@
    } else if r == 4 {
        "PARALLEL_REDO_TRAN_TURN"@
    } else if r == 5 {
        "PARALLEL_REDO_WORKER_SYNC"@
    } else if r == 6 {
        "PARALLEL_REDO_WORKER_WAIT_WORK"@
    } else if r == 7 {
        "PERFORMANCE_COUNTERS_RWLOCK"@
    } else if r == 8 {
        "PHYSICAL_SEEDING_DMV"@
    } else if r == 9 {
        "POOL_LOG_RATE_GOVERNOR"@
    } else if r == 10 {
        "PREEMPTIVE_ABR"@
    } else if r == 11 {
        "PREEMPTIVE_AUDIT_ACCESS_EVENTLOG"@
    } else if r == 12 {
        "PREEMPTIVE_AUDIT_ACCESS_SECLOG"@
    } else if r == 13 {
        "PREEMPTIVE_CLOSEBACKUPMEDIA"@
    } else if r == 14 {
        "PREEMPTIVE_CLOSEBACKUPTAPE"@
    } else if r == 15 {
        "PREEMPTIVE_CLOSEBACKUPVDIDEVICE"@
    } else if r == 16 {
        "PREEMPTIVE_CLUSAPI_CLUSTERRESOURCECONTROL"@
    } else if r == 17 {
        "PREEMPTIVE_COM_COCREATEINSTANCE"@
    } else if r == 18 {
        "PREEMPTIVE_COM_COGETCLASSOBJECT"@
    } else if r == 19 {
        "PREEMPTIVE_COM_CREATEACCESSOR"@
    } else if r == 20 {
        "PREEMPTIVE_COM_DELETEROWS"@
    } else if r == 21 {
        "PREEMPTIVE_COM_GETCOMMANDTEXT"@
    } else if r == 22 {
        "PREEMPTIVE_COM_GETDATA"@
    } else if r == 23 {
        "PREEMPTIVE_COM_GETNEXTROWS"@
    } else if r == 24 {
        "PREEMPTIVE_COM_GETRESULT"@
    } else if r == 25 {
        "PREEMPTIVE_COM_GETROWSBYBOOKMARK"@
    } else if r == 26 {
        "PREEMPTIVE_COM_LBFLUSH"@
    } else if r == 27 {
        "PREEMPTIVE_COM_LBLOCKREGION"@
    } else if r == 28 {
        "PREEMPTIVE_COM_LBREADAT"@
    } else if r == 29 {
        "PREEMPTIVE_COM_LBSETSIZE"@
    } else if r == 30 {
        "PREEMPTIVE_COM_LBSTAT"@
    } else if r == 31 {
        "PREEMPTIVE_COM_LBUNLOCKREGION"@
    } else if r == 32 {
        "PREEMPTIVE_COM_LBWRITEAT"@
    } else if r == 33 {
        "PREEMPTIVE_COM_QUERYINTERFACE"@
    } else if r == 34 {
        "PREEMPTIVE_COM_RELEASE"@
    } else if r == 35 {
        "PREEMPTIVE_COM_RELEASEACCESSOR"@
    } else if r == 36 {
        "PREEMPTIVE_COM_RELEASEROWS"@
    } else if r == 37 {
        "PREEMPTIVE_COM_RELEASESESSION"@
    } else if r == 38 {
        "PREEMPTIVE_COM_RESTARTPOSITION"@
    } else if r == 39 {
        "PREEMPTIVE_COM_SEQSTRMREAD"@
    } else if r == 40 {
        "PREEMPTIVE_COM_SEQSTRMREADANDWRITE"@
    } else if r == 41 {
        "PREEMPTIVE_COM_SETDATAFAILURE"@
    } else if r == 42 {
        "PREEMPTIVE_COM_SETPARAMETERINFO"@
    } else if r == 43 {
        "PREEMPTIVE_COM_SETPARAMETERPROPERTIES"@
    } else if r == 44 {
        "PREEMPTIVE_COM_STRMLOCKREGION"@
    } else if r == 45 {
        "PREEMPTIVE_COM_STRMSEEKANDREAD"@
    } else if r == 46 {
        "PREEMPTIVE_COM_STRMSEEKANDWRITE"@
    } else if r == 47 {
        "PREEMPTIVE_COM_STRMSETSIZE"@
    } else if r == 48 {
        "PREEMPTIVE_COM_STRMSTAT"@
    } else if r == 49 {
        "PREEMPTIVE_COM_STRMUNLOCKREGION"@
    } else {
        seq![]
    }
}

/// The place of each wait type of part 10 within that part.
#[verifier::opaque]
pub open spec fn rank_in_part_10(w: WaitType) -> int {
    match w {
        WaitType::PREEMPTIVE_CONSOLEWRITE => 0,
        WaitType::PREEMPTIVE_CREATEPARAM => 1,
        WaitType::PREEMPTIVE_DEBUG => 2,
        WaitType::PREEMPTIVE_DFSADDLINK => 3,
        WaitType::PREEMPTIVE_DFSLINKEXISTCHECK => 4,
        WaitType::PREEMPTIVE_DFSLINKHEALTHCHECK => 5,
        WaitType::PREEMPTIVE_DFSREMOVELINK => 6,
        WaitType::PREEMPTIVE_DFSREMOVEROOT => 7,
        WaitType::PREEMPTIVE_DFSROOTFOLDERCHECK => 8,
        WaitType::PREEMPTIVE_DFSROOTINIT => 9,
        WaitType::PREEMPTIVE_DFSROOTSHARECHECK => 10,
        WaitType::PREEMPTIVE_DTC_ABORT => 11,
        WaitType::PREEMPTIVE_DTC_ABORTREQUESTDONE => 12,
        WaitType::PREEMPTIVE_DTC_BEGINTRANSACTION => 13,
        WaitType::PREEMPTIVE_DTC_COMMITREQUESTDONE => 14,
        WaitType::PREEMPTIVE_DTC_ENLIST => 15,
        WaitType::PREEMPTIVE_DTC_PREPAREREQUESTDONE => 16,
        WaitType::PREEMPTIVE_FILESIZEGET => 17,
        WaitType::PREEMPTIVE_FSAOLEDB_ABORTTRANSACTION => 18,
        WaitType::PREEMPTIVE_FSAOLEDB_COMMITTRANSACTION => 19,
        WaitType::PREEMPTIVE_FSAOLEDB_STARTTRANSACTION => 20,
        WaitType::PREEMPTIVE_FSRECOVER_UNCONDITIONALUNDO => 21,
        WaitType::PREEMPTIVE_GETRMINFO => 22,
        WaitType::PREEMPTIVE_HADR_LEASE_MECHANISM => 23,
        WaitType::PREEMPTIVE_HTTP_EVENT_WAIT => 24,
        WaitType::PREEMPTIVE_HTTP_REQUEST => 25,
        WaitType::PREEMPTIVE_LOCKMONITOR => 26,
        WaitType::PREEMPTIVE_MSS_RELEASE => 27,
        WaitType::PREEMPTIVE_ODBCOPS => 28,
        WaitType::PREEMPTIVE_OLEDBOPS => 29,
        WaitType::PREEMPTIVE_OLEDB_ABORTORCOMMITTRAN => 30,
        WaitType::PREEMPTIVE_OLEDB_ABORTTRAN => 31,
        WaitType::PREEMPTIVE_OLEDB_GETDATASOURCE => 32,
        WaitType::PREEMPTIVE_OLEDB_GETLITERALINFO => 33,
        WaitType::PREEMPTIVE_OLEDB_GETPROPERTIES => 34,
        WaitType::PREEMPTIVE_OLEDB_GETPROPERTYINFO => 35,
        WaitType::PREEMPTIVE_OLEDB_GETSCHEMALOCK => 36,
        WaitType::PREEMPTIVE_OLEDB_JOINTRANSACTION => 37,
        WaitType::PREEMPTIVE_OLEDB_RELEASE => 38,
        WaitType::PREEMPTIVE_OLEDB_SETPROPERTIES => 39,
        WaitType::PREEMPTIVE_OLE_UNINIT => 40,
        WaitType::PREEMPTIVE_OS_ACCEPTSECURITYCONTEXT => 41,
        WaitType::PREEMPTIVE_OS_ACQUIRECREDENTIALSHANDLE => 42,
        WaitType::PREEMPTIVE_OS_AUTHENTICATIONOPS => 43,
        WaitType::PREEMPTIVE_OS_AUTHORIZATIONOPS => 44,
        WaitType::PREEMPTIVE_OS_AUTHZGETINFORMATIONFROMCONTEXT => 45,
        WaitType::PREEMPTIVE_OS_AUTHZINITIALIZECONTEXTFROMSID => 46,
        WaitType::PREEMPTIVE_OS_AUTHZINITIALIZERESOURCEMANAGER => 47,
        WaitType::PREEMPTIVE_OS_BACKUPREAD => 48,
        WaitType::PREEMPTIVE_OS_CLOSEHANDLE => 49,
        _ => 0,
    }
}

/// The wait type at each place of part 10.
#[verifier::opaque]
pub open spec fn ranked_in_part_10(r: int) -> WaitType {
    if r == 0 {
        WaitType::PREEMPTIVE_CONSOLEWRITE
    } else if r == 1 {
        WaitType::PREEMPTIVE_CREATEPARAM
    } else if r == 2 {
        WaitType::PREEMPTIVE_DEBUG
    } else if r == 3 {
        WaitType::PREEMPTIVE_DFSADDLINK
    } else if r == 4 {
        WaitType::PREEMPTIVE_DFSLINKEXISTCHECK
    } else if r == 5 {
        WaitType::PREEMPTIVE_DFSLINKHEALTHCHECK
    } else if r == 6 {
        WaitType::PREEMPTIVE_DFSREMOVELINK
    } else if r == 7 {
        WaitType::PREEMPTIVE_DFSREMOVEROOT
    } else if r == 8 {
        WaitType::PREEMPTIVE_DFSROOTFOLDERCHECK
    } else if r == 9 {
        WaitType::PREEMPTIVE_DFSROOTINIT
    } else if r == 10 {
        WaitType::PREEMPTIVE_DFSROOTSHARECHECK
    } else if r == 11 {
        WaitType::PREEMPTIVE_DTC_ABORT
    } else if r == 12 {
        WaitType::PREEMPTIVE_DTC_ABORTREQUESTDONE
    } else if r == 13 {
        WaitType::PREEMPTIVE_DTC_BEGINTRANSACTION
    } else if r == 14 {
        WaitType::PREEMPTIVE_DTC_COMMITREQUESTDONE
    } else if r == 15 {
        WaitType::PREEMPTIVE_DTC_ENLIST
    } else if r == 16 {
        WaitType::PREEMPTIVE_DTC_PREPAREREQUESTDONE
    } else if r == 17 {
        WaitType::PREEMPTIVE_FILESIZEGET
    } else if r == 18 {
        WaitType::PREEMPTIVE_FSAOLEDB_ABORTTRANSACTION
    } else if r == 19 {
        WaitType::PREEMPTIVE_FSAOLEDB_COMMITTRANSACTION
    } else if r == 20 {
        WaitType::PREEMPTIVE_FSAOLEDB_STARTTRANSACTION
    } else if r == 21 {
        WaitType::PREEMPTIVE_FSRECOVER_UNCONDITIONALUNDO
    } else if r == 22 {
        WaitType::PREEMPTIVE_GETRMINFO
    } else if r == 23 {
        WaitType::PREEMPTIVE_HADR_LEASE_MECHANISM
    } else if r == 24 {
        WaitType::PREEMPTIVE_HTTP_EVENT_WAIT
    } else if r == 25 {
        WaitType::PREEMPTIVE_HTTP_REQUEST
    } else if r == 26 {
        WaitType::PREEMPTIVE_LOCKMONITOR
    } else if r == 27 {
        WaitType::PREEMPTIVE_MSS_RELEASE
    } else if r == 28 {
        WaitType::PREEMPTIVE_ODBCOPS
    } else if r == 29 {
        WaitType::PREEMPTIVE_OLEDBOPS
    } else if r == 30 {
        WaitType::PREEMPTIVE_OLEDB_ABORTORCOMMITTRAN
    } else if r == 31 {
        WaitType::PREEMPTIVE_OLEDB_ABORTTRAN
    } else if r == 32 {
        WaitType::PREEMPTIVE_OLEDB_GETDATASOURCE
    } else if r == 33 {
        WaitType::PREEMPTIVE_OLEDB_GETLITERALINFO
    } else if r == 34 {
        WaitType::PREEMPTIVE_OLEDB_GETPROPERTIES
    } else if r == 35 {
        WaitType::PREEMPTIVE_OLEDB_GETPROPERTYINFO
    } else if r == 36 {
        WaitType::PREEMPTIVE_OLEDB_GETSCHEMALOCK
    } else if r == 37 {
        WaitType::PREEMPTIVE_OLEDB_JOINTRANSACTION
    } else if r == 38 {
        WaitType::PREEMPTIVE_OLEDB_RELEASE
    } else if r == 39 {
        WaitType::PREEMPTIVE_OLEDB_SETPROPERTIES
    } else if r == 40 {
        WaitType::PREEMPTIVE_OLE_UNINIT
    } else if r == 41 {
        WaitType::PREEMPTIVE_OS_ACCEPTSECURITYCONTEXT
    } else if r == 42 {
        WaitType::PREEMPTIVE_OS_ACQUIRECREDENTIALSHANDLE
    } else if r == 43 {
        WaitType::PREEMPTIVE_OS_AUTHENTICATIONOPS
    } else if r == 44 {
        WaitType::PREEMPTIVE_OS_AUTHORIZATIONOPS
    } else if r == 45 {
        WaitType::PREEMPTIVE_OS_AUTHZGETINFORMATIONFROMCONTEXT
    } else if r == 46 {
        WaitType::PREEMPTIVE_OS_AUTHZINITIALIZECONTEXTFROMSID
    } else if r == 47 {
        WaitType::PREEMPTIVE_OS_AUTHZINITIALIZERESOURCEMANAGER
    } else if r == 48 {
        WaitType::PREEMPTIVE_OS_BACKUPREAD
    } else if r == 49 {
        WaitType::PREEMPTIVE_OS_CLOSEHANDLE
    } else {
        WaitType::PREEMPTIVE_CONSOLEWRITE
    }
}

/// The name at each place of part 10.
#[verifier::opaque]
pub open spec fn name_in_part_10(r: int) -> Seq<char> {
    if r == 0 {
        "PREEMPTIVE_CONSOLEWRITE"@
    } else if r == 1 {
        "PREEMPTIVE_CREATEPARAM"@
    } else if r == 2 {
        "PREEMPTIVE_DEBUG"@
    } else if r == 3 {
        "PREEMPTIVE_DFSADDLINK"@
    } else if r == 4 {
        "PREEMPTIVE_DFSLINKEXISTCHECK"@
    } else if r == 5 {
        "PREEMPTIVE_DFSLINKHEALTHCHECK"@
    } else if r == 6 {
        "PREEMPTIVE_DFSREMOVELINK"@
    } else if r == 7 {
        "PREEMPTIVE_DFSREMOVEROOT"@
    } else if r == 8 {
        "PREEMPTIVE_DFSROOTFOLDERCHECK"@
    } else if r == 9 {
        "PREEMPTIVE_DFSROOTINIT"@
    } else if r == 10 {
        "PREEMPTIVE_DFSROOTSHARECHECK"@
    } else if r == 11 {
        "PREEMPTIVE_DTC_ABORT"@
    } else if r == 12 {
        "PREEMPTIVE_DTC_ABORTREQUESTDONE"@
    } else if r == 13 {
        "PREEMPTIVE_DTC_BEGINTRANSACTION"@
    } else if r == 14 {
        "PREEMPTIVE_DTC_COMMITREQUESTDONE"@
    } else if r == 15 {
        "PREEMPTIVE_DTC_ENLIST"@
    } else if r == 16 {
        "PREEMPTIVE_DTC_PREPAREREQUESTDONE"@
    } else if r == 17 {
        "PREEMPTIVE_FILESIZEGET"@
    } else if r == 18 {
        "PREEMPTIVE_FSAOLEDB_ABORTTRANSACTION"@
    } else if r == 19 {
        "PREEMPTIVE_FSAOLEDB_COMMITTRANSACTION"@
    } else if r == 20 {
        "PREEMPTIVE_FSAOLEDB_STARTTRANSACTION"@
    } else if r == 21 {
        "PREEMPTIVE_FSRECOVER_UNCONDITIONALUNDO"@
    } else if r == 22 {
        "PREEMPTIVE_GETRMINFO"@
    } else if r == 23 {
        "PREEMPTIVE_HADR_LEASE_MECHANISM"@
    } else if r == 24 {
        "PREEMPTIVE_HTTP_EVENT_WAIT"@
    } else if r == 25 {
        "PREEMPTIVE_HTTP_REQUEST"@
    } else if r == 26 {
        "PREEMPTIVE_LOCKMONITOR"@
    } else if r == 27 {
        "PREEMPTIVE_MSS_RELEASE"@
    } else if r == 28 {
        "PREEMPTIVE_ODBCOPS"@
    } else if r == 29 {
        "PREEMPTIVE_OLEDBOPS"@
    } else if r == 30 {
        "PREEMPTIVE_OLEDB_ABORTORCOMMITTRAN"@
    } else if r == 31 {
        "PREEMPTIVE_OLEDB_ABORTTRAN"@
    } else if r == 32 {
        "PREEMPTIVE_OLEDB_GETDATASOURCE"@
    } else if r == 33 {
        "PREEMPTIVE_OLEDB_GETLITERALINFO"@
    } else if r == 34 {
        "PREEMPTIVE_OLEDB_GETPROPERTIES"@
    } else if r == 35 {
        "PREEMPTIVE_OLEDB_GETPROPERTYINFO"@
    } else if r == 36 {
        "PREEMPTIVE_OLEDB_GETSCHEMALOCK"@
    } else if r == 37 {
        "PREEMPTIVE_OLEDB_JOINTRANSACTION"@
    } else if r == 38 {
        "PREEMPTIVE_OLEDB_RELEASE"@
    } else if r == 39 {
        "PREEMPTIVE_OLEDB_SETPROPERTIES"@
    } else if r == 40 {
        "PREEMPTIVE_OLE_UNINIT"@
    } else if r == 41 {
        "PREEMPTIVE_OS_ACCEPTSECURITYCONTEXT"@
    } else if r == 42 {
        "PREEMPTIVE_OS_ACQUIRECREDENTIALSHANDLE"@
    } else if r == 43 {
        "PREEMPTIVE_OS_AUTHENTICATIONOPS"@
    } else if r == 44 {
        "PREEMPTIVE_OS_AUTHORIZATIONOPS"@
    } else if r == 45 {
        "PREEMPTIVE_OS_AUTHZGETINFORMATIONFROMCONTEXT"@
    } else if r == 46 {
        "PREEMPTIVE_OS_AUTHZINITIALIZECONTEXTFROMSID"@
    } else if r == 47 {
        "PREEMPTIVE_OS_AUTHZINITIALIZERESOURCEMANAGER"@
    } else if r == 48 {
        "PREEMPTIVE_OS_BACKUPREAD"@
    } else if r == 49 {
        "PREEMPTIVE_OS_CLOSEHANDLE"@
    } else {
        seq![]
    }
}

/// The place of each wait type of part 11 within that part.
#[verifier::opaque]
pub open spec fn rank_in_part_11(w: WaitType) -> int {
    match w {
        WaitType::PREEMPTIVE_OS_CLUSTEROPS => 0,
        WaitType::PREEMPTIVE_OS_COMOPS => 1,
        WaitType::PREEMPTIVE_OS_COMPLETEAUTHTOKEN => 2,
        WaitType::PREEMPTIVE_OS_COPYFILE => 3,
        WaitType::PREEMPTIVE_OS_CREATEDIRECTORY => 4,
        WaitType::PREEMPTIVE_OS_CREATEFILE => 5,
        WaitType::PREEMPTIVE_OS_CRYPTACQUIRECONTEXT => 6,
        WaitType::PREEMPTIVE_OS_CRYPTIMPORTKEY => 7,
        WaitType::PREEMPTIVE_OS_CRYPTOPS => 8,
        WaitType::PREEMPTIVE_OS_DECRYPTMESSAGE => 9,
        WaitType::PREEMPTIVE_OS_DELETEFILE => 10,
        WaitType::PREEMPTIVE_OS_DELETESECURITYCONTEXT => 11,
        WaitType::PREEMPTIVE_OS_DEVICEIOCONTROL => 12,
        WaitType::PREEMPTIVE_OS_DEVICEOPS => 13,
        WaitType::PREEMPTIVE_OS_DIRSVC_NETWORKOPS => 14,
        WaitType::PREEMPTIVE_OS_DISCONNECTNAMEDPIPE => 15,
        WaitType::PREEMPTIVE_OS_DOMAINSERVICESOPS => 16,
        WaitType::PREEMPTIVE_OS_DSGETDCNAME => 17,
        WaitType::PREEMPTIVE_OS_DTCOPS => 18,
        WaitType::PREEMPTIVE_OS_ENCRYPTMESSAGE => 19,
        WaitType::PREEMPTIVE_OS_FILEOPS => 20,
        WaitType::PREEMPTIVE_OS_FINDFILE => 21,
        WaitType::PREEMPTIVE_OS_FLUSHFILEBUFFERS => 22,
        WaitType::PREEMPTIVE_OS_FORMATMESSAGE => 23,
        WaitType::PREEMPTIVE_OS_FREECREDENTIALSHANDLE => 24,
        WaitType::PREEMPTIVE_OS_FREELIBRARY => 25,
        WaitType::PREEMPTIVE_OS_GENERICOPS => 26,
        WaitType::PREEMPTIVE_OS_GETADDRINFO => 27,
        WaitType::PREEMPTIVE_OS_GETCOMPRESSEDFILESIZE => 28,
        WaitType::PREEMPTIVE_OS_GETDISKFREESPACE => 29,
        WaitType::PREEMPTIVE_OS_GETFILEATTRIBUTES => 30,
        WaitType::PREEMPTIVE_OS_GETFILESIZE => 31,
        WaitType::PREEMPTIVE_OS_GETFINALFILEPATHBYHANDLE => 32,
        WaitType::PREEMPTIVE_OS_GETLONGPATHNAME => 33,
        WaitType::PREEMPTIVE_OS_GETPROCADDRESS => 34,
        WaitType::PREEMPTIVE_OS_GETVOLUMENAMEFORVOLUMEMOUNTPOINT => 35,
        WaitType::PREEMPTIVE_OS_GETVOLUMEPATHNAME => 36,
        WaitType::PREEMPTIVE_OS_INITIALIZESECURITYCONTEXT => 37,
        WaitType::PREEMPTIVE_OS_LIBRARYOPS => 38,
        WaitType::PREEMPTIVE_OS_LOADLIBRARY => 39,
        WaitType::PREEMPTIVE_OS_LOGONUSER => 40,
        WaitType::PREEMPTIVE_OS_LOOKUPACCOUNTSID => 41,
        WaitType::PREEMPTIVE_OS_MESSAGEQUEUEOPS => 42,
        WaitType::PREEMPTIVE_OS_MOVEFILE => 43,
        WaitType::PREEMPTIVE_OS_NETGROUPGETUSERS => 44,
        WaitType::PREEMPTIVE_OS_NETLOCALGROUPGETMEMBERS => 45,
        WaitType::PREEMPTIVE_OS_NETUSERGETGROUPS => 46,
        WaitType::PREEMPTIVE_OS_NETUSERGETLOCALGROUPS => 47,
        WaitType::PREEMPTIVE_OS_NETUSERMODALSGET => 48,
        WaitType::PREEMPTIVE_OS_NETVALIDATEPASSWORDPOLICY => 49,
        _ => 0,
    }
}

/// The wait type at each place of part 11.
#[verifier::opaque]
pub open spec fn ranked_in_part_11(r: int) -> WaitType {
    if r == 0 {
        WaitType::PREEMPTIVE_OS_CLUSTEROPS
    } else if r == 1 {
        WaitType::PREEMPTIVE_OS_COMOPS
    } else if r == 2 {
        WaitType::PREEMPTIVE_OS_COMPLETEAUTHTOKEN
    } else if r == 3 {
        WaitType::PREEMPTIVE_OS_COPYFILE
    } else if r == 4 {
        WaitType::PREEMPTIVE_OS_CREATEDIRECTORY
    } else if r == 5 {
        WaitType::PREEMPTIVE_OS_CREATEFILE
    } else if r == 6 {
        WaitType::PREEMPTIVE_OS_CRYPTACQUIRECONTEXT
    } else if r == 7 {
        WaitType::PREEMPTIVE_OS_CRYPTIMPORTKEY
    } else if r == 8 {
        WaitType::PREEMPTIVE_OS_CRYPTOPS
    } else if r == 9 {
        WaitType::PREEMPTIVE_OS_DECRYPTMESSAGE
    } else if r == 10 {
        WaitType::PREEMPTIVE_OS_DELETEFILE
    } else if r == 11 {
        WaitType::PREEMPTIVE_OS_DELETESECURITYCONTEXT
    } else if r == 12 {
        WaitType::PREEMPTIVE_OS_DEVICEIOCONTROL
    } else if r == 13 {
        WaitType::PREEMPTIVE_OS_DEVICEOPS
    } else if r == 14 {
        WaitType::PREEMPTIVE_OS_DIRSVC_NETWORKOPS
    } else if r == 15 {
        WaitType::PREEMPTIVE_OS_DISCONNECTNAMEDPIPE
    } else if r == 16 {
        WaitType::PREEMPTIVE_OS_DOMAINSERVICESOPS
    } else if r == 17 {
        WaitType::PREEMPTIVE_OS_DSGETDCNAME
    } else if r == 18 {
        WaitType::PREEMPTIVE_OS_DTCOPS
    } else if r == 19 {
        WaitType::PREEMPTIVE_OS_ENCRYPTMESSAGE
    } else if r == 20 {
        WaitType::PREEMPTIVE_OS_FILEOPS
    } else if r == 21 {
        WaitType::PREEMPTIVE_OS_FINDFILE
    } else if r == 22 {
        WaitType::PREEMPTIVE_OS_FLUSHFILEBUFFERS
    } else if r == 23 {
        WaitType::PREEMPTIVE_OS_FORMATMESSAGE
    } else if r == 24 {
        WaitType::PREEMPTIVE_OS_FREECREDENTIALSHANDLE
    } else if r == 25 {
        WaitType::PREEMPTIVE_OS_FREELIBRARY
    } else if r == 26 {
        WaitType::PREEMPTIVE_OS_GENERICOPS
    } else if r == 27 {
        WaitType::PREEMPTIVE_OS_GETADDRINFO
    } else if r == 28 {
        WaitType::PREEMPTIVE_OS_GETCOMPRESSEDFILESIZE
    } else if r == 29 {
        WaitType::PREEMPTIVE_OS_GETDISKFREESPACE
    } else if r == 30 {
        WaitType::PREEMPTIVE_OS_GETFILEATTRIBUTES
    } else if r == 31 {
        WaitType::PREEMPTIVE_OS_GETFILESIZE
    } else if r == 32 {
        WaitType::PREEMPTIVE_OS_GETFINALFILEPATHBYHANDLE
    } else if r == 33 {
        WaitType::PREEMPTIVE_OS_GETLONGPATHNAME
    } else if r == 34 {
        WaitType::PREEMPTIVE_OS_GETPROCADDRESS
    } else if r == 35 {
        WaitType::PREEMPTIVE_OS_GETVOLUMENAMEFORVOLUMEMOUNTPOINT
    } else if r == 36 {
        WaitType::PREEMPTIVE_OS_GETVOLUMEPATHNAME
    } else if r == 37 {
        WaitType::PREEMPTIVE_OS_INITIALIZESECURITYCONTEXT
    } else if r == 38 {
        WaitType::PREEMPTIVE_OS_LIBRARYOPS
    } else if r == 39 {
        WaitType::PREEMPTIVE_OS_LOADLIBRARY
    } else if r == 40 {
        WaitType::PREEMPTIVE_OS_LOGONUSER
    } else if r == 41 {
        WaitType::PREEMPTIVE_OS_LOOKUPACCOUNTSID
    } else if r == 42 {
        WaitType::PREEMPTIVE_OS_MESSAGEQUEUEOPS
    } else if r == 43 {
        WaitType::PREEMPTIVE_OS_MOVEFILE
    } else if r == 44 {
        WaitType::PREEMPTIVE_OS_NETGROUPGETUSERS
    } else if r == 45 {
        WaitType::PREEMPTIVE_OS_NETLOCALGROUPGETMEMBERS
    } else if r == 46 {
        WaitType::PREEMPTIVE_OS_NETUSERGETGROUPS
    } else if r == 47 {
        WaitType::PREEMPTIVE_OS_NETUSERGETLOCALGROUPS
    } else if r == 48 {
        WaitType::PREEMPTIVE_OS_NETUSERMODALSGET
    } else if r == 49 {
        WaitType::PREEMPTIVE_OS_NETVALIDATEPASSWORDPOLICY
    } else {
        WaitType::PREEMPTIVE_OS_CLUSTEROPS
    }
}

/// The name at each place of part 11.
#[verifier::opaque]
pub open spec fn name_in_part_11(r: int) -> Seq<char> {
    if r == 0 {
        "PREEMPTIVE_OS_CLUSTEROPS"@
    } else if r == 1 {
        "PREEMPTIVE_OS_COMOPS"@
    } else if r == 2 {
        "PREEMPTIVE_OS_COMPLETEAUTHTOKEN"@
    } else if r == 3 {
        "PREEMPTIVE_OS_COPYFILE"@
    } else if r == 4 {
        "PREEMPTIVE_OS_CREATEDIRECTORY"@
    } else if r == 5 {
        "PREEMPTIVE_OS_CREATEFILE"@
    } else if r == 6 {
        "PREEMPTIVE_OS_CRYPTACQUIRECONTEXT"@
    } else if r == 7 {
        "PREEMPTIVE_OS_CRYPTIMPORTKEY"@
    } else if r == 8 {
        "PREEMPTIVE_OS_CRYPTOPS"@
    } else if r == 9 {
        "PREEMPTIVE_OS_DECRYPTMESSAGE"@
    } else if r == 10 {
        "PREEMPTIVE_OS_DELETEFILE"@
    } else if r == 11 {
        "PREEMPTIVE_OS_DELETESECURITYCONTEXT"@
    } else if r == 12 {
        "PREEMPTIVE_OS_DEVICEIOCONTROL"@
    } else if r == 13 {
        "PREEMPTIVE_OS_DEVICEOPS"@
    } else if r == 14 {
        "PREEMPTIVE_OS_DIRSVC_NETWORKOPS"@
    } else if r == 15 {
        "PREEMPTIVE_OS_DISCONNECTNAMEDPIPE"@
    } else if r == 16 {
        "PREEMPTIVE_OS_DOMAINSERVICESOPS"@
    } else if r == 17 {
        "PREEMPTIVE_OS_DSGETDCNAME"@
    } else if r == 18 {
        "PREEMPTIVE_OS_DTCOPS"@
    } else if r == 19 {
        "PREEMPTIVE_OS_ENCRYPTMESSAGE"@
    } else if r == 20 {
        "PREEMPTIVE_OS_FILEOPS"@
    } else if r == 21 {
        "PREEMPTIVE_OS_FINDFILE"@
    } else if r == 22 {
        "PREEMPTIVE_OS_FLUSHFILEBUFFERS"@
    } else if r == 23 {
        "PREEMPTIVE_OS_FORMATMESSAGE"@
    } else if r == 24 {
        "PREEMPTIVE_OS_FREECREDENTIALSHANDLE"@
    } else if r == 25 {
        "PREEMPTIVE_OS_FREELIBRARY"@
    } else if r == 26 {
        "PREEMPTIVE_OS_GENERICOPS"@
    } else if r == 27 {
        "PREEMPTIVE_OS_GETADDRINFO"@
    } else if r == 28 {
        "PREEMPTIVE_OS_GETCOMPRESSEDFILESIZE"@
    } else if r == 29 {
        "PREEMPTIVE_OS_GETDISKFREESPACE"@
    } else if r == 30 {
        "PREEMPTIVE_OS_GETFILEATTRIBUTES"@
    } else if r == 31 {
        "PREEMPTIVE_OS_GETFILESIZE"@
    } else if r == 32 {
        "PREEMPTIVE_OS_GETFINALFILEPATHBYHANDLE"@
    } else if r == 33 {
        "PREEMPTIVE_OS_GETLONGPATHNAME"@
    } else if r == 34 {
        "PREEMPTIVE_OS_GETPROCADDRESS"@
    } else if r == 35 {
        "PREEMPTIVE_OS_GETVOLUMENAMEFORVOLUMEMOUNTPOINT"@
    } else if r == 36 {
        "PREEMPTIVE_OS_GETVOLUMEPATHNAME"@
    } else if r == 37 {
        "PREEMPTIVE_OS_INITIALIZESECURITYCONTEXT"@
    } else if r == 38 {
        "PREEMPTIVE_OS_LIBRARYOPS"@
    } else if r == 39 {
        "PREEMPTIVE_OS_LOADLIBRARY"@
    } else if r == 40 {
        "PREEMPTIVE_OS_LOGONUSER"@
    } else if r == 41 {
        "PREEMPTIVE_OS_LOOKUPACCOUNTSID"@
    } else if r == 42 {
        "PREEMPTIVE_OS_MESSAGEQUEUEOPS"@
    } else if r == 43 {
        "PREEMPTIVE_OS_MOVEFILE"@
    } else if r == 44 {
        "PREEMPTIVE_OS_NETGROUPGETUSERS"@
    } else if r == 45 {
        "PREEMPTIVE_OS_NETLOCALGROUPGETMEMBERS"@
    } else if r == 46 {
        "PREEMPTIVE_OS_NETUSERGETGROUPS"@
    } else if r == 47 {
        "PREEMPTIVE_OS_NETUSERGETLOCALGROUPS"@
    } else if r == 48 {
        "PREEMPTIVE_OS_NETUSERMODALSGET"@
    } else if r == 49 {
        "PREEMPTIVE_OS_NETVALIDATEPASSWORDPOLICY"@
    } else {
        seq![]
    }
}

/// The place of each wait type of part 12 within that part.
#[verifier::opaque]
pub open spec fn rank_in_part_12(w: WaitType) -> int {
    match w {
        WaitType::PREEMPTIVE_OS_NETVALIDATEPASSWORDPOLICYFREE => 0,
        WaitType::PREEMPTIVE_OS_OPENDIRECTORY => 1,
        WaitType::PREEMPTIVE_OS_PDH_WMI_INIT => 2,
        WaitType::PREEMPTIVE_OS_PIPEOPS => 3,
        WaitType::PREEMPTIVE_OS_PROCESSOPS => 4,
        WaitType::PREEMPTIVE_OS_QUERYCONTEXTATTRIBUTES => 5,
        WaitType::PREEMPTIVE_OS_QUERYREGISTRY => 6,
        WaitType::PREEMPTIVE_OS_QUERYSECURITYCONTEXTTOKEN => 7,
        WaitType::PREEMPTIVE_OS_REMOVEDIRECTORY => 8,
        WaitType::PREEMPTIVE_OS_REPORTEVENT => 9,
        WaitType::PREEMPTIVE_OS_REVERTTOSELF => 10,
        WaitType::PREEMPTIVE_OS_RSFXDEVICEOPS => 11,
        WaitType::PREEMPTIVE_OS_SECURITYOPS => 12,
        WaitType::PREEMPTIVE_OS_SERVICEOPS => 13,
        WaitType::PREEMPTIVE_OS_SETENDOFFILE => 14,
        WaitType::PREEMPTIVE_OS_SETFILEPOINTER => 15,
        WaitType::PREEMPTIVE_OS_SETFILEVALIDDATA => 16,
        WaitType::PREEMPTIVE_OS_SETNAMEDSECURITYINFO => 17,
        WaitType::PREEMPTIVE_OS_SQLCLROPS => 18,
        WaitType::PREEMPTIVE_OS_SQMLAUNCH => 19,
        WaitType::PREEMPTIVE_OS_VERIFYSIGNATURE => 20,
        WaitType::PREEMPTIVE_OS_VERIFYTRUST => 21,
        WaitType::PREEMPTIVE_OS_VSSOPS => 22,
        WaitType::PREEMPTIVE_OS_WAITFORSINGLEOBJECT => 23,
        WaitType::PREEMPTIVE_OS_WINSOCKOPS => 24,
        WaitType::PREEMPTIVE_OS_WRITEFILE => 25,
        WaitType::PREEMPTIVE_OS_WRITEFILEGATHER => 26,
        WaitType::PREEMPTIVE_OS_WSASETLASTERROR => 27,
        WaitType::PREEMPTIVE_REENLIST => 28,
        WaitType::PREEMPTIVE_RESIZELOG => 29,
        WaitType::PREEMPTIVE_ROLLFORWARDREDO => 30,
        WaitType::PREEMPTIVE_ROLLFORWARDUNDO => 31,
        WaitType::PREEMPTIVE_SB_STOPENDPOINT => 32,
        WaitType::PREEMPTIVE_SERVER_STARTUP => 33,
        WaitType::PREEMPTIVE_SETRMINFO => 34,
        WaitType::PREEMPTIVE_SHAREDMEM_GETDATA => 35,
        WaitType::PREEMPTIVE_SNIOPEN => 36,
        WaitType::PREEMPTIVE_SOSHOST => 37,
        WaitType::PREEMPTIVE_SOSTESTING => 38,
        WaitType::PREEMPTIVE_SP_SERVER_DIAGNOSTICS => 39,
        WaitType::PREEMPTIVE_STARTRM => 40,
        WaitType::PREEMPTIVE_STREAMFCB_CHECKPOINT => 41,
        WaitType::PREEMPTIVE_STREAMFCB_RECOVER => 42,
        WaitType::PREEMPTIVE_STRESSDRIVER => 43,
        WaitType::PREEMPTIVE_TESTING => 44,
        WaitType::PREEMPTIVE_TRANSIMPORT => 45,
        WaitType::PREEMPTIVE_UNMARSHALPROPAGATIONTOKEN => 46,
        WaitType::PREEMPTIVE_VSS_CREATESNAPSHOT => 47,
        WaitType::PREEMPTIVE_VSS_CREATEVOLUMESNAPSHOT => 48,
        WaitType::PREEMPTIVE_XETESTING => 49,
        _ => 0,
    }
}

/// The wait type at each place of part 12.
#[verifier::opaque]
pub open spec fn ranked_in_part_12(r: int) -> WaitType {
    if r == 0 {
        WaitType::PREEMPTIVE_OS_NETVALIDATEPASSWORDPOLICYFREE
    } else if r == 1 {
        WaitType::PREEMPTIVE_OS_OPENDIRECTORY
    } else if r == 2 {
        WaitType::PREEMPTIVE_OS_PDH_WMI_INIT
    } else if r == 3 {
        WaitType::PREEMPTIVE_OS_PIPEOPS
    } else if r == 4 {
        WaitType::PREEMPTIVE_OS_PROCESSOPS
    } else if r == 5 {
        WaitType::PREEMPTIVE_OS_QUERYCONTEXTATTRIBUTES
    } else if r == 6 {
        WaitType::PREEMPTIVE_OS_QUERYREGISTRY
    } else if r == 7 {
        WaitType::PREEMPTIVE_OS_QUERYSECURITYCONTEXTTOKEN
    } else if r == 8 {
        WaitType::PREEMPTIVE_OS_REMOVEDIRECTORY
    } else if r == 9 {
        WaitType::PREEMPTIVE_OS_REPORTEVENT
    } else if r == 10 {
        WaitType::PREEMPTIVE_OS_REVERTTOSELF
    } else if r == 11 {
        WaitType::PREEMPTIVE_OS_RSFXDEVICEOPS
    } else if r == 12 {
        WaitType::PREEMPTIVE_OS_SECURITYOPS
    } else if r == 13 {
        WaitType::PREEMPTIVE_OS_SERVICEOPS
    } else if r == 14 {
        WaitType::PREEMPTIVE_OS_SETENDOFFILE
    } else if r == 15 {
        WaitType::PREEMPTIVE_OS_SETFILEPOINTER
    } else if r == 16 {
        WaitType::PREEMPTIVE_OS_SETFILEVALIDDATA
    } else if r == 17 {
        WaitType::PREEMPTIVE_OS_SETNAMEDSECURITYINFO
    } else if r == 18 {
        WaitType::PREEMPTIVE_OS_SQLCLROPS
    } else if r == 19 {
        WaitType::PREEMPTIVE_OS_SQMLAUNCH
    } else if r == 20 {
        WaitType::PREEMPTIVE_OS_VERIFYSIGNATURE
    } else if r == 21 {
        WaitType::PREEMPTIVE_OS_VERIFYTRUST
    } else if r == 22 {
        WaitType::PREEMPTIVE_OS_VSSOPS
    } else if r == 23 {
        WaitType::PREEMPTIVE_OS_WAITFORSINGLEOBJECT
    } else if r == 24 {
        WaitType::PREEMPTIVE_OS_WINSOCKOPS
    } else if r == 25 {
        WaitType::PREEMPTIVE_OS_WRITEFILE
    } else if r == 26 {
        WaitType::PREEMPTIVE_OS_WRITEFILEGATHER
    } else if r == 27 {
        WaitType::PREEMPTIVE_OS_WSASETLASTERROR
    } else if r == 28 {
        WaitType::PREEMPTIVE_REENLIST
    } else if r == 29 {
        WaitType::PREEMPTIVE_RESIZELOG
    } else if r == 30 {
        WaitType::PREEMPTIVE_ROLLFORWARDREDO
    } else if r == 31 {
        WaitType::PREEMPTIVE_ROLLFORWARDUNDO
    } else if r == 32 {
        WaitType::PREEMPTIVE_SB_STOPENDPOINT
    } else if r == 33 {
        WaitType::PREEMPTIVE_SERVER_STARTUP
    } else if r == 34 {
        WaitType::PREEMPTIVE_SETRMINFO
    } else if r == 35 {
        WaitType::PREEMPTIVE_SHAREDMEM_GETDATA
    } else if r == 36 {
        WaitType::PREEMPTIVE_SNIOPEN
    } else if r == 37 {
        WaitType::PREEMPTIVE_SOSHOST
    } else if r == 38 {
        WaitType::PREEMPTIVE_SOSTESTING
    } else if r == 39 {
        WaitType::PREEMPTIVE_SP_SERVER_DIAGNOSTICS
    } else if r == 40 {
        WaitType::PREEMPTIVE_STARTRM
    } else if r == 41 {
        WaitType::PREEMPTIVE_STREAMFCB_CHECKPOINT
    } else if r == 42 {
        WaitType::PREEMPTIVE_STREAMFCB_RECOVER
    } else if r == 43 {
        WaitType::PREEMPTIVE_STRESSDRIVER
    } else if r == 44 {
        WaitType::PREEMPTIVE_TESTING
    } else if r == 45 {
        WaitType::PREEMPTIVE_TRANSIMPORT
    } else if r == 46 {
        WaitType::PREEMPTIVE_UNMARSHALPROPAGATIONTOKEN
    } else if r == 47 {
        WaitType::PREEMPTIVE_VSS_CREATESNAPSHOT
    } else if r == 48 {
        WaitType::PREEMPTIVE_VSS_CREATEVOLUMESNAPSHOT
    } else if r == 49 {
        WaitType::PREEMPTIVE_XETESTING
    } else {
        WaitType::PREEMPTIVE_OS_NETVALIDATEPASSWORDPOLICYFREE
    }
}

/// The name at each place of part 12.
#[verifier::opaque]
pub open spec fn name_in_part_12(r: int) -> Seq<char> {
    if r == 0 {
        "PREEMPTIVE_OS_NETVALIDATEPASSWORDPOLICYFREE"@
    } else if r == 1 {
        "PREEMPTIVE_OS_OPENDIRECTORY"@
    } else if r == 2 {
        "PREEMPTIVE_OS_PDH_WMI_INIT"@
    } else if r == 3 {
        "PREEMPTIVE_OS_PIPEOPS"@
    } else if r == 4 {
        "PREEMPTIVE_OS_PROCESSOPS"@
    } else if r == 5 {
        "PREEMPTIVE_OS_QUERYCONTEXTATTRIBUTES"@
    } else if r == 6 {
        "PREEMPTIVE_OS_QUERYREGISTRY"@
    } else if r == 7 {
        "PREEMPTIVE_OS_QUERYSECURITYCONTEXTTOKEN"@
    } else if r == 8 {
        "PREEMPTIVE_OS_REMOVEDIRECTORY"@
    } else if r == 9 {
        "PREEMPTIVE_OS_REPORTEVENT"@
    } else if r == 10 {
        "PREEMPTIVE_OS_REVERTTOSELF"@
    } else if r == 11 {
        "PREEMPTIVE_OS_RSFXDEVICEOPS"@
    } else if r == 12 {
        "PREEMPTIVE_OS_SECURITYOPS"@
    } else if r == 13 {
        "PREEMPTIVE_OS_SERVICEOPS"@
    } else if r == 14 {
        "PREEMPTIVE_OS_SETENDOFFILE"@
    } else if r == 15 {
        "PREEMPTIVE_OS_SETFILEPOINTER"@
    } else if r == 16 {
        "PREEMPTIVE_OS_SETFILEVALIDDATA"@
    } else if r == 17 {
        "PREEMPTIVE_OS_SETNAMEDSECURITYINFO"@
    } else if r == 18 {
        "PREEMPTIVE_OS_SQLCLROPS"@
    } else if r == 19 {
        "PREEMPTIVE_OS_SQMLAUNCH"@
    } else if r == 20 {
        "PREEMPTIVE_OS_VERIFYSIGNATURE"@
    } else if r == 21 {
        "PREEMPTIVE_OS_VERIFYTRUST"@
    } else if r == 22 {
        "PREEMPTIVE_OS_VSSOPS"@
    } else if r == 23 {
        "PREEMPTIVE_OS_WAITFORSINGLEOBJECT"@
    } else if r == 24 {
        "PREEMPTIVE_OS_WINSOCKOPS"@
    } else if r == 25 {
        "PREEMPTIVE_OS_WRITEFILE"@
    } else if r == 26 {
        "PREEMPTIVE_OS_WRITEFILEGATHER"@
    } else if r == 27 {
        "PREEMPTIVE_OS_WSASETLASTERROR"@
    } else if r == 28 {
        "PREEMPTIVE_REENLIST"@
    } else if r == 29 {
        "PREEMPTIVE_RESIZELOG"@
    } else if r == 30 {
        "PREEMPTIVE_ROLLFORWARDREDO"@
    } else if r == 31 {
        "PREEMPTIVE_ROLLFORWARDUNDO"@
    } else if r == 32 {
        "PREEMPTIVE_SB_STOPENDPOINT"@
    } else if r == 33 {
        "PREEMPTIVE_SERVER_STARTUP"@
    } else if r == 34 {
        "PREEMPTIVE_SETRMINFO"@
    } else if r == 35 {
        "PREEMPTIVE_SHAREDMEM_GETDATA"@
    } else if r == 36 {
        "PREEMPTIVE_SNIOPEN"@
    } else if r == 37 {
        "PREEMPTIVE_SOSHOST"@
    } else if r == 38 {
        "PREEMPTIVE_SOSTESTING"@
    } else if r == 39 {
        "PREEMPTIVE_SP_SERVER_DIAGNOSTICS"@
    } else if r == 40 {
        "PREEMPTIVE_STARTRM"@
    } else if r == 41 {
        "PREEMPTIVE_STREAMFCB_CHECKPOINT"@
    } else if r == 42 {
        "PREEMPTIVE_STREAMFCB_RECOVER"@
    } else if r == 43 {
        "PREEMPTIVE_STRESSDRIVER"@
    } else if r == 44 {
        "PREEMPTIVE_TESTING"@
    } else if r == 45 {
        "PREEMPTIVE_TRANSIMPORT"@
    } else if r == 46 {
        "PREEMPTIVE_UNMARSHALPROPAGATIONTOKEN"@
    } else if r == 47 {
        "PREEMPTIVE_VSS_CREATESNAPSHOT"@
    } else if r == 48 {
        "PREEMPTIVE_VSS_CREATEVOLUMESNAPSHOT"@
    } else if r == 49 {
        "PREEMPTIVE_XETESTING"@
    } else {
        seq![]
    }
}

/// The place of each wait type of part 13 within that part.
#[verifier::opaque]
pub open spec fn rank_in_part_13(w: WaitType) -> int {
    match w {
        WaitType::PREEMPTIVE_XE_CALLBACKEXECUTE => 0,
        WaitType::PREEMPTIVE_XE_CX_FILE_OPEN => 1,
        WaitType::PREEMPTIVE_XE_CX_HTTP_CALL => 2,
        WaitType::PREEMPTIVE_XE_DISPATCHER => 3,
        WaitType::PREEMPTIVE_XE_ENGINEINIT => 4,
        WaitType::PREEMPTIVE_XE_GETTARGETSTATE => 5,
        WaitType::PREEMPTIVE_XE_SESSIONCOMMIT => 6,
        WaitType::PREEMPTIVE_XE_TARGETFINALIZE => 7,
        WaitType::PREEMPTIVE_XE_TARGETINIT => 8,
        WaitType::PREEMPTIVE_XE_TIMERRUN => 9,
        WaitType::PRINT_ROLLBACK_PROGRESS => 10,
        WaitType::PRU_ROLLBACK_DEFERRED => 11,
        WaitType::PVS_CLEANUP_LOCK => 12,
        WaitType::PWAIT_ALL_COMPONENTS_INITIALIZED => 13,
        WaitType::PWAIT_COOP_SCAN => 14,
        WaitType::PWAIT_DIRECTLOGCONSUMER_GETNEXT => 15,
        WaitType::PWAIT_EVENT_SESSION_INIT_MUTEX => 16,
        WaitType::PWAIT_FABRIC_REPLICA_CONTROLLER_DATA_LOSS => 17,
        WaitType::PWAIT_HADRSIM => 18,
        WaitType::PWAIT_HADR_ACTION_COMPLETED => 19,
        WaitType::PWAIT_HADR_CHANGE_NOTIFIER_TERMINATION_SYNC => 20,
        WaitType::PWAIT_HADR_CLUSTER_INTEGRATION => 21,
        WaitType::PWAIT_HADR_FAILOVER_COMPLETED => 22,
        WaitType::PWAIT_HADR_JOIN => 23,
        WaitType::PWAIT_HADR_OFFLINE_COMPLETED => 24,
        WaitType::PWAIT_HADR_ONLINE_COMPLETED => 25,
        WaitType::PWAIT_HADR_POST_ONLINE_COMPLETED => 26,
        WaitType::PWAIT_HADR_SERVER_READY_CONNECTIONS => 27,
        WaitType::PWAIT_HADR_WORKITEM_COMPLETED => 28,
        WaitType::PWAIT_LOG_CONSOLIDATION_IO => 29,
        WaitType::PWAIT_LOG_CONSOLIDATION_POLL => 30,
        WaitType::PWAIT_MD_LOGIN_STATS => 31,
        WaitType::PWAIT_MD_RELATION_CACHE => 32,
        WaitType::PWAIT_MD_SERVER_CACHE => 33,
        WaitType::PWAIT_MD_UPGRADE_CONFIG => 34,
        WaitType::PWAIT_PREEMPTIVE_APP_USAGE_TIMER => 35,
        WaitType::PWAIT_PREEMPTIVE_AUDIT_ACCESS_WINDOWSLOG => 36,
        WaitType::PWAIT_QRY_BPMEMORY => 37,
        WaitType::PWAIT_REPLICA_ONLINE_INIT_MUTEX => 38,
        WaitType::PWAIT_RESOURCE_SEMAPHORE_FT_PARALLEL_QUERY_SYNC => 39,
        WaitType::PWAIT_SBS_FILE_OPERATION => 40,
        WaitType::PWAIT_XTP_FSSTORAGE_MAINTENANCE => 41,
        WaitType::PWAIT_XTP_HOST_STORAGE_WAIT => 42,
        WaitType::QDS_ASYNC_CHECK_CONSISTENCY_TASK => 43,
        WaitType::QDS_ASYNC_PERSIST_TASK => 44,
        WaitType::QDS_ASYNC_PERSIST_TASK_START => 45,
        WaitType::QDS_ASYNC_QUEUE => 46,
        WaitType::QDS_BCKG_TASK => 47,
        WaitType::QDS_BLOOM_FILTER => 48,
        WaitType::QDS_CLEANUP_STALE_QUERIES_TASK_MAIN_LOOP_SLEEP => 49,
        _ => 0,
    }
}

/// The wait type at each place of part 13.
#[verifier::opaque]
pub open spec fn ranked_in_part_13(r: int) -> WaitType {
    if r == 0 {
        WaitType::PREEMPTIVE_XE_CALLBACKEXECUTE
    } else if r == 1 {
        WaitType::PREEMPTIVE_XE_CX_FILE_OPEN
    } else if r == 2 {
        WaitType::PREEMPTIVE_XE_CX_HTTP_CALL
    } else if r == 3 {
        WaitType::PREEMPTIVE_XE_DISPATCHER
    } else if r == 4 {
        WaitType::PREEMPTIVE_XE_ENGINEINIT
    } else if r == 5 {
        WaitType::PREEMPTIVE_XE_GETTARGETSTATE
    } else if r == 6 {
        WaitType::PREEMPTIVE_XE_SESSIONCOMMIT
    } else if r == 7 {
        WaitType::PREEMPTIVE_XE_TARGETFINALIZE
    } else if r == 8 {
        WaitType::PREEMPTIVE_XE_TARGETINIT
    } else if r == 9 {
        WaitType::PREEMPTIVE_XE_TIMERRUN
    } else if r == 10 {
        WaitType::PRINT_ROLLBACK_PROGRESS
    } else if r == 11 {
        WaitType::PRU_ROLLBACK_DEFERRED
    } else if r == 12 {
        WaitType::PVS_CLEANUP_LOCK
    } else if r == 13 {
        WaitType::PWAIT_ALL_COMPONENTS_INITIALIZED
    } else if r == 14 {
        WaitType::PWAIT_COOP_SCAN
    } else if r == 15 {
        WaitType::PWAIT_DIRECTLOGCONSUMER_GETNEXT
    } else if r == 16 {
        WaitType::PWAIT_EVENT_SESSION_INIT_MUTEX
    } else if r == 17 {
        WaitType::PWAIT_FABRIC_REPLICA_CONTROLLER_DATA_LOSS
    } else if r == 18 {
        WaitType::PWAIT_HADRSIM
    } else if r == 19 {
        WaitType::PWAIT_HADR_ACTION_COMPLETED
    } else if r == 20 {
        WaitType::PWAIT_HADR_CHANGE_NOTIFIER_TERMINATION_SYNC
    } else if r == 21 {
        WaitType::PWAIT_HADR_CLUSTER_INTEGRATION
    } else if r == 22 {
        WaitType::PWAIT_HADR_FAILOVER_COMPLETED
    } else if r == 23 {
        WaitType::PWAIT_HADR_JOIN
    } else if r == 24 {
        WaitType::PWAIT_HADR_OFFLINE_COMPLETED
    } else if r == 25 {
        WaitType::PWAIT_HADR_ONLINE_COMPLETED
    } else if r == 26 {
        WaitType::PWAIT_HADR_POST_ONLINE_COMPLETED
    } else if r == 27 {
        WaitType::PWAIT_HADR_SERVER_READY_CONNECTIONS
    } else if r == 28 {
        WaitType::PWAIT_HADR_WORKITEM_COMPLETED
    } else if r == 29 {
        WaitType::PWAIT_LOG_CONSOLIDATION_IO
    } else if r == 30 {
        WaitType::PWAIT_LOG_CONSOLIDATION_POLL
    } else if r == 31 {
        WaitType::PWAIT_MD_LOGIN_STATS
    } else if r == 32 {
        WaitType::PWAIT_MD_RELATION_CACHE
    } else if r == 33 {
        WaitType::PWAIT_MD_SERVER_CACHE
    } else if r == 34 {
        WaitType::PWAIT_MD_UPGRADE_CONFIG
    } else if r == 35 {
        WaitType::PWAIT_PREEMPTIVE_APP_USAGE_TIMER
    } else if r == 36 {
        WaitType::PWAIT_PREEMPTIVE_AUDIT_ACCESS_WINDOWSLOG
    } else if r == 37 {
        WaitType::PWAIT_QRY_BPMEMORY
    } else if r == 38 {
        WaitType::PWAIT_REPLICA_ONLINE_INIT_MUTEX
    } else if r == 39 {
        WaitType::PWAIT_RESOURCE_SEMAPHORE_FT_PARALLEL_QUERY_SYNC
    } else if r == 40 {
        WaitType::PWAIT_SBS_FILE_OPERATION
    } else if r == 41 {
        WaitType::PWAIT_XTP_FSSTORAGE_MAINTENANCE
    } else if r == 42 {
        WaitType::PWAIT_XTP_HOST_STORAGE_WAIT
    } else if r == 43 {
        WaitType::QDS_ASYNC_CHECK_CONSISTENCY_TASK
    } else if r == 44 {
        WaitType::QDS_ASYNC_PERSIST_TASK
    } else if r == 45 {
        WaitType::QDS_ASYNC_PERSIST_TASK_START
    } else if r == 46 {
        WaitType::QDS_ASYNC_QUEUE
    } else if r == 47 {
        WaitType::QDS_BCKG_TASK
    } else if r == 48 {
        WaitType::QDS_BLOOM_FILTER
    } else if r == 49 {
        WaitType::QDS_CLEANUP_STALE_QUERIES_TASK_MAIN_LOOP_SLEEP
    } else {
        WaitType::PREEMPTIVE_XE_CALLBACKEXECUTE
    }
}

/// The name at each place of part 13.
#[verifier::opaque]
pub open spec fn name_in_part_13(r: int) -> Seq<char> {
    if r == 0 {
        "PREEMPTIVE_XE_CALLBACKEXECUTE"@
    } else if r == 1 {
        "PREEMPTIVE_XE_CX_FILE_OPEN"@
    } else if r == 2 {
        "PREEMPTIVE_XE_CX_HTTP_CALL"@
    } else if r == 3 {
        "PREEMPTIVE_XE_DISPATCHER"@
    } else if r == 4 {
        "PREEMPTIVE_XE_ENGINEINIT"@
    } else if r == 5 {
        "PREEMPTIVE_XE_GETTARGETSTATE"@
    } else if r == 6 {
        "PREEMPTIVE_XE_SESSIONCOMMIT"@
    } else if r == 7 {
        "PREEMPTIVE_XE_TARGETFINALIZE"@
    } else if r == 8 {
        "PREEMPTIVE_XE_TARGETINIT"@
    } else if r == 9 {
        "PREEMPTIVE_XE_TIMERRUN"@
    } else if r == 10 {
        "PRINT_ROLLBACK_PROGRESS"@
    } else if r == 11 {
        "PRU_ROLLBACK_DEFERRED"@
    } else if r == 12 {
        "PVS_CLEANUP_LOCK"@
    } else if r == 13 {
        "PWAIT_ALL_COMPONENTS_INITIALIZED"@
    } else if r == 14 {
        "PWAIT_COOP_SCAN"@
    } else if r == 15 {
        "PWAIT_DIRECTLOGCONSUMER_GETNEXT"@
    } else if r == 16 {
        "PWAIT_EVENT_SESSION_INIT_MUTEX"@
    } else if r == 17 {
        "PWAIT_FABRIC_REPLICA_CONTROLLER_DATA_LOSS"@
    } else if r == 18 {
        "PWAIT_HADRSIM"@
    } else if r == 19 {
        "PWAIT_HADR_ACTION_COMPLETED"@
    } else if r == 20 {
        "PWAIT_HADR_CHANGE_NOTIFIER_TERMINATION_SYNC"@
    } else if r == 21 {
        "PWAIT_HADR_CLUSTER_INTEGRATION"@
    } else if r == 22 {
        "PWAIT_HADR_FAILOVER_COMPLETED"@
    } else if r == 23 {
        "PWAIT_HADR_JOIN"@
    } else if r == 24 {
        "PWAIT_HADR_OFFLINE_COMPLETED"@
    } else if r == 25 {
        "PWAIT_HADR_ONLINE_COMPLETED"@
    } else if r == 26 {
        "PWAIT_HADR_POST_ONLINE_COMPLETED"@
    } else if r == 27 {
        "PWAIT_HADR_SERVER_READY_CONNECTIONS"@
    } else if r == 28 {
        "PWAIT_HADR_WORKITEM_COMPLETED"@
    } else if r == 29 {
        "PWAIT_LOG_CONSOLIDATION_IO"@
    } else if r == 30 {
        "PWAIT_LOG_CONSOLIDATION_POLL"@
    } else if r == 31 {
        "PWAIT_MD_LOGIN_STATS"@
    } else if r == 32 {
        "PWAIT_MD_RELATION_CACHE"@
    } else if r == 33 {
        "PWAIT_MD_SERVER_CACHE"@
    } else if r == 34 {
        "PWAIT_MD_UPGRADE_CONFIG"@
    } else if r == 35 {
        "PWAIT_PREEMPTIVE_APP_USAGE_TIMER"@
    } else if r == 36 {
        "PWAIT_PREEMPTIVE_AUDIT_ACCESS_WINDOWSLOG"@
    } else if r == 37 {
        "PWAIT_QRY_BPMEMORY"@
    } else if r == 38 {
        "PWAIT_REPLICA_ONLINE_INIT_MUTEX"@
    } else if r == 39 {
        "PWAIT_RESOURCE_SEMAPHORE_FT_PARALLEL_QUERY_SYNC"@
    } else if r == 40 {
        "PWAIT_SBS_FILE_OPERATION"@
    } else if r == 41 {
        "PWAIT_XTP_FSSTORAGE_MAINTENANCE"@
    } else if r == 42 {
        "PWAIT_XTP_HOST_STORAGE_WAIT"@
    } else if r == 43 {
        "QDS_ASYNC_CHECK_CONSISTENCY_TASK"@
    } else if r == 44 {
        "QDS_ASYNC_PERSIST_TASK"@
    } else if r == 45 {
        "QDS_ASYNC_PERSIST_TASK_START"@
    } else if r == 46 {
        "QDS_ASYNC_QUEUE"@
    } else if r == 47 {
        "QDS_BCKG_TASK"@
    } else if r == 48 {
        "QDS_BLOOM_FILTER"@
    } else if r == 49 {
        "QDS_CLEANUP_STALE_QUERIES_TASK_MAIN_LOOP_SLEEP"@
    } else {
        seq![]
    }
}

/// The place of each wait type of part 14 within that part.
#[verifier::opaque]
pub open spec fn rank_in_part_14(w: WaitType) -> int {
    match w {
        WaitType::QDS_CTXS => 0,
        WaitType::QDS_DB_DISK => 1,
        WaitType::QDS_DYN_VECTOR => 2,
        WaitType::QDS_EXCLUSIVE_ACCESS => 3,
        WaitType::QDS_HOST_INIT => 4,
        WaitType::QDS_LOADDB => 5,
        WaitType::QDS_PERSIST_TASK_MAIN_LOOP_SLEEP => 6,
        WaitType::QDS_QDS_CAPTURE_INIT => 7,
        WaitType::QDS_SHUTDOWN_QUEUE => 8,
        WaitType::QDS_STMT => 9,
        WaitType::QDS_STMT_DISK => 10,
        WaitType::QDS_TASK_SHUTDOWN => 11,
        WaitType::QDS_TASK_START => 12,
        WaitType::QE_WARN_LIST_SYNC => 13,
        WaitType::QPJOB_KILL => 14,
        WaitType::QPJOB_WAITFOR_ABORT => 15,
        WaitType::QRY_MEM_GRANT_INFO_MUTEX => 16,
        WaitType::QRY_PARALLEL_THREAD_MUTEX => 17,
        WaitType::QRY_PROFILE_LIST_MUTEX => 18,
        WaitType::QUERY_ERRHDL_SERVICE_DONE => 19,
        WaitType::QUERY_EXECUTION_INDEX_SORT_EVENT_OPEN => 20,
        WaitType::QUERY_NOTIFICATION_MGR_MUTEX => 21,
        WaitType::QUERY_NOTIFICATION_SUBSCRIPTION_MUTEX => 22,
        WaitType::QUERY_NOTIFICATION_TABLE_MGR_MUTEX => 23,
        WaitType::QUERY_NOTIFICATION_UNITTEST_MUTEX => 24,
        WaitType::QUERY_OPTIMIZER_PRINT_MUTEX => 25,
        WaitType::QUERY_TASK_ENQUEUE_MUTEX => 26,
        WaitType::QUERY_TRACEOUT => 27,
        WaitType::QUERY_WAIT_ERRHDL_SERVICE => 28,
        WaitType::RBIO_RG_DESTAGE => 29,
        WaitType::RBIO_RG_LOCALDESTAGE => 30,
        WaitType::RBIO_RG_REPLICA => 31,
        WaitType::RBIO_RG_STORAGE => 32,
        WaitType::RBIO_WAIT_VLF => 33,
        WaitType::RECOVERY_MGR_LOCK => 34,
        WaitType::RECOVER_CHANGEDB => 35,
        WaitType::REDO_THREAD_PENDING_WORK => 36,
        WaitType::REDO_THREAD_SYNC => 37,
        WaitType::REMOTE_BLOCK_IO => 38,
        WaitType::REMOTE_DATA_ARCHIVE_MIGRATION_DMV => 39,
        WaitType::REMOTE_DATA_ARCHIVE_SCHEMA_DMV => 40,
        WaitType::REMOTE_DATA_ARCHIVE_SCHEMA_TASK_QUEUE => 41,
        WaitType::REPLICA_WRITES => 42,
        WaitType::REPL_CACHE_ACCESS => 43,
        WaitType::REPL_HISTORYCACHE_ACCESS => 44,
        WaitType::REPL_SCHEMA_ACCESS => 45,
        WaitType::REPL_TRANFSINFO_ACCESS => 46,
        WaitType::REPL_TRANHASHTABLE_ACCESS => 47,
        WaitType::REPL_TRANTEXTINFO_ACCESS => 48,
        WaitType::REQUEST_DISPENSER_PAUSE => 49,
        _ => 0,
    }
}

/// The wait type at each place of part 14.
#[verifier::opaque]
pub open spec fn ranked_in_part_14(r: int) -> WaitType {
    if r == 0 {
        WaitType::QDS_CTXS
    } else if r == 1 {
        WaitType::QDS_DB_DISK
    } else if r == 2 {
        WaitType::QDS_DYN_VECTOR
    } else if r == 3 {
        WaitType::QDS_EXCLUSIVE_ACCESS
    } else if r == 4 {
        WaitType::QDS_HOST_INIT
    } else if r == 5 {
        WaitType::QDS_LOADDB
    } else if r == 6 {
        WaitType::QDS_PERSIST_TASK_MAIN_LOOP_SLEEP
    } else if r == 7 {
        WaitType::QDS_QDS_CAPTURE_INIT
    } else if r == 8 {
        WaitType::QDS_SHUTDOWN_QUEUE
    } else if r == 9 {
        WaitType::QDS_STMT
    } else if r == 10 {
        WaitType::QDS_STMT_DISK
    } else if r == 11 {
        WaitType::QDS_TASK_SHUTDOWN
    } else if r == 12 {
        WaitType::QDS_TASK_START
    } else if r == 13 {
        WaitType::QE_WARN_LIST_SYNC
    } else if r == 14 {
        WaitType::QPJOB_KILL
    } else if r == 15 {
        WaitType::QPJOB_WAITFOR_ABORT
    } else if r == 16 {
        WaitType::QRY_MEM_GRANT_INFO_MUTEX
    } else if r == 17 {
        WaitType::QRY_PARALLEL_THREAD_MUTEX
    } else if r == 18 {
        WaitType::QRY_PROFILE_LIST_MUTEX
    } else if r == 19 {
        WaitType::QUERY_ERRHDL_SERVICE_DONE
    } else if r == 20 {
        WaitType::QUERY_EXECUTION_INDEX_SORT_EVENT_OPEN
    } else if r == 21 {
        WaitType::QUERY_NOTIFICATION_MGR_MUTEX
    } else if r == 22 {
        WaitType::QUERY_NOTIFICATION_SUBSCRIPTION_MUTEX
    } else if r == 23 {
        WaitType::QUERY_NOTIFICATION_TABLE_MGR_MUTEX
    } else if r == 24 {
        WaitType::QUERY_NOTIFICATION_UNITTEST_MUTEX
    } else if r == 25 {
        WaitType::QUERY_OPTIMIZER_PRINT_MUTEX
    } else if r == 26 {
        WaitType::QUERY_TASK_ENQUEUE_MUTEX
    } else if r == 27 {
        WaitType::QUERY_TRACEOUT
    } else if r == 28 {
        WaitType::QUERY_WAIT_ERRHDL_SERVICE
    } else if r == 29 {
        WaitType::RBIO_RG_DESTAGE
    } else if r == 30 {
        WaitType::RBIO_RG_LOCALDESTAGE
    } else if r == 31 {
        WaitType::RBIO_RG_REPLICA
    } else if r == 32 {
        WaitType::RBIO_RG_STORAGE
    } else if r == 33 {
        WaitType::RBIO_WAIT_VLF
    } else if r == 34 {
        WaitType::RECOVERY_MGR_LOCK
    } else if r == 35 {
        WaitType::RECOVER_CHANGEDB
    } else if r == 36 {
        WaitType::REDO_THREAD_PENDING_WORK
    } else if r == 37 {
        WaitType::REDO_THREAD_SYNC
    } else if r == 38 {
        WaitType::REMOTE_BLOCK_IO
    } else if r == 39 {
        WaitType::REMOTE_DATA_ARCHIVE_MIGRATION_DMV
    } else if r == 40 {
        WaitType::REMOTE_DATA_ARCHIVE_SCHEMA_DMV
    } else if r == 41 {
        WaitType::REMOTE_DATA_ARCHIVE_SCHEMA_TASK_QUEUE
    } else if r == 42 {
        WaitType::REPLICA_WRITES
    } else if r == 43 {
        WaitType::REPL_CACHE_ACCESS
    } else if r == 44 {
        WaitType::REPL_HISTORYCACHE_ACCESS
    } else if r == 45 {
        WaitType::REPL_SCHEMA_ACCESS
    } else if r == 46 {
        WaitType::REPL_TRANFSINFO_ACCESS
    } else if r == 47 {
        WaitType::REPL_TRANHASHTABLE_ACCESS
    } else if r == 48 {
        WaitType::REPL_TRANTEXTINFO_ACCESS
    } else if r == 49 {
        WaitType::REQUEST_DISPENSER_PAUSE
    } else {
        WaitType::QDS_CTXS
    }
}

/// The name at each place of part 14.
#[verifier::opaque]
pub open spec fn name_in_part_14(r: int) -> Seq<char> {
    if r == 0 {
        "QDS_CTXS"@
    } else if r == 1 {
        "QDS_DB_DISK"@
    } else if r == 2 {
        "QDS_DYN_VECTOR"@
    } else if r == 3 {
        "QDS_EXCLUSIVE_ACCESS"@
    } else if r == 4 {
        "QDS_HOST_INIT"@
    } else if r == 5 {
        "QDS_LOADDB"@
    } else if r == 6 {
        "QDS_PERSIST_TASK_MAIN_LOOP_SLEEP"@
    } else if r == 7 {
        "QDS_QDS_CAPTURE_INIT"@
    } else if r == 8 {
        "QDS_SHUTDOWN_QUEUE"@
    } else if r == 9 {
        "QDS_STMT"@
    } else if r == 10 {
        "QDS_STMT_DISK"@
    } else if r == 11 {
        "QDS_TASK_SHUTDOWN"@
    } else if r == 12 {
        "QDS_TASK_START"@
    } else if r == 13 {
        "QE_WARN_LIST_SYNC"@
    } else if r == 14 {
        "QPJOB_KILL"@
    } else if r == 15 {
        "QPJOB_WAITFOR_ABORT"@
    } else if r == 16 {
        "QRY_MEM_GRANT_INFO_MUTEX"@
    } else if r == 17 {
        "QRY_PARALLEL_THREAD_MUTEX"@
    } else if r == 18 {
        "QRY_PROFILE_LIST_MUTEX"@
    } else if r == 19 {
        "QUERY_ERRHDL_SERVICE_DONE"@
    } else if r == 20 {
        "QUERY_EXECUTION_INDEX_SORT_EVENT_OPEN"@
    } else if r == 21 {
        "QUERY_NOTIFICATION_MGR_MUTEX"@
    } else if r == 22 {
        "QUERY_NOTIFICATION_SUBSCRIPTION_MUTEX"@
    } else if r == 23 {
        "QUERY_NOTIFICATION_TABLE_MGR_MUTEX"@
    } else if r == 24 {
        "QUERY_NOTIFICATION_UNITTEST_MUTEX"@
    } else if r == 25 {
        "QUERY_OPTIMIZER_PRINT_MUTEX"@
    } else if r == 26 {
        "QUERY_TASK_ENQUEUE_MUTEX"@
    } else if r == 27 {
        "QUERY_TRACEOUT"@
    } else if r == 28 {
        "QUERY_WAIT_ERRHDL_SERVICE"@
    } else if r == 29 {
        "RBIO_RG_DESTAGE"@
    } else if r == 30 {
        "RBIO_RG_LOCALDESTAGE"@
    } else if r == 31 {
        "RBIO_RG_REPLICA"@
    } else if r == 32 {
        "RBIO_RG_STORAGE"@
    } else if r == 33 {
        "RBIO_WAIT_VLF"@
    } else if r == 34 {
        "RECOVERY_MGR_LOCK"@
    } else if r == 35 {
        "RECOVER_CHANGEDB"@
    } else if r == 36 {
        "REDO_THREAD_PENDING_WORK"@
    } else if r == 37 {
        "REDO_THREAD_SYNC"@
    } else if r == 38 {
        "REMOTE_BLOCK_IO"@
    } else if r == 39 {
        "REMOTE_DATA_ARCHIVE_MIGRATION_DMV"@
    } else if r == 40 {
        "REMOTE_DATA_ARCHIVE_SCHEMA_DMV"@
    } else if r == 41 {
        "REMOTE_DATA_ARCHIVE_SCHEMA_TASK_QUEUE"@
    } else if r == 42 {
        "REPLICA_WRITES"@
    } else if r == 43 {
        "REPL_CACHE_ACCESS"@
    } else if r == 44 {
        "REPL_HISTORYCACHE_ACCESS"@
    } else if r == 45 {
        "REPL_SCHEMA_ACCESS"@
    } else if r == 46 {
        "REPL_TRANFSINFO_ACCESS"@
    } else if r == 47 {
        "REPL_TRANHASHTABLE_ACCESS"@
    } else if r == 48 {
        "REPL_TRANTEXTINFO_ACCESS"@
    } else if r == 49 {
        "REQUEST_DISPENSER_PAUSE"@
    } else {
        seq![]
    }
}

/// The place of each wait type of part 15 within that part.
#[verifier::opaque]
pub open spec fn rank_in_part_15(w: WaitType) -> int {
    match w {
        WaitType::REQUEST_FOR_DEADLOCK_SEARCH => 0,
        WaitType::RESERVED_MEMORY_ALLOCATION_EXT => 1,
        WaitType::RESMGR_THROTTLED => 2,
        WaitType::RESOURCE_GOVERNOR_IDLE => 3,
        WaitType::RESOURCE_QUEUE => 4,
        WaitType::RESOURCE_SEMAPHORE => 5,
        WaitType::RESOURCE_SEMAPHORE_MUTEX => 6,
        WaitType::RESOURCE_SEMAPHORE_QUERY_COMPILE => 7,
        WaitType::RESOURCE_SEMAPHORE_SMALL_QUERY => 8,
        WaitType::RESTORE_FILEHANDLECACHE_ENTRYLOCK => 9,
        WaitType::RESTORE_FILEHANDLECACHE_LOCK => 10,
        WaitType::RG_RECONFIG => 11,
        WaitType::ROWGROUP_OP_STATS => 12,
        WaitType::ROWGROUP_VERSION => 13,
        WaitType::RTDATA_LIST => 14,
        WaitType::SATELLITE_CARGO => 15,
        WaitType::SATELLITE_SERVICE_SETUP => 16,
        WaitType::SATELLITE_TASK => 17,
        WaitType::SBS_DISPATCH => 18,
        WaitType::SBS_RECEIVE_TRANSPORT => 19,
        WaitType::SBS_TRANSPORT => 20,
        WaitType::SCAN_CHAR_HASH_ARRAY_INITIALIZATION => 21,
        WaitType::SECURITY_CNG_PROVIDER_MUTEX => 22,
        WaitType::SECURITY_CRYPTO_CONTEXT_MUTEX => 23,
        WaitType::SECURITY_DBE_STATE_MUTEX => 24,
        WaitType::SECURITY_KEYRING_RWLOCK => 25,
        WaitType::SECURITY_MUTEX => 26,
        WaitType::SECURITY_RULETABLE_MUTEX => 27,
        WaitType::SEC_DROP_TEMP_KEY => 28,
        WaitType::SEMPLAT_DSI_BUILD => 29,
        WaitType::SEQUENCE_GENERATION => 30,
        WaitType::SEQUENTIAL_GUID => 31,
        WaitType::SERVER_IDLE_CHECK => 32,
        WaitType::SERVER_RECONFIGURE => 33,
        WaitType::SESSION_WAIT_STATS_CHILDREN => 34,
        WaitType::SHARED_DELTASTORE_CREATION => 35,
        WaitType::SHUTDOWN => 36,
        WaitType::SLEEP_BPOOL_FLUSH => 37,
        WaitType::SLEEP_BUFFERPOOL_HELPLW => 38,
        WaitType::SLEEP_DBSTARTUP => 39,
        WaitType::SLEEP_DCOMSTARTUP => 40,
        WaitType::SLEEP_MASTERDBREADY => 41,
        WaitType::SLEEP_MASTERMDREADY => 42,
        WaitType::SLEEP_MASTERUPGRADED => 43,
        WaitType::SLEEP_MEMORYPOOL_ALLOCATEPAGES => 44,
        WaitType::SLEEP_MSDBSTARTUP => 45,
        WaitType::SLEEP_RETRY_VIRTUALALLOC => 46,
        WaitType::SLEEP_SYSTEMTASK => 47,
        WaitType::SLEEP_TASK => 48,
        WaitType::SLEEP_TEMPDBSTARTUP => 49,
        _ => 0,
    }
}

/// The wait type at each place of part 15.
#[verifier::opaque]
pub open spec fn ranked_in_part_15(r: int) -> WaitType {
    if r == 0 {
        WaitType::REQUEST_FOR_DEADLOCK_SEARCH
    } else if r == 1 {
        WaitType::RESERVED_MEMORY_ALLOCATION_EXT
    } else if r == 2 {
        WaitType::RESMGR_THROTTLED
    } else if r == 3 {
        WaitType::RESOURCE_GOVERNOR_IDLE
    } else if r == 4 {
        WaitType::RESOURCE_QUEUE
    } else if r == 5 {
        WaitType::RESOURCE_SEMAPHORE
    } else if r == 6 {
        WaitType::RESOURCE_SEMAPHORE_MUTEX
    } else if r == 7 {
        WaitType::RESOURCE_SEMAPHORE_QUERY_COMPILE
    } else if r == 8 {
        WaitType::RESOURCE_SEMAPHORE_SMALL_QUERY
    } else if r == 9 {
        WaitType::RESTORE_FILEHANDLECACHE_ENTRYLOCK
    } else if r == 10 {
        WaitType::RESTORE_FILEHANDLECACHE_LOCK
    } else if r == 11 {
        WaitType::RG_RECONFIG
    } else if r == 12 {
        WaitType::ROWGROUP_OP_STATS
    } else if r == 13 {
        WaitType::ROWGROUP_VERSION
    } else if r == 14 {
        WaitType::RTDATA_LIST
    } else if r == 15 {
        WaitType::SATELLITE_CARGO
    } else if r == 16 {
        WaitType::SATELLITE_SERVICE_SETUP
    } else if r == 17 {
        WaitType::SATELLITE_TASK
    } else if r == 18 {
        WaitType::SBS_DISPATCH
    } else if r == 19 {
        WaitType::SBS_RECEIVE_TRANSPORT
    } else if r == 20 {
        WaitType::SBS_TRANSPORT
    } else if r == 21 {
        WaitType::SCAN_CHAR_HASH_ARRAY_INITIALIZATION
    } else if r == 22 {
        WaitType::SECURITY_CNG_PROVIDER_MUTEX
    } else if r == 23 {
        WaitType::SECURITY_CRYPTO_CONTEXT_MUTEX
    } else if r == 24 {
        WaitType::SECURITY_DBE_STATE_MUTEX
    } else if r == 25 {
        WaitType::SECURITY_KEYRING_RWLOCK
    } else if r == 26 {
        WaitType::SECURITY_MUTEX
    } else if r == 27 {
        WaitType::SECURITY_RULETABLE_MUTEX
    } else if r == 28 {
        WaitType::SEC_DROP_TEMP_KEY
    } else if r == 29 {
        WaitType::SEMPLAT_DSI_BUILD
    } else if r == 30 {
        WaitType::SEQUENCE_GENERATION
    } else if r == 31 {
        WaitType::SEQUENTIAL_GUID
    } else if r == 32 {
        WaitType::SERVER_IDLE_CHECK
    } else if r == 33 {
        WaitType::SERVER_RECONFIGURE
    } else if r == 34 {
        WaitType::SESSION_WAIT_STATS_CHILDREN
    } else if r == 35 {
        WaitType::SHARED_DELTASTORE_CREATION
    } else if r == 36 {
        WaitType::SHUTDOWN
    } else if r == 37 {
        WaitType::SLEEP_BPOOL_FLUSH
    } else if r == 38 {
        WaitType::SLEEP_BUFFERPOOL_HELPLW
    } else if r == 39 {
        WaitType::SLEEP_DBSTARTUP
    } else if r == 40 {
        WaitType::SLEEP_DCOMSTARTUP
    } else if r == 41 {
        WaitType::SLEEP_MASTERDBREADY
    } else if r == 42 {
        WaitType::SLEEP_MASTERMDREADY
    } else if r == 43 {
        WaitType::SLEEP_MASTERUPGRADED
    } else if r == 44 {
        WaitType::SLEEP_MEMORYPOOL_ALLOCATEPAGES
    } else if r == 45 {
        WaitType::SLEEP_MSDBSTARTUP
    } else if r == 46 {
        WaitType::SLEEP_RETRY_VIRTUALALLOC
    } else if r == 47 {
        WaitType::SLEEP_SYSTEMTASK
    } else if r == 48 {
        WaitType::SLEEP_TASK
    } else if r == 49 {
        WaitType::SLEEP_TEMPDBSTARTUP
    } else {
        WaitType::REQUEST_FOR_DEADLOCK_SEARCH
    }
}

/// The name at each place of part 15.
#[verifier::opaque]
pub open spec fn name_in_part_15(r: int) -> Seq<char> {
    if r == 0 {
        "REQUEST_FOR_DEADLOCK_SEARCH"@
    } else if r == 1 {
        "RESERVED_MEMORY_ALLOCATION_EXT"@
    } else if r == 2 {
        "RESMGR_THROTTLED"@
    } else if r == 3 {
        "RESOURCE_GOVERNOR_IDLE"@
    } else if r == 4 {
        "RESOURCE_QUEUE"@
    } else if r == 5 {
        "RESOURCE_SEMAPHORE"@
    } else if r == 6 {
        "RESOURCE_SEMAPHORE_MUTEX"@
    } else if r == 7 {
        "RESOURCE_SEMAPHORE_QUERY_COMPILE"@
    } else if r == 8 {
        "RESOURCE_SEMAPHORE_SMALL_QUERY"@
    } else if r == 9 {
        "RESTORE_FILEHANDLECACHE_ENTRYLOCK"@
    } else if r == 10 {
        "RESTORE_FILEHANDLECACHE_LOCK"@
    } else if r == 11 {
        "RG_RECONFIG"@
    } else if r == 12 {
        "ROWGROUP_OP_STATS"@
    } else if r == 13 {
        "ROWGROUP_VERSION"@
    } else if r == 14 {
        "RTDATA_LIST"@
    } else if r == 15 {
        "SATELLITE_CARGO"@
    } else if r == 16 {
        "SATELLITE_SERVICE_SETUP"@
    } else if r == 17 {
        "SATELLITE_TASK"@
    } else if r == 18 {
        "SBS_DISPATCH"@
    } else if r == 19 {
        "SBS_RECEIVE_TRANSPORT"@
    } else if r == 20 {
        "SBS_TRANSPORT"@
    } else if r == 21 {
        "SCAN_CHAR_HASH_ARRAY_INITIALIZATION"@
    } else if r == 22 {
        "SECURITY_CNG_PROVIDER_MUTEX"@
    } else if r == 23 {
        "SECURITY_CRYPTO_CONTEXT_MUTEX"@
    } else if r == 24 {
        "SECURITY_DBE_STATE_MUTEX"@
    } else if r == 25 {
        "SECURITY_KEYRING_RWLOCK"@
    } else if r == 26 {
        "SECURITY_MUTEX"@
    } else if r == 27 {
        "SECURITY_RULETABLE_MUTEX"@
    } else if r == 28 {
        "SEC_DROP_TEMP_KEY"@
    } else if r == 29 {
        "SEMPLAT_DSI_BUILD"@
    } else if r == 30 {
        "SEQUENCE_GENERATION"@
    } else if r == 31 {
        "SEQUENTIAL_GUID"@
    } else if r == 32 {
        "SERVER_IDLE_CHECK"@
    } else if r == 33 {
        "SERVER_RECONFIGURE"@
    } else if r == 34 {
        "SESSION_WAIT_STATS_CHILDREN"@
    } else if r == 35 {
        "SHARED_DELTASTORE_CREATION"@
    } else if r == 36 {
        "SHUTDOWN"@
    } else if r == 37 {
        "SLEEP_BPOOL_FLUSH"@
    } else if r == 38 {
        "SLEEP_BUFFERPOOL_HELPLW"@
    } else if r == 39 {
        "SLEEP_DBSTARTUP"@
    } else if r == 40 {
        "SLEEP_DCOMSTARTUP"@
    } else if r == 41 {
        "SLEEP_MASTERDBREADY"@
    } else if r == 42 {
        "SLEEP_MASTERMDREADY"@
    } else if r == 43 {
        "SLEEP_MASTERUPGRADED"@
    } else if r == 44 {
        "SLEEP_MEMORYPOOL_ALLOCATEPAGES"@
    } else if r == 45 {
        "SLEEP_MSDBSTARTUP"@
    } else if r == 46 {
        "SLEEP_RETRY_VIRTUALALLOC"@
    } else if r == 47 {
        "SLEEP_SYSTEMTASK"@
    } else if r == 48 {
        "SLEEP_TASK"@
    } else if r == 49 {
        "SLEEP_TEMPDBSTARTUP"@
    } else {
        seq![]
    }
}

/// The place of each wait type of part 16 within that part.
#[verifier::opaque]
pub open spec fn rank_in_part_16(w: WaitType) -> int {
    match w {
        WaitType::SLEEP_WORKSPACE_ALLOCATEPAGE => 0,
        WaitType::SLO_UPDATE => 1,
        WaitType::SMSYNC => 2,
        WaitType::SNI_CONN_DUP => 3,
        WaitType::SNI_CRITICAL_SECTION => 4,
        WaitType::SNI_HTTP_WAITFOR_0_DISCON => 5,
        WaitType::SNI_LISTENER_ACCESS => 6,
        WaitType::SNI_TASK_COMPLETION => 7,
        WaitType::SNI_WRITE_ASYNC => 8,
        WaitType::SOAP_READ => 9,
        WaitType::SOAP_WRITE => 10,
        WaitType::SOCKETDUPLICATEQUEUE_CLEANUP => 11,
        WaitType::SOSHOST_EVENT => 12,
        WaitType::SOSHOST_INTERNAL => 13,
        WaitType::SOSHOST_MUTEX => 14,
        WaitType::SOSHOST_RWLOCK => 15,
        WaitType::SOSHOST_SEMAPHORE => 16,
        WaitType::SOSHOST_SLEEP => 17,
        WaitType::SOSHOST_TRACELOCK => 18,
        WaitType::SOSHOST_WAITFORDONE => 19,
        WaitType::SOS_CALLBACK_REMOVAL => 20,
        WaitType::SOS_DISPATCHER_MUTEX => 21,
        WaitType::SOS_LOCALALLOCATORLIST => 22,
        WaitType::SOS_MEMORY_TOPLEVELBLOCKALLOCATOR => 23,
        WaitType::SOS_MEMORY_USAGE_ADJUSTMENT => 24,
        WaitType::SOS_OBJECT_STORE_DESTROY_MUTEX => 25,
        WaitType::SOS_PHYS_PAGE_CACHE => 26,
        WaitType::SOS_PROCESS_AFFINITY_MUTEX => 27,
        WaitType::SOS_RESERVEDMEMBLOCKLIST => 28,
        WaitType::SOS_SCHEDULER_YIELD => 29,
        WaitType::SOS_SMALL_PAGE_ALLOC => 30,
        WaitType::SOS_STACKSTORE_INIT_MUTEX => 31,
        WaitType::SOS_SYNC_TASK_ENQUEUE_EVENT => 32,
        WaitType::SOS_VIRTUALMEMORY_LOW => 33,
        WaitType::SOS_WORK_DISPATCHER => 34,
        WaitType::SPINLOCK_EXT => 35,
        WaitType::SP_PREEMPTIVE_SERVER_DIAGNOSTICS_SLEEP => 36,
        WaitType::SP_SERVER_DIAGNOSTICS_BUFFER_ACCESS => 37,
        WaitType::SP_SERVER_DIAGNOSTICS_INIT_MUTEX => 38,
        WaitType::SP_SERVER_DIAGNOSTICS_SLEEP => 39,
        WaitType::SQLCLR_APPDOMAIN => 40,
        WaitType::SQLCLR_ASSEMBLY => 41,
        WaitType::SQLCLR_DEADLOCK_DETECTION => 42,
        WaitType::SQLCLR_QUANTUM_PUNISHMENT => 43,
        WaitType::SQLSORT_NORMMUTEX => 44,
        WaitType::SQLSORT_SORTMUTEX => 45,
        WaitType::SQLTRACE_BUFFER_FLUSH => 46,
        WaitType::SQLTRACE_FILE_BUFFER => 47,
        WaitType::SQLTRACE_FILE_READ_IO_COMPLETION => 48,
        WaitType::SQLTRACE_FILE_WRITE_IO_COMPLETION => 49,
        _ => 0,
    }
}

/// The wait type at each place of part 16.
#[verifier::opaque]
pub open spec fn ranked_in_part_16(r: int) -> WaitType {
    if r == 0 {
        WaitType::SLEEP_WORKSPACE_ALLOCATEPAGE
    } else if r == 1 {
        WaitType::SLO_UPDATE
    } else if r == 2 {
        WaitType::SMSYNC
    } else if r == 3 {
        WaitType::SNI_CONN_DUP
    } else if r == 4 {
        WaitType::SNI_CRITICAL_SECTION
    } else if r == 5 {
        WaitType::SNI_HTTP_WAITFOR_0_DISCON
    } else if r == 6 {
        WaitType::SNI_LISTENER_ACCESS
    } else if r == 7 {
        WaitType::SNI_TASK_COMPLETION
    } else if r == 8 {
        WaitType::SNI_WRITE_ASYNC
    } else if r == 9 {
        WaitType::SOAP_READ
    } else if r == 10 {
        WaitType::SOAP_WRITE
    } else if r == 11 {
        WaitType::SOCKETDUPLICATEQUEUE_CLEANUP
    } else if r == 12 {
        WaitType::SOSHOST_EVENT
    } else if r == 13 {
        WaitType::SOSHOST_INTERNAL
    } else if r == 14 {
        WaitType::SOSHOST_MUTEX
    } else if r == 15 {
        WaitType::SOSHOST_RWLOCK
    } else if r == 16 {
        WaitType::SOSHOST_SEMAPHORE
    } else if r == 17 {
        WaitType::SOSHOST_SLEEP
    } else if r == 18 {
        WaitType::SOSHOST_TRACELOCK
    } else if r == 19 {
        WaitType::SOSHOST_WAITFORDONE
    } else if r == 20 {
        WaitType::SOS_CALLBACK_REMOVAL
    } else if r == 21 {
        WaitType::SOS_DISPATCHER_MUTEX
    } else if r == 22 {
        WaitType::SOS_LOCALALLOCATORLIST
    } else if r == 23 {
        WaitType::SOS_MEMORY_TOPLEVELBLOCKALLOCATOR
    } else if r == 24 {
        WaitType::SOS_MEMORY_USAGE_ADJUSTMENT
    } else if r == 25 {
        WaitType::SOS_OBJECT_STORE_DESTROY_MUTEX
    } else if r == 26 {
        WaitType::SOS_PHYS_PAGE_CACHE
    } else if r == 27 {
        WaitType::SOS_PROCESS_AFFINITY_MUTEX
    } else if r == 28 {
        WaitType::SOS_RESERVEDMEMBLOCKLIST
    } else if r == 29 {
        WaitType::SOS_SCHEDULER_YIELD
    } else if r == 30 {
        WaitType::SOS_SMALL_PAGE_ALLOC
    } else if r == 31 {
        WaitType::SOS_STACKSTORE_INIT_MUTEX
    } else if r == 32 {
        WaitType::SOS_SYNC_TASK_ENQUEUE_EVENT
    } else if r == 33 {
        WaitType::SOS_VIRTUALMEMORY_LOW
    } else if r == 34 {
        WaitType::SOS_WORK_DISPATCHER
    } else if r == 35 {
        WaitType::SPINLOCK_EXT
    } else if r == 36 {
        WaitType::SP_PREEMPTIVE_SERVER_DIAGNOSTICS_SLEEP
    } else if r == 37 {
        WaitType::SP_SERVER_DIAGNOSTICS_BUFFER_ACCESS
    } else if r == 38 {
        WaitType::SP_SERVER_DIAGNOSTICS_INIT_MUTEX
    } else if r == 39 {
        WaitType::SP_SERVER_DIAGNOSTICS_SLEEP
    } else if r == 40 {
        WaitType::SQLCLR_APPDOMAIN
    } else if r == 41 {
        WaitType::SQLCLR_ASSEMBLY
    } else if r == 42 {
        WaitType::SQLCLR_DEADLOCK_DETECTION
    } else if r == 43 {
        WaitType::SQLCLR_QUANTUM_PUNISHMENT
    } else if r == 44 {
        WaitType::SQLSORT_NORMMUTEX
    } else if r == 45 {
        WaitType::SQLSORT_SORTMUTEX
    } else if r == 46 {
        WaitType::SQLTRACE_BUFFER_FLUSH
    } else if r == 47 {
        WaitType::SQLTRACE_FILE_BUFFER
    } else if r == 48 {
        WaitType::SQLTRACE_FILE_READ_IO_COMPLETION
    } else if r == 49 {
        WaitType::SQLTRACE_FILE_WRITE_IO_COMPLETION
    } else {
        WaitType::SLEEP_WORKSPACE_ALLOCATEPAGE
    }
}

/// The name at each place of part 16.
#[verifier::opaque]
pub open spec fn name_in_part_16(r: int) -> Seq<char> {
    if r == 0 {
        "SLEEP_WORKSPACE_ALLOCATEPAGE"@
    } else if r == 1 {
        "SLO_UPDATE"@
    } else if r == 2 {
        "SMSYNC"@
    } else if r == 3 {
        "SNI_CONN_DUP"@
    } else if r == 4 {
        "SNI_CRITICAL_SECTION"@
    } else if r == 5 {
        "SNI_HTTP_WAITFOR_0_DISCON"@
    } else if r == 6 {
        "SNI_LISTENER_ACCESS"@
    } else if r == 7 {
        "SNI_TASK_COMPLETION"@
    } else if r == 8 {
        "SNI_WRITE_ASYNC"@
    } else if r == 9 {
        "SOAP_READ"@
    } else if r == 10 {
        "SOAP_WRITE"@
    } else if r == 11 {
        "SOCKETDUPLICATEQUEUE_CLEANUP"@
    } else if r == 12 {
        "SOSHOST_EVENT"@
    } else if r == 13 {
        "SOSHOST_INTERNAL"@
    } else if r == 14 {
        "SOSHOST_MUTEX"@
    } else if r == 15 {
        "SOSHOST_RWLOCK"@
    } else if r == 16 {
        "SOSHOST_SEMAPHORE"@
    } else if r == 17 {
        "SOSHOST_SLEEP"@
    } else if r == 18 {
        "SOSHOST_TRACELOCK"@
    } else if r == 19 {
        "SOSHOST_WAITFORDONE"@
    } else if r == 20 {
        "SOS_CALLBACK_REMOVAL"@
    } else if r == 21 {
        "SOS_DISPATCHER_MUTEX"@
    } else if r == 22 {
        "SOS_LOCALALLOCATORLIST"@
    } else if r == 23 {
        "SOS_MEMORY_TOPLEVELBLOCKALLOCATOR"@
    } else if r == 24 {
        "SOS_MEMORY_USAGE_ADJUSTMENT"@
    } else if r == 25 {
        "SOS_OBJECT_STORE_DESTROY_MUTEX"@
    } else if r == 26 {
        "SOS_PHYS_PAGE_CACHE"@
    } else if r == 27 {
        "SOS_PROCESS_AFFINITY_MUTEX"@
    } else if r == 28 {
        "SOS_RESERVEDMEMBLOCKLIST"@
    } else if r == 29 {
        "SOS_SCHEDULER_YIELD"@
    } else if r == 30 {
        "SOS_SMALL_PAGE_ALLOC"@
    } else if r == 31 {
        "SOS_STACKSTORE_INIT_MUTEX"@
    } else if r == 32 {
        "SOS_SYNC_TASK_ENQUEUE_EVENT"@
    } else if r == 33 {
        "SOS_VIRTUALMEMORY_LOW"@
    } else if r == 34 {
        "SOS_WORK_DISPATCHER"@
    } else if r == 35 {
        "SPINLOCK_EXT"@
    } else if r == 36 {
        "SP_PREEMPTIVE_SERVER_DIAGNOSTICS_SLEEP"@
    } else if r == 37 {
        "SP_SERVER_DIAGNOSTICS_BUFFER_ACCESS"@
    } else if r == 38 {
        "SP_SERVER_DIAGNOSTICS_INIT_MUTEX"@
    } else if r == 39 {
        "SP_SERVER_DIAGNOSTICS_SLEEP"@
    } else if r == 40 {
        "SQLCLR_APPDOMAIN"@
    } else if r == 41 {
        "SQLCLR_ASSEMBLY"@
    } else if r == 42 {
        "SQLCLR_DEADLOCK_DETECTION"@
    } else if r == 43 {
        "SQLCLR_QUANTUM_PUNISHMENT"@
    } else if r == 44 {
        "SQLSORT_NORMMUTEX"@
    } else if r == 45 {
        "SQLSORT_SORTMUTEX"@
    } else if r == 46 {
        "SQLTRACE_BUFFER_FLUSH"@
    } else if r == 47 {
        "SQLTRACE_FILE_BUFFER"@
    } else if r == 48 {
        "SQLTRACE_FILE_READ_IO_COMPLETION"@
    } else if r == 49 {
        "SQLTRACE_FILE_WRITE_IO_COMPLETION"@
    } else {
        seq![]
    }
}

/// The place of each wait type of part 17 within that part.
#[verifier::opaque]
pub open spec fn rank_in_part_17(w: WaitType) -> int {
    match w {
        WaitType::SQLTRACE_INCREMENTAL_FLUSH_SLEEP => 0,
        WaitType::SQLTRACE_LOCK => 1,
        WaitType::SQLTRACE_PENDING_BUFFER_WRITERS => 2,
        WaitType::SQLTRACE_SHUTDOWN => 3,
        WaitType::SQLTRACE_WAIT_ENTRIES => 4,
        WaitType::SRVPROC_SHUTDOWN => 5,
        WaitType::STARTUP_DEPENDENCY_MANAGER => 6,
        WaitType::TDS_BANDWIDTH_STATE => 7,
        WaitType::TDS_INIT => 8,
        WaitType::TDS_PROXY_CONTAINER => 9,
        WaitType::TEMPOBJ => 10,
        WaitType::TEMPORAL_BACKGROUND_PROCEED_CLEANUP => 11,
        WaitType::TERMINATE_LISTENER => 12,
        WaitType::THREADPOOL => 13,
        WaitType::TIMEPRIV_TIMEPERIOD => 14,
        WaitType::TRACEWRITE => 15,
        WaitType::TRACE_EVTNOTIF => 16,
        WaitType::TRANSACTION_MUTEX => 17,
        WaitType::TRAN_MARKLATCH_DT => 18,
        WaitType::TRAN_MARKLATCH_EX => 19,
        WaitType::TRAN_MARKLATCH_KP => 20,
        WaitType::TRAN_MARKLATCH_NL => 21,
        WaitType::TRAN_MARKLATCH_SH => 22,
        WaitType::TRAN_MARKLATCH_UP => 23,
        WaitType::UCS_ENDPOINT_CHANGE => 24,
        WaitType::UCS_MANAGER => 25,
        WaitType::UCS_MEMORY_NOTIFICATION => 26,
        WaitType::UCS_SESSION_REGISTRATION => 27,
        WaitType::UCS_TRANSPORT => 28,
        WaitType::UCS_TRANSPORT_STREAM_CHANGE => 29,
        WaitType::UTIL_PAGE_ALLOC => 30,
        WaitType::VDI_CLIENT_COMPLETECOMMAND => 31,
        WaitType::VDI_CLIENT_GETCOMMAND => 32,
        WaitType::VDI_CLIENT_OPERATION => 33,
        WaitType::VDI_CLIENT_OTHER => 34,
        WaitType::VERSIONING_COMMITTING => 35,
        WaitType::VIA_ACCEPT => 36,
        WaitType::VIEW_DEFINITION_MUTEX => 37,
        WaitType::WAITFOR => 38,
        WaitType::WAITFOR_PER_QUEUE => 39,
        WaitType::WAITFOR_TASKSHUTDOWN => 40,
        WaitType::WAITSTAT_MUTEX => 41,
        WaitType::WAIT_FOR_RESULTS => 42,
        WaitType::WAIT_ON_SYNC_STATISTICS_REFRESH => 43,
        WaitType::WAIT_SCRIPTDEPLOYMENT_REQUEST => 44,
        WaitType::WAIT_SCRIPTDEPLOYMENT_WORKER => 45,
        WaitType::WAIT_XLOGREAD_SIGNAL => 46,
        WaitType::WAIT_XTP_ASYNC_TX_COMPLETION => 47,
        WaitType::WAIT_XTP_CKPT_AGENT_WAKEUP => 48,
        WaitType::WAIT_XTP_CKPT_CLOSE => 49,
        _ => 0,
    }
}

/// The wait type at each place of part 17.
#[verifier::opaque]
pub open spec fn ranked_in_part_17(r: int) -> WaitType {
    if r == 0 {
        WaitType::SQLTRACE_INCREMENTAL_FLUSH_SLEEP
    } else if r == 1 {
        WaitType::SQLTRACE_LOCK
    } else if r == 2 {
        WaitType::SQLTRACE_PENDING_BUFFER_WRITERS
    } else if r == 3 {
        WaitType::SQLTRACE_SHUTDOWN
    } else if r == 4 {
        WaitType::SQLTRACE_WAIT_ENTRIES
    } else if r == 5 {
        WaitType::SRVPROC_SHUTDOWN
    } else if r == 6 {
        WaitType::STARTUP_DEPENDENCY_MANAGER
    } else if r == 7 {
        WaitType::TDS_BANDWIDTH_STATE
    } else if r == 8 {
        WaitType::TDS_INIT
    } else if r == 9 {
        WaitType::TDS_PROXY_CONTAINER
    } else if r == 10 {
        WaitType::TEMPOBJ
    } else if r == 11 {
        WaitType::TEMPORAL_BACKGROUND_PROCEED_CLEANUP
    } else if r == 12 {
        WaitType::TERMINATE_LISTENER
    } else if r == 13 {
        WaitType::THREADPOOL
    } else if r == 14 {
        WaitType::TIMEPRIV_TIMEPERIOD
    } else if r == 15 {
        WaitType::TRACEWRITE
    } else if r == 16 {
        WaitType::TRACE_EVTNOTIF
    } else if r == 17 {
        WaitType::TRANSACTION_MUTEX
    } else if r == 18 {
        WaitType::TRAN_MARKLATCH_DT
    } else if r == 19 {
        WaitType::TRAN_MARKLATCH_EX
    } else if r == 20 {
        WaitType::TRAN_MARKLATCH_KP
    } else if r == 21 {
        WaitType::TRAN_MARKLATCH_NL
    } else if r == 22 {
        WaitType::TRAN_MARKLATCH_SH
    } else if r == 23 {
        WaitType::TRAN_MARKLATCH_UP
    } else if r == 24 {
        WaitType::UCS_ENDPOINT_CHANGE
    } else if r == 25 {
        WaitType::UCS_MANAGER
    } else if r == 26 {
        WaitType::UCS_MEMORY_NOTIFICATION
    } else if r == 27 {
        WaitType::UCS_SESSION_REGISTRATION
    } else if r == 28 {
        WaitType::UCS_TRANSPORT
    } else if r == 29 {
        WaitType::UCS_TRANSPORT_STREAM_CHANGE
    } else if r == 30 {
        WaitType::UTIL_PAGE_ALLOC
    } else if r == 31 {
        WaitType::VDI_CLIENT_COMPLETECOMMAND
    } else if r == 32 {
        WaitType::VDI_CLIENT_GETCOMMAND
    } else if r == 33 {
        WaitType::VDI_CLIENT_OPERATION
    } else if r == 34 {
        WaitType::VDI_CLIENT_OTHER
    } else if r == 35 {
        WaitType::VERSIONING_COMMITTING
    } else if r == 36 {
        WaitType::VIA_ACCEPT
    } else if r == 37 {
        WaitType::VIEW_DEFINITION_MUTEX
    } else if r == 38 {
        WaitType::WAITFOR
    } else if r == 39 {
        WaitType::WAITFOR_PER_QUEUE
    } else if r == 40 {
        WaitType::WAITFOR_TASKSHUTDOWN
    } else if r == 41 {
        WaitType::WAITSTAT_MUTEX
    } else if r == 42 {
        WaitType::WAIT_FOR_RESULTS
    } else if r == 43 {
        WaitType::WAIT_ON_SYNC_STATISTICS_REFRESH
    } else if r == 44 {
        WaitType::WAIT_SCRIPTDEPLOYMENT_REQUEST
    } else if r == 45 {
        WaitType::WAIT_SCRIPTDEPLOYMENT_WORKER
    } else if r == 46 {
        WaitType::WAIT_XLOGREAD_SIGNAL
    } else if r == 47 {
        WaitType::WAIT_XTP_ASYNC_TX_COMPLETION
    } else if r == 48 {
        WaitType::WAIT_XTP_CKPT_AGENT_WAKEUP
    } else if r == 49 {
        WaitType::WAIT_XTP_CKPT_CLOSE
    } else {
        WaitType::SQLTRACE_INCREMENTAL_FLUSH_SLEEP
    }
}

/// The name at each place of part 17.
#[verifier::opaque]
pub open spec fn name_in_part_17(r: int) -> Seq<char> {
    if r == 0 {
        "SQLTRACE_INCREMENTAL_FLUSH_SLEEP"@
    } else if r == 1 {
        "SQLTRACE_LOCK"@
    } else if r == 2 {
        "SQLTRACE_PENDING_BUFFER_WRITERS"@
    } else if r == 3 {
        "SQLTRACE_SHUTDOWN"@
    } else if r == 4 {
        "SQLTRACE_WAIT_ENTRIES"@
    } else if r == 5 {
        "SRVPROC_SHUTDOWN"@
    } else if r == 6 {
        "STARTUP_DEPENDENCY_MANAGER"@
    } else if r == 7 {
        "TDS_BANDWIDTH_STATE"@
    } else if r == 8 {
        "TDS_INIT"@
    } else if r == 9 {
        "TDS_PROXY_CONTAINER"@
    } else if r == 10 {
        "TEMPOBJ"@
    } else if r == 11 {
        "TEMPORAL_BACKGROUND_PROCEED_CLEANUP"@
    } else if r == 12 {
        "TERMINATE_LISTENER"@
    } else if r == 13 {
        "THREADPOOL"@
    } else if r == 14 {
        "TIMEPRIV_TIMEPERIOD"@
    } else if r == 15 {
        "TRACEWRITE"@
    } else if r == 16 {
        "TRACE_EVTNOTIF"@
    } else if r == 17 {
        "TRANSACTION_MUTEX"@
    } else if r == 18 {
        "TRAN_MARKLATCH_DT"@
    } else if r == 19 {
        "TRAN_MARKLATCH_EX"@
    } else if r == 20 {
        "TRAN_MARKLATCH_KP"@
    } else if r == 21 {
        "TRAN_MARKLATCH_NL"@
    } else if r == 22 {
        "TRAN_MARKLATCH_SH"@
    } else if r == 23 {
        "TRAN_MARKLATCH_UP"@
    } else if r == 24 {
        "UCS_ENDPOINT_CHANGE"@
    } else if r == 25 {
        "UCS_MANAGER"@
    } else if r == 26 {
        "UCS_MEMORY_NOTIFICATION"@
    } else if r == 27 {
        "UCS_SESSION_REGISTRATION"@
    } else if r == 28 {
        "UCS_TRANSPORT"@
    } else if r == 29 {
        "UCS_TRANSPORT_STREAM_CHANGE"@
    } else if r == 30 {
        "UTIL_PAGE_ALLOC"@
    } else if r == 31 {
        "VDI_CLIENT_COMPLETECOMMAND"@
    } else if r == 32 {
        "VDI_CLIENT_GETCOMMAND"@
    } else if r == 33 {
        "VDI_CLIENT_OPERATION"@
    } else if r == 34 {
        "VDI_CLIENT_OTHER"@
    } else if r == 35 {
        "VERSIONING_COMMITTING"@
    } else if r == 36 {
        "VIA_ACCEPT"@
    } else if r == 37 {
        "VIEW_DEFINITION_MUTEX"@
    } else if r == 38 {
        "WAITFOR"@
    } else if r == 39 {
        "WAITFOR_PER_QUEUE"@
    } else if r == 40 {
        "WAITFOR_TASKSHUTDOWN"@
    } else if r == 41 {
        "WAITSTAT_MUTEX"@
    } else if r == 42 {
        "WAIT_FOR_RESULTS"@
    } else if r == 43 {
        "WAIT_ON_SYNC_STATISTICS_REFRESH"@
    } else if r == 44 {
        "WAIT_SCRIPTDEPLOYMENT_REQUEST"@
    } else if r == 45 {
        "WAIT_SCRIPTDEPLOYMENT_WORKER"@
    } else if r == 46 {
        "WAIT_XLOGREAD_SIGNAL"@
    } else if r == 47 {
        "WAIT_XTP_ASYNC_TX_COMPLETION"@
    } else if r == 48 {
        "WAIT_XTP_CKPT_AGENT_WAKEUP"@
    } else if r == 49 {
        "WAIT_XTP_CKPT_CLOSE"@
    } else {
        seq![]
    }
}

/// The place of each wait type of part 18 within that part.
#[verifier::opaque]
pub open spec fn rank_in_part_18(w: WaitType) -> int {
    match w {
        WaitType::WAIT_XTP_CKPT_ENABLED => 0,
        WaitType::WAIT_XTP_CKPT_STATE_LOCK => 1,
        WaitType::WAIT_XTP_COMPILE_WAIT => 2,
        WaitType::WAIT_XTP_GUEST => 3,
        WaitType::WAIT_XTP_HOST_WAIT => 4,
        WaitType::WAIT_XTP_OFFLINE_CKPT_BEFORE_REDO => 5,
        WaitType::WAIT_XTP_OFFLINE_CKPT_LOG_IO => 6,
        WaitType::WAIT_XTP_OFFLINE_CKPT_NEW_LOG => 7,
        WaitType::WAIT_XTP_PROCEDURE_ENTRY => 8,
        WaitType::WAIT_XTP_RECOVERY => 9,
        WaitType::WAIT_XTP_SERIAL_RECOVERY => 10,
        WaitType::WAIT_XTP_SWITCH_TO_INACTIVE => 11,
        WaitType::WAIT_XTP_TASK_SHUTDOWN => 12,
        WaitType::WAIT_XTP_TRAN_DEPENDENCY => 13,
        WaitType::WCC => 14,
        WaitType::WINDOW_AGGREGATES_MULTIPASS => 15,
        WaitType::WINFAB_API_CALL => 16,
        WaitType::WINFAB_REPLICA_BUILD_OPERATION => 17,
        WaitType::WINFAB_REPORT_FAULT => 18,
        WaitType::WORKTBL_DROP => 19,
        WaitType::WRITELOG => 20,
        WaitType::WRITE_COMPLETION => 21,
        WaitType::XACTLOCKINFO => 22,
        WaitType::XACTWORKSPACE_MUTEX => 23,
        WaitType::XACT_OWN_TRANSACTION => 24,
        WaitType::XACT_RECLAIM_SESSION => 25,
        WaitType::XDB_CONN_DUP_HASH => 26,
        WaitType::XDESTSVERMGR => 27,
        WaitType::XDES_HISTORY => 28,
        WaitType::XDES_OUT_OF_ORDER_LIST => 29,
        WaitType::XDES_SNAPSHOT => 30,
        WaitType::XE_BUFFERMGR_ALLPROCESSED_EVENT => 31,
        WaitType::XE_BUFFERMGR_FREEBUF_EVENT => 32,
        WaitType::XE_CALLBACK_LIST => 33,
        WaitType::XE_CX_FILE_READ => 34,
        WaitType::XE_DISPATCHER_CONFIG_SESSION_LIST => 35,
        WaitType::XE_DISPATCHER_JOIN => 36,
        WaitType::XE_DISPATCHER_WAIT => 37,
        WaitType::XE_FILE_TARGET_TVF => 38,
        WaitType::XE_LIVE_TARGET_TVF => 39,
        WaitType::XE_MODULEMGR_SYNC => 40,
        WaitType::XE_OLS_LOCK => 41,
        WaitType::XE_PACKAGE_LOCK_BACKOFF => 42,
        WaitType::XE_SERVICES_EVENTMANUAL => 43,
        WaitType::XE_SERVICES_MUTEX => 44,
        WaitType::XE_SERVICES_RWLOCK => 45,
        WaitType::XE_SESSION_CREATE_SYNC => 46,
        WaitType::XE_SESSION_FLUSH => 47,
        WaitType::XE_SESSION_SYNC => 48,
        WaitType::XE_STM_CREATE => 49,
        _ => 0,
    }
}

/// The wait type at each place of part 18.
#[verifier::opaque]
pub open spec fn ranked_in_part_18(r: int) -> WaitType {
    if r == 0 {
        WaitType::WAIT_XTP_CKPT_ENABLED
    } else if r == 1 {
        WaitType::WAIT_XTP_CKPT_STATE_LOCK
    } else if r == 2 {
        WaitType::WAIT_XTP_COMPILE_WAIT
    } else if r == 3 {
        WaitType::WAIT_XTP_GUEST
    } else if r == 4 {
        WaitType::WAIT_XTP_HOST_WAIT
    } else if r == 5 {
        WaitType::WAIT_XTP_OFFLINE_CKPT_BEFORE_REDO
    } else if r == 6 {
        WaitType::WAIT_XTP_OFFLINE_CKPT_LOG_IO
    } else if r == 7 {
        WaitType::WAIT_XTP_OFFLINE_CKPT_NEW_LOG
    } else if r == 8 {
        WaitType::WAIT_XTP_PROCEDURE_ENTRY
    } else if r == 9 {
        WaitType::WAIT_XTP_RECOVERY
    } else if r == 10 {
        WaitType::WAIT_XTP_SERIAL_RECOVERY
    } else if r == 11 {
        WaitType::WAIT_XTP_SWITCH_TO_INACTIVE
    } else if r == 12 {
        WaitType::WAIT_XTP_TASK_SHUTDOWN
    } else if r == 13 {
        WaitType::WAIT_XTP_TRAN_DEPENDENCY
    } else if r == 14 {
        WaitType::WCC
    } else if r == 15 {
        WaitType::WINDOW_AGGREGATES_MULTIPASS
    } else if r == 16 {
        WaitType::WINFAB_API_CALL
    } else if r == 17 {
        WaitType::WINFAB_REPLICA_BUILD_OPERATION
    } else if r == 18 {
        WaitType::WINFAB_REPORT_FAULT
    } else if r == 19 {
        WaitType::WORKTBL_DROP
    } else if r == 20 {
        WaitType::WRITELOG
    } else if r == 21 {
        WaitType::WRITE_COMPLETION
    } else if r == 22 {
        WaitType::XACTLOCKINFO
    } else if r == 23 {
        WaitType::XACTWORKSPACE_MUTEX
    } else if r == 24 {
        WaitType::XACT_OWN_TRANSACTION
    } else if r == 25 {
        WaitType::XACT_RECLAIM_SESSION
    } else if r == 26 {
        WaitType::XDB_CONN_DUP_HASH
    } else if r == 27 {
        WaitType::XDESTSVERMGR
    } else if r == 28 {
        WaitType::XDES_HISTORY
    } else if r == 29 {
        WaitType::XDES_OUT_OF_ORDER_LIST
    } else if r == 30 {
        WaitType::XDES_SNAPSHOT
    } else if r == 31 {
        WaitType::XE_BUFFERMGR_ALLPROCESSED_EVENT
    } else if r == 32 {
        WaitType::XE_BUFFERMGR_FREEBUF_EVENT
    } else if r == 33 {
        WaitType::XE_CALLBACK_LIST
    } else if r == 34 {
        WaitType::XE_CX_FILE_READ
    } else if r == 35 {
        WaitType::XE_DISPATCHER_CONFIG_SESSION_LIST
    } else if r == 36 {
        WaitType::XE_DISPATCHER_JOIN
    } else if r == 37 {
        WaitType::XE_DISPATCHER_WAIT
    } else if r == 38 {
        WaitType::XE_FILE_TARGET_TVF
    } else if r == 39 {
        WaitType::XE_LIVE_TARGET_TVF
    } else if r == 40 {
        WaitType::XE_MODULEMGR_SYNC
    } else if r == 41 {
        WaitType::XE_OLS_LOCK
    } else if r == 42 {
        WaitType::XE_PACKAGE_LOCK_BACKOFF
    } else if r == 43 {
        WaitType::XE_SERVICES_EVENTMANUAL
    } else if r == 44 {
        WaitType::XE_SERVICES_MUTEX
    } else if r == 45 {
        WaitType::XE_SERVICES_RWLOCK
    } else if r == 46 {
        WaitType::XE_SESSION_CREATE_SYNC
    } else if r == 47 {
        WaitType::XE_SESSION_FLUSH
    } else if r == 48 {
        WaitType::XE_SESSION_SYNC
    } else if r == 49 {
        WaitType::XE_STM_CREATE
    } else {
        WaitType::WAIT_XTP_CKPT_ENABLED
    }
}

/// The name at each place of part 18.
#[verifier::opaque]
pub open spec fn name_in_part_18(r: int) -> Seq<char> {
    if r == 0 {
        "WAIT_XTP_CKPT_ENABLED"@
    } else if r == 1 {
        "WAIT_XTP_CKPT_STATE_LOCK"@
    } else if r == 2 {
        "WAIT_XTP_COMPILE_WAIT"@
    } else if r == 3 {
        "WAIT_XTP_GUEST"@
    } else if r == 4 {
        "WAIT_XTP_HOST_WAIT"@
    } else if r == 5 {
        "WAIT_XTP_OFFLINE_CKPT_BEFORE_REDO"@
    } else if r == 6 {
        "WAIT_XTP_OFFLINE_CKPT_LOG_IO"@
    } else if r == 7 {
        "WAIT_XTP_OFFLINE_CKPT_NEW_LOG"@
    } else if r == 8 {
        "WAIT_XTP_PROCEDURE_ENTRY"@
    } else if r == 9 {
        "WAIT_XTP_RECOVERY"@
    } else if r == 10 {
        "WAIT_XTP_SERIAL_RECOVERY"@
    } else if r == 11 {
        "WAIT_XTP_SWITCH_TO_INACTIVE"@
    } else if r == 12 {
        "WAIT_XTP_TASK_SHUTDOWN"@
    } else if r == 13 {
        "WAIT_XTP_TRAN_DEPENDENCY"@
    } else if r == 14 {
        "WCC"@
    } else if r == 15 {
        "WINDOW_AGGREGATES_MULTIPASS"@
    } else if r == 16 {
        "WINFAB_API_CALL"@
    } else if r == 17 {
        "WINFAB_REPLICA_BUILD_OPERATION"@
    } else if r == 18 {
        "WINFAB_REPORT_FAULT"@
    } else if r == 19 {
        "WORKTBL_DROP"@
    } else if r == 20 {
        "WRITELOG"@
    } else if r == 21 {
        "WRITE_COMPLETION"@
    } else if r == 22 {
        "XACTLOCKINFO"@
    } else if r == 23 {
        "XACTWORKSPACE_MUTEX"@
    } else if r == 24 {
        "XACT_OWN_TRANSACTION"@
    } else if r == 25 {
        "XACT_RECLAIM_SESSION"@
    } else if r == 26 {
        "XDB_CONN_DUP_HASH"@
    } else if r == 27 {
        "XDESTSVERMGR"@
    } else if r == 28 {
        "XDES_HISTORY"@
    } else if r == 29 {
        "XDES_OUT_OF_ORDER_LIST"@
    } else if r == 30 {
        "XDES_SNAPSHOT"@
    } else if r == 31 {
        "XE_BUFFERMGR_ALLPROCESSED_EVENT"@
    } else if r == 32 {
        "XE_BUFFERMGR_FREEBUF_EVENT"@
    } else if r == 33 {
        "XE_CALLBACK_LIST"@
    } else if r == 34 {
        "XE_CX_FILE_READ"@
    } else if r == 35 {
        "XE_DISPATCHER_CONFIG_SESSION_LIST"@
    } else if r == 36 {
        "XE_DISPATCHER_JOIN"@
    } else if r == 37 {
        "XE_DISPATCHER_WAIT"@
    } else if r == 38 {
        "XE_FILE_TARGET_TVF"@
    } else if r == 39 {
        "XE_LIVE_TARGET_TVF"@
    } else if r == 40 {
        "XE_MODULEMGR_SYNC"@
    } else if r == 41 {
        "XE_OLS_LOCK"@
    } else if r == 42 {
        "XE_PACKAGE_LOCK_BACKOFF"@
    } else if r == 43 {
        "XE_SERVICES_EVENTMANUAL"@
    } else if r == 44 {
        "XE_SERVICES_MUTEX"@
    } else if r == 45 {
        "XE_SERVICES_RWLOCK"@
    } else if r == 46 {
        "XE_SESSION_CREATE_SYNC"@
    } else if r == 47 {
        "XE_SESSION_FLUSH"@
    } else if r == 48 {
        "XE_SESSION_SYNC"@
    } else if r == 49 {
        "XE_STM_CREATE"@
    } else {
        seq![]
    }
}

/// The place of each wait type of part 19 within that part.
#[verifier::opaque]
pub open spec fn rank_in_part_19(w: WaitType) -> int {
    match w {
        WaitType::XE_TIMER_EVENT => 0,
        WaitType::XE_TIMER_MUTEX => 1,
        WaitType::XE_TIMER_TASK_DONE => 2,
        WaitType::XIO_CREDENTIAL_MGR_RWLOCK => 3,
        WaitType::XIO_CREDENTIAL_RWLOCK => 4,
        WaitType::XIO_EDS_MGR_RWLOCK => 5,
        WaitType::XIO_EDS_RWLOCK => 6,
        WaitType::XIO_IOSTATS_BLOBLIST_RWLOCK => 7,
        WaitType::XIO_IOSTATS_FCBLIST_RWLOCK => 8,
        WaitType::XIO_LEASE_RENEW_MGR_RWLOCK => 9,
        WaitType::XTPPROC_CACHE_ACCESS => 10,
        WaitType::XTPPROC_PARTITIONED_STACK_CREATE => 11,
        WaitType::XTP_HOST_DB_COLLECTION => 12,
        WaitType::XTP_HOST_LOG_ACTIVITY => 13,
        WaitType::XTP_HOST_PARALLEL_RECOVERY => 14,
        WaitType::XTP_PREEMPTIVE_TASK => 15,
        WaitType::XTP_TRUNCATION_LSN => 16,
        _ => 0,
    }
}

/// The wait type at each place of part 19.
#[verifier::opaque]
pub open spec fn ranked_in_part_19(r: int) -> WaitType {
    if r == 0 {
        WaitType::XE_TIMER_EVENT
    } else if r == 1 {
        WaitType::XE_TIMER_MUTEX
    } else if r == 2 {
        WaitType::XE_TIMER_TASK_DONE
    } else if r == 3 {
        WaitType::XIO_CREDENTIAL_MGR_RWLOCK
    } else if r == 4 {
        WaitType::XIO_CREDENTIAL_RWLOCK
    } else if r == 5 {
        WaitType::XIO_EDS_MGR_RWLOCK
    } else if r == 6 {
        WaitType::XIO_EDS_RWLOCK
    } else if r == 7 {
        WaitType::XIO_IOSTATS_BLOBLIST_RWLOCK
    } else if r == 8 {
        WaitType::XIO_IOSTATS_FCBLIST_RWLOCK
    } else if r == 9 {
        WaitType::XIO_LEASE_RENEW_MGR_RWLOCK
    } else if r == 10 {
        WaitType::XTPPROC_CACHE_ACCESS
    } else if r == 11 {
        WaitType::XTPPROC_PARTITIONED_STACK_CREATE
    } else if r == 12 {
        WaitType::XTP_HOST_DB_COLLECTION
    } else if r == 13 {
        WaitType::XTP_HOST_LOG_ACTIVITY
    } else if r == 14 {
        WaitType::XTP_HOST_PARALLEL_RECOVERY
    } else if r == 15 {
        WaitType::XTP_PREEMPTIVE_TASK
    } else if r == 16 {
        WaitType::XTP_TRUNCATION_LSN
    } else {
        WaitType::XE_TIMER_EVENT
    }
}

/// The name at each place of part 19.
#[verifier::opaque]
pub open spec fn name_in_part_19(r: int) -> Seq<char> {
    if r == 0 {
        "XE_TIMER_EVENT"@
    } else if r == 1 {
        "XE_TIMER_MUTEX"@
    } else if r == 2 {
        "XE_TIMER_TASK_DONE"@
    } else if r == 3 {
        "XIO_CREDENTIAL_MGR_RWLOCK"@
    } else if r == 4 {
        "XIO_CREDENTIAL_RWLOCK"@
    } else if r == 5 {
        "XIO_EDS_MGR_RWLOCK"@
    } else if r == 6 {
        "XIO_EDS_RWLOCK"@
    } else if r == 7 {
        "XIO_IOSTATS_BLOBLIST_RWLOCK"@
    } else if r == 8 {
        "XIO_IOSTATS_FCBLIST_RWLOCK"@
    } else if r == 9 {
        "XIO_LEASE_RENEW_MGR_RWLOCK"@
    } else if r == 10 {
        "XTPPROC_CACHE_ACCESS"@
    } else if r == 11 {
        "XTPPROC_PARTITIONED_STACK_CREATE"@
    } else if r == 12 {
        "XTP_HOST_DB_COLLECTION"@
    } else if r == 13 {
        "XTP_HOST_LOG_ACTIVITY"@
    } else if r == 14 {
        "XTP_HOST_PARALLEL_RECOVERY"@
    } else if r == 15 {
        "XTP_PREEMPTIVE_TASK"@
    } else if r == 16 {
        "XTP_TRUNCATION_LSN"@
    } else {
        seq![]
    }
}

/// The place of a wait type in the list, which is sorted by name; -1 for an
/// unknown wait type.
pub open spec fn wait_type_rank(w: WaitType) -> int {
    if in_part_0(w) {
        0 + rank_in_part_0(w)
    } else if in_part_1(w) {
        50 + rank_in_part_1(w)
    } else if in_part_2(w) {
        100 + rank_in_part_2(w)
    } else if in_part_3(w) {
        150 + rank_in_part_3(w)
    } else if in_part_4(w) {
        200 + rank_in_part_4(w)
    } else if in_part_5(w) {
        250 + rank_in_part_5(w)
    } else if in_part_6(w) {
        300 + rank_in_part_6(w)
    } else if in_part_7(w) {
        350 + rank_in_part_7(w)
    } else if in_part_8(w) {
        400 + rank_in_part_8(w)
    } else if in_part_9(w) {
        450 + rank_in_part_9(w)
    } else if in_part_10(w) {
        500 + rank_in_part_10(w)
    } else if in_part_11(w) {
        550 + rank_in_part_11(w)
    } else if in_part_12(w) {
        600 + rank_in_part_12(w)
    } else if in_part_13(w) {
        650 + rank_in_part_13(w)
    } else if in_part_14(w) {
        700 + rank_in_part_14(w)
    } else if in_part_15(w) {
        750 + rank_in_part_15(w)
    } else if in_part_16(w) {
        800 + rank_in_part_16(w)
    } else if in_part_17(w) {
        850 + rank_in_part_17(w)
    } else if in_part_18(w) {
        900 + rank_in_part_18(w)
    } else if in_part_19(w) {
        950 + rank_in_part_19(w)
    } else {
        -1
    }
}

/// The wait type at place `r` of the list.
pub open spec fn wait_type_at(r: int) -> WaitType {
    if r < 50 {
        ranked_in_part_0(r - 0)
    } else if r < 100 {
        ranked_in_part_1(r - 50)
    } else if r < 150 {
        ranked_in_part_2(r - 100)
    } else if r < 200 {
        ranked_in_part_3(r - 150)
    } else if r < 250 {
        ranked_in_part_4(r - 200)
    } else if r < 300 {
        ranked_in_part_5(r - 250)
    } else if r < 350 {
        ranked_in_part_6(r - 300)
    } else if r < 400 {
        ranked_in_part_7(r - 350)
    } else if r < 450 {
        ranked_in_part_8(r - 400)
    } else if r < 500 {
        ranked_in_part_9(r - 450)
    } else if r < 550 {
        ranked_in_part_10(r - 500)
    } else if r < 600 {
        ranked_in_part_11(r - 550)
    } else if r < 650 {
        ranked_in_part_12(r - 600)
    } else if r < 700 {
        ranked_in_part_13(r - 650)
    } else if r < 750 {
        ranked_in_part_14(r - 700)
    } else if r < 800 {
        ranked_in_part_15(r - 750)
    } else if r < 850 {
        ranked_in_part_16(r - 800)
    } else if r < 900 {
        ranked_in_part_17(r - 850)
    } else if r < 950 {
        ranked_in_part_18(r - 900)
    } else {
        ranked_in_part_19(r - 950)
    }
}

/// The name at place `r` of the list.
pub open spec fn name_at(r: int) -> Seq<char> {
    if r < 50 {
        name_in_part_0(r - 0)
    } else if r < 100 {
        name_in_part_1(r - 50)
    } else if r < 150 {
        name_in_part_2(r - 100)
    } else if r < 200 {
        name_in_part_3(r - 150)
    } else if r < 250 {
        name_in_part_4(r - 200)
    } else if r < 300 {
        name_in_part_5(r - 250)
    } else if r < 350 {
        name_in_part_6(r - 300)
    } else if r < 400 {
        name_in_part_7(r - 350)
    } else if r < 450 {
        name_in_part_8(r - 400)
    } else if r < 500 {
        name_in_part_9(r - 450)
    } else if r < 550 {
        name_in_part_10(r - 500)
    } else if r < 600 {
        name_in_part_11(r - 550)
    } else if r < 650 {
        name_in_part_12(r - 600)
    } else if r < 700 {
        name_in_part_13(r - 650)
    } else if r < 750 {
        name_in_part_14(r - 700)
    } else if r < 800 {
        name_in_part_15(r - 750)
    } else if r < 850 {
        name_in_part_16(r - 800)
    } else if r < 900 {
        name_in_part_17(r - 850)
    } else if r < 950 {
        name_in_part_18(r - 900)
    } else {
        name_in_part_19(r - 950)
    }
}

/// A wait type of part 0 has its place in that part, and the list has its
/// name at that place.
#[verifier::rlimit(60)]
proof fn lemma_rank_in_part_0(w: WaitType)
    requires
        in_part_0(w),
    ensures
        0 <= wait_type_rank(w) < 50,
        wait_type_at(wait_type_rank(w)) == w,
        name_at(wait_type_rank(w)) == wait_type_name(w),
        is_listed_wait_type(wait_type_name(w)),
{
    reveal(rank_in_part_0);
    reveal(ranked_in_part_0);
    reveal(name_in_part_0);
    reveal(listed_name_0);
    lemma_name_in_part_0(w);
}

/// The names at places 0 to 49 of the list are each followed by a greater one.
proof fn lemma_sorted_in_part_0(r: int)
    requires
        0 <= r < 50,
    ensures
        name_lt(name_at(r), name_at(r + 1)),
{
    reveal(name_in_part_0);
    reveal(name_in_part_1);
    if r == 0 {
        assert(name_lt("ABR"@, "AM_INDBUILD_ALLOCATION"@)) by {
            reveal_strlit("ABR");
            reveal_strlit("AM_INDBUILD_ALLOCATION");
            reveal_with_fuel(name_lt_from, 3);
        }
    } else if r == 1 {
        assert(name_lt("AM_INDBUILD_ALLOCATION"@, "AM_SCHEMAMGR_UNSHARED_CACHE"@)) by {
            reveal_strlit("AM_INDBUILD_ALLOCATION");
            reveal_strlit("AM_SCHEMAMGR_UNSHARED_CACHE");
            reveal_with_fuel(name_lt_from, 5);
        }
    } else if r == 2 {
        assert(name_lt("AM_SCHEMAMGR_UNSHARED_CACHE"@, "ASSEMBLY_FILTER_HASHTABLE"@)) by {
            reveal_strlit("AM_SCHEMAMGR_UNSHARED_CACHE");
            reveal_strlit("ASSEMBLY_FILTER_HASHTABLE");
            reveal_with_fuel(name_lt_from, 3);
        }
    } else if r == 3 {
        assert(name_lt("ASSEMBLY_FILTER_HASHTABLE"@, "ASSEMBLY_LOAD"@)) by {
            reveal_strlit("ASSEMBLY_FILTER_HASHTABLE");
            reveal_strlit("ASSEMBLY_LOAD");
            reveal_with_fuel(name_lt_from, 11);
        }
    } else if r == 4 {
        assert(name_lt("ASSEMBLY_LOAD"@, "ASYNC_DISKPOOL_LOCK"@)) by {
            reveal_strlit("ASSEMBLY_LOAD");
            reveal_strlit("ASYNC_DISKPOOL_LOCK");
            reveal_with_fuel(name_lt_from, 4);
        }
    } else if r == 5 {
        assert(name_lt("ASYNC_DISKPOOL_LOCK"@, "ASYNC_IO_COMPLETION"@)) by {
            reveal_strlit("ASYNC_DISKPOOL_LOCK");
            reveal_strlit("ASYNC_IO_COMPLETION");
            reveal_with_fuel(name_lt_from, 8);
        }
    } else if r == 6 {
        assert(name_lt("ASYNC_IO_COMPLETION"@, "ASYNC_NETWORK_IO"@)) by {
            reveal_strlit("ASYNC_IO_COMPLETION");
            reveal_strlit("ASYNC_NETWORK_IO");
            reveal_with_fuel(name_lt_from, 8);
        }
    } else if r == 7 {
        assert(name_lt("ASYNC_NETWORK_IO"@, "ASYNC_OP_COMPLETION"@)) by {
            reveal_strlit("ASYNC_NETWORK_IO");
            reveal_strlit("ASYNC_OP_COMPLETION");
            reveal_with_fuel(name_lt_from, 8);
        }
    } else if r == 8 {
        assert(name_lt("ASYNC_OP_COMPLETION"@, "ASYNC_OP_CONTEXT_READ"@)) by {
            reveal_strlit("ASYNC_OP_COMPLETION");
            reveal_strlit("ASYNC_OP_CONTEXT_READ");
            reveal_with_fuel(name_lt_from, 13);
        }
    } else if r == 9 {
        assert(name_lt("ASYNC_OP_CONTEXT_READ"@, "ASYNC_OP_CONTEXT_WRITE"@)) by {
            reveal_strlit("ASYNC_OP_CONTEXT_READ");
            reveal_strlit("ASYNC_OP_CONTEXT_WRITE");
            reveal_with_fuel(name_lt_from, 19);
        }
    } else if r == 10 {
        assert(name_lt("ASYNC_OP_CONTEXT_WRITE"@, "ASYNC_SOCKETDUP_IO"@)) by {
            reveal_strlit("ASYNC_OP_CONTEXT_WRITE");
            reveal_strlit("ASYNC_SOCKETDUP_IO");
            reveal_with_fuel(name_lt_from, 8);
        }
    } else if r == 11 {
        assert(name_lt("ASYNC_SOCKETDUP_IO"@, "AUDIT_GROUPCACHE_LOCK"@)) by {
            reveal_strlit("ASYNC_SOCKETDUP_IO");
            reveal_strlit("AUDIT_GROUPCACHE_LOCK");
            reveal_with_fuel(name_lt_from, 3);
        }
    } else if r == 12 {
        assert(name_lt("AUDIT_GROUPCACHE_LOCK"@, "AUDIT_LOGINCACHE_LOCK"@)) by {
            reveal_strlit("AUDIT_GROUPCACHE_LOCK");
            reveal_strlit("AUDIT_LOGINCACHE_LOCK");
            reveal_with_fuel(name_lt_from, 8);
        }
    } else if r == 13 {
        assert(name_lt("AUDIT_LOGINCACHE_LOCK"@, "AUDIT_ON_DEMAND_TARGET_LOCK"@)) by {
            reveal_strlit("AUDIT_LOGINCACHE_LOCK");
            reveal_strlit("AUDIT_ON_DEMAND_TARGET_LOCK");
            reveal_with_fuel(name_lt_from, 8);
        }
    } else if r == 14 {
        assert(name_lt("AUDIT_ON_DEMAND_TARGET_LOCK"@, "AUDIT_XE_SESSION_MGR"@)) by {
            reveal_strlit("AUDIT_ON_DEMAND_TARGET_LOCK");
            reveal_strlit("AUDIT_XE_SESSION_MGR");
            reveal_with_fuel(name_lt_from, 8);
        }
    } else if r == 15 {
        assert(name_lt("AUDIT_XE_SESSION_MGR"@, "BACKUP"@)) by {
            reveal_strlit("AUDIT_XE_SESSION_MGR");
            reveal_strlit("BACKUP");
            reveal_with_fuel(name_lt_from, 2);
        }
    } else if r == 16 {
        assert(name_lt("BACKUP"@, "BACKUPBUFFER"@)) by {
            reveal_strlit("BACKUP");
            reveal_strlit("BACKUPBUFFER");
            reveal_with_fuel(name_lt_from, 8);
        }
    } else if r == 17 {
        assert(name_lt("BACKUPBUFFER"@, "BACKUPIO"@)) by {
            reveal_strlit("BACKUPBUFFER");
            reveal_strlit("BACKUPIO");
            reveal_with_fuel(name_lt_from, 8);
        }
    } else if r == 18 {
        assert(name_lt("BACKUPIO"@, "BACKUPTHREAD"@)) by {
            reveal_strlit("BACKUPIO");
            reveal_strlit("BACKUPTHREAD");
            reveal_with_fuel(name_lt_from, 8);
        }
    } else if r == 19 {
        assert(name_lt("BACKUPTHREAD"@, "BACKUP_OPERATOR"@)) by {
            reveal_strlit("BACKUPTHREAD");
            reveal_strlit("BACKUP_OPERATOR");
            reveal_with_fuel(name_lt_from, 8);
        }
    } else if r == 20 {
        assert(name_lt("BACKUP_OPERATOR"@, "BAD_PAGE_PROCESS"@)) by {
            reveal_strlit("BACKUP_OPERATOR");
            reveal_strlit("BAD_PAGE_PROCESS");
            reveal_with_fuel(name_lt_from, 4);
        }
    } else if r == 21 {
        assert(name_lt("BAD_PAGE_PROCESS"@, "BLOB_METADATA"@)) by {
            reveal_strlit("BAD_PAGE_PROCESS");
            reveal_strlit("BLOB_METADATA");
            reveal_with_fuel(name_lt_from, 3);
        }
    } else if r == 22 {
        assert(name_lt("BLOB_METADATA"@, "BMPALLOCATION"@)) by {
            reveal_strlit("BLOB_METADATA");
            reveal_strlit("BMPALLOCATION");
            reveal_with_fuel(name_lt_from, 3);
        }
    } else if r == 23 {
        assert(name_lt("BMPALLOCATION"@, "BMPBUILD"@)) by {
            reveal_strlit("BMPALLOCATION");
            reveal_strlit("BMPBUILD");
            reveal_with_fuel(name_lt_from, 5);
        }
    } else if r == 24 {
        assert(name_lt("BMPBUILD"@, "BMPREPARTITION"@)) by {
            reveal_strlit("BMPBUILD");
            reveal_strlit("BMPREPARTITION");
            reveal_with_fuel(name_lt_from, 5);
        }
    } else if r == 25 {
        assert(name_lt("BMPREPARTITION"@, "BMPREPLICATION"@)) by {
            reveal_strlit("BMPREPARTITION");
            reveal_strlit("BMPREPLICATION");
            reveal_with_fuel(name_lt_from, 8);
        }
    } else if r == 26 {
        assert(name_lt("BMPREPLICATION"@, "BPSORT"@)) by {
            reveal_strlit("BMPREPLICATION");
            reveal_strlit("BPSORT");
            reveal_with_fuel(name_lt_from, 3);
        }
    } else if r == 27 {
        assert(name_lt("BPSORT"@, "BROKER_CONNECTION_RECEIVE_TASK"@)) by {
            reveal_strlit("BPSORT");
            reveal_strlit("BROKER_CONNECTION_RECEIVE_TASK");
            reveal_with_fuel(name_lt_from, 3);
        }
    } else if r == 28 {
        assert(name_lt("BROKER_CONNECTION_RECEIVE_TASK"@, "BROKER_DISPATCHER"@)) by {
            reveal_strlit("BROKER_CONNECTION_RECEIVE_TASK");
            reveal_strlit("BROKER_DISPATCHER");
            reveal_with_fuel(name_lt_from, 9);
        }
    } else if r == 29 {
        assert(name_lt("BROKER_DISPATCHER"@, "BROKER_ENDPOINT_STATE_MUTEX"@)) by {
            reveal_strlit("BROKER_DISPATCHER");
            reveal_strlit("BROKER_ENDPOINT_STATE_MUTEX");
            reveal_with_fuel(name_lt_from, 9);
        }
    } else if r == 30 {
        assert(name_lt("BROKER_ENDPOINT_STATE_MUTEX"@, "BROKER_EVENTHANDLER"@)) by {
            reveal_strlit("BROKER_ENDPOINT_STATE_MUTEX");
            reveal_strlit("BROKER_EVENTHANDLER");
            reveal_with_fuel(name_lt_from, 10);
        }
    } else if r == 31 {
        assert(name_lt("BROKER_EVENTHANDLER"@, "BROKER_FORWARDER"@)) by {
            reveal_strlit("BROKER_EVENTHANDLER");
            reveal_strlit("BROKER_FORWARDER");
            reveal_with_fuel(name_lt_from, 9);
        }
    } else if r == 32 {
        assert(name_lt("BROKER_FORWARDER"@, "BROKER_INIT"@)) by {
            reveal_strlit("BROKER_FORWARDER");
            reveal_strlit("BROKER_INIT");
            reveal_with_fuel(name_lt_from, 9);
        }
    } else if r == 33 {
        assert(name_lt("BROKER_INIT"@, "BROKER_MASTERSTART"@)) by {
            reveal_strlit("BROKER_INIT");
            reveal_strlit("BROKER_MASTERSTART");
            reveal_with_fuel(name_lt_from, 9);
        }
    } else if r == 34 {
        assert(name_lt("BROKER_MASTERSTART"@, "BROKER_RECEIVE_WAITFOR"@)) by {
            reveal_strlit("BROKER_MASTERSTART");
            reveal_strlit("BROKER_RECEIVE_WAITFOR");
            reveal_with_fuel(name_lt_from, 9);
        }
    } else if r == 35 {
        assert(name_lt("BROKER_RECEIVE_WAITFOR"@, "BROKER_REGISTERALLENDPOINTS"@)) by {
            reveal_strlit("BROKER_RECEIVE_WAITFOR");
            reveal_strlit("BROKER_REGISTERALLENDPOINTS");
            reveal_with_fuel(name_lt_from, 11);
        }
    } else if r == 36 {
        assert(name_lt("BROKER_REGISTERALLENDPOINTS"@, "BROKER_SERVICE"@)) by {
            reveal_strlit("BROKER_REGISTERALLENDPOINTS");
            reveal_strlit("BROKER_SERVICE");
            reveal_with_fuel(name_lt_from, 9);
        }
    } else if r == 37 {
        assert(name_lt("BROKER_SERVICE"@, "BROKER_SHUTDOWN"@)) by {
            reveal_strlit("BROKER_SERVICE");
            reveal_strlit("BROKER_SHUTDOWN");
            reveal_with_fuel(name_lt_from, 10);
        }
    } else if r == 38 {
        assert(name_lt("BROKER_SHUTDOWN"@, "BROKER_START"@)) by {
            reveal_strlit("BROKER_SHUTDOWN");
            reveal_strlit("BROKER_START");
            reveal_with_fuel(name_lt_from, 10);
        }
    } else if r == 39 {
        assert(name_lt("BROKER_START"@, "BROKER_TASK_SHUTDOWN"@)) by {
            reveal_strlit("BROKER_START");
            reveal_strlit("BROKER_TASK_SHUTDOWN");
            reveal_with_fuel(name_lt_from, 9);
        }
    } else if r == 40 {
        assert(name_lt("BROKER_TASK_SHUTDOWN"@, "BROKER_TASK_STOP"@)) by {
            reveal_strlit("BROKER_TASK_SHUTDOWN");
            reveal_strlit("BROKER_TASK_STOP");
            reveal_with_fuel(name_lt_from, 15);
        }
    } else if r == 41 {
        assert(name_lt("BROKER_TASK_STOP"@, "BROKER_TASK_SUBMIT"@)) by {
            reveal_strlit("BROKER_TASK_STOP");
            reveal_strlit("BROKER_TASK_SUBMIT");
            reveal_with_fuel(name_lt_from, 15);
        }
    } else if r == 42 {
        assert(name_lt("BROKER_TASK_SUBMIT"@, "BROKER_TO_FLUSH"@)) by {
            reveal_strlit("BROKER_TASK_SUBMIT");
            reveal_strlit("BROKER_TO_FLUSH");
            reveal_with_fuel(name_lt_from, 10);
        }
    } else if r == 43 {
        assert(name_lt("BROKER_TO_FLUSH"@, "BROKER_TRANSMISSION_OBJECT"@)) by {
            reveal_strlit("BROKER_TO_FLUSH");
            reveal_strlit("BROKER_TRANSMISSION_OBJECT");
            reveal_with_fuel(name_lt_from, 10);
        }
    } else if r == 44 {
        assert(name_lt("BROKER_TRANSMISSION_OBJECT"@, "BROKER_TRANSMISSION_TABLE"@)) by {
            reveal_strlit("BROKER_TRANSMISSION_OBJECT");
            reveal_strlit("BROKER_TRANSMISSION_TABLE");
            reveal_with_fuel(name_lt_from, 22);
        }
    } else if r == 45 {
        assert(name_lt("BROKER_TRANSMISSION_TABLE"@, "BROKER_TRANSMISSION_WORK"@)) by {
            reveal_strlit("BROKER_TRANSMISSION_TABLE");
            reveal_strlit("BROKER_TRANSMISSION_WORK");
            reveal_with_fuel(name_lt_from, 22);
        }
    } else if r == 46 {
        assert(name_lt("BROKER_TRANSMISSION_WORK"@, "BROKER_TRANSMITTER"@)) by {
            reveal_strlit("BROKER_TRANSMISSION_WORK");
            reveal_strlit("BROKER_TRANSMITTER");
            reveal_with_fuel(name_lt_from, 16);
        }
    } else if r == 47 {
        assert(name_lt("BROKER_TRANSMITTER"@, "BUFFERPOOL_SCAN"@)) by {
            reveal_strlit("BROKER_TRANSMITTER");
            reveal_strlit("BUFFERPOOL_SCAN");
            reveal_with_fuel(name_lt_from, 3);
        }
    } else if r == 48 {
        assert(name_lt("BUFFERPOOL_SCAN"@, "BUILTIN_HASHKEY_MUTEX"@)) by {
            reveal_strlit("BUFFERPOOL_SCAN");
            reveal_strlit("BUILTIN_HASHKEY_MUTEX");
            reveal_with_fuel(name_lt_from, 4);
        }
    } else if r == 49 {
        assert(name_lt("BUILTIN_HASHKEY_MUTEX"@, "CHANGE_TRACKING_WAITFORCHANGES"@)) by {
            reveal_strlit("BUILTIN_HASHKEY_MUTEX");
            reveal_strlit("CHANGE_TRACKING_WAITFORCHANGES");
            reveal_with_fuel(name_lt_from, 2);
        }
    }
}

/// A wait type of part 1 has its place in that part, and the list has its
/// name at that place.
#[verifier::rlimit(60)]
proof fn lemma_rank_in_part_1(w: WaitType)
    requires
        in_part_1(w),
    ensures
        50 <= wait_type_rank(w) < 100,
        wait_type_at(wait_type_rank(w)) == w,
        name_at(wait_type_rank(w)) == wait_type_name(w),
        is_listed_wait_type(wait_type_name(w)),
{
    reveal(rank_in_part_1);
    reveal(ranked_in_part_1);
    reveal(name_in_part_1);
    reveal(listed_name_1);
    lemma_name_in_part_1(w);
}

/// The names at places 50 to 99 of the list are each followed by a greater one.
proof fn lemma_sorted_in_part_1(r: int)
    requires
        50 <= r < 100,
    ensures
        name_lt(name_at(r), name_at(r + 1)),
{
    reveal(name_in_part_1);
    reveal(name_in_part_2);
    if r == 50 {
        assert(name_lt("CHANGE_TRACKING_WAITFORCHANGES"@, "CHECKPOINT_QUEUE"@)) by {
            reveal_strlit("CHANGE_TRACKING_WAITFORCHANGES");
            reveal_strlit("CHECKPOINT_QUEUE");
            reveal_with_fuel(name_lt_from, 4);
        }
    } else if r == 51 {
        assert(name_lt("CHECKPOINT_QUEUE"@, "CHECK_PRINT_RECORD"@)) by {
            reveal_strlit("CHECKPOINT_QUEUE");
            reveal_strlit("CHECK_PRINT_RECORD");
            reveal_with_fuel(name_lt_from, 7);
        }
    } else if r == 52 {
        assert(name_lt("CHECK_PRINT_RECORD"@, "CHECK_SCANNER_MUTEX"@)) by {
            reveal_strlit("CHECK_PRINT_RECORD");
            reveal_strlit("CHECK_SCANNER_MUTEX");
            reveal_with_fuel(name_lt_from, 8);
        }
    } else if r == 53 {
        assert(name_lt("CHECK_SCANNER_MUTEX"@, "CHECK_TABLES_INITIALIZATION"@)) by {
            reveal_strlit("CHECK_SCANNER_MUTEX");
            reveal_strlit("CHECK_TABLES_INITIALIZATION");
            reveal_with_fuel(name_lt_from, 8);
        }
    } else if r == 54 {
        assert(name_lt("CHECK_TABLES_INITIALIZATION"@, "CHECK_TABLES_SINGLE_SCAN"@)) by {
            reveal_strlit("CHECK_TABLES_INITIALIZATION");
            reveal_strlit("CHECK_TABLES_SINGLE_SCAN");
            reveal_with_fuel(name_lt_from, 15);
        }
    } else if r == 55 {
        assert(name_lt("CHECK_TABLES_SINGLE_SCAN"@, "CHECK_TABLES_THREAD_BARRIER"@)) by {
            reveal_strlit("CHECK_TABLES_SINGLE_SCAN");
            reveal_strlit("CHECK_TABLES_THREAD_BARRIER");
            reveal_with_fuel(name_lt_from, 15);
        }
    } else if r == 56 {
        assert(name_lt("CHECK_TABLES_THREAD_BARRIER"@, "CHKPT"@)) by {
            reveal_strlit("CHECK_TABLES_THREAD_BARRIER");
            reveal_strlit("CHKPT");
            reveal_with_fuel(name_lt_from, 4);
        }
    } else if r == 57 {
        assert(name_lt("CHKPT"@, "CLEAR_DB"@)) by {
            reveal_strlit("CHKPT");
            reveal_strlit("CLEAR_DB");
            reveal_with_fuel(name_lt_from, 3);
        }
    } else if r == 58 {
        assert(name_lt("CLEAR_DB"@, "CLRHOST_STATE_ACCESS"@)) by {
            reveal_strlit("CLEAR_DB");
            reveal_strlit("CLRHOST_STATE_ACCESS");
            reveal_with_fuel(name_lt_from, 4);
        }
    } else if r == 59 {
        assert(name_lt("CLRHOST_STATE_ACCESS"@, "CLR_AUTO_EVENT"@)) by {
            reveal_strlit("CLRHOST_STATE_ACCESS");
            reveal_strlit("CLR_AUTO_EVENT");
            reveal_with_fuel(name_lt_from, 5);
        }
    } else if r == 60 {
        assert(name_lt("CLR_AUTO_EVENT"@, "CLR_CRST"@)) by {
            reveal_strlit("CLR_AUTO_EVENT");
            reveal_strlit("CLR_CRST");
            reveal_with_fuel(name_lt_from, 6);
        }
    } else if r == 61 {
        assert(name_lt("CLR_CRST"@, "CLR_JOIN"@)) by {
            reveal_strlit("CLR_CRST");
            reveal_strlit("CLR_JOIN");
            reveal_with_fuel(name_lt_from, 6);
        }
    } else if r == 62 {
        assert(name_lt("CLR_JOIN"@, "CLR_MANUAL_EVENT"@)) by {
            reveal_strlit("CLR_JOIN");
            reveal_strlit("CLR_MANUAL_EVENT");
            reveal_with_fuel(name_lt_from, 6);
        }
    } else if r == 63 {
        assert(name_lt("CLR_MANUAL_EVENT"@, "CLR_MEMORY_SPY"@)) by {
            reveal_strlit("CLR_MANUAL_EVENT");
            reveal_strlit("CLR_MEMORY_SPY");
            reveal_with_fuel(name_lt_from, 7);
        }
    } else if r == 64 {
        assert(name_lt("CLR_MEMORY_SPY"@, "CLR_MONITOR"@)) by {
            reveal_strlit("CLR_MEMORY_SPY");
            reveal_strlit("CLR_MONITOR");
            reveal_with_fuel(name_lt_from, 7);
        }
    } else if r == 65 {
        assert(name_lt("CLR_MONITOR"@, "CLR_RWLOCK_READER"@)) by {
            reveal_strlit("CLR_MONITOR");
            reveal_strlit("CLR_RWLOCK_READER");
            reveal_with_fuel(name_lt_from, 6);
        }
    } else if r == 66 {
        assert(name_lt("CLR_RWLOCK_READER"@, "CLR_RWLOCK_WRITER"@)) by {
            reveal_strlit("CLR_RWLOCK_READER");
            reveal_strlit("CLR_RWLOCK_WRITER");
            reveal_with_fuel(name_lt_from, 13);
        }
    } else if r == 67 {
        assert(name_lt("CLR_RWLOCK_WRITER"@, "CLR_SEMAPHORE"@)) by {
            reveal_strlit("CLR_RWLOCK_WRITER");
            reveal_strlit("CLR_SEMAPHORE");
            reveal_with_fuel(name_lt_from, 6);
        }
    } else if r == 68 {
        assert(name_lt("CLR_SEMAPHORE"@, "CLR_TASK_START"@)) by {
            reveal_strlit("CLR_SEMAPHORE");
            reveal_strlit("CLR_TASK_START");
            reveal_with_fuel(name_lt_from, 6);
        }
    } else if r == 69 {
        assert(name_lt("CLR_TASK_START"@, "CMEMPARTITIONED"@)) by {
            reveal_strlit("CLR_TASK_START");
            reveal_strlit("CMEMPARTITIONED");
            reveal_with_fuel(name_lt_from, 3);
        }
    } else if r == 70 {
        assert(name_lt("CMEMPARTITIONED"@, "CMEMTHREAD"@)) by {
            reveal_strlit("CMEMPARTITIONED");
            reveal_strlit("CMEMTHREAD");
            reveal_with_fuel(name_lt_from, 6);
        }
    } else if r == 71 {
        assert(name_lt("CMEMTHREAD"@, "COLUMNSTORE_BUILD_THROTTLE"@)) by {
            reveal_strlit("CMEMTHREAD");
            reveal_strlit("COLUMNSTORE_BUILD_THROTTLE");
            reveal_with_fuel(name_lt_from, 3);
        }
    } else if r == 72 {
        assert(name_lt("COLUMNSTORE_BUILD_THROTTLE"@, "COLUMNSTORE_COLUMNDATASET_SESSION_LIST"@)) by {
            reveal_strlit("COLUMNSTORE_BUILD_THROTTLE");
            reveal_strlit("COLUMNSTORE_COLUMNDATASET_SESSION_LIST");
            reveal_with_fuel(name_lt_from, 14);
        }
    } else if r == 73 {
        assert(name_lt("COLUMNSTORE_COLUMNDATASET_SESSION_LIST"@, "COMMIT_TABLE"@)) by {
            reveal_strlit("COLUMNSTORE_COLUMNDATASET_SESSION_LIST");
            reveal_strlit("COMMIT_TABLE");
            reveal_with_fuel(name_lt_from, 4);
        }
    } else if r == 74 {
        assert(name_lt("COMMIT_TABLE"@, "CONNECTION_ENDPOINT_LOCK"@)) by {
            reveal_strlit("COMMIT_TABLE");
            reveal_strlit("CONNECTION_ENDPOINT_LOCK");
            reveal_with_fuel(name_lt_from, 4);
        }
    } else if r == 75 {
        assert(name_lt("CONNECTION_ENDPOINT_LOCK"@, "COUNTRECOVERYMGR"@)) by {
            reveal_strlit("CONNECTION_ENDPOINT_LOCK");
            reveal_strlit("COUNTRECOVERYMGR");
            reveal_with_fuel(name_lt_from, 4);
        }
    } else if r == 76 {
        assert(name_lt("COUNTRECOVERYMGR"@, "CREATE_DATINISERVICE"@)) by {
            reveal_strlit("COUNTRECOVERYMGR");
            reveal_strlit("CREATE_DATINISERVICE");
            reveal_with_fuel(name_lt_from, 3);
        }
    } else if r == 77 {
        assert(name_lt("CREATE_DATINISERVICE"@, "CXCONSUMER"@)) by {
            reveal_strlit("CREATE_DATINISERVICE");
            reveal_strlit("CXCONSUMER");
            reveal_with_fuel(name_lt_from, 3);
        }
    } else if r == 78 {
        assert(name_lt("CXCONSUMER"@, "CXPACKET"@)) by {
            reveal_strlit("CXCONSUMER");
            reveal_strlit("CXPACKET");
            reveal_with_fuel(name_lt_from, 4);
        }
    } else if r == 79 {
        assert(name_lt("CXPACKET"@, "CXROWSET_SYNC"@)) by {
            reveal_strlit("CXPACKET");
            reveal_strlit("CXROWSET_SYNC");
            reveal_with_fuel(name_lt_from, 4);
        }
    } else if r == 80 {
        assert(name_lt("CXROWSET_SYNC"@, "CXSYNC_CONSUMER"@)) by {
            reveal_strlit("CXROWSET_SYNC");
            reveal_strlit("CXSYNC_CONSUMER");
            reveal_with_fuel(name_lt_from, 4);
        }
    } else if r == 81 {
        assert(name_lt("CXSYNC_CONSUMER"@, "CXSYNC_PORT"@)) by {
            reveal_strlit("CXSYNC_CONSUMER");
            reveal_strlit("CXSYNC_PORT");
            reveal_with_fuel(name_lt_from, 9);
        }
    } else if r == 82 {
        assert(name_lt("CXSYNC_PORT"@, "DAC_INIT"@)) by {
            reveal_strlit("CXSYNC_PORT");
            reveal_strlit("DAC_INIT");
            reveal_with_fuel(name_lt_from, 2);
        }
    } else if r == 83 {
        assert(name_lt("DAC_INIT"@, "DBCC_SCALE_OUT_EXPR_CACHE"@)) by {
            reveal_strlit("DAC_INIT");
            reveal_strlit("DBCC_SCALE_OUT_EXPR_CACHE");
            reveal_with_fuel(name_lt_from, 3);
        }
    } else if r == 84 {
        assert(name_lt("DBCC_SCALE_OUT_EXPR_CACHE"@, "DBMIRRORING_CMD"@)) by {
            reveal_strlit("DBCC_SCALE_OUT_EXPR_CACHE");
            reveal_strlit("DBMIRRORING_CMD");
            reveal_with_fuel(name_lt_from, 4);
        }
    } else if r == 85 {
        assert(name_lt("DBMIRRORING_CMD"@, "DBMIRROR_DBM_EVENT"@)) by {
            reveal_strlit("DBMIRRORING_CMD");
            reveal_strlit("DBMIRROR_DBM_EVENT");
            reveal_with_fuel(name_lt_from, 10);
        }
    } else if r == 86 {
        assert(name_lt("DBMIRROR_DBM_EVENT"@, "DBMIRROR_DBM_MUTEX"@)) by {
            reveal_strlit("DBMIRROR_DBM_EVENT");
            reveal_strlit("DBMIRROR_DBM_MUTEX");
            reveal_with_fuel(name_lt_from, 15);
        }
    } else if r == 87 {
        assert(name_lt("DBMIRROR_DBM_MUTEX"@, "DBMIRROR_EVENTS_QUEUE"@)) by {
            reveal_strlit("DBMIRROR_DBM_MUTEX");
            reveal_strlit("DBMIRROR_EVENTS_QUEUE");
            reveal_with_fuel(name_lt_from, 11);
        }
    } else if r == 88 {
        assert(name_lt("DBMIRROR_EVENTS_QUEUE"@, "DBMIRROR_SEND"@)) by {
            reveal_strlit("DBMIRROR_EVENTS_QUEUE");
            reveal_strlit("DBMIRROR_SEND");
            reveal_with_fuel(name_lt_from, 11);
        }
    } else if r == 89 {
        assert(name_lt("DBMIRROR_SEND"@, "DBMIRROR_WORKER_QUEUE"@)) by {
            reveal_strlit("DBMIRROR_SEND");
            reveal_strlit("DBMIRROR_WORKER_QUEUE");
            reveal_with_fuel(name_lt_from, 11);
        }
    } else if r == 90 {
        assert(name_lt("DBMIRROR_WORKER_QUEUE"@, "DBSEEDING_FLOWCONTROL"@)) by {
            reveal_strlit("DBMIRROR_WORKER_QUEUE");
            reveal_strlit("DBSEEDING_FLOWCONTROL");
            reveal_with_fuel(name_lt_from, 4);
        }
    } else if r == 91 {
        assert(name_lt("DBSEEDING_FLOWCONTROL"@, "DBSEEDING_OPERATION"@)) by {
            reveal_strlit("DBSEEDING_FLOWCONTROL");
            reveal_strlit("DBSEEDING_OPERATION");
            reveal_with_fuel(name_lt_from, 12);
        }
    } else if r == 92 {
        assert(name_lt("DBSEEDING_OPERATION"@, "DEADLOCK_ENUM_MUTEX"@)) by {
            reveal_strlit("DBSEEDING_OPERATION");
            reveal_strlit("DEADLOCK_ENUM_MUTEX");
            reveal_with_fuel(name_lt_from, 3);
        }
    } else if r == 93 {
        assert(name_lt("DEADLOCK_ENUM_MUTEX"@, "DEADLOCK_TASK_SEARCH"@)) by {
            reveal_strlit("DEADLOCK_ENUM_MUTEX");
            reveal_strlit("DEADLOCK_TASK_SEARCH");
            reveal_with_fuel(name_lt_from, 11);
        }
    } else if r == 94 {
        assert(name_lt("DEADLOCK_TASK_SEARCH"@, "DEBUG"@)) by {
            reveal_strlit("DEADLOCK_TASK_SEARCH");
            reveal_strlit("DEBUG");
            reveal_with_fuel(name_lt_from, 4);
        }
    } else if r == 95 {
        assert(name_lt("DEBUG"@, "DIRECTLOGCONSUMER_LIST"@)) by {
            reveal_strlit("DEBUG");
            reveal_strlit("DIRECTLOGCONSUMER_LIST");
            reveal_with_fuel(name_lt_from, 3);
        }
    } else if r == 96 {
        assert(name_lt("DIRECTLOGCONSUMER_LIST"@, "DIRTY_PAGE_POLL"@)) by {
            reveal_strlit("DIRECTLOGCONSUMER_LIST");
            reveal_strlit("DIRTY_PAGE_POLL");
            reveal_with_fuel(name_lt_from, 5);
        }
    } else if r == 97 {
        assert(name_lt("DIRTY_PAGE_POLL"@, "DIRTY_PAGE_SYNC"@)) by {
            reveal_strlit("DIRTY_PAGE_POLL");
            reveal_strlit("DIRTY_PAGE_SYNC");
            reveal_with_fuel(name_lt_from, 13);
        }
    } else if r == 98 {
        assert(name_lt("DIRTY_PAGE_SYNC"@, "DIRTY_PAGE_TABLE_LOCK"@)) by {
            reveal_strlit("DIRTY_PAGE_SYNC");
            reveal_strlit("DIRTY_PAGE_TABLE_LOCK");
            reveal_with_fuel(name_lt_from, 13);
        }
    } else if r == 99 {
        assert(name_lt("DIRTY_PAGE_TABLE_LOCK"@, "DISABLE_VERSIONING"@)) by {
            reveal_strlit("DIRTY_PAGE_TABLE_LOCK");
            reveal_strlit("DISABLE_VERSIONING");
            reveal_with_fuel(name_lt_from, 4);
        }
    }
}

/// A wait type of part 2 has its place in that part, and the list has its
/// name at that place.
#[verifier::rlimit(60)]
proof fn lemma_rank_in_part_2(w: WaitType)
    requires
        in_part_2(w),
    ensures
        100 <= wait_type_rank(w) < 150,
        wait_type_at(wait_type_rank(w)) == w,
        name_at(wait_type_rank(w)) == wait_type_name(w),
        is_listed_wait_type(wait_type_name(w)),
{
    reveal(rank_in_part_2);
    reveal(ranked_in_part_2);
    reveal(name_in_part_2);
    reveal(listed_name_2);
    lemma_name_in_part_2(w);
}

/// The names at places 100 to 149 of the list are each followed by a greater one.
proof fn lemma_sorted_in_part_2(r: int)
    requires
        100 <= r < 150,
    ensures
        name_lt(name_at(r), name_at(r + 1)),
{
    reveal(name_in_part_2);
    reveal(name_in_part_3);
    if r == 100 {
        assert(name_lt("DISABLE_VERSIONING"@, "DISKIO_SUSPEND"@)) by {
            reveal_strlit("DISABLE_VERSIONING");
            reveal_strlit("DISKIO_SUSPEND");
            reveal_with_fuel(name_lt_from, 5);
        }
    } else if r == 101 {
        assert(name_lt("DISKIO_SUSPEND"@, "DISPATCHER_PRIORITY_QUEUE_SEMAPHORE"@)) by {
            reveal_strlit("DISKIO_SUSPEND");
            reveal_strlit("DISPATCHER_PRIORITY_QUEUE_SEMAPHORE");
            reveal_with_fuel(name_lt_from, 5);
        }
    } else if r == 102 {
        assert(name_lt("DISPATCHER_PRIORITY_QUEUE_SEMAPHORE"@, "DISPATCHER_QUEUE_SEMAPHORE"@)) by {
            reveal_strlit("DISPATCHER_PRIORITY_QUEUE_SEMAPHORE");
            reveal_strlit("DISPATCHER_QUEUE_SEMAPHORE");
            reveal_with_fuel(name_lt_from, 13);
        }
    } else if r == 103 {
        assert(name_lt("DISPATCHER_QUEUE_SEMAPHORE"@, "DLL_LOADING_MUTEX"@)) by {
            reveal_strlit("DISPATCHER_QUEUE_SEMAPHORE");
            reveal_strlit("DLL_LOADING_MUTEX");
            reveal_with_fuel(name_lt_from, 3);
        }
    } else if r == 104 {
        assert(name_lt("DLL_LOADING_MUTEX"@, "DPT_ENTRY_LOCK"@)) by {
            reveal_strlit("DLL_LOADING_MUTEX");
            reveal_strlit("DPT_ENTRY_LOCK");
            reveal_with_fuel(name_lt_from, 3);
        }
    } else if r == 105 {
        assert(name_lt("DPT_ENTRY_LOCK"@, "DROPTEMP"@)) by {
            reveal_strlit("DPT_ENTRY_LOCK");
            reveal_strlit("DROPTEMP");
            reveal_with_fuel(name_lt_from, 3);
        }
    } else if r == 106 {
        assert(name_lt("DROPTEMP"@, "DROP_DATABASE_TIMER_TASK"@)) by {
            reveal_strlit("DROPTEMP");
            reveal_strlit("DROP_DATABASE_TIMER_TASK");
            reveal_with_fuel(name_lt_from, 6);
        }
    } else if r == 107 {
        assert(name_lt("DROP_DATABASE_TIMER_TASK"@, "DTC"@)) by {
            reveal_strlit("DROP_DATABASE_TIMER_TASK");
            reveal_strlit("DTC");
            reveal_with_fuel(name_lt_from, 3);
        }
    } else if r == 108 {
        assert(name_lt("DTC"@, "DTCNEW_ENLIST"@)) by {
            reveal_strlit("DTC");
            reveal_strlit("DTCNEW_ENLIST");
            reveal_with_fuel(name_lt_from, 5);
        }
    } else if r == 109 {
        assert(name_lt("DTCNEW_ENLIST"@, "DTCNEW_PREPARE"@)) by {
            reveal_strlit("DTCNEW_ENLIST");
            reveal_strlit("DTCNEW_PREPARE");
            reveal_with_fuel(name_lt_from, 9);
        }
    } else if r == 110 {
        assert(name_lt("DTCNEW_PREPARE"@, "DTCNEW_RECOVERY"@)) by {
            reveal_strlit("DTCNEW_PREPARE");
            reveal_strlit("DTCNEW_RECOVERY");
            reveal_with_fuel(name_lt_from, 9);
        }
    } else if r == 111 {
        assert(name_lt("DTCNEW_RECOVERY"@, "DTCNEW_TM"@)) by {
            reveal_strlit("DTCNEW_RECOVERY");
            reveal_strlit("DTCNEW_TM");
            reveal_with_fuel(name_lt_from, 9);
        }
    } else if r == 112 {
        assert(name_lt("DTCNEW_TM"@, "DTCNEW_TRANSACTION_ENLISTMENT"@)) by {
            reveal_strlit("DTCNEW_TM");
            reveal_strlit("DTCNEW_TRANSACTION_ENLISTMENT");
            reveal_with_fuel(name_lt_from, 10);
        }
    } else if r == 113 {
        assert(name_lt("DTCNEW_TRANSACTION_ENLISTMENT"@, "DTCPNTSYNC"@)) by {
            reveal_strlit("DTCNEW_TRANSACTION_ENLISTMENT");
            reveal_strlit("DTCPNTSYNC");
            reveal_with_fuel(name_lt_from, 5);
        }
    } else if r == 114 {
        assert(name_lt("DTCPNTSYNC"@, "DTC_ABORT_REQUEST"@)) by {
            reveal_strlit("DTCPNTSYNC");
            reveal_strlit("DTC_ABORT_REQUEST");
            reveal_with_fuel(name_lt_from, 5);
        }
    } else if r == 115 {
        assert(name_lt("DTC_ABORT_REQUEST"@, "DTC_RESOLVE"@)) by {
            reveal_strlit("DTC_ABORT_REQUEST");
            reveal_strlit("DTC_RESOLVE");
            reveal_with_fuel(name_lt_from, 6);
        }
    } else if r == 116 {
        assert(name_lt("DTC_RESOLVE"@, "DTC_STATE"@)) by {
            reveal_strlit("DTC_RESOLVE");
            reveal_strlit("DTC_STATE");
            reveal_with_fuel(name_lt_from, 6);
        }
    } else if r == 117 {
        assert(name_lt("DTC_STATE"@, "DTC_TMDOWN_REQUEST"@)) by {
            reveal_strlit("DTC_STATE");
            reveal_strlit("DTC_TMDOWN_REQUEST");
            reveal_with_fuel(name_lt_from, 6);
        }
    } else if r == 118 {
        assert(name_lt("DTC_TMDOWN_REQUEST"@, "DTC_WAITFOR_OUTCOME"@)) by {
            reveal_strlit("DTC_TMDOWN_REQUEST");
            reveal_strlit("DTC_WAITFOR_OUTCOME");
            reveal_with_fuel(name_lt_from, 6);
        }
    } else if r == 119 {
        assert(name_lt("DTC_WAITFOR_OUTCOME"@, "DUMPTRIGGER"@)) by {
            reveal_strlit("DTC_WAITFOR_OUTCOME");
            reveal_strlit("DUMPTRIGGER");
            reveal_with_fuel(name_lt_from, 3);
        }
    } else if r == 120 {
        assert(name_lt("DUMPTRIGGER"@, "DUMP_LOG_COORDINATOR"@)) by {
            reveal_strlit("DUMPTRIGGER");
            reveal_strlit("DUMP_LOG_COORDINATOR");
            reveal_with_fuel(name_lt_from, 6);
        }
    } else if r == 121 {
        assert(name_lt("DUMP_LOG_COORDINATOR"@, "DUMP_LOG_COORDINATOR_QUEUE"@)) by {
            reveal_strlit("DUMP_LOG_COORDINATOR");
            reveal_strlit("DUMP_LOG_COORDINATOR_QUEUE");
            reveal_with_fuel(name_lt_from, 22);
        }
    } else if r == 122 {
        assert(name_lt("DUMP_LOG_COORDINATOR_QUEUE"@, "EC"@)) by {
            reveal_strlit("DUMP_LOG_COORDINATOR_QUEUE");
            reveal_strlit("EC");
            reveal_with_fuel(name_lt_from, 2);
        }
    } else if r == 123 {
        assert(name_lt("EC"@, "EE_PMOLOCK"@)) by {
            reveal_strlit("EC");
            reveal_strlit("EE_PMOLOCK");
            reveal_with_fuel(name_lt_from, 3);
        }
    } else if r == 124 {
        assert(name_lt("EE_PMOLOCK"@, "EE_SPECPROC_MAP_INIT"@)) by {
            reveal_strlit("EE_PMOLOCK");
            reveal_strlit("EE_SPECPROC_MAP_INIT");
            reveal_with_fuel(name_lt_from, 5);
        }
    } else if r == 125 {
        assert(name_lt("EE_SPECPROC_MAP_INIT"@, "ENABLE_EMPTY_VERSIONING"@)) by {
            reveal_strlit("EE_SPECPROC_MAP_INIT");
            reveal_strlit("ENABLE_EMPTY_VERSIONING");
            reveal_with_fuel(name_lt_from, 3);
        }
    } else if r == 126 {
        assert(name_lt("ENABLE_EMPTY_VERSIONING"@, "ENABLE_VERSIONING"@)) by {
            reveal_strlit("ENABLE_EMPTY_VERSIONING");
            reveal_strlit("ENABLE_VERSIONING");
            reveal_with_fuel(name_lt_from, 9);
        }
    } else if r == 127 {
        assert(name_lt("ENABLE_VERSIONING"@, "ERROR_REPORTING_MANAGER"@)) by {
            reveal_strlit("ENABLE_VERSIONING");
            reveal_strlit("ERROR_REPORTING_MANAGER");
            reveal_with_fuel(name_lt_from, 3);
        }
    } else if r == 128 {
        assert(name_lt("ERROR_REPORTING_MANAGER"@, "EXCHANGE"@)) by {
            reveal_strlit("ERROR_REPORTING_MANAGER");
            reveal_strlit("EXCHANGE");
            reveal_with_fuel(name_lt_from, 3);
        }
    } else if r == 129 {
        assert(name_lt("EXCHANGE"@, "EXECSYNC"@)) by {
            reveal_strlit("EXCHANGE");
            reveal_strlit("EXECSYNC");
            reveal_with_fuel(name_lt_from, 4);
        }
    } else if r == 130 {
        assert(name_lt("EXECSYNC"@, "EXECUTION_PIPE_EVENT_INTERNAL"@)) by {
            reveal_strlit("EXECSYNC");
            reveal_strlit("EXECUTION_PIPE_EVENT_INTERNAL");
            reveal_with_fuel(name_lt_from, 6);
        }
    } else if r == 131 {
        assert(name_lt("EXECUTION_PIPE_EVENT_INTERNAL"@, "EXTERNAL_RG_UPDATE"@)) by {
            reveal_strlit("EXECUTION_PIPE_EVENT_INTERNAL");
            reveal_strlit("EXTERNAL_RG_UPDATE");
            reveal_with_fuel(name_lt_from, 4);
        }
    } else if r == 132 {
        assert(name_lt("EXTERNAL_RG_UPDATE"@, "EXTERNAL_SCRIPT_NETWORK_IO"@)) by {
            reveal_strlit("EXTERNAL_RG_UPDATE");
            reveal_strlit("EXTERNAL_SCRIPT_NETWORK_IO");
            reveal_with_fuel(name_lt_from, 11);
        }
    } else if r == 133 {
        assert(name_lt("EXTERNAL_SCRIPT_NETWORK_IO"@, "EXTERNAL_SCRIPT_PREPARE_SERVICE"@)) by {
            reveal_strlit("EXTERNAL_SCRIPT_NETWORK_IO");
            reveal_strlit("EXTERNAL_SCRIPT_PREPARE_SERVICE");
            reveal_with_fuel(name_lt_from, 18);
        }
    } else if r == 134 {
        assert(name_lt("EXTERNAL_SCRIPT_PREPARE_SERVICE"@, "EXTERNAL_SCRIPT_SHUTDOWN"@)) by {
            reveal_strlit("EXTERNAL_SCRIPT_PREPARE_SERVICE");
            reveal_strlit("EXTERNAL_SCRIPT_SHUTDOWN");
            reveal_with_fuel(name_lt_from, 18);
        }
    } else if r == 135 {
        assert(name_lt("EXTERNAL_SCRIPT_SHUTDOWN"@, "EXTERNAL_WAIT_ON_LAUNCHER"@)) by {
            reveal_strlit("EXTERNAL_SCRIPT_SHUTDOWN");
            reveal_strlit("EXTERNAL_WAIT_ON_LAUNCHER");
            reveal_with_fuel(name_lt_from, 11);
        }
    } else if r == 136 {
        assert(name_lt("EXTERNAL_WAIT_ON_LAUNCHER"@, "FABRIC_HADR_TRANSPORT_CONNECTION"@)) by {
            reveal_strlit("EXTERNAL_WAIT_ON_LAUNCHER");
            reveal_strlit("FABRIC_HADR_TRANSPORT_CONNECTION");
            reveal_with_fuel(name_lt_from, 2);
        }
    } else if r == 137 {
        assert(name_lt("FABRIC_HADR_TRANSPORT_CONNECTION"@, "FABRIC_REPLICA_CONTROLLER_LIST"@)) by {
            reveal_strlit("FABRIC_HADR_TRANSPORT_CONNECTION");
            reveal_strlit("FABRIC_REPLICA_CONTROLLER_LIST");
            reveal_with_fuel(name_lt_from, 9);
        }
    } else if r == 138 {
        assert(name_lt("FABRIC_REPLICA_CONTROLLER_LIST"@, "FABRIC_REPLICA_CONTROLLER_STATE_AND_CONFIG"@)) by {
            reveal_strlit("FABRIC_REPLICA_CONTROLLER_LIST");
            reveal_strlit("FABRIC_REPLICA_CONTROLLER_STATE_AND_CONFIG");
            reveal_with_fuel(name_lt_from, 28);
        }
    } else if r == 139 {
        assert(name_lt("FABRIC_REPLICA_CONTROLLER_STATE_AND_CONFIG"@, "FABRIC_REPLICA_PUBLISHER_EVENT_PUBLISH"@)) by {
            reveal_strlit("FABRIC_REPLICA_CONTROLLER_STATE_AND_CONFIG");
            reveal_strlit("FABRIC_REPLICA_PUBLISHER_EVENT_PUBLISH");
            reveal_with_fuel(name_lt_from, 17);
        }
    } else if r == 140 {
        assert(name_lt("FABRIC_REPLICA_PUBLISHER_EVENT_PUBLISH"@, "FABRIC_REPLICA_PUBLISHER_SUBSCRIBER_LIST"@)) by {
            reveal_strlit("FABRIC_REPLICA_PUBLISHER_EVENT_PUBLISH");
            reveal_strlit("FABRIC_REPLICA_PUBLISHER_SUBSCRIBER_LIST");
            reveal_with_fuel(name_lt_from, 27);
        }
    } else if r == 141 {
        assert(name_lt("FABRIC_REPLICA_PUBLISHER_SUBSCRIBER_LIST"@, "FABRIC_WAIT_FOR_BUILD_REPLICA_EVENT_PROCESSING"@)) by {
            reveal_strlit("FABRIC_REPLICA_PUBLISHER_SUBSCRIBER_LIST");
            reveal_strlit("FABRIC_WAIT_FOR_BUILD_REPLICA_EVENT_PROCESSING");
            reveal_with_fuel(name_lt_from, 9);
        }
    } else if r == 142 {
        assert(name_lt("FABRIC_WAIT_FOR_BUILD_REPLICA_EVENT_PROCESSING"@, "FAILPOINT"@)) by {
            reveal_strlit("FABRIC_WAIT_FOR_BUILD_REPLICA_EVENT_PROCESSING");
            reveal_strlit("FAILPOINT");
            reveal_with_fuel(name_lt_from, 4);
        }
    } else if r == 143 {
        assert(name_lt("FAILPOINT"@, "FCB_REPLICA_READ"@)) by {
            reveal_strlit("FAILPOINT");
            reveal_strlit("FCB_REPLICA_READ");
            reveal_with_fuel(name_lt_from, 3);
        }
    } else if r == 144 {
        assert(name_lt("FCB_REPLICA_READ"@, "FCB_REPLICA_WRITE"@)) by {
            reveal_strlit("FCB_REPLICA_READ");
            reveal_strlit("FCB_REPLICA_WRITE");
            reveal_with_fuel(name_lt_from, 14);
        }
    } else if r == 145 {
        assert(name_lt("FCB_REPLICA_WRITE"@, "FEATURE_SWITCHES_UPDATE"@)) by {
            reveal_strlit("FCB_REPLICA_WRITE");
            reveal_strlit("FEATURE_SWITCHES_UPDATE");
            reveal_with_fuel(name_lt_from, 3);
        }
    } else if r == 146 {
        assert(name_lt("FEATURE_SWITCHES_UPDATE"@, "FFT_NSO_DB_KILL_FLAG"@)) by {
            reveal_strlit("FEATURE_SWITCHES_UPDATE");
            reveal_strlit("FFT_NSO_DB_KILL_FLAG");
            reveal_with_fuel(name_lt_from, 3);
        }
    } else if r == 147 {
        assert(name_lt("FFT_NSO_DB_KILL_FLAG"@, "FFT_NSO_DB_LIST"@)) by {
            reveal_strlit("FFT_NSO_DB_KILL_FLAG");
            reveal_strlit("FFT_NSO_DB_LIST");
            reveal_with_fuel(name_lt_from, 13);
        }
    } else if r == 148 {
        assert(name_lt("FFT_NSO_DB_LIST"@, "FFT_NSO_FCB"@)) by {
            reveal_strlit("FFT_NSO_DB_LIST");
            reveal_strlit("FFT_NSO_FCB");
            reveal_with_fuel(name_lt_from, 10);
        }
    } else if r == 149 {
        assert(name_lt("FFT_NSO_FCB"@, "FFT_NSO_FCB_FIND"@)) by {
            reveal_strlit("FFT_NSO_FCB");
            reveal_strlit("FFT_NSO_FCB_FIND");
            reveal_with_fuel(name_lt_from, 13);
        }
    }
}

/// A wait type of part 3 has its place in that part, and the list has its
/// name at that place.
#[verifier::rlimit(60)]
proof fn lemma_rank_in_part_3(w: WaitType)
    requires
        in_part_3(w),
    ensures
        150 <= wait_type_rank(w) < 200,
        wait_type_at(wait_type_rank(w)) == w,
        name_at(wait_type_rank(w)) == wait_type_name(w),
        is_listed_wait_type(wait_type_name(w)),
{
    reveal(rank_in_part_3);
    reveal(ranked_in_part_3);
    reveal(name_in_part_3);
    reveal(listed_name_3);
    lemma_name_in_part_3(w);
}

/// The names at places 150 to 199 of the list are each followed by a greater one.
proof fn lemma_sorted_in_part_3(r: int)
    requires
        150 <= r < 200,
    ensures
        name_lt(name_at(r), name_at(r + 1)),
{
    reveal(name_in_part_3);
    reveal(name_in_part_4);
    if r == 150 {
        assert(name_lt("FFT_NSO_FCB_FIND"@, "FFT_NSO_FCB_PARENT"@)) by {
            reveal_strlit("FFT_NSO_FCB_FIND");
            reveal_strlit("FFT_NSO_FCB_PARENT");
            reveal_with_fuel(name_lt_from, 14);
        }
    } else if r == 151 {
        assert(name_lt("FFT_NSO_FCB_PARENT"@, "FFT_NSO_FCB_RELEASE_CACHED_ENTRIES"@)) by {
            reveal_strlit("FFT_NSO_FCB_PARENT");
            reveal_strlit("FFT_NSO_FCB_RELEASE_CACHED_ENTRIES");
            reveal_with_fuel(name_lt_from, 14);
        }
    } else if r == 152 {
        assert(name_lt("FFT_NSO_FCB_RELEASE_CACHED_ENTRIES"@, "FFT_NSO_FCB_STATE"@)) by {
            reveal_strlit("FFT_NSO_FCB_RELEASE_CACHED_ENTRIES");
            reveal_strlit("FFT_NSO_FCB_STATE");
            reveal_with_fuel(name_lt_from, 14);
        }
    } else if r == 153 {
        assert(name_lt("FFT_NSO_FCB_STATE"@, "FFT_NSO_FILEOBJECT"@)) by {
            reveal_strlit("FFT_NSO_FCB_STATE");
            reveal_strlit("FFT_NSO_FILEOBJECT");
            reveal_with_fuel(name_lt_from, 11);
        }
    } else if r == 154 {
        assert(name_lt("FFT_NSO_FILEOBJECT"@, "FFT_NSO_TABLE_LIST"@)) by {
            reveal_strlit("FFT_NSO_FILEOBJECT");
            reveal_strlit("FFT_NSO_TABLE_LIST");
            reveal_with_fuel(name_lt_from, 10);
        }
    } else if r == 155 {
        assert(name_lt("FFT_NSO_TABLE_LIST"@, "FFT_NTFS_STORE"@)) by {
            reveal_strlit("FFT_NSO_TABLE_LIST");
            reveal_strlit("FFT_NTFS_STORE");
            reveal_with_fuel(name_lt_from, 7);
        }
    } else if r == 156 {
        assert(name_lt("FFT_NTFS_STORE"@, "FFT_RECOVERY"@)) by {
            reveal_strlit("FFT_NTFS_STORE");
            reveal_strlit("FFT_RECOVERY");
            reveal_with_fuel(name_lt_from, 6);
        }
    } else if r == 157 {
        assert(name_lt("FFT_RECOVERY"@, "FFT_RSFX_COMM"@)) by {
            reveal_strlit("FFT_RECOVERY");
            reveal_strlit("FFT_RSFX_COMM");
            reveal_with_fuel(name_lt_from, 7);
        }
    } else if r == 158 {
        assert(name_lt("FFT_RSFX_COMM"@, "FFT_RSFX_WAIT_FOR_MEMORY"@)) by {
            reveal_strlit("FFT_RSFX_COMM");
            reveal_strlit("FFT_RSFX_WAIT_FOR_MEMORY");
            reveal_with_fuel(name_lt_from, 11);
        }
    } else if r == 159 {
        assert(name_lt("FFT_RSFX_WAIT_FOR_MEMORY"@, "FFT_STARTUP_SHUTDOWN"@)) by {
            reveal_strlit("FFT_RSFX_WAIT_FOR_MEMORY");
            reveal_strlit("FFT_STARTUP_SHUTDOWN");
            reveal_with_fuel(name_lt_from, 6);
        }
    } else if r == 160 {
        assert(name_lt("FFT_STARTUP_SHUTDOWN"@, "FFT_STORE_DB"@)) by {
            reveal_strlit("FFT_STARTUP_SHUTDOWN");
            reveal_strlit("FFT_STORE_DB");
            reveal_with_fuel(name_lt_from, 8);
        }
    } else if r == 161 {
        assert(name_lt("FFT_STORE_DB"@, "FFT_STORE_ROWSET_LIST"@)) by {
            reveal_strlit("FFT_STORE_DB");
            reveal_strlit("FFT_STORE_ROWSET_LIST");
            reveal_with_fuel(name_lt_from, 12);
        }
    } else if r == 162 {
        assert(name_lt("FFT_STORE_ROWSET_LIST"@, "FFT_STORE_TABLE"@)) by {
            reveal_strlit("FFT_STORE_ROWSET_LIST");
            reveal_strlit("FFT_STORE_TABLE");
            reveal_with_fuel(name_lt_from, 12);
        }
    } else if r == 163 {
        assert(name_lt("FFT_STORE_TABLE"@, "FILESTREAM_CACHE"@)) by {
            reveal_strlit("FFT_STORE_TABLE");
            reveal_strlit("FILESTREAM_CACHE");
            reveal_with_fuel(name_lt_from, 3);
        }
    } else if r == 164 {
        assert(name_lt("FILESTREAM_CACHE"@, "FILESTREAM_CHUNKER"@)) by {
            reveal_strlit("FILESTREAM_CACHE");
            reveal_strlit("FILESTREAM_CHUNKER");
            reveal_with_fuel(name_lt_from, 14);
        }
    } else if r == 165 {
        assert(name_lt("FILESTREAM_CHUNKER"@, "FILESTREAM_CHUNKER_INIT"@)) by {
            reveal_strlit("FILESTREAM_CHUNKER");
            reveal_strlit("FILESTREAM_CHUNKER_INIT");
            reveal_with_fuel(name_lt_from, 20);
        }
    } else if r == 166 {
        assert(name_lt("FILESTREAM_CHUNKER_INIT"@, "FILESTREAM_FCB"@)) by {
            reveal_strlit("FILESTREAM_CHUNKER_INIT");
            reveal_strlit("FILESTREAM_FCB");
            reveal_with_fuel(name_lt_from, 13);
        }
    } else if r == 167 {
        assert(name_lt("FILESTREAM_FCB"@, "FILESTREAM_FILE_OBJECT"@)) by {
            reveal_strlit("FILESTREAM_FCB");
            reveal_strlit("FILESTREAM_FILE_OBJECT");
            reveal_with_fuel(name_lt_from, 14);
        }
    } else if r == 168 {
        assert(name_lt("FILESTREAM_FILE_OBJECT"@, "FILESTREAM_WORKITEM_QUEUE"@)) by {
            reveal_strlit("FILESTREAM_FILE_OBJECT");
            reveal_strlit("FILESTREAM_WORKITEM_QUEUE");
            reveal_with_fuel(name_lt_from, 13);
        }
    } else if r == 169 {
        assert(name_lt("FILESTREAM_WORKITEM_QUEUE"@, "FILETABLE_SHUTDOWN"@)) by {
            reveal_strlit("FILESTREAM_WORKITEM_QUEUE");
            reveal_strlit("FILETABLE_SHUTDOWN");
            reveal_with_fuel(name_lt_from, 6);
        }
    } else if r == 170 {
        assert(name_lt("FILETABLE_SHUTDOWN"@, "FILE_VALIDATION_THREADS"@)) by {
            reveal_strlit("FILETABLE_SHUTDOWN");
            reveal_strlit("FILE_VALIDATION_THREADS");
            reveal_with_fuel(name_lt_from, 6);
        }
    } else if r == 171 {
        assert(name_lt("FILE_VALIDATION_THREADS"@, "FOREIGN_REDO"@)) by {
            reveal_strlit("FILE_VALIDATION_THREADS");
            reveal_strlit("FOREIGN_REDO");
            reveal_with_fuel(name_lt_from, 3);
        }
    } else if r == 172 {
        assert(name_lt("FOREIGN_REDO"@, "FORWARDER_TRANSITION"@)) by {
            reveal_strlit("FOREIGN_REDO");
            reveal_strlit("FORWARDER_TRANSITION");
            reveal_with_fuel(name_lt_from, 5);
        }
    } else if r == 173 {
        assert(name_lt("FORWARDER_TRANSITION"@, "FSAGENT"@)) by {
            reveal_strlit("FORWARDER_TRANSITION");
            reveal_strlit("FSAGENT");
            reveal_with_fuel(name_lt_from, 3);
        }
    } else if r == 174 {
        assert(name_lt("FSAGENT"@, "FSA_FORCE_OWN_XACT"@)) by {
            reveal_strlit("FSAGENT");
            reveal_strlit("FSA_FORCE_OWN_XACT");
            reveal_with_fuel(name_lt_from, 5);
        }
    } else if r == 175 {
        assert(name_lt("FSA_FORCE_OWN_XACT"@, "FSTR_CONFIG_MUTEX"@)) by {
            reveal_strlit("FSA_FORCE_OWN_XACT");
            reveal_strlit("FSTR_CONFIG_MUTEX");
            reveal_with_fuel(name_lt_from, 4);
        }
    } else if r == 176 {
        assert(name_lt("FSTR_CONFIG_MUTEX"@, "FSTR_CONFIG_RWLOCK"@)) by {
            reveal_strlit("FSTR_CONFIG_MUTEX");
            reveal_strlit("FSTR_CONFIG_RWLOCK");
            reveal_with_fuel(name_lt_from, 14);
        }
    } else if r == 177 {
        assert(name_lt("FSTR_CONFIG_RWLOCK"@, "FS_FC_RWLOCK"@)) by {
            reveal_strlit("FSTR_CONFIG_RWLOCK");
            reveal_strlit("FS_FC_RWLOCK");
            reveal_with_fuel(name_lt_from, 4);
        }
    } else if r == 178 {
        assert(name_lt("FS_FC_RWLOCK"@, "FS_GARBAGE_COLLECTOR_SHUTDOWN"@)) by {
            reveal_strlit("FS_FC_RWLOCK");
            reveal_strlit("FS_GARBAGE_COLLECTOR_SHUTDOWN");
            reveal_with_fuel(name_lt_from, 5);
        }
    } else if r == 179 {
        assert(name_lt("FS_GARBAGE_COLLECTOR_SHUTDOWN"@, "FS_HEADER_RWLOCK"@)) by {
            reveal_strlit("FS_GARBAGE_COLLECTOR_SHUTDOWN");
            reveal_strlit("FS_HEADER_RWLOCK");
            reveal_with_fuel(name_lt_from, 5);
        }
    } else if r == 180 {
        assert(name_lt("FS_HEADER_RWLOCK"@, "FS_LOGTRUNC_RWLOCK"@)) by {
            reveal_strlit("FS_HEADER_RWLOCK");
            reveal_strlit("FS_LOGTRUNC_RWLOCK");
            reveal_with_fuel(name_lt_from, 5);
        }
    } else if r == 181 {
        assert(name_lt("FS_LOGTRUNC_RWLOCK"@, "FT_COMPROWSET_RWLOCK"@)) by {
            reveal_strlit("FS_LOGTRUNC_RWLOCK");
            reveal_strlit("FT_COMPROWSET_RWLOCK");
            reveal_with_fuel(name_lt_from, 3);
        }
    } else if r == 182 {
        assert(name_lt("FT_COMPROWSET_RWLOCK"@, "FT_IFTSHC_MUTEX"@)) by {
            reveal_strlit("FT_COMPROWSET_RWLOCK");
            reveal_strlit("FT_IFTSHC_MUTEX");
            reveal_with_fuel(name_lt_from, 5);
        }
    } else if r == 183 {
        assert(name_lt("FT_IFTSHC_MUTEX"@, "FT_IFTSISM_MUTEX"@)) by {
            reveal_strlit("FT_IFTSHC_MUTEX");
            reveal_strlit("FT_IFTSISM_MUTEX");
            reveal_with_fuel(name_lt_from, 9);
        }
    } else if r == 184 {
        assert(name_lt("FT_IFTSISM_MUTEX"@, "FT_IFTS_ASYNC_WRITE_PIPE"@)) by {
            reveal_strlit("FT_IFTSISM_MUTEX");
            reveal_strlit("FT_IFTS_ASYNC_WRITE_PIPE");
            reveal_with_fuel(name_lt_from, 9);
        }
    } else if r == 185 {
        assert(name_lt("FT_IFTS_ASYNC_WRITE_PIPE"@, "FT_IFTS_BLOB_HASH"@)) by {
            reveal_strlit("FT_IFTS_ASYNC_WRITE_PIPE");
            reveal_strlit("FT_IFTS_BLOB_HASH");
            reveal_with_fuel(name_lt_from, 10);
        }
    } else if r == 186 {
        assert(name_lt("FT_IFTS_BLOB_HASH"@, "FT_IFTS_CATEALOG_SOURCE"@)) by {
            reveal_strlit("FT_IFTS_BLOB_HASH");
            reveal_strlit("FT_IFTS_CATEALOG_SOURCE");
            reveal_with_fuel(name_lt_from, 10);
        }
    } else if r == 187 {
        assert(name_lt("FT_IFTS_CATEALOG_SOURCE"@, "FT_IFTS_CHUNK_BUFFER_CLIENT_MANAGER"@)) by {
            reveal_strlit("FT_IFTS_CATEALOG_SOURCE");
            reveal_strlit("FT_IFTS_CHUNK_BUFFER_CLIENT_MANAGER");
            reveal_with_fuel(name_lt_from, 11);
        }
    } else if r == 188 {
        assert(name_lt("FT_IFTS_CHUNK_BUFFER_CLIENT_MANAGER"@, "FT_IFTS_CHUNK_BUFFER_PROTO_WORD_LIST"@)) by {
            reveal_strlit("FT_IFTS_CHUNK_BUFFER_CLIENT_MANAGER");
            reveal_strlit("FT_IFTS_CHUNK_BUFFER_PROTO_WORD_LIST");
            reveal_with_fuel(name_lt_from, 23);
        }
    } else if r == 189 {
        assert(name_lt("FT_IFTS_CHUNK_BUFFER_PROTO_WORD_LIST"@, "FT_IFTS_COMP_DESC_MANAGER"@)) by {
            reveal_strlit("FT_IFTS_CHUNK_BUFFER_PROTO_WORD_LIST");
            reveal_strlit("FT_IFTS_COMP_DESC_MANAGER");
            reveal_with_fuel(name_lt_from, 11);
        }
    } else if r == 190 {
        assert(name_lt("FT_IFTS_COMP_DESC_MANAGER"@, "FT_IFTS_CONSUMER_PLUGIN"@)) by {
            reveal_strlit("FT_IFTS_COMP_DESC_MANAGER");
            reveal_strlit("FT_IFTS_CONSUMER_PLUGIN");
            reveal_with_fuel(name_lt_from, 12);
        }
    } else if r == 191 {
        assert(name_lt("FT_IFTS_CONSUMER_PLUGIN"@, "FT_IFTS_CRAWL_BATCH_LIST"@)) by {
            reveal_strlit("FT_IFTS_CONSUMER_PLUGIN");
            reveal_strlit("FT_IFTS_CRAWL_BATCH_LIST");
            reveal_with_fuel(name_lt_from, 11);
        }
    } else if r == 192 {
        assert(name_lt("FT_IFTS_CRAWL_BATCH_LIST"@, "FT_IFTS_CRAWL_CHILDREN"@)) by {
            reveal_strlit("FT_IFTS_CRAWL_BATCH_LIST");
            reveal_strlit("FT_IFTS_CRAWL_CHILDREN");
            reveal_with_fuel(name_lt_from, 16);
        }
    } else if r == 193 {
        assert(name_lt("FT_IFTS_CRAWL_CHILDREN"@, "FT_IFTS_DOCID_INTERFACE_LIST"@)) by {
            reveal_strlit("FT_IFTS_CRAWL_CHILDREN");
            reveal_strlit("FT_IFTS_DOCID_INTERFACE_LIST");
            reveal_with_fuel(name_lt_from, 10);
        }
    } else if r == 194 {
        assert(name_lt("FT_IFTS_DOCID_INTERFACE_LIST"@, "FT_IFTS_DOCID_LIST"@)) by {
            reveal_strlit("FT_IFTS_DOCID_INTERFACE_LIST");
            reveal_strlit("FT_IFTS_DOCID_LIST");
            reveal_with_fuel(name_lt_from, 16);
        }
    } else if r == 195 {
        assert(name_lt("FT_IFTS_DOCID_LIST"@, "FT_IFTS_FP_INFO_LIST"@)) by {
            reveal_strlit("FT_IFTS_DOCID_LIST");
            reveal_strlit("FT_IFTS_FP_INFO_LIST");
            reveal_with_fuel(name_lt_from, 10);
        }
    } else if r == 196 {
        assert(name_lt("FT_IFTS_FP_INFO_LIST"@, "FT_IFTS_HOST_CONTROLLER"@)) by {
            reveal_strlit("FT_IFTS_FP_INFO_LIST");
            reveal_strlit("FT_IFTS_HOST_CONTROLLER");
            reveal_with_fuel(name_lt_from, 10);
        }
    } else if r == 197 {
        assert(name_lt("FT_IFTS_HOST_CONTROLLER"@, "FT_IFTS_MASTER_MERGE_TASK_LIST"@)) by {
            reveal_strlit("FT_IFTS_HOST_CONTROLLER");
            reveal_strlit("FT_IFTS_MASTER_MERGE_TASK_LIST");
            reveal_with_fuel(name_lt_from, 10);
        }
    } else if r == 198 {
        assert(name_lt("FT_IFTS_MASTER_MERGE_TASK_LIST"@, "FT_IFTS_MEMREGPOOL"@)) by {
            reveal_strlit("FT_IFTS_MASTER_MERGE_TASK_LIST");
            reveal_strlit("FT_IFTS_MEMREGPOOL");
            reveal_with_fuel(name_lt_from, 11);
        }
    } else if r == 199 {
        assert(name_lt("FT_IFTS_MEMREGPOOL"@, "FT_IFTS_MERGE_FRAGMENT_SYNC"@)) by {
            reveal_strlit("FT_IFTS_MEMREGPOOL");
            reveal_strlit("FT_IFTS_MERGE_FRAGMENT_SYNC");
            reveal_with_fuel(name_lt_from, 12);
        }
    }
}

/// A wait type of part 4 has its place in that part, and the list has its
/// name at that place.
#[verifier::rlimit(60)]
proof fn lemma_rank_in_part_4(w: WaitType)
    requires
        in_part_4(w),
    ensures
        200 <= wait_type_rank(w) < 250,
        wait_type_at(wait_type_rank(w)) == w,
        name_at(wait_type_rank(w)) == wait_type_name(w),
        is_listed_wait_type(wait_type_name(w)),
{
    reveal(rank_in_part_4);
    reveal(ranked_in_part_4);
    reveal(name_in_part_4);
    reveal(listed_name_4);
    lemma_name_in_part_4(w);
}

/// The names at places 200 to 249 of the list are each followed by a greater one.
proof fn lemma_sorted_in_part_4(r: int)
    requires
        200 <= r < 250,
    ensures
        name_lt(name_at(r), name_at(r + 1)),
{
    reveal(name_in_part_4);
    reveal(name_in_part_5);
    if r == 200 {
        assert(name_lt("FT_IFTS_MERGE_FRAGMENT_SYNC"@, "FT_IFTS_NOISE_WORDS_COLLECTION_CACHE"@)) by {
            reveal_strlit("FT_IFTS_MERGE_FRAGMENT_SYNC");
            reveal_strlit("FT_IFTS_NOISE_WORDS_COLLECTION_CACHE");
            reveal_with_fuel(name_lt_from, 10);
        }
    } else if r == 201 {
        assert(name_lt("FT_IFTS_NOISE_WORDS_COLLECTION_CACHE"@, "FT_IFTS_NOISE_WORDS_RESOURCE"@)) by {
            reveal_strlit("FT_IFTS_NOISE_WORDS_COLLECTION_CACHE");
            reveal_strlit("FT_IFTS_NOISE_WORDS_RESOURCE");
            reveal_with_fuel(name_lt_from, 22);
        }
    } else if r == 202 {
        assert(name_lt("FT_IFTS_NOISE_WORDS_RESOURCE"@, "FT_IFTS_OCCURRENCE_BUFFER_POOL"@)) by {
            reveal_strlit("FT_IFTS_NOISE_WORDS_RESOURCE");
            reveal_strlit("FT_IFTS_OCCURRENCE_BUFFER_POOL");
            reveal_with_fuel(name_lt_from, 10);
        }
    } else if r == 203 {
        assert(name_lt("FT_IFTS_OCCURRENCE_BUFFER_POOL"@, "FT_IFTS_PIPELINE"@)) by {
            reveal_strlit("FT_IFTS_OCCURRENCE_BUFFER_POOL");
            reveal_strlit("FT_IFTS_PIPELINE");
            reveal_with_fuel(name_lt_from, 10);
        }
    } else if r == 204 {
        assert(name_lt("FT_IFTS_PIPELINE"@, "FT_IFTS_PIPELINE_LIST"@)) by {
            reveal_strlit("FT_IFTS_PIPELINE");
            reveal_strlit("FT_IFTS_PIPELINE_LIST");
            reveal_with_fuel(name_lt_from, 18);
        }
    } else if r == 205 {
        assert(name_lt("FT_IFTS_PIPELINE_LIST"@, "FT_IFTS_PIPELINE_MANAGER"@)) by {
            reveal_strlit("FT_IFTS_PIPELINE_LIST");
            reveal_strlit("FT_IFTS_PIPELINE_MANAGER");
            reveal_with_fuel(name_lt_from, 19);
        }
    } else if r == 206 {
        assert(name_lt("FT_IFTS_PIPELINE_MANAGER"@, "FT_IFTS_PROJECT_FD_INFO_MAP"@)) by {
            reveal_strlit("FT_IFTS_PIPELINE_MANAGER");
            reveal_strlit("FT_IFTS_PROJECT_FD_INFO_MAP");
            reveal_with_fuel(name_lt_from, 11);
        }
    } else if r == 207 {
        assert(name_lt("FT_IFTS_PROJECT_FD_INFO_MAP"@, "FT_IFTS_RWLOCK"@)) by {
            reveal_strlit("FT_IFTS_PROJECT_FD_INFO_MAP");
            reveal_strlit("FT_IFTS_RWLOCK");
            reveal_with_fuel(name_lt_from, 10);
        }
    } else if r == 208 {
        assert(name_lt("FT_IFTS_RWLOCK"@, "FT_IFTS_SCHEDULER"@)) by {
            reveal_strlit("FT_IFTS_RWLOCK");
            reveal_strlit("FT_IFTS_SCHEDULER");
            reveal_with_fuel(name_lt_from, 10);
        }
    } else if r == 209 {
        assert(name_lt("FT_IFTS_SCHEDULER"@, "FT_IFTS_SCHEDULER_IDLE_WAIT"@)) by {
            reveal_strlit("FT_IFTS_SCHEDULER");
            reveal_strlit("FT_IFTS_SCHEDULER_IDLE_WAIT");
            reveal_with_fuel(name_lt_from, 19);
        }
    } else if r == 210 {
        assert(name_lt("FT_IFTS_SCHEDULER_IDLE_WAIT"@, "FT_IFTS_SHARED_MEMORY"@)) by {
            reveal_strlit("FT_IFTS_SCHEDULER_IDLE_WAIT");
            reveal_strlit("FT_IFTS_SHARED_MEMORY");
            reveal_with_fuel(name_lt_from, 11);
        }
    } else if r == 211 {
        assert(name_lt("FT_IFTS_SHARED_MEMORY"@, "FT_IFTS_SHUTDOWN_PIPE"@)) by {
            reveal_strlit("FT_IFTS_SHARED_MEMORY");
            reveal_strlit("FT_IFTS_SHUTDOWN_PIPE");
            reveal_with_fuel(name_lt_from, 12);
        }
    } else if r == 212 {
        assert(name_lt("FT_IFTS_SHUTDOWN_PIPE"@, "FT_IFTS_SRCH_FD_MANAGER"@)) by {
            reveal_strlit("FT_IFTS_SHUTDOWN_PIPE");
            reveal_strlit("FT_IFTS_SRCH_FD_MANAGER");
            reveal_with_fuel(name_lt_from, 11);
        }
    } else if r == 213 {
        assert(name_lt("FT_IFTS_SRCH_FD_MANAGER"@, "FT_IFTS_SRCH_FD_SERVICE"@)) by {
            reveal_strlit("FT_IFTS_SRCH_FD_MANAGER");
            reveal_strlit("FT_IFTS_SRCH_FD_SERVICE");
            reveal_with_fuel(name_lt_from, 18);
        }
    } else if r == 214 {
        assert(name_lt("FT_IFTS_SRCH_FD_SERVICE"@, "FT_IFTS_STOPLIST_CACHE_MANAGER"@)) by {
            reveal_strlit("FT_IFTS_SRCH_FD_SERVICE");
            reveal_strlit("FT_IFTS_STOPLIST_CACHE_MANAGER");
            reveal_with_fuel(name_lt_from, 11);
        }
    } else if r == 215 {
        assert(name_lt("FT_IFTS_STOPLIST_CACHE_MANAGER"@, "FT_IFTS_THESAURUS"@)) by {
            reveal_strlit("FT_IFTS_STOPLIST_CACHE_MANAGER");
            reveal_strlit("FT_IFTS_THESAURUS");
            reveal_with_fuel(name_lt_from, 10);
        }
    } else if r == 216 {
        assert(name_lt("FT_IFTS_THESAURUS"@, "FT_IFTS_VERSION_MANAGER"@)) by {
            reveal_strlit("FT_IFTS_THESAURUS");
            reveal_strlit("FT_IFTS_VERSION_MANAGER");
            reveal_with_fuel(name_lt_from, 10);
        }
    } else if r == 217 {
        assert(name_lt("FT_IFTS_VERSION_MANAGER"@, "FT_IFTS_WORK_QUEUE"@)) by {
            reveal_strlit("FT_IFTS_VERSION_MANAGER");
            reveal_strlit("FT_IFTS_WORK_QUEUE");
            reveal_with_fuel(name_lt_from, 10);
        }
    } else if r == 218 {
        assert(name_lt("FT_IFTS_WORK_QUEUE"@, "FT_MASTER_MERGE"@)) by {
            reveal_strlit("FT_IFTS_WORK_QUEUE");
            reveal_strlit("FT_MASTER_MERGE");
            reveal_with_fuel(name_lt_from, 5);
        }
    } else if r == 219 {
        assert(name_lt("FT_MASTER_MERGE"@, "FT_MASTER_MERGE_COORDINATOR"@)) by {
            reveal_strlit("FT_MASTER_MERGE");
            reveal_strlit("FT_MASTER_MERGE_COORDINATOR");
            reveal_with_fuel(name_lt_from, 17);
        }
    } else if r == 220 {
        assert(name_lt("FT_MASTER_MERGE_COORDINATOR"@, "FT_METADATA_MUTEX"@)) by {
            reveal_strlit("FT_MASTER_MERGE_COORDINATOR");
            reveal_strlit("FT_METADATA_MUTEX");
            reveal_with_fuel(name_lt_from, 6);
        }
    } else if r == 221 {
        assert(name_lt("FT_METADATA_MUTEX"@, "FT_PROPERTYLIST_CACHE"@)) by {
            reveal_strlit("FT_METADATA_MUTEX");
            reveal_strlit("FT_PROPERTYLIST_CACHE");
            reveal_with_fuel(name_lt_from, 5);
        }
    } else if r == 222 {
        assert(name_lt("FT_PROPERTYLIST_CACHE"@, "FT_RESTART_CRAWL"@)) by {
            reveal_strlit("FT_PROPERTYLIST_CACHE");
            reveal_strlit("FT_RESTART_CRAWL");
            reveal_with_fuel(name_lt_from, 5);
        }
    } else if r == 223 {
        assert(name_lt("FT_RESTART_CRAWL"@, "FULLTEXT GATHERER"@)) by {
            reveal_strlit("FT_RESTART_CRAWL");
            reveal_strlit("FULLTEXT GATHERER");
            reveal_with_fuel(name_lt_from, 3);
        }
    } else if r == 224 {
        assert(name_lt("FULLTEXT GATHERER"@, "GDMA_GET_RESOURCE_OWNER"@)) by {
            reveal_strlit("FULLTEXT GATHERER");
            reveal_strlit("GDMA_GET_RESOURCE_OWNER");
            reveal_with_fuel(name_lt_from, 2);
        }
    } else if r == 225 {
        assert(name_lt("GDMA_GET_RESOURCE_OWNER"@, "GHOSTCLEANUPSYNCMGR"@)) by {
            reveal_strlit("GDMA_GET_RESOURCE_OWNER");
            reveal_strlit("GHOSTCLEANUPSYNCMGR");
            reveal_with_fuel(name_lt_from, 3);
        }
    } else if r == 226 {
        assert(name_lt("GHOSTCLEANUPSYNCMGR"@, "GHOSTCLEANUP_UPDATE_STATS"@)) by {
            reveal_strlit("GHOSTCLEANUPSYNCMGR");
            reveal_strlit("GHOSTCLEANUP_UPDATE_STATS");
            reveal_with_fuel(name_lt_from, 14);
        }
    } else if r == 227 {
        assert(name_lt("GHOSTCLEANUP_UPDATE_STATS"@, "GLOBAL_QUERY_CANCEL"@)) by {
            reveal_strlit("GHOSTCLEANUP_UPDATE_STATS");
            reveal_strlit("GLOBAL_QUERY_CANCEL");
            reveal_with_fuel(name_lt_from, 3);
        }
    } else if r == 228 {
        assert(name_lt("GLOBAL_QUERY_CANCEL"@, "GLOBAL_QUERY_CLOSE"@)) by {
            reveal_strlit("GLOBAL_QUERY_CANCEL");
            reveal_strlit("GLOBAL_QUERY_CLOSE");
            reveal_with_fuel(name_lt_from, 16);
        }
    } else if r == 229 {
        assert(name_lt("GLOBAL_QUERY_CLOSE"@, "GLOBAL_QUERY_CONSUMER"@)) by {
            reveal_strlit("GLOBAL_QUERY_CLOSE");
            reveal_strlit("GLOBAL_QUERY_CONSUMER");
            reveal_with_fuel(name_lt_from, 16);
        }
    } else if r == 230 {
        assert(name_lt("GLOBAL_QUERY_CONSUMER"@, "GLOBAL_QUERY_PRODUCER"@)) by {
            reveal_strlit("GLOBAL_QUERY_CONSUMER");
            reveal_strlit("GLOBAL_QUERY_PRODUCER");
            reveal_with_fuel(name_lt_from, 15);
        }
    } else if r == 231 {
        assert(name_lt("GLOBAL_QUERY_PRODUCER"@, "GLOBAL_TRAN_CREATE"@)) by {
            reveal_strlit("GLOBAL_QUERY_PRODUCER");
            reveal_strlit("GLOBAL_TRAN_CREATE");
            reveal_with_fuel(name_lt_from, 9);
        }
    } else if r == 232 {
        assert(name_lt("GLOBAL_TRAN_CREATE"@, "GLOBAL_TRAN_UCS_SESSION"@)) by {
            reveal_strlit("GLOBAL_TRAN_CREATE");
            reveal_strlit("GLOBAL_TRAN_UCS_SESSION");
            reveal_with_fuel(name_lt_from, 14);
        }
    } else if r == 233 {
        assert(name_lt("GLOBAL_TRAN_UCS_SESSION"@, "GUARDIAN"@)) by {
            reveal_strlit("GLOBAL_TRAN_UCS_SESSION");
            reveal_strlit("GUARDIAN");
            reveal_with_fuel(name_lt_from, 3);
        }
    } else if r == 234 {
        assert(name_lt("GUARDIAN"@, "HADR_AG_MUTEX"@)) by {
            reveal_strlit("GUARDIAN");
            reveal_strlit("HADR_AG_MUTEX");
            reveal_with_fuel(name_lt_from, 2);
        }
    } else if r == 235 {
        assert(name_lt("HADR_AG_MUTEX"@, "HADR_ARCONTROLLER_NOTIFICATIONS_SUBSCRIBER_LIST"@)) by {
            reveal_strlit("HADR_AG_MUTEX");
            reveal_strlit("HADR_ARCONTROLLER_NOTIFICATIONS_SUBSCRIBER_LIST");
            reveal_with_fuel(name_lt_from, 8);
        }
    } else if r == 236 {
        assert(name_lt("HADR_ARCONTROLLER_NOTIFICATIONS_SUBSCRIBER_LIST"@, "HADR_AR_CRITICAL_SECTION_ENTRY"@)) by {
            reveal_strlit("HADR_ARCONTROLLER_NOTIFICATIONS_SUBSCRIBER_LIST");
            reveal_strlit("HADR_AR_CRITICAL_SECTION_ENTRY");
            reveal_with_fuel(name_lt_from, 9);
        }
    } else if r == 237 {
        assert(name_lt("HADR_AR_CRITICAL_SECTION_ENTRY"@, "HADR_AR_MANAGER_MUTEX"@)) by {
            reveal_strlit("HADR_AR_CRITICAL_SECTION_ENTRY");
            reveal_strlit("HADR_AR_MANAGER_MUTEX");
            reveal_with_fuel(name_lt_from, 10);
        }
    } else if r == 238 {
        assert(name_lt("HADR_AR_MANAGER_MUTEX"@, "HADR_AR_UNLOAD_COMPLETED"@)) by {
            reveal_strlit("HADR_AR_MANAGER_MUTEX");
            reveal_strlit("HADR_AR_UNLOAD_COMPLETED");
            reveal_with_fuel(name_lt_from, 10);
        }
    } else if r == 239 {
        assert(name_lt("HADR_AR_UNLOAD_COMPLETED"@, "HADR_BACKUP_BULK_LOCK"@)) by {
            reveal_strlit("HADR_AR_UNLOAD_COMPLETED");
            reveal_strlit("HADR_BACKUP_BULK_LOCK");
            reveal_with_fuel(name_lt_from, 7);
        }
    } else if r == 240 {
        assert(name_lt("HADR_BACKUP_BULK_LOCK"@, "HADR_BACKUP_QUEUE"@)) by {
            reveal_strlit("HADR_BACKUP_BULK_LOCK");
            reveal_strlit("HADR_BACKUP_QUEUE");
            reveal_with_fuel(name_lt_from, 14);
        }
    } else if r == 241 {
        assert(name_lt("HADR_BACKUP_QUEUE"@, "HADR_CLUSAPI_CALL"@)) by {
            reveal_strlit("HADR_BACKUP_QUEUE");
            reveal_strlit("HADR_CLUSAPI_CALL");
            reveal_with_fuel(name_lt_from, 7);
        }
    } else if r == 242 {
        assert(name_lt("HADR_CLUSAPI_CALL"@, "HADR_COMPRESSED_CACHE_SYNC"@)) by {
            reveal_strlit("HADR_CLUSAPI_CALL");
            reveal_strlit("HADR_COMPRESSED_CACHE_SYNC");
            reveal_with_fuel(name_lt_from, 8);
        }
    } else if r == 243 {
        assert(name_lt("HADR_COMPRESSED_CACHE_SYNC"@, "HADR_CONNECTIVITY_INFO"@)) by {
            reveal_strlit("HADR_COMPRESSED_CACHE_SYNC");
            reveal_strlit("HADR_CONNECTIVITY_INFO");
            reveal_with_fuel(name_lt_from, 9);
        }
    } else if r == 244 {
        assert(name_lt("HADR_CONNECTIVITY_INFO"@, "HADR_DATABASE_FLOW_CONTROL"@)) by {
            reveal_strlit("HADR_CONNECTIVITY_INFO");
            reveal_strlit("HADR_DATABASE_FLOW_CONTROL");
            reveal_with_fuel(name_lt_from, 7);
        }
    } else if r == 245 {
        assert(name_lt("HADR_DATABASE_FLOW_CONTROL"@, "HADR_DATABASE_VERSIONING_STATE"@)) by {
            reveal_strlit("HADR_DATABASE_FLOW_CONTROL");
            reveal_strlit("HADR_DATABASE_VERSIONING_STATE");
            reveal_with_fuel(name_lt_from, 16);
        }
    } else if r == 246 {
        assert(name_lt("HADR_DATABASE_VERSIONING_STATE"@, "HADR_DATABASE_WAIT_FOR_RECOVERY"@)) by {
            reveal_strlit("HADR_DATABASE_VERSIONING_STATE");
            reveal_strlit("HADR_DATABASE_WAIT_FOR_RECOVERY");
            reveal_with_fuel(name_lt_from, 16);
        }
    } else if r == 247 {
        assert(name_lt("HADR_DATABASE_WAIT_FOR_RECOVERY"@, "HADR_DATABASE_WAIT_FOR_RESTART"@)) by {
            reveal_strlit("HADR_DATABASE_WAIT_FOR_RECOVERY");
            reveal_strlit("HADR_DATABASE_WAIT_FOR_RESTART");
            reveal_with_fuel(name_lt_from, 27);
        }
    } else if r == 248 {
        assert(name_lt("HADR_DATABASE_WAIT_FOR_RESTART"@, "HADR_DATABASE_WAIT_FOR_TRANSITION_TO_VERSIONING"@)) by {
            reveal_strlit("HADR_DATABASE_WAIT_FOR_RESTART");
            reveal_strlit("HADR_DATABASE_WAIT_FOR_TRANSITION_TO_VERSIONING");
            reveal_with_fuel(name_lt_from, 25);
        }
    } else if r == 249 {
        assert(name_lt("HADR_DATABASE_WAIT_FOR_TRANSITION_TO_VERSIONING"@, "HADR_DBR_SUBSCRIBER"@)) by {
            reveal_strlit("HADR_DATABASE_WAIT_FOR_TRANSITION_TO_VERSIONING");
            reveal_strlit("HADR_DBR_SUBSCRIBER");
            reveal_with_fuel(name_lt_from, 8);
        }
    }
}

/// A wait type of part 5 has its place in that part, and the list has its
/// name at that place.
#[verifier::rlimit(60)]
proof fn lemma_rank_in_part_5(w: WaitType)
    requires
        in_part_5(w),
    ensures
        250 <= wait_type_rank(w) < 300,
        wait_type_at(wait_type_rank(w)) == w,
        name_at(wait_type_rank(w)) == wait_type_name(w),
        is_listed_wait_type(wait_type_name(w)),
{
    reveal(rank_in_part_5);
    reveal(ranked_in_part_5);
    reveal(name_in_part_5);
    reveal(listed_name_5);
    lemma_name_in_part_5(w);
}

/// The names at places 250 to 299 of the list are each followed by a greater one.
proof fn lemma_sorted_in_part_5(r: int)
    requires
        250 <= r < 300,
    ensures
        name_lt(name_at(r), name_at(r + 1)),
{
    reveal(name_in_part_5);
    reveal(name_in_part_6);
    if r == 250 {
        assert(name_lt("HADR_DBR_SUBSCRIBER"@, "HADR_DBR_SUBSCRIBER_FILTER_LIST"@)) by {
            reveal_strlit("HADR_DBR_SUBSCRIBER");
            reveal_strlit("HADR_DBR_SUBSCRIBER_FILTER_LIST");
            reveal_with_fuel(name_lt_from, 21);
        }
    } else if r == 251 {
        assert(name_lt("HADR_DBR_SUBSCRIBER_FILTER_LIST"@, "HADR_DBSEEDING"@)) by {
            reveal_strlit("HADR_DBR_SUBSCRIBER_FILTER_LIST");
            reveal_strlit("HADR_DBSEEDING");
            reveal_with_fuel(name_lt_from, 9);
        }
    } else if r == 252 {
        assert(name_lt("HADR_DBSEEDING"@, "HADR_DBSEEDING_LIST"@)) by {
            reveal_strlit("HADR_DBSEEDING");
            reveal_strlit("HADR_DBSEEDING_LIST");
            reveal_with_fuel(name_lt_from, 16);
        }
    } else if r == 253 {
        assert(name_lt("HADR_DBSEEDING_LIST"@, "HADR_DBSTATECHANGE_SYNC"@)) by {
            reveal_strlit("HADR_DBSEEDING_LIST");
            reveal_strlit("HADR_DBSTATECHANGE_SYNC");
            reveal_with_fuel(name_lt_from, 10);
        }
    } else if r == 254 {
        assert(name_lt("HADR_DBSTATECHANGE_SYNC"@, "HADR_DB_COMMAND"@)) by {
            reveal_strlit("HADR_DBSTATECHANGE_SYNC");
            reveal_strlit("HADR_DB_COMMAND");
            reveal_with_fuel(name_lt_from, 9);
        }
    } else if r == 255 {
        assert(name_lt("HADR_DB_COMMAND"@, "HADR_DB_OP_COMPLETION_SYNC"@)) by {
            reveal_strlit("HADR_DB_COMMAND");
            reveal_strlit("HADR_DB_OP_COMPLETION_SYNC");
            reveal_with_fuel(name_lt_from, 10);
        }
    } else if r == 256 {
        assert(name_lt("HADR_DB_OP_COMPLETION_SYNC"@, "HADR_DB_OP_START_SYNC"@)) by {
            reveal_strlit("HADR_DB_OP_COMPLETION_SYNC");
            reveal_strlit("HADR_DB_OP_START_SYNC");
            reveal_with_fuel(name_lt_from, 13);
        }
    } else if r == 257 {
        assert(name_lt("HADR_DB_OP_START_SYNC"@, "HADR_FABRIC_CALLBACK"@)) by {
            reveal_strlit("HADR_DB_OP_START_SYNC");
            reveal_strlit("HADR_FABRIC_CALLBACK");
            reveal_with_fuel(name_lt_from, 7);
        }
    } else if r == 258 {
        assert(name_lt("HADR_FABRIC_CALLBACK"@, "HADR_FILESTREAM_BLOCK_FLUSH"@)) by {
            reveal_strlit("HADR_FABRIC_CALLBACK");
            reveal_strlit("HADR_FILESTREAM_BLOCK_FLUSH");
            reveal_with_fuel(name_lt_from, 8);
        }
    } else if r == 259 {
        assert(name_lt("HADR_FILESTREAM_BLOCK_FLUSH"@, "HADR_FILESTREAM_FILE_CLOSE"@)) by {
            reveal_strlit("HADR_FILESTREAM_BLOCK_FLUSH");
            reveal_strlit("HADR_FILESTREAM_FILE_CLOSE");
            reveal_with_fuel(name_lt_from, 18);
        }
    } else if r == 260 {
        assert(name_lt("HADR_FILESTREAM_FILE_CLOSE"@, "HADR_FILESTREAM_FILE_REQUEST"@)) by {
            reveal_strlit("HADR_FILESTREAM_FILE_CLOSE");
            reveal_strlit("HADR_FILESTREAM_FILE_REQUEST");
            reveal_with_fuel(name_lt_from, 23);
        }
    } else if r == 261 {
        assert(name_lt("HADR_FILESTREAM_FILE_REQUEST"@, "HADR_FILESTREAM_IOMGR"@)) by {
            reveal_strlit("HADR_FILESTREAM_FILE_REQUEST");
            reveal_strlit("HADR_FILESTREAM_IOMGR");
            reveal_with_fuel(name_lt_from, 18);
        }
    } else if r == 262 {
        assert(name_lt("HADR_FILESTREAM_IOMGR"@, "HADR_FILESTREAM_IOMGR_IOCOMPLETION"@)) by {
            reveal_strlit("HADR_FILESTREAM_IOMGR");
            reveal_strlit("HADR_FILESTREAM_IOMGR_IOCOMPLETION");
            reveal_with_fuel(name_lt_from, 23);
        }
    } else if r == 263 {
        assert(name_lt("HADR_FILESTREAM_IOMGR_IOCOMPLETION"@, "HADR_FILESTREAM_MANAGER"@)) by {
            reveal_strlit("HADR_FILESTREAM_IOMGR_IOCOMPLETION");
            reveal_strlit("HADR_FILESTREAM_MANAGER");
            reveal_with_fuel(name_lt_from, 18);
        }
    } else if r == 264 {
        assert(name_lt("HADR_FILESTREAM_MANAGER"@, "HADR_FILESTREAM_PREPROC"@)) by {
            reveal_strlit("HADR_FILESTREAM_MANAGER");
            reveal_strlit("HADR_FILESTREAM_PREPROC");
            reveal_with_fuel(name_lt_from, 18);
        }
    } else if r == 265 {
        assert(name_lt("HADR_FILESTREAM_PREPROC"@, "HADR_GROUP_COMMIT"@)) by {
            reveal_strlit("HADR_FILESTREAM_PREPROC");
            reveal_strlit("HADR_GROUP_COMMIT");
            reveal_with_fuel(name_lt_from, 7);
        }
    } else if r == 266 {
        assert(name_lt("HADR_GROUP_COMMIT"@, "HADR_LOGCAPTURE_SYNC"@)) by {
            reveal_strlit("HADR_GROUP_COMMIT");
            reveal_strlit("HADR_LOGCAPTURE_SYNC");
            reveal_with_fuel(name_lt_from, 7);
        }
    } else if r == 267 {
        assert(name_lt("HADR_LOGCAPTURE_SYNC"@, "HADR_LOGCAPTURE_WAIT"@)) by {
            reveal_strlit("HADR_LOGCAPTURE_SYNC");
            reveal_strlit("HADR_LOGCAPTURE_WAIT");
            reveal_with_fuel(name_lt_from, 18);
        }
    } else if r == 268 {
        assert(name_lt("HADR_LOGCAPTURE_WAIT"@, "HADR_LOGPROGRESS_SYNC"@)) by {
            reveal_strlit("HADR_LOGCAPTURE_WAIT");
            reveal_strlit("HADR_LOGPROGRESS_SYNC");
            reveal_with_fuel(name_lt_from, 10);
        }
    } else if r == 269 {
        assert(name_lt("HADR_LOGPROGRESS_SYNC"@, "HADR_NOTIFICATION_DEQUEUE"@)) by {
            reveal_strlit("HADR_LOGPROGRESS_SYNC");
            reveal_strlit("HADR_NOTIFICATION_DEQUEUE");
            reveal_with_fuel(name_lt_from, 7);
        }
    } else if r == 270 {
        assert(name_lt("HADR_NOTIFICATION_DEQUEUE"@, "HADR_NOTIFICATION_WORKER_EXCLUSIVE_ACCESS"@)) by {
            reveal_strlit("HADR_NOTIFICATION_DEQUEUE");
            reveal_strlit("HADR_NOTIFICATION_WORKER_EXCLUSIVE_ACCESS");
            reveal_with_fuel(name_lt_from, 20);
        }
    } else if r == 271 {
        assert(name_lt("HADR_NOTIFICATION_WORKER_EXCLUSIVE_ACCESS"@, "HADR_NOTIFICATION_WORKER_STARTUP_SYNC"@)) by {
            reveal_strlit("HADR_NOTIFICATION_WORKER_EXCLUSIVE_ACCESS");
            reveal_strlit("HADR_NOTIFICATION_WORKER_STARTUP_SYNC");
            reveal_with_fuel(name_lt_from, 27);
        }
    } else if r == 272 {
        assert(name_lt("HADR_NOTIFICATION_WORKER_STARTUP_SYNC"@, "HADR_NOTIFICATION_WORKER_TERMINATION_SYNC"@)) by {
            reveal_strlit("HADR_NOTIFICATION_WORKER_STARTUP_SYNC");
            reveal_strlit("HADR_NOTIFICATION_WORKER_TERMINATION_SYNC");
            reveal_with_fuel(name_lt_from, 27);
        }
    } else if r == 273 {
        assert(name_lt("HADR_NOTIFICATION_WORKER_TERMINATION_SYNC"@, "HADR_PARTNER_SYNC"@)) by {
            reveal_strlit("HADR_NOTIFICATION_WORKER_TERMINATION_SYNC");
            reveal_strlit("HADR_PARTNER_SYNC");
            reveal_with_fuel(name_lt_from, 7);
        }
    } else if r == 274 {
        assert(name_lt("HADR_PARTNER_SYNC"@, "HADR_READ_ALL_NETWORKS"@)) by {
            reveal_strlit("HADR_PARTNER_SYNC");
            reveal_strlit("HADR_READ_ALL_NETWORKS");
            reveal_with_fuel(name_lt_from, 7);
        }
    } else if r == 275 {
        assert(name_lt("HADR_READ_ALL_NETWORKS"@, "HADR_RECOVERY_WAIT_FOR_CONNECTION"@)) by {
            reveal_strlit("HADR_READ_ALL_NETWORKS");
            reveal_strlit("HADR_RECOVERY_WAIT_FOR_CONNECTION");
            reveal_with_fuel(name_lt_from, 9);
        }
    } else if r == 276 {
        assert(name_lt("HADR_RECOVERY_WAIT_FOR_CONNECTION"@, "HADR_RECOVERY_WAIT_FOR_UNDO"@)) by {
            reveal_strlit("HADR_RECOVERY_WAIT_FOR_CONNECTION");
            reveal_strlit("HADR_RECOVERY_WAIT_FOR_UNDO");
            reveal_with_fuel(name_lt_from, 25);
        }
    } else if r == 277 {
        assert(name_lt("HADR_RECOVERY_WAIT_FOR_UNDO"@, "HADR_REPLICAINFO_SYNC"@)) by {
            reveal_strlit("HADR_RECOVERY_WAIT_FOR_UNDO");
            reveal_strlit("HADR_REPLICAINFO_SYNC");
            reveal_with_fuel(name_lt_from, 9);
        }
    } else if r == 278 {
        assert(name_lt("HADR_REPLICAINFO_SYNC"@, "HADR_SEEDING_CANCELLATION"@)) by {
            reveal_strlit("HADR_REPLICAINFO_SYNC");
            reveal_strlit("HADR_SEEDING_CANCELLATION");
            reveal_with_fuel(name_lt_from, 7);
        }
    } else if r == 279 {
        assert(name_lt("HADR_SEEDING_CANCELLATION"@, "HADR_SEEDING_FILE_LIST"@)) by {
            reveal_strlit("HADR_SEEDING_CANCELLATION");
            reveal_strlit("HADR_SEEDING_FILE_LIST");
            reveal_with_fuel(name_lt_from, 15);
        }
    } else if r == 280 {
        assert(name_lt("HADR_SEEDING_FILE_LIST"@, "HADR_SEEDING_LIMIT_BACKUPS"@)) by {
            reveal_strlit("HADR_SEEDING_FILE_LIST");
            reveal_strlit("HADR_SEEDING_LIMIT_BACKUPS");
            reveal_with_fuel(name_lt_from, 15);
        }
    } else if r == 281 {
        assert(name_lt("HADR_SEEDING_LIMIT_BACKUPS"@, "HADR_SEEDING_SYNC_COMPLETION"@)) by {
            reveal_strlit("HADR_SEEDING_LIMIT_BACKUPS");
            reveal_strlit("HADR_SEEDING_SYNC_COMPLETION");
            reveal_with_fuel(name_lt_from, 15);
        }
    } else if r == 282 {
        assert(name_lt("HADR_SEEDING_SYNC_COMPLETION"@, "HADR_SEEDING_TIMEOUT_TASK"@)) by {
            reveal_strlit("HADR_SEEDING_SYNC_COMPLETION");
            reveal_strlit("HADR_SEEDING_TIMEOUT_TASK");
            reveal_with_fuel(name_lt_from, 15);
        }
    } else if r == 283 {
        assert(name_lt("HADR_SEEDING_TIMEOUT_TASK"@, "HADR_SEEDING_WAIT_FOR_COMPLETION"@)) by {
            reveal_strlit("HADR_SEEDING_TIMEOUT_TASK");
            reveal_strlit("HADR_SEEDING_WAIT_FOR_COMPLETION");
            reveal_with_fuel(name_lt_from, 15);
        }
    } else if r == 284 {
        assert(name_lt("HADR_SEEDING_WAIT_FOR_COMPLETION"@, "HADR_SYNCHRONIZING_THROTTLE"@)) by {
            reveal_strlit("HADR_SEEDING_WAIT_FOR_COMPLETION");
            reveal_strlit("HADR_SYNCHRONIZING_THROTTLE");
            reveal_with_fuel(name_lt_from, 8);
        }
    } else if r == 285 {
        assert(name_lt("HADR_SYNCHRONIZING_THROTTLE"@, "HADR_SYNC_COMMIT"@)) by {
            reveal_strlit("HADR_SYNCHRONIZING_THROTTLE");
            reveal_strlit("HADR_SYNC_COMMIT");
            reveal_with_fuel(name_lt_from, 11);
        }
    } else if r == 286 {
        assert(name_lt("HADR_SYNC_COMMIT"@, "HADR_TDS_LISTENER_SYNC"@)) by {
            reveal_strlit("HADR_SYNC_COMMIT");
            reveal_strlit("HADR_TDS_LISTENER_SYNC");
            reveal_with_fuel(name_lt_from, 7);
        }
    } else if r == 287 {
        assert(name_lt("HADR_TDS_LISTENER_SYNC"@, "HADR_TDS_LISTENER_SYNC_PROCESSING"@)) by {
            reveal_strlit("HADR_TDS_LISTENER_SYNC");
            reveal_strlit("HADR_TDS_LISTENER_SYNC_PROCESSING");
            reveal_with_fuel(name_lt_from, 24);
        }
    } else if r == 288 {
        assert(name_lt("HADR_TDS_LISTENER_SYNC_PROCESSING"@, "HADR_THROTTLE_LOG_RATE_GOVERNOR"@)) by {
            reveal_strlit("HADR_TDS_LISTENER_SYNC_PROCESSING");
            reveal_strlit("HADR_THROTTLE_LOG_RATE_GOVERNOR");
            reveal_with_fuel(name_lt_from, 8);
        }
    } else if r == 289 {
        assert(name_lt("HADR_THROTTLE_LOG_RATE_GOVERNOR"@, "HADR_THROTTLE_LOG_RATE_LOG_SIZE"@)) by {
            reveal_strlit("HADR_THROTTLE_LOG_RATE_GOVERNOR");
            reveal_strlit("HADR_THROTTLE_LOG_RATE_LOG_SIZE");
            reveal_with_fuel(name_lt_from, 25);
        }
    } else if r == 290 {
        assert(name_lt("HADR_THROTTLE_LOG_RATE_LOG_SIZE"@, "HADR_THROTTLE_LOG_RATE_MISMATCHED_SLO"@)) by {
            reveal_strlit("HADR_THROTTLE_LOG_RATE_LOG_SIZE");
            reveal_strlit("HADR_THROTTLE_LOG_RATE_MISMATCHED_SLO");
            reveal_with_fuel(name_lt_from, 25);
        }
    } else if r == 291 {
        assert(name_lt("HADR_THROTTLE_LOG_RATE_MISMATCHED_SLO"@, "HADR_THROTTLE_LOG_RATE_SEEDING"@)) by {
            reveal_strlit("HADR_THROTTLE_LOG_RATE_MISMATCHED_SLO");
            reveal_strlit("HADR_THROTTLE_LOG_RATE_SEEDING");
            reveal_with_fuel(name_lt_from, 25);
        }
    } else if r == 292 {
        assert(name_lt("HADR_THROTTLE_LOG_RATE_SEEDING"@, "HADR_THROTTLE_LOG_RATE_SEND_RECV_QUEUE_SIZE"@)) by {
            reveal_strlit("HADR_THROTTLE_LOG_RATE_SEEDING");
            reveal_strlit("HADR_THROTTLE_LOG_RATE_SEND_RECV_QUEUE_SIZE");
            reveal_with_fuel(name_lt_from, 27);
        }
    } else if r == 293 {
        assert(name_lt("HADR_THROTTLE_LOG_RATE_SEND_RECV_QUEUE_SIZE"@, "HADR_TIMER_TASK"@)) by {
            reveal_strlit("HADR_THROTTLE_LOG_RATE_SEND_RECV_QUEUE_SIZE");
            reveal_strlit("HADR_TIMER_TASK");
            reveal_with_fuel(name_lt_from, 8);
        }
    } else if r == 294 {
        assert(name_lt("HADR_TIMER_TASK"@, "HADR_TRANSPORT_DBRLIST"@)) by {
            reveal_strlit("HADR_TIMER_TASK");
            reveal_strlit("HADR_TRANSPORT_DBRLIST");
            reveal_with_fuel(name_lt_from, 8);
        }
    } else if r == 295 {
        assert(name_lt("HADR_TRANSPORT_DBRLIST"@, "HADR_TRANSPORT_FLOW_CONTROL"@)) by {
            reveal_strlit("HADR_TRANSPORT_DBRLIST");
            reveal_strlit("HADR_TRANSPORT_FLOW_CONTROL");
            reveal_with_fuel(name_lt_from, 17);
        }
    } else if r == 296 {
        assert(name_lt("HADR_TRANSPORT_FLOW_CONTROL"@, "HADR_TRANSPORT_SESSION"@)) by {
            reveal_strlit("HADR_TRANSPORT_FLOW_CONTROL");
            reveal_strlit("HADR_TRANSPORT_SESSION");
            reveal_with_fuel(name_lt_from, 17);
        }
    } else if r == 297 {
        assert(name_lt("HADR_TRANSPORT_SESSION"@, "HADR_WORK_POOL"@)) by {
            reveal_strlit("HADR_TRANSPORT_SESSION");
            reveal_strlit("HADR_WORK_POOL");
            reveal_with_fuel(name_lt_from, 7);
        }
    } else if r == 298 {
        assert(name_lt("HADR_WORK_POOL"@, "HADR_WORK_QUEUE"@)) by {
            reveal_strlit("HADR_WORK_POOL");
            reveal_strlit("HADR_WORK_QUEUE");
            reveal_with_fuel(name_lt_from, 12);
        }
    } else if r == 299 {
        assert(name_lt("HADR_WORK_QUEUE"@, "HADR_XRF_STACK_ACCESS"@)) by {
            reveal_strlit("HADR_WORK_QUEUE");
            reveal_strlit("HADR_XRF_STACK_ACCESS");
            reveal_with_fuel(name_lt_from, 7);
        }
    }
}

/// A wait type of part 6 has its place in that part, and the list has its
/// name at that place.
#[verifier::rlimit(60)]
proof fn lemma_rank_in_part_6(w: WaitType)
    requires
        in_part_6(w),
    ensures
        300 <= wait_type_rank(w) < 350,
        wait_type_at(wait_type_rank(w)) == w,
        name_at(wait_type_rank(w)) == wait_type_name(w),
        is_listed_wait_type(wait_type_name(w)),
{
    reveal(rank_in_part_6);
    reveal(ranked_in_part_6);
    reveal(name_in_part_6);
    reveal(listed_name_6);
    lemma_name_in_part_6(w);
}

/// The names at places 300 to 349 of the list are each followed by a greater one.
proof fn lemma_sorted_in_part_6(r: int)
    requires
        300 <= r < 350,
    ensures
        name_lt(name_at(r), name_at(r + 1)),
{
    reveal(name_in_part_6);
    reveal(name_in_part_7);
    if r == 300 {
        assert(name_lt("HADR_XRF_STACK_ACCESS"@, "HCCO_CACHE"@)) by {
            reveal_strlit("HADR_XRF_STACK_ACCESS");
            reveal_strlit("HCCO_CACHE");
            reveal_with_fuel(name_lt_from, 3);
        }
    } else if r == 301 {
        assert(name_lt("HCCO_CACHE"@, "HKCS_PARALLEL_MIGRATION"@)) by {
            reveal_strlit("HCCO_CACHE");
            reveal_strlit("HKCS_PARALLEL_MIGRATION");
            reveal_with_fuel(name_lt_from, 3);
        }
    } else if r == 302 {
        assert(name_lt("HKCS_PARALLEL_MIGRATION"@, "HKCS_PARALLEL_RECOVERY"@)) by {
            reveal_strlit("HKCS_PARALLEL_MIGRATION");
            reveal_strlit("HKCS_PARALLEL_RECOVERY");
            reveal_with_fuel(name_lt_from, 16);
        }
    } else if r == 303 {
        assert(name_lt("HKCS_PARALLEL_RECOVERY"@, "HK_RESTORE_FILEMAP"@)) by {
            reveal_strlit("HKCS_PARALLEL_RECOVERY");
            reveal_strlit("HK_RESTORE_FILEMAP");
            reveal_with_fuel(name_lt_from, 4);
        }
    } else if r == 304 {
        assert(name_lt("HK_RESTORE_FILEMAP"@, "HTBUILD"@)) by {
            reveal_strlit("HK_RESTORE_FILEMAP");
            reveal_strlit("HTBUILD");
            reveal_with_fuel(name_lt_from, 3);
        }
    } else if r == 305 {
        assert(name_lt("HTBUILD"@, "HTBUILD_AGG"@)) by {
            reveal_strlit("HTBUILD");
            reveal_strlit("HTBUILD_AGG");
            reveal_with_fuel(name_lt_from, 9);
        }
    } else if r == 306 {
        assert(name_lt("HTBUILD_AGG"@, "HTBUILD_JOIN"@)) by {
            reveal_strlit("HTBUILD_AGG");
            reveal_strlit("HTBUILD_JOIN");
            reveal_with_fuel(name_lt_from, 10);
        }
    } else if r == 307 {
        assert(name_lt("HTBUILD_JOIN"@, "HTDELETE"@)) by {
            reveal_strlit("HTBUILD_JOIN");
            reveal_strlit("HTDELETE");
            reveal_with_fuel(name_lt_from, 4);
        }
    } else if r == 308 {
        assert(name_lt("HTDELETE"@, "HTDELETE_AGG"@)) by {
            reveal_strlit("HTDELETE");
            reveal_strlit("HTDELETE_AGG");
            reveal_with_fuel(name_lt_from, 10);
        }
    } else if r == 309 {
        assert(name_lt("HTDELETE_AGG"@, "HTDELETE_JOIN"@)) by {
            reveal_strlit("HTDELETE_AGG");
            reveal_strlit("HTDELETE_JOIN");
            reveal_with_fuel(name_lt_from, 11);
        }
    } else if r == 310 {
        assert(name_lt("HTDELETE_JOIN"@, "HTMEMO"@)) by {
            reveal_strlit("HTDELETE_JOIN");
            reveal_strlit("HTMEMO");
            reveal_with_fuel(name_lt_from, 4);
        }
    } else if r == 311 {
        assert(name_lt("HTMEMO"@, "HTREINIT"@)) by {
            reveal_strlit("HTMEMO");
            reveal_strlit("HTREINIT");
            reveal_with_fuel(name_lt_from, 4);
        }
    } else if r == 312 {
        assert(name_lt("HTREINIT"@, "HTREPARTITION"@)) by {
            reveal_strlit("HTREINIT");
            reveal_strlit("HTREPARTITION");
            reveal_with_fuel(name_lt_from, 6);
        }
    } else if r == 313 {
        assert(name_lt("HTREPARTITION"@, "HTTP_ENUMERATION"@)) by {
            reveal_strlit("HTREPARTITION");
            reveal_strlit("HTTP_ENUMERATION");
            reveal_with_fuel(name_lt_from, 4);
        }
    } else if r == 314 {
        assert(name_lt("HTTP_ENUMERATION"@, "HTTP_START"@)) by {
            reveal_strlit("HTTP_ENUMERATION");
            reveal_strlit("HTTP_START");
            reveal_with_fuel(name_lt_from, 7);
        }
    } else if r == 315 {
        assert(name_lt("HTTP_START"@, "HTTP_STORAGE_CONNECTION"@)) by {
            reveal_strlit("HTTP_START");
            reveal_strlit("HTTP_STORAGE_CONNECTION");
            reveal_with_fuel(name_lt_from, 9);
        }
    } else if r == 316 {
        assert(name_lt("HTTP_STORAGE_CONNECTION"@, "IMPPROV_IOWAIT"@)) by {
            reveal_strlit("HTTP_STORAGE_CONNECTION");
            reveal_strlit("IMPPROV_IOWAIT");
            reveal_with_fuel(name_lt_from, 2);
        }
    } else if r == 317 {
        assert(name_lt("IMPPROV_IOWAIT"@, "INSTANCE_LOG_RATE_GOVERNOR"@)) by {
            reveal_strlit("IMPPROV_IOWAIT");
            reveal_strlit("INSTANCE_LOG_RATE_GOVERNOR");
            reveal_with_fuel(name_lt_from, 3);
        }
    } else if r == 318 {
        assert(name_lt("INSTANCE_LOG_RATE_GOVERNOR"@, "INTERNAL_TESTING"@)) by {
            reveal_strlit("INSTANCE_LOG_RATE_GOVERNOR");
            reveal_strlit("INTERNAL_TESTING");
            reveal_with_fuel(name_lt_from, 4);
        }
    } else if r == 319 {
        assert(name_lt("INTERNAL_TESTING"@, "IOAFF_RANGE_QUEUE"@)) by {
            reveal_strlit("INTERNAL_TESTING");
            reveal_strlit("IOAFF_RANGE_QUEUE");
            reveal_with_fuel(name_lt_from, 3);
        }
    } else if r == 320 {
        assert(name_lt("IOAFF_RANGE_QUEUE"@, "IO_AUDIT_MUTEX"@)) by {
            reveal_strlit("IOAFF_RANGE_QUEUE");
            reveal_strlit("IO_AUDIT_MUTEX");
            reveal_with_fuel(name_lt_from, 4);
        }
    } else if r == 321 {
        assert(name_lt("IO_AUDIT_MUTEX"@, "IO_COMPLETION"@)) by {
            reveal_strlit("IO_AUDIT_MUTEX");
            reveal_strlit("IO_COMPLETION");
            reveal_with_fuel(name_lt_from, 5);
        }
    } else if r == 322 {
        assert(name_lt("IO_COMPLETION"@, "IO_QUEUE_LIMIT"@)) by {
            reveal_strlit("IO_COMPLETION");
            reveal_strlit("IO_QUEUE_LIMIT");
            reveal_with_fuel(name_lt_from, 5);
        }
    } else if r == 323 {
        assert(name_lt("IO_QUEUE_LIMIT"@, "IO_RETRY"@)) by {
            reveal_strlit("IO_QUEUE_LIMIT");
            reveal_strlit("IO_RETRY");
            reveal_with_fuel(name_lt_from, 5);
        }
    } else if r == 324 {
        assert(name_lt("IO_RETRY"@, "KSOURCE_WAKEUP"@)) by {
            reveal_strlit("IO_RETRY");
            reveal_strlit("KSOURCE_WAKEUP");
            reveal_with_fuel(name_lt_from, 2);
        }
    } else if r == 325 {
        assert(name_lt("KSOURCE_WAKEUP"@, "KTM_ENLISTMENT"@)) by {
            reveal_strlit("KSOURCE_WAKEUP");
            reveal_strlit("KTM_ENLISTMENT");
            reveal_with_fuel(name_lt_from, 3);
        }
    } else if r == 326 {
        assert(name_lt("KTM_ENLISTMENT"@, "KTM_RECOVERY_MANAGER"@)) by {
            reveal_strlit("KTM_ENLISTMENT");
            reveal_strlit("KTM_RECOVERY_MANAGER");
            reveal_with_fuel(name_lt_from, 6);
        }
    } else if r == 327 {
        assert(name_lt("KTM_RECOVERY_MANAGER"@, "KTM_RECOVERY_RESOLUTION"@)) by {
            reveal_strlit("KTM_RECOVERY_MANAGER");
            reveal_strlit("KTM_RECOVERY_RESOLUTION");
            reveal_with_fuel(name_lt_from, 15);
        }
    } else if r == 328 {
        assert(name_lt("KTM_RECOVERY_RESOLUTION"@, "LATCH_DT"@)) by {
            reveal_strlit("KTM_RECOVERY_RESOLUTION");
            reveal_strlit("LATCH_DT");
            reveal_with_fuel(name_lt_from, 2);
        }
    } else if r == 329 {
        assert(name_lt("LATCH_DT"@, "LATCH_EX"@)) by {
            reveal_strlit("LATCH_DT");
            reveal_strlit("LATCH_EX");
            reveal_with_fuel(name_lt_from, 8);
        }
    } else if r == 330 {
        assert(name_lt("LATCH_EX"@, "LATCH_KP"@)) by {
            reveal_strlit("LATCH_EX");
            reveal_strlit("LATCH_KP");
            reveal_with_fuel(name_lt_from, 8);
        }
    } else if r == 331 {
        assert(name_lt("LATCH_KP"@, "LATCH_NL"@)) by {
            reveal_strlit("LATCH_KP");
            reveal_strlit("LATCH_NL");
            reveal_with_fuel(name_lt_from, 8);
        }
    } else if r == 332 {
        assert(name_lt("LATCH_NL"@, "LATCH_SH"@)) by {
            reveal_strlit("LATCH_NL");
            reveal_strlit("LATCH_SH");
            reveal_with_fuel(name_lt_from, 8);
        }
    } else if r == 333 {
        assert(name_lt("LATCH_SH"@, "LATCH_UP"@)) by {
            reveal_strlit("LATCH_SH");
            reveal_strlit("LATCH_UP");
            reveal_with_fuel(name_lt_from, 8);
        }
    } else if r == 334 {
        assert(name_lt("LATCH_UP"@, "LAZYWRITER_SLEEP"@)) by {
            reveal_strlit("LATCH_UP");
            reveal_strlit("LAZYWRITER_SLEEP");
            reveal_with_fuel(name_lt_from, 4);
        }
    } else if r == 335 {
        assert(name_lt("LAZYWRITER_SLEEP"@, "LCK_M_BU"@)) by {
            reveal_strlit("LAZYWRITER_SLEEP");
            reveal_strlit("LCK_M_BU");
            reveal_with_fuel(name_lt_from, 3);
        }
    } else if r == 336 {
        assert(name_lt("LCK_M_BU"@, "LCK_M_BU_ABORT_BLOCKERS"@)) by {
            reveal_strlit("LCK_M_BU");
            reveal_strlit("LCK_M_BU_ABORT_BLOCKERS");
            reveal_with_fuel(name_lt_from, 10);
        }
    } else if r == 337 {
        assert(name_lt("LCK_M_BU_ABORT_BLOCKERS"@, "LCK_M_BU_LOW_PRIORITY"@)) by {
            reveal_strlit("LCK_M_BU_ABORT_BLOCKERS");
            reveal_strlit("LCK_M_BU_LOW_PRIORITY");
            reveal_with_fuel(name_lt_from, 11);
        }
    } else if r == 338 {
        assert(name_lt("LCK_M_BU_LOW_PRIORITY"@, "LCK_M_IS"@)) by {
            reveal_strlit("LCK_M_BU_LOW_PRIORITY");
            reveal_strlit("LCK_M_IS");
            reveal_with_fuel(name_lt_from, 8);
        }
    } else if r == 339 {
        assert(name_lt("LCK_M_IS"@, "LCK_M_IS_ABORT_BLOCKERS"@)) by {
            reveal_strlit("LCK_M_IS");
            reveal_strlit("LCK_M_IS_ABORT_BLOCKERS");
            reveal_with_fuel(name_lt_from, 10);
        }
    } else if r == 340 {
        assert(name_lt("LCK_M_IS_ABORT_BLOCKERS"@, "LCK_M_IS_LOW_PRIORITY"@)) by {
            reveal_strlit("LCK_M_IS_ABORT_BLOCKERS");
            reveal_strlit("LCK_M_IS_LOW_PRIORITY");
            reveal_with_fuel(name_lt_from, 11);
        }
    } else if r == 341 {
        assert(name_lt("LCK_M_IS_LOW_PRIORITY"@, "LCK_M_IU"@)) by {
            reveal_strlit("LCK_M_IS_LOW_PRIORITY");
            reveal_strlit("LCK_M_IU");
            reveal_with_fuel(name_lt_from, 9);
        }
    } else if r == 342 {
        assert(name_lt("LCK_M_IU"@, "LCK_M_IU_ABORT_BLOCKERS"@)) by {
            reveal_strlit("LCK_M_IU");
            reveal_strlit("LCK_M_IU_ABORT_BLOCKERS");
            reveal_with_fuel(name_lt_from, 10);
        }
    } else if r == 343 {
        assert(name_lt("LCK_M_IU_ABORT_BLOCKERS"@, "LCK_M_IU_LOW_PRIORITY"@)) by {
            reveal_strlit("LCK_M_IU_ABORT_BLOCKERS");
            reveal_strlit("LCK_M_IU_LOW_PRIORITY");
            reveal_with_fuel(name_lt_from, 11);
        }
    } else if r == 344 {
        assert(name_lt("LCK_M_IU_LOW_PRIORITY"@, "LCK_M_IX"@)) by {
            reveal_strlit("LCK_M_IU_LOW_PRIORITY");
            reveal_strlit("LCK_M_IX");
            reveal_with_fuel(name_lt_from, 9);
        }
    } else if r == 345 {
        assert(name_lt("LCK_M_IX"@, "LCK_M_IX_ABORT_BLOCKERS"@)) by {
            reveal_strlit("LCK_M_IX");
            reveal_strlit("LCK_M_IX_ABORT_BLOCKERS");
            reveal_with_fuel(name_lt_from, 10);
        }
    } else if r == 346 {
        assert(name_lt("LCK_M_IX_ABORT_BLOCKERS"@, "LCK_M_IX_LOW_PRIORITY"@)) by {
            reveal_strlit("LCK_M_IX_ABORT_BLOCKERS");
            reveal_strlit("LCK_M_IX_LOW_PRIORITY");
            reveal_with_fuel(name_lt_from, 11);
        }
    } else if r == 347 {
        assert(name_lt("LCK_M_IX_LOW_PRIORITY"@, "LCK_M_RIn_NL"@)) by {
            reveal_strlit("LCK_M_IX_LOW_PRIORITY");
            reveal_strlit("LCK_M_RIn_NL");
            reveal_with_fuel(name_lt_from, 8);
        }
    } else if r == 348 {
        assert(name_lt("LCK_M_RIn_NL"@, "LCK_M_RIn_NL_ABORT_BLOCKERS"@)) by {
            reveal_strlit("LCK_M_RIn_NL");
            reveal_strlit("LCK_M_RIn_NL_ABORT_BLOCKERS");
            reveal_with_fuel(name_lt_from, 14);
        }
    } else if r == 349 {
        assert(name_lt("LCK_M_RIn_NL_ABORT_BLOCKERS"@, "LCK_M_RIn_NL_LOW_PRIORITY"@)) by {
            reveal_strlit("LCK_M_RIn_NL_ABORT_BLOCKERS");
            reveal_strlit("LCK_M_RIn_NL_LOW_PRIORITY");
            reveal_with_fuel(name_lt_from, 15);
        }
    }
}

/// A wait type of part 7 has its place in that part, and the list has its
/// name at that place.
#[verifier::rlimit(60)]
proof fn lemma_rank_in_part_7(w: WaitType)
    requires
        in_part_7(w),
    ensures
        350 <= wait_type_rank(w) < 400,
        wait_type_at(wait_type_rank(w)) == w,
        name_at(wait_type_rank(w)) == wait_type_name(w),
        is_listed_wait_type(wait_type_name(w)),
{
    reveal(rank_in_part_7);
    reveal(ranked_in_part_7);
    reveal(name_in_part_7);
    reveal(listed_name_7);
    lemma_name_in_part_7(w);
}

/// The names at places 350 to 399 of the list are each followed by a greater one.
proof fn lemma_sorted_in_part_7(r: int)
    requires
        350 <= r < 400,
    ensures
        name_lt(name_at(r), name_at(r + 1)),
{
    reveal(name_in_part_7);
    reveal(name_in_part_8);
    if r == 350 {
        assert(name_lt("LCK_M_RIn_NL_LOW_PRIORITY"@, "LCK_M_RIn_S"@)) by {
            reveal_strlit("LCK_M_RIn_NL_LOW_PRIORITY");
            reveal_strlit("LCK_M_RIn_S");
            reveal_with_fuel(name_lt_from, 12);
        }
    } else if r == 351 {
        assert(name_lt("LCK_M_RIn_S"@, "LCK_M_RIn_S_ABORT_BLOCKERS"@)) by {
            reveal_strlit("LCK_M_RIn_S");
            reveal_strlit("LCK_M_RIn_S_ABORT_BLOCKERS");
            reveal_with_fuel(name_lt_from, 13);
        }
    } else if r == 352 {
        assert(name_lt("LCK_M_RIn_S_ABORT_BLOCKERS"@, "LCK_M_RIn_S_LOW_PRIORITY"@)) by {
            reveal_strlit("LCK_M_RIn_S_ABORT_BLOCKERS");
            reveal_strlit("LCK_M_RIn_S_LOW_PRIORITY");
            reveal_with_fuel(name_lt_from, 14);
        }
    } else if r == 353 {
        assert(name_lt("LCK_M_RIn_S_LOW_PRIORITY"@, "LCK_M_RIn_U"@)) by {
            reveal_strlit("LCK_M_RIn_S_LOW_PRIORITY");
            reveal_strlit("LCK_M_RIn_U");
            reveal_with_fuel(name_lt_from, 12);
        }
    } else if r == 354 {
        assert(name_lt("LCK_M_RIn_U"@, "LCK_M_RIn_U_ABORT_BLOCKERS"@)) by {
            reveal_strlit("LCK_M_RIn_U");
            reveal_strlit("LCK_M_RIn_U_ABORT_BLOCKERS");
            reveal_with_fuel(name_lt_from, 13);
        }
    } else if r == 355 {
        assert(name_lt("LCK_M_RIn_U_ABORT_BLOCKERS"@, "LCK_M_RIn_U_LOW_PRIORITY"@)) by {
            reveal_strlit("LCK_M_RIn_U_ABORT_BLOCKERS");
            reveal_strlit("LCK_M_RIn_U_LOW_PRIORITY");
            reveal_with_fuel(name_lt_from, 14);
        }
    } else if r == 356 {
        assert(name_lt("LCK_M_RIn_U_LOW_PRIORITY"@, "LCK_M_RIn_X"@)) by {
            reveal_strlit("LCK_M_RIn_U_LOW_PRIORITY");
            reveal_strlit("LCK_M_RIn_X");
            reveal_with_fuel(name_lt_from, 12);
        }
    } else if r == 357 {
        assert(name_lt("LCK_M_RIn_X"@, "LCK_M_RIn_X_ABORT_BLOCKERS"@)) by {
            reveal_strlit("LCK_M_RIn_X");
            reveal_strlit("LCK_M_RIn_X_ABORT_BLOCKERS");
            reveal_with_fuel(name_lt_from, 13);
        }
    } else if r == 358 {
        assert(name_lt("LCK_M_RIn_X_ABORT_BLOCKERS"@, "LCK_M_RIn_X_LOW_PRIORITY"@)) by {
            reveal_strlit("LCK_M_RIn_X_ABORT_BLOCKERS");
            reveal_strlit("LCK_M_RIn_X_LOW_PRIORITY");
            reveal_with_fuel(name_lt_from, 14);
        }
    } else if r == 359 {
        assert(name_lt("LCK_M_RIn_X_LOW_PRIORITY"@, "LCK_M_RS_S"@)) by {
            reveal_strlit("LCK_M_RIn_X_LOW_PRIORITY");
            reveal_strlit("LCK_M_RS_S");
            reveal_with_fuel(name_lt_from, 9);
        }
    } else if r == 360 {
        assert(name_lt("LCK_M_RS_S"@, "LCK_M_RS_S_ABORT_BLOCKERS"@)) by {
            reveal_strlit("LCK_M_RS_S");
            reveal_strlit("LCK_M_RS_S_ABORT_BLOCKERS");
            reveal_with_fuel(name_lt_from, 12);
        }
    } else if r == 361 {
        assert(name_lt("LCK_M_RS_S_ABORT_BLOCKERS"@, "LCK_M_RS_S_LOW_PRIORITY"@)) by {
            reveal_strlit("LCK_M_RS_S_ABORT_BLOCKERS");
            reveal_strlit("LCK_M_RS_S_LOW_PRIORITY");
            reveal_with_fuel(name_lt_from, 13);
        }
    } else if r == 362 {
        assert(name_lt("LCK_M_RS_S_LOW_PRIORITY"@, "LCK_M_RS_U"@)) by {
            reveal_strlit("LCK_M_RS_S_LOW_PRIORITY");
            reveal_strlit("LCK_M_RS_U");
            reveal_with_fuel(name_lt_from, 11);
        }
    } else if r == 363 {
        assert(name_lt("LCK_M_RS_U"@, "LCK_M_RS_U_ABORT_BLOCKERS"@)) by {
            reveal_strlit("LCK_M_RS_U");
            reveal_strlit("LCK_M_RS_U_ABORT_BLOCKERS");
            reveal_with_fuel(name_lt_from, 12);
        }
    } else if r == 364 {
        assert(name_lt("LCK_M_RS_U_ABORT_BLOCKERS"@, "LCK_M_RS_U_LOW_PRIORITY"@)) by {
            reveal_strlit("LCK_M_RS_U_ABORT_BLOCKERS");
            reveal_strlit("LCK_M_RS_U_LOW_PRIORITY");
            reveal_with_fuel(name_lt_from, 13);
        }
    } else if r == 365 {
        assert(name_lt("LCK_M_RS_U_LOW_PRIORITY"@, "LCK_M_RX_S"@)) by {
            reveal_strlit("LCK_M_RS_U_LOW_PRIORITY");
            reveal_strlit("LCK_M_RX_S");
            reveal_with_fuel(name_lt_from, 9);
        }
    } else if r == 366 {
        assert(name_lt("LCK_M_RX_S"@, "LCK_M_RX_S_ABORT_BLOCKERS"@)) by {
            reveal_strlit("LCK_M_RX_S");
            reveal_strlit("LCK_M_RX_S_ABORT_BLOCKERS");
            reveal_with_fuel(name_lt_from, 12);
        }
    } else if r == 367 {
        assert(name_lt("LCK_M_RX_S_ABORT_BLOCKERS"@, "LCK_M_RX_S_LOW_PRIORITY"@)) by {
            reveal_strlit("LCK_M_RX_S_ABORT_BLOCKERS");
            reveal_strlit("LCK_M_RX_S_LOW_PRIORITY");
            reveal_with_fuel(name_lt_from, 13);
        }
    } else if r == 368 {
        assert(name_lt("LCK_M_RX_S_LOW_PRIORITY"@, "LCK_M_RX_U"@)) by {
            reveal_strlit("LCK_M_RX_S_LOW_PRIORITY");
            reveal_strlit("LCK_M_RX_U");
            reveal_with_fuel(name_lt_from, 11);
        }
    } else if r == 369 {
        assert(name_lt("LCK_M_RX_U"@, "LCK_M_RX_U_ABORT_BLOCKERS"@)) by {
            reveal_strlit("LCK_M_RX_U");
            reveal_strlit("LCK_M_RX_U_ABORT_BLOCKERS");
            reveal_with_fuel(name_lt_from, 12);
        }
    } else if r == 370 {
        assert(name_lt("LCK_M_RX_U_ABORT_BLOCKERS"@, "LCK_M_RX_U_LOW_PRIORITY"@)) by {
            reveal_strlit("LCK_M_RX_U_ABORT_BLOCKERS");
            reveal_strlit("LCK_M_RX_U_LOW_PRIORITY");
            reveal_with_fuel(name_lt_from, 13);
        }
    } else if r == 371 {
        assert(name_lt("LCK_M_RX_U_LOW_PRIORITY"@, "LCK_M_RX_X"@)) by {
            reveal_strlit("LCK_M_RX_U_LOW_PRIORITY");
            reveal_strlit("LCK_M_RX_X");
            reveal_with_fuel(name_lt_from, 11);
        }
    } else if r == 372 {
        assert(name_lt("LCK_M_RX_X"@, "LCK_M_RX_X_ABORT_BLOCKERS"@)) by {
            reveal_strlit("LCK_M_RX_X");
            reveal_strlit("LCK_M_RX_X_ABORT_BLOCKERS");
            reveal_with_fuel(name_lt_from, 12);
        }
    } else if r == 373 {
        assert(name_lt("LCK_M_RX_X_ABORT_BLOCKERS"@, "LCK_M_RX_X_LOW_PRIORITY"@)) by {
            reveal_strlit("LCK_M_RX_X_ABORT_BLOCKERS");
            reveal_strlit("LCK_M_RX_X_LOW_PRIORITY");
            reveal_with_fuel(name_lt_from, 13);
        }
    } else if r == 374 {
        assert(name_lt("LCK_M_RX_X_LOW_PRIORITY"@, "LCK_M_S"@)) by {
            reveal_strlit("LCK_M_RX_X_LOW_PRIORITY");
            reveal_strlit("LCK_M_S");
            reveal_with_fuel(name_lt_from, 8);
        }
    } else if r == 375 {
        assert(name_lt("LCK_M_S"@, "LCK_M_SCH_M"@)) by {
            reveal_strlit("LCK_M_S");
            reveal_strlit("LCK_M_SCH_M");
            reveal_with_fuel(name_lt_from, 9);
        }
    } else if r == 376 {
        assert(name_lt("LCK_M_SCH_M"@, "LCK_M_SCH_M_ABORT_BLOCKERS"@)) by {
            reveal_strlit("LCK_M_SCH_M");
            reveal_strlit("LCK_M_SCH_M_ABORT_BLOCKERS");
            reveal_with_fuel(name_lt_from, 13);
        }
    } else if r == 377 {
        assert(name_lt("LCK_M_SCH_M_ABORT_BLOCKERS"@, "LCK_M_SCH_M_LOW_PRIORITY"@)) by {
            reveal_strlit("LCK_M_SCH_M_ABORT_BLOCKERS");
            reveal_strlit("LCK_M_SCH_M_LOW_PRIORITY");
            reveal_with_fuel(name_lt_from, 14);
        }
    } else if r == 378 {
        assert(name_lt("LCK_M_SCH_M_LOW_PRIORITY"@, "LCK_M_SCH_S"@)) by {
            reveal_strlit("LCK_M_SCH_M_LOW_PRIORITY");
            reveal_strlit("LCK_M_SCH_S");
            reveal_with_fuel(name_lt_from, 12);
        }
    } else if r == 379 {
        assert(name_lt("LCK_M_SCH_S"@, "LCK_M_SCH_S_ABORT_BLOCKERS"@)) by {
            reveal_strlit("LCK_M_SCH_S");
            reveal_strlit("LCK_M_SCH_S_ABORT_BLOCKERS");
            reveal_with_fuel(name_lt_from, 13);
        }
    } else if r == 380 {
        assert(name_lt("LCK_M_SCH_S_ABORT_BLOCKERS"@, "LCK_M_SCH_S_LOW_PRIORITY"@)) by {
            reveal_strlit("LCK_M_SCH_S_ABORT_BLOCKERS");
            reveal_strlit("LCK_M_SCH_S_LOW_PRIORITY");
            reveal_with_fuel(name_lt_from, 14);
        }
    } else if r == 381 {
        assert(name_lt("LCK_M_SCH_S_LOW_PRIORITY"@, "LCK_M_SIU"@)) by {
            reveal_strlit("LCK_M_SCH_S_LOW_PRIORITY");
            reveal_strlit("LCK_M_SIU");
            reveal_with_fuel(name_lt_from, 9);
        }
    } else if r == 382 {
        assert(name_lt("LCK_M_SIU"@, "LCK_M_SIU_ABORT_BLOCKERS"@)) by {
            reveal_strlit("LCK_M_SIU");
            reveal_strlit("LCK_M_SIU_ABORT_BLOCKERS");
            reveal_with_fuel(name_lt_from, 11);
        }
    } else if r == 383 {
        assert(name_lt("LCK_M_SIU_ABORT_BLOCKERS"@, "LCK_M_SIU_LOW_PRIORITY"@)) by {
            reveal_strlit("LCK_M_SIU_ABORT_BLOCKERS");
            reveal_strlit("LCK_M_SIU_LOW_PRIORITY");
            reveal_with_fuel(name_lt_from, 12);
        }
    } else if r == 384 {
        assert(name_lt("LCK_M_SIU_LOW_PRIORITY"@, "LCK_M_SIX"@)) by {
            reveal_strlit("LCK_M_SIU_LOW_PRIORITY");
            reveal_strlit("LCK_M_SIX");
            reveal_with_fuel(name_lt_from, 10);
        }
    } else if r == 385 {
        assert(name_lt("LCK_M_SIX"@, "LCK_M_SIX_ABORT_BLOCKERS"@)) by {
            reveal_strlit("LCK_M_SIX");
            reveal_strlit("LCK_M_SIX_ABORT_BLOCKERS");
            reveal_with_fuel(name_lt_from, 11);
        }
    } else if r == 386 {
        assert(name_lt("LCK_M_SIX_ABORT_BLOCKERS"@, "LCK_M_SIX_LOW_PRIORITY"@)) by {
            reveal_strlit("LCK_M_SIX_ABORT_BLOCKERS");
            reveal_strlit("LCK_M_SIX_LOW_PRIORITY");
            reveal_with_fuel(name_lt_from, 12);
        }
    } else if r == 387 {
        assert(name_lt("LCK_M_SIX_LOW_PRIORITY"@, "LCK_M_S_ABORT_BLOCKERS"@)) by {
            reveal_strlit("LCK_M_SIX_LOW_PRIORITY");
            reveal_strlit("LCK_M_S_ABORT_BLOCKERS");
            reveal_with_fuel(name_lt_from, 9);
        }
    } else if r == 388 {
        assert(name_lt("LCK_M_S_ABORT_BLOCKERS"@, "LCK_M_S_LOW_PRIORITY"@)) by {
            reveal_strlit("LCK_M_S_ABORT_BLOCKERS");
            reveal_strlit("LCK_M_S_LOW_PRIORITY");
            reveal_with_fuel(name_lt_from, 10);
        }
    } else if r == 389 {
        assert(name_lt("LCK_M_S_LOW_PRIORITY"@, "LCK_M_S_XACT"@)) by {
            reveal_strlit("LCK_M_S_LOW_PRIORITY");
            reveal_strlit("LCK_M_S_XACT");
            reveal_with_fuel(name_lt_from, 10);
        }
    } else if r == 390 {
        assert(name_lt("LCK_M_S_XACT"@, "LCK_M_S_XACT_MODIFY"@)) by {
            reveal_strlit("LCK_M_S_XACT");
            reveal_strlit("LCK_M_S_XACT_MODIFY");
            reveal_with_fuel(name_lt_from, 14);
        }
    } else if r == 391 {
        assert(name_lt("LCK_M_S_XACT_MODIFY"@, "LCK_M_S_XACT_READ"@)) by {
            reveal_strlit("LCK_M_S_XACT_MODIFY");
            reveal_strlit("LCK_M_S_XACT_READ");
            reveal_with_fuel(name_lt_from, 15);
        }
    } else if r == 392 {
        assert(name_lt("LCK_M_S_XACT_READ"@, "LCK_M_U"@)) by {
            reveal_strlit("LCK_M_S_XACT_READ");
            reveal_strlit("LCK_M_U");
            reveal_with_fuel(name_lt_from, 8);
        }
    } else if r == 393 {
        assert(name_lt("LCK_M_U"@, "LCK_M_UIX"@)) by {
            reveal_strlit("LCK_M_U");
            reveal_strlit("LCK_M_UIX");
            reveal_with_fuel(name_lt_from, 9);
        }
    } else if r == 394 {
        assert(name_lt("LCK_M_UIX"@, "LCK_M_UIX_ABORT_BLOCKERS"@)) by {
            reveal_strlit("LCK_M_UIX");
            reveal_strlit("LCK_M_UIX_ABORT_BLOCKERS");
            reveal_with_fuel(name_lt_from, 11);
        }
    } else if r == 395 {
        assert(name_lt("LCK_M_UIX_ABORT_BLOCKERS"@, "LCK_M_UIX_LOW_PRIORITY"@)) by {
            reveal_strlit("LCK_M_UIX_ABORT_BLOCKERS");
            reveal_strlit("LCK_M_UIX_LOW_PRIORITY");
            reveal_with_fuel(name_lt_from, 12);
        }
    } else if r == 396 {
        assert(name_lt("LCK_M_UIX_LOW_PRIORITY"@, "LCK_M_U_ABORT_BLOCKERS"@)) by {
            reveal_strlit("LCK_M_UIX_LOW_PRIORITY");
            reveal_strlit("LCK_M_U_ABORT_BLOCKERS");
            reveal_with_fuel(name_lt_from, 9);
        }
    } else if r == 397 {
        assert(name_lt("LCK_M_U_ABORT_BLOCKERS"@, "LCK_M_U_LOW_PRIORITY"@)) by {
            reveal_strlit("LCK_M_U_ABORT_BLOCKERS");
            reveal_strlit("LCK_M_U_LOW_PRIORITY");
            reveal_with_fuel(name_lt_from, 10);
        }
    } else if r == 398 {
        assert(name_lt("LCK_M_U_LOW_PRIORITY"@, "LCK_M_X"@)) by {
            reveal_strlit("LCK_M_U_LOW_PRIORITY");
            reveal_strlit("LCK_M_X");
            reveal_with_fuel(name_lt_from, 8);
        }
    } else if r == 399 {
        assert(name_lt("LCK_M_X"@, "LCK_M_X_ABORT_BLOCKERS"@)) by {
            reveal_strlit("LCK_M_X");
            reveal_strlit("LCK_M_X_ABORT_BLOCKERS");
            reveal_with_fuel(name_lt_from, 9);
        }
    }
}

/// A wait type of part 8 has its place in that part, and the list has its
/// name at that place.
#[verifier::rlimit(60)]
proof fn lemma_rank_in_part_8(w: WaitType)
    requires
        in_part_8(w),
    ensures
        400 <= wait_type_rank(w) < 450,
        wait_type_at(wait_type_rank(w)) == w,
        name_at(wait_type_rank(w)) == wait_type_name(w),
        is_listed_wait_type(wait_type_name(w)),
{
    reveal(rank_in_part_8);
    reveal(ranked_in_part_8);
    reveal(name_in_part_8);
    reveal(listed_name_8);
    lemma_name_in_part_8(w);
}

/// The names at places 400 to 449 of the list are each followed by a greater one.
proof fn lemma_sorted_in_part_8(r: int)
    requires
        400 <= r < 450,
    ensures
        name_lt(name_at(r), name_at(r + 1)),
{
    reveal(name_in_part_8);
    reveal(name_in_part_9);
    if r == 400 {
        assert(name_lt("LCK_M_X_ABORT_BLOCKERS"@, "LCK_M_X_LOW_PRIORITY"@)) by {
            reveal_strlit("LCK_M_X_ABORT_BLOCKERS");
            reveal_strlit("LCK_M_X_LOW_PRIORITY");
            reveal_with_fuel(name_lt_from, 10);
        }
    } else if r == 401 {
        assert(name_lt("LCK_M_X_LOW_PRIORITY"@, "LOGBUFFER"@)) by {
            reveal_strlit("LCK_M_X_LOW_PRIORITY");
            reveal_strlit("LOGBUFFER");
            reveal_with_fuel(name_lt_from, 3);
        }
    } else if r == 402 {
        assert(name_lt("LOGBUFFER"@, "LOGCAPTURE_LOGPOOLTRUNCPOINT"@)) by {
            reveal_strlit("LOGBUFFER");
            reveal_strlit("LOGCAPTURE_LOGPOOLTRUNCPOINT");
            reveal_with_fuel(name_lt_from, 5);
        }
    } else if r == 403 {
        assert(name_lt("LOGCAPTURE_LOGPOOLTRUNCPOINT"@, "LOGGENERATION"@)) by {
            reveal_strlit("LOGCAPTURE_LOGPOOLTRUNCPOINT");
            reveal_strlit("LOGGENERATION");
            reveal_with_fuel(name_lt_from, 5);
        }
    } else if r == 404 {
        assert(name_lt("LOGGENERATION"@, "LOGMGR"@)) by {
            reveal_strlit("LOGGENERATION");
            reveal_strlit("LOGMGR");
            reveal_with_fuel(name_lt_from, 5);
        }
    } else if r == 405 {
        assert(name_lt("LOGMGR"@, "LOGMGR_FLUSH"@)) by {
            reveal_strlit("LOGMGR");
            reveal_strlit("LOGMGR_FLUSH");
            reveal_with_fuel(name_lt_from, 8);
        }
    } else if r == 406 {
        assert(name_lt("LOGMGR_FLUSH"@, "LOGMGR_PMM_LOG"@)) by {
            reveal_strlit("LOGMGR_FLUSH");
            reveal_strlit("LOGMGR_PMM_LOG");
            reveal_with_fuel(name_lt_from, 9);
        }
    } else if r == 407 {
        assert(name_lt("LOGMGR_PMM_LOG"@, "LOGMGR_QUEUE"@)) by {
            reveal_strlit("LOGMGR_PMM_LOG");
            reveal_strlit("LOGMGR_QUEUE");
            reveal_with_fuel(name_lt_from, 9);
        }
    } else if r == 408 {
        assert(name_lt("LOGMGR_QUEUE"@, "LOGMGR_RESERVE_APPEND"@)) by {
            reveal_strlit("LOGMGR_QUEUE");
            reveal_strlit("LOGMGR_RESERVE_APPEND");
            reveal_with_fuel(name_lt_from, 9);
        }
    } else if r == 409 {
        assert(name_lt("LOGMGR_RESERVE_APPEND"@, "LOGPOOLREFCOUNTEDOBJECT_REFDONE"@)) by {
            reveal_strlit("LOGMGR_RESERVE_APPEND");
            reveal_strlit("LOGPOOLREFCOUNTEDOBJECT_REFDONE");
            reveal_with_fuel(name_lt_from, 5);
        }
    } else if r == 410 {
        assert(name_lt("LOGPOOLREFCOUNTEDOBJECT_REFDONE"@, "LOGPOOL_CACHESIZE"@)) by {
            reveal_strlit("LOGPOOLREFCOUNTEDOBJECT_REFDONE");
            reveal_strlit("LOGPOOL_CACHESIZE");
            reveal_with_fuel(name_lt_from, 9);
        }
    } else if r == 411 {
        assert(name_lt("LOGPOOL_CACHESIZE"@, "LOGPOOL_CONSUMER"@)) by {
            reveal_strlit("LOGPOOL_CACHESIZE");
            reveal_strlit("LOGPOOL_CONSUMER");
            reveal_with_fuel(name_lt_from, 11);
        }
    } else if r == 412 {
        assert(name_lt("LOGPOOL_CONSUMER"@, "LOGPOOL_CONSUMERSET"@)) by {
            reveal_strlit("LOGPOOL_CONSUMER");
            reveal_strlit("LOGPOOL_CONSUMERSET");
            reveal_with_fuel(name_lt_from, 18);
        }
    } else if r == 413 {
        assert(name_lt("LOGPOOL_CONSUMERSET"@, "LOGPOOL_FREEPOOLS"@)) by {
            reveal_strlit("LOGPOOL_CONSUMERSET");
            reveal_strlit("LOGPOOL_FREEPOOLS");
            reveal_with_fuel(name_lt_from, 10);
        }
    } else if r == 414 {
        assert(name_lt("LOGPOOL_FREEPOOLS"@, "LOGPOOL_MGRSET"@)) by {
            reveal_strlit("LOGPOOL_FREEPOOLS");
            reveal_strlit("LOGPOOL_MGRSET");
            reveal_with_fuel(name_lt_from, 10);
        }
    } else if r == 415 {
        assert(name_lt("LOGPOOL_MGRSET"@, "LOGPOOL_REPLACEMENTSET"@)) by {
            reveal_strlit("LOGPOOL_MGRSET");
            reveal_strlit("LOGPOOL_REPLACEMENTSET");
            reveal_with_fuel(name_lt_from, 10);
        }
    } else if r == 416 {
        assert(name_lt("LOGPOOL_REPLACEMENTSET"@, "LOG_POOL_SCAN"@)) by {
            reveal_strlit("LOGPOOL_REPLACEMENTSET");
            reveal_strlit("LOG_POOL_SCAN");
            reveal_with_fuel(name_lt_from, 5);
        }
    } else if r == 417 {
        assert(name_lt("LOG_POOL_SCAN"@, "LOG_RATE_GOVERNOR"@)) by {
            reveal_strlit("LOG_POOL_SCAN");
            reveal_strlit("LOG_RATE_GOVERNOR");
            reveal_with_fuel(name_lt_from, 6);
        }
    } else if r == 418 {
        assert(name_lt("LOG_RATE_GOVERNOR"@, "LOWFAIL_MEMMGR_QUEUE"@)) by {
            reveal_strlit("LOG_RATE_GOVERNOR");
            reveal_strlit("LOWFAIL_MEMMGR_QUEUE");
            reveal_with_fuel(name_lt_from, 4);
        }
    } else if r == 419 {
        assert(name_lt("LOWFAIL_MEMMGR_QUEUE"@, "MD_AGENT_YIELD"@)) by {
            reveal_strlit("LOWFAIL_MEMMGR_QUEUE");
            reveal_strlit("MD_AGENT_YIELD");
            reveal_with_fuel(name_lt_from, 2);
        }
    } else if r == 420 {
        assert(name_lt("MD_AGENT_YIELD"@, "MD_LAZYCACHE_RWLOCK"@)) by {
            reveal_strlit("MD_AGENT_YIELD");
            reveal_strlit("MD_LAZYCACHE_RWLOCK");
            reveal_with_fuel(name_lt_from, 5);
        }
    } else if r == 421 {
        assert(name_lt("MD_LAZYCACHE_RWLOCK"@, "MEMORY_ALLOCATION_EXT"@)) by {
            reveal_strlit("MD_LAZYCACHE_RWLOCK");
            reveal_strlit("MEMORY_ALLOCATION_EXT");
            reveal_with_fuel(name_lt_from, 3);
        }
    } else if r == 422 {
        assert(name_lt("MEMORY_ALLOCATION_EXT"@, "MEMORY_GRANT_UPDATE"@)) by {
            reveal_strlit("MEMORY_ALLOCATION_EXT");
            reveal_strlit("MEMORY_GRANT_UPDATE");
            reveal_with_fuel(name_lt_from, 9);
        }
    } else if r == 423 {
        assert(name_lt("MEMORY_GRANT_UPDATE"@, "METADATA_LAZYCACHE_RWLOCK"@)) by {
            reveal_strlit("MEMORY_GRANT_UPDATE");
            reveal_strlit("METADATA_LAZYCACHE_RWLOCK");
            reveal_with_fuel(name_lt_from, 4);
        }
    } else if r == 424 {
        assert(name_lt("METADATA_LAZYCACHE_RWLOCK"@, "MIGRATIONBUFFER"@)) by {
            reveal_strlit("METADATA_LAZYCACHE_RWLOCK");
            reveal_strlit("MIGRATIONBUFFER");
            reveal_with_fuel(name_lt_from, 3);
        }
    } else if r == 425 {
        assert(name_lt("MIGRATIONBUFFER"@, "MISCELLANEOUS"@)) by {
            reveal_strlit("MIGRATIONBUFFER");
            reveal_strlit("MISCELLANEOUS");
            reveal_with_fuel(name_lt_from, 4);
        }
    } else if r == 426 {
        assert(name_lt("MISCELLANEOUS"@, "MSQL_DQ"@)) by {
            reveal_strlit("MISCELLANEOUS");
            reveal_strlit("MSQL_DQ");
            reveal_with_fuel(name_lt_from, 3);
        }
    } else if r == 427 {
        assert(name_lt("MSQL_DQ"@, "MSQL_XACT_MGR_MUTEX"@)) by {
            reveal_strlit("MSQL_DQ");
            reveal_strlit("MSQL_XACT_MGR_MUTEX");
            reveal_with_fuel(name_lt_from, 7);
        }
    } else if r == 428 {
        assert(name_lt("MSQL_XACT_MGR_MUTEX"@, "MSQL_XACT_MUTEX"@)) by {
            reveal_strlit("MSQL_XACT_MGR_MUTEX");
            reveal_strlit("MSQL_XACT_MUTEX");
            reveal_with_fuel(name_lt_from, 13);
        }
    } else if r == 429 {
        assert(name_lt("MSQL_XACT_MUTEX"@, "MSQL_XP"@)) by {
            reveal_strlit("MSQL_XACT_MUTEX");
            reveal_strlit("MSQL_XP");
            reveal_with_fuel(name_lt_from, 8);
        }
    } else if r == 430 {
        assert(name_lt("MSQL_XP"@, "MSSEARCH"@)) by {
            reveal_strlit("MSQL_XP");
            reveal_strlit("MSSEARCH");
            reveal_with_fuel(name_lt_from, 4);
        }
    } else if r == 431 {
        assert(name_lt("MSSEARCH"@, "NETWORKSXMLMGRLOAD"@)) by {
            reveal_strlit("MSSEARCH");
            reveal_strlit("NETWORKSXMLMGRLOAD");
            reveal_with_fuel(name_lt_from, 2);
        }
    } else if r == 432 {
        assert(name_lt("NETWORKSXMLMGRLOAD"@, "NET_WAITFOR_PACKET"@)) by {
            reveal_strlit("NETWORKSXMLMGRLOAD");
            reveal_strlit("NET_WAITFOR_PACKET");
            reveal_with_fuel(name_lt_from, 5);
        }
    } else if r == 433 {
        assert(name_lt("NET_WAITFOR_PACKET"@, "NODE_CACHE_MUTEX"@)) by {
            reveal_strlit("NET_WAITFOR_PACKET");
            reveal_strlit("NODE_CACHE_MUTEX");
            reveal_with_fuel(name_lt_from, 3);
        }
    } else if r == 434 {
        assert(name_lt("NODE_CACHE_MUTEX"@, "OLEDB"@)) by {
            reveal_strlit("NODE_CACHE_MUTEX");
            reveal_strlit("OLEDB");
            reveal_with_fuel(name_lt_from, 2);
        }
    } else if r == 435 {
        assert(name_lt("OLEDB"@, "ONDEMAND_TASK_QUEUE"@)) by {
            reveal_strlit("OLEDB");
            reveal_strlit("ONDEMAND_TASK_QUEUE");
            reveal_with_fuel(name_lt_from, 3);
        }
    } else if r == 436 {
        assert(name_lt("ONDEMAND_TASK_QUEUE"@, "PAGEIOLATCH_DT"@)) by {
            reveal_strlit("ONDEMAND_TASK_QUEUE");
            reveal_strlit("PAGEIOLATCH_DT");
            reveal_with_fuel(name_lt_from, 2);
        }
    } else if r == 437 {
        assert(name_lt("PAGEIOLATCH_DT"@, "PAGEIOLATCH_EX"@)) by {
            reveal_strlit("PAGEIOLATCH_DT");
            reveal_strlit("PAGEIOLATCH_EX");
            reveal_with_fuel(name_lt_from, 14);
        }
    } else if r == 438 {
        assert(name_lt("PAGEIOLATCH_EX"@, "PAGEIOLATCH_KP"@)) by {
            reveal_strlit("PAGEIOLATCH_EX");
            reveal_strlit("PAGEIOLATCH_KP");
            reveal_with_fuel(name_lt_from, 14);
        }
    } else if r == 439 {
        assert(name_lt("PAGEIOLATCH_KP"@, "PAGEIOLATCH_NL"@)) by {
            reveal_strlit("PAGEIOLATCH_KP");
            reveal_strlit("PAGEIOLATCH_NL");
            reveal_with_fuel(name_lt_from, 14);
        }
    } else if r == 440 {
        assert(name_lt("PAGEIOLATCH_NL"@, "PAGEIOLATCH_SH"@)) by {
            reveal_strlit("PAGEIOLATCH_NL");
            reveal_strlit("PAGEIOLATCH_SH");
            reveal_with_fuel(name_lt_from, 14);
        }
    } else if r == 441 {
        assert(name_lt("PAGEIOLATCH_SH"@, "PAGEIOLATCH_UP"@)) by {
            reveal_strlit("PAGEIOLATCH_SH");
            reveal_strlit("PAGEIOLATCH_UP");
            reveal_with_fuel(name_lt_from, 14);
        }
    } else if r == 442 {
        assert(name_lt("PAGEIOLATCH_UP"@, "PAGELATCH_DT"@)) by {
            reveal_strlit("PAGEIOLATCH_UP");
            reveal_strlit("PAGELATCH_DT");
            reveal_with_fuel(name_lt_from, 6);
        }
    } else if r == 443 {
        assert(name_lt("PAGELATCH_DT"@, "PAGELATCH_EX"@)) by {
            reveal_strlit("PAGELATCH_DT");
            reveal_strlit("PAGELATCH_EX");
            reveal_with_fuel(name_lt_from, 12);
        }
    } else if r == 444 {
        assert(name_lt("PAGELATCH_EX"@, "PAGELATCH_KP"@)) by {
            reveal_strlit("PAGELATCH_EX");
            reveal_strlit("PAGELATCH_KP");
            reveal_with_fuel(name_lt_from, 12);
        }
    } else if r == 445 {
        assert(name_lt("PAGELATCH_KP"@, "PAGELATCH_NL"@)) by {
            reveal_strlit("PAGELATCH_KP");
            reveal_strlit("PAGELATCH_NL");
            reveal_with_fuel(name_lt_from, 12);
        }
    } else if r == 446 {
        assert(name_lt("PAGELATCH_NL"@, "PAGELATCH_SH"@)) by {
            reveal_strlit("PAGELATCH_NL");
            reveal_strlit("PAGELATCH_SH");
            reveal_with_fuel(name_lt_from, 12);
        }
    } else if r == 447 {
        assert(name_lt("PAGELATCH_SH"@, "PAGELATCH_UP"@)) by {
            reveal_strlit("PAGELATCH_SH");
            reveal_strlit("PAGELATCH_UP");
            reveal_with_fuel(name_lt_from, 12);
        }
    } else if r == 448 {
        assert(name_lt("PAGELATCH_UP"@, "PARALLEL_BACKUP_QUEUE"@)) by {
            reveal_strlit("PAGELATCH_UP");
            reveal_strlit("PARALLEL_BACKUP_QUEUE");
            reveal_with_fuel(name_lt_from, 4);
        }
    } else if r == 449 {
        assert(name_lt("PARALLEL_BACKUP_QUEUE"@, "PARALLEL_REDO_DRAIN_WORKER"@)) by {
            reveal_strlit("PARALLEL_BACKUP_QUEUE");
            reveal_strlit("PARALLEL_REDO_DRAIN_WORKER");
            reveal_with_fuel(name_lt_from, 11);
        }
    }
}

/// A wait type of part 9 has its place in that part, and the list has its
/// name at that place.
#[verifier::rlimit(60)]
proof fn lemma_rank_in_part_9(w: WaitType)
    requires
        in_part_9(w),
    ensures
        450 <= wait_type_rank(w) < 500,
        wait_type_at(wait_type_rank(w)) == w,
        name_at(wait_type_rank(w)) == wait_type_name(w),
        is_listed_wait_type(wait_type_name(w)),
{
    reveal(rank_in_part_9);
    reveal(ranked_in_part_9);
    reveal(name_in_part_9);
    reveal(listed_name_9);
    lemma_name_in_part_9(w);
}

/// The names at places 450 to 499 of the list are each followed by a greater one.
proof fn lemma_sorted_in_part_9(r: int)
    requires
        450 <= r < 500,
    ensures
        name_lt(name_at(r), name_at(r + 1)),
{
    reveal(name_in_part_9);
    reveal(name_in_part_10);
    if r == 450 {
        assert(name_lt("PARALLEL_REDO_DRAIN_WORKER"@, "PARALLEL_REDO_FLOW_CONTROL"@)) by {
            reveal_strlit("PARALLEL_REDO_DRAIN_WORKER");
            reveal_strlit("PARALLEL_REDO_FLOW_CONTROL");
            reveal_with_fuel(name_lt_from, 16);
        }
    } else if r == 451 {
        assert(name_lt("PARALLEL_REDO_FLOW_CONTROL"@, "PARALLEL_REDO_LOG_CACHE"@)) by {
            reveal_strlit("PARALLEL_REDO_FLOW_CONTROL");
            reveal_strlit("PARALLEL_REDO_LOG_CACHE");
            reveal_with_fuel(name_lt_from, 16);
        }
    } else if r == 452 {
        assert(name_lt("PARALLEL_REDO_LOG_CACHE"@, "PARALLEL_REDO_TRAN_LIST"@)) by {
            reveal_strlit("PARALLEL_REDO_LOG_CACHE");
            reveal_strlit("PARALLEL_REDO_TRAN_LIST");
            reveal_with_fuel(name_lt_from, 16);
        }
    } else if r == 453 {
        assert(name_lt("PARALLEL_REDO_TRAN_LIST"@, "PARALLEL_REDO_TRAN_TURN"@)) by {
            reveal_strlit("PARALLEL_REDO_TRAN_LIST");
            reveal_strlit("PARALLEL_REDO_TRAN_TURN");
            reveal_with_fuel(name_lt_from, 21);
        }
    } else if r == 454 {
        assert(name_lt("PARALLEL_REDO_TRAN_TURN"@, "PARALLEL_REDO_WORKER_SYNC"@)) by {
            reveal_strlit("PARALLEL_REDO_TRAN_TURN");
            reveal_strlit("PARALLEL_REDO_WORKER_SYNC");
            reveal_with_fuel(name_lt_from, 16);
        }
    } else if r == 455 {
        assert(name_lt("PARALLEL_REDO_WORKER_SYNC"@, "PARALLEL_REDO_WORKER_WAIT_WORK"@)) by {
            reveal_strlit("PARALLEL_REDO_WORKER_SYNC");
            reveal_strlit("PARALLEL_REDO_WORKER_WAIT_WORK");
            reveal_with_fuel(name_lt_from, 23);
        }
    } else if r == 456 {
        assert(name_lt("PARALLEL_REDO_WORKER_WAIT_WORK"@, "PERFORMANCE_COUNTERS_RWLOCK"@)) by {
            reveal_strlit("PARALLEL_REDO_WORKER_WAIT_WORK");
            reveal_strlit("PERFORMANCE_COUNTERS_RWLOCK");
            reveal_with_fuel(name_lt_from, 3);
        }
    } else if r == 457 {
        assert(name_lt("PERFORMANCE_COUNTERS_RWLOCK"@, "PHYSICAL_SEEDING_DMV"@)) by {
            reveal_strlit("PERFORMANCE_COUNTERS_RWLOCK");
            reveal_strlit("PHYSICAL_SEEDING_DMV");
            reveal_with_fuel(name_lt_from, 3);
        }
    } else if r == 458 {
        assert(name_lt("PHYSICAL_SEEDING_DMV"@, "POOL_LOG_RATE_GOVERNOR"@)) by {
            reveal_strlit("PHYSICAL_SEEDING_DMV");
            reveal_strlit("POOL_LOG_RATE_GOVERNOR");
            reveal_with_fuel(name_lt_from, 3);
        }
    } else if r == 459 {
        assert(name_lt("POOL_LOG_RATE_GOVERNOR"@, "PREEMPTIVE_ABR"@)) by {
            reveal_strlit("POOL_LOG_RATE_GOVERNOR");
            reveal_strlit("PREEMPTIVE_ABR");
            reveal_with_fuel(name_lt_from, 3);
        }
    } else if r == 460 {
        assert(name_lt("PREEMPTIVE_ABR"@, "PREEMPTIVE_AUDIT_ACCESS_EVENTLOG"@)) by {
            reveal_strlit("PREEMPTIVE_ABR");
            reveal_strlit("PREEMPTIVE_AUDIT_ACCESS_EVENTLOG");
            reveal_with_fuel(name_lt_from, 14);
        }
    } else if r == 461 {
        assert(name_lt("PREEMPTIVE_AUDIT_ACCESS_EVENTLOG"@, "PREEMPTIVE_AUDIT_ACCESS_SECLOG"@)) by {
            reveal_strlit("PREEMPTIVE_AUDIT_ACCESS_EVENTLOG");
            reveal_strlit("PREEMPTIVE_AUDIT_ACCESS_SECLOG");
            reveal_with_fuel(name_lt_from, 26);
        }
    } else if r == 462 {
        assert(name_lt("PREEMPTIVE_AUDIT_ACCESS_SECLOG"@, "PREEMPTIVE_CLOSEBACKUPMEDIA"@)) by {
            reveal_strlit("PREEMPTIVE_AUDIT_ACCESS_SECLOG");
            reveal_strlit("PREEMPTIVE_CLOSEBACKUPMEDIA");
            reveal_with_fuel(name_lt_from, 13);
        }
    } else if r == 463 {
        assert(name_lt("PREEMPTIVE_CLOSEBACKUPMEDIA"@, "PREEMPTIVE_CLOSEBACKUPTAPE"@)) by {
            reveal_strlit("PREEMPTIVE_CLOSEBACKUPMEDIA");
            reveal_strlit("PREEMPTIVE_CLOSEBACKUPTAPE");
            reveal_with_fuel(name_lt_from, 24);
        }
    } else if r == 464 {
        assert(name_lt("PREEMPTIVE_CLOSEBACKUPTAPE"@, "PREEMPTIVE_CLOSEBACKUPVDIDEVICE"@)) by {
            reveal_strlit("PREEMPTIVE_CLOSEBACKUPTAPE");
            reveal_strlit("PREEMPTIVE_CLOSEBACKUPVDIDEVICE");
            reveal_with_fuel(name_lt_from, 24);
        }
    } else if r == 465 {
        assert(name_lt("PREEMPTIVE_CLOSEBACKUPVDIDEVICE"@, "PREEMPTIVE_CLUSAPI_CLUSTERRESOURCECONTROL"@)) by {
            reveal_strlit("PREEMPTIVE_CLOSEBACKUPVDIDEVICE");
            reveal_strlit("PREEMPTIVE_CLUSAPI_CLUSTERRESOURCECONTROL");
            reveal_with_fuel(name_lt_from, 15);
        }
    } else if r == 466 {
        assert(name_lt("PREEMPTIVE_CLUSAPI_CLUSTERRESOURCECONTROL"@, "PREEMPTIVE_COM_COCREATEINSTANCE"@)) by {
            reveal_strlit("PREEMPTIVE_CLUSAPI_CLUSTERRESOURCECONTROL");
            reveal_strlit("PREEMPTIVE_COM_COCREATEINSTANCE");
            reveal_with_fuel(name_lt_from, 14);
        }
    } else if r == 467 {
        assert(name_lt("PREEMPTIVE_COM_COCREATEINSTANCE"@, "PREEMPTIVE_COM_COGETCLASSOBJECT"@)) by {
            reveal_strlit("PREEMPTIVE_COM_COCREATEINSTANCE");
            reveal_strlit("PREEMPTIVE_COM_COGETCLASSOBJECT");
            reveal_with_fuel(name_lt_from, 19);
        }
    } else if r == 468 {
        assert(name_lt("PREEMPTIVE_COM_COGETCLASSOBJECT"@, "PREEMPTIVE_COM_CREATEACCESSOR"@)) by {
            reveal_strlit("PREEMPTIVE_COM_COGETCLASSOBJECT");
            reveal_strlit("PREEMPTIVE_COM_CREATEACCESSOR");
            reveal_with_fuel(name_lt_from, 18);
        }
    } else if r == 469 {
        assert(name_lt("PREEMPTIVE_COM_CREATEACCESSOR"@, "PREEMPTIVE_COM_DELETEROWS"@)) by {
            reveal_strlit("PREEMPTIVE_COM_CREATEACCESSOR");
            reveal_strlit("PREEMPTIVE_COM_DELETEROWS");
            reveal_with_fuel(name_lt_from, 17);
        }
    } else if r == 470 {
        assert(name_lt("PREEMPTIVE_COM_DELETEROWS"@, "PREEMPTIVE_COM_GETCOMMANDTEXT"@)) by {
            reveal_strlit("PREEMPTIVE_COM_DELETEROWS");
            reveal_strlit("PREEMPTIVE_COM_GETCOMMANDTEXT");
            reveal_with_fuel(name_lt_from, 17);
        }
    } else if r == 471 {
        assert(name_lt("PREEMPTIVE_COM_GETCOMMANDTEXT"@, "PREEMPTIVE_COM_GETDATA"@)) by {
            reveal_strlit("PREEMPTIVE_COM_GETCOMMANDTEXT");
            reveal_strlit("PREEMPTIVE_COM_GETDATA");
            reveal_with_fuel(name_lt_from, 20);
        }
    } else if r == 472 {
        assert(name_lt("PREEMPTIVE_COM_GETDATA"@, "PREEMPTIVE_COM_GETNEXTROWS"@)) by {
            reveal_strlit("PREEMPTIVE_COM_GETDATA");
            reveal_strlit("PREEMPTIVE_COM_GETNEXTROWS");
            reveal_with_fuel(name_lt_from, 20);
        }
    } else if r == 473 {
        assert(name_lt("PREEMPTIVE_COM_GETNEXTROWS"@, "PREEMPTIVE_COM_GETRESULT"@)) by {
            reveal_strlit("PREEMPTIVE_COM_GETNEXTROWS");
            reveal_strlit("PREEMPTIVE_COM_GETRESULT");
            reveal_with_fuel(name_lt_from, 20);
        }
    } else if r == 474 {
        assert(name_lt("PREEMPTIVE_COM_GETRESULT"@, "PREEMPTIVE_COM_GETROWSBYBOOKMARK"@)) by {
            reveal_strlit("PREEMPTIVE_COM_GETRESULT");
            reveal_strlit("PREEMPTIVE_COM_GETROWSBYBOOKMARK");
            reveal_with_fuel(name_lt_from, 21);
        }
    } else if r == 475 {
        assert(name_lt("PREEMPTIVE_COM_GETROWSBYBOOKMARK"@, "PREEMPTIVE_COM_LBFLUSH"@)) by {
            reveal_strlit("PREEMPTIVE_COM_GETROWSBYBOOKMARK");
            reveal_strlit("PREEMPTIVE_COM_LBFLUSH");
            reveal_with_fuel(name_lt_from, 17);
        }
    } else if r == 476 {
        assert(name_lt("PREEMPTIVE_COM_LBFLUSH"@, "PREEMPTIVE_COM_LBLOCKREGION"@)) by {
            reveal_strlit("PREEMPTIVE_COM_LBFLUSH");
            reveal_strlit("PREEMPTIVE_COM_LBLOCKREGION");
            reveal_with_fuel(name_lt_from, 19);
        }
    } else if r == 477 {
        assert(name_lt("PREEMPTIVE_COM_LBLOCKREGION"@, "PREEMPTIVE_COM_LBREADAT"@)) by {
            reveal_strlit("PREEMPTIVE_COM_LBLOCKREGION");
            reveal_strlit("PREEMPTIVE_COM_LBREADAT");
            reveal_with_fuel(name_lt_from, 19);
        }
    } else if r == 478 {
        assert(name_lt("PREEMPTIVE_COM_LBREADAT"@, "PREEMPTIVE_COM_LBSETSIZE"@)) by {
            reveal_strlit("PREEMPTIVE_COM_LBREADAT");
            reveal_strlit("PREEMPTIVE_COM_LBSETSIZE");
            reveal_with_fuel(name_lt_from, 19);
        }
    } else if r == 479 {
        assert(name_lt("PREEMPTIVE_COM_LBSETSIZE"@, "PREEMPTIVE_COM_LBSTAT"@)) by {
            reveal_strlit("PREEMPTIVE_COM_LBSETSIZE");
            reveal_strlit("PREEMPTIVE_COM_LBSTAT");
            reveal_with_fuel(name_lt_from, 20);
        }
    } else if r == 480 {
        assert(name_lt("PREEMPTIVE_COM_LBSTAT"@, "PREEMPTIVE_COM_LBUNLOCKREGION"@)) by {
            reveal_strlit("PREEMPTIVE_COM_LBSTAT");
            reveal_strlit("PREEMPTIVE_COM_LBUNLOCKREGION");
            reveal_with_fuel(name_lt_from, 19);
        }
    } else if r == 481 {
        assert(name_lt("PREEMPTIVE_COM_LBUNLOCKREGION"@, "PREEMPTIVE_COM_LBWRITEAT"@)) by {
            reveal_strlit("PREEMPTIVE_COM_LBUNLOCKREGION");
            reveal_strlit("PREEMPTIVE_COM_LBWRITEAT");
            reveal_with_fuel(name_lt_from, 19);
        }
    } else if r == 482 {
        assert(name_lt("PREEMPTIVE_COM_LBWRITEAT"@, "PREEMPTIVE_COM_QUERYINTERFACE"@)) by {
            reveal_strlit("PREEMPTIVE_COM_LBWRITEAT");
            reveal_strlit("PREEMPTIVE_COM_QUERYINTERFACE");
            reveal_with_fuel(name_lt_from, 17);
        }
    } else if r == 483 {
        assert(name_lt("PREEMPTIVE_COM_QUERYINTERFACE"@, "PREEMPTIVE_COM_RELEASE"@)) by {
            reveal_strlit("PREEMPTIVE_COM_QUERYINTERFACE");
            reveal_strlit("PREEMPTIVE_COM_RELEASE");
            reveal_with_fuel(name_lt_from, 17);
        }
    } else if r == 484 {
        assert(name_lt("PREEMPTIVE_COM_RELEASE"@, "PREEMPTIVE_COM_RELEASEACCESSOR"@)) by {
            reveal_strlit("PREEMPTIVE_COM_RELEASE");
            reveal_strlit("PREEMPTIVE_COM_RELEASEACCESSOR");
            reveal_with_fuel(name_lt_from, 24);
        }
    } else if r == 485 {
        assert(name_lt("PREEMPTIVE_COM_RELEASEACCESSOR"@, "PREEMPTIVE_COM_RELEASEROWS"@)) by {
            reveal_strlit("PREEMPTIVE_COM_RELEASEACCESSOR");
            reveal_strlit("PREEMPTIVE_COM_RELEASEROWS");
            reveal_with_fuel(name_lt_from, 24);
        }
    } else if r == 486 {
        assert(name_lt("PREEMPTIVE_COM_RELEASEROWS"@, "PREEMPTIVE_COM_RELEASESESSION"@)) by {
            reveal_strlit("PREEMPTIVE_COM_RELEASEROWS");
            reveal_strlit("PREEMPTIVE_COM_RELEASESESSION");
            reveal_with_fuel(name_lt_from, 24);
        }
    } else if r == 487 {
        assert(name_lt("PREEMPTIVE_COM_RELEASESESSION"@, "PREEMPTIVE_COM_RESTARTPOSITION"@)) by {
            reveal_strlit("PREEMPTIVE_COM_RELEASESESSION");
            reveal_strlit("PREEMPTIVE_COM_RESTARTPOSITION");
            reveal_with_fuel(name_lt_from, 19);
        }
    } else if r == 488 {
        assert(name_lt("PREEMPTIVE_COM_RESTARTPOSITION"@, "PREEMPTIVE_COM_SEQSTRMREAD"@)) by {
            reveal_strlit("PREEMPTIVE_COM_RESTARTPOSITION");
            reveal_strlit("PREEMPTIVE_COM_SEQSTRMREAD");
            reveal_with_fuel(name_lt_from, 17);
        }
    } else if r == 489 {
        assert(name_lt("PREEMPTIVE_COM_SEQSTRMREAD"@, "PREEMPTIVE_COM_SEQSTRMREADANDWRITE"@)) by {
            reveal_strlit("PREEMPTIVE_COM_SEQSTRMREAD");
            reveal_strlit("PREEMPTIVE_COM_SEQSTRMREADANDWRITE");
            reveal_with_fuel(name_lt_from, 28);
        }
    } else if r == 490 {
        assert(name_lt("PREEMPTIVE_COM_SEQSTRMREADANDWRITE"@, "PREEMPTIVE_COM_SETDATAFAILURE"@)) by {
            reveal_strlit("PREEMPTIVE_COM_SEQSTRMREADANDWRITE");
            reveal_strlit("PREEMPTIVE_COM_SETDATAFAILURE");
            reveal_with_fuel(name_lt_from, 19);
        }
    } else if r == 491 {
        assert(name_lt("PREEMPTIVE_COM_SETDATAFAILURE"@, "PREEMPTIVE_COM_SETPARAMETERINFO"@)) by {
            reveal_strlit("PREEMPTIVE_COM_SETDATAFAILURE");
            reveal_strlit("PREEMPTIVE_COM_SETPARAMETERINFO");
            reveal_with_fuel(name_lt_from, 20);
        }
    } else if r == 492 {
        assert(name_lt("PREEMPTIVE_COM_SETPARAMETERINFO"@, "PREEMPTIVE_COM_SETPARAMETERPROPERTIES"@)) by {
            reveal_strlit("PREEMPTIVE_COM_SETPARAMETERINFO");
            reveal_strlit("PREEMPTIVE_COM_SETPARAMETERPROPERTIES");
            reveal_with_fuel(name_lt_from, 29);
        }
    } else if r == 493 {
        assert(name_lt("PREEMPTIVE_COM_SETPARAMETERPROPERTIES"@, "PREEMPTIVE_COM_STRMLOCKREGION"@)) by {
            reveal_strlit("PREEMPTIVE_COM_SETPARAMETERPROPERTIES");
            reveal_strlit("PREEMPTIVE_COM_STRMLOCKREGION");
            reveal_with_fuel(name_lt_from, 18);
        }
    } else if r == 494 {
        assert(name_lt("PREEMPTIVE_COM_STRMLOCKREGION"@, "PREEMPTIVE_COM_STRMSEEKANDREAD"@)) by {
            reveal_strlit("PREEMPTIVE_COM_STRMLOCKREGION");
            reveal_strlit("PREEMPTIVE_COM_STRMSEEKANDREAD");
            reveal_with_fuel(name_lt_from, 21);
        }
    } else if r == 495 {
        assert(name_lt("PREEMPTIVE_COM_STRMSEEKANDREAD"@, "PREEMPTIVE_COM_STRMSEEKANDWRITE"@)) by {
            reveal_strlit("PREEMPTIVE_COM_STRMSEEKANDREAD");
            reveal_strlit("PREEMPTIVE_COM_STRMSEEKANDWRITE");
            reveal_with_fuel(name_lt_from, 28);
        }
    } else if r == 496 {
        assert(name_lt("PREEMPTIVE_COM_STRMSEEKANDWRITE"@, "PREEMPTIVE_COM_STRMSETSIZE"@)) by {
            reveal_strlit("PREEMPTIVE_COM_STRMSEEKANDWRITE");
            reveal_strlit("PREEMPTIVE_COM_STRMSETSIZE");
            reveal_with_fuel(name_lt_from, 23);
        }
    } else if r == 497 {
        assert(name_lt("PREEMPTIVE_COM_STRMSETSIZE"@, "PREEMPTIVE_COM_STRMSTAT"@)) by {
            reveal_strlit("PREEMPTIVE_COM_STRMSETSIZE");
            reveal_strlit("PREEMPTIVE_COM_STRMSTAT");
            reveal_with_fuel(name_lt_from, 22);
        }
    } else if r == 498 {
        assert(name_lt("PREEMPTIVE_COM_STRMSTAT"@, "PREEMPTIVE_COM_STRMUNLOCKREGION"@)) by {
            reveal_strlit("PREEMPTIVE_COM_STRMSTAT");
            reveal_strlit("PREEMPTIVE_COM_STRMUNLOCKREGION");
            reveal_with_fuel(name_lt_from, 21);
        }
    } else if r == 499 {
        assert(name_lt("PREEMPTIVE_COM_STRMUNLOCKREGION"@, "PREEMPTIVE_CONSOLEWRITE"@)) by {
            reveal_strlit("PREEMPTIVE_COM_STRMUNLOCKREGION");
            reveal_strlit("PREEMPTIVE_CONSOLEWRITE");
            reveal_with_fuel(name_lt_from, 15);
        }
    }
}

/// A wait type of part 10 has its place in that part, and the list has its
/// name at that place.
#[verifier::rlimit(60)]
proof fn lemma_rank_in_part_10(w: WaitType)
    requires
        in_part_10(w),
    ensures
        500 <= wait_type_rank(w) < 550,
        wait_type_at(wait_type_rank(w)) == w,
        name_at(wait_type_rank(w)) == wait_type_name(w),
        is_listed_wait_type(wait_type_name(w)),
{
    reveal(rank_in_part_10);
    reveal(ranked_in_part_10);
    reveal(name_in_part_10);
    reveal(listed_name_10);
    lemma_name_in_part_10(w);
}

/// The names at places 500 to 549 of the list are each followed by a greater one.
proof fn lemma_sorted_in_part_10(r: int)
    requires
        500 <= r < 550,
    ensures
        name_lt(name_at(r), name_at(r + 1)),
{
    reveal(name_in_part_10);
    reveal(name_in_part_11);
    if r == 500 {
        assert(name_lt("PREEMPTIVE_CONSOLEWRITE"@, "PREEMPTIVE_CREATEPARAM"@)) by {
            reveal_strlit("PREEMPTIVE_CONSOLEWRITE");
            reveal_strlit("PREEMPTIVE_CREATEPARAM");
            reveal_with_fuel(name_lt_from, 14);
        }
    } else if r == 501 {
        assert(name_lt("PREEMPTIVE_CREATEPARAM"@, "PREEMPTIVE_DEBUG"@)) by {
            reveal_strlit("PREEMPTIVE_CREATEPARAM");
            reveal_strlit("PREEMPTIVE_DEBUG");
            reveal_with_fuel(name_lt_from, 13);
        }
    } else if r == 502 {
        assert(name_lt("PREEMPTIVE_DEBUG"@, "PREEMPTIVE_DFSADDLINK"@)) by {
            reveal_strlit("PREEMPTIVE_DEBUG");
            reveal_strlit("PREEMPTIVE_DFSADDLINK");
            reveal_with_fuel(name_lt_from, 14);
        }
    } else if r == 503 {
        assert(name_lt("PREEMPTIVE_DFSADDLINK"@, "PREEMPTIVE_DFSLINKEXISTCHECK"@)) by {
            reveal_strlit("PREEMPTIVE_DFSADDLINK");
            reveal_strlit("PREEMPTIVE_DFSLINKEXISTCHECK");
            reveal_with_fuel(name_lt_from, 16);
        }
    } else if r == 504 {
        assert(name_lt("PREEMPTIVE_DFSLINKEXISTCHECK"@, "PREEMPTIVE_DFSLINKHEALTHCHECK"@)) by {
            reveal_strlit("PREEMPTIVE_DFSLINKEXISTCHECK");
            reveal_strlit("PREEMPTIVE_DFSLINKHEALTHCHECK");
            reveal_with_fuel(name_lt_from, 20);
        }
    } else if r == 505 {
        assert(name_lt("PREEMPTIVE_DFSLINKHEALTHCHECK"@, "PREEMPTIVE_DFSREMOVELINK"@)) by {
            reveal_strlit("PREEMPTIVE_DFSLINKHEALTHCHECK");
            reveal_strlit("PREEMPTIVE_DFSREMOVELINK");
            reveal_with_fuel(name_lt_from, 16);
        }
    } else if r == 506 {
        assert(name_lt("PREEMPTIVE_DFSREMOVELINK"@, "PREEMPTIVE_DFSREMOVEROOT"@)) by {
            reveal_strlit("PREEMPTIVE_DFSREMOVELINK");
            reveal_strlit("PREEMPTIVE_DFSREMOVEROOT");
            reveal_with_fuel(name_lt_from, 22);
        }
    } else if r == 507 {
        assert(name_lt("PREEMPTIVE_DFSREMOVEROOT"@, "PREEMPTIVE_DFSROOTFOLDERCHECK"@)) by {
            reveal_strlit("PREEMPTIVE_DFSREMOVEROOT");
            reveal_strlit("PREEMPTIVE_DFSROOTFOLDERCHECK");
            reveal_with_fuel(name_lt_from, 17);
        }
    } else if r == 508 {
        assert(name_lt("PREEMPTIVE_DFSROOTFOLDERCHECK"@, "PREEMPTIVE_DFSROOTINIT"@)) by {
            reveal_strlit("PREEMPTIVE_DFSROOTFOLDERCHECK");
            reveal_strlit("PREEMPTIVE_DFSROOTINIT");
            reveal_with_fuel(name_lt_from, 20);
        }
    } else if r == 509 {
        assert(name_lt("PREEMPTIVE_DFSROOTINIT"@, "PREEMPTIVE_DFSROOTSHARECHECK"@)) by {
            reveal_strlit("PREEMPTIVE_DFSROOTINIT");
            reveal_strlit("PREEMPTIVE_DFSROOTSHARECHECK");
            reveal_with_fuel(name_lt_from, 20);
        }
    } else if r == 510 {
        assert(name_lt("PREEMPTIVE_DFSROOTSHARECHECK"@, "PREEMPTIVE_DTC_ABORT"@)) by {
            reveal_strlit("PREEMPTIVE_DFSROOTSHARECHECK");
            reveal_strlit("PREEMPTIVE_DTC_ABORT");
            reveal_with_fuel(name_lt_from, 14);
        }
    } else if r == 511 {
        assert(name_lt("PREEMPTIVE_DTC_ABORT"@, "PREEMPTIVE_DTC_ABORTREQUESTDONE"@)) by {
            reveal_strlit("PREEMPTIVE_DTC_ABORT");
            reveal_strlit("PREEMPTIVE_DTC_ABORTREQUESTDONE");
            reveal_with_fuel(name_lt_from, 22);
        }
    } else if r == 512 {
        assert(name_lt("PREEMPTIVE_DTC_ABORTREQUESTDONE"@, "PREEMPTIVE_DTC_BEGINTRANSACTION"@)) by {
            reveal_strlit("PREEMPTIVE_DTC_ABORTREQUESTDONE");
            reveal_strlit("PREEMPTIVE_DTC_BEGINTRANSACTION");
            reveal_with_fuel(name_lt_from, 17);
        }
    } else if r == 513 {
        assert(name_lt("PREEMPTIVE_DTC_BEGINTRANSACTION"@, "PREEMPTIVE_DTC_COMMITREQUESTDONE"@)) by {
            reveal_strlit("PREEMPTIVE_DTC_BEGINTRANSACTION");
            reveal_strlit("PREEMPTIVE_DTC_COMMITREQUESTDONE");
            reveal_with_fuel(name_lt_from, 17);
        }
    } else if r == 514 {
        assert(name_lt("PREEMPTIVE_DTC_COMMITREQUESTDONE"@, "PREEMPTIVE_DTC_ENLIST"@)) by {
            reveal_strlit("PREEMPTIVE_DTC_COMMITREQUESTDONE");
            reveal_strlit("PREEMPTIVE_DTC_ENLIST");
            reveal_with_fuel(name_lt_from, 17);
        }
    } else if r == 515 {
        assert(name_lt("PREEMPTIVE_DTC_ENLIST"@, "PREEMPTIVE_DTC_PREPAREREQUESTDONE"@)) by {
            reveal_strlit("PREEMPTIVE_DTC_ENLIST");
            reveal_strlit("PREEMPTIVE_DTC_PREPAREREQUESTDONE");
            reveal_with_fuel(name_lt_from, 17);
        }
    } else if r == 516 {
        assert(name_lt("PREEMPTIVE_DTC_PREPAREREQUESTDONE"@, "PREEMPTIVE_FILESIZEGET"@)) by {
            reveal_strlit("PREEMPTIVE_DTC_PREPAREREQUESTDONE");
            reveal_strlit("PREEMPTIVE_FILESIZEGET");
            reveal_with_fuel(name_lt_from, 13);
        }
    } else if r == 517 {
        assert(name_lt("PREEMPTIVE_FILESIZEGET"@, "PREEMPTIVE_FSAOLEDB_ABORTTRANSACTION"@)) by {
            reveal_strlit("PREEMPTIVE_FILESIZEGET");
            reveal_strlit("PREEMPTIVE_FSAOLEDB_ABORTTRANSACTION");
            reveal_with_fuel(name_lt_from, 14);
        }
    } else if r == 518 {
        assert(name_lt("PREEMPTIVE_FSAOLEDB_ABORTTRANSACTION"@, "PREEMPTIVE_FSAOLEDB_COMMITTRANSACTION"@)) by {
            reveal_strlit("PREEMPTIVE_FSAOLEDB_ABORTTRANSACTION");
            reveal_strlit("PREEMPTIVE_FSAOLEDB_COMMITTRANSACTION");
            reveal_with_fuel(name_lt_from, 22);
        }
    } else if r == 519 {
        assert(name_lt("PREEMPTIVE_FSAOLEDB_COMMITTRANSACTION"@, "PREEMPTIVE_FSAOLEDB_STARTTRANSACTION"@)) by {
            reveal_strlit("PREEMPTIVE_FSAOLEDB_COMMITTRANSACTION");
            reveal_strlit("PREEMPTIVE_FSAOLEDB_STARTTRANSACTION");
            reveal_with_fuel(name_lt_from, 22);
        }
    } else if r == 520 {
        assert(name_lt("PREEMPTIVE_FSAOLEDB_STARTTRANSACTION"@, "PREEMPTIVE_FSRECOVER_UNCONDITIONALUNDO"@)) by {
            reveal_strlit("PREEMPTIVE_FSAOLEDB_STARTTRANSACTION");
            reveal_strlit("PREEMPTIVE_FSRECOVER_UNCONDITIONALUNDO");
            reveal_with_fuel(name_lt_from, 15);
        }
    } else if r == 521 {
        assert(name_lt("PREEMPTIVE_FSRECOVER_UNCONDITIONALUNDO"@, "PREEMPTIVE_GETRMINFO"@)) by {
            reveal_strlit("PREEMPTIVE_FSRECOVER_UNCONDITIONALUNDO");
            reveal_strlit("PREEMPTIVE_GETRMINFO");
            reveal_with_fuel(name_lt_from, 13);
        }
    } else if r == 522 {
        assert(name_lt("PREEMPTIVE_GETRMINFO"@, "PREEMPTIVE_HADR_LEASE_MECHANISM"@)) by {
            reveal_strlit("PREEMPTIVE_GETRMINFO");
            reveal_strlit("PREEMPTIVE_HADR_LEASE_MECHANISM");
            reveal_with_fuel(name_lt_from, 13);
        }
    } else if r == 523 {
        assert(name_lt("PREEMPTIVE_HADR_LEASE_MECHANISM"@, "PREEMPTIVE_HTTP_EVENT_WAIT"@)) by {
            reveal_strlit("PREEMPTIVE_HADR_LEASE_MECHANISM");
            reveal_strlit("PREEMPTIVE_HTTP_EVENT_WAIT");
            reveal_with_fuel(name_lt_from, 14);
        }
    } else if r == 524 {
        assert(name_lt("PREEMPTIVE_HTTP_EVENT_WAIT"@, "PREEMPTIVE_HTTP_REQUEST"@)) by {
            reveal_strlit("PREEMPTIVE_HTTP_EVENT_WAIT");
            reveal_strlit("PREEMPTIVE_HTTP_REQUEST");
            reveal_with_fuel(name_lt_from, 18);
        }
    } else if r == 525 {
        assert(name_lt("PREEMPTIVE_HTTP_REQUEST"@, "PREEMPTIVE_LOCKMONITOR"@)) by {
            reveal_strlit("PREEMPTIVE_HTTP_REQUEST");
            reveal_strlit("PREEMPTIVE_LOCKMONITOR");
            reveal_with_fuel(name_lt_from, 13);
        }
    } else if r == 526 {
        assert(name_lt("PREEMPTIVE_LOCKMONITOR"@, "PREEMPTIVE_MSS_RELEASE"@)) by {
            reveal_strlit("PREEMPTIVE_LOCKMONITOR");
            reveal_strlit("PREEMPTIVE_MSS_RELEASE");
            reveal_with_fuel(name_lt_from, 13);
        }
    } else if r == 527 {
        assert(name_lt("PREEMPTIVE_MSS_RELEASE"@, "PREEMPTIVE_ODBCOPS"@)) by {
            reveal_strlit("PREEMPTIVE_MSS_RELEASE");
            reveal_strlit("PREEMPTIVE_ODBCOPS");
            reveal_with_fuel(name_lt_from, 13);
        }
    } else if r == 528 {
        assert(name_lt("PREEMPTIVE_ODBCOPS"@, "PREEMPTIVE_OLEDBOPS"@)) by {
            reveal_strlit("PREEMPTIVE_ODBCOPS");
            reveal_strlit("PREEMPTIVE_OLEDBOPS");
            reveal_with_fuel(name_lt_from, 14);
        }
    } else if r == 529 {
        assert(name_lt("PREEMPTIVE_OLEDBOPS"@, "PREEMPTIVE_OLEDB_ABORTORCOMMITTRAN"@)) by {
            reveal_strlit("PREEMPTIVE_OLEDBOPS");
            reveal_strlit("PREEMPTIVE_OLEDB_ABORTORCOMMITTRAN");
            reveal_with_fuel(name_lt_from, 18);
        }
    } else if r == 530 {
        assert(name_lt("PREEMPTIVE_OLEDB_ABORTORCOMMITTRAN"@, "PREEMPTIVE_OLEDB_ABORTTRAN"@)) by {
            reveal_strlit("PREEMPTIVE_OLEDB_ABORTORCOMMITTRAN");
            reveal_strlit("PREEMPTIVE_OLEDB_ABORTTRAN");
            reveal_with_fuel(name_lt_from, 24);
        }
    } else if r == 531 {
        assert(name_lt("PREEMPTIVE_OLEDB_ABORTTRAN"@, "PREEMPTIVE_OLEDB_GETDATASOURCE"@)) by {
            reveal_strlit("PREEMPTIVE_OLEDB_ABORTTRAN");
            reveal_strlit("PREEMPTIVE_OLEDB_GETDATASOURCE");
            reveal_with_fuel(name_lt_from, 19);
        }
    } else if r == 532 {
        assert(name_lt("PREEMPTIVE_OLEDB_GETDATASOURCE"@, "PREEMPTIVE_OLEDB_GETLITERALINFO"@)) by {
            reveal_strlit("PREEMPTIVE_OLEDB_GETDATASOURCE");
            reveal_strlit("PREEMPTIVE_OLEDB_GETLITERALINFO");
            reveal_with_fuel(name_lt_from, 22);
        }
    } else if r == 533 {
        assert(name_lt("PREEMPTIVE_OLEDB_GETLITERALINFO"@, "PREEMPTIVE_OLEDB_GETPROPERTIES"@)) by {
            reveal_strlit("PREEMPTIVE_OLEDB_GETLITERALINFO");
            reveal_strlit("PREEMPTIVE_OLEDB_GETPROPERTIES");
            reveal_with_fuel(name_lt_from, 22);
        }
    } else if r == 534 {
        assert(name_lt("PREEMPTIVE_OLEDB_GETPROPERTIES"@, "PREEMPTIVE_OLEDB_GETPROPERTYINFO"@)) by {
            reveal_strlit("PREEMPTIVE_OLEDB_GETPROPERTIES");
            reveal_strlit("PREEMPTIVE_OLEDB_GETPROPERTYINFO");
            reveal_with_fuel(name_lt_from, 29);
        }
    } else if r == 535 {
        assert(name_lt("PREEMPTIVE_OLEDB_GETPROPERTYINFO"@, "PREEMPTIVE_OLEDB_GETSCHEMALOCK"@)) by {
            reveal_strlit("PREEMPTIVE_OLEDB_GETPROPERTYINFO");
            reveal_strlit("PREEMPTIVE_OLEDB_GETSCHEMALOCK");
            reveal_with_fuel(name_lt_from, 22);
        }
    } else if r == 536 {
        assert(name_lt("PREEMPTIVE_OLEDB_GETSCHEMALOCK"@, "PREEMPTIVE_OLEDB_JOINTRANSACTION"@)) by {
            reveal_strlit("PREEMPTIVE_OLEDB_GETSCHEMALOCK");
            reveal_strlit("PREEMPTIVE_OLEDB_JOINTRANSACTION");
            reveal_with_fuel(name_lt_from, 19);
        }
    } else if r == 537 {
        assert(name_lt("PREEMPTIVE_OLEDB_JOINTRANSACTION"@, "PREEMPTIVE_OLEDB_RELEASE"@)) by {
            reveal_strlit("PREEMPTIVE_OLEDB_JOINTRANSACTION");
            reveal_strlit("PREEMPTIVE_OLEDB_RELEASE");
            reveal_with_fuel(name_lt_from, 19);
        }
    } else if r == 538 {
        assert(name_lt("PREEMPTIVE_OLEDB_RELEASE"@, "PREEMPTIVE_OLEDB_SETPROPERTIES"@)) by {
            reveal_strlit("PREEMPTIVE_OLEDB_RELEASE");
            reveal_strlit("PREEMPTIVE_OLEDB_SETPROPERTIES");
            reveal_with_fuel(name_lt_from, 19);
        }
    } else if r == 539 {
        assert(name_lt("PREEMPTIVE_OLEDB_SETPROPERTIES"@, "PREEMPTIVE_OLE_UNINIT"@)) by {
            reveal_strlit("PREEMPTIVE_OLEDB_SETPROPERTIES");
            reveal_strlit("PREEMPTIVE_OLE_UNINIT");
            reveal_with_fuel(name_lt_from, 16);
        }
    } else if r == 540 {
        assert(name_lt("PREEMPTIVE_OLE_UNINIT"@, "PREEMPTIVE_OS_ACCEPTSECURITYCONTEXT"@)) by {
            reveal_strlit("PREEMPTIVE_OLE_UNINIT");
            reveal_strlit("PREEMPTIVE_OS_ACCEPTSECURITYCONTEXT");
            reveal_with_fuel(name_lt_from, 14);
        }
    } else if r == 541 {
        assert(name_lt("PREEMPTIVE_OS_ACCEPTSECURITYCONTEXT"@, "PREEMPTIVE_OS_ACQUIRECREDENTIALSHANDLE"@)) by {
            reveal_strlit("PREEMPTIVE_OS_ACCEPTSECURITYCONTEXT");
            reveal_strlit("PREEMPTIVE_OS_ACQUIRECREDENTIALSHANDLE");
            reveal_with_fuel(name_lt_from, 18);
        }
    } else if r == 542 {
        assert(name_lt("PREEMPTIVE_OS_ACQUIRECREDENTIALSHANDLE"@, "PREEMPTIVE_OS_AUTHENTICATIONOPS"@)) by {
            reveal_strlit("PREEMPTIVE_OS_ACQUIRECREDENTIALSHANDLE");
            reveal_strlit("PREEMPTIVE_OS_AUTHENTICATIONOPS");
            reveal_with_fuel(name_lt_from, 17);
        }
    } else if r == 543 {
        assert(name_lt("PREEMPTIVE_OS_AUTHENTICATIONOPS"@, "PREEMPTIVE_OS_AUTHORIZATIONOPS"@)) by {
            reveal_strlit("PREEMPTIVE_OS_AUTHENTICATIONOPS");
            reveal_strlit("PREEMPTIVE_OS_AUTHORIZATIONOPS");
            reveal_with_fuel(name_lt_from, 20);
        }
    } else if r == 544 {
        assert(name_lt("PREEMPTIVE_OS_AUTHORIZATIONOPS"@, "PREEMPTIVE_OS_AUTHZGETINFORMATIONFROMCONTEXT"@)) by {
            reveal_strlit("PREEMPTIVE_OS_AUTHORIZATIONOPS");
            reveal_strlit("PREEMPTIVE_OS_AUTHZGETINFORMATIONFROMCONTEXT");
            reveal_with_fuel(name_lt_from, 20);
        }
    } else if r == 545 {
        assert(name_lt("PREEMPTIVE_OS_AUTHZGETINFORMATIONFROMCONTEXT"@, "PREEMPTIVE_OS_AUTHZINITIALIZECONTEXTFROMSID"@)) by {
            reveal_strlit("PREEMPTIVE_OS_AUTHZGETINFORMATIONFROMCONTEXT");
            reveal_strlit("PREEMPTIVE_OS_AUTHZINITIALIZECONTEXTFROMSID");
            reveal_with_fuel(name_lt_from, 21);
        }
    } else if r == 546 {
        assert(name_lt("PREEMPTIVE_OS_AUTHZINITIALIZECONTEXTFROMSID"@, "PREEMPTIVE_OS_AUTHZINITIALIZERESOURCEMANAGER"@)) by {
            reveal_strlit("PREEMPTIVE_OS_AUTHZINITIALIZECONTEXTFROMSID");
            reveal_strlit("PREEMPTIVE_OS_AUTHZINITIALIZERESOURCEMANAGER");
            reveal_with_fuel(name_lt_from, 31);
        }
    } else if r == 547 {
        assert(name_lt("PREEMPTIVE_OS_AUTHZINITIALIZERESOURCEMANAGER"@, "PREEMPTIVE_OS_BACKUPREAD"@)) by {
            reveal_strlit("PREEMPTIVE_OS_AUTHZINITIALIZERESOURCEMANAGER");
            reveal_strlit("PREEMPTIVE_OS_BACKUPREAD");
            reveal_with_fuel(name_lt_from, 16);
        }
    } else if r == 548 {
        assert(name_lt("PREEMPTIVE_OS_BACKUPREAD"@, "PREEMPTIVE_OS_CLOSEHANDLE"@)) by {
            reveal_strlit("PREEMPTIVE_OS_BACKUPREAD");
            reveal_strlit("PREEMPTIVE_OS_CLOSEHANDLE");
            reveal_with_fuel(name_lt_from, 16);
        }
    } else if r == 549 {
        assert(name_lt("PREEMPTIVE_OS_CLOSEHANDLE"@, "PREEMPTIVE_OS_CLUSTEROPS"@)) by {
            reveal_strlit("PREEMPTIVE_OS_CLOSEHANDLE");
            reveal_strlit("PREEMPTIVE_OS_CLUSTEROPS");
            reveal_with_fuel(name_lt_from, 18);
        }
    }
}

/// A wait type of part 11 has its place in that part, and the list has its
/// name at that place.
#[verifier::rlimit(60)]
proof fn lemma_rank_in_part_11(w: WaitType)
    requires
        in_part_11(w),
    ensures
        550 <= wait_type_rank(w) < 600,
        wait_type_at(wait_type_rank(w)) == w,
        name_at(wait_type_rank(w)) == wait_type_name(w),
        is_listed_wait_type(wait_type_name(w)),
{
    reveal(rank_in_part_11);
    reveal(ranked_in_part_11);
    reveal(name_in_part_11);
    reveal(listed_name_11);
    lemma_name_in_part_11(w);
}

/// The names at places 550 to 599 of the list are each followed by a greater one.
proof fn lemma_sorted_in_part_11(r: int)
    requires
        550 <= r < 600,
    ensures
        name_lt(name_at(r), name_at(r + 1)),
{
    reveal(name_in_part_11);
    reveal(name_in_part_12);
    if r == 550 {
        assert(name_lt("PREEMPTIVE_OS_CLUSTEROPS"@, "PREEMPTIVE_OS_COMOPS"@)) by {
            reveal_strlit("PREEMPTIVE_OS_CLUSTEROPS");
            reveal_strlit("PREEMPTIVE_OS_COMOPS");
            reveal_with_fuel(name_lt_from, 17);
        }
    } else if r == 551 {
        assert(name_lt("PREEMPTIVE_OS_COMOPS"@, "PREEMPTIVE_OS_COMPLETEAUTHTOKEN"@)) by {
            reveal_strlit("PREEMPTIVE_OS_COMOPS");
            reveal_strlit("PREEMPTIVE_OS_COMPLETEAUTHTOKEN");
            reveal_with_fuel(name_lt_from, 19);
        }
    } else if r == 552 {
        assert(name_lt("PREEMPTIVE_OS_COMPLETEAUTHTOKEN"@, "PREEMPTIVE_OS_COPYFILE"@)) by {
            reveal_strlit("PREEMPTIVE_OS_COMPLETEAUTHTOKEN");
            reveal_strlit("PREEMPTIVE_OS_COPYFILE");
            reveal_with_fuel(name_lt_from, 18);
        }
    } else if r == 553 {
        assert(name_lt("PREEMPTIVE_OS_COPYFILE"@, "PREEMPTIVE_OS_CREATEDIRECTORY"@)) by {
            reveal_strlit("PREEMPTIVE_OS_COPYFILE");
            reveal_strlit("PREEMPTIVE_OS_CREATEDIRECTORY");
            reveal_with_fuel(name_lt_from, 17);
        }
    } else if r == 554 {
        assert(name_lt("PREEMPTIVE_OS_CREATEDIRECTORY"@, "PREEMPTIVE_OS_CREATEFILE"@)) by {
            reveal_strlit("PREEMPTIVE_OS_CREATEDIRECTORY");
            reveal_strlit("PREEMPTIVE_OS_CREATEFILE");
            reveal_with_fuel(name_lt_from, 22);
        }
    } else if r == 555 {
        assert(name_lt("PREEMPTIVE_OS_CREATEFILE"@, "PREEMPTIVE_OS_CRYPTACQUIRECONTEXT"@)) by {
            reveal_strlit("PREEMPTIVE_OS_CREATEFILE");
            reveal_strlit("PREEMPTIVE_OS_CRYPTACQUIRECONTEXT");
            reveal_with_fuel(name_lt_from, 18);
        }
    } else if r == 556 {
        assert(name_lt("PREEMPTIVE_OS_CRYPTACQUIRECONTEXT"@, "PREEMPTIVE_OS_CRYPTIMPORTKEY"@)) by {
            reveal_strlit("PREEMPTIVE_OS_CRYPTACQUIRECONTEXT");
            reveal_strlit("PREEMPTIVE_OS_CRYPTIMPORTKEY");
            reveal_with_fuel(name_lt_from, 21);
        }
    } else if r == 557 {
        assert(name_lt("PREEMPTIVE_OS_CRYPTIMPORTKEY"@, "PREEMPTIVE_OS_CRYPTOPS"@)) by {
            reveal_strlit("PREEMPTIVE_OS_CRYPTIMPORTKEY");
            reveal_strlit("PREEMPTIVE_OS_CRYPTOPS");
            reveal_with_fuel(name_lt_from, 21);
        }
    } else if r == 558 {
        assert(name_lt("PREEMPTIVE_OS_CRYPTOPS"@, "PREEMPTIVE_OS_DECRYPTMESSAGE"@)) by {
            reveal_strlit("PREEMPTIVE_OS_CRYPTOPS");
            reveal_strlit("PREEMPTIVE_OS_DECRYPTMESSAGE");
            reveal_with_fuel(name_lt_from, 16);
        }
    } else if r == 559 {
        assert(name_lt("PREEMPTIVE_OS_DECRYPTMESSAGE"@, "PREEMPTIVE_OS_DELETEFILE"@)) by {
            reveal_strlit("PREEMPTIVE_OS_DECRYPTMESSAGE");
            reveal_strlit("PREEMPTIVE_OS_DELETEFILE");
            reveal_with_fuel(name_lt_from, 18);
        }
    } else if r == 560 {
        assert(name_lt("PREEMPTIVE_OS_DELETEFILE"@, "PREEMPTIVE_OS_DELETESECURITYCONTEXT"@)) by {
            reveal_strlit("PREEMPTIVE_OS_DELETEFILE");
            reveal_strlit("PREEMPTIVE_OS_DELETESECURITYCONTEXT");
            reveal_with_fuel(name_lt_from, 22);
        }
    } else if r == 561 {
        assert(name_lt("PREEMPTIVE_OS_DELETESECURITYCONTEXT"@, "PREEMPTIVE_OS_DEVICEIOCONTROL"@)) by {
            reveal_strlit("PREEMPTIVE_OS_DELETESECURITYCONTEXT");
            reveal_strlit("PREEMPTIVE_OS_DEVICEIOCONTROL");
            reveal_with_fuel(name_lt_from, 18);
        }
    } else if r == 562 {
        assert(name_lt("PREEMPTIVE_OS_DEVICEIOCONTROL"@, "PREEMPTIVE_OS_DEVICEOPS"@)) by {
            reveal_strlit("PREEMPTIVE_OS_DEVICEIOCONTROL");
            reveal_strlit("PREEMPTIVE_OS_DEVICEOPS");
            reveal_with_fuel(name_lt_from, 22);
        }
    } else if r == 563 {
        assert(name_lt("PREEMPTIVE_OS_DEVICEOPS"@, "PREEMPTIVE_OS_DIRSVC_NETWORKOPS"@)) by {
            reveal_strlit("PREEMPTIVE_OS_DEVICEOPS");
            reveal_strlit("PREEMPTIVE_OS_DIRSVC_NETWORKOPS");
            reveal_with_fuel(name_lt_from, 17);
        }
    } else if r == 564 {
        assert(name_lt("PREEMPTIVE_OS_DIRSVC_NETWORKOPS"@, "PREEMPTIVE_OS_DISCONNECTNAMEDPIPE"@)) by {
            reveal_strlit("PREEMPTIVE_OS_DIRSVC_NETWORKOPS");
            reveal_strlit("PREEMPTIVE_OS_DISCONNECTNAMEDPIPE");
            reveal_with_fuel(name_lt_from, 18);
        }
    } else if r == 565 {
        assert(name_lt("PREEMPTIVE_OS_DISCONNECTNAMEDPIPE"@, "PREEMPTIVE_OS_DOMAINSERVICESOPS"@)) by {
            reveal_strlit("PREEMPTIVE_OS_DISCONNECTNAMEDPIPE");
            reveal_strlit("PREEMPTIVE_OS_DOMAINSERVICESOPS");
            reveal_with_fuel(name_lt_from, 17);
        }
    } else if r == 566 {
        assert(name_lt("PREEMPTIVE_OS_DOMAINSERVICESOPS"@, "PREEMPTIVE_OS_DSGETDCNAME"@)) by {
            reveal_strlit("PREEMPTIVE_OS_DOMAINSERVICESOPS");
            reveal_strlit("PREEMPTIVE_OS_DSGETDCNAME");
            reveal_with_fuel(name_lt_from, 17);
        }
    } else if r == 567 {
        assert(name_lt("PREEMPTIVE_OS_DSGETDCNAME"@, "PREEMPTIVE_OS_DTCOPS"@)) by {
            reveal_strlit("PREEMPTIVE_OS_DSGETDCNAME");
            reveal_strlit("PREEMPTIVE_OS_DTCOPS");
            reveal_with_fuel(name_lt_from, 17);
        }
    } else if r == 568 {
        assert(name_lt("PREEMPTIVE_OS_DTCOPS"@, "PREEMPTIVE_OS_ENCRYPTMESSAGE"@)) by {
            reveal_strlit("PREEMPTIVE_OS_DTCOPS");
            reveal_strlit("PREEMPTIVE_OS_ENCRYPTMESSAGE");
            reveal_with_fuel(name_lt_from, 16);
        }
    } else if r == 569 {
        assert(name_lt("PREEMPTIVE_OS_ENCRYPTMESSAGE"@, "PREEMPTIVE_OS_FILEOPS"@)) by {
            reveal_strlit("PREEMPTIVE_OS_ENCRYPTMESSAGE");
            reveal_strlit("PREEMPTIVE_OS_FILEOPS");
            reveal_with_fuel(name_lt_from, 16);
        }
    } else if r == 570 {
        assert(name_lt("PREEMPTIVE_OS_FILEOPS"@, "PREEMPTIVE_OS_FINDFILE"@)) by {
            reveal_strlit("PREEMPTIVE_OS_FILEOPS");
            reveal_strlit("PREEMPTIVE_OS_FINDFILE");
            reveal_with_fuel(name_lt_from, 18);
        }
    } else if r == 571 {
        assert(name_lt("PREEMPTIVE_OS_FINDFILE"@, "PREEMPTIVE_OS_FLUSHFILEBUFFERS"@)) by {
            reveal_strlit("PREEMPTIVE_OS_FINDFILE");
            reveal_strlit("PREEMPTIVE_OS_FLUSHFILEBUFFERS");
            reveal_with_fuel(name_lt_from, 17);
        }
    } else if r == 572 {
        assert(name_lt("PREEMPTIVE_OS_FLUSHFILEBUFFERS"@, "PREEMPTIVE_OS_FORMATMESSAGE"@)) by {
            reveal_strlit("PREEMPTIVE_OS_FLUSHFILEBUFFERS");
            reveal_strlit("PREEMPTIVE_OS_FORMATMESSAGE");
            reveal_with_fuel(name_lt_from, 17);
        }
    } else if r == 573 {
        assert(name_lt("PREEMPTIVE_OS_FORMATMESSAGE"@, "PREEMPTIVE_OS_FREECREDENTIALSHANDLE"@)) by {
            reveal_strlit("PREEMPTIVE_OS_FORMATMESSAGE");
            reveal_strlit("PREEMPTIVE_OS_FREECREDENTIALSHANDLE");
            reveal_with_fuel(name_lt_from, 17);
        }
    } else if r == 574 {
        assert(name_lt("PREEMPTIVE_OS_FREECREDENTIALSHANDLE"@, "PREEMPTIVE_OS_FREELIBRARY"@)) by {
            reveal_strlit("PREEMPTIVE_OS_FREECREDENTIALSHANDLE");
            reveal_strlit("PREEMPTIVE_OS_FREELIBRARY");
            reveal_with_fuel(name_lt_from, 20);
        }
    } else if r == 575 {
        assert(name_lt("PREEMPTIVE_OS_FREELIBRARY"@, "PREEMPTIVE_OS_GENERICOPS"@)) by {
            reveal_strlit("PREEMPTIVE_OS_FREELIBRARY");
            reveal_strlit("PREEMPTIVE_OS_GENERICOPS");
            reveal_with_fuel(name_lt_from, 16);
        }
    } else if r == 576 {
        assert(name_lt("PREEMPTIVE_OS_GENERICOPS"@, "PREEMPTIVE_OS_GETADDRINFO"@)) by {
            reveal_strlit("PREEMPTIVE_OS_GENERICOPS");
            reveal_strlit("PREEMPTIVE_OS_GETADDRINFO");
            reveal_with_fuel(name_lt_from, 18);
        }
    } else if r == 577 {
        assert(name_lt("PREEMPTIVE_OS_GETADDRINFO"@, "PREEMPTIVE_OS_GETCOMPRESSEDFILESIZE"@)) by {
            reveal_strlit("PREEMPTIVE_OS_GETADDRINFO");
            reveal_strlit("PREEMPTIVE_OS_GETCOMPRESSEDFILESIZE");
            reveal_with_fuel(name_lt_from, 19);
        }
    } else if r == 578 {
        assert(name_lt("PREEMPTIVE_OS_GETCOMPRESSEDFILESIZE"@, "PREEMPTIVE_OS_GETDISKFREESPACE"@)) by {
            reveal_strlit("PREEMPTIVE_OS_GETCOMPRESSEDFILESIZE");
            reveal_strlit("PREEMPTIVE_OS_GETDISKFREESPACE");
            reveal_with_fuel(name_lt_from, 19);
        }
    } else if r == 579 {
        assert(name_lt("PREEMPTIVE_OS_GETDISKFREESPACE"@, "PREEMPTIVE_OS_GETFILEATTRIBUTES"@)) by {
            reveal_strlit("PREEMPTIVE_OS_GETDISKFREESPACE");
            reveal_strlit("PREEMPTIVE_OS_GETFILEATTRIBUTES");
            reveal_with_fuel(name_lt_from, 19);
        }
    } else if r == 580 {
        assert(name_lt("PREEMPTIVE_OS_GETFILEATTRIBUTES"@, "PREEMPTIVE_OS_GETFILESIZE"@)) by {
            reveal_strlit("PREEMPTIVE_OS_GETFILEATTRIBUTES");
            reveal_strlit("PREEMPTIVE_OS_GETFILESIZE");
            reveal_with_fuel(name_lt_from, 23);
        }
    } else if r == 581 {
        assert(name_lt("PREEMPTIVE_OS_GETFILESIZE"@, "PREEMPTIVE_OS_GETFINALFILEPATHBYHANDLE"@)) by {
            reveal_strlit("PREEMPTIVE_OS_GETFILESIZE");
            reveal_strlit("PREEMPTIVE_OS_GETFINALFILEPATHBYHANDLE");
            reveal_with_fuel(name_lt_from, 21);
        }
    } else if r == 582 {
        assert(name_lt("PREEMPTIVE_OS_GETFINALFILEPATHBYHANDLE"@, "PREEMPTIVE_OS_GETLONGPATHNAME"@)) by {
            reveal_strlit("PREEMPTIVE_OS_GETFINALFILEPATHBYHANDLE");
            reveal_strlit("PREEMPTIVE_OS_GETLONGPATHNAME");
            reveal_with_fuel(name_lt_from, 19);
        }
    } else if r == 583 {
        assert(name_lt("PREEMPTIVE_OS_GETLONGPATHNAME"@, "PREEMPTIVE_OS_GETPROCADDRESS"@)) by {
            reveal_strlit("PREEMPTIVE_OS_GETLONGPATHNAME");
            reveal_strlit("PREEMPTIVE_OS_GETPROCADDRESS");
            reveal_with_fuel(name_lt_from, 19);
        }
    } else if r == 584 {
        assert(name_lt("PREEMPTIVE_OS_GETPROCADDRESS"@, "PREEMPTIVE_OS_GETVOLUMENAMEFORVOLUMEMOUNTPOINT"@)) by {
            reveal_strlit("PREEMPTIVE_OS_GETPROCADDRESS");
            reveal_strlit("PREEMPTIVE_OS_GETVOLUMENAMEFORVOLUMEMOUNTPOINT");
            reveal_with_fuel(name_lt_from, 19);
        }
    } else if r == 585 {
        assert(name_lt("PREEMPTIVE_OS_GETVOLUMENAMEFORVOLUMEMOUNTPOINT"@, "PREEMPTIVE_OS_GETVOLUMEPATHNAME"@)) by {
            reveal_strlit("PREEMPTIVE_OS_GETVOLUMENAMEFORVOLUMEMOUNTPOINT");
            reveal_strlit("PREEMPTIVE_OS_GETVOLUMEPATHNAME");
            reveal_with_fuel(name_lt_from, 25);
        }
    } else if r == 586 {
        assert(name_lt("PREEMPTIVE_OS_GETVOLUMEPATHNAME"@, "PREEMPTIVE_OS_INITIALIZESECURITYCONTEXT"@)) by {
            reveal_strlit("PREEMPTIVE_OS_GETVOLUMEPATHNAME");
            reveal_strlit("PREEMPTIVE_OS_INITIALIZESECURITYCONTEXT");
            reveal_with_fuel(name_lt_from, 16);
        }
    } else if r == 587 {
        assert(name_lt("PREEMPTIVE_OS_INITIALIZESECURITYCONTEXT"@, "PREEMPTIVE_OS_LIBRARYOPS"@)) by {
            reveal_strlit("PREEMPTIVE_OS_INITIALIZESECURITYCONTEXT");
            reveal_strlit("PREEMPTIVE_OS_LIBRARYOPS");
            reveal_with_fuel(name_lt_from, 16);
        }
    } else if r == 588 {
        assert(name_lt("PREEMPTIVE_OS_LIBRARYOPS"@, "PREEMPTIVE_OS_LOADLIBRARY"@)) by {
            reveal_strlit("PREEMPTIVE_OS_LIBRARYOPS");
            reveal_strlit("PREEMPTIVE_OS_LOADLIBRARY");
            reveal_with_fuel(name_lt_from, 17);
        }
    } else if r == 589 {
        assert(name_lt("PREEMPTIVE_OS_LOADLIBRARY"@, "PREEMPTIVE_OS_LOGONUSER"@)) by {
            reveal_strlit("PREEMPTIVE_OS_LOADLIBRARY");
            reveal_strlit("PREEMPTIVE_OS_LOGONUSER");
            reveal_with_fuel(name_lt_from, 18);
        }
    } else if r == 590 {
        assert(name_lt("PREEMPTIVE_OS_LOGONUSER"@, "PREEMPTIVE_OS_LOOKUPACCOUNTSID"@)) by {
            reveal_strlit("PREEMPTIVE_OS_LOGONUSER");
            reveal_strlit("PREEMPTIVE_OS_LOOKUPACCOUNTSID");
            reveal_with_fuel(name_lt_from, 18);
        }
    } else if r == 591 {
        assert(name_lt("PREEMPTIVE_OS_LOOKUPACCOUNTSID"@, "PREEMPTIVE_OS_MESSAGEQUEUEOPS"@)) by {
            reveal_strlit("PREEMPTIVE_OS_LOOKUPACCOUNTSID");
            reveal_strlit("PREEMPTIVE_OS_MESSAGEQUEUEOPS");
            reveal_with_fuel(name_lt_from, 16);
        }
    } else if r == 592 {
        assert(name_lt("PREEMPTIVE_OS_MESSAGEQUEUEOPS"@, "PREEMPTIVE_OS_MOVEFILE"@)) by {
            reveal_strlit("PREEMPTIVE_OS_MESSAGEQUEUEOPS");
            reveal_strlit("PREEMPTIVE_OS_MOVEFILE");
            reveal_with_fuel(name_lt_from, 17);
        }
    } else if r == 593 {
        assert(name_lt("PREEMPTIVE_OS_MOVEFILE"@, "PREEMPTIVE_OS_NETGROUPGETUSERS"@)) by {
            reveal_strlit("PREEMPTIVE_OS_MOVEFILE");
            reveal_strlit("PREEMPTIVE_OS_NETGROUPGETUSERS");
            reveal_with_fuel(name_lt_from, 16);
        }
    } else if r == 594 {
        assert(name_lt("PREEMPTIVE_OS_NETGROUPGETUSERS"@, "PREEMPTIVE_OS_NETLOCALGROUPGETMEMBERS"@)) by {
            reveal_strlit("PREEMPTIVE_OS_NETGROUPGETUSERS");
            reveal_strlit("PREEMPTIVE_OS_NETLOCALGROUPGETMEMBERS");
            reveal_with_fuel(name_lt_from, 19);
        }
    } else if r == 595 {
        assert(name_lt("PREEMPTIVE_OS_NETLOCALGROUPGETMEMBERS"@, "PREEMPTIVE_OS_NETUSERGETGROUPS"@)) by {
            reveal_strlit("PREEMPTIVE_OS_NETLOCALGROUPGETMEMBERS");
            reveal_strlit("PREEMPTIVE_OS_NETUSERGETGROUPS");
            reveal_with_fuel(name_lt_from, 19);
        }
    } else if r == 596 {
        assert(name_lt("PREEMPTIVE_OS_NETUSERGETGROUPS"@, "PREEMPTIVE_OS_NETUSERGETLOCALGROUPS"@)) by {
            reveal_strlit("PREEMPTIVE_OS_NETUSERGETGROUPS");
            reveal_strlit("PREEMPTIVE_OS_NETUSERGETLOCALGROUPS");
            reveal_with_fuel(name_lt_from, 26);
        }
    } else if r == 597 {
        assert(name_lt("PREEMPTIVE_OS_NETUSERGETLOCALGROUPS"@, "PREEMPTIVE_OS_NETUSERMODALSGET"@)) by {
            reveal_strlit("PREEMPTIVE_OS_NETUSERGETLOCALGROUPS");
            reveal_strlit("PREEMPTIVE_OS_NETUSERMODALSGET");
            reveal_with_fuel(name_lt_from, 23);
        }
    } else if r == 598 {
        assert(name_lt("PREEMPTIVE_OS_NETUSERMODALSGET"@, "PREEMPTIVE_OS_NETVALIDATEPASSWORDPOLICY"@)) by {
            reveal_strlit("PREEMPTIVE_OS_NETUSERMODALSGET");
            reveal_strlit("PREEMPTIVE_OS_NETVALIDATEPASSWORDPOLICY");
            reveal_with_fuel(name_lt_from, 19);
        }
    } else if r == 599 {
        assert(name_lt("PREEMPTIVE_OS_NETVALIDATEPASSWORDPOLICY"@, "PREEMPTIVE_OS_NETVALIDATEPASSWORDPOLICYFREE"@)) by {
            reveal_strlit("PREEMPTIVE_OS_NETVALIDATEPASSWORDPOLICY");
            reveal_strlit("PREEMPTIVE_OS_NETVALIDATEPASSWORDPOLICYFREE");
            reveal_with_fuel(name_lt_from, 41);
        }
    }
}

/// A wait type of part 12 has its place in that part, and the list has its
/// name at that place.
#[verifier::rlimit(60)]
proof fn lemma_rank_in_part_12(w: WaitType)
    requires
        in_part_12(w),
    ensures
        600 <= wait_type_rank(w) < 650,
        wait_type_at(wait_type_rank(w)) == w,
        name_at(wait_type_rank(w)) == wait_type_name(w),
        is_listed_wait_type(wait_type_name(w)),
{
    reveal(rank_in_part_12);
    reveal(ranked_in_part_12);
    reveal(name_in_part_12);
    reveal(listed_name_12);
    lemma_name_in_part_12(w);
}

/// The names at places 600 to 649 of the list are each followed by a greater one.
proof fn lemma_sorted_in_part_12(r: int)
    requires
        600 <= r < 650,
    ensures
        name_lt(name_at(r), name_at(r + 1)),
{
    reveal(name_in_part_12);
    reveal(name_in_part_13);
    if r == 600 {
        assert(name_lt("PREEMPTIVE_OS_NETVALIDATEPASSWORDPOLICYFREE"@, "PREEMPTIVE_OS_OPENDIRECTORY"@)) by {
            reveal_strlit("PREEMPTIVE_OS_NETVALIDATEPASSWORDPOLICYFREE");
            reveal_strlit("PREEMPTIVE_OS_OPENDIRECTORY");
            reveal_with_fuel(name_lt_from, 16);
        }
    } else if r == 601 {
        assert(name_lt("PREEMPTIVE_OS_OPENDIRECTORY"@, "PREEMPTIVE_OS_PDH_WMI_INIT"@)) by {
            reveal_strlit("PREEMPTIVE_OS_OPENDIRECTORY");
            reveal_strlit("PREEMPTIVE_OS_PDH_WMI_INIT");
            reveal_with_fuel(name_lt_from, 16);
        }
    } else if r == 602 {
        assert(name_lt("PREEMPTIVE_OS_PDH_WMI_INIT"@, "PREEMPTIVE_OS_PIPEOPS"@)) by {
            reveal_strlit("PREEMPTIVE_OS_PDH_WMI_INIT");
            reveal_strlit("PREEMPTIVE_OS_PIPEOPS");
            reveal_with_fuel(name_lt_from, 17);
        }
    } else if r == 603 {
        assert(name_lt("PREEMPTIVE_OS_PIPEOPS"@, "PREEMPTIVE_OS_PROCESSOPS"@)) by {
            reveal_strlit("PREEMPTIVE_OS_PIPEOPS");
            reveal_strlit("PREEMPTIVE_OS_PROCESSOPS");
            reveal_with_fuel(name_lt_from, 17);
        }
    } else if r == 604 {
        assert(name_lt("PREEMPTIVE_OS_PROCESSOPS"@, "PREEMPTIVE_OS_QUERYCONTEXTATTRIBUTES"@)) by {
            reveal_strlit("PREEMPTIVE_OS_PROCESSOPS");
            reveal_strlit("PREEMPTIVE_OS_QUERYCONTEXTATTRIBUTES");
            reveal_with_fuel(name_lt_from, 16);
        }
    } else if r == 605 {
        assert(name_lt("PREEMPTIVE_OS_QUERYCONTEXTATTRIBUTES"@, "PREEMPTIVE_OS_QUERYREGISTRY"@)) by {
            reveal_strlit("PREEMPTIVE_OS_QUERYCONTEXTATTRIBUTES");
            reveal_strlit("PREEMPTIVE_OS_QUERYREGISTRY");
            reveal_with_fuel(name_lt_from, 21);
        }
    } else if r == 606 {
        assert(name_lt("PREEMPTIVE_OS_QUERYREGISTRY"@, "PREEMPTIVE_OS_QUERYSECURITYCONTEXTTOKEN"@)) by {
            reveal_strlit("PREEMPTIVE_OS_QUERYREGISTRY");
            reveal_strlit("PREEMPTIVE_OS_QUERYSECURITYCONTEXTTOKEN");
            reveal_with_fuel(name_lt_from, 21);
        }
    } else if r == 607 {
        assert(name_lt("PREEMPTIVE_OS_QUERYSECURITYCONTEXTTOKEN"@, "PREEMPTIVE_OS_REMOVEDIRECTORY"@)) by {
            reveal_strlit("PREEMPTIVE_OS_QUERYSECURITYCONTEXTTOKEN");
            reveal_strlit("PREEMPTIVE_OS_REMOVEDIRECTORY");
            reveal_with_fuel(name_lt_from, 16);
        }
    } else if r == 608 {
        assert(name_lt("PREEMPTIVE_OS_REMOVEDIRECTORY"@, "PREEMPTIVE_OS_REPORTEVENT"@)) by {
            reveal_strlit("PREEMPTIVE_OS_REMOVEDIRECTORY");
            reveal_strlit("PREEMPTIVE_OS_REPORTEVENT");
            reveal_with_fuel(name_lt_from, 18);
        }
    } else if r == 609 {
        assert(name_lt("PREEMPTIVE_OS_REPORTEVENT"@, "PREEMPTIVE_OS_REVERTTOSELF"@)) by {
            reveal_strlit("PREEMPTIVE_OS_REPORTEVENT");
            reveal_strlit("PREEMPTIVE_OS_REVERTTOSELF");
            reveal_with_fuel(name_lt_from, 18);
        }
    } else if r == 610 {
        assert(name_lt("PREEMPTIVE_OS_REVERTTOSELF"@, "PREEMPTIVE_OS_RSFXDEVICEOPS"@)) by {
            reveal_strlit("PREEMPTIVE_OS_REVERTTOSELF");
            reveal_strlit("PREEMPTIVE_OS_RSFXDEVICEOPS");
            reveal_with_fuel(name_lt_from, 17);
        }
    } else if r == 611 {
        assert(name_lt("PREEMPTIVE_OS_RSFXDEVICEOPS"@, "PREEMPTIVE_OS_SECURITYOPS"@)) by {
            reveal_strlit("PREEMPTIVE_OS_RSFXDEVICEOPS");
            reveal_strlit("PREEMPTIVE_OS_SECURITYOPS");
            reveal_with_fuel(name_lt_from, 16);
        }
    } else if r == 612 {
        assert(name_lt("PREEMPTIVE_OS_SECURITYOPS"@, "PREEMPTIVE_OS_SERVICEOPS"@)) by {
            reveal_strlit("PREEMPTIVE_OS_SECURITYOPS");
            reveal_strlit("PREEMPTIVE_OS_SERVICEOPS");
            reveal_with_fuel(name_lt_from, 18);
        }
    } else if r == 613 {
        assert(name_lt("PREEMPTIVE_OS_SERVICEOPS"@, "PREEMPTIVE_OS_SETENDOFFILE"@)) by {
            reveal_strlit("PREEMPTIVE_OS_SERVICEOPS");
            reveal_strlit("PREEMPTIVE_OS_SETENDOFFILE");
            reveal_with_fuel(name_lt_from, 18);
        }
    } else if r == 614 {
        assert(name_lt("PREEMPTIVE_OS_SETENDOFFILE"@, "PREEMPTIVE_OS_SETFILEPOINTER"@)) by {
            reveal_strlit("PREEMPTIVE_OS_SETENDOFFILE");
            reveal_strlit("PREEMPTIVE_OS_SETFILEPOINTER");
            reveal_with_fuel(name_lt_from, 19);
        }
    } else if r == 615 {
        assert(name_lt("PREEMPTIVE_OS_SETFILEPOINTER"@, "PREEMPTIVE_OS_SETFILEVALIDDATA"@)) by {
            reveal_strlit("PREEMPTIVE_OS_SETFILEPOINTER");
            reveal_strlit("PREEMPTIVE_OS_SETFILEVALIDDATA");
            reveal_with_fuel(name_lt_from, 23);
        }
    } else if r == 616 {
        assert(name_lt("PREEMPTIVE_OS_SETFILEVALIDDATA"@, "PREEMPTIVE_OS_SETNAMEDSECURITYINFO"@)) by {
            reveal_strlit("PREEMPTIVE_OS_SETFILEVALIDDATA");
            reveal_strlit("PREEMPTIVE_OS_SETNAMEDSECURITYINFO");
            reveal_with_fuel(name_lt_from, 19);
        }
    } else if r == 617 {
        assert(name_lt("PREEMPTIVE_OS_SETNAMEDSECURITYINFO"@, "PREEMPTIVE_OS_SQLCLROPS"@)) by {
            reveal_strlit("PREEMPTIVE_OS_SETNAMEDSECURITYINFO");
            reveal_strlit("PREEMPTIVE_OS_SQLCLROPS");
            reveal_with_fuel(name_lt_from, 17);
        }
    } else if r == 618 {
        assert(name_lt("PREEMPTIVE_OS_SQLCLROPS"@, "PREEMPTIVE_OS_SQMLAUNCH"@)) by {
            reveal_strlit("PREEMPTIVE_OS_SQLCLROPS");
            reveal_strlit("PREEMPTIVE_OS_SQMLAUNCH");
            reveal_with_fuel(name_lt_from, 18);
        }
    } else if r == 619 {
        assert(name_lt("PREEMPTIVE_OS_SQMLAUNCH"@, "PREEMPTIVE_OS_VERIFYSIGNATURE"@)) by {
            reveal_strlit("PREEMPTIVE_OS_SQMLAUNCH");
            reveal_strlit("PREEMPTIVE_OS_VERIFYSIGNATURE");
            reveal_with_fuel(name_lt_from, 16);
        }
    } else if r == 620 {
        assert(name_lt("PREEMPTIVE_OS_VERIFYSIGNATURE"@, "PREEMPTIVE_OS_VERIFYTRUST"@)) by {
            reveal_strlit("PREEMPTIVE_OS_VERIFYSIGNATURE");
            reveal_strlit("PREEMPTIVE_OS_VERIFYTRUST");
            reveal_with_fuel(name_lt_from, 22);
        }
    } else if r == 621 {
        assert(name_lt("PREEMPTIVE_OS_VERIFYTRUST"@, "PREEMPTIVE_OS_VSSOPS"@)) by {
            reveal_strlit("PREEMPTIVE_OS_VERIFYTRUST");
            reveal_strlit("PREEMPTIVE_OS_VSSOPS");
            reveal_with_fuel(name_lt_from, 17);
        }
    } else if r == 622 {
        assert(name_lt("PREEMPTIVE_OS_VSSOPS"@, "PREEMPTIVE_OS_WAITFORSINGLEOBJECT"@)) by {
            reveal_strlit("PREEMPTIVE_OS_VSSOPS");
            reveal_strlit("PREEMPTIVE_OS_WAITFORSINGLEOBJECT");
            reveal_with_fuel(name_lt_from, 16);
        }
    } else if r == 623 {
        assert(name_lt("PREEMPTIVE_OS_WAITFORSINGLEOBJECT"@, "PREEMPTIVE_OS_WINSOCKOPS"@)) by {
            reveal_strlit("PREEMPTIVE_OS_WAITFORSINGLEOBJECT");
            reveal_strlit("PREEMPTIVE_OS_WINSOCKOPS");
            reveal_with_fuel(name_lt_from, 17);
        }
    } else if r == 624 {
        assert(name_lt("PREEMPTIVE_OS_WINSOCKOPS"@, "PREEMPTIVE_OS_WRITEFILE"@)) by {
            reveal_strlit("PREEMPTIVE_OS_WINSOCKOPS");
            reveal_strlit("PREEMPTIVE_OS_WRITEFILE");
            reveal_with_fuel(name_lt_from, 17);
        }
    } else if r == 625 {
        assert(name_lt("PREEMPTIVE_OS_WRITEFILE"@, "PREEMPTIVE_OS_WRITEFILEGATHER"@)) by {
            reveal_strlit("PREEMPTIVE_OS_WRITEFILE");
            reveal_strlit("PREEMPTIVE_OS_WRITEFILEGATHER");
            reveal_with_fuel(name_lt_from, 25);
        }
    } else if r == 626 {
        assert(name_lt("PREEMPTIVE_OS_WRITEFILEGATHER"@, "PREEMPTIVE_OS_WSASETLASTERROR"@)) by {
            reveal_strlit("PREEMPTIVE_OS_WRITEFILEGATHER");
            reveal_strlit("PREEMPTIVE_OS_WSASETLASTERROR");
            reveal_with_fuel(name_lt_from, 17);
        }
    } else if r == 627 {
        assert(name_lt("PREEMPTIVE_OS_WSASETLASTERROR"@, "PREEMPTIVE_REENLIST"@)) by {
            reveal_strlit("PREEMPTIVE_OS_WSASETLASTERROR");
            reveal_strlit("PREEMPTIVE_REENLIST");
            reveal_with_fuel(name_lt_from, 13);
        }
    } else if r == 628 {
        assert(name_lt("PREEMPTIVE_REENLIST"@, "PREEMPTIVE_RESIZELOG"@)) by {
            reveal_strlit("PREEMPTIVE_REENLIST");
            reveal_strlit("PREEMPTIVE_RESIZELOG");
            reveal_with_fuel(name_lt_from, 15);
        }
    } else if r == 629 {
        assert(name_lt("PREEMPTIVE_RESIZELOG"@, "PREEMPTIVE_ROLLFORWARDREDO"@)) by {
            reveal_strlit("PREEMPTIVE_RESIZELOG");
            reveal_strlit("PREEMPTIVE_ROLLFORWARDREDO");
            reveal_with_fuel(name_lt_from, 14);
        }
    } else if r == 630 {
        assert(name_lt("PREEMPTIVE_ROLLFORWARDREDO"@, "PREEMPTIVE_ROLLFORWARDUNDO"@)) by {
            reveal_strlit("PREEMPTIVE_ROLLFORWARDREDO");
            reveal_strlit("PREEMPTIVE_ROLLFORWARDUNDO");
            reveal_with_fuel(name_lt_from, 24);
        }
    } else if r == 631 {
        assert(name_lt("PREEMPTIVE_ROLLFORWARDUNDO"@, "PREEMPTIVE_SB_STOPENDPOINT"@)) by {
            reveal_strlit("PREEMPTIVE_ROLLFORWARDUNDO");
            reveal_strlit("PREEMPTIVE_SB_STOPENDPOINT");
            reveal_with_fuel(name_lt_from, 13);
        }
    } else if r == 632 {
        assert(name_lt("PREEMPTIVE_SB_STOPENDPOINT"@, "PREEMPTIVE_SERVER_STARTUP"@)) by {
            reveal_strlit("PREEMPTIVE_SB_STOPENDPOINT");
            reveal_strlit("PREEMPTIVE_SERVER_STARTUP");
            reveal_with_fuel(name_lt_from, 14);
        }
    } else if r == 633 {
        assert(name_lt("PREEMPTIVE_SERVER_STARTUP"@, "PREEMPTIVE_SETRMINFO"@)) by {
            reveal_strlit("PREEMPTIVE_SERVER_STARTUP");
            reveal_strlit("PREEMPTIVE_SETRMINFO");
            reveal_with_fuel(name_lt_from, 15);
        }
    } else if r == 634 {
        assert(name_lt("PREEMPTIVE_SETRMINFO"@, "PREEMPTIVE_SHAREDMEM_GETDATA"@)) by {
            reveal_strlit("PREEMPTIVE_SETRMINFO");
            reveal_strlit("PREEMPTIVE_SHAREDMEM_GETDATA");
            reveal_with_fuel(name_lt_from, 14);
        }
    } else if r == 635 {
        assert(name_lt("PREEMPTIVE_SHAREDMEM_GETDATA"@, "PREEMPTIVE_SNIOPEN"@)) by {
            reveal_strlit("PREEMPTIVE_SHAREDMEM_GETDATA");
            reveal_strlit("PREEMPTIVE_SNIOPEN");
            reveal_with_fuel(name_lt_from, 14);
        }
    } else if r == 636 {
        assert(name_lt("PREEMPTIVE_SNIOPEN"@, "PREEMPTIVE_SOSHOST"@)) by {
            reveal_strlit("PREEMPTIVE_SNIOPEN");
            reveal_strlit("PREEMPTIVE_SOSHOST");
            reveal_with_fuel(name_lt_from, 14);
        }
    } else if r == 637 {
        assert(name_lt("PREEMPTIVE_SOSHOST"@, "PREEMPTIVE_SOSTESTING"@)) by {
            reveal_strlit("PREEMPTIVE_SOSHOST");
            reveal_strlit("PREEMPTIVE_SOSTESTING");
            reveal_with_fuel(name_lt_from, 16);
        }
    } else if r == 638 {
        assert(name_lt("PREEMPTIVE_SOSTESTING"@, "PREEMPTIVE_SP_SERVER_DIAGNOSTICS"@)) by {
            reveal_strlit("PREEMPTIVE_SOSTESTING");
            reveal_strlit("PREEMPTIVE_SP_SERVER_DIAGNOSTICS");
            reveal_with_fuel(name_lt_from, 14);
        }
    } else if r == 639 {
        assert(name_lt("PREEMPTIVE_SP_SERVER_DIAGNOSTICS"@, "PREEMPTIVE_STARTRM"@)) by {
            reveal_strlit("PREEMPTIVE_SP_SERVER_DIAGNOSTICS");
            reveal_strlit("PREEMPTIVE_STARTRM");
            reveal_with_fuel(name_lt_from, 14);
        }
    } else if r == 640 {
        assert(name_lt("PREEMPTIVE_STARTRM"@, "PREEMPTIVE_STREAMFCB_CHECKPOINT"@)) by {
            reveal_strlit("PREEMPTIVE_STARTRM");
            reveal_strlit("PREEMPTIVE_STREAMFCB_CHECKPOINT");
            reveal_with_fuel(name_lt_from, 15);
        }
    } else if r == 641 {
        assert(name_lt("PREEMPTIVE_STREAMFCB_CHECKPOINT"@, "PREEMPTIVE_STREAMFCB_RECOVER"@)) by {
            reveal_strlit("PREEMPTIVE_STREAMFCB_CHECKPOINT");
            reveal_strlit("PREEMPTIVE_STREAMFCB_RECOVER");
            reveal_with_fuel(name_lt_from, 23);
        }
    } else if r == 642 {
        assert(name_lt("PREEMPTIVE_STREAMFCB_RECOVER"@, "PREEMPTIVE_STRESSDRIVER"@)) by {
            reveal_strlit("PREEMPTIVE_STREAMFCB_RECOVER");
            reveal_strlit("PREEMPTIVE_STRESSDRIVER");
            reveal_with_fuel(name_lt_from, 17);
        }
    } else if r == 643 {
        assert(name_lt("PREEMPTIVE_STRESSDRIVER"@, "PREEMPTIVE_TESTING"@)) by {
            reveal_strlit("PREEMPTIVE_STRESSDRIVER");
            reveal_strlit("PREEMPTIVE_TESTING");
            reveal_with_fuel(name_lt_from, 13);
        }
    } else if r == 644 {
        assert(name_lt("PREEMPTIVE_TESTING"@, "PREEMPTIVE_TRANSIMPORT"@)) by {
            reveal_strlit("PREEMPTIVE_TESTING");
            reveal_strlit("PREEMPTIVE_TRANSIMPORT");
            reveal_with_fuel(name_lt_from, 14);
        }
    } else if r == 645 {
        assert(name_lt("PREEMPTIVE_TRANSIMPORT"@, "PREEMPTIVE_UNMARSHALPROPAGATIONTOKEN"@)) by {
            reveal_strlit("PREEMPTIVE_TRANSIMPORT");
            reveal_strlit("PREEMPTIVE_UNMARSHALPROPAGATIONTOKEN");
            reveal_with_fuel(name_lt_from, 13);
        }
    } else if r == 646 {
        assert(name_lt("PREEMPTIVE_UNMARSHALPROPAGATIONTOKEN"@, "PREEMPTIVE_VSS_CREATESNAPSHOT"@)) by {
            reveal_strlit("PREEMPTIVE_UNMARSHALPROPAGATIONTOKEN");
            reveal_strlit("PREEMPTIVE_VSS_CREATESNAPSHOT");
            reveal_with_fuel(name_lt_from, 13);
        }
    } else if r == 647 {
        assert(name_lt("PREEMPTIVE_VSS_CREATESNAPSHOT"@, "PREEMPTIVE_VSS_CREATEVOLUMESNAPSHOT"@)) by {
            reveal_strlit("PREEMPTIVE_VSS_CREATESNAPSHOT");
            reveal_strlit("PREEMPTIVE_VSS_CREATEVOLUMESNAPSHOT");
            reveal_with_fuel(name_lt_from, 23);
        }
    } else if r == 648 {
        assert(name_lt("PREEMPTIVE_VSS_CREATEVOLUMESNAPSHOT"@, "PREEMPTIVE_XETESTING"@)) by {
            reveal_strlit("PREEMPTIVE_VSS_CREATEVOLUMESNAPSHOT");
            reveal_strlit("PREEMPTIVE_XETESTING");
            reveal_with_fuel(name_lt_from, 13);
        }
    } else if r == 649 {
        assert(name_lt("PREEMPTIVE_XETESTING"@, "PREEMPTIVE_XE_CALLBACKEXECUTE"@)) by {
            reveal_strlit("PREEMPTIVE_XETESTING");
            reveal_strlit("PREEMPTIVE_XE_CALLBACKEXECUTE");
            reveal_with_fuel(name_lt_from, 15);
        }
    }
}

/// A wait type of part 13 has its place in that part, and the list has its
/// name at that place.
#[verifier::rlimit(60)]
proof fn lemma_rank_in_part_13(w: WaitType)
    requires
        in_part_13(w),
    ensures
        650 <= wait_type_rank(w) < 700,
        wait_type_at(wait_type_rank(w)) == w,
        name_at(wait_type_rank(w)) == wait_type_name(w),
        is_listed_wait_type(wait_type_name(w)),
{
    reveal(rank_in_part_13);
    reveal(ranked_in_part_13);
    reveal(name_in_part_13);
    reveal(listed_name_13);
    lemma_name_in_part_13(w);
}

/// The names at places 650 to 699 of the list are each followed by a greater one.
proof fn lemma_sorted_in_part_13(r: int)
    requires
        650 <= r < 700,
    ensures
        name_lt(name_at(r), name_at(r + 1)),
{
    reveal(name_in_part_13);
    reveal(name_in_part_14);
    if r == 650 {
        assert(name_lt("PREEMPTIVE_XE_CALLBACKEXECUTE"@, "PREEMPTIVE_XE_CX_FILE_OPEN"@)) by {
            reveal_strlit("PREEMPTIVE_XE_CALLBACKEXECUTE");
            reveal_strlit("PREEMPTIVE_XE_CX_FILE_OPEN");
            reveal_with_fuel(name_lt_from, 17);
        }
    } else if r == 651 {
        assert(name_lt("PREEMPTIVE_XE_CX_FILE_OPEN"@, "PREEMPTIVE_XE_CX_HTTP_CALL"@)) by {
            reveal_strlit("PREEMPTIVE_XE_CX_FILE_OPEN");
            reveal_strlit("PREEMPTIVE_XE_CX_HTTP_CALL");
            reveal_with_fuel(name_lt_from, 19);
        }
    } else if r == 652 {
        assert(name_lt("PREEMPTIVE_XE_CX_HTTP_CALL"@, "PREEMPTIVE_XE_DISPATCHER"@)) by {
            reveal_strlit("PREEMPTIVE_XE_CX_HTTP_CALL");
            reveal_strlit("PREEMPTIVE_XE_DISPATCHER");
            reveal_with_fuel(name_lt_from, 16);
        }
    } else if r == 653 {
        assert(name_lt("PREEMPTIVE_XE_DISPATCHER"@, "PREEMPTIVE_XE_ENGINEINIT"@)) by {
            reveal_strlit("PREEMPTIVE_XE_DISPATCHER");
            reveal_strlit("PREEMPTIVE_XE_ENGINEINIT");
            reveal_with_fuel(name_lt_from, 16);
        }
    } else if r == 654 {
        assert(name_lt("PREEMPTIVE_XE_ENGINEINIT"@, "PREEMPTIVE_XE_GETTARGETSTATE"@)) by {
            reveal_strlit("PREEMPTIVE_XE_ENGINEINIT");
            reveal_strlit("PREEMPTIVE_XE_GETTARGETSTATE");
            reveal_with_fuel(name_lt_from, 16);
        }
    } else if r == 655 {
        assert(name_lt("PREEMPTIVE_XE_GETTARGETSTATE"@, "PREEMPTIVE_XE_SESSIONCOMMIT"@)) by {
            reveal_strlit("PREEMPTIVE_XE_GETTARGETSTATE");
            reveal_strlit("PREEMPTIVE_XE_SESSIONCOMMIT");
            reveal_with_fuel(name_lt_from, 16);
        }
    } else if r == 656 {
        assert(name_lt("PREEMPTIVE_XE_SESSIONCOMMIT"@, "PREEMPTIVE_XE_TARGETFINALIZE"@)) by {
            reveal_strlit("PREEMPTIVE_XE_SESSIONCOMMIT");
            reveal_strlit("PREEMPTIVE_XE_TARGETFINALIZE");
            reveal_with_fuel(name_lt_from, 16);
        }
    } else if r == 657 {
        assert(name_lt("PREEMPTIVE_XE_TARGETFINALIZE"@, "PREEMPTIVE_XE_TARGETINIT"@)) by {
            reveal_strlit("PREEMPTIVE_XE_TARGETFINALIZE");
            reveal_strlit("PREEMPTIVE_XE_TARGETINIT");
            reveal_with_fuel(name_lt_from, 22);
        }
    } else if r == 658 {
        assert(name_lt("PREEMPTIVE_XE_TARGETINIT"@, "PREEMPTIVE_XE_TIMERRUN"@)) by {
            reveal_strlit("PREEMPTIVE_XE_TARGETINIT");
            reveal_strlit("PREEMPTIVE_XE_TIMERRUN");
            reveal_with_fuel(name_lt_from, 17);
        }
    } else if r == 659 {
        assert(name_lt("PREEMPTIVE_XE_TIMERRUN"@, "PRINT_ROLLBACK_PROGRESS"@)) by {
            reveal_strlit("PREEMPTIVE_XE_TIMERRUN");
            reveal_strlit("PRINT_ROLLBACK_PROGRESS");
            reveal_with_fuel(name_lt_from, 4);
        }
    } else if r == 660 {
        assert(name_lt("PRINT_ROLLBACK_PROGRESS"@, "PRU_ROLLBACK_DEFERRED"@)) by {
            reveal_strlit("PRINT_ROLLBACK_PROGRESS");
            reveal_strlit("PRU_ROLLBACK_DEFERRED");
            reveal_with_fuel(name_lt_from, 4);
        }
    } else if r == 661 {
        assert(name_lt("PRU_ROLLBACK_DEFERRED"@, "PVS_CLEANUP_LOCK"@)) by {
            reveal_strlit("PRU_ROLLBACK_DEFERRED");
            reveal_strlit("PVS_CLEANUP_LOCK");
            reveal_with_fuel(name_lt_from, 3);
        }
    } else if r == 662 {
        assert(name_lt("PVS_CLEANUP_LOCK"@, "PWAIT_ALL_COMPONENTS_INITIALIZED"@)) by {
            reveal_strlit("PVS_CLEANUP_LOCK");
            reveal_strlit("PWAIT_ALL_COMPONENTS_INITIALIZED");
            reveal_with_fuel(name_lt_from, 3);
        }
    } else if r == 663 {
        assert(name_lt("PWAIT_ALL_COMPONENTS_INITIALIZED"@, "PWAIT_COOP_SCAN"@)) by {
            reveal_strlit("PWAIT_ALL_COMPONENTS_INITIALIZED");
            reveal_strlit("PWAIT_COOP_SCAN");
            reveal_with_fuel(name_lt_from, 8);
        }
    } else if r == 664 {
        assert(name_lt("PWAIT_COOP_SCAN"@, "PWAIT_DIRECTLOGCONSUMER_GETNEXT"@)) by {
            reveal_strlit("PWAIT_COOP_SCAN");
            reveal_strlit("PWAIT_DIRECTLOGCONSUMER_GETNEXT");
            reveal_with_fuel(name_lt_from, 8);
        }
    } else if r == 665 {
        assert(name_lt("PWAIT_DIRECTLOGCONSUMER_GETNEXT"@, "PWAIT_EVENT_SESSION_INIT_MUTEX"@)) by {
            reveal_strlit("PWAIT_DIRECTLOGCONSUMER_GETNEXT");
            reveal_strlit("PWAIT_EVENT_SESSION_INIT_MUTEX");
            reveal_with_fuel(name_lt_from, 8);
        }
    } else if r == 666 {
        assert(name_lt("PWAIT_EVENT_SESSION_INIT_MUTEX"@, "PWAIT_FABRIC_REPLICA_CONTROLLER_DATA_LOSS"@)) by {
            reveal_strlit("PWAIT_EVENT_SESSION_INIT_MUTEX");
            reveal_strlit("PWAIT_FABRIC_REPLICA_CONTROLLER_DATA_LOSS");
            reveal_with_fuel(name_lt_from, 8);
        }
    } else if r == 667 {
        assert(name_lt("PWAIT_FABRIC_REPLICA_CONTROLLER_DATA_LOSS"@, "PWAIT_HADRSIM"@)) by {
            reveal_strlit("PWAIT_FABRIC_REPLICA_CONTROLLER_DATA_LOSS");
            reveal_strlit("PWAIT_HADRSIM");
            reveal_with_fuel(name_lt_from, 8);
        }
    } else if r == 668 {
        assert(name_lt("PWAIT_HADRSIM"@, "PWAIT_HADR_ACTION_COMPLETED"@)) by {
            reveal_strlit("PWAIT_HADRSIM");
            reveal_strlit("PWAIT_HADR_ACTION_COMPLETED");
            reveal_with_fuel(name_lt_from, 12);
        }
    } else if r == 669 {
        assert(name_lt("PWAIT_HADR_ACTION_COMPLETED"@, "PWAIT_HADR_CHANGE_NOTIFIER_TERMINATION_SYNC"@)) by {
            reveal_strlit("PWAIT_HADR_ACTION_COMPLETED");
            reveal_strlit("PWAIT_HADR_CHANGE_NOTIFIER_TERMINATION_SYNC");
            reveal_with_fuel(name_lt_from, 13);
        }
    } else if r == 670 {
        assert(name_lt("PWAIT_HADR_CHANGE_NOTIFIER_TERMINATION_SYNC"@, "PWAIT_HADR_CLUSTER_INTEGRATION"@)) by {
            reveal_strlit("PWAIT_HADR_CHANGE_NOTIFIER_TERMINATION_SYNC");
            reveal_strlit("PWAIT_HADR_CLUSTER_INTEGRATION");
            reveal_with_fuel(name_lt_from, 14);
        }
    } else if r == 671 {
        assert(name_lt("PWAIT_HADR_CLUSTER_INTEGRATION"@, "PWAIT_HADR_FAILOVER_COMPLETED"@)) by {
            reveal_strlit("PWAIT_HADR_CLUSTER_INTEGRATION");
            reveal_strlit("PWAIT_HADR_FAILOVER_COMPLETED");
            reveal_with_fuel(name_lt_from, 13);
        }
    } else if r == 672 {
        assert(name_lt("PWAIT_HADR_FAILOVER_COMPLETED"@, "PWAIT_HADR_JOIN"@)) by {
            reveal_strlit("PWAIT_HADR_FAILOVER_COMPLETED");
            reveal_strlit("PWAIT_HADR_JOIN");
            reveal_with_fuel(name_lt_from, 13);
        }
    } else if r == 673 {
        assert(name_lt("PWAIT_HADR_JOIN"@, "PWAIT_HADR_OFFLINE_COMPLETED"@)) by {
            reveal_strlit("PWAIT_HADR_JOIN");
            reveal_strlit("PWAIT_HADR_OFFLINE_COMPLETED");
            reveal_with_fuel(name_lt_from, 13);
        }
    } else if r == 674 {
        assert(name_lt("PWAIT_HADR_OFFLINE_COMPLETED"@, "PWAIT_HADR_ONLINE_COMPLETED"@)) by {
            reveal_strlit("PWAIT_HADR_OFFLINE_COMPLETED");
            reveal_strlit("PWAIT_HADR_ONLINE_COMPLETED");
            reveal_with_fuel(name_lt_from, 14);
        }
    } else if r == 675 {
        assert(name_lt("PWAIT_HADR_ONLINE_COMPLETED"@, "PWAIT_HADR_POST_ONLINE_COMPLETED"@)) by {
            reveal_strlit("PWAIT_HADR_ONLINE_COMPLETED");
            reveal_strlit("PWAIT_HADR_POST_ONLINE_COMPLETED");
            reveal_with_fuel(name_lt_from, 13);
        }
    } else if r == 676 {
        assert(name_lt("PWAIT_HADR_POST_ONLINE_COMPLETED"@, "PWAIT_HADR_SERVER_READY_CONNECTIONS"@)) by {
            reveal_strlit("PWAIT_HADR_POST_ONLINE_COMPLETED");
            reveal_strlit("PWAIT_HADR_SERVER_READY_CONNECTIONS");
            reveal_with_fuel(name_lt_from, 13);
        }
    } else if r == 677 {
        assert(name_lt("PWAIT_HADR_SERVER_READY_CONNECTIONS"@, "PWAIT_HADR_WORKITEM_COMPLETED"@)) by {
            reveal_strlit("PWAIT_HADR_SERVER_READY_CONNECTIONS");
            reveal_strlit("PWAIT_HADR_WORKITEM_COMPLETED");
            reveal_with_fuel(name_lt_from, 13);
        }
    } else if r == 678 {
        assert(name_lt("PWAIT_HADR_WORKITEM_COMPLETED"@, "PWAIT_LOG_CONSOLIDATION_IO"@)) by {
            reveal_strlit("PWAIT_HADR_WORKITEM_COMPLETED");
            reveal_strlit("PWAIT_LOG_CONSOLIDATION_IO");
            reveal_with_fuel(name_lt_from, 8);
        }
    } else if r == 679 {
        assert(name_lt("PWAIT_LOG_CONSOLIDATION_IO"@, "PWAIT_LOG_CONSOLIDATION_POLL"@)) by {
            reveal_strlit("PWAIT_LOG_CONSOLIDATION_IO");
            reveal_strlit("PWAIT_LOG_CONSOLIDATION_POLL");
            reveal_with_fuel(name_lt_from, 26);
        }
    } else if r == 680 {
        assert(name_lt("PWAIT_LOG_CONSOLIDATION_POLL"@, "PWAIT_MD_LOGIN_STATS"@)) by {
            reveal_strlit("PWAIT_LOG_CONSOLIDATION_POLL");
            reveal_strlit("PWAIT_MD_LOGIN_STATS");
            reveal_with_fuel(name_lt_from, 8);
        }
    } else if r == 681 {
        assert(name_lt("PWAIT_MD_LOGIN_STATS"@, "PWAIT_MD_RELATION_CACHE"@)) by {
            reveal_strlit("PWAIT_MD_LOGIN_STATS");
            reveal_strlit("PWAIT_MD_RELATION_CACHE");
            reveal_with_fuel(name_lt_from, 11);
        }
    } else if r == 682 {
        assert(name_lt("PWAIT_MD_RELATION_CACHE"@, "PWAIT_MD_SERVER_CACHE"@)) by {
            reveal_strlit("PWAIT_MD_RELATION_CACHE");
            reveal_strlit("PWAIT_MD_SERVER_CACHE");
            reveal_with_fuel(name_lt_from, 11);
        }
    } else if r == 683 {
        assert(name_lt("PWAIT_MD_SERVER_CACHE"@, "PWAIT_MD_UPGRADE_CONFIG"@)) by {
            reveal_strlit("PWAIT_MD_SERVER_CACHE");
            reveal_strlit("PWAIT_MD_UPGRADE_CONFIG");
            reveal_with_fuel(name_lt_from, 11);
        }
    } else if r == 684 {
        assert(name_lt("PWAIT_MD_UPGRADE_CONFIG"@, "PWAIT_PREEMPTIVE_APP_USAGE_TIMER"@)) by {
            reveal_strlit("PWAIT_MD_UPGRADE_CONFIG");
            reveal_strlit("PWAIT_PREEMPTIVE_APP_USAGE_TIMER");
            reveal_with_fuel(name_lt_from, 8);
        }
    } else if r == 685 {
        assert(name_lt("PWAIT_PREEMPTIVE_APP_USAGE_TIMER"@, "PWAIT_PREEMPTIVE_AUDIT_ACCESS_WINDOWSLOG"@)) by {
            reveal_strlit("PWAIT_PREEMPTIVE_APP_USAGE_TIMER");
            reveal_strlit("PWAIT_PREEMPTIVE_AUDIT_ACCESS_WINDOWSLOG");
            reveal_with_fuel(name_lt_from, 20);
        }
    } else if r == 686 {
        assert(name_lt("PWAIT_PREEMPTIVE_AUDIT_ACCESS_WINDOWSLOG"@, "PWAIT_QRY_BPMEMORY"@)) by {
            reveal_strlit("PWAIT_PREEMPTIVE_AUDIT_ACCESS_WINDOWSLOG");
            reveal_strlit("PWAIT_QRY_BPMEMORY");
            reveal_with_fuel(name_lt_from, 8);
        }
    } else if r == 687 {
        assert(name_lt("PWAIT_QRY_BPMEMORY"@, "PWAIT_REPLICA_ONLINE_INIT_MUTEX"@)) by {
            reveal_strlit("PWAIT_QRY_BPMEMORY");
            reveal_strlit("PWAIT_REPLICA_ONLINE_INIT_MUTEX");
            reveal_with_fuel(name_lt_from, 8);
        }
    } else if r == 688 {
        assert(name_lt("PWAIT_REPLICA_ONLINE_INIT_MUTEX"@, "PWAIT_RESOURCE_SEMAPHORE_FT_PARALLEL_QUERY_SYNC"@)) by {
            reveal_strlit("PWAIT_REPLICA_ONLINE_INIT_MUTEX");
            reveal_strlit("PWAIT_RESOURCE_SEMAPHORE_FT_PARALLEL_QUERY_SYNC");
            reveal_with_fuel(name_lt_from, 10);
        }
    } else if r == 689 {
        assert(name_lt("PWAIT_RESOURCE_SEMAPHORE_FT_PARALLEL_QUERY_SYNC"@, "PWAIT_SBS_FILE_OPERATION"@)) by {
            reveal_strlit("PWAIT_RESOURCE_SEMAPHORE_FT_PARALLEL_QUERY_SYNC");
            reveal_strlit("PWAIT_SBS_FILE_OPERATION");
            reveal_with_fuel(name_lt_from, 8);
        }
    } else if r == 690 {
        assert(name_lt("PWAIT_SBS_FILE_OPERATION"@, "PWAIT_XTP_FSSTORAGE_MAINTENANCE"@)) by {
            reveal_strlit("PWAIT_SBS_FILE_OPERATION");
            reveal_strlit("PWAIT_XTP_FSSTORAGE_MAINTENANCE");
            reveal_with_fuel(name_lt_from, 8);
        }
    } else if r == 691 {
        assert(name_lt("PWAIT_XTP_FSSTORAGE_MAINTENANCE"@, "PWAIT_XTP_HOST_STORAGE_WAIT"@)) by {
            reveal_strlit("PWAIT_XTP_FSSTORAGE_MAINTENANCE");
            reveal_strlit("PWAIT_XTP_HOST_STORAGE_WAIT");
            reveal_with_fuel(name_lt_from, 12);
        }
    } else if r == 692 {
        assert(name_lt("PWAIT_XTP_HOST_STORAGE_WAIT"@, "QDS_ASYNC_CHECK_CONSISTENCY_TASK"@)) by {
            reveal_strlit("PWAIT_XTP_HOST_STORAGE_WAIT");
            reveal_strlit("QDS_ASYNC_CHECK_CONSISTENCY_TASK");
            reveal_with_fuel(name_lt_from, 2);
        }
    } else if r == 693 {
        assert(name_lt("QDS_ASYNC_CHECK_CONSISTENCY_TASK"@, "QDS_ASYNC_PERSIST_TASK"@)) by {
            reveal_strlit("QDS_ASYNC_CHECK_CONSISTENCY_TASK");
            reveal_strlit("QDS_ASYNC_PERSIST_TASK");
            reveal_with_fuel(name_lt_from, 12);
        }
    } else if r == 694 {
        assert(name_lt("QDS_ASYNC_PERSIST_TASK"@, "QDS_ASYNC_PERSIST_TASK_START"@)) by {
            reveal_strlit("QDS_ASYNC_PERSIST_TASK");
            reveal_strlit("QDS_ASYNC_PERSIST_TASK_START");
            reveal_with_fuel(name_lt_from, 24);
        }
    } else if r == 695 {
        assert(name_lt("QDS_ASYNC_PERSIST_TASK_START"@, "QDS_ASYNC_QUEUE"@)) by {
            reveal_strlit("QDS_ASYNC_PERSIST_TASK_START");
            reveal_strlit("QDS_ASYNC_QUEUE");
            reveal_with_fuel(name_lt_from, 12);
        }
    } else if r == 696 {
        assert(name_lt("QDS_ASYNC_QUEUE"@, "QDS_BCKG_TASK"@)) by {
            reveal_strlit("QDS_ASYNC_QUEUE");
            reveal_strlit("QDS_BCKG_TASK");
            reveal_with_fuel(name_lt_from, 6);
        }
    } else if r == 697 {
        assert(name_lt("QDS_BCKG_TASK"@, "QDS_BLOOM_FILTER"@)) by {
            reveal_strlit("QDS_BCKG_TASK");
            reveal_strlit("QDS_BLOOM_FILTER");
            reveal_with_fuel(name_lt_from, 7);
        }
    } else if r == 698 {
        assert(name_lt("QDS_BLOOM_FILTER"@, "QDS_CLEANUP_STALE_QUERIES_TASK_MAIN_LOOP_SLEEP"@)) by {
            reveal_strlit("QDS_BLOOM_FILTER");
            reveal_strlit("QDS_CLEANUP_STALE_QUERIES_TASK_MAIN_LOOP_SLEEP");
            reveal_with_fuel(name_lt_from, 6);
        }
    } else if r == 699 {
        assert(name_lt("QDS_CLEANUP_STALE_QUERIES_TASK_MAIN_LOOP_SLEEP"@, "QDS_CTXS"@)) by {
            reveal_strlit("QDS_CLEANUP_STALE_QUERIES_TASK_MAIN_LOOP_SLEEP");
            reveal_strlit("QDS_CTXS");
            reveal_with_fuel(name_lt_from, 7);
        }
    }
}

/// A wait type of part 14 has its place in that part, and the list has its
/// name at that place.
#[verifier::rlimit(60)]
proof fn lemma_rank_in_part_14(w: WaitType)
    requires
        in_part_14(w),
    ensures
        700 <= wait_type_rank(w) < 750,
        wait_type_at(wait_type_rank(w)) == w,
        name_at(wait_type_rank(w)) == wait_type_name(w),
        is_listed_wait_type(wait_type_name(w)),
{
    reveal(rank_in_part_14);
    reveal(ranked_in_part_14);
    reveal(name_in_part_14);
    reveal(listed_name_14);
    lemma_name_in_part_14(w);
}

/// The names at places 700 to 749 of the list are each followed by a greater one.
proof fn lemma_sorted_in_part_14(r: int)
    requires
        700 <= r < 750,
    ensures
        name_lt(name_at(r), name_at(r + 1)),
{
    reveal(name_in_part_14);
    reveal(name_in_part_15);
    if r == 700 {
        assert(name_lt("QDS_CTXS"@, "QDS_DB_DISK"@)) by {
            reveal_strlit("QDS_CTXS");
            reveal_strlit("QDS_DB_DISK");
            reveal_with_fuel(name_lt_from, 6);
        }
    } else if r == 701 {
        assert(name_lt("QDS_DB_DISK"@, "QDS_DYN_VECTOR"@)) by {
            reveal_strlit("QDS_DB_DISK");
            reveal_strlit("QDS_DYN_VECTOR");
            reveal_with_fuel(name_lt_from, 7);
        }
    } else if r == 702 {
        assert(name_lt("QDS_DYN_VECTOR"@, "QDS_EXCLUSIVE_ACCESS"@)) by {
            reveal_strlit("QDS_DYN_VECTOR");
            reveal_strlit("QDS_EXCLUSIVE_ACCESS");
            reveal_with_fuel(name_lt_from, 6);
        }
    } else if r == 703 {
        assert(name_lt("QDS_EXCLUSIVE_ACCESS"@, "QDS_HOST_INIT"@)) by {
            reveal_strlit("QDS_EXCLUSIVE_ACCESS");
            reveal_strlit("QDS_HOST_INIT");
            reveal_with_fuel(name_lt_from, 6);
        }
    } else if r == 704 {
        assert(name_lt("QDS_HOST_INIT"@, "QDS_LOADDB"@)) by {
            reveal_strlit("QDS_HOST_INIT");
            reveal_strlit("QDS_LOADDB");
            reveal_with_fuel(name_lt_from, 6);
        }
    } else if r == 705 {
        assert(name_lt("QDS_LOADDB"@, "QDS_PERSIST_TASK_MAIN_LOOP_SLEEP"@)) by {
            reveal_strlit("QDS_LOADDB");
            reveal_strlit("QDS_PERSIST_TASK_MAIN_LOOP_SLEEP");
            reveal_with_fuel(name_lt_from, 6);
        }
    } else if r == 706 {
        assert(name_lt("QDS_PERSIST_TASK_MAIN_LOOP_SLEEP"@, "QDS_QDS_CAPTURE_INIT"@)) by {
            reveal_strlit("QDS_PERSIST_TASK_MAIN_LOOP_SLEEP");
            reveal_strlit("QDS_QDS_CAPTURE_INIT");
            reveal_with_fuel(name_lt_from, 6);
        }
    } else if r == 707 {
        assert(name_lt("QDS_QDS_CAPTURE_INIT"@, "QDS_SHUTDOWN_QUEUE"@)) by {
            reveal_strlit("QDS_QDS_CAPTURE_INIT");
            reveal_strlit("QDS_SHUTDOWN_QUEUE");
            reveal_with_fuel(name_lt_from, 6);
        }
    } else if r == 708 {
        assert(name_lt("QDS_SHUTDOWN_QUEUE"@, "QDS_STMT"@)) by {
            reveal_strlit("QDS_SHUTDOWN_QUEUE");
            reveal_strlit("QDS_STMT");
            reveal_with_fuel(name_lt_from, 7);
        }
    } else if r == 709 {
        assert(name_lt("QDS_STMT"@, "QDS_STMT_DISK"@)) by {
            reveal_strlit("QDS_STMT");
            reveal_strlit("QDS_STMT_DISK");
            reveal_with_fuel(name_lt_from, 10);
        }
    } else if r == 710 {
        assert(name_lt("QDS_STMT_DISK"@, "QDS_TASK_SHUTDOWN"@)) by {
            reveal_strlit("QDS_STMT_DISK");
            reveal_strlit("QDS_TASK_SHUTDOWN");
            reveal_with_fuel(name_lt_from, 6);
        }
    } else if r == 711 {
        assert(name_lt("QDS_TASK_SHUTDOWN"@, "QDS_TASK_START"@)) by {
            reveal_strlit("QDS_TASK_SHUTDOWN");
            reveal_strlit("QDS_TASK_START");
            reveal_with_fuel(name_lt_from, 12);
        }
    } else if r == 712 {
        assert(name_lt("QDS_TASK_START"@, "QE_WARN_LIST_SYNC"@)) by {
            reveal_strlit("QDS_TASK_START");
            reveal_strlit("QE_WARN_LIST_SYNC");
            reveal_with_fuel(name_lt_from, 3);
        }
    } else if r == 713 {
        assert(name_lt("QE_WARN_LIST_SYNC"@, "QPJOB_KILL"@)) by {
            reveal_strlit("QE_WARN_LIST_SYNC");
            reveal_strlit("QPJOB_KILL");
            reveal_with_fuel(name_lt_from, 3);
        }
    } else if r == 714 {
        assert(name_lt("QPJOB_KILL"@, "QPJOB_WAITFOR_ABORT"@)) by {
            reveal_strlit("QPJOB_KILL");
            reveal_strlit("QPJOB_WAITFOR_ABORT");
            reveal_with_fuel(name_lt_from, 8);
        }
    } else if r == 715 {
        assert(name_lt("QPJOB_WAITFOR_ABORT"@, "QRY_MEM_GRANT_INFO_MUTEX"@)) by {
            reveal_strlit("QPJOB_WAITFOR_ABORT");
            reveal_strlit("QRY_MEM_GRANT_INFO_MUTEX");
            reveal_with_fuel(name_lt_from, 3);
        }
    } else if r == 716 {
        assert(name_lt("QRY_MEM_GRANT_INFO_MUTEX"@, "QRY_PARALLEL_THREAD_MUTEX"@)) by {
            reveal_strlit("QRY_MEM_GRANT_INFO_MUTEX");
            reveal_strlit("QRY_PARALLEL_THREAD_MUTEX");
            reveal_with_fuel(name_lt_from, 6);
        }
    } else if r == 717 {
        assert(name_lt("QRY_PARALLEL_THREAD_MUTEX"@, "QRY_PROFILE_LIST_MUTEX"@)) by {
            reveal_strlit("QRY_PARALLEL_THREAD_MUTEX");
            reveal_strlit("QRY_PROFILE_LIST_MUTEX");
            reveal_with_fuel(name_lt_from, 7);
        }
    } else if r == 718 {
        assert(name_lt("QRY_PROFILE_LIST_MUTEX"@, "QUERY_ERRHDL_SERVICE_DONE"@)) by {
            reveal_strlit("QRY_PROFILE_LIST_MUTEX");
            reveal_strlit("QUERY_ERRHDL_SERVICE_DONE");
            reveal_with_fuel(name_lt_from, 3);
        }
    } else if r == 719 {
        assert(name_lt("QUERY_ERRHDL_SERVICE_DONE"@, "QUERY_EXECUTION_INDEX_SORT_EVENT_OPEN"@)) by {
            reveal_strlit("QUERY_ERRHDL_SERVICE_DONE");
            reveal_strlit("QUERY_EXECUTION_INDEX_SORT_EVENT_OPEN");
            reveal_with_fuel(name_lt_from, 9);
        }
    } else if r == 720 {
        assert(name_lt("QUERY_EXECUTION_INDEX_SORT_EVENT_OPEN"@, "QUERY_NOTIFICATION_MGR_MUTEX"@)) by {
            reveal_strlit("QUERY_EXECUTION_INDEX_SORT_EVENT_OPEN");
            reveal_strlit("QUERY_NOTIFICATION_MGR_MUTEX");
            reveal_with_fuel(name_lt_from, 8);
        }
    } else if r == 721 {
        assert(name_lt("QUERY_NOTIFICATION_MGR_MUTEX"@, "QUERY_NOTIFICATION_SUBSCRIPTION_MUTEX"@)) by {
            reveal_strlit("QUERY_NOTIFICATION_MGR_MUTEX");
            reveal_strlit("QUERY_NOTIFICATION_SUBSCRIPTION_MUTEX");
            reveal_with_fuel(name_lt_from, 21);
        }
    } else if r == 722 {
        assert(name_lt("QUERY_NOTIFICATION_SUBSCRIPTION_MUTEX"@, "QUERY_NOTIFICATION_TABLE_MGR_MUTEX"@)) by {
            reveal_strlit("QUERY_NOTIFICATION_SUBSCRIPTION_MUTEX");
            reveal_strlit("QUERY_NOTIFICATION_TABLE_MGR_MUTEX");
            reveal_with_fuel(name_lt_from, 21);
        }
    } else if r == 723 {
        assert(name_lt("QUERY_NOTIFICATION_TABLE_MGR_MUTEX"@, "QUERY_NOTIFICATION_UNITTEST_MUTEX"@)) by {
            reveal_strlit("QUERY_NOTIFICATION_TABLE_MGR_MUTEX");
            reveal_strlit("QUERY_NOTIFICATION_UNITTEST_MUTEX");
            reveal_with_fuel(name_lt_from, 21);
        }
    } else if r == 724 {
        assert(name_lt("QUERY_NOTIFICATION_UNITTEST_MUTEX"@, "QUERY_OPTIMIZER_PRINT_MUTEX"@)) by {
            reveal_strlit("QUERY_NOTIFICATION_UNITTEST_MUTEX");
            reveal_strlit("QUERY_OPTIMIZER_PRINT_MUTEX");
            reveal_with_fuel(name_lt_from, 8);
        }
    } else if r == 725 {
        assert(name_lt("QUERY_OPTIMIZER_PRINT_MUTEX"@, "QUERY_TASK_ENQUEUE_MUTEX"@)) by {
            reveal_strlit("QUERY_OPTIMIZER_PRINT_MUTEX");
            reveal_strlit("QUERY_TASK_ENQUEUE_MUTEX");
            reveal_with_fuel(name_lt_from, 8);
        }
    } else if r == 726 {
        assert(name_lt("QUERY_TASK_ENQUEUE_MUTEX"@, "QUERY_TRACEOUT"@)) by {
            reveal_strlit("QUERY_TASK_ENQUEUE_MUTEX");
            reveal_strlit("QUERY_TRACEOUT");
            reveal_with_fuel(name_lt_from, 9);
        }
    } else if r == 727 {
        assert(name_lt("QUERY_TRACEOUT"@, "QUERY_WAIT_ERRHDL_SERVICE"@)) by {
            reveal_strlit("QUERY_TRACEOUT");
            reveal_strlit("QUERY_WAIT_ERRHDL_SERVICE");
            reveal_with_fuel(name_lt_from, 8);
        }
    } else if r == 728 {
        assert(name_lt("QUERY_WAIT_ERRHDL_SERVICE"@, "RBIO_RG_DESTAGE"@)) by {
            reveal_strlit("QUERY_WAIT_ERRHDL_SERVICE");
            reveal_strlit("RBIO_RG_DESTAGE");
            reveal_with_fuel(name_lt_from, 2);
        }
    } else if r == 729 {
        assert(name_lt("RBIO_RG_DESTAGE"@, "RBIO_RG_LOCALDESTAGE"@)) by {
            reveal_strlit("RBIO_RG_DESTAGE");
            reveal_strlit("RBIO_RG_LOCALDESTAGE");
            reveal_with_fuel(name_lt_from, 10);
        }
    } else if r == 730 {
        assert(name_lt("RBIO_RG_LOCALDESTAGE"@, "RBIO_RG_REPLICA"@)) by {
            reveal_strlit("RBIO_RG_LOCALDESTAGE");
            reveal_strlit("RBIO_RG_REPLICA");
            reveal_with_fuel(name_lt_from, 10);
        }
    } else if r == 731 {
        assert(name_lt("RBIO_RG_REPLICA"@, "RBIO_RG_STORAGE"@)) by {
            reveal_strlit("RBIO_RG_REPLICA");
            reveal_strlit("RBIO_RG_STORAGE");
            reveal_with_fuel(name_lt_from, 10);
        }
    } else if r == 732 {
        assert(name_lt("RBIO_RG_STORAGE"@, "RBIO_WAIT_VLF"@)) by {
            reveal_strlit("RBIO_RG_STORAGE");
            reveal_strlit("RBIO_WAIT_VLF");
            reveal_with_fuel(name_lt_from, 7);
        }
    } else if r == 733 {
        assert(name_lt("RBIO_WAIT_VLF"@, "RECOVERY_MGR_LOCK"@)) by {
            reveal_strlit("RBIO_WAIT_VLF");
            reveal_strlit("RECOVERY_MGR_LOCK");
            reveal_with_fuel(name_lt_from, 3);
        }
    } else if r == 734 {
        assert(name_lt("RECOVERY_MGR_LOCK"@, "RECOVER_CHANGEDB"@)) by {
            reveal_strlit("RECOVERY_MGR_LOCK");
            reveal_strlit("RECOVER_CHANGEDB");
            reveal_with_fuel(name_lt_from, 9);
        }
    } else if r == 735 {
        assert(name_lt("RECOVER_CHANGEDB"@, "REDO_THREAD_PENDING_WORK"@)) by {
            reveal_strlit("RECOVER_CHANGEDB");
            reveal_strlit("REDO_THREAD_PENDING_WORK");
            reveal_with_fuel(name_lt_from, 4);
        }
    } else if r == 736 {
        assert(name_lt("REDO_THREAD_PENDING_WORK"@, "REDO_THREAD_SYNC"@)) by {
            reveal_strlit("REDO_THREAD_PENDING_WORK");
            reveal_strlit("REDO_THREAD_SYNC");
            reveal_with_fuel(name_lt_from, 14);
        }
    } else if r == 737 {
        assert(name_lt("REDO_THREAD_SYNC"@, "REMOTE_BLOCK_IO"@)) by {
            reveal_strlit("REDO_THREAD_SYNC");
            reveal_strlit("REMOTE_BLOCK_IO");
            reveal_with_fuel(name_lt_from, 4);
        }
    } else if r == 738 {
        assert(name_lt("REMOTE_BLOCK_IO"@, "REMOTE_DATA_ARCHIVE_MIGRATION_DMV"@)) by {
            reveal_strlit("REMOTE_BLOCK_IO");
            reveal_strlit("REMOTE_DATA_ARCHIVE_MIGRATION_DMV");
            reveal_with_fuel(name_lt_from, 9);
        }
    } else if r == 739 {
        assert(name_lt("REMOTE_DATA_ARCHIVE_MIGRATION_DMV"@, "REMOTE_DATA_ARCHIVE_SCHEMA_DMV"@)) by {
            reveal_strlit("REMOTE_DATA_ARCHIVE_MIGRATION_DMV");
            reveal_strlit("REMOTE_DATA_ARCHIVE_SCHEMA_DMV");
            reveal_with_fuel(name_lt_from, 22);
        }
    } else if r == 740 {
        assert(name_lt("REMOTE_DATA_ARCHIVE_SCHEMA_DMV"@, "REMOTE_DATA_ARCHIVE_SCHEMA_TASK_QUEUE"@)) by {
            reveal_strlit("REMOTE_DATA_ARCHIVE_SCHEMA_DMV");
            reveal_strlit("REMOTE_DATA_ARCHIVE_SCHEMA_TASK_QUEUE");
            reveal_with_fuel(name_lt_from, 29);
        }
    } else if r == 741 {
        assert(name_lt("REMOTE_DATA_ARCHIVE_SCHEMA_TASK_QUEUE"@, "REPLICA_WRITES"@)) by {
            reveal_strlit("REMOTE_DATA_ARCHIVE_SCHEMA_TASK_QUEUE");
            reveal_strlit("REPLICA_WRITES");
            reveal_with_fuel(name_lt_from, 4);
        }
    } else if r == 742 {
        assert(name_lt("REPLICA_WRITES"@, "REPL_CACHE_ACCESS"@)) by {
            reveal_strlit("REPLICA_WRITES");
            reveal_strlit("REPL_CACHE_ACCESS");
            reveal_with_fuel(name_lt_from, 6);
        }
    } else if r == 743 {
        assert(name_lt("REPL_CACHE_ACCESS"@, "REPL_HISTORYCACHE_ACCESS"@)) by {
            reveal_strlit("REPL_CACHE_ACCESS");
            reveal_strlit("REPL_HISTORYCACHE_ACCESS");
            reveal_with_fuel(name_lt_from, 7);
        }
    } else if r == 744 {
        assert(name_lt("REPL_HISTORYCACHE_ACCESS"@, "REPL_SCHEMA_ACCESS"@)) by {
            reveal_strlit("REPL_HISTORYCACHE_ACCESS");
            reveal_strlit("REPL_SCHEMA_ACCESS");
            reveal_with_fuel(name_lt_from, 7);
        }
    } else if r == 745 {
        assert(name_lt("REPL_SCHEMA_ACCESS"@, "REPL_TRANFSINFO_ACCESS"@)) by {
            reveal_strlit("REPL_SCHEMA_ACCESS");
            reveal_strlit("REPL_TRANFSINFO_ACCESS");
            reveal_with_fuel(name_lt_from, 7);
        }
    } else if r == 746 {
        assert(name_lt("REPL_TRANFSINFO_ACCESS"@, "REPL_TRANHASHTABLE_ACCESS"@)) by {
            reveal_strlit("REPL_TRANFSINFO_ACCESS");
            reveal_strlit("REPL_TRANHASHTABLE_ACCESS");
            reveal_with_fuel(name_lt_from, 11);
        }
    } else if r == 747 {
        assert(name_lt("REPL_TRANHASHTABLE_ACCESS"@, "REPL_TRANTEXTINFO_ACCESS"@)) by {
            reveal_strlit("REPL_TRANHASHTABLE_ACCESS");
            reveal_strlit("REPL_TRANTEXTINFO_ACCESS");
            reveal_with_fuel(name_lt_from, 11);
        }
    } else if r == 748 {
        assert(name_lt("REPL_TRANTEXTINFO_ACCESS"@, "REQUEST_DISPENSER_PAUSE"@)) by {
            reveal_strlit("REPL_TRANTEXTINFO_ACCESS");
            reveal_strlit("REQUEST_DISPENSER_PAUSE");
            reveal_with_fuel(name_lt_from, 4);
        }
    } else if r == 749 {
        assert(name_lt("REQUEST_DISPENSER_PAUSE"@, "REQUEST_FOR_DEADLOCK_SEARCH"@)) by {
            reveal_strlit("REQUEST_DISPENSER_PAUSE");
            reveal_strlit("REQUEST_FOR_DEADLOCK_SEARCH");
            reveal_with_fuel(name_lt_from, 10);
        }
    }
}

/// A wait type of part 15 has its place in that part, and the list has its
/// name at that place.
#[verifier::rlimit(60)]
proof fn lemma_rank_in_part_15(w: WaitType)
    requires
        in_part_15(w),
    ensures
        750 <= wait_type_rank(w) < 800,
        wait_type_at(wait_type_rank(w)) == w,
        name_at(wait_type_rank(w)) == wait_type_name(w),
        is_listed_wait_type(wait_type_name(w)),
{
    reveal(rank_in_part_15);
    reveal(ranked_in_part_15);
    reveal(name_in_part_15);
    reveal(listed_name_15);
    lemma_name_in_part_15(w);
}

/// The names at places 750 to 799 of the list are each followed by a greater one.
proof fn lemma_sorted_in_part_15(r: int)
    requires
        750 <= r < 800,
    ensures
        name_lt(name_at(r), name_at(r + 1)),
{
    reveal(name_in_part_15);
    reveal(name_in_part_16);
    if r == 750 {
        assert(name_lt("REQUEST_FOR_DEADLOCK_SEARCH"@, "RESERVED_MEMORY_ALLOCATION_EXT"@)) by {
            reveal_strlit("REQUEST_FOR_DEADLOCK_SEARCH");
            reveal_strlit("RESERVED_MEMORY_ALLOCATION_EXT");
            reveal_with_fuel(name_lt_from, 4);
        }
    } else if r == 751 {
        assert(name_lt("RESERVED_MEMORY_ALLOCATION_EXT"@, "RESMGR_THROTTLED"@)) by {
            reveal_strlit("RESERVED_MEMORY_ALLOCATION_EXT");
            reveal_strlit("RESMGR_THROTTLED");
            reveal_with_fuel(name_lt_from, 5);
        }
    } else if r == 752 {
        assert(name_lt("RESMGR_THROTTLED"@, "RESOURCE_GOVERNOR_IDLE"@)) by {
            reveal_strlit("RESMGR_THROTTLED");
            reveal_strlit("RESOURCE_GOVERNOR_IDLE");
            reveal_with_fuel(name_lt_from, 5);
        }
    } else if r == 753 {
        assert(name_lt("RESOURCE_GOVERNOR_IDLE"@, "RESOURCE_QUEUE"@)) by {
            reveal_strlit("RESOURCE_GOVERNOR_IDLE");
            reveal_strlit("RESOURCE_QUEUE");
            reveal_with_fuel(name_lt_from, 11);
        }
    } else if r == 754 {
        assert(name_lt("RESOURCE_QUEUE"@, "RESOURCE_SEMAPHORE"@)) by {
            reveal_strlit("RESOURCE_QUEUE");
            reveal_strlit("RESOURCE_SEMAPHORE");
            reveal_with_fuel(name_lt_from, 11);
        }
    } else if r == 755 {
        assert(name_lt("RESOURCE_SEMAPHORE"@, "RESOURCE_SEMAPHORE_MUTEX"@)) by {
            reveal_strlit("RESOURCE_SEMAPHORE");
            reveal_strlit("RESOURCE_SEMAPHORE_MUTEX");
            reveal_with_fuel(name_lt_from, 20);
        }
    } else if r == 756 {
        assert(name_lt("RESOURCE_SEMAPHORE_MUTEX"@, "RESOURCE_SEMAPHORE_QUERY_COMPILE"@)) by {
            reveal_strlit("RESOURCE_SEMAPHORE_MUTEX");
            reveal_strlit("RESOURCE_SEMAPHORE_QUERY_COMPILE");
            reveal_with_fuel(name_lt_from, 21);
        }
    } else if r == 757 {
        assert(name_lt("RESOURCE_SEMAPHORE_QUERY_COMPILE"@, "RESOURCE_SEMAPHORE_SMALL_QUERY"@)) by {
            reveal_strlit("RESOURCE_SEMAPHORE_QUERY_COMPILE");
            reveal_strlit("RESOURCE_SEMAPHORE_SMALL_QUERY");
            reveal_with_fuel(name_lt_from, 21);
        }
    } else if r == 758 {
        assert(name_lt("RESOURCE_SEMAPHORE_SMALL_QUERY"@, "RESTORE_FILEHANDLECACHE_ENTRYLOCK"@)) by {
            reveal_strlit("RESOURCE_SEMAPHORE_SMALL_QUERY");
            reveal_strlit("RESTORE_FILEHANDLECACHE_ENTRYLOCK");
            reveal_with_fuel(name_lt_from, 5);
        }
    } else if r == 759 {
        assert(name_lt("RESTORE_FILEHANDLECACHE_ENTRYLOCK"@, "RESTORE_FILEHANDLECACHE_LOCK"@)) by {
            reveal_strlit("RESTORE_FILEHANDLECACHE_ENTRYLOCK");
            reveal_strlit("RESTORE_FILEHANDLECACHE_LOCK");
            reveal_with_fuel(name_lt_from, 26);
        }
    } else if r == 760 {
        assert(name_lt("RESTORE_FILEHANDLECACHE_LOCK"@, "RG_RECONFIG"@)) by {
            reveal_strlit("RESTORE_FILEHANDLECACHE_LOCK");
            reveal_strlit("RG_RECONFIG");
            reveal_with_fuel(name_lt_from, 3);
        }
    } else if r == 761 {
        assert(name_lt("RG_RECONFIG"@, "ROWGROUP_OP_STATS"@)) by {
            reveal_strlit("RG_RECONFIG");
            reveal_strlit("ROWGROUP_OP_STATS");
            reveal_with_fuel(name_lt_from, 3);
        }
    } else if r == 762 {
        assert(name_lt("ROWGROUP_OP_STATS"@, "ROWGROUP_VERSION"@)) by {
            reveal_strlit("ROWGROUP_OP_STATS");
            reveal_strlit("ROWGROUP_VERSION");
            reveal_with_fuel(name_lt_from, 11);
        }
    } else if r == 763 {
        assert(name_lt("ROWGROUP_VERSION"@, "RTDATA_LIST"@)) by {
            reveal_strlit("ROWGROUP_VERSION");
            reveal_strlit("RTDATA_LIST");
            reveal_with_fuel(name_lt_from, 3);
        }
    } else if r == 764 {
        assert(name_lt("RTDATA_LIST"@, "SATELLITE_CARGO"@)) by {
            reveal_strlit("RTDATA_LIST");
            reveal_strlit("SATELLITE_CARGO");
            reveal_with_fuel(name_lt_from, 2);
        }
    } else if r == 765 {
        assert(name_lt("SATELLITE_CARGO"@, "SATELLITE_SERVICE_SETUP"@)) by {
            reveal_strlit("SATELLITE_CARGO");
            reveal_strlit("SATELLITE_SERVICE_SETUP");
            reveal_with_fuel(name_lt_from, 12);
        }
    } else if r == 766 {
        assert(name_lt("SATELLITE_SERVICE_SETUP"@, "SATELLITE_TASK"@)) by {
            reveal_strlit("SATELLITE_SERVICE_SETUP");
            reveal_strlit("SATELLITE_TASK");
            reveal_with_fuel(name_lt_from, 12);
        }
    } else if r == 767 {
        assert(name_lt("SATELLITE_TASK"@, "SBS_DISPATCH"@)) by {
            reveal_strlit("SATELLITE_TASK");
            reveal_strlit("SBS_DISPATCH");
            reveal_with_fuel(name_lt_from, 3);
        }
    } else if r == 768 {
        assert(name_lt("SBS_DISPATCH"@, "SBS_RECEIVE_TRANSPORT"@)) by {
            reveal_strlit("SBS_DISPATCH");
            reveal_strlit("SBS_RECEIVE_TRANSPORT");
            reveal_with_fuel(name_lt_from, 6);
        }
    } else if r == 769 {
        assert(name_lt("SBS_RECEIVE_TRANSPORT"@, "SBS_TRANSPORT"@)) by {
            reveal_strlit("SBS_RECEIVE_TRANSPORT");
            reveal_strlit("SBS_TRANSPORT");
            reveal_with_fuel(name_lt_from, 6);
        }
    } else if r == 770 {
        assert(name_lt("SBS_TRANSPORT"@, "SCAN_CHAR_HASH_ARRAY_INITIALIZATION"@)) by {
            reveal_strlit("SBS_TRANSPORT");
            reveal_strlit("SCAN_CHAR_HASH_ARRAY_INITIALIZATION");
            reveal_with_fuel(name_lt_from, 3);
        }
    } else if r == 771 {
        assert(name_lt("SCAN_CHAR_HASH_ARRAY_INITIALIZATION"@, "SECURITY_CNG_PROVIDER_MUTEX"@)) by {
            reveal_strlit("SCAN_CHAR_HASH_ARRAY_INITIALIZATION");
            reveal_strlit("SECURITY_CNG_PROVIDER_MUTEX");
            reveal_with_fuel(name_lt_from, 3);
        }
    } else if r == 772 {
        assert(name_lt("SECURITY_CNG_PROVIDER_MUTEX"@, "SECURITY_CRYPTO_CONTEXT_MUTEX"@)) by {
            reveal_strlit("SECURITY_CNG_PROVIDER_MUTEX");
            reveal_strlit("SECURITY_CRYPTO_CONTEXT_MUTEX");
            reveal_with_fuel(name_lt_from, 12);
        }
    } else if r == 773 {
        assert(name_lt("SECURITY_CRYPTO_CONTEXT_MUTEX"@, "SECURITY_DBE_STATE_MUTEX"@)) by {
            reveal_strlit("SECURITY_CRYPTO_CONTEXT_MUTEX");
            reveal_strlit("SECURITY_DBE_STATE_MUTEX");
            reveal_with_fuel(name_lt_from, 11);
        }
    } else if r == 774 {
        assert(name_lt("SECURITY_DBE_STATE_MUTEX"@, "SECURITY_KEYRING_RWLOCK"@)) by {
            reveal_strlit("SECURITY_DBE_STATE_MUTEX");
            reveal_strlit("SECURITY_KEYRING_RWLOCK");
            reveal_with_fuel(name_lt_from, 11);
        }
    } else if r == 775 {
        assert(name_lt("SECURITY_KEYRING_RWLOCK"@, "SECURITY_MUTEX"@)) by {
            reveal_strlit("SECURITY_KEYRING_RWLOCK");
            reveal_strlit("SECURITY_MUTEX");
            reveal_with_fuel(name_lt_from, 11);
        }
    } else if r == 776 {
        assert(name_lt("SECURITY_MUTEX"@, "SECURITY_RULETABLE_MUTEX"@)) by {
            reveal_strlit("SECURITY_MUTEX");
            reveal_strlit("SECURITY_RULETABLE_MUTEX");
            reveal_with_fuel(name_lt_from, 11);
        }
    } else if r == 777 {
        assert(name_lt("SECURITY_RULETABLE_MUTEX"@, "SEC_DROP_TEMP_KEY"@)) by {
            reveal_strlit("SECURITY_RULETABLE_MUTEX");
            reveal_strlit("SEC_DROP_TEMP_KEY");
            reveal_with_fuel(name_lt_from, 5);
        }
    } else if r == 778 {
        assert(name_lt("SEC_DROP_TEMP_KEY"@, "SEMPLAT_DSI_BUILD"@)) by {
            reveal_strlit("SEC_DROP_TEMP_KEY");
            reveal_strlit("SEMPLAT_DSI_BUILD");
            reveal_with_fuel(name_lt_from, 4);
        }
    } else if r == 779 {
        assert(name_lt("SEMPLAT_DSI_BUILD"@, "SEQUENCE_GENERATION"@)) by {
            reveal_strlit("SEMPLAT_DSI_BUILD");
            reveal_strlit("SEQUENCE_GENERATION");
            reveal_with_fuel(name_lt_from, 4);
        }
    } else if r == 780 {
        assert(name_lt("SEQUENCE_GENERATION"@, "SEQUENTIAL_GUID"@)) by {
            reveal_strlit("SEQUENCE_GENERATION");
            reveal_strlit("SEQUENTIAL_GUID");
            reveal_with_fuel(name_lt_from, 8);
        }
    } else if r == 781 {
        assert(name_lt("SEQUENTIAL_GUID"@, "SERVER_IDLE_CHECK"@)) by {
            reveal_strlit("SEQUENTIAL_GUID");
            reveal_strlit("SERVER_IDLE_CHECK");
            reveal_with_fuel(name_lt_from, 4);
        }
    } else if r == 782 {
        assert(name_lt("SERVER_IDLE_CHECK"@, "SERVER_RECONFIGURE"@)) by {
            reveal_strlit("SERVER_IDLE_CHECK");
            reveal_strlit("SERVER_RECONFIGURE");
            reveal_with_fuel(name_lt_from, 9);
        }
    } else if r == 783 {
        assert(name_lt("SERVER_RECONFIGURE"@, "SESSION_WAIT_STATS_CHILDREN"@)) by {
            reveal_strlit("SERVER_RECONFIGURE");
            reveal_strlit("SESSION_WAIT_STATS_CHILDREN");
            reveal_with_fuel(name_lt_from, 4);
        }
    } else if r == 784 {
        assert(name_lt("SESSION_WAIT_STATS_CHILDREN"@, "SHARED_DELTASTORE_CREATION"@)) by {
            reveal_strlit("SESSION_WAIT_STATS_CHILDREN");
            reveal_strlit("SHARED_DELTASTORE_CREATION");
            reveal_with_fuel(name_lt_from, 3);
        }
    } else if r == 785 {
        assert(name_lt("SHARED_DELTASTORE_CREATION"@, "SHUTDOWN"@)) by {
            reveal_strlit("SHARED_DELTASTORE_CREATION");
            reveal_strlit("SHUTDOWN");
            reveal_with_fuel(name_lt_from, 4);
        }
    } else if r == 786 {
        assert(name_lt("SHUTDOWN"@, "SLEEP_BPOOL_FLUSH"@)) by {
            reveal_strlit("SHUTDOWN");
            reveal_strlit("SLEEP_BPOOL_FLUSH");
            reveal_with_fuel(name_lt_from, 3);
        }
    } else if r == 787 {
        assert(name_lt("SLEEP_BPOOL_FLUSH"@, "SLEEP_BUFFERPOOL_HELPLW"@)) by {
            reveal_strlit("SLEEP_BPOOL_FLUSH");
            reveal_strlit("SLEEP_BUFFERPOOL_HELPLW");
            reveal_with_fuel(name_lt_from, 9);
        }
    } else if r == 788 {
        assert(name_lt("SLEEP_BUFFERPOOL_HELPLW"@, "SLEEP_DBSTARTUP"@)) by {
            reveal_strlit("SLEEP_BUFFERPOOL_HELPLW");
            reveal_strlit("SLEEP_DBSTARTUP");
            reveal_with_fuel(name_lt_from, 8);
        }
    } else if r == 789 {
        assert(name_lt("SLEEP_DBSTARTUP"@, "SLEEP_DCOMSTARTUP"@)) by {
            reveal_strlit("SLEEP_DBSTARTUP");
            reveal_strlit("SLEEP_DCOMSTARTUP");
            reveal_with_fuel(name_lt_from, 9);
        }
    } else if r == 790 {
        assert(name_lt("SLEEP_DCOMSTARTUP"@, "SLEEP_MASTERDBREADY"@)) by {
            reveal_strlit("SLEEP_DCOMSTARTUP");
            reveal_strlit("SLEEP_MASTERDBREADY");
            reveal_with_fuel(name_lt_from, 8);
        }
    } else if r == 791 {
        assert(name_lt("SLEEP_MASTERDBREADY"@, "SLEEP_MASTERMDREADY"@)) by {
            reveal_strlit("SLEEP_MASTERDBREADY");
            reveal_strlit("SLEEP_MASTERMDREADY");
            reveal_with_fuel(name_lt_from, 14);
        }
    } else if r == 792 {
        assert(name_lt("SLEEP_MASTERMDREADY"@, "SLEEP_MASTERUPGRADED"@)) by {
            reveal_strlit("SLEEP_MASTERMDREADY");
            reveal_strlit("SLEEP_MASTERUPGRADED");
            reveal_with_fuel(name_lt_from, 14);
        }
    } else if r == 793 {
        assert(name_lt("SLEEP_MASTERUPGRADED"@, "SLEEP_MEMORYPOOL_ALLOCATEPAGES"@)) by {
            reveal_strlit("SLEEP_MASTERUPGRADED");
            reveal_strlit("SLEEP_MEMORYPOOL_ALLOCATEPAGES");
            reveal_with_fuel(name_lt_from, 9);
        }
    } else if r == 794 {
        assert(name_lt("SLEEP_MEMORYPOOL_ALLOCATEPAGES"@, "SLEEP_MSDBSTARTUP"@)) by {
            reveal_strlit("SLEEP_MEMORYPOOL_ALLOCATEPAGES");
            reveal_strlit("SLEEP_MSDBSTARTUP");
            reveal_with_fuel(name_lt_from, 9);
        }
    } else if r == 795 {
        assert(name_lt("SLEEP_MSDBSTARTUP"@, "SLEEP_RETRY_VIRTUALALLOC"@)) by {
            reveal_strlit("SLEEP_MSDBSTARTUP");
            reveal_strlit("SLEEP_RETRY_VIRTUALALLOC");
            reveal_with_fuel(name_lt_from, 8);
        }
    } else if r == 796 {
        assert(name_lt("SLEEP_RETRY_VIRTUALALLOC"@, "SLEEP_SYSTEMTASK"@)) by {
            reveal_strlit("SLEEP_RETRY_VIRTUALALLOC");
            reveal_strlit("SLEEP_SYSTEMTASK");
            reveal_with_fuel(name_lt_from, 8);
        }
    } else if r == 797 {
        assert(name_lt("SLEEP_SYSTEMTASK"@, "SLEEP_TASK"@)) by {
            reveal_strlit("SLEEP_SYSTEMTASK");
            reveal_strlit("SLEEP_TASK");
            reveal_with_fuel(name_lt_from, 8);
        }
    } else if r == 798 {
        assert(name_lt("SLEEP_TASK"@, "SLEEP_TEMPDBSTARTUP"@)) by {
            reveal_strlit("SLEEP_TASK");
            reveal_strlit("SLEEP_TEMPDBSTARTUP");
            reveal_with_fuel(name_lt_from, 9);
        }
    } else if r == 799 {
        assert(name_lt("SLEEP_TEMPDBSTARTUP"@, "SLEEP_WORKSPACE_ALLOCATEPAGE"@)) by {
            reveal_strlit("SLEEP_TEMPDBSTARTUP");
            reveal_strlit("SLEEP_WORKSPACE_ALLOCATEPAGE");
            reveal_with_fuel(name_lt_from, 8);
        }
    }
}

/// A wait type of part 16 has its place in that part, and the list has its
/// name at that place.
#[verifier::rlimit(60)]
proof fn lemma_rank_in_part_16(w: WaitType)
    requires
        in_part_16(w),
    ensures
        800 <= wait_type_rank(w) < 850,
        wait_type_at(wait_type_rank(w)) == w,
        name_at(wait_type_rank(w)) == wait_type_name(w),
        is_listed_wait_type(wait_type_name(w)),
{
    reveal(rank_in_part_16);
    reveal(ranked_in_part_16);
    reveal(name_in_part_16);
    reveal(listed_name_16);
    lemma_name_in_part_16(w);
}

/// The names at places 800 to 849 of the list are each followed by a greater one.
proof fn lemma_sorted_in_part_16(r: int)
    requires
        800 <= r < 850,
    ensures
        name_lt(name_at(r), name_at(r + 1)),
{
    reveal(name_in_part_16);
    reveal(name_in_part_17);
    if r == 800 {
        assert(name_lt("SLEEP_WORKSPACE_ALLOCATEPAGE"@, "SLO_UPDATE"@)) by {
            reveal_strlit("SLEEP_WORKSPACE_ALLOCATEPAGE");
            reveal_strlit("SLO_UPDATE");
            reveal_with_fuel(name_lt_from, 4);
        }
    } else if r == 801 {
        assert(name_lt("SLO_UPDATE"@, "SMSYNC"@)) by {
            reveal_strlit("SLO_UPDATE");
            reveal_strlit("SMSYNC");
            reveal_with_fuel(name_lt_from, 3);
        }
    } else if r == 802 {
        assert(name_lt("SMSYNC"@, "SNI_CONN_DUP"@)) by {
            reveal_strlit("SMSYNC");
            reveal_strlit("SNI_CONN_DUP");
            reveal_with_fuel(name_lt_from, 3);
        }
    } else if r == 803 {
        assert(name_lt("SNI_CONN_DUP"@, "SNI_CRITICAL_SECTION"@)) by {
            reveal_strlit("SNI_CONN_DUP");
            reveal_strlit("SNI_CRITICAL_SECTION");
            reveal_with_fuel(name_lt_from, 7);
        }
    } else if r == 804 {
        assert(name_lt("SNI_CRITICAL_SECTION"@, "SNI_HTTP_WAITFOR_0_DISCON"@)) by {
            reveal_strlit("SNI_CRITICAL_SECTION");
            reveal_strlit("SNI_HTTP_WAITFOR_0_DISCON");
            reveal_with_fuel(name_lt_from, 6);
        }
    } else if r == 805 {
        assert(name_lt("SNI_HTTP_WAITFOR_0_DISCON"@, "SNI_LISTENER_ACCESS"@)) by {
            reveal_strlit("SNI_HTTP_WAITFOR_0_DISCON");
            reveal_strlit("SNI_LISTENER_ACCESS");
            reveal_with_fuel(name_lt_from, 6);
        }
    } else if r == 806 {
        assert(name_lt("SNI_LISTENER_ACCESS"@, "SNI_TASK_COMPLETION"@)) by {
            reveal_strlit("SNI_LISTENER_ACCESS");
            reveal_strlit("SNI_TASK_COMPLETION");
            reveal_with_fuel(name_lt_from, 6);
        }
    } else if r == 807 {
        assert(name_lt("SNI_TASK_COMPLETION"@, "SNI_WRITE_ASYNC"@)) by {
            reveal_strlit("SNI_TASK_COMPLETION");
            reveal_strlit("SNI_WRITE_ASYNC");
            reveal_with_fuel(name_lt_from, 6);
        }
    } else if r == 808 {
        assert(name_lt("SNI_WRITE_ASYNC"@, "SOAP_READ"@)) by {
            reveal_strlit("SNI_WRITE_ASYNC");
            reveal_strlit("SOAP_READ");
            reveal_with_fuel(name_lt_from, 3);
        }
    } else if r == 809 {
        assert(name_lt("SOAP_READ"@, "SOAP_WRITE"@)) by {
            reveal_strlit("SOAP_READ");
            reveal_strlit("SOAP_WRITE");
            reveal_with_fuel(name_lt_from, 7);
        }
    } else if r == 810 {
        assert(name_lt("SOAP_WRITE"@, "SOCKETDUPLICATEQUEUE_CLEANUP"@)) by {
            reveal_strlit("SOAP_WRITE");
            reveal_strlit("SOCKETDUPLICATEQUEUE_CLEANUP");
            reveal_with_fuel(name_lt_from, 4);
        }
    } else if r == 811 {
        assert(name_lt("SOCKETDUPLICATEQUEUE_CLEANUP"@, "SOSHOST_EVENT"@)) by {
            reveal_strlit("SOCKETDUPLICATEQUEUE_CLEANUP");
            reveal_strlit("SOSHOST_EVENT");
            reveal_with_fuel(name_lt_from, 4);
        }
    } else if r == 812 {
        assert(name_lt("SOSHOST_EVENT"@, "SOSHOST_INTERNAL"@)) by {
            reveal_strlit("SOSHOST_EVENT");
            reveal_strlit("SOSHOST_INTERNAL");
            reveal_with_fuel(name_lt_from, 10);
        }
    } else if r == 813 {
        assert(name_lt("SOSHOST_INTERNAL"@, "SOSHOST_MUTEX"@)) by {
            reveal_strlit("SOSHOST_INTERNAL");
            reveal_strlit("SOSHOST_MUTEX");
            reveal_with_fuel(name_lt_from, 10);
        }
    } else if r == 814 {
        assert(name_lt("SOSHOST_MUTEX"@, "SOSHOST_RWLOCK"@)) by {
            reveal_strlit("SOSHOST_MUTEX");
            reveal_strlit("SOSHOST_RWLOCK");
            reveal_with_fuel(name_lt_from, 10);
        }
    } else if r == 815 {
        assert(name_lt("SOSHOST_RWLOCK"@, "SOSHOST_SEMAPHORE"@)) by {
            reveal_strlit("SOSHOST_RWLOCK");
            reveal_strlit("SOSHOST_SEMAPHORE");
            reveal_with_fuel(name_lt_from, 10);
        }
    } else if r == 816 {
        assert(name_lt("SOSHOST_SEMAPHORE"@, "SOSHOST_SLEEP"@)) by {
            reveal_strlit("SOSHOST_SEMAPHORE");
            reveal_strlit("SOSHOST_SLEEP");
            reveal_with_fuel(name_lt_from, 11);
        }
    } else if r == 817 {
        assert(name_lt("SOSHOST_SLEEP"@, "SOSHOST_TRACELOCK"@)) by {
            reveal_strlit("SOSHOST_SLEEP");
            reveal_strlit("SOSHOST_TRACELOCK");
            reveal_with_fuel(name_lt_from, 10);
        }
    } else if r == 818 {
        assert(name_lt("SOSHOST_TRACELOCK"@, "SOSHOST_WAITFORDONE"@)) by {
            reveal_strlit("SOSHOST_TRACELOCK");
            reveal_strlit("SOSHOST_WAITFORDONE");
            reveal_with_fuel(name_lt_from, 10);
        }
    } else if r == 819 {
        assert(name_lt("SOSHOST_WAITFORDONE"@, "SOS_CALLBACK_REMOVAL"@)) by {
            reveal_strlit("SOSHOST_WAITFORDONE");
            reveal_strlit("SOS_CALLBACK_REMOVAL");
            reveal_with_fuel(name_lt_from, 5);
        }
    } else if r == 820 {
        assert(name_lt("SOS_CALLBACK_REMOVAL"@, "SOS_DISPATCHER_MUTEX"@)) by {
            reveal_strlit("SOS_CALLBACK_REMOVAL");
            reveal_strlit("SOS_DISPATCHER_MUTEX");
            reveal_with_fuel(name_lt_from, 6);
        }
    } else if r == 821 {
        assert(name_lt("SOS_DISPATCHER_MUTEX"@, "SOS_LOCALALLOCATORLIST"@)) by {
            reveal_strlit("SOS_DISPATCHER_MUTEX");
            reveal_strlit("SOS_LOCALALLOCATORLIST");
            reveal_with_fuel(name_lt_from, 6);
        }
    } else if r == 822 {
        assert(name_lt("SOS_LOCALALLOCATORLIST"@, "SOS_MEMORY_TOPLEVELBLOCKALLOCATOR"@)) by {
            reveal_strlit("SOS_LOCALALLOCATORLIST");
            reveal_strlit("SOS_MEMORY_TOPLEVELBLOCKALLOCATOR");
            reveal_with_fuel(name_lt_from, 6);
        }
    } else if r == 823 {
        assert(name_lt("SOS_MEMORY_TOPLEVELBLOCKALLOCATOR"@, "SOS_MEMORY_USAGE_ADJUSTMENT"@)) by {
            reveal_strlit("SOS_MEMORY_TOPLEVELBLOCKALLOCATOR");
            reveal_strlit("SOS_MEMORY_USAGE_ADJUSTMENT");
            reveal_with_fuel(name_lt_from, 13);
        }
    } else if r == 824 {
        assert(name_lt("SOS_MEMORY_USAGE_ADJUSTMENT"@, "SOS_OBJECT_STORE_DESTROY_MUTEX"@)) by {
            reveal_strlit("SOS_MEMORY_USAGE_ADJUSTMENT");
            reveal_strlit("SOS_OBJECT_STORE_DESTROY_MUTEX");
            reveal_with_fuel(name_lt_from, 6);
        }
    } else if r == 825 {
        assert(name_lt("SOS_OBJECT_STORE_DESTROY_MUTEX"@, "SOS_PHYS_PAGE_CACHE"@)) by {
            reveal_strlit("SOS_OBJECT_STORE_DESTROY_MUTEX");
            reveal_strlit("SOS_PHYS_PAGE_CACHE");
            reveal_with_fuel(name_lt_from, 6);
        }
    } else if r == 826 {
        assert(name_lt("SOS_PHYS_PAGE_CACHE"@, "SOS_PROCESS_AFFINITY_MUTEX"@)) by {
            reveal_strlit("SOS_PHYS_PAGE_CACHE");
            reveal_strlit("SOS_PROCESS_AFFINITY_MUTEX");
            reveal_with_fuel(name_lt_from, 7);
        }
    } else if r == 827 {
        assert(name_lt("SOS_PROCESS_AFFINITY_MUTEX"@, "SOS_RESERVEDMEMBLOCKLIST"@)) by {
            reveal_strlit("SOS_PROCESS_AFFINITY_MUTEX");
            reveal_strlit("SOS_RESERVEDMEMBLOCKLIST");
            reveal_with_fuel(name_lt_from, 6);
        }
    } else if r == 828 {
        assert(name_lt("SOS_RESERVEDMEMBLOCKLIST"@, "SOS_SCHEDULER_YIELD"@)) by {
            reveal_strlit("SOS_RESERVEDMEMBLOCKLIST");
            reveal_strlit("SOS_SCHEDULER_YIELD");
            reveal_with_fuel(name_lt_from, 6);
        }
    } else if r == 829 {
        assert(name_lt("SOS_SCHEDULER_YIELD"@, "SOS_SMALL_PAGE_ALLOC"@)) by {
            reveal_strlit("SOS_SCHEDULER_YIELD");
            reveal_strlit("SOS_SMALL_PAGE_ALLOC");
            reveal_with_fuel(name_lt_from, 7);
        }
    } else if r == 830 {
        assert(name_lt("SOS_SMALL_PAGE_ALLOC"@, "SOS_STACKSTORE_INIT_MUTEX"@)) by {
            reveal_strlit("SOS_SMALL_PAGE_ALLOC");
            reveal_strlit("SOS_STACKSTORE_INIT_MUTEX");
            reveal_with_fuel(name_lt_from, 7);
        }
    } else if r == 831 {
        assert(name_lt("SOS_STACKSTORE_INIT_MUTEX"@, "SOS_SYNC_TASK_ENQUEUE_EVENT"@)) by {
            reveal_strlit("SOS_STACKSTORE_INIT_MUTEX");
            reveal_strlit("SOS_SYNC_TASK_ENQUEUE_EVENT");
            reveal_with_fuel(name_lt_from, 7);
        }
    } else if r == 832 {
        assert(name_lt("SOS_SYNC_TASK_ENQUEUE_EVENT"@, "SOS_VIRTUALMEMORY_LOW"@)) by {
            reveal_strlit("SOS_SYNC_TASK_ENQUEUE_EVENT");
            reveal_strlit("SOS_VIRTUALMEMORY_LOW");
            reveal_with_fuel(name_lt_from, 6);
        }
    } else if r == 833 {
        assert(name_lt("SOS_VIRTUALMEMORY_LOW"@, "SOS_WORK_DISPATCHER"@)) by {
            reveal_strlit("SOS_VIRTUALMEMORY_LOW");
            reveal_strlit("SOS_WORK_DISPATCHER");
            reveal_with_fuel(name_lt_from, 6);
        }
    } else if r == 834 {
        assert(name_lt("SOS_WORK_DISPATCHER"@, "SPINLOCK_EXT"@)) by {
            reveal_strlit("SOS_WORK_DISPATCHER");
            reveal_strlit("SPINLOCK_EXT");
            reveal_with_fuel(name_lt_from, 3);
        }
    } else if r == 835 {
        assert(name_lt("SPINLOCK_EXT"@, "SP_PREEMPTIVE_SERVER_DIAGNOSTICS_SLEEP"@)) by {
            reveal_strlit("SPINLOCK_EXT");
            reveal_strlit("SP_PREEMPTIVE_SERVER_DIAGNOSTICS_SLEEP");
            reveal_with_fuel(name_lt_from, 4);
        }
    } else if r == 836 {
        assert(name_lt("SP_PREEMPTIVE_SERVER_DIAGNOSTICS_SLEEP"@, "SP_SERVER_DIAGNOSTICS_BUFFER_ACCESS"@)) by {
            reveal_strlit("SP_PREEMPTIVE_SERVER_DIAGNOSTICS_SLEEP");
            reveal_strlit("SP_SERVER_DIAGNOSTICS_BUFFER_ACCESS");
            reveal_with_fuel(name_lt_from, 5);
        }
    } else if r == 837 {
        assert(name_lt("SP_SERVER_DIAGNOSTICS_BUFFER_ACCESS"@, "SP_SERVER_DIAGNOSTICS_INIT_MUTEX"@)) by {
            reveal_strlit("SP_SERVER_DIAGNOSTICS_BUFFER_ACCESS");
            reveal_strlit("SP_SERVER_DIAGNOSTICS_INIT_MUTEX");
            reveal_with_fuel(name_lt_from, 24);
        }
    } else if r == 838 {
        assert(name_lt("SP_SERVER_DIAGNOSTICS_INIT_MUTEX"@, "SP_SERVER_DIAGNOSTICS_SLEEP"@)) by {
            reveal_strlit("SP_SERVER_DIAGNOSTICS_INIT_MUTEX");
            reveal_strlit("SP_SERVER_DIAGNOSTICS_SLEEP");
            reveal_with_fuel(name_lt_from, 24);
        }
    } else if r == 839 {
        assert(name_lt("SP_SERVER_DIAGNOSTICS_SLEEP"@, "SQLCLR_APPDOMAIN"@)) by {
            reveal_strlit("SP_SERVER_DIAGNOSTICS_SLEEP");
            reveal_strlit("SQLCLR_APPDOMAIN");
            reveal_with_fuel(name_lt_from, 3);
        }
    } else if r == 840 {
        assert(name_lt("SQLCLR_APPDOMAIN"@, "SQLCLR_ASSEMBLY"@)) by {
            reveal_strlit("SQLCLR_APPDOMAIN");
            reveal_strlit("SQLCLR_ASSEMBLY");
            reveal_with_fuel(name_lt_from, 10);
        }
    } else if r == 841 {
        assert(name_lt("SQLCLR_ASSEMBLY"@, "SQLCLR_DEADLOCK_DETECTION"@)) by {
            reveal_strlit("SQLCLR_ASSEMBLY");
            reveal_strlit("SQLCLR_DEADLOCK_DETECTION");
            reveal_with_fuel(name_lt_from, 9);
        }
    } else if r == 842 {
        assert(name_lt("SQLCLR_DEADLOCK_DETECTION"@, "SQLCLR_QUANTUM_PUNISHMENT"@)) by {
            reveal_strlit("SQLCLR_DEADLOCK_DETECTION");
            reveal_strlit("SQLCLR_QUANTUM_PUNISHMENT");
            reveal_with_fuel(name_lt_from, 9);
        }
    } else if r == 843 {
        assert(name_lt("SQLCLR_QUANTUM_PUNISHMENT"@, "SQLSORT_NORMMUTEX"@)) by {
            reveal_strlit("SQLCLR_QUANTUM_PUNISHMENT");
            reveal_strlit("SQLSORT_NORMMUTEX");
            reveal_with_fuel(name_lt_from, 5);
        }
    } else if r == 844 {
        assert(name_lt("SQLSORT_NORMMUTEX"@, "SQLSORT_SORTMUTEX"@)) by {
            reveal_strlit("SQLSORT_NORMMUTEX");
            reveal_strlit("SQLSORT_SORTMUTEX");
            reveal_with_fuel(name_lt_from, 10);
        }
    } else if r == 845 {
        assert(name_lt("SQLSORT_SORTMUTEX"@, "SQLTRACE_BUFFER_FLUSH"@)) by {
            reveal_strlit("SQLSORT_SORTMUTEX");
            reveal_strlit("SQLTRACE_BUFFER_FLUSH");
            reveal_with_fuel(name_lt_from, 5);
        }
    } else if r == 846 {
        assert(name_lt("SQLTRACE_BUFFER_FLUSH"@, "SQLTRACE_FILE_BUFFER"@)) by {
            reveal_strlit("SQLTRACE_BUFFER_FLUSH");
            reveal_strlit("SQLTRACE_FILE_BUFFER");
            reveal_with_fuel(name_lt_from, 11);
        }
    } else if r == 847 {
        assert(name_lt("SQLTRACE_FILE_BUFFER"@, "SQLTRACE_FILE_READ_IO_COMPLETION"@)) by {
            reveal_strlit("SQLTRACE_FILE_BUFFER");
            reveal_strlit("SQLTRACE_FILE_READ_IO_COMPLETION");
            reveal_with_fuel(name_lt_from, 16);
        }
    } else if r == 848 {
        assert(name_lt("SQLTRACE_FILE_READ_IO_COMPLETION"@, "SQLTRACE_FILE_WRITE_IO_COMPLETION"@)) by {
            reveal_strlit("SQLTRACE_FILE_READ_IO_COMPLETION");
            reveal_strlit("SQLTRACE_FILE_WRITE_IO_COMPLETION");
            reveal_with_fuel(name_lt_from, 16);
        }
    } else if r == 849 {
        assert(name_lt("SQLTRACE_FILE_WRITE_IO_COMPLETION"@, "SQLTRACE_INCREMENTAL_FLUSH_SLEEP"@)) by {
            reveal_strlit("SQLTRACE_FILE_WRITE_IO_COMPLETION");
            reveal_strlit("SQLTRACE_INCREMENTAL_FLUSH_SLEEP");
            reveal_with_fuel(name_lt_from, 11);
        }
    }
}

/// A wait type of part 17 has its place in that part, and the list has its
/// name at that place.
#[verifier::rlimit(60)]
proof fn lemma_rank_in_part_17(w: WaitType)
    requires
        in_part_17(w),
    ensures
        850 <= wait_type_rank(w) < 900,
        wait_type_at(wait_type_rank(w)) == w,
        name_at(wait_type_rank(w)) == wait_type_name(w),
        is_listed_wait_type(wait_type_name(w)),
{
    reveal(rank_in_part_17);
    reveal(ranked_in_part_17);
    reveal(name_in_part_17);
    reveal(listed_name_17);
    lemma_name_in_part_17(w);
}

/// The names at places 850 to 899 of the list are each followed by a greater one.
proof fn lemma_sorted_in_part_17(r: int)
    requires
        850 <= r < 900,
    ensures
        name_lt(name_at(r), name_at(r + 1)),
{
    reveal(name_in_part_17);
    reveal(name_in_part_18);
    if r == 850 {
        assert(name_lt("SQLTRACE_INCREMENTAL_FLUSH_SLEEP"@, "SQLTRACE_LOCK"@)) by {
            reveal_strlit("SQLTRACE_INCREMENTAL_FLUSH_SLEEP");
            reveal_strlit("SQLTRACE_LOCK");
            reveal_with_fuel(name_lt_from, 11);
        }
    } else if r == 851 {
        assert(name_lt("SQLTRACE_LOCK"@, "SQLTRACE_PENDING_BUFFER_WRITERS"@)) by {
            reveal_strlit("SQLTRACE_LOCK");
            reveal_strlit("SQLTRACE_PENDING_BUFFER_WRITERS");
            reveal_with_fuel(name_lt_from, 11);
        }
    } else if r == 852 {
        assert(name_lt("SQLTRACE_PENDING_BUFFER_WRITERS"@, "SQLTRACE_SHUTDOWN"@)) by {
            reveal_strlit("SQLTRACE_PENDING_BUFFER_WRITERS");
            reveal_strlit("SQLTRACE_SHUTDOWN");
            reveal_with_fuel(name_lt_from, 11);
        }
    } else if r == 853 {
        assert(name_lt("SQLTRACE_SHUTDOWN"@, "SQLTRACE_WAIT_ENTRIES"@)) by {
            reveal_strlit("SQLTRACE_SHUTDOWN");
            reveal_strlit("SQLTRACE_WAIT_ENTRIES");
            reveal_with_fuel(name_lt_from, 11);
        }
    } else if r == 854 {
        assert(name_lt("SQLTRACE_WAIT_ENTRIES"@, "SRVPROC_SHUTDOWN"@)) by {
            reveal_strlit("SQLTRACE_WAIT_ENTRIES");
            reveal_strlit("SRVPROC_SHUTDOWN");
            reveal_with_fuel(name_lt_from, 3);
        }
    } else if r == 855 {
        assert(name_lt("SRVPROC_SHUTDOWN"@, "STARTUP_DEPENDENCY_MANAGER"@)) by {
            reveal_strlit("SRVPROC_SHUTDOWN");
            reveal_strlit("STARTUP_DEPENDENCY_MANAGER");
            reveal_with_fuel(name_lt_from, 3);
        }
    } else if r == 856 {
        assert(name_lt("STARTUP_DEPENDENCY_MANAGER"@, "TDS_BANDWIDTH_STATE"@)) by {
            reveal_strlit("STARTUP_DEPENDENCY_MANAGER");
            reveal_strlit("TDS_BANDWIDTH_STATE");
            reveal_with_fuel(name_lt_from, 2);
        }
    } else if r == 857 {
        assert(name_lt("TDS_BANDWIDTH_STATE"@, "TDS_INIT"@)) by {
            reveal_strlit("TDS_BANDWIDTH_STATE");
            reveal_strlit("TDS_INIT");
            reveal_with_fuel(name_lt_from, 6);
        }
    } else if r == 858 {
        assert(name_lt("TDS_INIT"@, "TDS_PROXY_CONTAINER"@)) by {
            reveal_strlit("TDS_INIT");
            reveal_strlit("TDS_PROXY_CONTAINER");
            reveal_with_fuel(name_lt_from, 6);
        }
    } else if r == 859 {
        assert(name_lt("TDS_PROXY_CONTAINER"@, "TEMPOBJ"@)) by {
            reveal_strlit("TDS_PROXY_CONTAINER");
            reveal_strlit("TEMPOBJ");
            reveal_with_fuel(name_lt_from, 3);
        }
    } else if r == 860 {
        assert(name_lt("TEMPOBJ"@, "TEMPORAL_BACKGROUND_PROCEED_CLEANUP"@)) by {
            reveal_strlit("TEMPOBJ");
            reveal_strlit("TEMPORAL_BACKGROUND_PROCEED_CLEANUP");
            reveal_with_fuel(name_lt_from, 7);
        }
    } else if r == 861 {
        assert(name_lt("TEMPORAL_BACKGROUND_PROCEED_CLEANUP"@, "TERMINATE_LISTENER"@)) by {
            reveal_strlit("TEMPORAL_BACKGROUND_PROCEED_CLEANUP");
            reveal_strlit("TERMINATE_LISTENER");
            reveal_with_fuel(name_lt_from, 4);
        }
    } else if r == 862 {
        assert(name_lt("TERMINATE_LISTENER"@, "THREADPOOL"@)) by {
            reveal_strlit("TERMINATE_LISTENER");
            reveal_strlit("THREADPOOL");
            reveal_with_fuel(name_lt_from, 3);
        }
    } else if r == 863 {
        assert(name_lt("THREADPOOL"@, "TIMEPRIV_TIMEPERIOD"@)) by {
            reveal_strlit("THREADPOOL");
            reveal_strlit("TIMEPRIV_TIMEPERIOD");
            reveal_with_fuel(name_lt_from, 3);
        }
    } else if r == 864 {
        assert(name_lt("TIMEPRIV_TIMEPERIOD"@, "TRACEWRITE"@)) by {
            reveal_strlit("TIMEPRIV_TIMEPERIOD");
            reveal_strlit("TRACEWRITE");
            reveal_with_fuel(name_lt_from, 3);
        }
    } else if r == 865 {
        assert(name_lt("TRACEWRITE"@, "TRACE_EVTNOTIF"@)) by {
            reveal_strlit("TRACEWRITE");
            reveal_strlit("TRACE_EVTNOTIF");
            reveal_with_fuel(name_lt_from, 7);
        }
    } else if r == 866 {
        assert(name_lt("TRACE_EVTNOTIF"@, "TRANSACTION_MUTEX"@)) by {
            reveal_strlit("TRACE_EVTNOTIF");
            reveal_strlit("TRANSACTION_MUTEX");
            reveal_with_fuel(name_lt_from, 5);
        }
    } else if r == 867 {
        assert(name_lt("TRANSACTION_MUTEX"@, "TRAN_MARKLATCH_DT"@)) by {
            reveal_strlit("TRANSACTION_MUTEX");
            reveal_strlit("TRAN_MARKLATCH_DT");
            reveal_with_fuel(name_lt_from, 6);
        }
    } else if r == 868 {
        assert(name_lt("TRAN_MARKLATCH_DT"@, "TRAN_MARKLATCH_EX"@)) by {
            reveal_strlit("TRAN_MARKLATCH_DT");
            reveal_strlit("TRAN_MARKLATCH_EX");
            reveal_with_fuel(name_lt_from, 17);
        }
    } else if r == 869 {
        assert(name_lt("TRAN_MARKLATCH_EX"@, "TRAN_MARKLATCH_KP"@)) by {
            reveal_strlit("TRAN_MARKLATCH_EX");
            reveal_strlit("TRAN_MARKLATCH_KP");
            reveal_with_fuel(name_lt_from, 17);
        }
    } else if r == 870 {
        assert(name_lt("TRAN_MARKLATCH_KP"@, "TRAN_MARKLATCH_NL"@)) by {
            reveal_strlit("TRAN_MARKLATCH_KP");
            reveal_strlit("TRAN_MARKLATCH_NL");
            reveal_with_fuel(name_lt_from, 17);
        }
    } else if r == 871 {
        assert(name_lt("TRAN_MARKLATCH_NL"@, "TRAN_MARKLATCH_SH"@)) by {
            reveal_strlit("TRAN_MARKLATCH_NL");
            reveal_strlit("TRAN_MARKLATCH_SH");
            reveal_with_fuel(name_lt_from, 17);
        }
    } else if r == 872 {
        assert(name_lt("TRAN_MARKLATCH_SH"@, "TRAN_MARKLATCH_UP"@)) by {
            reveal_strlit("TRAN_MARKLATCH_SH");
            reveal_strlit("TRAN_MARKLATCH_UP");
            reveal_with_fuel(name_lt_from, 17);
        }
    } else if r == 873 {
        assert(name_lt("TRAN_MARKLATCH_UP"@, "UCS_ENDPOINT_CHANGE"@)) by {
            reveal_strlit("TRAN_MARKLATCH_UP");
            reveal_strlit("UCS_ENDPOINT_CHANGE");
            reveal_with_fuel(name_lt_from, 2);
        }
    } else if r == 874 {
        assert(name_lt("UCS_ENDPOINT_CHANGE"@, "UCS_MANAGER"@)) by {
            reveal_strlit("UCS_ENDPOINT_CHANGE");
            reveal_strlit("UCS_MANAGER");
            reveal_with_fuel(name_lt_from, 6);
        }
    } else if r == 875 {
        assert(name_lt("UCS_MANAGER"@, "UCS_MEMORY_NOTIFICATION"@)) by {
            reveal_strlit("UCS_MANAGER");
            reveal_strlit("UCS_MEMORY_NOTIFICATION");
            reveal_with_fuel(name_lt_from, 7);
        }
    } else if r == 876 {
        assert(name_lt("UCS_MEMORY_NOTIFICATION"@, "UCS_SESSION_REGISTRATION"@)) by {
            reveal_strlit("UCS_MEMORY_NOTIFICATION");
            reveal_strlit("UCS_SESSION_REGISTRATION");
            reveal_with_fuel(name_lt_from, 6);
        }
    } else if r == 877 {
        assert(name_lt("UCS_SESSION_REGISTRATION"@, "UCS_TRANSPORT"@)) by {
            reveal_strlit("UCS_SESSION_REGISTRATION");
            reveal_strlit("UCS_TRANSPORT");
            reveal_with_fuel(name_lt_from, 6);
        }
    } else if r == 878 {
        assert(name_lt("UCS_TRANSPORT"@, "UCS_TRANSPORT_STREAM_CHANGE"@)) by {
            reveal_strlit("UCS_TRANSPORT");
            reveal_strlit("UCS_TRANSPORT_STREAM_CHANGE");
            reveal_with_fuel(name_lt_from, 15);
        }
    } else if r == 879 {
        assert(name_lt("UCS_TRANSPORT_STREAM_CHANGE"@, "UTIL_PAGE_ALLOC"@)) by {
            reveal_strlit("UCS_TRANSPORT_STREAM_CHANGE");
            reveal_strlit("UTIL_PAGE_ALLOC");
            reveal_with_fuel(name_lt_from, 3);
        }
    } else if r == 880 {
        assert(name_lt("UTIL_PAGE_ALLOC"@, "VDI_CLIENT_COMPLETECOMMAND"@)) by {
            reveal_strlit("UTIL_PAGE_ALLOC");
            reveal_strlit("VDI_CLIENT_COMPLETECOMMAND");
            reveal_with_fuel(name_lt_from, 2);
        }
    } else if r == 881 {
        assert(name_lt("VDI_CLIENT_COMPLETECOMMAND"@, "VDI_CLIENT_GETCOMMAND"@)) by {
            reveal_strlit("VDI_CLIENT_COMPLETECOMMAND");
            reveal_strlit("VDI_CLIENT_GETCOMMAND");
            reveal_with_fuel(name_lt_from, 13);
        }
    } else if r == 882 {
        assert(name_lt("VDI_CLIENT_GETCOMMAND"@, "VDI_CLIENT_OPERATION"@)) by {
            reveal_strlit("VDI_CLIENT_GETCOMMAND");
            reveal_strlit("VDI_CLIENT_OPERATION");
            reveal_with_fuel(name_lt_from, 13);
        }
    } else if r == 883 {
        assert(name_lt("VDI_CLIENT_OPERATION"@, "VDI_CLIENT_OTHER"@)) by {
            reveal_strlit("VDI_CLIENT_OPERATION");
            reveal_strlit("VDI_CLIENT_OTHER");
            reveal_with_fuel(name_lt_from, 14);
        }
    } else if r == 884 {
        assert(name_lt("VDI_CLIENT_OTHER"@, "VERSIONING_COMMITTING"@)) by {
            reveal_strlit("VDI_CLIENT_OTHER");
            reveal_strlit("VERSIONING_COMMITTING");
            reveal_with_fuel(name_lt_from, 3);
        }
    } else if r == 885 {
        assert(name_lt("VERSIONING_COMMITTING"@, "VIA_ACCEPT"@)) by {
            reveal_strlit("VERSIONING_COMMITTING");
            reveal_strlit("VIA_ACCEPT");
            reveal_with_fuel(name_lt_from, 3);
        }
    } else if r == 886 {
        assert(name_lt("VIA_ACCEPT"@, "VIEW_DEFINITION_MUTEX"@)) by {
            reveal_strlit("VIA_ACCEPT");
            reveal_strlit("VIEW_DEFINITION_MUTEX");
            reveal_with_fuel(name_lt_from, 4);
        }
    } else if r == 887 {
        assert(name_lt("VIEW_DEFINITION_MUTEX"@, "WAITFOR"@)) by {
            reveal_strlit("VIEW_DEFINITION_MUTEX");
            reveal_strlit("WAITFOR");
            reveal_with_fuel(name_lt_from, 2);
        }
    } else if r == 888 {
        assert(name_lt("WAITFOR"@, "WAITFOR_PER_QUEUE"@)) by {
            reveal_strlit("WAITFOR");
            reveal_strlit("WAITFOR_PER_QUEUE");
            reveal_with_fuel(name_lt_from, 9);
        }
    } else if r == 889 {
        assert(name_lt("WAITFOR_PER_QUEUE"@, "WAITFOR_TASKSHUTDOWN"@)) by {
            reveal_strlit("WAITFOR_PER_QUEUE");
            reveal_strlit("WAITFOR_TASKSHUTDOWN");
            reveal_with_fuel(name_lt_from, 10);
        }
    } else if r == 890 {
        assert(name_lt("WAITFOR_TASKSHUTDOWN"@, "WAITSTAT_MUTEX"@)) by {
            reveal_strlit("WAITFOR_TASKSHUTDOWN");
            reveal_strlit("WAITSTAT_MUTEX");
            reveal_with_fuel(name_lt_from, 6);
        }
    } else if r == 891 {
        assert(name_lt("WAITSTAT_MUTEX"@, "WAIT_FOR_RESULTS"@)) by {
            reveal_strlit("WAITSTAT_MUTEX");
            reveal_strlit("WAIT_FOR_RESULTS");
            reveal_with_fuel(name_lt_from, 6);
        }
    } else if r == 892 {
        assert(name_lt("WAIT_FOR_RESULTS"@, "WAIT_ON_SYNC_STATISTICS_REFRESH"@)) by {
            reveal_strlit("WAIT_FOR_RESULTS");
            reveal_strlit("WAIT_ON_SYNC_STATISTICS_REFRESH");
            reveal_with_fuel(name_lt_from, 7);
        }
    } else if r == 893 {
        assert(name_lt("WAIT_ON_SYNC_STATISTICS_REFRESH"@, "WAIT_SCRIPTDEPLOYMENT_REQUEST"@)) by {
            reveal_strlit("WAIT_ON_SYNC_STATISTICS_REFRESH");
            reveal_strlit("WAIT_SCRIPTDEPLOYMENT_REQUEST");
            reveal_with_fuel(name_lt_from, 7);
        }
    } else if r == 894 {
        assert(name_lt("WAIT_SCRIPTDEPLOYMENT_REQUEST"@, "WAIT_SCRIPTDEPLOYMENT_WORKER"@)) by {
            reveal_strlit("WAIT_SCRIPTDEPLOYMENT_REQUEST");
            reveal_strlit("WAIT_SCRIPTDEPLOYMENT_WORKER");
            reveal_with_fuel(name_lt_from, 24);
        }
    } else if r == 895 {
        assert(name_lt("WAIT_SCRIPTDEPLOYMENT_WORKER"@, "WAIT_XLOGREAD_SIGNAL"@)) by {
            reveal_strlit("WAIT_SCRIPTDEPLOYMENT_WORKER");
            reveal_strlit("WAIT_XLOGREAD_SIGNAL");
            reveal_with_fuel(name_lt_from, 7);
        }
    } else if r == 896 {
        assert(name_lt("WAIT_XLOGREAD_SIGNAL"@, "WAIT_XTP_ASYNC_TX_COMPLETION"@)) by {
            reveal_strlit("WAIT_XLOGREAD_SIGNAL");
            reveal_strlit("WAIT_XTP_ASYNC_TX_COMPLETION");
            reveal_with_fuel(name_lt_from, 8);
        }
    } else if r == 897 {
        assert(name_lt("WAIT_XTP_ASYNC_TX_COMPLETION"@, "WAIT_XTP_CKPT_AGENT_WAKEUP"@)) by {
            reveal_strlit("WAIT_XTP_ASYNC_TX_COMPLETION");
            reveal_strlit("WAIT_XTP_CKPT_AGENT_WAKEUP");
            reveal_with_fuel(name_lt_from, 11);
        }
    } else if r == 898 {
        assert(name_lt("WAIT_XTP_CKPT_AGENT_WAKEUP"@, "WAIT_XTP_CKPT_CLOSE"@)) by {
            reveal_strlit("WAIT_XTP_CKPT_AGENT_WAKEUP");
            reveal_strlit("WAIT_XTP_CKPT_CLOSE");
            reveal_with_fuel(name_lt_from, 16);
        }
    } else if r == 899 {
        assert(name_lt("WAIT_XTP_CKPT_CLOSE"@, "WAIT_XTP_CKPT_ENABLED"@)) by {
            reveal_strlit("WAIT_XTP_CKPT_CLOSE");
            reveal_strlit("WAIT_XTP_CKPT_ENABLED");
            reveal_with_fuel(name_lt_from, 16);
        }
    }
}

/// A wait type of part 18 has its place in that part, and the list has its
/// name at that place.
#[verifier::rlimit(60)]
proof fn lemma_rank_in_part_18(w: WaitType)
    requires
        in_part_18(w),
    ensures
        900 <= wait_type_rank(w) < 950,
        wait_type_at(wait_type_rank(w)) == w,
        name_at(wait_type_rank(w)) == wait_type_name(w),
        is_listed_wait_type(wait_type_name(w)),
{
    reveal(rank_in_part_18);
    reveal(ranked_in_part_18);
    reveal(name_in_part_18);
    reveal(listed_name_18);
    lemma_name_in_part_18(w);
}

/// The names at places 900 to 949 of the list are each followed by a greater one.
proof fn lemma_sorted_in_part_18(r: int)
    requires
        900 <= r < 950,
    ensures
        name_lt(name_at(r), name_at(r + 1)),
{
    reveal(name_in_part_18);
    reveal(name_in_part_19);
    if r == 900 {
        assert(name_lt("WAIT_XTP_CKPT_ENABLED"@, "WAIT_XTP_CKPT_STATE_LOCK"@)) by {
            reveal_strlit("WAIT_XTP_CKPT_ENABLED");
            reveal_strlit("WAIT_XTP_CKPT_STATE_LOCK");
            reveal_with_fuel(name_lt_from, 16);
        }
    } else if r == 901 {
        assert(name_lt("WAIT_XTP_CKPT_STATE_LOCK"@, "WAIT_XTP_COMPILE_WAIT"@)) by {
            reveal_strlit("WAIT_XTP_CKPT_STATE_LOCK");
            reveal_strlit("WAIT_XTP_COMPILE_WAIT");
            reveal_with_fuel(name_lt_from, 12);
        }
    } else if r == 902 {
        assert(name_lt("WAIT_XTP_COMPILE_WAIT"@, "WAIT_XTP_GUEST"@)) by {
            reveal_strlit("WAIT_XTP_COMPILE_WAIT");
            reveal_strlit("WAIT_XTP_GUEST");
            reveal_with_fuel(name_lt_from, 11);
        }
    } else if r == 903 {
        assert(name_lt("WAIT_XTP_GUEST"@, "WAIT_XTP_HOST_WAIT"@)) by {
            reveal_strlit("WAIT_XTP_GUEST");
            reveal_strlit("WAIT_XTP_HOST_WAIT");
            reveal_with_fuel(name_lt_from, 11);
        }
    } else if r == 904 {
        assert(name_lt("WAIT_XTP_HOST_WAIT"@, "WAIT_XTP_OFFLINE_CKPT_BEFORE_REDO"@)) by {
            reveal_strlit("WAIT_XTP_HOST_WAIT");
            reveal_strlit("WAIT_XTP_OFFLINE_CKPT_BEFORE_REDO");
            reveal_with_fuel(name_lt_from, 11);
        }
    } else if r == 905 {
        assert(name_lt("WAIT_XTP_OFFLINE_CKPT_BEFORE_REDO"@, "WAIT_XTP_OFFLINE_CKPT_LOG_IO"@)) by {
            reveal_strlit("WAIT_XTP_OFFLINE_CKPT_BEFORE_REDO");
            reveal_strlit("WAIT_XTP_OFFLINE_CKPT_LOG_IO");
            reveal_with_fuel(name_lt_from, 24);
        }
    } else if r == 906 {
        assert(name_lt("WAIT_XTP_OFFLINE_CKPT_LOG_IO"@, "WAIT_XTP_OFFLINE_CKPT_NEW_LOG"@)) by {
            reveal_strlit("WAIT_XTP_OFFLINE_CKPT_LOG_IO");
            reveal_strlit("WAIT_XTP_OFFLINE_CKPT_NEW_LOG");
            reveal_with_fuel(name_lt_from, 24);
        }
    } else if r == 907 {
        assert(name_lt("WAIT_XTP_OFFLINE_CKPT_NEW_LOG"@, "WAIT_XTP_PROCEDURE_ENTRY"@)) by {
            reveal_strlit("WAIT_XTP_OFFLINE_CKPT_NEW_LOG");
            reveal_strlit("WAIT_XTP_PROCEDURE_ENTRY");
            reveal_with_fuel(name_lt_from, 11);
        }
    } else if r == 908 {
        assert(name_lt("WAIT_XTP_PROCEDURE_ENTRY"@, "WAIT_XTP_RECOVERY"@)) by {
            reveal_strlit("WAIT_XTP_PROCEDURE_ENTRY");
            reveal_strlit("WAIT_XTP_RECOVERY");
            reveal_with_fuel(name_lt_from, 11);
        }
    } else if r == 909 {
        assert(name_lt("WAIT_XTP_RECOVERY"@, "WAIT_XTP_SERIAL_RECOVERY"@)) by {
            reveal_strlit("WAIT_XTP_RECOVERY");
            reveal_strlit("WAIT_XTP_SERIAL_RECOVERY");
            reveal_with_fuel(name_lt_from, 11);
        }
    } else if r == 910 {
        assert(name_lt("WAIT_XTP_SERIAL_RECOVERY"@, "WAIT_XTP_SWITCH_TO_INACTIVE"@)) by {
            reveal_strlit("WAIT_XTP_SERIAL_RECOVERY");
            reveal_strlit("WAIT_XTP_SWITCH_TO_INACTIVE");
            reveal_with_fuel(name_lt_from, 12);
        }
    } else if r == 911 {
        assert(name_lt("WAIT_XTP_SWITCH_TO_INACTIVE"@, "WAIT_XTP_TASK_SHUTDOWN"@)) by {
            reveal_strlit("WAIT_XTP_SWITCH_TO_INACTIVE");
            reveal_strlit("WAIT_XTP_TASK_SHUTDOWN");
            reveal_with_fuel(name_lt_from, 11);
        }
    } else if r == 912 {
        assert(name_lt("WAIT_XTP_TASK_SHUTDOWN"@, "WAIT_XTP_TRAN_DEPENDENCY"@)) by {
            reveal_strlit("WAIT_XTP_TASK_SHUTDOWN");
            reveal_strlit("WAIT_XTP_TRAN_DEPENDENCY");
            reveal_with_fuel(name_lt_from, 12);
        }
    } else if r == 913 {
        assert(name_lt("WAIT_XTP_TRAN_DEPENDENCY"@, "WCC"@)) by {
            reveal_strlit("WAIT_XTP_TRAN_DEPENDENCY");
            reveal_strlit("WCC");
            reveal_with_fuel(name_lt_from, 3);
        }
    } else if r == 914 {
        assert(name_lt("WCC"@, "WINDOW_AGGREGATES_MULTIPASS"@)) by {
            reveal_strlit("WCC");
            reveal_strlit("WINDOW_AGGREGATES_MULTIPASS");
            reveal_with_fuel(name_lt_from, 3);
        }
    } else if r == 915 {
        assert(name_lt("WINDOW_AGGREGATES_MULTIPASS"@, "WINFAB_API_CALL"@)) by {
            reveal_strlit("WINDOW_AGGREGATES_MULTIPASS");
            reveal_strlit("WINFAB_API_CALL");
            reveal_with_fuel(name_lt_from, 5);
        }
    } else if r == 916 {
        assert(name_lt("WINFAB_API_CALL"@, "WINFAB_REPLICA_BUILD_OPERATION"@)) by {
            reveal_strlit("WINFAB_API_CALL");
            reveal_strlit("WINFAB_REPLICA_BUILD_OPERATION");
            reveal_with_fuel(name_lt_from, 9);
        }
    } else if r == 917 {
        assert(name_lt("WINFAB_REPLICA_BUILD_OPERATION"@, "WINFAB_REPORT_FAULT"@)) by {
            reveal_strlit("WINFAB_REPLICA_BUILD_OPERATION");
            reveal_strlit("WINFAB_REPORT_FAULT");
            reveal_with_fuel(name_lt_from, 12);
        }
    } else if r == 918 {
        assert(name_lt("WINFAB_REPORT_FAULT"@, "WORKTBL_DROP"@)) by {
            reveal_strlit("WINFAB_REPORT_FAULT");
            reveal_strlit("WORKTBL_DROP");
            reveal_with_fuel(name_lt_from, 3);
        }
    } else if r == 919 {
        assert(name_lt("WORKTBL_DROP"@, "WRITELOG"@)) by {
            reveal_strlit("WORKTBL_DROP");
            reveal_strlit("WRITELOG");
            reveal_with_fuel(name_lt_from, 3);
        }
    } else if r == 920 {
        assert(name_lt("WRITELOG"@, "WRITE_COMPLETION"@)) by {
            reveal_strlit("WRITELOG");
            reveal_strlit("WRITE_COMPLETION");
            reveal_with_fuel(name_lt_from, 7);
        }
    } else if r == 921 {
        assert(name_lt("WRITE_COMPLETION"@, "XACTLOCKINFO"@)) by {
            reveal_strlit("WRITE_COMPLETION");
            reveal_strlit("XACTLOCKINFO");
            reveal_with_fuel(name_lt_from, 2);
        }
    } else if r == 922 {
        assert(name_lt("XACTLOCKINFO"@, "XACTWORKSPACE_MUTEX"@)) by {
            reveal_strlit("XACTLOCKINFO");
            reveal_strlit("XACTWORKSPACE_MUTEX");
            reveal_with_fuel(name_lt_from, 6);
        }
    } else if r == 923 {
        assert(name_lt("XACTWORKSPACE_MUTEX"@, "XACT_OWN_TRANSACTION"@)) by {
            reveal_strlit("XACTWORKSPACE_MUTEX");
            reveal_strlit("XACT_OWN_TRANSACTION");
            reveal_with_fuel(name_lt_from, 6);
        }
    } else if r == 924 {
        assert(name_lt("XACT_OWN_TRANSACTION"@, "XACT_RECLAIM_SESSION"@)) by {
            reveal_strlit("XACT_OWN_TRANSACTION");
            reveal_strlit("XACT_RECLAIM_SESSION");
            reveal_with_fuel(name_lt_from, 7);
        }
    } else if r == 925 {
        assert(name_lt("XACT_RECLAIM_SESSION"@, "XDB_CONN_DUP_HASH"@)) by {
            reveal_strlit("XACT_RECLAIM_SESSION");
            reveal_strlit("XDB_CONN_DUP_HASH");
            reveal_with_fuel(name_lt_from, 3);
        }
    } else if r == 926 {
        assert(name_lt("XDB_CONN_DUP_HASH"@, "XDESTSVERMGR"@)) by {
            reveal_strlit("XDB_CONN_DUP_HASH");
            reveal_strlit("XDESTSVERMGR");
            reveal_with_fuel(name_lt_from, 4);
        }
    } else if r == 927 {
        assert(name_lt("XDESTSVERMGR"@, "XDES_HISTORY"@)) by {
            reveal_strlit("XDESTSVERMGR");
            reveal_strlit("XDES_HISTORY");
            reveal_with_fuel(name_lt_from, 6);
        }
    } else if r == 928 {
        assert(name_lt("XDES_HISTORY"@, "XDES_OUT_OF_ORDER_LIST"@)) by {
            reveal_strlit("XDES_HISTORY");
            reveal_strlit("XDES_OUT_OF_ORDER_LIST");
            reveal_with_fuel(name_lt_from, 7);
        }
    } else if r == 929 {
        assert(name_lt("XDES_OUT_OF_ORDER_LIST"@, "XDES_SNAPSHOT"@)) by {
            reveal_strlit("XDES_OUT_OF_ORDER_LIST");
            reveal_strlit("XDES_SNAPSHOT");
            reveal_with_fuel(name_lt_from, 7);
        }
    } else if r == 930 {
        assert(name_lt("XDES_SNAPSHOT"@, "XE_BUFFERMGR_ALLPROCESSED_EVENT"@)) by {
            reveal_strlit("XDES_SNAPSHOT");
            reveal_strlit("XE_BUFFERMGR_ALLPROCESSED_EVENT");
            reveal_with_fuel(name_lt_from, 3);
        }
    } else if r == 931 {
        assert(name_lt("XE_BUFFERMGR_ALLPROCESSED_EVENT"@, "XE_BUFFERMGR_FREEBUF_EVENT"@)) by {
            reveal_strlit("XE_BUFFERMGR_ALLPROCESSED_EVENT");
            reveal_strlit("XE_BUFFERMGR_FREEBUF_EVENT");
            reveal_with_fuel(name_lt_from, 15);
        }
    } else if r == 932 {
        assert(name_lt("XE_BUFFERMGR_FREEBUF_EVENT"@, "XE_CALLBACK_LIST"@)) by {
            reveal_strlit("XE_BUFFERMGR_FREEBUF_EVENT");
            reveal_strlit("XE_CALLBACK_LIST");
            reveal_with_fuel(name_lt_from, 5);
        }
    } else if r == 933 {
        assert(name_lt("XE_CALLBACK_LIST"@, "XE_CX_FILE_READ"@)) by {
            reveal_strlit("XE_CALLBACK_LIST");
            reveal_strlit("XE_CX_FILE_READ");
            reveal_with_fuel(name_lt_from, 6);
        }
    } else if r == 934 {
        assert(name_lt("XE_CX_FILE_READ"@, "XE_DISPATCHER_CONFIG_SESSION_LIST"@)) by {
            reveal_strlit("XE_CX_FILE_READ");
            reveal_strlit("XE_DISPATCHER_CONFIG_SESSION_LIST");
            reveal_with_fuel(name_lt_from, 5);
        }
    } else if r == 935 {
        assert(name_lt("XE_DISPATCHER_CONFIG_SESSION_LIST"@, "XE_DISPATCHER_JOIN"@)) by {
            reveal_strlit("XE_DISPATCHER_CONFIG_SESSION_LIST");
            reveal_strlit("XE_DISPATCHER_JOIN");
            reveal_with_fuel(name_lt_from, 16);
        }
    } else if r == 936 {
        assert(name_lt("XE_DISPATCHER_JOIN"@, "XE_DISPATCHER_WAIT"@)) by {
            reveal_strlit("XE_DISPATCHER_JOIN");
            reveal_strlit("XE_DISPATCHER_WAIT");
            reveal_with_fuel(name_lt_from, 16);
        }
    } else if r == 937 {
        assert(name_lt("XE_DISPATCHER_WAIT"@, "XE_FILE_TARGET_TVF"@)) by {
            reveal_strlit("XE_DISPATCHER_WAIT");
            reveal_strlit("XE_FILE_TARGET_TVF");
            reveal_with_fuel(name_lt_from, 5);
        }
    } else if r == 938 {
        assert(name_lt("XE_FILE_TARGET_TVF"@, "XE_LIVE_TARGET_TVF"@)) by {
            reveal_strlit("XE_FILE_TARGET_TVF");
            reveal_strlit("XE_LIVE_TARGET_TVF");
            reveal_with_fuel(name_lt_from, 5);
        }
    } else if r == 939 {
        assert(name_lt("XE_LIVE_TARGET_TVF"@, "XE_MODULEMGR_SYNC"@)) by {
            reveal_strlit("XE_LIVE_TARGET_TVF");
            reveal_strlit("XE_MODULEMGR_SYNC");
            reveal_with_fuel(name_lt_from, 5);
        }
    } else if r == 940 {
        assert(name_lt("XE_MODULEMGR_SYNC"@, "XE_OLS_LOCK"@)) by {
            reveal_strlit("XE_MODULEMGR_SYNC");
            reveal_strlit("XE_OLS_LOCK");
            reveal_with_fuel(name_lt_from, 5);
        }
    } else if r == 941 {
        assert(name_lt("XE_OLS_LOCK"@, "XE_PACKAGE_LOCK_BACKOFF"@)) by {
            reveal_strlit("XE_OLS_LOCK");
            reveal_strlit("XE_PACKAGE_LOCK_BACKOFF");
            reveal_with_fuel(name_lt_from, 5);
        }
    } else if r == 942 {
        assert(name_lt("XE_PACKAGE_LOCK_BACKOFF"@, "XE_SERVICES_EVENTMANUAL"@)) by {
            reveal_strlit("XE_PACKAGE_LOCK_BACKOFF");
            reveal_strlit("XE_SERVICES_EVENTMANUAL");
            reveal_with_fuel(name_lt_from, 5);
        }
    } else if r == 943 {
        assert(name_lt("XE_SERVICES_EVENTMANUAL"@, "XE_SERVICES_MUTEX"@)) by {
            reveal_strlit("XE_SERVICES_EVENTMANUAL");
            reveal_strlit("XE_SERVICES_MUTEX");
            reveal_with_fuel(name_lt_from, 14);
        }
    } else if r == 944 {
        assert(name_lt("XE_SERVICES_MUTEX"@, "XE_SERVICES_RWLOCK"@)) by {
            reveal_strlit("XE_SERVICES_MUTEX");
            reveal_strlit("XE_SERVICES_RWLOCK");
            reveal_with_fuel(name_lt_from, 14);
        }
    } else if r == 945 {
        assert(name_lt("XE_SERVICES_RWLOCK"@, "XE_SESSION_CREATE_SYNC"@)) by {
            reveal_strlit("XE_SERVICES_RWLOCK");
            reveal_strlit("XE_SESSION_CREATE_SYNC");
            reveal_with_fuel(name_lt_from, 7);
        }
    } else if r == 946 {
        assert(name_lt("XE_SESSION_CREATE_SYNC"@, "XE_SESSION_FLUSH"@)) by {
            reveal_strlit("XE_SESSION_CREATE_SYNC");
            reveal_strlit("XE_SESSION_FLUSH");
            reveal_with_fuel(name_lt_from, 13);
        }
    } else if r == 947 {
        assert(name_lt("XE_SESSION_FLUSH"@, "XE_SESSION_SYNC"@)) by {
            reveal_strlit("XE_SESSION_FLUSH");
            reveal_strlit("XE_SESSION_SYNC");
            reveal_with_fuel(name_lt_from, 13);
        }
    } else if r == 948 {
        assert(name_lt("XE_SESSION_SYNC"@, "XE_STM_CREATE"@)) by {
            reveal_strlit("XE_SESSION_SYNC");
            reveal_strlit("XE_STM_CREATE");
            reveal_with_fuel(name_lt_from, 6);
        }
    } else if r == 949 {
        assert(name_lt("XE_STM_CREATE"@, "XE_TIMER_EVENT"@)) by {
            reveal_strlit("XE_STM_CREATE");
            reveal_strlit("XE_TIMER_EVENT");
            reveal_with_fuel(name_lt_from, 5);
        }
    }
}

/// A wait type of part 19 has its place in that part, and the list has its
/// name at that place.
#[verifier::rlimit(60)]
proof fn lemma_rank_in_part_19(w: WaitType)
    requires
        in_part_19(w),
    ensures
        950 <= wait_type_rank(w) < 967,
        wait_type_at(wait_type_rank(w)) == w,
        name_at(wait_type_rank(w)) == wait_type_name(w),
        is_listed_wait_type(wait_type_name(w)),
{
    reveal(rank_in_part_19);
    reveal(ranked_in_part_19);
    reveal(name_in_part_19);
    reveal(listed_name_19);
    lemma_name_in_part_19(w);
}

/// The names at places 950 to 965 of the list are each followed by a greater one.
proof fn lemma_sorted_in_part_19(r: int)
    requires
        950 <= r < 966,
    ensures
        name_lt(name_at(r), name_at(r + 1)),
{
    reveal(name_in_part_19);
    if r == 950 {
        assert(name_lt("XE_TIMER_EVENT"@, "XE_TIMER_MUTEX"@)) by {
            reveal_strlit("XE_TIMER_EVENT");
            reveal_strlit("XE_TIMER_MUTEX");
            reveal_with_fuel(name_lt_from, 11);
        }
    } else if r == 951 {
        assert(name_lt("XE_TIMER_MUTEX"@, "XE_TIMER_TASK_DONE"@)) by {
            reveal_strlit("XE_TIMER_MUTEX");
            reveal_strlit("XE_TIMER_TASK_DONE");
            reveal_with_fuel(name_lt_from, 11);
        }
    } else if r == 952 {
        assert(name_lt("XE_TIMER_TASK_DONE"@, "XIO_CREDENTIAL_MGR_RWLOCK"@)) by {
            reveal_strlit("XE_TIMER_TASK_DONE");
            reveal_strlit("XIO_CREDENTIAL_MGR_RWLOCK");
            reveal_with_fuel(name_lt_from, 3);
        }
    } else if r == 953 {
        assert(name_lt("XIO_CREDENTIAL_MGR_RWLOCK"@, "XIO_CREDENTIAL_RWLOCK"@)) by {
            reveal_strlit("XIO_CREDENTIAL_MGR_RWLOCK");
            reveal_strlit("XIO_CREDENTIAL_RWLOCK");
            reveal_with_fuel(name_lt_from, 17);
        }
    } else if r == 954 {
        assert(name_lt("XIO_CREDENTIAL_RWLOCK"@, "XIO_EDS_MGR_RWLOCK"@)) by {
            reveal_strlit("XIO_CREDENTIAL_RWLOCK");
            reveal_strlit("XIO_EDS_MGR_RWLOCK");
            reveal_with_fuel(name_lt_from, 6);
        }
    } else if r == 955 {
        assert(name_lt("XIO_EDS_MGR_RWLOCK"@, "XIO_EDS_RWLOCK"@)) by {
            reveal_strlit("XIO_EDS_MGR_RWLOCK");
            reveal_strlit("XIO_EDS_RWLOCK");
            reveal_with_fuel(name_lt_from, 10);
        }
    } else if r == 956 {
        assert(name_lt("XIO_EDS_RWLOCK"@, "XIO_IOSTATS_BLOBLIST_RWLOCK"@)) by {
            reveal_strlit("XIO_EDS_RWLOCK");
            reveal_strlit("XIO_IOSTATS_BLOBLIST_RWLOCK");
            reveal_with_fuel(name_lt_from, 6);
        }
    } else if r == 957 {
        assert(name_lt("XIO_IOSTATS_BLOBLIST_RWLOCK"@, "XIO_IOSTATS_FCBLIST_RWLOCK"@)) by {
            reveal_strlit("XIO_IOSTATS_BLOBLIST_RWLOCK");
            reveal_strlit("XIO_IOSTATS_FCBLIST_RWLOCK");
            reveal_with_fuel(name_lt_from, 14);
        }
    } else if r == 958 {
        assert(name_lt("XIO_IOSTATS_FCBLIST_RWLOCK"@, "XIO_LEASE_RENEW_MGR_RWLOCK"@)) by {
            reveal_strlit("XIO_IOSTATS_FCBLIST_RWLOCK");
            reveal_strlit("XIO_LEASE_RENEW_MGR_RWLOCK");
            reveal_with_fuel(name_lt_from, 6);
        }
    } else if r == 959 {
        assert(name_lt("XIO_LEASE_RENEW_MGR_RWLOCK"@, "XTPPROC_CACHE_ACCESS"@)) by {
            reveal_strlit("XIO_LEASE_RENEW_MGR_RWLOCK");
            reveal_strlit("XTPPROC_CACHE_ACCESS");
            reveal_with_fuel(name_lt_from, 3);
        }
    } else if r == 960 {
        assert(name_lt("XTPPROC_CACHE_ACCESS"@, "XTPPROC_PARTITIONED_STACK_CREATE"@)) by {
            reveal_strlit("XTPPROC_CACHE_ACCESS");
            reveal_strlit("XTPPROC_PARTITIONED_STACK_CREATE");
            reveal_with_fuel(name_lt_from, 10);
        }
    } else if r == 961 {
        assert(name_lt("XTPPROC_PARTITIONED_STACK_CREATE"@, "XTP_HOST_DB_COLLECTION"@)) by {
            reveal_strlit("XTPPROC_PARTITIONED_STACK_CREATE");
            reveal_strlit("XTP_HOST_DB_COLLECTION");
            reveal_with_fuel(name_lt_from, 5);
        }
    } else if r == 962 {
        assert(name_lt("XTP_HOST_DB_COLLECTION"@, "XTP_HOST_LOG_ACTIVITY"@)) by {
            reveal_strlit("XTP_HOST_DB_COLLECTION");
            reveal_strlit("XTP_HOST_LOG_ACTIVITY");
            reveal_with_fuel(name_lt_from, 11);
        }
    } else if r == 963 {
        assert(name_lt("XTP_HOST_LOG_ACTIVITY"@, "XTP_HOST_PARALLEL_RECOVERY"@)) by {
            reveal_strlit("XTP_HOST_LOG_ACTIVITY");
            reveal_strlit("XTP_HOST_PARALLEL_RECOVERY");
            reveal_with_fuel(name_lt_from, 11);
        }
    } else if r == 964 {
        assert(name_lt("XTP_HOST_PARALLEL_RECOVERY"@, "XTP_PREEMPTIVE_TASK"@)) by {
            reveal_strlit("XTP_HOST_PARALLEL_RECOVERY");
            reveal_strlit("XTP_PREEMPTIVE_TASK");
            reveal_with_fuel(name_lt_from, 6);
        }
    } else if r == 965 {
        assert(name_lt("XTP_PREEMPTIVE_TASK"@, "XTP_TRUNCATION_LSN"@)) by {
            reveal_strlit("XTP_PREEMPTIVE_TASK");
            reveal_strlit("XTP_TRUNCATION_LSN");
            reveal_with_fuel(name_lt_from, 6);
        }
    }
}

/// A wait type in the list has its place there, and the list has its name at
/// that place.
proof fn lemma_rank(w: WaitType)
    requires
        w !is Unknown,
    ensures
        0 <= wait_type_rank(w) < 967,
        wait_type_at(wait_type_rank(w)) == w,
        name_at(wait_type_rank(w)) == wait_type_name(w),
        is_listed_wait_type(wait_type_name(w)),
{
    if in_part_0(w) {
        lemma_rank_in_part_0(w);
    } else if in_part_1(w) {
        lemma_rank_in_part_1(w);
    } else if in_part_2(w) {
        lemma_rank_in_part_2(w);
    } else if in_part_3(w) {
        lemma_rank_in_part_3(w);
    } else if in_part_4(w) {
        lemma_rank_in_part_4(w);
    } else if in_part_5(w) {
        lemma_rank_in_part_5(w);
    } else if in_part_6(w) {
        lemma_rank_in_part_6(w);
    } else if in_part_7(w) {
        lemma_rank_in_part_7(w);
    } else if in_part_8(w) {
        lemma_rank_in_part_8(w);
    } else if in_part_9(w) {
        lemma_rank_in_part_9(w);
    } else if in_part_10(w) {
        lemma_rank_in_part_10(w);
    } else if in_part_11(w) {
        lemma_rank_in_part_11(w);
    } else if in_part_12(w) {
        lemma_rank_in_part_12(w);
    } else if in_part_13(w) {
        lemma_rank_in_part_13(w);
    } else if in_part_14(w) {
        lemma_rank_in_part_14(w);
    } else if in_part_15(w) {
        lemma_rank_in_part_15(w);
    } else if in_part_16(w) {
        lemma_rank_in_part_16(w);
    } else if in_part_17(w) {
        lemma_rank_in_part_17(w);
    } else if in_part_18(w) {
        lemma_rank_in_part_18(w);
    } else if in_part_19(w) {
        lemma_rank_in_part_19(w);
    }
}

/// Each name of the list is followed by a greater one.
proof fn lemma_sorted(r: int)
    requires
        0 <= r < 966,
    ensures
        name_lt(name_at(r), name_at(r + 1)),
{
    if r < 50 {
        lemma_sorted_in_part_0(r);
    } else if r < 100 {
        lemma_sorted_in_part_1(r);
    } else if r < 150 {
        lemma_sorted_in_part_2(r);
    } else if r < 200 {
        lemma_sorted_in_part_3(r);
    } else if r < 250 {
        lemma_sorted_in_part_4(r);
    } else if r < 300 {
        lemma_sorted_in_part_5(r);
    } else if r < 350 {
        lemma_sorted_in_part_6(r);
    } else if r < 400 {
        lemma_sorted_in_part_7(r);
    } else if r < 450 {
        lemma_sorted_in_part_8(r);
    } else if r < 500 {
        lemma_sorted_in_part_9(r);
    } else if r < 550 {
        lemma_sorted_in_part_10(r);
    } else if r < 600 {
        lemma_sorted_in_part_11(r);
    } else if r < 650 {
        lemma_sorted_in_part_12(r);
    } else if r < 700 {
        lemma_sorted_in_part_13(r);
    } else if r < 750 {
        lemma_sorted_in_part_14(r);
    } else if r < 800 {
        lemma_sorted_in_part_15(r);
    } else if r < 850 {
        lemma_sorted_in_part_16(r);
    } else if r < 900 {
        lemma_sorted_in_part_17(r);
    } else if r < 950 {
        lemma_sorted_in_part_18(r);
    } else {
        lemma_sorted_in_part_19(r);
    }
}

/// The list of wait types is sorted by name: a name at an earlier place
/// comes strictly before a name at a later one.
pub proof fn lemma_names_sorted(i: int, j: int)
    requires
        0 <= i < j < 967,
    ensures
        name_lt(name_at(i), name_at(j)),
    decreases j - i,
{
    lemma_sorted(j - 1);
    if i < j - 1 {
        lemma_names_sorted(i, j - 1);
        lemma_name_lt_transitive(name_at(i), name_at(j - 1), name_at(j), 0);
    }
}

/// No two wait types in the list share a name.
pub proof fn lemma_listed_names_distinct(v: WaitType, w: WaitType)
    requires
        v !is Unknown,
        w !is Unknown,
        v@ == w@,
    ensures
        v == w,
{
    lemma_rank(v);
    lemma_rank(w);
    let rv = wait_type_rank(v);
    let rw = wait_type_rank(w);
    if rv < rw {
        lemma_names_sorted(rv, rw);
        lemma_name_lt_irreflexive(name_at(rv), 0);
    } else if rw < rv {
        lemma_names_sorted(rw, rv);
        lemma_name_lt_irreflexive(name_at(rw), 0);
    }
}

/// Reading the name of a wait type in the list gives that wait type back:
/// any `r` that `WaitType::parse` may return for `w.as_str()` (its name, by
/// the `ensures` of `as_str`) is `w` itself.
pub proof fn lemma_parse_as_str(w: WaitType, r: WaitType)
    requires
        w !is Unknown,
        r@ == w@,
        r is Unknown <==> !is_listed_wait_type(w@),
    ensures
        r == w,
{
    lemma_rank(w);
    lemma_listed_names_distinct(r, w);
}

} // verus!
