//! Reading a SQL Server wait type from its name.
use crate::parser::tokenizer::to_string;
use crate::parser::wait_type::WaitType;
use crate::parser::wait_type::is_listed_wait_type;
use crate::parser::wait_type::in_part_0;
use crate::parser::wait_type::in_part_1;
use crate::parser::wait_type::in_part_2;
use crate::parser::wait_type::in_part_3;
use crate::parser::wait_type::in_part_4;
use crate::parser::wait_type::in_part_5;
use crate::parser::wait_type::in_part_6;
use crate::parser::wait_type::in_part_7;
use crate::parser::wait_type::in_part_8;
use crate::parser::wait_type::in_part_9;
use crate::parser::wait_type::in_part_10;
use crate::parser::wait_type::in_part_11;
use crate::parser::wait_type::in_part_12;
use crate::parser::wait_type::in_part_13;
use crate::parser::wait_type::in_part_14;
use crate::parser::wait_type::in_part_15;
use crate::parser::wait_type::in_part_16;
use crate::parser::wait_type::in_part_17;
use crate::parser::wait_type::in_part_18;
use crate::parser::wait_type::in_part_19;
use crate::parser::wait_type::listed_name_0;
use crate::parser::wait_type::listed_name_1;
use crate::parser::wait_type::listed_name_2;
use crate::parser::wait_type::listed_name_3;
use crate::parser::wait_type::listed_name_4;
use crate::parser::wait_type::listed_name_5;
use crate::parser::wait_type::listed_name_6;
use crate::parser::wait_type::listed_name_7;
use crate::parser::wait_type::listed_name_8;
use crate::parser::wait_type::listed_name_9;
use crate::parser::wait_type::listed_name_10;
use crate::parser::wait_type::listed_name_11;
use crate::parser::wait_type::listed_name_12;
use crate::parser::wait_type::listed_name_13;
use crate::parser::wait_type::listed_name_14;
use crate::parser::wait_type::listed_name_15;
use crate::parser::wait_type::listed_name_16;
use crate::parser::wait_type::listed_name_17;
use crate::parser::wait_type::listed_name_18;
use crate::parser::wait_type::listed_name_19;
use crate::parser::wait_type::listed_names_0;
use crate::parser::wait_type::listed_names_1;
use crate::parser::wait_type::listed_names_2;
use crate::parser::wait_type::listed_names_3;
use crate::parser::wait_type::listed_names_4;
use crate::parser::wait_type::listed_names_5;
use crate::parser::wait_type::listed_names_6;
use crate::parser::wait_type::listed_names_7;
use crate::parser::wait_type::listed_names_8;
use crate::parser::wait_type::listed_names_9;
use crate::parser::wait_type::listed_names_10;
use crate::parser::wait_type::listed_names_11;
use crate::parser::wait_type::listed_names_12;
use crate::parser::wait_type::listed_names_13;
use crate::parser::wait_type::listed_names_14;
use crate::parser::wait_type::listed_names_15;
use crate::parser::wait_type::listed_names_16;
use crate::parser::wait_type::listed_names_17;
use crate::parser::wait_type::listed_names_18;
use crate::parser::wait_type::listed_names_19;
use crate::parser::wait_type::lemma_name_in_part_0;
use crate::parser::wait_type::lemma_name_in_part_1;
use crate::parser::wait_type::lemma_name_in_part_2;
use crate::parser::wait_type::lemma_name_in_part_3;
use crate::parser::wait_type::lemma_name_in_part_4;
use crate::parser::wait_type::lemma_name_in_part_5;
use crate::parser::wait_type::lemma_name_in_part_6;
use crate::parser::wait_type::lemma_name_in_part_7;
use crate::parser::wait_type::lemma_name_in_part_8;
use crate::parser::wait_type::lemma_name_in_part_9;
use crate::parser::wait_type::lemma_name_in_part_10;
use crate::parser::wait_type::lemma_name_in_part_11;
use crate::parser::wait_type::lemma_name_in_part_12;
use crate::parser::wait_type::lemma_name_in_part_13;
use crate::parser::wait_type::lemma_name_in_part_14;
use crate::parser::wait_type::lemma_name_in_part_15;
use crate::parser::wait_type::lemma_name_in_part_16;
use crate::parser::wait_type::lemma_name_in_part_17;
use crate::parser::wait_type::lemma_name_in_part_18;
use crate::parser::wait_type::lemma_name_in_part_19;
use crate::parser::wait_type_lookup::{parse_listed_10, parse_listed_11, parse_listed_12, parse_listed_13, parse_listed_14, parse_listed_15, parse_listed_16, parse_listed_17, parse_listed_18, parse_listed_19};
use crate::text::str_eq;
use vstd::prelude::*;

verus! {

#[verifier::rlimit(40)]
fn parse_listed_0(s: &str) -> (r: Option<WaitType>)
    ensures
        r is Some <==> listed_names_0(s@),
        r matches Some(w) ==> in_part_0(w) && listed_name_0(w) == s@,
{
    proof {
        reveal(listed_name_0);
    }
    if str_eq(s, "ABR") {
        return Some(WaitType::ABR);
    } else if str_eq(s, "AM_INDBUILD_ALLOCATION") {
        return Some(WaitType::AM_INDBUILD_ALLOCATION);
    } else if str_eq(s, "AM_SCHEMAMGR_UNSHARED_CACHE") {
        return Some(WaitType::AM_SCHEMAMGR_UNSHARED_CACHE);
    } else if str_eq(s, "ASSEMBLY_FILTER_HASHTABLE") {
        return Some(WaitType::ASSEMBLY_FILTER_HASHTABLE);
    } else if str_eq(s, "ASSEMBLY_LOAD") {
        return Some(WaitType::ASSEMBLY_LOAD);
    } else if str_eq(s, "ASYNC_DISKPOOL_LOCK") {
        return Some(WaitType::ASYNC_DISKPOOL_LOCK);
    } else if str_eq(s, "ASYNC_IO_COMPLETION") {
        return Some(WaitType::ASYNC_IO_COMPLETION);
    } else if str_eq(s, "ASYNC_NETWORK_IO") {
        return Some(WaitType::ASYNC_NETWORK_IO);
    } else if str_eq(s, "ASYNC_OP_COMPLETION") {
        return Some(WaitType::ASYNC_OP_COMPLETION);
    } else if str_eq(s, "ASYNC_OP_CONTEXT_READ") {
        return Some(WaitType::ASYNC_OP_CONTEXT_READ);
    } else if str_eq(s, "ASYNC_OP_CONTEXT_WRITE") {
        return Some(WaitType::ASYNC_OP_CONTEXT_WRITE);
    } else if str_eq(s, "ASYNC_SOCKETDUP_IO") {
        return Some(WaitType::ASYNC_SOCKETDUP_IO);
    } else if str_eq(s, "AUDIT_GROUPCACHE_LOCK") {
        return Some(WaitType::AUDIT_GROUPCACHE_LOCK);
    } else if str_eq(s, "AUDIT_LOGINCACHE_LOCK") {
        return Some(WaitType::AUDIT_LOGINCACHE_LOCK);
    } else if str_eq(s, "AUDIT_ON_DEMAND_TARGET_LOCK") {
        return Some(WaitType::AUDIT_ON_DEMAND_TARGET_LOCK);
    } else if str_eq(s, "AUDIT_XE_SESSION_MGR") {
        return Some(WaitType::AUDIT_XE_SESSION_MGR);
    } else if str_eq(s, "BACKUP") {
        return Some(WaitType::BACKUP);
    } else if str_eq(s, "BACKUPBUFFER") {
        return Some(WaitType::BACKUPBUFFER);
    } else if str_eq(s, "BACKUPIO") {
        return Some(WaitType::BACKUPIO);
    } else if str_eq(s, "BACKUPTHREAD") {
        return Some(WaitType::BACKUPTHREAD);
    } else if str_eq(s, "BACKUP_OPERATOR") {
        return Some(WaitType::BACKUP_OPERATOR);
    } else if str_eq(s, "BAD_PAGE_PROCESS") {
        return Some(WaitType::BAD_PAGE_PROCESS);
    } else if str_eq(s, "BLOB_METADATA") {
        return Some(WaitType::BLOB_METADATA);
    } else if str_eq(s, "BMPALLOCATION") {
        return Some(WaitType::BMPALLOCATION);
    } else if str_eq(s, "BMPBUILD") {
        return Some(WaitType::BMPBUILD);
    } else if str_eq(s, "BMPREPARTITION") {
        return Some(WaitType::BMPREPARTITION);
    } else if str_eq(s, "BMPREPLICATION") {
        return Some(WaitType::BMPREPLICATION);
    } else if str_eq(s, "BPSORT") {
        return Some(WaitType::BPSORT);
    } else if str_eq(s, "BROKER_CONNECTION_RECEIVE_TASK") {
        return Some(WaitType::BROKER_CONNECTION_RECEIVE_TASK);
    } else if str_eq(s, "BROKER_DISPATCHER") {
        return Some(WaitType::BROKER_DISPATCHER);
    } else if str_eq(s, "BROKER_ENDPOINT_STATE_MUTEX") {
        return Some(WaitType::BROKER_ENDPOINT_STATE_MUTEX);
    } else if str_eq(s, "BROKER_EVENTHANDLER") {
        return Some(WaitType::BROKER_EVENTHANDLER);
    } else if str_eq(s, "BROKER_FORWARDER") {
        return Some(WaitType::BROKER_FORWARDER);
    } else if str_eq(s, "BROKER_INIT") {
        return Some(WaitType::BROKER_INIT);
    } else if str_eq(s, "BROKER_MASTERSTART") {
        return Some(WaitType::BROKER_MASTERSTART);
    } else if str_eq(s, "BROKER_RECEIVE_WAITFOR") {
        return Some(WaitType::BROKER_RECEIVE_WAITFOR);
    } else if str_eq(s, "BROKER_REGISTERALLENDPOINTS") {
        return Some(WaitType::BROKER_REGISTERALLENDPOINTS);
    } else if str_eq(s, "BROKER_SERVICE") {
        return Some(WaitType::BROKER_SERVICE);
    } else if str_eq(s, "BROKER_SHUTDOWN") {
        return Some(WaitType::BROKER_SHUTDOWN);
    } else if str_eq(s, "BROKER_START") {
        return Some(WaitType::BROKER_START);
    } else if str_eq(s, "BROKER_TASK_SHUTDOWN") {
        return Some(WaitType::BROKER_TASK_SHUTDOWN);
    } else if str_eq(s, "BROKER_TASK_STOP") {
        return Some(WaitType::BROKER_TASK_STOP);
    } else if str_eq(s, "BROKER_TASK_SUBMIT") {
        return Some(WaitType::BROKER_TASK_SUBMIT);
    } else if str_eq(s, "BROKER_TO_FLUSH") {
        return Some(WaitType::BROKER_TO_FLUSH);
    } else if str_eq(s, "BROKER_TRANSMISSION_OBJECT") {
        return Some(WaitType::BROKER_TRANSMISSION_OBJECT);
    } else if str_eq(s, "BROKER_TRANSMISSION_TABLE") {
        return Some(WaitType::BROKER_TRANSMISSION_TABLE);
    } else if str_eq(s, "BROKER_TRANSMISSION_WORK") {
        return Some(WaitType::BROKER_TRANSMISSION_WORK);
    } else if str_eq(s, "BROKER_TRANSMITTER") {
        return Some(WaitType::BROKER_TRANSMITTER);
    } else if str_eq(s, "BUFFERPOOL_SCAN") {
        return Some(WaitType::BUFFERPOOL_SCAN);
    } else if str_eq(s, "BUILTIN_HASHKEY_MUTEX") {
        return Some(WaitType::BUILTIN_HASHKEY_MUTEX);
    }
    None
}

#[verifier::rlimit(40)]
fn parse_listed_1(s: &str) -> (r: Option<WaitType>)
    ensures
        r is Some <==> listed_names_1(s@),
        r matches Some(w) ==> in_part_1(w) && listed_name_1(w) == s@,
{
    proof {
        reveal(listed_name_1);
    }
    if str_eq(s, "CHANGE_TRACKING_WAITFORCHANGES") {
        return Some(WaitType::CHANGE_TRACKING_WAITFORCHANGES);
    } else if str_eq(s, "CHECKPOINT_QUEUE") {
        return Some(WaitType::CHECKPOINT_QUEUE);
    } else if str_eq(s, "CHECK_PRINT_RECORD") {
        return Some(WaitType::CHECK_PRINT_RECORD);
    } else if str_eq(s, "CHECK_SCANNER_MUTEX") {
        return Some(WaitType::CHECK_SCANNER_MUTEX);
    } else if str_eq(s, "CHECK_TABLES_INITIALIZATION") {
        return Some(WaitType::CHECK_TABLES_INITIALIZATION);
    } else if str_eq(s, "CHECK_TABLES_SINGLE_SCAN") {
        return Some(WaitType::CHECK_TABLES_SINGLE_SCAN);
    } else if str_eq(s, "CHECK_TABLES_THREAD_BARRIER") {
        return Some(WaitType::CHECK_TABLES_THREAD_BARRIER);
    } else if str_eq(s, "CHKPT") {
        return Some(WaitType::CHKPT);
    } else if str_eq(s, "CLEAR_DB") {
        return Some(WaitType::CLEAR_DB);
    } else if str_eq(s, "CLRHOST_STATE_ACCESS") {
        return Some(WaitType::CLRHOST_STATE_ACCESS);
    } else if str_eq(s, "CLR_AUTO_EVENT") {
        return Some(WaitType::CLR_AUTO_EVENT);
    } else if str_eq(s, "CLR_CRST") {
        return Some(WaitType::CLR_CRST);
    } else if str_eq(s, "CLR_JOIN") {
        return Some(WaitType::CLR_JOIN);
    } else if str_eq(s, "CLR_MANUAL_EVENT") {
        return Some(WaitType::CLR_MANUAL_EVENT);
    } else if str_eq(s, "CLR_MEMORY_SPY") {
        return Some(WaitType::CLR_MEMORY_SPY);
    } else if str_eq(s, "CLR_MONITOR") {
        return Some(WaitType::CLR_MONITOR);
    } else if str_eq(s, "CLR_RWLOCK_READER") {
        return Some(WaitType::CLR_RWLOCK_READER);
    } else if str_eq(s, "CLR_RWLOCK_WRITER") {
        return Some(WaitType::CLR_RWLOCK_WRITER);
    } else if str_eq(s, "CLR_SEMAPHORE") {
        return Some(WaitType::CLR_SEMAPHORE);
    } else if str_eq(s, "CLR_TASK_START") {
        return Some(WaitType::CLR_TASK_START);
    } else if str_eq(s, "CMEMPARTITIONED") {
        return Some(WaitType::CMEMPARTITIONED);
    } else if str_eq(s, "CMEMTHREAD") {
        return Some(WaitType::CMEMTHREAD);
    } else if str_eq(s, "COLUMNSTORE_BUILD_THROTTLE") {
        return Some(WaitType::COLUMNSTORE_BUILD_THROTTLE);
    } else if str_eq(s, "COLUMNSTORE_COLUMNDATASET_SESSION_LIST") {
        return Some(WaitType::COLUMNSTORE_COLUMNDATASET_SESSION_LIST);
    } else if str_eq(s, "COMMIT_TABLE") {
        return Some(WaitType::COMMIT_TABLE);
    } else if str_eq(s, "CONNECTION_ENDPOINT_LOCK") {
        return Some(WaitType::CONNECTION_ENDPOINT_LOCK);
    } else if str_eq(s, "COUNTRECOVERYMGR") {
        return Some(WaitType::COUNTRECOVERYMGR);
    } else if str_eq(s, "CREATE_DATINISERVICE") {
        return Some(WaitType::CREATE_DATINISERVICE);
    } else if str_eq(s, "CXCONSUMER") {
        return Some(WaitType::CXCONSUMER);
    } else if str_eq(s, "CXPACKET") {
        return Some(WaitType::CXPACKET);
    } else if str_eq(s, "CXROWSET_SYNC") {
        return Some(WaitType::CXROWSET_SYNC);
    } else if str_eq(s, "CXSYNC_CONSUMER") {
        return Some(WaitType::CXSYNC_CONSUMER);
    } else if str_eq(s, "CXSYNC_PORT") {
        return Some(WaitType::CXSYNC_PORT);
    } else if str_eq(s, "DAC_INIT") {
        return Some(WaitType::DAC_INIT);
    } else if str_eq(s, "DBCC_SCALE_OUT_EXPR_CACHE") {
        return Some(WaitType::DBCC_SCALE_OUT_EXPR_CACHE);
    } else if str_eq(s, "DBMIRRORING_CMD") {
        return Some(WaitType::DBMIRRORING_CMD);
    } else if str_eq(s, "DBMIRROR_DBM_EVENT") {
        return Some(WaitType::DBMIRROR_DBM_EVENT);
    } else if str_eq(s, "DBMIRROR_DBM_MUTEX") {
        return Some(WaitType::DBMIRROR_DBM_MUTEX);
    } else if str_eq(s, "DBMIRROR_EVENTS_QUEUE") {
        return Some(WaitType::DBMIRROR_EVENTS_QUEUE);
    } else if str_eq(s, "DBMIRROR_SEND") {
        return Some(WaitType::DBMIRROR_SEND);
    } else if str_eq(s, "DBMIRROR_WORKER_QUEUE") {
        return Some(WaitType::DBMIRROR_WORKER_QUEUE);
    } else if str_eq(s, "DBSEEDING_FLOWCONTROL") {
        return Some(WaitType::DBSEEDING_FLOWCONTROL);
    } else if str_eq(s, "DBSEEDING_OPERATION") {
        return Some(WaitType::DBSEEDING_OPERATION);
    } else if str_eq(s, "DEADLOCK_ENUM_MUTEX") {
        return Some(WaitType::DEADLOCK_ENUM_MUTEX);
    } else if str_eq(s, "DEADLOCK_TASK_SEARCH") {
        return Some(WaitType::DEADLOCK_TASK_SEARCH);
    } else if str_eq(s, "DEBUG") {
        return Some(WaitType::DEBUG);
    } else if str_eq(s, "DIRECTLOGCONSUMER_LIST") {
        return Some(WaitType::DIRECTLOGCONSUMER_LIST);
    } else if str_eq(s, "DIRTY_PAGE_POLL") {
        return Some(WaitType::DIRTY_PAGE_POLL);
    } else if str_eq(s, "DIRTY_PAGE_SYNC") {
        return Some(WaitType::DIRTY_PAGE_SYNC);
    } else if str_eq(s, "DIRTY_PAGE_TABLE_LOCK") {
        return Some(WaitType::DIRTY_PAGE_TABLE_LOCK);
    }
    None
}

#[verifier::rlimit(40)]
fn parse_listed_2(s: &str) -> (r: Option<WaitType>)
    ensures
        r is Some <==> listed_names_2(s@),
        r matches Some(w) ==> in_part_2(w) && listed_name_2(w) == s@,
{
    proof {
        reveal(listed_name_2);
    }
    if str_eq(s, "DISABLE_VERSIONING") {
        return Some(WaitType::DISABLE_VERSIONING);
    } else if str_eq(s, "DISKIO_SUSPEND") {
        return Some(WaitType::DISKIO_SUSPEND);
    } else if str_eq(s, "DISPATCHER_PRIORITY_QUEUE_SEMAPHORE") {
        return Some(WaitType::DISPATCHER_PRIORITY_QUEUE_SEMAPHORE);
    } else if str_eq(s, "DISPATCHER_QUEUE_SEMAPHORE") {
        return Some(WaitType::DISPATCHER_QUEUE_SEMAPHORE);
    } else if str_eq(s, "DLL_LOADING_MUTEX") {
        return Some(WaitType::DLL_LOADING_MUTEX);
    } else if str_eq(s, "DPT_ENTRY_LOCK") {
        return Some(WaitType::DPT_ENTRY_LOCK);
    } else if str_eq(s, "DROPTEMP") {
        return Some(WaitType::DROPTEMP);
    } else if str_eq(s, "DROP_DATABASE_TIMER_TASK") {
        return Some(WaitType::DROP_DATABASE_TIMER_TASK);
    } else if str_eq(s, "DTC") {
        return Some(WaitType::DTC);
    } else if str_eq(s, "DTCNEW_ENLIST") {
        return Some(WaitType::DTCNEW_ENLIST);
    } else if str_eq(s, "DTCNEW_PREPARE") {
        return Some(WaitType::DTCNEW_PREPARE);
    } else if str_eq(s, "DTCNEW_RECOVERY") {
        return Some(WaitType::DTCNEW_RECOVERY);
    } else if str_eq(s, "DTCNEW_TM") {
        return Some(WaitType::DTCNEW_TM);
    } else if str_eq(s, "DTCNEW_TRANSACTION_ENLISTMENT") {
        return Some(WaitType::DTCNEW_TRANSACTION_ENLISTMENT);
    } else if str_eq(s, "DTCPNTSYNC") {
        return Some(WaitType::DTCPNTSYNC);
    } else if str_eq(s, "DTC_ABORT_REQUEST") {
        return Some(WaitType::DTC_ABORT_REQUEST);
    } else if str_eq(s, "DTC_RESOLVE") {
        return Some(WaitType::DTC_RESOLVE);
    } else if str_eq(s, "DTC_STATE") {
        return Some(WaitType::DTC_STATE);
    } else if str_eq(s, "DTC_TMDOWN_REQUEST") {
        return Some(WaitType::DTC_TMDOWN_REQUEST);
    } else if str_eq(s, "DTC_WAITFOR_OUTCOME") {
        return Some(WaitType::DTC_WAITFOR_OUTCOME);
    } else if str_eq(s, "DUMPTRIGGER") {
        return Some(WaitType::DUMPTRIGGER);
    } else if str_eq(s, "DUMP_LOG_COORDINATOR") {
        return Some(WaitType::DUMP_LOG_COORDINATOR);
    } else if str_eq(s, "DUMP_LOG_COORDINATOR_QUEUE") {
        return Some(WaitType::DUMP_LOG_COORDINATOR_QUEUE);
    } else if str_eq(s, "EC") {
        return Some(WaitType::EC);
    } else if str_eq(s, "EE_PMOLOCK") {
        return Some(WaitType::EE_PMOLOCK);
    } else if str_eq(s, "EE_SPECPROC_MAP_INIT") {
        return Some(WaitType::EE_SPECPROC_MAP_INIT);
    } else if str_eq(s, "ENABLE_EMPTY_VERSIONING") {
        return Some(WaitType::ENABLE_EMPTY_VERSIONING);
    } else if str_eq(s, "ENABLE_VERSIONING") {
        return Some(WaitType::ENABLE_VERSIONING);
    } else if str_eq(s, "ERROR_REPORTING_MANAGER") {
        return Some(WaitType::ERROR_REPORTING_MANAGER);
    } else if str_eq(s, "EXCHANGE") {
        return Some(WaitType::EXCHANGE);
    } else if str_eq(s, "EXECSYNC") {
        return Some(WaitType::EXECSYNC);
    } else if str_eq(s, "EXECUTION_PIPE_EVENT_INTERNAL") {
        return Some(WaitType::EXECUTION_PIPE_EVENT_INTERNAL);
    } else if str_eq(s, "EXTERNAL_RG_UPDATE") {
        return Some(WaitType::EXTERNAL_RG_UPDATE);
    } else if str_eq(s, "EXTERNAL_SCRIPT_NETWORK_IO") {
        return Some(WaitType::EXTERNAL_SCRIPT_NETWORK_IO);
    } else if str_eq(s, "EXTERNAL_SCRIPT_PREPARE_SERVICE") {
        return Some(WaitType::EXTERNAL_SCRIPT_PREPARE_SERVICE);
    } else if str_eq(s, "EXTERNAL_SCRIPT_SHUTDOWN") {
        return Some(WaitType::EXTERNAL_SCRIPT_SHUTDOWN);
    } else if str_eq(s, "EXTERNAL_WAIT_ON_LAUNCHER") {
        return Some(WaitType::EXTERNAL_WAIT_ON_LAUNCHER);
    } else if str_eq(s, "FABRIC_HADR_TRANSPORT_CONNECTION") {
        return Some(WaitType::FABRIC_HADR_TRANSPORT_CONNECTION);
    } else if str_eq(s, "FABRIC_REPLICA_CONTROLLER_LIST") {
        return Some(WaitType::FABRIC_REPLICA_CONTROLLER_LIST);
    } else if str_eq(s, "FABRIC_REPLICA_CONTROLLER_STATE_AND_CONFIG") {
        return Some(WaitType::FABRIC_REPLICA_CONTROLLER_STATE_AND_CONFIG);
    } else if str_eq(s, "FABRIC_REPLICA_PUBLISHER_EVENT_PUBLISH") {
        return Some(WaitType::FABRIC_REPLICA_PUBLISHER_EVENT_PUBLISH);
    } else if str_eq(s, "FABRIC_REPLICA_PUBLISHER_SUBSCRIBER_LIST") {
        return Some(WaitType::FABRIC_REPLICA_PUBLISHER_SUBSCRIBER_LIST);
    } else if str_eq(s, "FABRIC_WAIT_FOR_BUILD_REPLICA_EVENT_PROCESSING") {
        return Some(WaitType::FABRIC_WAIT_FOR_BUILD_REPLICA_EVENT_PROCESSING);
    } else if str_eq(s, "FAILPOINT") {
        return Some(WaitType::FAILPOINT);
    } else if str_eq(s, "FCB_REPLICA_READ") {
        return Some(WaitType::FCB_REPLICA_READ);
    } else if str_eq(s, "FCB_REPLICA_WRITE") {
        return Some(WaitType::FCB_REPLICA_WRITE);
    } else if str_eq(s, "FEATURE_SWITCHES_UPDATE") {
        return Some(WaitType::FEATURE_SWITCHES_UPDATE);
    } else if str_eq(s, "FFT_NSO_DB_KILL_FLAG") {
        return Some(WaitType::FFT_NSO_DB_KILL_FLAG);
    } else if str_eq(s, "FFT_NSO_DB_LIST") {
        return Some(WaitType::FFT_NSO_DB_LIST);
    } else if str_eq(s, "FFT_NSO_FCB") {
        return Some(WaitType::FFT_NSO_FCB);
    }
    None
}

#[verifier::rlimit(40)]
fn parse_listed_3(s: &str) -> (r: Option<WaitType>)
    ensures
        r is Some <==> listed_names_3(s@),
        r matches Some(w) ==> in_part_3(w) && listed_name_3(w) == s@,
{
    proof {
        reveal(listed_name_3);
    }
    if str_eq(s, "FFT_NSO_FCB_FIND") {
        return Some(WaitType::FFT_NSO_FCB_FIND);
    } else if str_eq(s, "FFT_NSO_FCB_PARENT") {
        return Some(WaitType::FFT_NSO_FCB_PARENT);
    } else if str_eq(s, "FFT_NSO_FCB_RELEASE_CACHED_ENTRIES") {
        return Some(WaitType::FFT_NSO_FCB_RELEASE_CACHED_ENTRIES);
    } else if str_eq(s, "FFT_NSO_FCB_STATE") {
        return Some(WaitType::FFT_NSO_FCB_STATE);
    } else if str_eq(s, "FFT_NSO_FILEOBJECT") {
        return Some(WaitType::FFT_NSO_FILEOBJECT);
    } else if str_eq(s, "FFT_NSO_TABLE_LIST") {
        return Some(WaitType::FFT_NSO_TABLE_LIST);
    } else if str_eq(s, "FFT_NTFS_STORE") {
        return Some(WaitType::FFT_NTFS_STORE);
    } else if str_eq(s, "FFT_RECOVERY") {
        return Some(WaitType::FFT_RECOVERY);
    } else if str_eq(s, "FFT_RSFX_COMM") {
        return Some(WaitType::FFT_RSFX_COMM);
    } else if str_eq(s, "FFT_RSFX_WAIT_FOR_MEMORY") {
        return Some(WaitType::FFT_RSFX_WAIT_FOR_MEMORY);
    } else if str_eq(s, "FFT_STARTUP_SHUTDOWN") {
        return Some(WaitType::FFT_STARTUP_SHUTDOWN);
    } else if str_eq(s, "FFT_STORE_DB") {
        return Some(WaitType::FFT_STORE_DB);
    } else if str_eq(s, "FFT_STORE_ROWSET_LIST") {
        return Some(WaitType::FFT_STORE_ROWSET_LIST);
    } else if str_eq(s, "FFT_STORE_TABLE") {
        return Some(WaitType::FFT_STORE_TABLE);
    } else if str_eq(s, "FILESTREAM_CACHE") {
        return Some(WaitType::FILESTREAM_CACHE);
    } else if str_eq(s, "FILESTREAM_CHUNKER") {
        return Some(WaitType::FILESTREAM_CHUNKER);
    } else if str_eq(s, "FILESTREAM_CHUNKER_INIT") {
        return Some(WaitType::FILESTREAM_CHUNKER_INIT);
    } else if str_eq(s, "FILESTREAM_FCB") {
        return Some(WaitType::FILESTREAM_FCB);
    } else if str_eq(s, "FILESTREAM_FILE_OBJECT") {
        return Some(WaitType::FILESTREAM_FILE_OBJECT);
    } else if str_eq(s, "FILESTREAM_WORKITEM_QUEUE") {
        return Some(WaitType::FILESTREAM_WORKITEM_QUEUE);
    } else if str_eq(s, "FILETABLE_SHUTDOWN") {
        return Some(WaitType::FILETABLE_SHUTDOWN);
    } else if str_eq(s, "FILE_VALIDATION_THREADS") {
        return Some(WaitType::FILE_VALIDATION_THREADS);
    } else if str_eq(s, "FOREIGN_REDO") {
        return Some(WaitType::FOREIGN_REDO);
    } else if str_eq(s, "FORWARDER_TRANSITION") {
        return Some(WaitType::FORWARDER_TRANSITION);
    } else if str_eq(s, "FSAGENT") {
        return Some(WaitType::FSAGENT);
    } else if str_eq(s, "FSA_FORCE_OWN_XACT") {
        return Some(WaitType::FSA_FORCE_OWN_XACT);
    } else if str_eq(s, "FSTR_CONFIG_MUTEX") {
        return Some(WaitType::FSTR_CONFIG_MUTEX);
    } else if str_eq(s, "FSTR_CONFIG_RWLOCK") {
        return Some(WaitType::FSTR_CONFIG_RWLOCK);
    } else if str_eq(s, "FS_FC_RWLOCK") {
        return Some(WaitType::FS_FC_RWLOCK);
    } else if str_eq(s, "FS_GARBAGE_COLLECTOR_SHUTDOWN") {
        return Some(WaitType::FS_GARBAGE_COLLECTOR_SHUTDOWN);
    } else if str_eq(s, "FS_HEADER_RWLOCK") {
        return Some(WaitType::FS_HEADER_RWLOCK);
    } else if str_eq(s, "FS_LOGTRUNC_RWLOCK") {
        return Some(WaitType::FS_LOGTRUNC_RWLOCK);
    } else if str_eq(s, "FT_COMPROWSET_RWLOCK") {
        return Some(WaitType::FT_COMPROWSET_RWLOCK);
    } else if str_eq(s, "FT_IFTSHC_MUTEX") {
        return Some(WaitType::FT_IFTSHC_MUTEX);
    } else if str_eq(s, "FT_IFTSISM_MUTEX") {
        return Some(WaitType::FT_IFTSISM_MUTEX);
    } else if str_eq(s, "FT_IFTS_ASYNC_WRITE_PIPE") {
        return Some(WaitType::FT_IFTS_ASYNC_WRITE_PIPE);
    } else if str_eq(s, "FT_IFTS_BLOB_HASH") {
        return Some(WaitType::FT_IFTS_BLOB_HASH);
    } else if str_eq(s, "FT_IFTS_CATEALOG_SOURCE") {
        return Some(WaitType::FT_IFTS_CATEALOG_SOURCE);
    } else if str_eq(s, "FT_IFTS_CHUNK_BUFFER_CLIENT_MANAGER") {
        return Some(WaitType::FT_IFTS_CHUNK_BUFFER_CLIENT_MANAGER);
    } else if str_eq(s, "FT_IFTS_CHUNK_BUFFER_PROTO_WORD_LIST") {
        return Some(WaitType::FT_IFTS_CHUNK_BUFFER_PROTO_WORD_LIST);
    } else if str_eq(s, "FT_IFTS_COMP_DESC_MANAGER") {
        return Some(WaitType::FT_IFTS_COMP_DESC_MANAGER);
    } else if str_eq(s, "FT_IFTS_CONSUMER_PLUGIN") {
        return Some(WaitType::FT_IFTS_CONSUMER_PLUGIN);
    } else if str_eq(s, "FT_IFTS_CRAWL_BATCH_LIST") {
        return Some(WaitType::FT_IFTS_CRAWL_BATCH_LIST);
    } else if str_eq(s, "FT_IFTS_CRAWL_CHILDREN") {
        return Some(WaitType::FT_IFTS_CRAWL_CHILDREN);
    } else if str_eq(s, "FT_IFTS_DOCID_INTERFACE_LIST") {
        return Some(WaitType::FT_IFTS_DOCID_INTERFACE_LIST);
    } else if str_eq(s, "FT_IFTS_DOCID_LIST") {
        return Some(WaitType::FT_IFTS_DOCID_LIST);
    } else if str_eq(s, "FT_IFTS_FP_INFO_LIST") {
        return Some(WaitType::FT_IFTS_FP_INFO_LIST);
    } else if str_eq(s, "FT_IFTS_HOST_CONTROLLER") {
        return Some(WaitType::FT_IFTS_HOST_CONTROLLER);
    } else if str_eq(s, "FT_IFTS_MASTER_MERGE_TASK_LIST") {
        return Some(WaitType::FT_IFTS_MASTER_MERGE_TASK_LIST);
    } else if str_eq(s, "FT_IFTS_MEMREGPOOL") {
        return Some(WaitType::FT_IFTS_MEMREGPOOL);
    }
    None
}

#[verifier::rlimit(40)]
fn parse_listed_4(s: &str) -> (r: Option<WaitType>)
    ensures
        r is Some <==> listed_names_4(s@),
        r matches Some(w) ==> in_part_4(w) && listed_name_4(w) == s@,
{
    proof {
        reveal(listed_name_4);
    }
    if str_eq(s, "FT_IFTS_MERGE_FRAGMENT_SYNC") {
        return Some(WaitType::FT_IFTS_MERGE_FRAGMENT_SYNC);
    } else if str_eq(s, "FT_IFTS_NOISE_WORDS_COLLECTION_CACHE") {
        return Some(WaitType::FT_IFTS_NOISE_WORDS_COLLECTION_CACHE);
    } else if str_eq(s, "FT_IFTS_NOISE_WORDS_RESOURCE") {
        return Some(WaitType::FT_IFTS_NOISE_WORDS_RESOURCE);
    } else if str_eq(s, "FT_IFTS_OCCURRENCE_BUFFER_POOL") {
        return Some(WaitType::FT_IFTS_OCCURRENCE_BUFFER_POOL);
    } else if str_eq(s, "FT_IFTS_PIPELINE") {
        return Some(WaitType::FT_IFTS_PIPELINE);
    } else if str_eq(s, "FT_IFTS_PIPELINE_LIST") {
        return Some(WaitType::FT_IFTS_PIPELINE_LIST);
    } else if str_eq(s, "FT_IFTS_PIPELINE_MANAGER") {
        return Some(WaitType::FT_IFTS_PIPELINE_MANAGER);
    } else if str_eq(s, "FT_IFTS_PROJECT_FD_INFO_MAP") {
        return Some(WaitType::FT_IFTS_PROJECT_FD_INFO_MAP);
    } else if str_eq(s, "FT_IFTS_RWLOCK") {
        return Some(WaitType::FT_IFTS_RWLOCK);
    } else if str_eq(s, "FT_IFTS_SCHEDULER") {
        return Some(WaitType::FT_IFTS_SCHEDULER);
    } else if str_eq(s, "FT_IFTS_SCHEDULER_IDLE_WAIT") {
        return Some(WaitType::FT_IFTS_SCHEDULER_IDLE_WAIT);
    } else if str_eq(s, "FT_IFTS_SHARED_MEMORY") {
        return Some(WaitType::FT_IFTS_SHARED_MEMORY);
    } else if str_eq(s, "FT_IFTS_SHUTDOWN_PIPE") {
        return Some(WaitType::FT_IFTS_SHUTDOWN_PIPE);
    } else if str_eq(s, "FT_IFTS_SRCH_FD_MANAGER") {
        return Some(WaitType::FT_IFTS_SRCH_FD_MANAGER);
    } else if str_eq(s, "FT_IFTS_SRCH_FD_SERVICE") {
        return Some(WaitType::FT_IFTS_SRCH_FD_SERVICE);
    } else if str_eq(s, "FT_IFTS_STOPLIST_CACHE_MANAGER") {
        return Some(WaitType::FT_IFTS_STOPLIST_CACHE_MANAGER);
    } else if str_eq(s, "FT_IFTS_THESAURUS") {
        return Some(WaitType::FT_IFTS_THESAURUS);
    } else if str_eq(s, "FT_IFTS_VERSION_MANAGER") {
        return Some(WaitType::FT_IFTS_VERSION_MANAGER);
    } else if str_eq(s, "FT_IFTS_WORK_QUEUE") {
        return Some(WaitType::FT_IFTS_WORK_QUEUE);
    } else if str_eq(s, "FT_MASTER_MERGE") {
        return Some(WaitType::FT_MASTER_MERGE);
    } else if str_eq(s, "FT_MASTER_MERGE_COORDINATOR") {
        return Some(WaitType::FT_MASTER_MERGE_COORDINATOR);
    } else if str_eq(s, "FT_METADATA_MUTEX") {
        return Some(WaitType::FT_METADATA_MUTEX);
    } else if str_eq(s, "FT_PROPERTYLIST_CACHE") {
        return Some(WaitType::FT_PROPERTYLIST_CACHE);
    } else if str_eq(s, "FT_RESTART_CRAWL") {
        return Some(WaitType::FT_RESTART_CRAWL);
    } else if str_eq(s, "FULLTEXT GATHERER") {
        return Some(WaitType::FULLTEXT_GATHERER);
    } else if str_eq(s, "GDMA_GET_RESOURCE_OWNER") {
        return Some(WaitType::GDMA_GET_RESOURCE_OWNER);
    } else if str_eq(s, "GHOSTCLEANUPSYNCMGR") {
        return Some(WaitType::GHOSTCLEANUPSYNCMGR);
    } else if str_eq(s, "GHOSTCLEANUP_UPDATE_STATS") {
        return Some(WaitType::GHOSTCLEANUP_UPDATE_STATS);
    } else if str_eq(s, "GLOBAL_QUERY_CANCEL") {
        return Some(WaitType::GLOBAL_QUERY_CANCEL);
    } else if str_eq(s, "GLOBAL_QUERY_CLOSE") {
        return Some(WaitType::GLOBAL_QUERY_CLOSE);
    } else if str_eq(s, "GLOBAL_QUERY_CONSUMER") {
        return Some(WaitType::GLOBAL_QUERY_CONSUMER);
    } else if str_eq(s, "GLOBAL_QUERY_PRODUCER") {
        return Some(WaitType::GLOBAL_QUERY_PRODUCER);
    } else if str_eq(s, "GLOBAL_TRAN_CREATE") {
        return Some(WaitType::GLOBAL_TRAN_CREATE);
    } else if str_eq(s, "GLOBAL_TRAN_UCS_SESSION") {
        return Some(WaitType::GLOBAL_TRAN_UCS_SESSION);
    } else if str_eq(s, "GUARDIAN") {
        return Some(WaitType::GUARDIAN);
    } else if str_eq(s, "HADR_AG_MUTEX") {
        return Some(WaitType::HADR_AG_MUTEX);
    } else if str_eq(s, "HADR_ARCONTROLLER_NOTIFICATIONS_SUBSCRIBER_LIST") {
        return Some(WaitType::HADR_ARCONTROLLER_NOTIFICATIONS_SUBSCRIBER_LIST);
    } else if str_eq(s, "HADR_AR_CRITICAL_SECTION_ENTRY") {
        return Some(WaitType::HADR_AR_CRITICAL_SECTION_ENTRY);
    } else if str_eq(s, "HADR_AR_MANAGER_MUTEX") {
        return Some(WaitType::HADR_AR_MANAGER_MUTEX);
    } else if str_eq(s, "HADR_AR_UNLOAD_COMPLETED") {
        return Some(WaitType::HADR_AR_UNLOAD_COMPLETED);
    } else if str_eq(s, "HADR_BACKUP_BULK_LOCK") {
        return Some(WaitType::HADR_BACKUP_BULK_LOCK);
    } else if str_eq(s, "HADR_BACKUP_QUEUE") {
        return Some(WaitType::HADR_BACKUP_QUEUE);
    } else if str_eq(s, "HADR_CLUSAPI_CALL") {
        return Some(WaitType::HADR_CLUSAPI_CALL);
    } else if str_eq(s, "HADR_COMPRESSED_CACHE_SYNC") {
        return Some(WaitType::HADR_COMPRESSED_CACHE_SYNC);
    } else if str_eq(s, "HADR_CONNECTIVITY_INFO") {
        return Some(WaitType::HADR_CONNECTIVITY_INFO);
    } else if str_eq(s, "HADR_DATABASE_FLOW_CONTROL") {
        return Some(WaitType::HADR_DATABASE_FLOW_CONTROL);
    } else if str_eq(s, "HADR_DATABASE_VERSIONING_STATE") {
        return Some(WaitType::HADR_DATABASE_VERSIONING_STATE);
    } else if str_eq(s, "HADR_DATABASE_WAIT_FOR_RECOVERY") {
        return Some(WaitType::HADR_DATABASE_WAIT_FOR_RECOVERY);
    } else if str_eq(s, "HADR_DATABASE_WAIT_FOR_RESTART") {
        return Some(WaitType::HADR_DATABASE_WAIT_FOR_RESTART);
    } else if str_eq(s, "HADR_DATABASE_WAIT_FOR_TRANSITION_TO_VERSIONING") {
        return Some(WaitType::HADR_DATABASE_WAIT_FOR_TRANSITION_TO_VERSIONING);
    }
    None
}

#[verifier::rlimit(40)]
fn parse_listed_5(s: &str) -> (r: Option<WaitType>)
    ensures
        r is Some <==> listed_names_5(s@),
        r matches Some(w) ==> in_part_5(w) && listed_name_5(w) == s@,
{
    proof {
        reveal(listed_name_5);
    }
    if str_eq(s, "HADR_DBR_SUBSCRIBER") {
        return Some(WaitType::HADR_DBR_SUBSCRIBER);
    } else if str_eq(s, "HADR_DBR_SUBSCRIBER_FILTER_LIST") {
        return Some(WaitType::HADR_DBR_SUBSCRIBER_FILTER_LIST);
    } else if str_eq(s, "HADR_DBSEEDING") {
        return Some(WaitType::HADR_DBSEEDING);
    } else if str_eq(s, "HADR_DBSEEDING_LIST") {
        return Some(WaitType::HADR_DBSEEDING_LIST);
    } else if str_eq(s, "HADR_DBSTATECHANGE_SYNC") {
        return Some(WaitType::HADR_DBSTATECHANGE_SYNC);
    } else if str_eq(s, "HADR_DB_COMMAND") {
        return Some(WaitType::HADR_DB_COMMAND);
    } else if str_eq(s, "HADR_DB_OP_COMPLETION_SYNC") {
        return Some(WaitType::HADR_DB_OP_COMPLETION_SYNC);
    } else if str_eq(s, "HADR_DB_OP_START_SYNC") {
        return Some(WaitType::HADR_DB_OP_START_SYNC);
    } else if str_eq(s, "HADR_FABRIC_CALLBACK") {
        return Some(WaitType::HADR_FABRIC_CALLBACK);
    } else if str_eq(s, "HADR_FILESTREAM_BLOCK_FLUSH") {
        return Some(WaitType::HADR_FILESTREAM_BLOCK_FLUSH);
    } else if str_eq(s, "HADR_FILESTREAM_FILE_CLOSE") {
        return Some(WaitType::HADR_FILESTREAM_FILE_CLOSE);
    } else if str_eq(s, "HADR_FILESTREAM_FILE_REQUEST") {
        return Some(WaitType::HADR_FILESTREAM_FILE_REQUEST);
    } else if str_eq(s, "HADR_FILESTREAM_IOMGR") {
        return Some(WaitType::HADR_FILESTREAM_IOMGR);
    } else if str_eq(s, "HADR_FILESTREAM_IOMGR_IOCOMPLETION") {
        return Some(WaitType::HADR_FILESTREAM_IOMGR_IOCOMPLETION);
    } else if str_eq(s, "HADR_FILESTREAM_MANAGER") {
        return Some(WaitType::HADR_FILESTREAM_MANAGER);
    } else if str_eq(s, "HADR_FILESTREAM_PREPROC") {
        return Some(WaitType::HADR_FILESTREAM_PREPROC);
    } else if str_eq(s, "HADR_GROUP_COMMIT") {
        return Some(WaitType::HADR_GROUP_COMMIT);
    } else if str_eq(s, "HADR_LOGCAPTURE_SYNC") {
        return Some(WaitType::HADR_LOGCAPTURE_SYNC);
    } else if str_eq(s, "HADR_LOGCAPTURE_WAIT") {
        return Some(WaitType::HADR_LOGCAPTURE_WAIT);
    } else if str_eq(s, "HADR_LOGPROGRESS_SYNC") {
        return Some(WaitType::HADR_LOGPROGRESS_SYNC);
    } else if str_eq(s, "HADR_NOTIFICATION_DEQUEUE") {
        return Some(WaitType::HADR_NOTIFICATION_DEQUEUE);
    } else if str_eq(s, "HADR_NOTIFICATION_WORKER_EXCLUSIVE_ACCESS") {
        return Some(WaitType::HADR_NOTIFICATION_WORKER_EXCLUSIVE_ACCESS);
    } else if str_eq(s, "HADR_NOTIFICATION_WORKER_STARTUP_SYNC") {
        return Some(WaitType::HADR_NOTIFICATION_WORKER_STARTUP_SYNC);
    } else if str_eq(s, "HADR_NOTIFICATION_WORKER_TERMINATION_SYNC") {
        return Some(WaitType::HADR_NOTIFICATION_WORKER_TERMINATION_SYNC);
    } else if str_eq(s, "HADR_PARTNER_SYNC") {
        return Some(WaitType::HADR_PARTNER_SYNC);
    } else if str_eq(s, "HADR_READ_ALL_NETWORKS") {
        return Some(WaitType::HADR_READ_ALL_NETWORKS);
    } else if str_eq(s, "HADR_RECOVERY_WAIT_FOR_CONNECTION") {
        return Some(WaitType::HADR_RECOVERY_WAIT_FOR_CONNECTION);
    } else if str_eq(s, "HADR_RECOVERY_WAIT_FOR_UNDO") {
        return Some(WaitType::HADR_RECOVERY_WAIT_FOR_UNDO);
    } else if str_eq(s, "HADR_REPLICAINFO_SYNC") {
        return Some(WaitType::HADR_REPLICAINFO_SYNC);
    } else if str_eq(s, "HADR_SEEDING_CANCELLATION") {
        return Some(WaitType::HADR_SEEDING_CANCELLATION);
    } else if str_eq(s, "HADR_SEEDING_FILE_LIST") {
        return Some(WaitType::HADR_SEEDING_FILE_LIST);
    } else if str_eq(s, "HADR_SEEDING_LIMIT_BACKUPS") {
        return Some(WaitType::HADR_SEEDING_LIMIT_BACKUPS);
    } else if str_eq(s, "HADR_SEEDING_SYNC_COMPLETION") {
        return Some(WaitType::HADR_SEEDING_SYNC_COMPLETION);
    } else if str_eq(s, "HADR_SEEDING_TIMEOUT_TASK") {
        return Some(WaitType::HADR_SEEDING_TIMEOUT_TASK);
    } else if str_eq(s, "HADR_SEEDING_WAIT_FOR_COMPLETION") {
        return Some(WaitType::HADR_SEEDING_WAIT_FOR_COMPLETION);
    } else if str_eq(s, "HADR_SYNCHRONIZING_THROTTLE") {
        return Some(WaitType::HADR_SYNCHRONIZING_THROTTLE);
    } else if str_eq(s, "HADR_SYNC_COMMIT") {
        return Some(WaitType::HADR_SYNC_COMMIT);
    } else if str_eq(s, "HADR_TDS_LISTENER_SYNC") {
        return Some(WaitType::HADR_TDS_LISTENER_SYNC);
    } else if str_eq(s, "HADR_TDS_LISTENER_SYNC_PROCESSING") {
        return Some(WaitType::HADR_TDS_LISTENER_SYNC_PROCESSING);
    } else if str_eq(s, "HADR_THROTTLE_LOG_RATE_GOVERNOR") {
        return Some(WaitType::HADR_THROTTLE_LOG_RATE_GOVERNOR);
    } else if str_eq(s, "HADR_THROTTLE_LOG_RATE_LOG_SIZE") {
        return Some(WaitType::HADR_THROTTLE_LOG_RATE_LOG_SIZE);
    } else if str_eq(s, "HADR_THROTTLE_LOG_RATE_MISMATCHED_SLO") {
        return Some(WaitType::HADR_THROTTLE_LOG_RATE_MISMATCHED_SLO);
    } else if str_eq(s, "HADR_THROTTLE_LOG_RATE_SEEDING") {
        return Some(WaitType::HADR_THROTTLE_LOG_RATE_SEEDING);
    } else if str_eq(s, "HADR_THROTTLE_LOG_RATE_SEND_RECV_QUEUE_SIZE") {
        return Some(WaitType::HADR_THROTTLE_LOG_RATE_SEND_RECV_QUEUE_SIZE);
    } else if str_eq(s, "HADR_TIMER_TASK") {
        return Some(WaitType::HADR_TIMER_TASK);
    } else if str_eq(s, "HADR_TRANSPORT_DBRLIST") {
        return Some(WaitType::HADR_TRANSPORT_DBRLIST);
    } else if str_eq(s, "HADR_TRANSPORT_FLOW_CONTROL") {
        return Some(WaitType::HADR_TRANSPORT_FLOW_CONTROL);
    } else if str_eq(s, "HADR_TRANSPORT_SESSION") {
        return Some(WaitType::HADR_TRANSPORT_SESSION);
    } else if str_eq(s, "HADR_WORK_POOL") {
        return Some(WaitType::HADR_WORK_POOL);
    } else if str_eq(s, "HADR_WORK_QUEUE") {
        return Some(WaitType::HADR_WORK_QUEUE);
    }
    None
}

#[verifier::rlimit(40)]
fn parse_listed_6(s: &str) -> (r: Option<WaitType>)
    ensures
        r is Some <==> listed_names_6(s@),
        r matches Some(w) ==> in_part_6(w) && listed_name_6(w) == s@,
{
    proof {
        reveal(listed_name_6);
    }
    if str_eq(s, "HADR_XRF_STACK_ACCESS") {
        return Some(WaitType::HADR_XRF_STACK_ACCESS);
    } else if str_eq(s, "HCCO_CACHE") {
        return Some(WaitType::HCCO_CACHE);
    } else if str_eq(s, "HKCS_PARALLEL_MIGRATION") {
        return Some(WaitType::HKCS_PARALLEL_MIGRATION);
    } else if str_eq(s, "HKCS_PARALLEL_RECOVERY") {
        return Some(WaitType::HKCS_PARALLEL_RECOVERY);
    } else if str_eq(s, "HK_RESTORE_FILEMAP") {
        return Some(WaitType::HK_RESTORE_FILEMAP);
    } else if str_eq(s, "HTBUILD") {
        return Some(WaitType::HTBUILD);
    } else if str_eq(s, "HTBUILD_AGG") {
        return Some(WaitType::HTBUILD_AGG);
    } else if str_eq(s, "HTBUILD_JOIN") {
        return Some(WaitType::HTBUILD_JOIN);
    } else if str_eq(s, "HTDELETE") {
        return Some(WaitType::HTDELETE);
    } else if str_eq(s, "HTDELETE_AGG") {
        return Some(WaitType::HTDELETE_AGG);
    } else if str_eq(s, "HTDELETE_JOIN") {
        return Some(WaitType::HTDELETE_JOIN);
    } else if str_eq(s, "HTMEMO") {
        return Some(WaitType::HTMEMO);
    } else if str_eq(s, "HTREINIT") {
        return Some(WaitType::HTREINIT);
    } else if str_eq(s, "HTREPARTITION") {
        return Some(WaitType::HTREPARTITION);
    } else if str_eq(s, "HTTP_ENUMERATION") {
        return Some(WaitType::HTTP_ENUMERATION);
    } else if str_eq(s, "HTTP_START") {
        return Some(WaitType::HTTP_START);
    } else if str_eq(s, "HTTP_STORAGE_CONNECTION") {
        return Some(WaitType::HTTP_STORAGE_CONNECTION);
    } else if str_eq(s, "IMPPROV_IOWAIT") {
        return Some(WaitType::IMPPROV_IOWAIT);
    } else if str_eq(s, "INSTANCE_LOG_RATE_GOVERNOR") {
        return Some(WaitType::INSTANCE_LOG_RATE_GOVERNOR);
    } else if str_eq(s, "INTERNAL_TESTING") {
        return Some(WaitType::INTERNAL_TESTING);
    } else if str_eq(s, "IOAFF_RANGE_QUEUE") {
        return Some(WaitType::IOAFF_RANGE_QUEUE);
    } else if str_eq(s, "IO_AUDIT_MUTEX") {
        return Some(WaitType::IO_AUDIT_MUTEX);
    } else if str_eq(s, "IO_COMPLETION") {
        return Some(WaitType::IO_COMPLETION);
    } else if str_eq(s, "IO_QUEUE_LIMIT") {
        return Some(WaitType::IO_QUEUE_LIMIT);
    } else if str_eq(s, "IO_RETRY") {
        return Some(WaitType::IO_RETRY);
    } else if str_eq(s, "KSOURCE_WAKEUP") {
        return Some(WaitType::KSOURCE_WAKEUP);
    } else if str_eq(s, "KTM_ENLISTMENT") {
        return Some(WaitType::KTM_ENLISTMENT);
    } else if str_eq(s, "KTM_RECOVERY_MANAGER") {
        return Some(WaitType::KTM_RECOVERY_MANAGER);
    } else if str_eq(s, "KTM_RECOVERY_RESOLUTION") {
        return Some(WaitType::KTM_RECOVERY_RESOLUTION);
    } else if str_eq(s, "LATCH_DT") {
        return Some(WaitType::LATCH_DT);
    } else if str_eq(s, "LATCH_EX") {
        return Some(WaitType::LATCH_EX);
    } else if str_eq(s, "LATCH_KP") {
        return Some(WaitType::LATCH_KP);
    } else if str_eq(s, "LATCH_NL") {
        return Some(WaitType::LATCH_NL);
    } else if str_eq(s, "LATCH_SH") {
        return Some(WaitType::LATCH_SH);
    } else if str_eq(s, "LATCH_UP") {
        return Some(WaitType::LATCH_UP);
    } else if str_eq(s, "LAZYWRITER_SLEEP") {
        return Some(WaitType::LAZYWRITER_SLEEP);
    } else if str_eq(s, "LCK_M_BU") {
        return Some(WaitType::LCK_M_BU);
    } else if str_eq(s, "LCK_M_BU_ABORT_BLOCKERS") {
        return Some(WaitType::LCK_M_BU_ABORT_BLOCKERS);
    } else if str_eq(s, "LCK_M_BU_LOW_PRIORITY") {
        return Some(WaitType::LCK_M_BU_LOW_PRIORITY);
    } else if str_eq(s, "LCK_M_IS") {
        return Some(WaitType::LCK_M_IS);
    } else if str_eq(s, "LCK_M_IS_ABORT_BLOCKERS") {
        return Some(WaitType::LCK_M_IS_ABORT_BLOCKERS);
    } else if str_eq(s, "LCK_M_IS_LOW_PRIORITY") {
        return Some(WaitType::LCK_M_IS_LOW_PRIORITY);
    } else if str_eq(s, "LCK_M_IU") {
        return Some(WaitType::LCK_M_IU);
    } else if str_eq(s, "LCK_M_IU_ABORT_BLOCKERS") {
        return Some(WaitType::LCK_M_IU_ABORT_BLOCKERS);
    } else if str_eq(s, "LCK_M_IU_LOW_PRIORITY") {
        return Some(WaitType::LCK_M_IU_LOW_PRIORITY);
    } else if str_eq(s, "LCK_M_IX") {
        return Some(WaitType::LCK_M_IX);
    } else if str_eq(s, "LCK_M_IX_ABORT_BLOCKERS") {
        return Some(WaitType::LCK_M_IX_ABORT_BLOCKERS);
    } else if str_eq(s, "LCK_M_IX_LOW_PRIORITY") {
        return Some(WaitType::LCK_M_IX_LOW_PRIORITY);
    } else if str_eq(s, "LCK_M_RIn_NL") {
        return Some(WaitType::LCK_M_RIn_NL);
    } else if str_eq(s, "LCK_M_RIn_NL_ABORT_BLOCKERS") {
        return Some(WaitType::LCK_M_RIn_NL_ABORT_BLOCKERS);
    }
    None
}

#[verifier::rlimit(40)]
fn parse_listed_7(s: &str) -> (r: Option<WaitType>)
    ensures
        r is Some <==> listed_names_7(s@),
        r matches Some(w) ==> in_part_7(w) && listed_name_7(w) == s@,
{
    proof {
        reveal(listed_name_7);
    }
    if str_eq(s, "LCK_M_RIn_NL_LOW_PRIORITY") {
        return Some(WaitType::LCK_M_RIn_NL_LOW_PRIORITY);
    } else if str_eq(s, "LCK_M_RIn_S") {
        return Some(WaitType::LCK_M_RIn_S);
    } else if str_eq(s, "LCK_M_RIn_S_ABORT_BLOCKERS") {
        return Some(WaitType::LCK_M_RIn_S_ABORT_BLOCKERS);
    } else if str_eq(s, "LCK_M_RIn_S_LOW_PRIORITY") {
        return Some(WaitType::LCK_M_RIn_S_LOW_PRIORITY);
    } else if str_eq(s, "LCK_M_RIn_U") {
        return Some(WaitType::LCK_M_RIn_U);
    } else if str_eq(s, "LCK_M_RIn_U_ABORT_BLOCKERS") {
        return Some(WaitType::LCK_M_RIn_U_ABORT_BLOCKERS);
    } else if str_eq(s, "LCK_M_RIn_U_LOW_PRIORITY") {
        return Some(WaitType::LCK_M_RIn_U_LOW_PRIORITY);
    } else if str_eq(s, "LCK_M_RIn_X") {
        return Some(WaitType::LCK_M_RIn_X);
    } else if str_eq(s, "LCK_M_RIn_X_ABORT_BLOCKERS") {
        return Some(WaitType::LCK_M_RIn_X_ABORT_BLOCKERS);
    } else if str_eq(s, "LCK_M_RIn_X_LOW_PRIORITY") {
        return Some(WaitType::LCK_M_RIn_X_LOW_PRIORITY);
    } else if str_eq(s, "LCK_M_RS_S") {
        return Some(WaitType::LCK_M_RS_S);
    } else if str_eq(s, "LCK_M_RS_S_ABORT_BLOCKERS") {
        return Some(WaitType::LCK_M_RS_S_ABORT_BLOCKERS);
    } else if str_eq(s, "LCK_M_RS_S_LOW_PRIORITY") {
        return Some(WaitType::LCK_M_RS_S_LOW_PRIORITY);
    } else if str_eq(s, "LCK_M_RS_U") {
        return Some(WaitType::LCK_M_RS_U);
    } else if str_eq(s, "LCK_M_RS_U_ABORT_BLOCKERS") {
        return Some(WaitType::LCK_M_RS_U_ABORT_BLOCKERS);
    } else if str_eq(s, "LCK_M_RS_U_LOW_PRIORITY") {
        return Some(WaitType::LCK_M_RS_U_LOW_PRIORITY);
    } else if str_eq(s, "LCK_M_RX_S") {
        return Some(WaitType::LCK_M_RX_S);
    } else if str_eq(s, "LCK_M_RX_S_ABORT_BLOCKERS") {
        return Some(WaitType::LCK_M_RX_S_ABORT_BLOCKERS);
    } else if str_eq(s, "LCK_M_RX_S_LOW_PRIORITY") {
        return Some(WaitType::LCK_M_RX_S_LOW_PRIORITY);
    } else if str_eq(s, "LCK_M_RX_U") {
        return Some(WaitType::LCK_M_RX_U);
    } else if str_eq(s, "LCK_M_RX_U_ABORT_BLOCKERS") {
        return Some(WaitType::LCK_M_RX_U_ABORT_BLOCKERS);
    } else if str_eq(s, "LCK_M_RX_U_LOW_PRIORITY") {
        return Some(WaitType::LCK_M_RX_U_LOW_PRIORITY);
    } else if str_eq(s, "LCK_M_RX_X") {
        return Some(WaitType::LCK_M_RX_X);
    } else if str_eq(s, "LCK_M_RX_X_ABORT_BLOCKERS") {
        return Some(WaitType::LCK_M_RX_X_ABORT_BLOCKERS);
    } else if str_eq(s, "LCK_M_RX_X_LOW_PRIORITY") {
        return Some(WaitType::LCK_M_RX_X_LOW_PRIORITY);
    } else if str_eq(s, "LCK_M_S") {
        return Some(WaitType::LCK_M_S);
    } else if str_eq(s, "LCK_M_SCH_M") {
        return Some(WaitType::LCK_M_SCH_M);
    } else if str_eq(s, "LCK_M_SCH_M_ABORT_BLOCKERS") {
        return Some(WaitType::LCK_M_SCH_M_ABORT_BLOCKERS);
    } else if str_eq(s, "LCK_M_SCH_M_LOW_PRIORITY") {
        return Some(WaitType::LCK_M_SCH_M_LOW_PRIORITY);
    } else if str_eq(s, "LCK_M_SCH_S") {
        return Some(WaitType::LCK_M_SCH_S);
    } else if str_eq(s, "LCK_M_SCH_S_ABORT_BLOCKERS") {
        return Some(WaitType::LCK_M_SCH_S_ABORT_BLOCKERS);
    } else if str_eq(s, "LCK_M_SCH_S_LOW_PRIORITY") {
        return Some(WaitType::LCK_M_SCH_S_LOW_PRIORITY);
    } else if str_eq(s, "LCK_M_SIU") {
        return Some(WaitType::LCK_M_SIU);
    } else if str_eq(s, "LCK_M_SIU_ABORT_BLOCKERS") {
        return Some(WaitType::LCK_M_SIU_ABORT_BLOCKERS);
    } else if str_eq(s, "LCK_M_SIU_LOW_PRIORITY") {
        return Some(WaitType::LCK_M_SIU_LOW_PRIORITY);
    } else if str_eq(s, "LCK_M_SIX") {
        return Some(WaitType::LCK_M_SIX);
    } else if str_eq(s, "LCK_M_SIX_ABORT_BLOCKERS") {
        return Some(WaitType::LCK_M_SIX_ABORT_BLOCKERS);
    } else if str_eq(s, "LCK_M_SIX_LOW_PRIORITY") {
        return Some(WaitType::LCK_M_SIX_LOW_PRIORITY);
    } else if str_eq(s, "LCK_M_S_ABORT_BLOCKERS") {
        return Some(WaitType::LCK_M_S_ABORT_BLOCKERS);
    } else if str_eq(s, "LCK_M_S_LOW_PRIORITY") {
        return Some(WaitType::LCK_M_S_LOW_PRIORITY);
    } else if str_eq(s, "LCK_M_S_XACT") {
        return Some(WaitType::LCK_M_S_XACT);
    } else if str_eq(s, "LCK_M_S_XACT_MODIFY") {
        return Some(WaitType::LCK_M_S_XACT_MODIFY);
    } else if str_eq(s, "LCK_M_S_XACT_READ") {
        return Some(WaitType::LCK_M_S_XACT_READ);
    } else if str_eq(s, "LCK_M_U") {
        return Some(WaitType::LCK_M_U);
    } else if str_eq(s, "LCK_M_UIX") {
        return Some(WaitType::LCK_M_UIX);
    } else if str_eq(s, "LCK_M_UIX_ABORT_BLOCKERS") {
        return Some(WaitType::LCK_M_UIX_ABORT_BLOCKERS);
    } else if str_eq(s, "LCK_M_UIX_LOW_PRIORITY") {
        return Some(WaitType::LCK_M_UIX_LOW_PRIORITY);
    } else if str_eq(s, "LCK_M_U_ABORT_BLOCKERS") {
        return Some(WaitType::LCK_M_U_ABORT_BLOCKERS);
    } else if str_eq(s, "LCK_M_U_LOW_PRIORITY") {
        return Some(WaitType::LCK_M_U_LOW_PRIORITY);
    } else if str_eq(s, "LCK_M_X") {
        return Some(WaitType::LCK_M_X);
    }
    None
}

#[verifier::rlimit(40)]
fn parse_listed_8(s: &str) -> (r: Option<WaitType>)
    ensures
        r is Some <==> listed_names_8(s@),
        r matches Some(w) ==> in_part_8(w) && listed_name_8(w) == s@,
{
    proof {
        reveal(listed_name_8);
    }
    if str_eq(s, "LCK_M_X_ABORT_BLOCKERS") {
        return Some(WaitType::LCK_M_X_ABORT_BLOCKERS);
    } else if str_eq(s, "LCK_M_X_LOW_PRIORITY") {
        return Some(WaitType::LCK_M_X_LOW_PRIORITY);
    } else if str_eq(s, "LOGBUFFER") {
        return Some(WaitType::LOGBUFFER);
    } else if str_eq(s, "LOGCAPTURE_LOGPOOLTRUNCPOINT") {
        return Some(WaitType::LOGCAPTURE_LOGPOOLTRUNCPOINT);
    } else if str_eq(s, "LOGGENERATION") {
        return Some(WaitType::LOGGENERATION);
    } else if str_eq(s, "LOGMGR") {
        return Some(WaitType::LOGMGR);
    } else if str_eq(s, "LOGMGR_FLUSH") {
        return Some(WaitType::LOGMGR_FLUSH);
    } else if str_eq(s, "LOGMGR_PMM_LOG") {
        return Some(WaitType::LOGMGR_PMM_LOG);
    } else if str_eq(s, "LOGMGR_QUEUE") {
        return Some(WaitType::LOGMGR_QUEUE);
    } else if str_eq(s, "LOGMGR_RESERVE_APPEND") {
        return Some(WaitType::LOGMGR_RESERVE_APPEND);
    } else if str_eq(s, "LOGPOOLREFCOUNTEDOBJECT_REFDONE") {
        return Some(WaitType::LOGPOOLREFCOUNTEDOBJECT_REFDONE);
    } else if str_eq(s, "LOGPOOL_CACHESIZE") {
        return Some(WaitType::LOGPOOL_CACHESIZE);
    } else if str_eq(s, "LOGPOOL_CONSUMER") {
        return Some(WaitType::LOGPOOL_CONSUMER);
    } else if str_eq(s, "LOGPOOL_CONSUMERSET") {
        return Some(WaitType::LOGPOOL_CONSUMERSET);
    } else if str_eq(s, "LOGPOOL_FREEPOOLS") {
        return Some(WaitType::LOGPOOL_FREEPOOLS);
    } else if str_eq(s, "LOGPOOL_MGRSET") {
        return Some(WaitType::LOGPOOL_MGRSET);
    } else if str_eq(s, "LOGPOOL_REPLACEMENTSET") {
        return Some(WaitType::LOGPOOL_REPLACEMENTSET);
    } else if str_eq(s, "LOG_POOL_SCAN") {
        return Some(WaitType::LOG_POOL_SCAN);
    } else if str_eq(s, "LOG_RATE_GOVERNOR") {
        return Some(WaitType::LOG_RATE_GOVERNOR);
    } else if str_eq(s, "LOWFAIL_MEMMGR_QUEUE") {
        return Some(WaitType::LOWFAIL_MEMMGR_QUEUE);
    } else if str_eq(s, "MD_AGENT_YIELD") {
        return Some(WaitType::MD_AGENT_YIELD);
    } else if str_eq(s, "MD_LAZYCACHE_RWLOCK") {
        return Some(WaitType::MD_LAZYCACHE_RWLOCK);
    } else if str_eq(s, "MEMORY_ALLOCATION_EXT") {
        return Some(WaitType::MEMORY_ALLOCATION_EXT);
    } else if str_eq(s, "MEMORY_GRANT_UPDATE") {
        return Some(WaitType::MEMORY_GRANT_UPDATE);
    } else if str_eq(s, "METADATA_LAZYCACHE_RWLOCK") {
        return Some(WaitType::METADATA_LAZYCACHE_RWLOCK);
    } else if str_eq(s, "MIGRATIONBUFFER") {
        return Some(WaitType::MIGRATIONBUFFER);
    } else if str_eq(s, "MISCELLANEOUS") {
        return Some(WaitType::MISCELLANEOUS);
    } else if str_eq(s, "MSQL_DQ") {
        return Some(WaitType::MSQL_DQ);
    } else if str_eq(s, "MSQL_XACT_MGR_MUTEX") {
        return Some(WaitType::MSQL_XACT_MGR_MUTEX);
    } else if str_eq(s, "MSQL_XACT_MUTEX") {
        return Some(WaitType::MSQL_XACT_MUTEX);
    } else if str_eq(s, "MSQL_XP") {
        return Some(WaitType::MSQL_XP);
    } else if str_eq(s, "MSSEARCH") {
        return Some(WaitType::MSSEARCH);
    } else if str_eq(s, "NETWORKSXMLMGRLOAD") {
        return Some(WaitType::NETWORKSXMLMGRLOAD);
    } else if str_eq(s, "NET_WAITFOR_PACKET") {
        return Some(WaitType::NET_WAITFOR_PACKET);
    } else if str_eq(s, "NODE_CACHE_MUTEX") {
        return Some(WaitType::NODE_CACHE_MUTEX);
    } else if str_eq(s, "OLEDB") {
        return Some(WaitType::OLEDB);
    } else if str_eq(s, "ONDEMAND_TASK_QUEUE") {
        return Some(WaitType::ONDEMAND_TASK_QUEUE);
    } else if str_eq(s, "PAGEIOLATCH_DT") {
        return Some(WaitType::PAGEIOLATCH_DT);
    } else if str_eq(s, "PAGEIOLATCH_EX") {
        return Some(WaitType::PAGEIOLATCH_EX);
    } else if str_eq(s, "PAGEIOLATCH_KP") {
        return Some(WaitType::PAGEIOLATCH_KP);
    } else if str_eq(s, "PAGEIOLATCH_NL") {
        return Some(WaitType::PAGEIOLATCH_NL);
    } else if str_eq(s, "PAGEIOLATCH_SH") {
        return Some(WaitType::PAGEIOLATCH_SH);
    } else if str_eq(s, "PAGEIOLATCH_UP") {
        return Some(WaitType::PAGEIOLATCH_UP);
    } else if str_eq(s, "PAGELATCH_DT") {
        return Some(WaitType::PAGELATCH_DT);
    } else if str_eq(s, "PAGELATCH_EX") {
        return Some(WaitType::PAGELATCH_EX);
    } else if str_eq(s, "PAGELATCH_KP") {
        return Some(WaitType::PAGELATCH_KP);
    } else if str_eq(s, "PAGELATCH_NL") {
        return Some(WaitType::PAGELATCH_NL);
    } else if str_eq(s, "PAGELATCH_SH") {
        return Some(WaitType::PAGELATCH_SH);
    } else if str_eq(s, "PAGELATCH_UP") {
        return Some(WaitType::PAGELATCH_UP);
    } else if str_eq(s, "PARALLEL_BACKUP_QUEUE") {
        return Some(WaitType::PARALLEL_BACKUP_QUEUE);
    }
    None
}

#[verifier::rlimit(40)]
fn parse_listed_9(s: &str) -> (r: Option<WaitType>)
    ensures
        r is Some <==> listed_names_9(s@),
        r matches Some(w) ==> in_part_9(w) && listed_name_9(w) == s@,
{
    proof {
        reveal(listed_name_9);
    }
    if str_eq(s, "PARALLEL_REDO_DRAIN_WORKER") {
        return Some(WaitType::PARALLEL_REDO_DRAIN_WORKER);
    } else if str_eq(s, "PARALLEL_REDO_FLOW_CONTROL") {
        return Some(WaitType::PARALLEL_REDO_FLOW_CONTROL);
    } else if str_eq(s, "PARALLEL_REDO_LOG_CACHE") {
        return Some(WaitType::PARALLEL_REDO_LOG_CACHE);
    } else if str_eq(s, "PARALLEL_REDO_TRAN_LIST") {
        return Some(WaitType::PARALLEL_REDO_TRAN_LIST);
    } else if str_eq(s, "PARALLEL_REDO_TRAN_TURN") {
        return Some(WaitType::PARALLEL_REDO_TRAN_TURN);
    } else if str_eq(s, "PARALLEL_REDO_WORKER_SYNC") {
        return Some(WaitType::PARALLEL_REDO_WORKER_SYNC);
    } else if str_eq(s, "PARALLEL_REDO_WORKER_WAIT_WORK") {
        return Some(WaitType::PARALLEL_REDO_WORKER_WAIT_WORK);
    } else if str_eq(s, "PERFORMANCE_COUNTERS_RWLOCK") {
        return Some(WaitType::PERFORMANCE_COUNTERS_RWLOCK);
    } else if str_eq(s, "PHYSICAL_SEEDING_DMV") {
        return Some(WaitType::PHYSICAL_SEEDING_DMV);
    } else if str_eq(s, "POOL_LOG_RATE_GOVERNOR") {
        return Some(WaitType::POOL_LOG_RATE_GOVERNOR);
    } else if str_eq(s, "PREEMPTIVE_ABR") {
        return Some(WaitType::PREEMPTIVE_ABR);
    } else if str_eq(s, "PREEMPTIVE_AUDIT_ACCESS_EVENTLOG") {
        return Some(WaitType::PREEMPTIVE_AUDIT_ACCESS_EVENTLOG);
    } else if str_eq(s, "PREEMPTIVE_AUDIT_ACCESS_SECLOG") {
        return Some(WaitType::PREEMPTIVE_AUDIT_ACCESS_SECLOG);
    } else if str_eq(s, "PREEMPTIVE_CLOSEBACKUPMEDIA") {
        return Some(WaitType::PREEMPTIVE_CLOSEBACKUPMEDIA);
    } else if str_eq(s, "PREEMPTIVE_CLOSEBACKUPTAPE") {
        return Some(WaitType::PREEMPTIVE_CLOSEBACKUPTAPE);
    } else if str_eq(s, "PREEMPTIVE_CLOSEBACKUPVDIDEVICE") {
        return Some(WaitType::PREEMPTIVE_CLOSEBACKUPVDIDEVICE);
    } else if str_eq(s, "PREEMPTIVE_CLUSAPI_CLUSTERRESOURCECONTROL") {
        return Some(WaitType::PREEMPTIVE_CLUSAPI_CLUSTERRESOURCECONTROL);
    } else if str_eq(s, "PREEMPTIVE_COM_COCREATEINSTANCE") {
        return Some(WaitType::PREEMPTIVE_COM_COCREATEINSTANCE);
    } else if str_eq(s, "PREEMPTIVE_COM_COGETCLASSOBJECT") {
        return Some(WaitType::PREEMPTIVE_COM_COGETCLASSOBJECT);
    } else if str_eq(s, "PREEMPTIVE_COM_CREATEACCESSOR") {
        return Some(WaitType::PREEMPTIVE_COM_CREATEACCESSOR);
    } else if str_eq(s, "PREEMPTIVE_COM_DELETEROWS") {
        return Some(WaitType::PREEMPTIVE_COM_DELETEROWS);
    } else if str_eq(s, "PREEMPTIVE_COM_GETCOMMANDTEXT") {
        return Some(WaitType::PREEMPTIVE_COM_GETCOMMANDTEXT);
    } else if str_eq(s, "PREEMPTIVE_COM_GETDATA") {
        return Some(WaitType::PREEMPTIVE_COM_GETDATA);
    } else if str_eq(s, "PREEMPTIVE_COM_GETNEXTROWS") {
        return Some(WaitType::PREEMPTIVE_COM_GETNEXTROWS);
    } else if str_eq(s, "PREEMPTIVE_COM_GETRESULT") {
        return Some(WaitType::PREEMPTIVE_COM_GETRESULT);
    } else if str_eq(s, "PREEMPTIVE_COM_GETROWSBYBOOKMARK") {
        return Some(WaitType::PREEMPTIVE_COM_GETROWSBYBOOKMARK);
    } else if str_eq(s, "PREEMPTIVE_COM_LBFLUSH") {
        return Some(WaitType::PREEMPTIVE_COM_LBFLUSH);
    } else if str_eq(s, "PREEMPTIVE_COM_LBLOCKREGION") {
        return Some(WaitType::PREEMPTIVE_COM_LBLOCKREGION);
    } else if str_eq(s, "PREEMPTIVE_COM_LBREADAT") {
        return Some(WaitType::PREEMPTIVE_COM_LBREADAT);
    } else if str_eq(s, "PREEMPTIVE_COM_LBSETSIZE") {
        return Some(WaitType::PREEMPTIVE_COM_LBSETSIZE);
    } else if str_eq(s, "PREEMPTIVE_COM_LBSTAT") {
        return Some(WaitType::PREEMPTIVE_COM_LBSTAT);
    } else if str_eq(s, "PREEMPTIVE_COM_LBUNLOCKREGION") {
        return Some(WaitType::PREEMPTIVE_COM_LBUNLOCKREGION);
    } else if str_eq(s, "PREEMPTIVE_COM_LBWRITEAT") {
        return Some(WaitType::PREEMPTIVE_COM_LBWRITEAT);
    } else if str_eq(s, "PREEMPTIVE_COM_QUERYINTERFACE") {
        return Some(WaitType::PREEMPTIVE_COM_QUERYINTERFACE);
    } else if str_eq(s, "PREEMPTIVE_COM_RELEASE") {
        return Some(WaitType::PREEMPTIVE_COM_RELEASE);
    } else if str_eq(s, "PREEMPTIVE_COM_RELEASEACCESSOR") {
        return Some(WaitType::PREEMPTIVE_COM_RELEASEACCESSOR);
    } else if str_eq(s, "PREEMPTIVE_COM_RELEASEROWS") {
        return Some(WaitType::PREEMPTIVE_COM_RELEASEROWS);
    } else if str_eq(s, "PREEMPTIVE_COM_RELEASESESSION") {
        return Some(WaitType::PREEMPTIVE_COM_RELEASESESSION);
    } else if str_eq(s, "PREEMPTIVE_COM_RESTARTPOSITION") {
        return Some(WaitType::PREEMPTIVE_COM_RESTARTPOSITION);
    } else if str_eq(s, "PREEMPTIVE_COM_SEQSTRMREAD") {
        return Some(WaitType::PREEMPTIVE_COM_SEQSTRMREAD);
    } else if str_eq(s, "PREEMPTIVE_COM_SEQSTRMREADANDWRITE") {
        return Some(WaitType::PREEMPTIVE_COM_SEQSTRMREADANDWRITE);
    } else if str_eq(s, "PREEMPTIVE_COM_SETDATAFAILURE") {
        return Some(WaitType::PREEMPTIVE_COM_SETDATAFAILURE);
    } else if str_eq(s, "PREEMPTIVE_COM_SETPARAMETERINFO") {
        return Some(WaitType::PREEMPTIVE_COM_SETPARAMETERINFO);
    } else if str_eq(s, "PREEMPTIVE_COM_SETPARAMETERPROPERTIES") {
        return Some(WaitType::PREEMPTIVE_COM_SETPARAMETERPROPERTIES);
    } else if str_eq(s, "PREEMPTIVE_COM_STRMLOCKREGION") {
        return Some(WaitType::PREEMPTIVE_COM_STRMLOCKREGION);
    } else if str_eq(s, "PREEMPTIVE_COM_STRMSEEKANDREAD") {
        return Some(WaitType::PREEMPTIVE_COM_STRMSEEKANDREAD);
    } else if str_eq(s, "PREEMPTIVE_COM_STRMSEEKANDWRITE") {
        return Some(WaitType::PREEMPTIVE_COM_STRMSEEKANDWRITE);
    } else if str_eq(s, "PREEMPTIVE_COM_STRMSETSIZE") {
        return Some(WaitType::PREEMPTIVE_COM_STRMSETSIZE);
    } else if str_eq(s, "PREEMPTIVE_COM_STRMSTAT") {
        return Some(WaitType::PREEMPTIVE_COM_STRMSTAT);
    } else if str_eq(s, "PREEMPTIVE_COM_STRMUNLOCKREGION") {
        return Some(WaitType::PREEMPTIVE_COM_STRMUNLOCKREGION);
    }
    None
}

impl WaitType {
    /// The wait type with the name `s`; a name that is not listed gives
    /// `Unknown` with a copy of `s`.
    pub fn parse(s: &str) -> (r: WaitType)
        ensures
            r@ == s@,
            r is Unknown <==> !is_listed_wait_type(s@),
    {
        if let Some(w) = parse_listed_0(s) {
            proof {
                lemma_name_in_part_0(w);
            }
            return w;
        }
        if let Some(w) = parse_listed_1(s) {
            proof {
                lemma_name_in_part_1(w);
            }
            return w;
        }
        if let Some(w) = parse_listed_2(s) {
            proof {
                lemma_name_in_part_2(w);
            }
            return w;
        }
        if let Some(w) = parse_listed_3(s) {
            proof {
                lemma_name_in_part_3(w);
            }
            return w;
        }
        if let Some(w) = parse_listed_4(s) {
            proof {
                lemma_name_in_part_4(w);
            }
            return w;
        }
        if let Some(w) = parse_listed_5(s) {
            proof {
                lemma_name_in_part_5(w);
            }
            return w;
        }
        if let Some(w) = parse_listed_6(s) {
            proof {
                lemma_name_in_part_6(w);
            }
            return w;
        }
        if let Some(w) = parse_listed_7(s) {
            proof {
                lemma_name_in_part_7(w);
            }
            return w;
        }
        if let Some(w) = parse_listed_8(s) {
            proof {
                lemma_name_in_part_8(w);
            }
            return w;
        }
        if let Some(w) = parse_listed_9(s) {
            proof {
                lemma_name_in_part_9(w);
            }
            return w;
        }
        if let Some(w) = parse_listed_10(s) {
            proof {
                lemma_name_in_part_10(w);
            }
            return w;
        }
        if let Some(w) = parse_listed_11(s) {
            proof {
                lemma_name_in_part_11(w);
            }
            return w;
        }
        if let Some(w) = parse_listed_12(s) {
            proof {
                lemma_name_in_part_12(w);
            }
            return w;
        }
        if let Some(w) = parse_listed_13(s) {
            proof {
                lemma_name_in_part_13(w);
            }
            return w;
        }
        if let Some(w) = parse_listed_14(s) {
            proof {
                lemma_name_in_part_14(w);
            }
            return w;
        }
        if let Some(w) = parse_listed_15(s) {
            proof {
                lemma_name_in_part_15(w);
            }
            return w;
        }
        if let Some(w) = parse_listed_16(s) {
            proof {
                lemma_name_in_part_16(w);
            }
            return w;
        }
        if let Some(w) = parse_listed_17(s) {
            proof {
                lemma_name_in_part_17(w);
            }
            return w;
        }
        if let Some(w) = parse_listed_18(s) {
            proof {
                lemma_name_in_part_18(w);
            }
            return w;
        }
        if let Some(w) = parse_listed_19(s) {
            proof {
                lemma_name_in_part_19(w);
            }
            return w;
        }
        WaitType::Unknown(to_string(s))
    }
}

} // verus!
