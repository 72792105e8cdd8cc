//! The names of the SQL Server wait types as text.
use crate::parser::wait_type::WaitType;
use crate::parser::wait_type::wait_type_name;
use crate::parser::wait_type::in_part_0;
use crate::parser::wait_type::in_part_1;
use crate::parser::wait_type::in_part_2;
use crate::parser::wait_type::in_part_3;
use crate::parser::wait_type::in_part_4;
use crate::parser::wait_type::in_part_5;
use crate::parser::wait_type::in_part_6;
use crate::parser::wait_type::in_part_7;
use crate::parser::wait_type::in_part_8;
use crate::parser::wait_type::in_part_9;
use crate::parser::wait_type::in_part_10;
use crate::parser::wait_type::in_part_11;
use crate::parser::wait_type::in_part_12;
use crate::parser::wait_type::in_part_13;
use crate::parser::wait_type::in_part_14;
use crate::parser::wait_type::in_part_15;
use crate::parser::wait_type::in_part_16;
use crate::parser::wait_type::in_part_17;
use crate::parser::wait_type::in_part_18;
use crate::parser::wait_type::in_part_19;
use crate::parser::wait_type::listed_name_0;
use crate::parser::wait_type::listed_name_1;
use crate::parser::wait_type::listed_name_2;
use crate::parser::wait_type::listed_name_3;
use crate::parser::wait_type::listed_name_4;
use crate::parser::wait_type::listed_name_5;
use crate::parser::wait_type::listed_name_6;
use crate::parser::wait_type::listed_name_7;
use crate::parser::wait_type::listed_name_8;
use crate::parser::wait_type::listed_name_9;
use crate::parser::wait_type::listed_name_10;
use crate::parser::wait_type::listed_name_11;
use crate::parser::wait_type::listed_name_12;
use crate::parser::wait_type::listed_name_13;
use crate::parser::wait_type::listed_name_14;
use crate::parser::wait_type::listed_name_15;
use crate::parser::wait_type::listed_name_16;
use crate::parser::wait_type::listed_name_17;
use crate::parser::wait_type::listed_name_18;
use crate::parser::wait_type::listed_name_19;
use vstd::prelude::*;

verus! {

fn listed_as_str_0(w: &WaitType) -> (r: &'static str)
    requires
        *w !is Unknown,
    ensures
        r@ == wait_type_name(*w),
{
    proof {
        reveal(listed_name_0);
    }
    match w {
        WaitType::ABR => "ABR",
        WaitType::AM_INDBUILD_ALLOCATION => "AM_INDBUILD_ALLOCATION",
        WaitType::AM_SCHEMAMGR_UNSHARED_CACHE => "AM_SCHEMAMGR_UNSHARED_CACHE",
        WaitType::ASSEMBLY_FILTER_HASHTABLE => "ASSEMBLY_FILTER_HASHTABLE",
        WaitType::ASSEMBLY_LOAD => "ASSEMBLY_LOAD",
        WaitType::ASYNC_DISKPOOL_LOCK => "ASYNC_DISKPOOL_LOCK",
        WaitType::ASYNC_IO_COMPLETION => "ASYNC_IO_COMPLETION",
        WaitType::ASYNC_NETWORK_IO => "ASYNC_NETWORK_IO",
        WaitType::ASYNC_OP_COMPLETION => "ASYNC_OP_COMPLETION",
        WaitType::ASYNC_OP_CONTEXT_READ => "ASYNC_OP_CONTEXT_READ",
        WaitType::ASYNC_OP_CONTEXT_WRITE => "ASYNC_OP_CONTEXT_WRITE",
        WaitType::ASYNC_SOCKETDUP_IO => "ASYNC_SOCKETDUP_IO",
        WaitType::AUDIT_GROUPCACHE_LOCK => "AUDIT_GROUPCACHE_LOCK",
        WaitType::AUDIT_LOGINCACHE_LOCK => "AUDIT_LOGINCACHE_LOCK",
        WaitType::AUDIT_ON_DEMAND_TARGET_LOCK => "AUDIT_ON_DEMAND_TARGET_LOCK",
        WaitType::AUDIT_XE_SESSION_MGR => "AUDIT_XE_SESSION_MGR",
        WaitType::BACKUP => "BACKUP",
        WaitType::BACKUPBUFFER => "BACKUPBUFFER",
        WaitType::BACKUPIO => "BACKUPIO",
        WaitType::BACKUPTHREAD => "BACKUPTHREAD",
        WaitType::BACKUP_OPERATOR => "BACKUP_OPERATOR",
        WaitType::BAD_PAGE_PROCESS => "BAD_PAGE_PROCESS",
        WaitType::BLOB_METADATA => "BLOB_METADATA",
        WaitType::BMPALLOCATION => "BMPALLOCATION",
        WaitType::BMPBUILD => "BMPBUILD",
        WaitType::BMPREPARTITION => "BMPREPARTITION",
        WaitType::BMPREPLICATION => "BMPREPLICATION",
        WaitType::BPSORT => "BPSORT",
        WaitType::BROKER_CONNECTION_RECEIVE_TASK => "BROKER_CONNECTION_RECEIVE_TASK",
        WaitType::BROKER_DISPATCHER => "BROKER_DISPATCHER",
        WaitType::BROKER_ENDPOINT_STATE_MUTEX => "BROKER_ENDPOINT_STATE_MUTEX",
        WaitType::BROKER_EVENTHANDLER => "BROKER_EVENTHANDLER",
        WaitType::BROKER_FORWARDER => "BROKER_FORWARDER",
        WaitType::BROKER_INIT => "BROKER_INIT",
        WaitType::BROKER_MASTERSTART => "BROKER_MASTERSTART",
        WaitType::BROKER_RECEIVE_WAITFOR => "BROKER_RECEIVE_WAITFOR",
        WaitType::BROKER_REGISTERALLENDPOINTS => "BROKER_REGISTERALLENDPOINTS",
        WaitType::BROKER_SERVICE => "BROKER_SERVICE",
        WaitType::BROKER_SHUTDOWN => "BROKER_SHUTDOWN",
        WaitType::BROKER_START => "BROKER_START",
        WaitType::BROKER_TASK_SHUTDOWN => "BROKER_TASK_SHUTDOWN",
        WaitType::BROKER_TASK_STOP => "BROKER_TASK_STOP",
        WaitType::BROKER_TASK_SUBMIT => "BROKER_TASK_SUBMIT",
        WaitType::BROKER_TO_FLUSH => "BROKER_TO_FLUSH",
        WaitType::BROKER_TRANSMISSION_OBJECT => "BROKER_TRANSMISSION_OBJECT",
        WaitType::BROKER_TRANSMISSION_TABLE => "BROKER_TRANSMISSION_TABLE",
        WaitType::BROKER_TRANSMISSION_WORK => "BROKER_TRANSMISSION_WORK",
        WaitType::BROKER_TRANSMITTER => "BROKER_TRANSMITTER",
        WaitType::BUFFERPOOL_SCAN => "BUFFERPOOL_SCAN",
        WaitType::BUILTIN_HASHKEY_MUTEX => "BUILTIN_HASHKEY_MUTEX",
        _ => listed_as_str_1(w),
    }
}

fn listed_as_str_1(w: &WaitType) -> (r: &'static str)
    requires
        *w !is Unknown,
        !in_part_0(*w),
    ensures
        r@ == wait_type_name(*w),
{
    proof {
        reveal(listed_name_1);
    }
    match w {
        WaitType::CHANGE_TRACKING_WAITFORCHANGES => "CHANGE_TRACKING_WAITFORCHANGES",
        WaitType::CHECKPOINT_QUEUE => "CHECKPOINT_QUEUE",
        WaitType::CHECK_PRINT_RECORD => "CHECK_PRINT_RECORD",
        WaitType::CHECK_SCANNER_MUTEX => "CHECK_SCANNER_MUTEX",
        WaitType::CHECK_TABLES_INITIALIZATION => "CHECK_TABLES_INITIALIZATION",
        WaitType::CHECK_TABLES_SINGLE_SCAN => "CHECK_TABLES_SINGLE_SCAN",
        WaitType::CHECK_TABLES_THREAD_BARRIER => "CHECK_TABLES_THREAD_BARRIER",
        WaitType::CHKPT => "CHKPT",
        WaitType::CLEAR_DB => "CLEAR_DB",
        WaitType::CLRHOST_STATE_ACCESS => "CLRHOST_STATE_ACCESS",
        WaitType::CLR_AUTO_EVENT => "CLR_AUTO_EVENT",
        WaitType::CLR_CRST => "CLR_CRST",
        WaitType::CLR_JOIN => "CLR_JOIN",
        WaitType::CLR_MANUAL_EVENT => "CLR_MANUAL_EVENT",
        WaitType::CLR_MEMORY_SPY => "CLR_MEMORY_SPY",
        WaitType::CLR_MONITOR => "CLR_MONITOR",
        WaitType::CLR_RWLOCK_READER => "CLR_RWLOCK_READER",
        WaitType::CLR_RWLOCK_WRITER => "CLR_RWLOCK_WRITER",
        WaitType::CLR_SEMAPHORE => "CLR_SEMAPHORE",
        WaitType::CLR_TASK_START => "CLR_TASK_START",
        WaitType::CMEMPARTITIONED => "CMEMPARTITIONED",
        WaitType::CMEMTHREAD => "CMEMTHREAD",
        WaitType::COLUMNSTORE_BUILD_THROTTLE => "COLUMNSTORE_BUILD_THROTTLE",
        WaitType::COLUMNSTORE_COLUMNDATASET_SESSION_LIST => "COLUMNSTORE_COLUMNDATASET_SESSION_LIST",
        WaitType::COMMIT_TABLE => "COMMIT_TABLE",
        WaitType::CONNECTION_ENDPOINT_LOCK => "CONNECTION_ENDPOINT_LOCK",
        WaitType::COUNTRECOVERYMGR => "COUNTRECOVERYMGR",
        WaitType::CREATE_DATINISERVICE => "CREATE_DATINISERVICE",
        WaitType::CXCONSUMER => "CXCONSUMER",
        WaitType::CXPACKET => "CXPACKET",
        WaitType::CXROWSET_SYNC => "CXROWSET_SYNC",
        WaitType::CXSYNC_CONSUMER => "CXSYNC_CONSUMER",
        WaitType::CXSYNC_PORT => "CXSYNC_PORT",
        WaitType::DAC_INIT => "DAC_INIT",
        WaitType::DBCC_SCALE_OUT_EXPR_CACHE => "DBCC_SCALE_OUT_EXPR_CACHE",
        WaitType::DBMIRRORING_CMD => "DBMIRRORING_CMD",
        WaitType::DBMIRROR_DBM_EVENT => "DBMIRROR_DBM_EVENT",
        WaitType::DBMIRROR_DBM_MUTEX => "DBMIRROR_DBM_MUTEX",
        WaitType::DBMIRROR_EVENTS_QUEUE => "DBMIRROR_EVENTS_QUEUE",
        WaitType::DBMIRROR_SEND => "DBMIRROR_SEND",
        WaitType::DBMIRROR_WORKER_QUEUE => "DBMIRROR_WORKER_QUEUE",
        WaitType::DBSEEDING_FLOWCONTROL => "DBSEEDING_FLOWCONTROL",
        WaitType::DBSEEDING_OPERATION => "DBSEEDING_OPERATION",
        WaitType::DEADLOCK_ENUM_MUTEX => "DEADLOCK_ENUM_MUTEX",
        WaitType::DEADLOCK_TASK_SEARCH => "DEADLOCK_TASK_SEARCH",
        WaitType::DEBUG => "DEBUG",
        WaitType::DIRECTLOGCONSUMER_LIST => "DIRECTLOGCONSUMER_LIST",
        WaitType::DIRTY_PAGE_POLL => "DIRTY_PAGE_POLL",
        WaitType::DIRTY_PAGE_SYNC => "DIRTY_PAGE_SYNC",
        WaitType::DIRTY_PAGE_TABLE_LOCK => "DIRTY_PAGE_TABLE_LOCK",
        _ => listed_as_str_2(w),
    }
}

fn listed_as_str_2(w: &WaitType) -> (r: &'static str)
    requires
        *w !is Unknown,
        !in_part_0(*w),
        !in_part_1(*w),
    ensures
        r@ == wait_type_name(*w),
{
    proof {
        reveal(listed_name_2);
    }
    match w {
        WaitType::DISABLE_VERSIONING => "DISABLE_VERSIONING",
        WaitType::DISKIO_SUSPEND => "DISKIO_SUSPEND",
        WaitType::DISPATCHER_PRIORITY_QUEUE_SEMAPHORE => "DISPATCHER_PRIORITY_QUEUE_SEMAPHORE",
        WaitType::DISPATCHER_QUEUE_SEMAPHORE => "DISPATCHER_QUEUE_SEMAPHORE",
        WaitType::DLL_LOADING_MUTEX => "DLL_LOADING_MUTEX",
        WaitType::DPT_ENTRY_LOCK => "DPT_ENTRY_LOCK",
        WaitType::DROPTEMP => "DROPTEMP",
        WaitType::DROP_DATABASE_TIMER_TASK => "DROP_DATABASE_TIMER_TASK",
        WaitType::DTC => "DTC",
        WaitType::DTCNEW_ENLIST => "DTCNEW_ENLIST",
        WaitType::DTCNEW_PREPARE => "DTCNEW_PREPARE",
        WaitType::DTCNEW_RECOVERY => "DTCNEW_RECOVERY",
        WaitType::DTCNEW_TM => "DTCNEW_TM",
        WaitType::DTCNEW_TRANSACTION_ENLISTMENT => "DTCNEW_TRANSACTION_ENLISTMENT",
        WaitType::DTCPNTSYNC => "DTCPNTSYNC",
        WaitType::DTC_ABORT_REQUEST => "DTC_ABORT_REQUEST",
        WaitType::DTC_RESOLVE => "DTC_RESOLVE",
        WaitType::DTC_STATE => "DTC_STATE",
        WaitType::DTC_TMDOWN_REQUEST => "DTC_TMDOWN_REQUEST",
        WaitType::DTC_WAITFOR_OUTCOME => "DTC_WAITFOR_OUTCOME",
        WaitType::DUMPTRIGGER => "DUMPTRIGGER",
        WaitType::DUMP_LOG_COORDINATOR => "DUMP_LOG_COORDINATOR",
        WaitType::DUMP_LOG_COORDINATOR_QUEUE => "DUMP_LOG_COORDINATOR_QUEUE",
        WaitType::EC => "EC",
        WaitType::EE_PMOLOCK => "EE_PMOLOCK",
        WaitType::EE_SPECPROC_MAP_INIT => "EE_SPECPROC_MAP_INIT",
        WaitType::ENABLE_EMPTY_VERSIONING => "ENABLE_EMPTY_VERSIONING",
        WaitType::ENABLE_VERSIONING => "ENABLE_VERSIONING",
        WaitType::ERROR_REPORTING_MANAGER => "ERROR_REPORTING_MANAGER",
        WaitType::EXCHANGE => "EXCHANGE",
        WaitType::EXECSYNC => "EXECSYNC",
        WaitType::EXECUTION_PIPE_EVENT_INTERNAL => "EXECUTION_PIPE_EVENT_INTERNAL",
        WaitType::EXTERNAL_RG_UPDATE => "EXTERNAL_RG_UPDATE",
        WaitType::EXTERNAL_SCRIPT_NETWORK_IO => "EXTERNAL_SCRIPT_NETWORK_IO",
        WaitType::EXTERNAL_SCRIPT_PREPARE_SERVICE => "EXTERNAL_SCRIPT_PREPARE_SERVICE",
        WaitType::EXTERNAL_SCRIPT_SHUTDOWN => "EXTERNAL_SCRIPT_SHUTDOWN",
        WaitType::EXTERNAL_WAIT_ON_LAUNCHER => "EXTERNAL_WAIT_ON_LAUNCHER",
        WaitType::FABRIC_HADR_TRANSPORT_CONNECTION => "FABRIC_HADR_TRANSPORT_CONNECTION",
        WaitType::FABRIC_REPLICA_CONTROLLER_LIST => "FABRIC_REPLICA_CONTROLLER_LIST",
        WaitType::FABRIC_REPLICA_CONTROLLER_STATE_AND_CONFIG => "FABRIC_REPLICA_CONTROLLER_STATE_AND_CONFIG",
        WaitType::FABRIC_REPLICA_PUBLISHER_EVENT_PUBLISH => "FABRIC_REPLICA_PUBLISHER_EVENT_PUBLISH",
        WaitType::FABRIC_REPLICA_PUBLISHER_SUBSCRIBER_LIST => "FABRIC_REPLICA_PUBLISHER_SUBSCRIBER_LIST",
        WaitType::FABRIC_WAIT_FOR_BUILD_REPLICA_EVENT_PROCESSING => "FABRIC_WAIT_FOR_BUILD_REPLICA_EVENT_PROCESSING",
        WaitType::FAILPOINT => "FAILPOINT",
        WaitType::FCB_REPLICA_READ => "FCB_REPLICA_READ",
        WaitType::FCB_REPLICA_WRITE => "FCB_REPLICA_WRITE",
        WaitType::FEATURE_SWITCHES_UPDATE => "FEATURE_SWITCHES_UPDATE",
        WaitType::FFT_NSO_DB_KILL_FLAG => "FFT_NSO_DB_KILL_FLAG",
        WaitType::FFT_NSO_DB_LIST => "FFT_NSO_DB_LIST",
        WaitType::FFT_NSO_FCB => "FFT_NSO_FCB",
        _ => listed_as_str_3(w),
    }
}

fn listed_as_str_3(w: &WaitType) -> (r: &'static str)
    requires
        *w !is Unknown,
        !in_part_0(*w),
        !in_part_1(*w),
        !in_part_2(*w),
    ensures
        r@ == wait_type_name(*w),
{
    proof {
        reveal(listed_name_3);
    }
    match w {
        WaitType::FFT_NSO_FCB_FIND => "FFT_NSO_FCB_FIND",
        WaitType::FFT_NSO_FCB_PARENT => "FFT_NSO_FCB_PARENT",
        WaitType::FFT_NSO_FCB_RELEASE_CACHED_ENTRIES => "FFT_NSO_FCB_RELEASE_CACHED_ENTRIES",
        WaitType::FFT_NSO_FCB_STATE => "FFT_NSO_FCB_STATE",
        WaitType::FFT_NSO_FILEOBJECT => "FFT_NSO_FILEOBJECT",
        WaitType::FFT_NSO_TABLE_LIST => "FFT_NSO_TABLE_LIST",
        WaitType::FFT_NTFS_STORE => "FFT_NTFS_STORE",
        WaitType::FFT_RECOVERY => "FFT_RECOVERY",
        WaitType::FFT_RSFX_COMM => "FFT_RSFX_COMM",
        WaitType::FFT_RSFX_WAIT_FOR_MEMORY => "FFT_RSFX_WAIT_FOR_MEMORY",
        WaitType::FFT_STARTUP_SHUTDOWN => "FFT_STARTUP_SHUTDOWN",
        WaitType::FFT_STORE_DB => "FFT_STORE_DB",
        WaitType::FFT_STORE_ROWSET_LIST => "FFT_STORE_ROWSET_LIST",
        WaitType::FFT_STORE_TABLE => "FFT_STORE_TABLE",
        WaitType::FILESTREAM_CACHE => "FILESTREAM_CACHE",
        WaitType::FILESTREAM_CHUNKER => "FILESTREAM_CHUNKER",
        WaitType::FILESTREAM_CHUNKER_INIT => "FILESTREAM_CHUNKER_INIT",
        WaitType::FILESTREAM_FCB => "FILESTREAM_FCB",
        WaitType::FILESTREAM_FILE_OBJECT => "FILESTREAM_FILE_OBJECT",
        WaitType::FILESTREAM_WORKITEM_QUEUE => "FILESTREAM_WORKITEM_QUEUE",
        WaitType::FILETABLE_SHUTDOWN => "FILETABLE_SHUTDOWN",
        WaitType::FILE_VALIDATION_THREADS => "FILE_VALIDATION_THREADS",
        WaitType::FOREIGN_REDO => "FOREIGN_REDO",
        WaitType::FORWARDER_TRANSITION => "FORWARDER_TRANSITION",
        WaitType::FSAGENT => "FSAGENT",
        WaitType::FSA_FORCE_OWN_XACT => "FSA_FORCE_OWN_XACT",
        WaitType::FSTR_CONFIG_MUTEX => "FSTR_CONFIG_MUTEX",
        WaitType::FSTR_CONFIG_RWLOCK => "FSTR_CONFIG_RWLOCK",
        WaitType::FS_FC_RWLOCK => "FS_FC_RWLOCK",
        WaitType::FS_GARBAGE_COLLECTOR_SHUTDOWN => "FS_GARBAGE_COLLECTOR_SHUTDOWN",
        WaitType::FS_HEADER_RWLOCK => "FS_HEADER_RWLOCK",
        WaitType::FS_LOGTRUNC_RWLOCK => "FS_LOGTRUNC_RWLOCK",
        WaitType::FT_COMPROWSET_RWLOCK => "FT_COMPROWSET_RWLOCK",
        WaitType::FT_IFTSHC_MUTEX => "FT_IFTSHC_MUTEX",
        WaitType::FT_IFTSISM_MUTEX => "FT_IFTSISM_MUTEX",
        WaitType::FT_IFTS_ASYNC_WRITE_PIPE => "FT_IFTS_ASYNC_WRITE_PIPE",
        WaitType::FT_IFTS_BLOB_HASH => "FT_IFTS_BLOB_HASH",
        WaitType::FT_IFTS_CATEALOG_SOURCE => "FT_IFTS_CATEALOG_SOURCE",
        WaitType::FT_IFTS_CHUNK_BUFFER_CLIENT_MANAGER => "FT_IFTS_CHUNK_BUFFER_CLIENT_MANAGER",
        WaitType::FT_IFTS_CHUNK_BUFFER_PROTO_WORD_LIST => "FT_IFTS_CHUNK_BUFFER_PROTO_WORD_LIST",
        WaitType::FT_IFTS_COMP_DESC_MANAGER => "FT_IFTS_COMP_DESC_MANAGER",
        WaitType::FT_IFTS_CONSUMER_PLUGIN => "FT_IFTS_CONSUMER_PLUGIN",
        WaitType::FT_IFTS_CRAWL_BATCH_LIST => "FT_IFTS_CRAWL_BATCH_LIST",
        WaitType::FT_IFTS_CRAWL_CHILDREN => "FT_IFTS_CRAWL_CHILDREN",
        WaitType::FT_IFTS_DOCID_INTERFACE_LIST => "FT_IFTS_DOCID_INTERFACE_LIST",
        WaitType::FT_IFTS_DOCID_LIST => "FT_IFTS_DOCID_LIST",
        WaitType::FT_IFTS_FP_INFO_LIST => "FT_IFTS_FP_INFO_LIST",
        WaitType::FT_IFTS_HOST_CONTROLLER => "FT_IFTS_HOST_CONTROLLER",
        WaitType::FT_IFTS_MASTER_MERGE_TASK_LIST => "FT_IFTS_MASTER_MERGE_TASK_LIST",
        WaitType::FT_IFTS_MEMREGPOOL => "FT_IFTS_MEMREGPOOL",
        _ => listed_as_str_4(w),
    }
}

fn listed_as_str_4(w: &WaitType) -> (r: &'static str)
    requires
        *w !is Unknown,
        !in_part_0(*w),
        !in_part_1(*w),
        !in_part_2(*w),
        !in_part_3(*w),
    ensures
        r@ == wait_type_name(*w),
{
    proof {
        reveal(listed_name_4);
    }
    match w {
        WaitType::FT_IFTS_MERGE_FRAGMENT_SYNC => "FT_IFTS_MERGE_FRAGMENT_SYNC",
        WaitType::FT_IFTS_NOISE_WORDS_COLLECTION_CACHE => "FT_IFTS_NOISE_WORDS_COLLECTION_CACHE",
        WaitType::FT_IFTS_NOISE_WORDS_RESOURCE => "FT_IFTS_NOISE_WORDS_RESOURCE",
        WaitType::FT_IFTS_OCCURRENCE_BUFFER_POOL => "FT_IFTS_OCCURRENCE_BUFFER_POOL",
        WaitType::FT_IFTS_PIPELINE => "FT_IFTS_PIPELINE",
        WaitType::FT_IFTS_PIPELINE_LIST => "FT_IFTS_PIPELINE_LIST",
        WaitType::FT_IFTS_PIPELINE_MANAGER => "FT_IFTS_PIPELINE_MANAGER",
        WaitType::FT_IFTS_PROJECT_FD_INFO_MAP => "FT_IFTS_PROJECT_FD_INFO_MAP",
        WaitType::FT_IFTS_RWLOCK => "FT_IFTS_RWLOCK",
        WaitType::FT_IFTS_SCHEDULER => "FT_IFTS_SCHEDULER",
        WaitType::FT_IFTS_SCHEDULER_IDLE_WAIT => "FT_IFTS_SCHEDULER_IDLE_WAIT",
        WaitType::FT_IFTS_SHARED_MEMORY => "FT_IFTS_SHARED_MEMORY",
        WaitType::FT_IFTS_SHUTDOWN_PIPE => "FT_IFTS_SHUTDOWN_PIPE",
        WaitType::FT_IFTS_SRCH_FD_MANAGER => "FT_IFTS_SRCH_FD_MANAGER",
        WaitType::FT_IFTS_SRCH_FD_SERVICE => "FT_IFTS_SRCH_FD_SERVICE",
        WaitType::FT_IFTS_STOPLIST_CACHE_MANAGER => "FT_IFTS_STOPLIST_CACHE_MANAGER",
        WaitType::FT_IFTS_THESAURUS => "FT_IFTS_THESAURUS",
        WaitType::FT_IFTS_VERSION_MANAGER => "FT_IFTS_VERSION_MANAGER",
        WaitType::FT_IFTS_WORK_QUEUE => "FT_IFTS_WORK_QUEUE",
        WaitType::FT_MASTER_MERGE => "FT_MASTER_MERGE",
        WaitType::FT_MASTER_MERGE_COORDINATOR => "FT_MASTER_MERGE_COORDINATOR",
        WaitType::FT_METADATA_MUTEX => "FT_METADATA_MUTEX",
        WaitType::FT_PROPERTYLIST_CACHE => "FT_PROPERTYLIST_CACHE",
        WaitType::FT_RESTART_CRAWL => "FT_RESTART_CRAWL",
        WaitType::FULLTEXT_GATHERER => "FULLTEXT GATHERER",
        WaitType::GDMA_GET_RESOURCE_OWNER => "GDMA_GET_RESOURCE_OWNER",
        WaitType::GHOSTCLEANUPSYNCMGR => "GHOSTCLEANUPSYNCMGR",
        WaitType::GHOSTCLEANUP_UPDATE_STATS => "GHOSTCLEANUP_UPDATE_STATS",
        WaitType::GLOBAL_QUERY_CANCEL => "GLOBAL_QUERY_CANCEL",
        WaitType::GLOBAL_QUERY_CLOSE => "GLOBAL_QUERY_CLOSE",
        WaitType::GLOBAL_QUERY_CONSUMER => "GLOBAL_QUERY_CONSUMER",
        WaitType::GLOBAL_QUERY_PRODUCER => "GLOBAL_QUERY_PRODUCER",
        WaitType::GLOBAL_TRAN_CREATE => "GLOBAL_TRAN_CREATE",
        WaitType::GLOBAL_TRAN_UCS_SESSION => "GLOBAL_TRAN_UCS_SESSION",
        WaitType::GUARDIAN => "GUARDIAN",
        WaitType::HADR_AG_MUTEX => "HADR_AG_MUTEX",
        WaitType::HADR_ARCONTROLLER_NOTIFICATIONS_SUBSCRIBER_LIST => "HADR_ARCONTROLLER_NOTIFICATIONS_SUBSCRIBER_LIST",
        WaitType::HADR_AR_CRITICAL_SECTION_ENTRY => "HADR_AR_CRITICAL_SECTION_ENTRY",
        WaitType::HADR_AR_MANAGER_MUTEX => "HADR_AR_MANAGER_MUTEX",
        WaitType::HADR_AR_UNLOAD_COMPLETED => "HADR_AR_UNLOAD_COMPLETED",
        WaitType::HADR_BACKUP_BULK_LOCK => "HADR_BACKUP_BULK_LOCK",
        WaitType::HADR_BACKUP_QUEUE => "HADR_BACKUP_QUEUE",
        WaitType::HADR_CLUSAPI_CALL => "HADR_CLUSAPI_CALL",
        WaitType::HADR_COMPRESSED_CACHE_SYNC => "HADR_COMPRESSED_CACHE_SYNC",
        WaitType::HADR_CONNECTIVITY_INFO => "HADR_CONNECTIVITY_INFO",
        WaitType::HADR_DATABASE_FLOW_CONTROL => "HADR_DATABASE_FLOW_CONTROL",
        WaitType::HADR_DATABASE_VERSIONING_STATE => "HADR_DATABASE_VERSIONING_STATE",
        WaitType::HADR_DATABASE_WAIT_FOR_RECOVERY => "HADR_DATABASE_WAIT_FOR_RECOVERY",
        WaitType::HADR_DATABASE_WAIT_FOR_RESTART => "HADR_DATABASE_WAIT_FOR_RESTART",
        WaitType::HADR_DATABASE_WAIT_FOR_TRANSITION_TO_VERSIONING => "HADR_DATABASE_WAIT_FOR_TRANSITION_TO_VERSIONING",
        _ => listed_as_str_5(w),
    }
}

fn listed_as_str_5(w: &WaitType) -> (r: &'static str)
    requires
        *w !is Unknown,
        !in_part_0(*w),
        !in_part_1(*w),
        !in_part_2(*w),
        !in_part_3(*w),
        !in_part_4(*w),
    ensures
        r@ == wait_type_name(*w),
{
    proof {
        reveal(listed_name_5);
    }
    match w {
        WaitType::HADR_DBR_SUBSCRIBER => "HADR_DBR_SUBSCRIBER",
        WaitType::HADR_DBR_SUBSCRIBER_FILTER_LIST => "HADR_DBR_SUBSCRIBER_FILTER_LIST",
        WaitType::HADR_DBSEEDING => "HADR_DBSEEDING",
        WaitType::HADR_DBSEEDING_LIST => "HADR_DBSEEDING_LIST",
        WaitType::HADR_DBSTATECHANGE_SYNC => "HADR_DBSTATECHANGE_SYNC",
        WaitType::HADR_DB_COMMAND => "HADR_DB_COMMAND",
        WaitType::HADR_DB_OP_COMPLETION_SYNC => "HADR_DB_OP_COMPLETION_SYNC",
        WaitType::HADR_DB_OP_START_SYNC => "HADR_DB_OP_START_SYNC",
        WaitType::HADR_FABRIC_CALLBACK => "HADR_FABRIC_CALLBACK",
        WaitType::HADR_FILESTREAM_BLOCK_FLUSH => "HADR_FILESTREAM_BLOCK_FLUSH",
        WaitType::HADR_FILESTREAM_FILE_CLOSE => "HADR_FILESTREAM_FILE_CLOSE",
        WaitType::HADR_FILESTREAM_FILE_REQUEST => "HADR_FILESTREAM_FILE_REQUEST",
        WaitType::HADR_FILESTREAM_IOMGR => "HADR_FILESTREAM_IOMGR",
        WaitType::HADR_FILESTREAM_IOMGR_IOCOMPLETION => "HADR_FILESTREAM_IOMGR_IOCOMPLETION",
        WaitType::HADR_FILESTREAM_MANAGER => "HADR_FILESTREAM_MANAGER",
        WaitType::HADR_FILESTREAM_PREPROC => "HADR_FILESTREAM_PREPROC",
        WaitType::HADR_GROUP_COMMIT => "HADR_GROUP_COMMIT",
        WaitType::HADR_LOGCAPTURE_SYNC => "HADR_LOGCAPTURE_SYNC",
        WaitType::HADR_LOGCAPTURE_WAIT => "HADR_LOGCAPTURE_WAIT",
        WaitType::HADR_LOGPROGRESS_SYNC => "HADR_LOGPROGRESS_SYNC",
        WaitType::HADR_NOTIFICATION_DEQUEUE => "HADR_NOTIFICATION_DEQUEUE",
        WaitType::HADR_NOTIFICATION_WORKER_EXCLUSIVE_ACCESS => "HADR_NOTIFICATION_WORKER_EXCLUSIVE_ACCESS",
        WaitType::HADR_NOTIFICATION_WORKER_STARTUP_SYNC => "HADR_NOTIFICATION_WORKER_STARTUP_SYNC",
        WaitType::HADR_NOTIFICATION_WORKER_TERMINATION_SYNC => "HADR_NOTIFICATION_WORKER_TERMINATION_SYNC",
        WaitType::HADR_PARTNER_SYNC => "HADR_PARTNER_SYNC",
        WaitType::HADR_READ_ALL_NETWORKS => "HADR_READ_ALL_NETWORKS",
        WaitType::HADR_RECOVERY_WAIT_FOR_CONNECTION => "HADR_RECOVERY_WAIT_FOR_CONNECTION",
        WaitType::HADR_RECOVERY_WAIT_FOR_UNDO => "HADR_RECOVERY_WAIT_FOR_UNDO",
        WaitType::HADR_REPLICAINFO_SYNC => "HADR_REPLICAINFO_SYNC",
        WaitType::HADR_SEEDING_CANCELLATION => "HADR_SEEDING_CANCELLATION",
        WaitType::HADR_SEEDING_FILE_LIST => "HADR_SEEDING_FILE_LIST",
        WaitType::HADR_SEEDING_LIMIT_BACKUPS => "HADR_SEEDING_LIMIT_BACKUPS",
        WaitType::HADR_SEEDING_SYNC_COMPLETION => "HADR_SEEDING_SYNC_COMPLETION",
        WaitType::HADR_SEEDING_TIMEOUT_TASK => "HADR_SEEDING_TIMEOUT_TASK",
        WaitType::HADR_SEEDING_WAIT_FOR_COMPLETION => "HADR_SEEDING_WAIT_FOR_COMPLETION",
        WaitType::HADR_SYNCHRONIZING_THROTTLE => "HADR_SYNCHRONIZING_THROTTLE",
        WaitType::HADR_SYNC_COMMIT => "HADR_SYNC_COMMIT",
        WaitType::HADR_TDS_LISTENER_SYNC => "HADR_TDS_LISTENER_SYNC",
        WaitType::HADR_TDS_LISTENER_SYNC_PROCESSING => "HADR_TDS_LISTENER_SYNC_PROCESSING",
        WaitType::HADR_THROTTLE_LOG_RATE_GOVERNOR => "HADR_THROTTLE_LOG_RATE_GOVERNOR",
        WaitType::HADR_THROTTLE_LOG_RATE_LOG_SIZE => "HADR_THROTTLE_LOG_RATE_LOG_SIZE",
        WaitType::HADR_THROTTLE_LOG_RATE_MISMATCHED_SLO => "HADR_THROTTLE_LOG_RATE_MISMATCHED_SLO",
        WaitType::HADR_THROTTLE_LOG_RATE_SEEDING => "HADR_THROTTLE_LOG_RATE_SEEDING",
        WaitType::HADR_THROTTLE_LOG_RATE_SEND_RECV_QUEUE_SIZE => "HADR_THROTTLE_LOG_RATE_SEND_RECV_QUEUE_SIZE",
        WaitType::HADR_TIMER_TASK => "HADR_TIMER_TASK",
        WaitType::HADR_TRANSPORT_DBRLIST => "HADR_TRANSPORT_DBRLIST",
        WaitType::HADR_TRANSPORT_FLOW_CONTROL => "HADR_TRANSPORT_FLOW_CONTROL",
        WaitType::HADR_TRANSPORT_SESSION => "HADR_TRANSPORT_SESSION",
        WaitType::HADR_WORK_POOL => "HADR_WORK_POOL",
        WaitType::HADR_WORK_QUEUE => "HADR_WORK_QUEUE",
        _ => listed_as_str_6(w),
    }
}

fn listed_as_str_6(w: &WaitType) -> (r: &'static str)
    requires
        *w !is Unknown,
        !in_part_0(*w),
        !in_part_1(*w),
        !in_part_2(*w),
        !in_part_3(*w),
        !in_part_4(*w),
        !in_part_5(*w),
    ensures
        r@ == wait_type_name(*w),
{
    proof {
        reveal(listed_name_6);
    }
    match w {
        WaitType::HADR_XRF_STACK_ACCESS => "HADR_XRF_STACK_ACCESS",
        WaitType::HCCO_CACHE => "HCCO_CACHE",
        WaitType::HKCS_PARALLEL_MIGRATION => "HKCS_PARALLEL_MIGRATION",
        WaitType::HKCS_PARALLEL_RECOVERY => "HKCS_PARALLEL_RECOVERY",
        WaitType::HK_RESTORE_FILEMAP => "HK_RESTORE_FILEMAP",
        WaitType::HTBUILD => "HTBUILD",
        WaitType::HTBUILD_AGG => "HTBUILD_AGG",
        WaitType::HTBUILD_JOIN => "HTBUILD_JOIN",
        WaitType::HTDELETE => "HTDELETE",
        WaitType::HTDELETE_AGG => "HTDELETE_AGG",
        WaitType::HTDELETE_JOIN => "HTDELETE_JOIN",
        WaitType::HTMEMO => "HTMEMO",
        WaitType::HTREINIT => "HTREINIT",
        WaitType::HTREPARTITION => "HTREPARTITION",
        WaitType::HTTP_ENUMERATION => "HTTP_ENUMERATION",
        WaitType::HTTP_START => "HTTP_START",
        WaitType::HTTP_STORAGE_CONNECTION => "HTTP_STORAGE_CONNECTION",
        WaitType::IMPPROV_IOWAIT => "IMPPROV_IOWAIT",
        WaitType::INSTANCE_LOG_RATE_GOVERNOR => "INSTANCE_LOG_RATE_GOVERNOR",
        WaitType::INTERNAL_TESTING => "INTERNAL_TESTING",
        WaitType::IOAFF_RANGE_QUEUE => "IOAFF_RANGE_QUEUE",
        WaitType::IO_AUDIT_MUTEX => "IO_AUDIT_MUTEX",
        WaitType::IO_COMPLETION => "IO_COMPLETION",
        WaitType::IO_QUEUE_LIMIT => "IO_QUEUE_LIMIT",
        WaitType::IO_RETRY => "IO_RETRY",
        WaitType::KSOURCE_WAKEUP => "KSOURCE_WAKEUP",
        WaitType::KTM_ENLISTMENT => "KTM_ENLISTMENT",
        WaitType::KTM_RECOVERY_MANAGER => "KTM_RECOVERY_MANAGER",
        WaitType::KTM_RECOVERY_RESOLUTION => "KTM_RECOVERY_RESOLUTION",
        WaitType::LATCH_DT => "LATCH_DT",
        WaitType::LATCH_EX => "LATCH_EX",
        WaitType::LATCH_KP => "LATCH_KP",
        WaitType::LATCH_NL => "LATCH_NL",
        WaitType::LATCH_SH => "LATCH_SH",
        WaitType::LATCH_UP => "LATCH_UP",
        WaitType::LAZYWRITER_SLEEP => "LAZYWRITER_SLEEP",
        WaitType::LCK_M_BU => "LCK_M_BU",
        WaitType::LCK_M_BU_ABORT_BLOCKERS => "LCK_M_BU_ABORT_BLOCKERS",
        WaitType::LCK_M_BU_LOW_PRIORITY => "LCK_M_BU_LOW_PRIORITY",
        WaitType::LCK_M_IS => "LCK_M_IS",
        WaitType::LCK_M_IS_ABORT_BLOCKERS => "LCK_M_IS_ABORT_BLOCKERS",
        WaitType::LCK_M_IS_LOW_PRIORITY => "LCK_M_IS_LOW_PRIORITY",
        WaitType::LCK_M_IU => "LCK_M_IU",
        WaitType::LCK_M_IU_ABORT_BLOCKERS => "LCK_M_IU_ABORT_BLOCKERS",
        WaitType::LCK_M_IU_LOW_PRIORITY => "LCK_M_IU_LOW_PRIORITY",
        WaitType::LCK_M_IX => "LCK_M_IX",
        WaitType::LCK_M_IX_ABORT_BLOCKERS => "LCK_M_IX_ABORT_BLOCKERS",
        WaitType::LCK_M_IX_LOW_PRIORITY => "LCK_M_IX_LOW_PRIORITY",
        WaitType::LCK_M_RIn_NL => "LCK_M_RIn_NL",
        WaitType::LCK_M_RIn_NL_ABORT_BLOCKERS => "LCK_M_RIn_NL_ABORT_BLOCKERS",
        _ => listed_as_str_7(w),
    }
}

fn listed_as_str_7(w: &WaitType) -> (r: &'static str)
    requires
        *w !is Unknown,
        !in_part_0(*w),
        !in_part_1(*w),
        !in_part_2(*w),
        !in_part_3(*w),
        !in_part_4(*w),
        !in_part_5(*w),
        !in_part_6(*w),
    ensures
        r@ == wait_type_name(*w),
{
    proof {
        reveal(listed_name_7);
    }
    match w {
        WaitType::LCK_M_RIn_NL_LOW_PRIORITY => "LCK_M_RIn_NL_LOW_PRIORITY",
        WaitType::LCK_M_RIn_S => "LCK_M_RIn_S",
        WaitType::LCK_M_RIn_S_ABORT_BLOCKERS => "LCK_M_RIn_S_ABORT_BLOCKERS",
        WaitType::LCK_M_RIn_S_LOW_PRIORITY => "LCK_M_RIn_S_LOW_PRIORITY",
        WaitType::LCK_M_RIn_U => "LCK_M_RIn_U",
        WaitType::LCK_M_RIn_U_ABORT_BLOCKERS => "LCK_M_RIn_U_ABORT_BLOCKERS",
        WaitType::LCK_M_RIn_U_LOW_PRIORITY => "LCK_M_RIn_U_LOW_PRIORITY",
        WaitType::LCK_M_RIn_X => "LCK_M_RIn_X",
        WaitType::LCK_M_RIn_X_ABORT_BLOCKERS => "LCK_M_RIn_X_ABORT_BLOCKERS",
        WaitType::LCK_M_RIn_X_LOW_PRIORITY => "LCK_M_RIn_X_LOW_PRIORITY",
        WaitType::LCK_M_RS_S => "LCK_M_RS_S",
        WaitType::LCK_M_RS_S_ABORT_BLOCKERS => "LCK_M_RS_S_ABORT_BLOCKERS",
        WaitType::LCK_M_RS_S_LOW_PRIORITY => "LCK_M_RS_S_LOW_PRIORITY",
        WaitType::LCK_M_RS_U => "LCK_M_RS_U",
        WaitType::LCK_M_RS_U_ABORT_BLOCKERS => "LCK_M_RS_U_ABORT_BLOCKERS",
        WaitType::LCK_M_RS_U_LOW_PRIORITY => "LCK_M_RS_U_LOW_PRIORITY",
        WaitType::LCK_M_RX_S => "LCK_M_RX_S",
        WaitType::LCK_M_RX_S_ABORT_BLOCKERS => "LCK_M_RX_S_ABORT_BLOCKERS",
        WaitType::LCK_M_RX_S_LOW_PRIORITY => "LCK_M_RX_S_LOW_PRIORITY",
        WaitType::LCK_M_RX_U => "LCK_M_RX_U",
        WaitType::LCK_M_RX_U_ABORT_BLOCKERS => "LCK_M_RX_U_ABORT_BLOCKERS",
        WaitType::LCK_M_RX_U_LOW_PRIORITY => "LCK_M_RX_U_LOW_PRIORITY",
        WaitType::LCK_M_RX_X => "LCK_M_RX_X",
        WaitType::LCK_M_RX_X_ABORT_BLOCKERS => "LCK_M_RX_X_ABORT_BLOCKERS",
        WaitType::LCK_M_RX_X_LOW_PRIORITY => "LCK_M_RX_X_LOW_PRIORITY",
        WaitType::LCK_M_S => "LCK_M_S",
        WaitType::LCK_M_SCH_M => "LCK_M_SCH_M",
        WaitType::LCK_M_SCH_M_ABORT_BLOCKERS => "LCK_M_SCH_M_ABORT_BLOCKERS",
        WaitType::LCK_M_SCH_M_LOW_PRIORITY => "LCK_M_SCH_M_LOW_PRIORITY",
        WaitType::LCK_M_SCH_S => "LCK_M_SCH_S",
        WaitType::LCK_M_SCH_S_ABORT_BLOCKERS => "LCK_M_SCH_S_ABORT_BLOCKERS",
        WaitType::LCK_M_SCH_S_LOW_PRIORITY => "LCK_M_SCH_S_LOW_PRIORITY",
        WaitType::LCK_M_SIU => "LCK_M_SIU",
        WaitType::LCK_M_SIU_ABORT_BLOCKERS => "LCK_M_SIU_ABORT_BLOCKERS",
        WaitType::LCK_M_SIU_LOW_PRIORITY => "LCK_M_SIU_LOW_PRIORITY",
        WaitType::LCK_M_SIX => "LCK_M_SIX",
        WaitType::LCK_M_SIX_ABORT_BLOCKERS => "LCK_M_SIX_ABORT_BLOCKERS",
        WaitType::LCK_M_SIX_LOW_PRIORITY => "LCK_M_SIX_LOW_PRIORITY",
        WaitType::LCK_M_S_ABORT_BLOCKERS => "LCK_M_S_ABORT_BLOCKERS",
        WaitType::LCK_M_S_LOW_PRIORITY => "LCK_M_S_LOW_PRIORITY",
        WaitType::LCK_M_S_XACT => "LCK_M_S_XACT",
        WaitType::LCK_M_S_XACT_MODIFY => "LCK_M_S_XACT_MODIFY",
        WaitType::LCK_M_S_XACT_READ => "LCK_M_S_XACT_READ",
        WaitType::LCK_M_U => "LCK_M_U",
        WaitType::LCK_M_UIX => "LCK_M_UIX",
        WaitType::LCK_M_UIX_ABORT_BLOCKERS => "LCK_M_UIX_ABORT_BLOCKERS",
        WaitType::LCK_M_UIX_LOW_PRIORITY => "LCK_M_UIX_LOW_PRIORITY",
        WaitType::LCK_M_U_ABORT_BLOCKERS => "LCK_M_U_ABORT_BLOCKERS",
        WaitType::LCK_M_U_LOW_PRIORITY => "LCK_M_U_LOW_PRIORITY",
        WaitType::LCK_M_X => "LCK_M_X",
        _ => listed_as_str_8(w),
    }
}

fn listed_as_str_8(w: &WaitType) -> (r: &'static str)
    requires
        *w !is Unknown,
        !in_part_0(*w),
        !in_part_1(*w),
        !in_part_2(*w),
        !in_part_3(*w),
        !in_part_4(*w),
        !in_part_5(*w),
        !in_part_6(*w),
        !in_part_7(*w),
    ensures
        r@ == wait_type_name(*w),
{
    proof {
        reveal(listed_name_8);
    }
    match w {
        WaitType::LCK_M_X_ABORT_BLOCKERS => "LCK_M_X_ABORT_BLOCKERS",
        WaitType::LCK_M_X_LOW_PRIORITY => "LCK_M_X_LOW_PRIORITY",
        WaitType::LOGBUFFER => "LOGBUFFER",
        WaitType::LOGCAPTURE_LOGPOOLTRUNCPOINT => "LOGCAPTURE_LOGPOOLTRUNCPOINT",
        WaitType::LOGGENERATION => "LOGGENERATION",
        WaitType::LOGMGR => "LOGMGR",
        WaitType::LOGMGR_FLUSH => "LOGMGR_FLUSH",
        WaitType::LOGMGR_PMM_LOG => "LOGMGR_PMM_LOG",
        WaitType::LOGMGR_QUEUE => "LOGMGR_QUEUE",
        WaitType::LOGMGR_RESERVE_APPEND => "LOGMGR_RESERVE_APPEND",
        WaitType::LOGPOOLREFCOUNTEDOBJECT_REFDONE => "LOGPOOLREFCOUNTEDOBJECT_REFDONE",
        WaitType::LOGPOOL_CACHESIZE => "LOGPOOL_CACHESIZE",
        WaitType::LOGPOOL_CONSUMER => "LOGPOOL_CONSUMER",
        WaitType::LOGPOOL_CONSUMERSET => "LOGPOOL_CONSUMERSET",
        WaitType::LOGPOOL_FREEPOOLS => "LOGPOOL_FREEPOOLS",
        WaitType::LOGPOOL_MGRSET => "LOGPOOL_MGRSET",
        WaitType::LOGPOOL_REPLACEMENTSET => "LOGPOOL_REPLACEMENTSET",
        WaitType::LOG_POOL_SCAN => "LOG_POOL_SCAN",
        WaitType::LOG_RATE_GOVERNOR => "LOG_RATE_GOVERNOR",
        WaitType::LOWFAIL_MEMMGR_QUEUE => "LOWFAIL_MEMMGR_QUEUE",
        WaitType::MD_AGENT_YIELD => "MD_AGENT_YIELD",
        WaitType::MD_LAZYCACHE_RWLOCK => "MD_LAZYCACHE_RWLOCK",
        WaitType::MEMORY_ALLOCATION_EXT => "MEMORY_ALLOCATION_EXT",
        WaitType::MEMORY_GRANT_UPDATE => "MEMORY_GRANT_UPDATE",
        WaitType::METADATA_LAZYCACHE_RWLOCK => "METADATA_LAZYCACHE_RWLOCK",
        WaitType::MIGRATIONBUFFER => "MIGRATIONBUFFER",
        WaitType::MISCELLANEOUS => "MISCELLANEOUS",
        WaitType::MSQL_DQ => "MSQL_DQ",
        WaitType::MSQL_XACT_MGR_MUTEX => "MSQL_XACT_MGR_MUTEX",
        WaitType::MSQL_XACT_MUTEX => "MSQL_XACT_MUTEX",
        WaitType::MSQL_XP => "MSQL_XP",
        WaitType::MSSEARCH => "MSSEARCH",
        WaitType::NETWORKSXMLMGRLOAD => "NETWORKSXMLMGRLOAD",
        WaitType::NET_WAITFOR_PACKET => "NET_WAITFOR_PACKET",
        WaitType::NODE_CACHE_MUTEX => "NODE_CACHE_MUTEX",
        WaitType::OLEDB => "OLEDB",
        WaitType::ONDEMAND_TASK_QUEUE => "ONDEMAND_TASK_QUEUE",
        WaitType::PAGEIOLATCH_DT => "PAGEIOLATCH_DT",
        WaitType::PAGEIOLATCH_EX => "PAGEIOLATCH_EX",
        WaitType::PAGEIOLATCH_KP => "PAGEIOLATCH_KP",
        WaitType::PAGEIOLATCH_NL => "PAGEIOLATCH_NL",
        WaitType::PAGEIOLATCH_SH => "PAGEIOLATCH_SH",
        WaitType::PAGEIOLATCH_UP => "PAGEIOLATCH_UP",
        WaitType::PAGELATCH_DT => "PAGELATCH_DT",
        WaitType::PAGELATCH_EX => "PAGELATCH_EX",
        WaitType::PAGELATCH_KP => "PAGELATCH_KP",
        WaitType::PAGELATCH_NL => "PAGELATCH_NL",
        WaitType::PAGELATCH_SH => "PAGELATCH_SH",
        WaitType::PAGELATCH_UP => "PAGELATCH_UP",
        WaitType::PARALLEL_BACKUP_QUEUE => "PARALLEL_BACKUP_QUEUE",
        _ => listed_as_str_9(w),
    }
}

fn listed_as_str_9(w: &WaitType) -> (r: &'static str)
    requires
        *w !is Unknown,
        !in_part_0(*w),
        !in_part_1(*w),
        !in_part_2(*w),
        !in_part_3(*w),
        !in_part_4(*w),
        !in_part_5(*w),
        !in_part_6(*w),
        !in_part_7(*w),
        !in_part_8(*w),
    ensures
        r@ == wait_type_name(*w),
{
    proof {
        reveal(listed_name_9);
    }
    match w {
        WaitType::PARALLEL_REDO_DRAIN_WORKER => "PARALLEL_REDO_DRAIN_WORKER",
        WaitType::PARALLEL_REDO_FLOW_CONTROL => "PARALLEL_REDO_FLOW_CONTROL",
        WaitType::PARALLEL_REDO_LOG_CACHE => "PARALLEL_REDO_LOG_CACHE",
        WaitType::PARALLEL_REDO_TRAN_LIST => "PARALLEL_REDO_TRAN_LIST",
        WaitType::PARALLEL_REDO_TRAN_TURN => "PARALLEL_REDO_TRAN_TURN",
        WaitType::PARALLEL_REDO_WORKER_SYNC => "PARALLEL_REDO_WORKER_SYNC",
        WaitType::PARALLEL_REDO_WORKER_WAIT_WORK => "PARALLEL_REDO_WORKER_WAIT_WORK",
        WaitType::PERFORMANCE_COUNTERS_RWLOCK => "PERFORMANCE_COUNTERS_RWLOCK",
        WaitType::PHYSICAL_SEEDING_DMV => "PHYSICAL_SEEDING_DMV",
        WaitType::POOL_LOG_RATE_GOVERNOR => "POOL_LOG_RATE_GOVERNOR",
        WaitType::PREEMPTIVE_ABR => "PREEMPTIVE_ABR",
        WaitType::PREEMPTIVE_AUDIT_ACCESS_EVENTLOG => "PREEMPTIVE_AUDIT_ACCESS_EVENTLOG",
        WaitType::PREEMPTIVE_AUDIT_ACCESS_SECLOG => "PREEMPTIVE_AUDIT_ACCESS_SECLOG",
        WaitType::PREEMPTIVE_CLOSEBACKUPMEDIA => "PREEMPTIVE_CLOSEBACKUPMEDIA",
        WaitType::PREEMPTIVE_CLOSEBACKUPTAPE => "PREEMPTIVE_CLOSEBACKUPTAPE",
        WaitType::PREEMPTIVE_CLOSEBACKUPVDIDEVICE => "PREEMPTIVE_CLOSEBACKUPVDIDEVICE",
        WaitType::PREEMPTIVE_CLUSAPI_CLUSTERRESOURCECONTROL => "PREEMPTIVE_CLUSAPI_CLUSTERRESOURCECONTROL",
        WaitType::PREEMPTIVE_COM_COCREATEINSTANCE => "PREEMPTIVE_COM_COCREATEINSTANCE",
        WaitType::PREEMPTIVE_COM_COGETCLASSOBJECT => "PREEMPTIVE_COM_COGETCLASSOBJECT",
        WaitType::PREEMPTIVE_COM_CREATEACCESSOR => "PREEMPTIVE_COM_CREATEACCESSOR",
        WaitType::PREEMPTIVE_COM_DELETEROWS => "PREEMPTIVE_COM_DELETEROWS",
        WaitType::PREEMPTIVE_COM_GETCOMMANDTEXT => "PREEMPTIVE_COM_GETCOMMANDTEXT",
        WaitType::PREEMPTIVE_COM_GETDATA => "PREEMPTIVE_COM_GETDATA",
        WaitType::PREEMPTIVE_COM_GETNEXTROWS => "PREEMPTIVE_COM_GETNEXTROWS",
        WaitType::PREEMPTIVE_COM_GETRESULT => "PREEMPTIVE_COM_GETRESULT",
        WaitType::PREEMPTIVE_COM_GETROWSBYBOOKMARK => "PREEMPTIVE_COM_GETROWSBYBOOKMARK",
        WaitType::PREEMPTIVE_COM_LBFLUSH => "PREEMPTIVE_COM_LBFLUSH",
        WaitType::PREEMPTIVE_COM_LBLOCKREGION => "PREEMPTIVE_COM_LBLOCKREGION",
        WaitType::PREEMPTIVE_COM_LBREADAT => "PREEMPTIVE_COM_LBREADAT",
        WaitType::PREEMPTIVE_COM_LBSETSIZE => "PREEMPTIVE_COM_LBSETSIZE",
        WaitType::PREEMPTIVE_COM_LBSTAT => "PREEMPTIVE_COM_LBSTAT",
        WaitType::PREEMPTIVE_COM_LBUNLOCKREGION => "PREEMPTIVE_COM_LBUNLOCKREGION",
        WaitType::PREEMPTIVE_COM_LBWRITEAT => "PREEMPTIVE_COM_LBWRITEAT",
        WaitType::PREEMPTIVE_COM_QUERYINTERFACE => "PREEMPTIVE_COM_QUERYINTERFACE",
        WaitType::PREEMPTIVE_COM_RELEASE => "PREEMPTIVE_COM_RELEASE",
        WaitType::PREEMPTIVE_COM_RELEASEACCESSOR => "PREEMPTIVE_COM_RELEASEACCESSOR",
        WaitType::PREEMPTIVE_COM_RELEASEROWS => "PREEMPTIVE_COM_RELEASEROWS",
        WaitType::PREEMPTIVE_COM_RELEASESESSION => "PREEMPTIVE_COM_RELEASESESSION",
        WaitType::PREEMPTIVE_COM_RESTARTPOSITION => "PREEMPTIVE_COM_RESTARTPOSITION",
        WaitType::PREEMPTIVE_COM_SEQSTRMREAD => "PREEMPTIVE_COM_SEQSTRMREAD",
        WaitType::PREEMPTIVE_COM_SEQSTRMREADANDWRITE => "PREEMPTIVE_COM_SEQSTRMREADANDWRITE",
        WaitType::PREEMPTIVE_COM_SETDATAFAILURE => "PREEMPTIVE_COM_SETDATAFAILURE",
        WaitType::PREEMPTIVE_COM_SETPARAMETERINFO => "PREEMPTIVE_COM_SETPARAMETERINFO",
        WaitType::PREEMPTIVE_COM_SETPARAMETERPROPERTIES => "PREEMPTIVE_COM_SETPARAMETERPROPERTIES",
        WaitType::PREEMPTIVE_COM_STRMLOCKREGION => "PREEMPTIVE_COM_STRMLOCKREGION",
        WaitType::PREEMPTIVE_COM_STRMSEEKANDREAD => "PREEMPTIVE_COM_STRMSEEKANDREAD",
        WaitType::PREEMPTIVE_COM_STRMSEEKANDWRITE => "PREEMPTIVE_COM_STRMSEEKANDWRITE",
        WaitType::PREEMPTIVE_COM_STRMSETSIZE => "PREEMPTIVE_COM_STRMSETSIZE",
        WaitType::PREEMPTIVE_COM_STRMSTAT => "PREEMPTIVE_COM_STRMSTAT",
        WaitType::PREEMPTIVE_COM_STRMUNLOCKREGION => "PREEMPTIVE_COM_STRMUNLOCKREGION",
        _ => listed_as_str_10(w),
    }
}

fn listed_as_str_10(w: &WaitType) -> (r: &'static str)
    requires
        *w !is Unknown,
        !in_part_0(*w),
        !in_part_1(*w),
        !in_part_2(*w),
        !in_part_3(*w),
        !in_part_4(*w),
        !in_part_5(*w),
        !in_part_6(*w),
        !in_part_7(*w),
        !in_part_8(*w),
        !in_part_9(*w),
    ensures
        r@ == wait_type_name(*w),
{
    proof {
        reveal(listed_name_10);
    }
    match w {
        WaitType::PREEMPTIVE_CONSOLEWRITE => "PREEMPTIVE_CONSOLEWRITE",
        WaitType::PREEMPTIVE_CREATEPARAM => "PREEMPTIVE_CREATEPARAM",
        WaitType::PREEMPTIVE_DEBUG => "PREEMPTIVE_DEBUG",
        WaitType::PREEMPTIVE_DFSADDLINK => "PREEMPTIVE_DFSADDLINK",
        WaitType::PREEMPTIVE_DFSLINKEXISTCHECK => "PREEMPTIVE_DFSLINKEXISTCHECK",
        WaitType::PREEMPTIVE_DFSLINKHEALTHCHECK => "PREEMPTIVE_DFSLINKHEALTHCHECK",
        WaitType::PREEMPTIVE_DFSREMOVELINK => "PREEMPTIVE_DFSREMOVELINK",
        WaitType::PREEMPTIVE_DFSREMOVEROOT => "PREEMPTIVE_DFSREMOVEROOT",
        WaitType::PREEMPTIVE_DFSROOTFOLDERCHECK => "PREEMPTIVE_DFSROOTFOLDERCHECK",
        WaitType::PREEMPTIVE_DFSROOTINIT => "PREEMPTIVE_DFSROOTINIT",
        WaitType::PREEMPTIVE_DFSROOTSHARECHECK => "PREEMPTIVE_DFSROOTSHARECHECK",
        WaitType::PREEMPTIVE_DTC_ABORT => "PREEMPTIVE_DTC_ABORT",
        WaitType::PREEMPTIVE_DTC_ABORTREQUESTDONE => "PREEMPTIVE_DTC_ABORTREQUESTDONE",
        WaitType::PREEMPTIVE_DTC_BEGINTRANSACTION => "PREEMPTIVE_DTC_BEGINTRANSACTION",
        WaitType::PREEMPTIVE_DTC_COMMITREQUESTDONE => "PREEMPTIVE_DTC_COMMITREQUESTDONE",
        WaitType::PREEMPTIVE_DTC_ENLIST => "PREEMPTIVE_DTC_ENLIST",
        WaitType::PREEMPTIVE_DTC_PREPAREREQUESTDONE => "PREEMPTIVE_DTC_PREPAREREQUESTDONE",
        WaitType::PREEMPTIVE_FILESIZEGET => "PREEMPTIVE_FILESIZEGET",
        WaitType::PREEMPTIVE_FSAOLEDB_ABORTTRANSACTION => "PREEMPTIVE_FSAOLEDB_ABORTTRANSACTION",
        WaitType::PREEMPTIVE_FSAOLEDB_COMMITTRANSACTION => "PREEMPTIVE_FSAOLEDB_COMMITTRANSACTION",
        WaitType::PREEMPTIVE_FSAOLEDB_STARTTRANSACTION => "PREEMPTIVE_FSAOLEDB_STARTTRANSACTION",
        WaitType::PREEMPTIVE_FSRECOVER_UNCONDITIONALUNDO => "PREEMPTIVE_FSRECOVER_UNCONDITIONALUNDO",
        WaitType::PREEMPTIVE_GETRMINFO => "PREEMPTIVE_GETRMINFO",
        WaitType::PREEMPTIVE_HADR_LEASE_MECHANISM => "PREEMPTIVE_HADR_LEASE_MECHANISM",
        WaitType::PREEMPTIVE_HTTP_EVENT_WAIT => "PREEMPTIVE_HTTP_EVENT_WAIT",
        WaitType::PREEMPTIVE_HTTP_REQUEST => "PREEMPTIVE_HTTP_REQUEST",
        WaitType::PREEMPTIVE_LOCKMONITOR => "PREEMPTIVE_LOCKMONITOR",
        WaitType::PREEMPTIVE_MSS_RELEASE => "PREEMPTIVE_MSS_RELEASE",
        WaitType::PREEMPTIVE_ODBCOPS => "PREEMPTIVE_ODBCOPS",
        WaitType::PREEMPTIVE_OLEDBOPS => "PREEMPTIVE_OLEDBOPS",
        WaitType::PREEMPTIVE_OLEDB_ABORTORCOMMITTRAN => "PREEMPTIVE_OLEDB_ABORTORCOMMITTRAN",
        WaitType::PREEMPTIVE_OLEDB_ABORTTRAN => "PREEMPTIVE_OLEDB_ABORTTRAN",
        WaitType::PREEMPTIVE_OLEDB_GETDATASOURCE => "PREEMPTIVE_OLEDB_GETDATASOURCE",
        WaitType::PREEMPTIVE_OLEDB_GETLITERALINFO => "PREEMPTIVE_OLEDB_GETLITERALINFO",
        WaitType::PREEMPTIVE_OLEDB_GETPROPERTIES => "PREEMPTIVE_OLEDB_GETPROPERTIES",
        WaitType::PREEMPTIVE_OLEDB_GETPROPERTYINFO => "PREEMPTIVE_OLEDB_GETPROPERTYINFO",
        WaitType::PREEMPTIVE_OLEDB_GETSCHEMALOCK => "PREEMPTIVE_OLEDB_GETSCHEMALOCK",
        WaitType::PREEMPTIVE_OLEDB_JOINTRANSACTION => "PREEMPTIVE_OLEDB_JOINTRANSACTION",
        WaitType::PREEMPTIVE_OLEDB_RELEASE => "PREEMPTIVE_OLEDB_RELEASE",
        WaitType::PREEMPTIVE_OLEDB_SETPROPERTIES => "PREEMPTIVE_OLEDB_SETPROPERTIES",
        WaitType::PREEMPTIVE_OLE_UNINIT => "PREEMPTIVE_OLE_UNINIT",
        WaitType::PREEMPTIVE_OS_ACCEPTSECURITYCONTEXT => "PREEMPTIVE_OS_ACCEPTSECURITYCONTEXT",
        WaitType::PREEMPTIVE_OS_ACQUIRECREDENTIALSHANDLE => "PREEMPTIVE_OS_ACQUIRECREDENTIALSHANDLE",
        WaitType::PREEMPTIVE_OS_AUTHENTICATIONOPS => "PREEMPTIVE_OS_AUTHENTICATIONOPS",
        WaitType::PREEMPTIVE_OS_AUTHORIZATIONOPS => "PREEMPTIVE_OS_AUTHORIZATIONOPS",
        WaitType::PREEMPTIVE_OS_AUTHZGETINFORMATIONFROMCONTEXT => "PREEMPTIVE_OS_AUTHZGETINFORMATIONFROMCONTEXT",
        WaitType::PREEMPTIVE_OS_AUTHZINITIALIZECONTEXTFROMSID => "PREEMPTIVE_OS_AUTHZINITIALIZECONTEXTFROMSID",
        WaitType::PREEMPTIVE_OS_AUTHZINITIALIZERESOURCEMANAGER => "PREEMPTIVE_OS_AUTHZINITIALIZERESOURCEMANAGER",
        WaitType::PREEMPTIVE_OS_BACKUPREAD => "PREEMPTIVE_OS_BACKUPREAD",
        WaitType::PREEMPTIVE_OS_CLOSEHANDLE => "PREEMPTIVE_OS_CLOSEHANDLE",
        _ => listed_as_str_11(w),
    }
}

fn listed_as_str_11(w: &WaitType) -> (r: &'static str)
    requires
        *w !is Unknown,
        !in_part_0(*w),
        !in_part_1(*w),
        !in_part_2(*w),
        !in_part_3(*w),
        !in_part_4(*w),
        !in_part_5(*w),
        !in_part_6(*w),
        !in_part_7(*w),
        !in_part_8(*w),
        !in_part_9(*w),
        !in_part_10(*w),
    ensures
        r@ == wait_type_name(*w),
{
    proof {
        reveal(listed_name_11);
    }
    match w {
        WaitType::PREEMPTIVE_OS_CLUSTEROPS => "PREEMPTIVE_OS_CLUSTEROPS",
        WaitType::PREEMPTIVE_OS_COMOPS => "PREEMPTIVE_OS_COMOPS",
        WaitType::PREEMPTIVE_OS_COMPLETEAUTHTOKEN => "PREEMPTIVE_OS_COMPLETEAUTHTOKEN",
        WaitType::PREEMPTIVE_OS_COPYFILE => "PREEMPTIVE_OS_COPYFILE",
        WaitType::PREEMPTIVE_OS_CREATEDIRECTORY => "PREEMPTIVE_OS_CREATEDIRECTORY",
        WaitType::PREEMPTIVE_OS_CREATEFILE => "PREEMPTIVE_OS_CREATEFILE",
        WaitType::PREEMPTIVE_OS_CRYPTACQUIRECONTEXT => "PREEMPTIVE_OS_CRYPTACQUIRECONTEXT",
        WaitType::PREEMPTIVE_OS_CRYPTIMPORTKEY => "PREEMPTIVE_OS_CRYPTIMPORTKEY",
        WaitType::PREEMPTIVE_OS_CRYPTOPS => "PREEMPTIVE_OS_CRYPTOPS",
        WaitType::PREEMPTIVE_OS_DECRYPTMESSAGE => "PREEMPTIVE_OS_DECRYPTMESSAGE",
        WaitType::PREEMPTIVE_OS_DELETEFILE => "PREEMPTIVE_OS_DELETEFILE",
        WaitType::PREEMPTIVE_OS_DELETESECURITYCONTEXT => "PREEMPTIVE_OS_DELETESECURITYCONTEXT",
        WaitType::PREEMPTIVE_OS_DEVICEIOCONTROL => "PREEMPTIVE_OS_DEVICEIOCONTROL",
        WaitType::PREEMPTIVE_OS_DEVICEOPS => "PREEMPTIVE_OS_DEVICEOPS",
        WaitType::PREEMPTIVE_OS_DIRSVC_NETWORKOPS => "PREEMPTIVE_OS_DIRSVC_NETWORKOPS",
        WaitType::PREEMPTIVE_OS_DISCONNECTNAMEDPIPE => "PREEMPTIVE_OS_DISCONNECTNAMEDPIPE",
        WaitType::PREEMPTIVE_OS_DOMAINSERVICESOPS => "PREEMPTIVE_OS_DOMAINSERVICESOPS",
        WaitType::PREEMPTIVE_OS_DSGETDCNAME => "PREEMPTIVE_OS_DSGETDCNAME",
        WaitType::PREEMPTIVE_OS_DTCOPS => "PREEMPTIVE_OS_DTCOPS",
        WaitType::PREEMPTIVE_OS_ENCRYPTMESSAGE => "PREEMPTIVE_OS_ENCRYPTMESSAGE",
        WaitType::PREEMPTIVE_OS_FILEOPS => "PREEMPTIVE_OS_FILEOPS",
        WaitType::PREEMPTIVE_OS_FINDFILE => "PREEMPTIVE_OS_FINDFILE",
        WaitType::PREEMPTIVE_OS_FLUSHFILEBUFFERS => "PREEMPTIVE_OS_FLUSHFILEBUFFERS",
        WaitType::PREEMPTIVE_OS_FORMATMESSAGE => "PREEMPTIVE_OS_FORMATMESSAGE",
        WaitType::PREEMPTIVE_OS_FREECREDENTIALSHANDLE => "PREEMPTIVE_OS_FREECREDENTIALSHANDLE",
        WaitType::PREEMPTIVE_OS_FREELIBRARY => "PREEMPTIVE_OS_FREELIBRARY",
        WaitType::PREEMPTIVE_OS_GENERICOPS => "PREEMPTIVE_OS_GENERICOPS",
        WaitType::PREEMPTIVE_OS_GETADDRINFO => "PREEMPTIVE_OS_GETADDRINFO",
        WaitType::PREEMPTIVE_OS_GETCOMPRESSEDFILESIZE => "PREEMPTIVE_OS_GETCOMPRESSEDFILESIZE",
        WaitType::PREEMPTIVE_OS_GETDISKFREESPACE => "PREEMPTIVE_OS_GETDISKFREESPACE",
        WaitType::PREEMPTIVE_OS_GETFILEATTRIBUTES => "PREEMPTIVE_OS_GETFILEATTRIBUTES",
        WaitType::PREEMPTIVE_OS_GETFILESIZE => "PREEMPTIVE_OS_GETFILESIZE",
        WaitType::PREEMPTIVE_OS_GETFINALFILEPATHBYHANDLE => "PREEMPTIVE_OS_GETFINALFILEPATHBYHANDLE",
        WaitType::PREEMPTIVE_OS_GETLONGPATHNAME => "PREEMPTIVE_OS_GETLONGPATHNAME",
        WaitType::PREEMPTIVE_OS_GETPROCADDRESS => "PREEMPTIVE_OS_GETPROCADDRESS",
        WaitType::PREEMPTIVE_OS_GETVOLUMENAMEFORVOLUMEMOUNTPOINT => "PREEMPTIVE_OS_GETVOLUMENAMEFORVOLUMEMOUNTPOINT",
        WaitType::PREEMPTIVE_OS_GETVOLUMEPATHNAME => "PREEMPTIVE_OS_GETVOLUMEPATHNAME",
        WaitType::PREEMPTIVE_OS_INITIALIZESECURITYCONTEXT => "PREEMPTIVE_OS_INITIALIZESECURITYCONTEXT",
        WaitType::PREEMPTIVE_OS_LIBRARYOPS => "PREEMPTIVE_OS_LIBRARYOPS",
        WaitType::PREEMPTIVE_OS_LOADLIBRARY => "PREEMPTIVE_OS_LOADLIBRARY",
        WaitType::PREEMPTIVE_OS_LOGONUSER => "PREEMPTIVE_OS_LOGONUSER",
        WaitType::PREEMPTIVE_OS_LOOKUPACCOUNTSID => "PREEMPTIVE_OS_LOOKUPACCOUNTSID",
        WaitType::PREEMPTIVE_OS_MESSAGEQUEUEOPS => "PREEMPTIVE_OS_MESSAGEQUEUEOPS",
        WaitType::PREEMPTIVE_OS_MOVEFILE => "PREEMPTIVE_OS_MOVEFILE",
        WaitType::PREEMPTIVE_OS_NETGROUPGETUSERS => "PREEMPTIVE_OS_NETGROUPGETUSERS",
        WaitType::PREEMPTIVE_OS_NETLOCALGROUPGETMEMBERS => "PREEMPTIVE_OS_NETLOCALGROUPGETMEMBERS",
        WaitType::PREEMPTIVE_OS_NETUSERGETGROUPS => "PREEMPTIVE_OS_NETUSERGETGROUPS",
        WaitType::PREEMPTIVE_OS_NETUSERGETLOCALGROUPS => "PREEMPTIVE_OS_NETUSERGETLOCALGROUPS",
        WaitType::PREEMPTIVE_OS_NETUSERMODALSGET => "PREEMPTIVE_OS_NETUSERMODALSGET",
        WaitType::PREEMPTIVE_OS_NETVALIDATEPASSWORDPOLICY => "PREEMPTIVE_OS_NETVALIDATEPASSWORDPOLICY",
        _ => listed_as_str_12(w),
    }
}

fn listed_as_str_12(w: &WaitType) -> (r: &'static str)
    requires
        *w !is Unknown,
        !in_part_0(*w),
        !in_part_1(*w),
        !in_part_2(*w),
        !in_part_3(*w),
        !in_part_4(*w),
        !in_part_5(*w),
        !in_part_6(*w),
        !in_part_7(*w),
        !in_part_8(*w),
        !in_part_9(*w),
        !in_part_10(*w),
        !in_part_11(*w),
    ensures
        r@ == wait_type_name(*w),
{
    proof {
        reveal(listed_name_12);
    }
    match w {
        WaitType::PREEMPTIVE_OS_NETVALIDATEPASSWORDPOLICYFREE => "PREEMPTIVE_OS_NETVALIDATEPASSWORDPOLICYFREE",
        WaitType::PREEMPTIVE_OS_OPENDIRECTORY => "PREEMPTIVE_OS_OPENDIRECTORY",
        WaitType::PREEMPTIVE_OS_PDH_WMI_INIT => "PREEMPTIVE_OS_PDH_WMI_INIT",
        WaitType::PREEMPTIVE_OS_PIPEOPS => "PREEMPTIVE_OS_PIPEOPS",
        WaitType::PREEMPTIVE_OS_PROCESSOPS => "PREEMPTIVE_OS_PROCESSOPS",
        WaitType::PREEMPTIVE_OS_QUERYCONTEXTATTRIBUTES => "PREEMPTIVE_OS_QUERYCONTEXTATTRIBUTES",
        WaitType::PREEMPTIVE_OS_QUERYREGISTRY => "PREEMPTIVE_OS_QUERYREGISTRY",
        WaitType::PREEMPTIVE_OS_QUERYSECURITYCONTEXTTOKEN => "PREEMPTIVE_OS_QUERYSECURITYCONTEXTTOKEN",
        WaitType::PREEMPTIVE_OS_REMOVEDIRECTORY => "PREEMPTIVE_OS_REMOVEDIRECTORY",
        WaitType::PREEMPTIVE_OS_REPORTEVENT => "PREEMPTIVE_OS_REPORTEVENT",
        WaitType::PREEMPTIVE_OS_REVERTTOSELF => "PREEMPTIVE_OS_REVERTTOSELF",
        WaitType::PREEMPTIVE_OS_RSFXDEVICEOPS => "PREEMPTIVE_OS_RSFXDEVICEOPS",
        WaitType::PREEMPTIVE_OS_SECURITYOPS => "PREEMPTIVE_OS_SECURITYOPS",
        WaitType::PREEMPTIVE_OS_SERVICEOPS => "PREEMPTIVE_OS_SERVICEOPS",
        WaitType::PREEMPTIVE_OS_SETENDOFFILE => "PREEMPTIVE_OS_SETENDOFFILE",
        WaitType::PREEMPTIVE_OS_SETFILEPOINTER => "PREEMPTIVE_OS_SETFILEPOINTER",
        WaitType::PREEMPTIVE_OS_SETFILEVALIDDATA => "PREEMPTIVE_OS_SETFILEVALIDDATA",
        WaitType::PREEMPTIVE_OS_SETNAMEDSECURITYINFO => "PREEMPTIVE_OS_SETNAMEDSECURITYINFO",
        WaitType::PREEMPTIVE_OS_SQLCLROPS => "PREEMPTIVE_OS_SQLCLROPS",
        WaitType::PREEMPTIVE_OS_SQMLAUNCH => "PREEMPTIVE_OS_SQMLAUNCH",
        WaitType::PREEMPTIVE_OS_VERIFYSIGNATURE => "PREEMPTIVE_OS_VERIFYSIGNATURE",
        WaitType::PREEMPTIVE_OS_VERIFYTRUST => "PREEMPTIVE_OS_VERIFYTRUST",
        WaitType::PREEMPTIVE_OS_VSSOPS => "PREEMPTIVE_OS_VSSOPS",
        WaitType::PREEMPTIVE_OS_WAITFORSINGLEOBJECT => "PREEMPTIVE_OS_WAITFORSINGLEOBJECT",
        WaitType::PREEMPTIVE_OS_WINSOCKOPS => "PREEMPTIVE_OS_WINSOCKOPS",
        WaitType::PREEMPTIVE_OS_WRITEFILE => "PREEMPTIVE_OS_WRITEFILE",
        WaitType::PREEMPTIVE_OS_WRITEFILEGATHER => "PREEMPTIVE_OS_WRITEFILEGATHER",
        WaitType::PREEMPTIVE_OS_WSASETLASTERROR => "PREEMPTIVE_OS_WSASETLASTERROR",
        WaitType::PREEMPTIVE_REENLIST => "PREEMPTIVE_REENLIST",
        WaitType::PREEMPTIVE_RESIZELOG => "PREEMPTIVE_RESIZELOG",
        WaitType::PREEMPTIVE_ROLLFORWARDREDO => "PREEMPTIVE_ROLLFORWARDREDO",
        WaitType::PREEMPTIVE_ROLLFORWARDUNDO => "PREEMPTIVE_ROLLFORWARDUNDO",
        WaitType::PREEMPTIVE_SB_STOPENDPOINT => "PREEMPTIVE_SB_STOPENDPOINT",
        WaitType::PREEMPTIVE_SERVER_STARTUP => "PREEMPTIVE_SERVER_STARTUP",
        WaitType::PREEMPTIVE_SETRMINFO => "PREEMPTIVE_SETRMINFO",
        WaitType::PREEMPTIVE_SHAREDMEM_GETDATA => "PREEMPTIVE_SHAREDMEM_GETDATA",
        WaitType::PREEMPTIVE_SNIOPEN => "PREEMPTIVE_SNIOPEN",
        WaitType::PREEMPTIVE_SOSHOST => "PREEMPTIVE_SOSHOST",
        WaitType::PREEMPTIVE_SOSTESTING => "PREEMPTIVE_SOSTESTING",
        WaitType::PREEMPTIVE_SP_SERVER_DIAGNOSTICS => "PREEMPTIVE_SP_SERVER_DIAGNOSTICS",
        WaitType::PREEMPTIVE_STARTRM => "PREEMPTIVE_STARTRM",
        WaitType::PREEMPTIVE_STREAMFCB_CHECKPOINT => "PREEMPTIVE_STREAMFCB_CHECKPOINT",
        WaitType::PREEMPTIVE_STREAMFCB_RECOVER => "PREEMPTIVE_STREAMFCB_RECOVER",
        WaitType::PREEMPTIVE_STRESSDRIVER => "PREEMPTIVE_STRESSDRIVER",
        WaitType::PREEMPTIVE_TESTING => "PREEMPTIVE_TESTING",
        WaitType::PREEMPTIVE_TRANSIMPORT => "PREEMPTIVE_TRANSIMPORT",
        WaitType::PREEMPTIVE_UNMARSHALPROPAGATIONTOKEN => "PREEMPTIVE_UNMARSHALPROPAGATIONTOKEN",
        WaitType::PREEMPTIVE_VSS_CREATESNAPSHOT => "PREEMPTIVE_VSS_CREATESNAPSHOT",
        WaitType::PREEMPTIVE_VSS_CREATEVOLUMESNAPSHOT => "PREEMPTIVE_VSS_CREATEVOLUMESNAPSHOT",
        WaitType::PREEMPTIVE_XETESTING => "PREEMPTIVE_XETESTING",
        _ => listed_as_str_13(w),
    }
}

fn listed_as_str_13(w: &WaitType) -> (r: &'static str)
    requires
        *w !is Unknown,
        !in_part_0(*w),
        !in_part_1(*w),
        !in_part_2(*w),
        !in_part_3(*w),
        !in_part_4(*w),
        !in_part_5(*w),
        !in_part_6(*w),
        !in_part_7(*w),
        !in_part_8(*w),
        !in_part_9(*w),
        !in_part_10(*w),
        !in_part_11(*w),
        !in_part_12(*w),
    ensures
        r@ == wait_type_name(*w),
{
    proof {
        reveal(listed_name_13);
    }
    match w {
        WaitType::PREEMPTIVE_XE_CALLBACKEXECUTE => "PREEMPTIVE_XE_CALLBACKEXECUTE",
        WaitType::PREEMPTIVE_XE_CX_FILE_OPEN => "PREEMPTIVE_XE_CX_FILE_OPEN",
        WaitType::PREEMPTIVE_XE_CX_HTTP_CALL => "PREEMPTIVE_XE_CX_HTTP_CALL",
        WaitType::PREEMPTIVE_XE_DISPATCHER => "PREEMPTIVE_XE_DISPATCHER",
        WaitType::PREEMPTIVE_XE_ENGINEINIT => "PREEMPTIVE_XE_ENGINEINIT",
        WaitType::PREEMPTIVE_XE_GETTARGETSTATE => "PREEMPTIVE_XE_GETTARGETSTATE",
        WaitType::PREEMPTIVE_XE_SESSIONCOMMIT => "PREEMPTIVE_XE_SESSIONCOMMIT",
        WaitType::PREEMPTIVE_XE_TARGETFINALIZE => "PREEMPTIVE_XE_TARGETFINALIZE",
        WaitType::PREEMPTIVE_XE_TARGETINIT => "PREEMPTIVE_XE_TARGETINIT",
        WaitType::PREEMPTIVE_XE_TIMERRUN => "PREEMPTIVE_XE_TIMERRUN",
        WaitType::PRINT_ROLLBACK_PROGRESS => "PRINT_ROLLBACK_PROGRESS",
        WaitType::PRU_ROLLBACK_DEFERRED => "PRU_ROLLBACK_DEFERRED",
        WaitType::PVS_CLEANUP_LOCK => "PVS_CLEANUP_LOCK",
        WaitType::PWAIT_ALL_COMPONENTS_INITIALIZED => "PWAIT_ALL_COMPONENTS_INITIALIZED",
        WaitType::PWAIT_COOP_SCAN => "PWAIT_COOP_SCAN",
        WaitType::PWAIT_DIRECTLOGCONSUMER_GETNEXT => "PWAIT_DIRECTLOGCONSUMER_GETNEXT",
        WaitType::PWAIT_EVENT_SESSION_INIT_MUTEX => "PWAIT_EVENT_SESSION_INIT_MUTEX",
        WaitType::PWAIT_FABRIC_REPLICA_CONTROLLER_DATA_LOSS => "PWAIT_FABRIC_REPLICA_CONTROLLER_DATA_LOSS",
        WaitType::PWAIT_HADRSIM => "PWAIT_HADRSIM",
        WaitType::PWAIT_HADR_ACTION_COMPLETED => "PWAIT_HADR_ACTION_COMPLETED",
        WaitType::PWAIT_HADR_CHANGE_NOTIFIER_TERMINATION_SYNC => "PWAIT_HADR_CHANGE_NOTIFIER_TERMINATION_SYNC",
        WaitType::PWAIT_HADR_CLUSTER_INTEGRATION => "PWAIT_HADR_CLUSTER_INTEGRATION",
        WaitType::PWAIT_HADR_FAILOVER_COMPLETED => "PWAIT_HADR_FAILOVER_COMPLETED",
        WaitType::PWAIT_HADR_JOIN => "PWAIT_HADR_JOIN",
        WaitType::PWAIT_HADR_OFFLINE_COMPLETED => "PWAIT_HADR_OFFLINE_COMPLETED",
        WaitType::PWAIT_HADR_ONLINE_COMPLETED => "PWAIT_HADR_ONLINE_COMPLETED",
        WaitType::PWAIT_HADR_POST_ONLINE_COMPLETED => "PWAIT_HADR_POST_ONLINE_COMPLETED",
        WaitType::PWAIT_HADR_SERVER_READY_CONNECTIONS => "PWAIT_HADR_SERVER_READY_CONNECTIONS",
        WaitType::PWAIT_HADR_WORKITEM_COMPLETED => "PWAIT_HADR_WORKITEM_COMPLETED",
        WaitType::PWAIT_LOG_CONSOLIDATION_IO => "PWAIT_LOG_CONSOLIDATION_IO",
        WaitType::PWAIT_LOG_CONSOLIDATION_POLL => "PWAIT_LOG_CONSOLIDATION_POLL",
        WaitType::PWAIT_MD_LOGIN_STATS => "PWAIT_MD_LOGIN_STATS",
        WaitType::PWAIT_MD_RELATION_CACHE => "PWAIT_MD_RELATION_CACHE",
        WaitType::PWAIT_MD_SERVER_CACHE => "PWAIT_MD_SERVER_CACHE",
        WaitType::PWAIT_MD_UPGRADE_CONFIG => "PWAIT_MD_UPGRADE_CONFIG",
        WaitType::PWAIT_PREEMPTIVE_APP_USAGE_TIMER => "PWAIT_PREEMPTIVE_APP_USAGE_TIMER",
        WaitType::PWAIT_PREEMPTIVE_AUDIT_ACCESS_WINDOWSLOG => "PWAIT_PREEMPTIVE_AUDIT_ACCESS_WINDOWSLOG",
        WaitType::PWAIT_QRY_BPMEMORY => "PWAIT_QRY_BPMEMORY",
        WaitType::PWAIT_REPLICA_ONLINE_INIT_MUTEX => "PWAIT_REPLICA_ONLINE_INIT_MUTEX",
        WaitType::PWAIT_RESOURCE_SEMAPHORE_FT_PARALLEL_QUERY_SYNC => "PWAIT_RESOURCE_SEMAPHORE_FT_PARALLEL_QUERY_SYNC",
        WaitType::PWAIT_SBS_FILE_OPERATION => "PWAIT_SBS_FILE_OPERATION",
        WaitType::PWAIT_XTP_FSSTORAGE_MAINTENANCE => "PWAIT_XTP_FSSTORAGE_MAINTENANCE",
        WaitType::PWAIT_XTP_HOST_STORAGE_WAIT => "PWAIT_XTP_HOST_STORAGE_WAIT",
        WaitType::QDS_ASYNC_CHECK_CONSISTENCY_TASK => "QDS_ASYNC_CHECK_CONSISTENCY_TASK",
        WaitType::QDS_ASYNC_PERSIST_TASK => "QDS_ASYNC_PERSIST_TASK",
        WaitType::QDS_ASYNC_PERSIST_TASK_START => "QDS_ASYNC_PERSIST_TASK_START",
        WaitType::QDS_ASYNC_QUEUE => "QDS_ASYNC_QUEUE",
        WaitType::QDS_BCKG_TASK => "QDS_BCKG_TASK",
        WaitType::QDS_BLOOM_FILTER => "QDS_BLOOM_FILTER",
        WaitType::QDS_CLEANUP_STALE_QUERIES_TASK_MAIN_LOOP_SLEEP => "QDS_CLEANUP_STALE_QUERIES_TASK_MAIN_LOOP_SLEEP",
        _ => listed_as_str_14(w),
    }
}

fn listed_as_str_14(w: &WaitType) -> (r: &'static str)
    requires
        *w !is Unknown,
        !in_part_0(*w),
        !in_part_1(*w),
        !in_part_2(*w),
        !in_part_3(*w),
        !in_part_4(*w),
        !in_part_5(*w),
        !in_part_6(*w),
        !in_part_7(*w),
        !in_part_8(*w),
        !in_part_9(*w),
        !in_part_10(*w),
        !in_part_11(*w),
        !in_part_12(*w),
        !in_part_13(*w),
    ensures
        r@ == wait_type_name(*w),
{
    proof {
        reveal(listed_name_14);
    }
    match w {
        WaitType::QDS_CTXS => "QDS_CTXS",
        WaitType::QDS_DB_DISK => "QDS_DB_DISK",
        WaitType::QDS_DYN_VECTOR => "QDS_DYN_VECTOR",
        WaitType::QDS_EXCLUSIVE_ACCESS => "QDS_EXCLUSIVE_ACCESS",
        WaitType::QDS_HOST_INIT => "QDS_HOST_INIT",
        WaitType::QDS_LOADDB => "QDS_LOADDB",
        WaitType::QDS_PERSIST_TASK_MAIN_LOOP_SLEEP => "QDS_PERSIST_TASK_MAIN_LOOP_SLEEP",
        WaitType::QDS_QDS_CAPTURE_INIT => "QDS_QDS_CAPTURE_INIT",
        WaitType::QDS_SHUTDOWN_QUEUE => "QDS_SHUTDOWN_QUEUE",
        WaitType::QDS_STMT => "QDS_STMT",
        WaitType::QDS_STMT_DISK => "QDS_STMT_DISK",
        WaitType::QDS_TASK_SHUTDOWN => "QDS_TASK_SHUTDOWN",
        WaitType::QDS_TASK_START => "QDS_TASK_START",
        WaitType::QE_WARN_LIST_SYNC => "QE_WARN_LIST_SYNC",
        WaitType::QPJOB_KILL => "QPJOB_KILL",
        WaitType::QPJOB_WAITFOR_ABORT => "QPJOB_WAITFOR_ABORT",
        WaitType::QRY_MEM_GRANT_INFO_MUTEX => "QRY_MEM_GRANT_INFO_MUTEX",
        WaitType::QRY_PARALLEL_THREAD_MUTEX => "QRY_PARALLEL_THREAD_MUTEX",
        WaitType::QRY_PROFILE_LIST_MUTEX => "QRY_PROFILE_LIST_MUTEX",
        WaitType::QUERY_ERRHDL_SERVICE_DONE => "QUERY_ERRHDL_SERVICE_DONE",
        WaitType::QUERY_EXECUTION_INDEX_SORT_EVENT_OPEN => "QUERY_EXECUTION_INDEX_SORT_EVENT_OPEN",
        WaitType::QUERY_NOTIFICATION_MGR_MUTEX => "QUERY_NOTIFICATION_MGR_MUTEX",
        WaitType::QUERY_NOTIFICATION_SUBSCRIPTION_MUTEX => "QUERY_NOTIFICATION_SUBSCRIPTION_MUTEX",
        WaitType::QUERY_NOTIFICATION_TABLE_MGR_MUTEX => "QUERY_NOTIFICATION_TABLE_MGR_MUTEX",
        WaitType::QUERY_NOTIFICATION_UNITTEST_MUTEX => "QUERY_NOTIFICATION_UNITTEST_MUTEX",
        WaitType::QUERY_OPTIMIZER_PRINT_MUTEX => "QUERY_OPTIMIZER_PRINT_MUTEX",
        WaitType::QUERY_TASK_ENQUEUE_MUTEX => "QUERY_TASK_ENQUEUE_MUTEX",
        WaitType::QUERY_TRACEOUT => "QUERY_TRACEOUT",
        WaitType::QUERY_WAIT_ERRHDL_SERVICE => "QUERY_WAIT_ERRHDL_SERVICE",
        WaitType::RBIO_RG_DESTAGE => "RBIO_RG_DESTAGE",
        WaitType::RBIO_RG_LOCALDESTAGE => "RBIO_RG_LOCALDESTAGE",
        WaitType::RBIO_RG_REPLICA => "RBIO_RG_REPLICA",
        WaitType::RBIO_RG_STORAGE => "RBIO_RG_STORAGE",
        WaitType::RBIO_WAIT_VLF => "RBIO_WAIT_VLF",
        WaitType::RECOVERY_MGR_LOCK => "RECOVERY_MGR_LOCK",
        WaitType::RECOVER_CHANGEDB => "RECOVER_CHANGEDB",
        WaitType::REDO_THREAD_PENDING_WORK => "REDO_THREAD_PENDING_WORK",
        WaitType::REDO_THREAD_SYNC => "REDO_THREAD_SYNC",
        WaitType::REMOTE_BLOCK_IO => "REMOTE_BLOCK_IO",
        WaitType::REMOTE_DATA_ARCHIVE_MIGRATION_DMV => "REMOTE_DATA_ARCHIVE_MIGRATION_DMV",
        WaitType::REMOTE_DATA_ARCHIVE_SCHEMA_DMV => "REMOTE_DATA_ARCHIVE_SCHEMA_DMV",
        WaitType::REMOTE_DATA_ARCHIVE_SCHEMA_TASK_QUEUE => "REMOTE_DATA_ARCHIVE_SCHEMA_TASK_QUEUE",
        WaitType::REPLICA_WRITES => "REPLICA_WRITES",
        WaitType::REPL_CACHE_ACCESS => "REPL_CACHE_ACCESS",
        WaitType::REPL_HISTORYCACHE_ACCESS => "REPL_HISTORYCACHE_ACCESS",
        WaitType::REPL_SCHEMA_ACCESS => "REPL_SCHEMA_ACCESS",
        WaitType::REPL_TRANFSINFO_ACCESS => "REPL_TRANFSINFO_ACCESS",
        WaitType::REPL_TRANHASHTABLE_ACCESS => "REPL_TRANHASHTABLE_ACCESS",
        WaitType::REPL_TRANTEXTINFO_ACCESS => "REPL_TRANTEXTINFO_ACCESS",
        WaitType::REQUEST_DISPENSER_PAUSE => "REQUEST_DISPENSER_PAUSE",
        _ => listed_as_str_15(w),
    }
}

fn listed_as_str_15(w: &WaitType) -> (r: &'static str)
    requires
        *w !is Unknown,
        !in_part_0(*w),
        !in_part_1(*w),
        !in_part_2(*w),
        !in_part_3(*w),
        !in_part_4(*w),
        !in_part_5(*w),
        !in_part_6(*w),
        !in_part_7(*w),
        !in_part_8(*w),
        !in_part_9(*w),
        !in_part_10(*w),
        !in_part_11(*w),
        !in_part_12(*w),
        !in_part_13(*w),
        !in_part_14(*w),
    ensures
        r@ == wait_type_name(*w),
{
    proof {
        reveal(listed_name_15);
    }
    match w {
        WaitType::REQUEST_FOR_DEADLOCK_SEARCH => "REQUEST_FOR_DEADLOCK_SEARCH",
        WaitType::RESERVED_MEMORY_ALLOCATION_EXT => "RESERVED_MEMORY_ALLOCATION_EXT",
        WaitType::RESMGR_THROTTLED => "RESMGR_THROTTLED",
        WaitType::RESOURCE_GOVERNOR_IDLE => "RESOURCE_GOVERNOR_IDLE",
        WaitType::RESOURCE_QUEUE => "RESOURCE_QUEUE",
        WaitType::RESOURCE_SEMAPHORE => "RESOURCE_SEMAPHORE",
        WaitType::RESOURCE_SEMAPHORE_MUTEX => "RESOURCE_SEMAPHORE_MUTEX",
        WaitType::RESOURCE_SEMAPHORE_QUERY_COMPILE => "RESOURCE_SEMAPHORE_QUERY_COMPILE",
        WaitType::RESOURCE_SEMAPHORE_SMALL_QUERY => "RESOURCE_SEMAPHORE_SMALL_QUERY",
        WaitType::RESTORE_FILEHANDLECACHE_ENTRYLOCK => "RESTORE_FILEHANDLECACHE_ENTRYLOCK",
        WaitType::RESTORE_FILEHANDLECACHE_LOCK => "RESTORE_FILEHANDLECACHE_LOCK",
        WaitType::RG_RECONFIG => "RG_RECONFIG",
        WaitType::ROWGROUP_OP_STATS => "ROWGROUP_OP_STATS",
        WaitType::ROWGROUP_VERSION => "ROWGROUP_VERSION",
        WaitType::RTDATA_LIST => "RTDATA_LIST",
        WaitType::SATELLITE_CARGO => "SATELLITE_CARGO",
        WaitType::SATELLITE_SERVICE_SETUP => "SATELLITE_SERVICE_SETUP",
        WaitType::SATELLITE_TASK => "SATELLITE_TASK",
        WaitType::SBS_DISPATCH => "SBS_DISPATCH",
        WaitType::SBS_RECEIVE_TRANSPORT => "SBS_RECEIVE_TRANSPORT",
        WaitType::SBS_TRANSPORT => "SBS_TRANSPORT",
        WaitType::SCAN_CHAR_HASH_ARRAY_INITIALIZATION => "SCAN_CHAR_HASH_ARRAY_INITIALIZATION",
        WaitType::SECURITY_CNG_PROVIDER_MUTEX => "SECURITY_CNG_PROVIDER_MUTEX",
        WaitType::SECURITY_CRYPTO_CONTEXT_MUTEX => "SECURITY_CRYPTO_CONTEXT_MUTEX",
        WaitType::SECURITY_DBE_STATE_MUTEX => "SECURITY_DBE_STATE_MUTEX",
        WaitType::SECURITY_KEYRING_RWLOCK => "SECURITY_KEYRING_RWLOCK",
        WaitType::SECURITY_MUTEX => "SECURITY_MUTEX",
        WaitType::SECURITY_RULETABLE_MUTEX => "SECURITY_RULETABLE_MUTEX",
        WaitType::SEC_DROP_TEMP_KEY => "SEC_DROP_TEMP_KEY",
        WaitType::SEMPLAT_DSI_BUILD => "SEMPLAT_DSI_BUILD",
        WaitType::SEQUENCE_GENERATION => "SEQUENCE_GENERATION",
        WaitType::SEQUENTIAL_GUID => "SEQUENTIAL_GUID",
        WaitType::SERVER_IDLE_CHECK => "SERVER_IDLE_CHECK",
        WaitType::SERVER_RECONFIGURE => "SERVER_RECONFIGURE",
        WaitType::SESSION_WAIT_STATS_CHILDREN => "SESSION_WAIT_STATS_CHILDREN",
        WaitType::SHARED_DELTASTORE_CREATION => "SHARED_DELTASTORE_CREATION",
        WaitType::SHUTDOWN => "SHUTDOWN",
        WaitType::SLEEP_BPOOL_FLUSH => "SLEEP_BPOOL_FLUSH",
        WaitType::SLEEP_BUFFERPOOL_HELPLW => "SLEEP_BUFFERPOOL_HELPLW",
        WaitType::SLEEP_DBSTARTUP => "SLEEP_DBSTARTUP",
        WaitType::SLEEP_DCOMSTARTUP => "SLEEP_DCOMSTARTUP",
        WaitType::SLEEP_MASTERDBREADY => "SLEEP_MASTERDBREADY",
        WaitType::SLEEP_MASTERMDREADY => "SLEEP_MASTERMDREADY",
        WaitType::SLEEP_MASTERUPGRADED => "SLEEP_MASTERUPGRADED",
        WaitType::SLEEP_MEMORYPOOL_ALLOCATEPAGES => "SLEEP_MEMORYPOOL_ALLOCATEPAGES",
        WaitType::SLEEP_MSDBSTARTUP => "SLEEP_MSDBSTARTUP",
        WaitType::SLEEP_RETRY_VIRTUALALLOC => "SLEEP_RETRY_VIRTUALALLOC",
        WaitType::SLEEP_SYSTEMTASK => "SLEEP_SYSTEMTASK",
        WaitType::SLEEP_TASK => "SLEEP_TASK",
        WaitType::SLEEP_TEMPDBSTARTUP => "SLEEP_TEMPDBSTARTUP",
        _ => listed_as_str_16(w),
    }
}

fn listed_as_str_16(w: &WaitType) -> (r: &'static str)
    requires
        *w !is Unknown,
        !in_part_0(*w),
        !in_part_1(*w),
        !in_part_2(*w),
        !in_part_3(*w),
        !in_part_4(*w),
        !in_part_5(*w),
        !in_part_6(*w),
        !in_part_7(*w),
        !in_part_8(*w),
        !in_part_9(*w),
        !in_part_10(*w),
        !in_part_11(*w),
        !in_part_12(*w),
        !in_part_13(*w),
        !in_part_14(*w),
        !in_part_15(*w),
    ensures
        r@ == wait_type_name(*w),
{
    proof {
        reveal(listed_name_16);
    }
    match w {
        WaitType::SLEEP_WORKSPACE_ALLOCATEPAGE => "SLEEP_WORKSPACE_ALLOCATEPAGE",
        WaitType::SLO_UPDATE => "SLO_UPDATE",
        WaitType::SMSYNC => "SMSYNC",
        WaitType::SNI_CONN_DUP => "SNI_CONN_DUP",
        WaitType::SNI_CRITICAL_SECTION => "SNI_CRITICAL_SECTION",
        WaitType::SNI_HTTP_WAITFOR_0_DISCON => "SNI_HTTP_WAITFOR_0_DISCON",
        WaitType::SNI_LISTENER_ACCESS => "SNI_LISTENER_ACCESS",
        WaitType::SNI_TASK_COMPLETION => "SNI_TASK_COMPLETION",
        WaitType::SNI_WRITE_ASYNC => "SNI_WRITE_ASYNC",
        WaitType::SOAP_READ => "SOAP_READ",
        WaitType::SOAP_WRITE => "SOAP_WRITE",
        WaitType::SOCKETDUPLICATEQUEUE_CLEANUP => "SOCKETDUPLICATEQUEUE_CLEANUP",
        WaitType::SOSHOST_EVENT => "SOSHOST_EVENT",
        WaitType::SOSHOST_INTERNAL => "SOSHOST_INTERNAL",
        WaitType::SOSHOST_MUTEX => "SOSHOST_MUTEX",
        WaitType::SOSHOST_RWLOCK => "SOSHOST_RWLOCK",
        WaitType::SOSHOST_SEMAPHORE => "SOSHOST_SEMAPHORE",
        WaitType::SOSHOST_SLEEP => "SOSHOST_SLEEP",
        WaitType::SOSHOST_TRACELOCK => "SOSHOST_TRACELOCK",
        WaitType::SOSHOST_WAITFORDONE => "SOSHOST_WAITFORDONE",
        WaitType::SOS_CALLBACK_REMOVAL => "SOS_CALLBACK_REMOVAL",
        WaitType::SOS_DISPATCHER_MUTEX => "SOS_DISPATCHER_MUTEX",
        WaitType::SOS_LOCALALLOCATORLIST => "SOS_LOCALALLOCATORLIST",
        WaitType::SOS_MEMORY_TOPLEVELBLOCKALLOCATOR => "SOS_MEMORY_TOPLEVELBLOCKALLOCATOR",
        WaitType::SOS_MEMORY_USAGE_ADJUSTMENT => "SOS_MEMORY_USAGE_ADJUSTMENT",
        WaitType::SOS_OBJECT_STORE_DESTROY_MUTEX => "SOS_OBJECT_STORE_DESTROY_MUTEX",
        WaitType::SOS_PHYS_PAGE_CACHE => "SOS_PHYS_PAGE_CACHE",
        WaitType::SOS_PROCESS_AFFINITY_MUTEX => "SOS_PROCESS_AFFINITY_MUTEX",
        WaitType::SOS_RESERVEDMEMBLOCKLIST => "SOS_RESERVEDMEMBLOCKLIST",
        WaitType::SOS_SCHEDULER_YIELD => "SOS_SCHEDULER_YIELD",
        WaitType::SOS_SMALL_PAGE_ALLOC => "SOS_SMALL_PAGE_ALLOC",
        WaitType::SOS_STACKSTORE_INIT_MUTEX => "SOS_STACKSTORE_INIT_MUTEX",
        WaitType::SOS_SYNC_TASK_ENQUEUE_EVENT => "SOS_SYNC_TASK_ENQUEUE_EVENT",
        WaitType::SOS_VIRTUALMEMORY_LOW => "SOS_VIRTUALMEMORY_LOW",
        WaitType::SOS_WORK_DISPATCHER => "SOS_WORK_DISPATCHER",
        WaitType::SPINLOCK_EXT => "SPINLOCK_EXT",
        WaitType::SP_PREEMPTIVE_SERVER_DIAGNOSTICS_SLEEP => "SP_PREEMPTIVE_SERVER_DIAGNOSTICS_SLEEP",
        WaitType::SP_SERVER_DIAGNOSTICS_BUFFER_ACCESS => "SP_SERVER_DIAGNOSTICS_BUFFER_ACCESS",
        WaitType::SP_SERVER_DIAGNOSTICS_INIT_MUTEX => "SP_SERVER_DIAGNOSTICS_INIT_MUTEX",
        WaitType::SP_SERVER_DIAGNOSTICS_SLEEP => "SP_SERVER_DIAGNOSTICS_SLEEP",
        WaitType::SQLCLR_APPDOMAIN => "SQLCLR_APPDOMAIN",
        WaitType::SQLCLR_ASSEMBLY => "SQLCLR_ASSEMBLY",
        WaitType::SQLCLR_DEADLOCK_DETECTION => "SQLCLR_DEADLOCK_DETECTION",
        WaitType::SQLCLR_QUANTUM_PUNISHMENT => "SQLCLR_QUANTUM_PUNISHMENT",
        WaitType::SQLSORT_NORMMUTEX => "SQLSORT_NORMMUTEX",
        WaitType::SQLSORT_SORTMUTEX => "SQLSORT_SORTMUTEX",
        WaitType::SQLTRACE_BUFFER_FLUSH => "SQLTRACE_BUFFER_FLUSH",
        WaitType::SQLTRACE_FILE_BUFFER => "SQLTRACE_FILE_BUFFER",
        WaitType::SQLTRACE_FILE_READ_IO_COMPLETION => "SQLTRACE_FILE_READ_IO_COMPLETION",
        WaitType::SQLTRACE_FILE_WRITE_IO_COMPLETION => "SQLTRACE_FILE_WRITE_IO_COMPLETION",
        _ => listed_as_str_17(w),
    }
}

fn listed_as_str_17(w: &WaitType) -> (r: &'static str)
    requires
        *w !is Unknown,
        !in_part_0(*w),
        !in_part_1(*w),
        !in_part_2(*w),
        !in_part_3(*w),
        !in_part_4(*w),
        !in_part_5(*w),
        !in_part_6(*w),
        !in_part_7(*w),
        !in_part_8(*w),
        !in_part_9(*w),
        !in_part_10(*w),
        !in_part_11(*w),
        !in_part_12(*w),
        !in_part_13(*w),
        !in_part_14(*w),
        !in_part_15(*w),
        !in_part_16(*w),
    ensures
        r@ == wait_type_name(*w),
{
    proof {
        reveal(listed_name_17);
    }
    match w {
        WaitType::SQLTRACE_INCREMENTAL_FLUSH_SLEEP => "SQLTRACE_INCREMENTAL_FLUSH_SLEEP",
        WaitType::SQLTRACE_LOCK => "SQLTRACE_LOCK",
        WaitType::SQLTRACE_PENDING_BUFFER_WRITERS => "SQLTRACE_PENDING_BUFFER_WRITERS",
        WaitType::SQLTRACE_SHUTDOWN => "SQLTRACE_SHUTDOWN",
        WaitType::SQLTRACE_WAIT_ENTRIES => "SQLTRACE_WAIT_ENTRIES",
        WaitType::SRVPROC_SHUTDOWN => "SRVPROC_SHUTDOWN",
        WaitType::STARTUP_DEPENDENCY_MANAGER => "STARTUP_DEPENDENCY_MANAGER",
        WaitType::TDS_BANDWIDTH_STATE => "TDS_BANDWIDTH_STATE",
        WaitType::TDS_INIT => "TDS_INIT",
        WaitType::TDS_PROXY_CONTAINER => "TDS_PROXY_CONTAINER",
        WaitType::TEMPOBJ => "TEMPOBJ",
        WaitType::TEMPORAL_BACKGROUND_PROCEED_CLEANUP => "TEMPORAL_BACKGROUND_PROCEED_CLEANUP",
        WaitType::TERMINATE_LISTENER => "TERMINATE_LISTENER",
        WaitType::THREADPOOL => "THREADPOOL",
        WaitType::TIMEPRIV_TIMEPERIOD => "TIMEPRIV_TIMEPERIOD",
        WaitType::TRACEWRITE => "TRACEWRITE",
        WaitType::TRACE_EVTNOTIF => "TRACE_EVTNOTIF",
        WaitType::TRANSACTION_MUTEX => "TRANSACTION_MUTEX",
        WaitType::TRAN_MARKLATCH_DT => "TRAN_MARKLATCH_DT",
        WaitType::TRAN_MARKLATCH_EX => "TRAN_MARKLATCH_EX",
        WaitType::TRAN_MARKLATCH_KP => "TRAN_MARKLATCH_KP",
        WaitType::TRAN_MARKLATCH_NL => "TRAN_MARKLATCH_NL",
        WaitType::TRAN_MARKLATCH_SH => "TRAN_MARKLATCH_SH",
        WaitType::TRAN_MARKLATCH_UP => "TRAN_MARKLATCH_UP",
        WaitType::UCS_ENDPOINT_CHANGE => "UCS_ENDPOINT_CHANGE",
        WaitType::UCS_MANAGER => "UCS_MANAGER",
        WaitType::UCS_MEMORY_NOTIFICATION => "UCS_MEMORY_NOTIFICATION",
        WaitType::UCS_SESSION_REGISTRATION => "UCS_SESSION_REGISTRATION",
        WaitType::UCS_TRANSPORT => "UCS_TRANSPORT",
        WaitType::UCS_TRANSPORT_STREAM_CHANGE => "UCS_TRANSPORT_STREAM_CHANGE",
        WaitType::UTIL_PAGE_ALLOC => "UTIL_PAGE_ALLOC",
        WaitType::VDI_CLIENT_COMPLETECOMMAND => "VDI_CLIENT_COMPLETECOMMAND",
        WaitType::VDI_CLIENT_GETCOMMAND => "VDI_CLIENT_GETCOMMAND",
        WaitType::VDI_CLIENT_OPERATION => "VDI_CLIENT_OPERATION",
        WaitType::VDI_CLIENT_OTHER => "VDI_CLIENT_OTHER",
        WaitType::VERSIONING_COMMITTING => "VERSIONING_COMMITTING",
        WaitType::VIA_ACCEPT => "VIA_ACCEPT",
        WaitType::VIEW_DEFINITION_MUTEX => "VIEW_DEFINITION_MUTEX",
        WaitType::WAITFOR => "WAITFOR",
        WaitType::WAITFOR_PER_QUEUE => "WAITFOR_PER_QUEUE",
        WaitType::WAITFOR_TASKSHUTDOWN => "WAITFOR_TASKSHUTDOWN",
        WaitType::WAITSTAT_MUTEX => "WAITSTAT_MUTEX",
        WaitType::WAIT_FOR_RESULTS => "WAIT_FOR_RESULTS",
        WaitType::WAIT_ON_SYNC_STATISTICS_REFRESH => "WAIT_ON_SYNC_STATISTICS_REFRESH",
        WaitType::WAIT_SCRIPTDEPLOYMENT_REQUEST => "WAIT_SCRIPTDEPLOYMENT_REQUEST",
        WaitType::WAIT_SCRIPTDEPLOYMENT_WORKER => "WAIT_SCRIPTDEPLOYMENT_WORKER",
        WaitType::WAIT_XLOGREAD_SIGNAL => "WAIT_XLOGREAD_SIGNAL",
        WaitType::WAIT_XTP_ASYNC_TX_COMPLETION => "WAIT_XTP_ASYNC_TX_COMPLETION",
        WaitType::WAIT_XTP_CKPT_AGENT_WAKEUP => "WAIT_XTP_CKPT_AGENT_WAKEUP",
        WaitType::WAIT_XTP_CKPT_CLOSE => "WAIT_XTP_CKPT_CLOSE",
        _ => listed_as_str_18(w),
    }
}

fn listed_as_str_18(w: &WaitType) -> (r: &'static str)
    requires
        *w !is Unknown,
        !in_part_0(*w),
        !in_part_1(*w),
        !in_part_2(*w),
        !in_part_3(*w),
        !in_part_4(*w),
        !in_part_5(*w),
        !in_part_6(*w),
        !in_part_7(*w),
        !in_part_8(*w),
        !in_part_9(*w),
        !in_part_10(*w),
        !in_part_11(*w),
        !in_part_12(*w),
        !in_part_13(*w),
        !in_part_14(*w),
        !in_part_15(*w),
        !in_part_16(*w),
        !in_part_17(*w),
    ensures
        r@ == wait_type_name(*w),
{
    proof {
        reveal(listed_name_18);
    }
    match w {
        WaitType::WAIT_XTP_CKPT_ENABLED => "WAIT_XTP_CKPT_ENABLED",
        WaitType::WAIT_XTP_CKPT_STATE_LOCK => "WAIT_XTP_CKPT_STATE_LOCK",
        WaitType::WAIT_XTP_COMPILE_WAIT => "WAIT_XTP_COMPILE_WAIT",
        WaitType::WAIT_XTP_GUEST => "WAIT_XTP_GUEST",
        WaitType::WAIT_XTP_HOST_WAIT => "WAIT_XTP_HOST_WAIT",
        WaitType::WAIT_XTP_OFFLINE_CKPT_BEFORE_REDO => "WAIT_XTP_OFFLINE_CKPT_BEFORE_REDO",
        WaitType::WAIT_XTP_OFFLINE_CKPT_LOG_IO => "WAIT_XTP_OFFLINE_CKPT_LOG_IO",
        WaitType::WAIT_XTP_OFFLINE_CKPT_NEW_LOG => "WAIT_XTP_OFFLINE_CKPT_NEW_LOG",
        WaitType::WAIT_XTP_PROCEDURE_ENTRY => "WAIT_XTP_PROCEDURE_ENTRY",
        WaitType::WAIT_XTP_RECOVERY => "WAIT_XTP_RECOVERY",
        WaitType::WAIT_XTP_SERIAL_RECOVERY => "WAIT_XTP_SERIAL_RECOVERY",
        WaitType::WAIT_XTP_SWITCH_TO_INACTIVE => "WAIT_XTP_SWITCH_TO_INACTIVE",
        WaitType::WAIT_XTP_TASK_SHUTDOWN => "WAIT_XTP_TASK_SHUTDOWN",
        WaitType::WAIT_XTP_TRAN_DEPENDENCY => "WAIT_XTP_TRAN_DEPENDENCY",
        WaitType::WCC => "WCC",
        WaitType::WINDOW_AGGREGATES_MULTIPASS => "WINDOW_AGGREGATES_MULTIPASS",
        WaitType::WINFAB_API_CALL => "WINFAB_API_CALL",
        WaitType::WINFAB_REPLICA_BUILD_OPERATION => "WINFAB_REPLICA_BUILD_OPERATION",
        WaitType::WINFAB_REPORT_FAULT => "WINFAB_REPORT_FAULT",
        WaitType::WORKTBL_DROP => "WORKTBL_DROP",
        WaitType::WRITELOG => "WRITELOG",
        WaitType::WRITE_COMPLETION => "WRITE_COMPLETION",
        WaitType::XACTLOCKINFO => "XACTLOCKINFO",
        WaitType::XACTWORKSPACE_MUTEX => "XACTWORKSPACE_MUTEX",
        WaitType::XACT_OWN_TRANSACTION => "XACT_OWN_TRANSACTION",
        WaitType::XACT_RECLAIM_SESSION => "XACT_RECLAIM_SESSION",
        WaitType::XDB_CONN_DUP_HASH => "XDB_CONN_DUP_HASH",
        WaitType::XDESTSVERMGR => "XDESTSVERMGR",
        WaitType::XDES_HISTORY => "XDES_HISTORY",
        WaitType::XDES_OUT_OF_ORDER_LIST => "XDES_OUT_OF_ORDER_LIST",
        WaitType::XDES_SNAPSHOT => "XDES_SNAPSHOT",
        WaitType::XE_BUFFERMGR_ALLPROCESSED_EVENT => "XE_BUFFERMGR_ALLPROCESSED_EVENT",
        WaitType::XE_BUFFERMGR_FREEBUF_EVENT => "XE_BUFFERMGR_FREEBUF_EVENT",
        WaitType::XE_CALLBACK_LIST => "XE_CALLBACK_LIST",
        WaitType::XE_CX_FILE_READ => "XE_CX_FILE_READ",
        WaitType::XE_DISPATCHER_CONFIG_SESSION_LIST => "XE_DISPATCHER_CONFIG_SESSION_LIST",
        WaitType::XE_DISPATCHER_JOIN => "XE_DISPATCHER_JOIN",
        WaitType::XE_DISPATCHER_WAIT => "XE_DISPATCHER_WAIT",
        WaitType::XE_FILE_TARGET_TVF => "XE_FILE_TARGET_TVF",
        WaitType::XE_LIVE_TARGET_TVF => "XE_LIVE_TARGET_TVF",
        WaitType::XE_MODULEMGR_SYNC => "XE_MODULEMGR_SYNC",
        WaitType::XE_OLS_LOCK => "XE_OLS_LOCK",
        WaitType::XE_PACKAGE_LOCK_BACKOFF => "XE_PACKAGE_LOCK_BACKOFF",
        WaitType::XE_SERVICES_EVENTMANUAL => "XE_SERVICES_EVENTMANUAL",
        WaitType::XE_SERVICES_MUTEX => "XE_SERVICES_MUTEX",
        WaitType::XE_SERVICES_RWLOCK => "XE_SERVICES_RWLOCK",
        WaitType::XE_SESSION_CREATE_SYNC => "XE_SESSION_CREATE_SYNC",
        WaitType::XE_SESSION_FLUSH => "XE_SESSION_FLUSH",
        WaitType::XE_SESSION_SYNC => "XE_SESSION_SYNC",
        WaitType::XE_STM_CREATE => "XE_STM_CREATE",
        _ => listed_as_str_19(w),
    }
}

fn listed_as_str_19(w: &WaitType) -> (r: &'static str)
    requires
        *w !is Unknown,
        !in_part_0(*w),
        !in_part_1(*w),
        !in_part_2(*w),
        !in_part_3(*w),
        !in_part_4(*w),
        !in_part_5(*w),
        !in_part_6(*w),
        !in_part_7(*w),
        !in_part_8(*w),
        !in_part_9(*w),
        !in_part_10(*w),
        !in_part_11(*w),
        !in_part_12(*w),
        !in_part_13(*w),
        !in_part_14(*w),
        !in_part_15(*w),
        !in_part_16(*w),
        !in_part_17(*w),
        !in_part_18(*w),
    ensures
        r@ == wait_type_name(*w),
{
    proof {
        reveal(listed_name_19);
    }
    match w {
        WaitType::XE_TIMER_EVENT => "XE_TIMER_EVENT",
        WaitType::XE_TIMER_MUTEX => "XE_TIMER_MUTEX",
        WaitType::XE_TIMER_TASK_DONE => "XE_TIMER_TASK_DONE",
        WaitType::XIO_CREDENTIAL_MGR_RWLOCK => "XIO_CREDENTIAL_MGR_RWLOCK",
        WaitType::XIO_CREDENTIAL_RWLOCK => "XIO_CREDENTIAL_RWLOCK",
        WaitType::XIO_EDS_MGR_RWLOCK => "XIO_EDS_MGR_RWLOCK",
        WaitType::XIO_EDS_RWLOCK => "XIO_EDS_RWLOCK",
        WaitType::XIO_IOSTATS_BLOBLIST_RWLOCK => "XIO_IOSTATS_BLOBLIST_RWLOCK",
        WaitType::XIO_IOSTATS_FCBLIST_RWLOCK => "XIO_IOSTATS_FCBLIST_RWLOCK",
        WaitType::XIO_LEASE_RENEW_MGR_RWLOCK => "XIO_LEASE_RENEW_MGR_RWLOCK",
        WaitType::XTPPROC_CACHE_ACCESS => "XTPPROC_CACHE_ACCESS",
        WaitType::XTPPROC_PARTITIONED_STACK_CREATE => "XTPPROC_PARTITIONED_STACK_CREATE",
        WaitType::XTP_HOST_DB_COLLECTION => "XTP_HOST_DB_COLLECTION",
        WaitType::XTP_HOST_LOG_ACTIVITY => "XTP_HOST_LOG_ACTIVITY",
        WaitType::XTP_HOST_PARALLEL_RECOVERY => "XTP_HOST_PARALLEL_RECOVERY",
        WaitType::XTP_PREEMPTIVE_TASK => "XTP_PREEMPTIVE_TASK",
        WaitType::XTP_TRUNCATION_LSN => "XTP_TRUNCATION_LSN",
        _ => {
            proof {
                reveal_strlit("");
            }
            ""
        },
    }
}

impl WaitType {
    /// The name of the wait type as SQL Server writes it.
    pub fn as_str(&self) -> (r: &str)
        ensures
            r@ == self@,
    {
        match self {
            WaitType::Unknown(s) => s.as_str(),
            _ => listed_as_str_0(self),
        }
    }
}

} // verus!
