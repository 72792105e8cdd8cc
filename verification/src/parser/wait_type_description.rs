//! The descriptions of the SQL Server wait types.
use crate::parser::wait_type::WaitType;
use vstd::prelude::*;

verus! {

/// `w` is one of the wait types in part 0 of the description table.
pub open spec fn in_description_part_0(w: WaitType) -> bool {
    w is ABR
        || w is CHECK_PRINT_RECORD
        || w is DBMIRROR_DBM_EVENT
        || w is DBMIRROR_DBM_MUTEX
        || w is DUMPTRIGGER
        || w is EC
        || w is FAILPOINT
        || w is GUARDIAN
        || w is INTERNAL_TESTING
        || w is IOAFF_RANGE_QUEUE
        || w is KTM_ENLISTMENT
        || w is KTM_RECOVERY_MANAGER
        || w is KTM_RECOVERY_RESOLUTION
        || w is LATCH_NL
        || w is LOGGENERATION
        || w is LOGMGR_FLUSH
        || w is MISCELLANEOUS
        || w is PAGEIOLATCH_NL
        || w is PAGELATCH_NL
        || w is PREEMPTIVE_ABR
        || w is PREEMPTIVE_SOSTESTING
        || w is PREEMPTIVE_STRESSDRIVER
        || w is PREEMPTIVE_TESTING
        || w is PREEMPTIVE_XETESTING
        || w is QUERY_NOTIFICATION_UNITTEST_MUTEX
        || w is QUERY_TRACEOUT
        || w is TRAN_MARKLATCH_NL
        || w is WAITFOR_TASKSHUTDOWN
        || w is WCC
        || w is XE_MODULEMGR_SYNC
        || w is XE_OLS_LOCK
        || w is AM_INDBUILD_ALLOCATION
        || w is AM_SCHEMAMGR_UNSHARED_CACHE
        || w is BROKER_DISPATCHER
        || w is BROKER_FORWARDER
        || w is BROKER_TRANSMISSION_OBJECT
        || w is BROKER_TRANSMISSION_TABLE
        || w is BROKER_TRANSMISSION_WORK
        || w is CHANGE_TRACKING_WAITFORCHANGES
        || w is COUNTRECOVERYMGR
        || w is CREATE_DATINISERVICE
        || w is DBCC_SCALE_OUT_EXPR_CACHE
        || w is DIRTY_PAGE_POLL
        || w is DIRTY_PAGE_SYNC
        || w is DISPATCHER_PRIORITY_QUEUE_SEMAPHORE
        || w is DTCPNTSYNC
        || w is ENABLE_EMPTY_VERSIONING
        || w is FFT_NSO_DB_KILL_FLAG
        || w is FFT_NSO_DB_LIST
        || w is FFT_NSO_FCB
}

/// The descriptions of the wait types in part 0 of the description table.
#[verifier::opaque]
pub open spec fn description_part_0(w: WaitType) -> &'static str {
    match w {
        WaitType::ABR | WaitType::CHECK_PRINT_RECORD | WaitType::DBMIRROR_DBM_EVENT | WaitType::DBMIRROR_DBM_MUTEX | WaitType::DUMPTRIGGER | WaitType::EC | WaitType::FAILPOINT | WaitType::GUARDIAN | WaitType::INTERNAL_TESTING | WaitType::IOAFF_RANGE_QUEUE | WaitType::KTM_ENLISTMENT | WaitType::KTM_RECOVERY_MANAGER | WaitType::KTM_RECOVERY_RESOLUTION | WaitType::LATCH_NL | WaitType::LOGGENERATION | WaitType::LOGMGR_FLUSH | WaitType::MISCELLANEOUS | WaitType::PAGEIOLATCH_NL | WaitType::PAGELATCH_NL | WaitType::PREEMPTIVE_ABR | WaitType::PREEMPTIVE_SOSTESTING | WaitType::PREEMPTIVE_STRESSDRIVER | WaitType::PREEMPTIVE_TESTING | WaitType::PREEMPTIVE_XETESTING | WaitType::QUERY_NOTIFICATION_UNITTEST_MUTEX | WaitType::QUERY_TRACEOUT | WaitType::TRAN_MARKLATCH_NL | WaitType::WAITFOR_TASKSHUTDOWN | WaitType::WCC | WaitType::XE_MODULEMGR_SYNC | WaitType::XE_OLS_LOCK => "Identified for informational purposes only. Not supported. Future compatibility isn't guaranteed.",
        WaitType::AM_INDBUILD_ALLOCATION | WaitType::AM_SCHEMAMGR_UNSHARED_CACHE | WaitType::BROKER_DISPATCHER | WaitType::BROKER_FORWARDER | WaitType::BROKER_TRANSMISSION_OBJECT | WaitType::BROKER_TRANSMISSION_TABLE | WaitType::BROKER_TRANSMISSION_WORK | WaitType::CHANGE_TRACKING_WAITFORCHANGES | WaitType::COUNTRECOVERYMGR | WaitType::CREATE_DATINISERVICE | WaitType::DBCC_SCALE_OUT_EXPR_CACHE | WaitType::DIRTY_PAGE_POLL | WaitType::DIRTY_PAGE_SYNC | WaitType::DISPATCHER_PRIORITY_QUEUE_SEMAPHORE | WaitType::DTCPNTSYNC | WaitType::ENABLE_EMPTY_VERSIONING | WaitType::FFT_NSO_DB_KILL_FLAG | WaitType::FFT_NSO_DB_LIST | WaitType::FFT_NSO_FCB => "Internal use only.\n\nApplies to: SQL Server 2012 (11.x) and later versions.",
        _ => "",
    }
}

/// `w` is one of the wait types in part 1 of the description table.
pub open spec fn in_description_part_1(w: WaitType) -> bool {
    w is FFT_NSO_FCB_FIND
        || w is FFT_NSO_FCB_PARENT
        || w is FFT_NSO_FCB_RELEASE_CACHED_ENTRIES
        || w is FFT_NSO_FILEOBJECT
        || w is FFT_NSO_TABLE_LIST
        || w is FFT_NTFS_STORE
        || w is FFT_RECOVERY
        || w is FFT_RSFX_COMM
        || w is FFT_RSFX_WAIT_FOR_MEMORY
        || w is FFT_STARTUP_SHUTDOWN
        || w is FFT_STORE_DB
        || w is FFT_STORE_ROWSET_LIST
        || w is FFT_STORE_TABLE
        || w is FILESTREAM_CACHE
        || w is FILESTREAM_CHUNKER
        || w is FILESTREAM_CHUNKER_INIT
        || w is FILESTREAM_FCB
        || w is FILESTREAM_FILE_OBJECT
        || w is FILESTREAM_WORKITEM_QUEUE
        || w is FILETABLE_SHUTDOWN
        || w is FT_MASTER_MERGE_COORDINATOR
        || w is FT_PROPERTYLIST_CACHE
        || w is GDMA_GET_RESOURCE_OWNER
        || w is GHOSTCLEANUPSYNCMGR
        || w is HADR_AR_UNLOAD_COMPLETED
        || w is HADR_CONNECTIVITY_INFO
        || w is LOGCAPTURE_LOGPOOLTRUNCPOINT
        || w is LOGPOOLREFCOUNTEDOBJECT_REFDONE
        || w is LOGPOOL_CACHESIZE
        || w is LOGPOOL_CONSUMER
        || w is LOGPOOL_CONSUMERSET
        || w is LOGPOOL_FREEPOOLS
        || w is LOGPOOL_MGRSET
        || w is LOGPOOL_REPLACEMENTSET
        || w is MD_AGENT_YIELD
        || w is MD_LAZYCACHE_RWLOCK
        || w is PREEMPTIVE_OS_PDH_WMI_INIT
        || w is PREEMPTIVE_OS_QUERYCONTEXTATTRIBUTES
        || w is PREEMPTIVE_SP_SERVER_DIAGNOSTICS
        || w is PRU_ROLLBACK_DEFERRED
        || w is PWAIT_ALL_COMPONENTS_INITIALIZED
        || w is PWAIT_COOP_SCAN
        || w is PWAIT_EVENT_SESSION_INIT_MUTEX
        || w is PWAIT_HADR_ACTION_COMPLETED
        || w is PWAIT_HADR_FAILOVER_COMPLETED
        || w is PWAIT_HADR_SERVER_READY_CONNECTIONS
        || w is PWAIT_PREEMPTIVE_AUDIT_ACCESS_WINDOWSLOG
        || w is PWAIT_QRY_BPMEMORY
        || w is PWAIT_REPLICA_ONLINE_INIT_MUTEX
        || w is PWAIT_RESOURCE_SEMAPHORE_FT_PARALLEL_QUERY_SYNC
}

/// The descriptions of the wait types in part 1 of the description table.
#[verifier::opaque]
pub open spec fn description_part_1(w: WaitType) -> &'static str {
    match w {
        WaitType::FFT_NSO_FCB_FIND | WaitType::FFT_NSO_FCB_PARENT | WaitType::FFT_NSO_FCB_RELEASE_CACHED_ENTRIES | WaitType::FFT_NSO_FILEOBJECT | WaitType::FFT_NSO_TABLE_LIST | WaitType::FFT_NTFS_STORE | WaitType::FFT_RECOVERY | WaitType::FFT_RSFX_COMM | WaitType::FFT_RSFX_WAIT_FOR_MEMORY | WaitType::FFT_STARTUP_SHUTDOWN | WaitType::FFT_STORE_DB | WaitType::FFT_STORE_ROWSET_LIST | WaitType::FFT_STORE_TABLE | WaitType::FILESTREAM_CACHE | WaitType::FILESTREAM_CHUNKER | WaitType::FILESTREAM_CHUNKER_INIT | WaitType::FILESTREAM_FCB | WaitType::FILESTREAM_FILE_OBJECT | WaitType::FILESTREAM_WORKITEM_QUEUE | WaitType::FILETABLE_SHUTDOWN | WaitType::FT_MASTER_MERGE_COORDINATOR | WaitType::FT_PROPERTYLIST_CACHE | WaitType::GDMA_GET_RESOURCE_OWNER | WaitType::GHOSTCLEANUPSYNCMGR | WaitType::HADR_AR_UNLOAD_COMPLETED | WaitType::HADR_CONNECTIVITY_INFO | WaitType::LOGCAPTURE_LOGPOOLTRUNCPOINT | WaitType::LOGPOOLREFCOUNTEDOBJECT_REFDONE | WaitType::LOGPOOL_CACHESIZE | WaitType::LOGPOOL_CONSUMER | WaitType::LOGPOOL_CONSUMERSET | WaitType::LOGPOOL_FREEPOOLS | WaitType::LOGPOOL_MGRSET | WaitType::LOGPOOL_REPLACEMENTSET | WaitType::MD_AGENT_YIELD | WaitType::MD_LAZYCACHE_RWLOCK | WaitType::PREEMPTIVE_OS_PDH_WMI_INIT | WaitType::PREEMPTIVE_OS_QUERYCONTEXTATTRIBUTES | WaitType::PREEMPTIVE_SP_SERVER_DIAGNOSTICS | WaitType::PRU_ROLLBACK_DEFERRED | WaitType::PWAIT_ALL_COMPONENTS_INITIALIZED | WaitType::PWAIT_COOP_SCAN | WaitType::PWAIT_EVENT_SESSION_INIT_MUTEX | WaitType::PWAIT_HADR_ACTION_COMPLETED | WaitType::PWAIT_HADR_FAILOVER_COMPLETED | WaitType::PWAIT_HADR_SERVER_READY_CONNECTIONS | WaitType::PWAIT_PREEMPTIVE_AUDIT_ACCESS_WINDOWSLOG | WaitType::PWAIT_QRY_BPMEMORY | WaitType::PWAIT_REPLICA_ONLINE_INIT_MUTEX | WaitType::PWAIT_RESOURCE_SEMAPHORE_FT_PARALLEL_QUERY_SYNC => "Internal use only.\n\nApplies to: SQL Server 2012 (11.x) and later versions.",
        _ => "",
    }
}

/// `w` is one of the wait types in part 2 of the description table.
pub open spec fn in_description_part_2(w: WaitType) -> bool {
    w is QRY_PARALLEL_THREAD_MUTEX
        || w is QUERY_TASK_ENQUEUE_MUTEX
        || w is REDO_THREAD_PENDING_WORK
        || w is REDO_THREAD_SYNC
        || w is REPL_TRANFSINFO_ACCESS
        || w is REPL_TRANTEXTINFO_ACCESS
        || w is RESOURCE_GOVERNOR_IDLE
        || w is SCAN_CHAR_HASH_ARRAY_INITIALIZATION
        || w is SECURITY_CRYPTO_CONTEXT_MUTEX
        || w is SECURITY_KEYRING_RWLOCK
        || w is SECURITY_RULETABLE_MUTEX
        || w is SEMPLAT_DSI_BUILD
        || w is SEQUENCE_GENERATION
        || w is SERVER_RECONFIGURE
        || w is SLEEP_MASTERDBREADY
        || w is SLEEP_MASTERMDREADY
        || w is SLEEP_MASTERUPGRADED
        || w is SOS_MEMORY_TOPLEVELBLOCKALLOCATOR
        || w is SP_PREEMPTIVE_SERVER_DIAGNOSTICS_SLEEP
        || w is SP_SERVER_DIAGNOSTICS_BUFFER_ACCESS
        || w is SP_SERVER_DIAGNOSTICS_INIT_MUTEX
        || w is SP_SERVER_DIAGNOSTICS_SLEEP
        || w is SQLTRACE_FILE_READ_IO_COMPLETION
        || w is SQLTRACE_FILE_WRITE_IO_COMPLETION
        || w is SQLTRACE_INCREMENTAL_FLUSH_SLEEP
        || w is SQLTRACE_PENDING_BUFFER_WRITERS
        || w is STARTUP_DEPENDENCY_MANAGER
        || w is TERMINATE_LISTENER
        || w is UCS_ENDPOINT_CHANGE
        || w is UCS_MANAGER
        || w is UCS_MEMORY_NOTIFICATION
        || w is UCS_SESSION_REGISTRATION
        || w is UCS_TRANSPORT
        || w is UCS_TRANSPORT_STREAM_CHANGE
        || w is VERSIONING_COMMITTING
        || w is WAITFOR_PER_QUEUE
        || w is XDESTSVERMGR
        || w is XDES_HISTORY
        || w is XDES_OUT_OF_ORDER_LIST
        || w is XDES_SNAPSHOT
        || w is XE_CALLBACK_LIST
        || w is XE_LIVE_TARGET_TVF
        || w is ASSEMBLY_FILTER_HASHTABLE
        || w is ASYNC_SOCKETDUP_IO
        || w is BLOB_METADATA
        || w is BROKER_START
        || w is CHECK_SCANNER_MUTEX
        || w is CHECK_TABLES_INITIALIZATION
        || w is CHECK_TABLES_SINGLE_SCAN
        || w is CHECK_TABLES_THREAD_BARRIER
}

/// The descriptions of the wait types in part 2 of the description table.
#[verifier::opaque]
pub open spec fn description_part_2(w: WaitType) -> &'static str {
    match w {
        WaitType::QRY_PARALLEL_THREAD_MUTEX | WaitType::QUERY_TASK_ENQUEUE_MUTEX | WaitType::REDO_THREAD_PENDING_WORK | WaitType::REDO_THREAD_SYNC | WaitType::REPL_TRANFSINFO_ACCESS | WaitType::REPL_TRANTEXTINFO_ACCESS | WaitType::RESOURCE_GOVERNOR_IDLE | WaitType::SCAN_CHAR_HASH_ARRAY_INITIALIZATION | WaitType::SECURITY_CRYPTO_CONTEXT_MUTEX | WaitType::SECURITY_KEYRING_RWLOCK | WaitType::SECURITY_RULETABLE_MUTEX | WaitType::SEMPLAT_DSI_BUILD | WaitType::SEQUENCE_GENERATION | WaitType::SERVER_RECONFIGURE | WaitType::SLEEP_MASTERDBREADY | WaitType::SLEEP_MASTERMDREADY | WaitType::SLEEP_MASTERUPGRADED | WaitType::SOS_MEMORY_TOPLEVELBLOCKALLOCATOR | WaitType::SP_PREEMPTIVE_SERVER_DIAGNOSTICS_SLEEP | WaitType::SP_SERVER_DIAGNOSTICS_BUFFER_ACCESS | WaitType::SP_SERVER_DIAGNOSTICS_INIT_MUTEX | WaitType::SP_SERVER_DIAGNOSTICS_SLEEP | WaitType::SQLTRACE_FILE_READ_IO_COMPLETION | WaitType::SQLTRACE_FILE_WRITE_IO_COMPLETION | WaitType::SQLTRACE_INCREMENTAL_FLUSH_SLEEP | WaitType::SQLTRACE_PENDING_BUFFER_WRITERS | WaitType::STARTUP_DEPENDENCY_MANAGER | WaitType::TERMINATE_LISTENER | WaitType::UCS_ENDPOINT_CHANGE | WaitType::UCS_MANAGER | WaitType::UCS_MEMORY_NOTIFICATION | WaitType::UCS_SESSION_REGISTRATION | WaitType::UCS_TRANSPORT | WaitType::UCS_TRANSPORT_STREAM_CHANGE | WaitType::VERSIONING_COMMITTING | WaitType::WAITFOR_PER_QUEUE | WaitType::XDESTSVERMGR | WaitType::XDES_HISTORY | WaitType::XDES_OUT_OF_ORDER_LIST | WaitType::XDES_SNAPSHOT | WaitType::XE_CALLBACK_LIST | WaitType::XE_LIVE_TARGET_TVF => "Internal use only.\n\nApplies to: SQL Server 2012 (11.x) and later versions.",
        WaitType::ASSEMBLY_FILTER_HASHTABLE | WaitType::ASYNC_SOCKETDUP_IO | WaitType::BLOB_METADATA | WaitType::BROKER_START | WaitType::CHECK_SCANNER_MUTEX | WaitType::CHECK_TABLES_INITIALIZATION | WaitType::CHECK_TABLES_SINGLE_SCAN | WaitType::CHECK_TABLES_THREAD_BARRIER => "Internal use only.\n\nApplies to: SQL Server 2016 (13.x) and later versions.",
        _ => "",
    }
}

/// `w` is one of the wait types in part 3 of the description table.
pub open spec fn in_description_part_3(w: WaitType) -> bool {
    w is COLUMNSTORE_COLUMNDATASET_SESSION_LIST
        || w is CONNECTION_ENDPOINT_LOCK
        || w is DIRECTLOGCONSUMER_LIST
        || w is DIRTY_PAGE_TABLE_LOCK
        || w is DPT_ENTRY_LOCK
        || w is DTCNEW_ENLIST
        || w is DTCNEW_PREPARE
        || w is DTCNEW_RECOVERY
        || w is DTCNEW_TM
        || w is DTCNEW_TRANSACTION_ENLISTMENT
        || w is EXTERNAL_RG_UPDATE
        || w is EXTERNAL_SCRIPT_PREPARE_SERVICE
        || w is EXTERNAL_SCRIPT_SHUTDOWN
        || w is EXTERNAL_WAIT_ON_LAUNCHER
        || w is FILE_VALIDATION_THREADS
        || w is FORWARDER_TRANSITION
        || w is GLOBAL_QUERY_CLOSE
        || w is GLOBAL_TRAN_CREATE
        || w is GLOBAL_TRAN_UCS_SESSION
        || w is HADR_DATABASE_WAIT_FOR_RECOVERY
        || w is HADR_FILESTREAM_PREPROC
        || w is HADR_SEEDING_CANCELLATION
        || w is HADR_SEEDING_FILE_LIST
        || w is HADR_SEEDING_LIMIT_BACKUPS
        || w is HADR_SEEDING_SYNC_COMPLETION
        || w is HADR_SEEDING_TIMEOUT_TASK
        || w is HADR_SEEDING_WAIT_FOR_COMPLETION
        || w is HADR_THROTTLE_LOG_RATE_GOVERNOR
        || w is HCCO_CACHE
        || w is HKCS_PARALLEL_MIGRATION
        || w is HKCS_PARALLEL_RECOVERY
        || w is HK_RESTORE_FILEMAP
        || w is INSTANCE_LOG_RATE_GOVERNOR
        || w is IO_QUEUE_LIMIT
        || w is LOGMGR_PMM_LOG
        || w is LOG_POOL_SCAN
        || w is LOG_RATE_GOVERNOR
        || w is NETWORKSXMLMGRLOAD
        || w is PARALLEL_REDO_DRAIN_WORKER
        || w is PARALLEL_REDO_FLOW_CONTROL
        || w is PARALLEL_REDO_LOG_CACHE
        || w is PARALLEL_REDO_TRAN_LIST
        || w is PARALLEL_REDO_TRAN_TURN
        || w is PARALLEL_REDO_WORKER_SYNC
        || w is PARALLEL_REDO_WORKER_WAIT_WORK
        || w is POOL_LOG_RATE_GOVERNOR
        || w is PREEMPTIVE_HTTP_EVENT_WAIT
        || w is PREEMPTIVE_HTTP_REQUEST
        || w is PREEMPTIVE_OS_GETFINALFILEPATHBYHANDLE
        || w is PREEMPTIVE_OS_VERIFYTRUST
}

/// The descriptions of the wait types in part 3 of the description table.
#[verifier::opaque]
pub open spec fn description_part_3(w: WaitType) -> &'static str {
    match w {
        WaitType::COLUMNSTORE_COLUMNDATASET_SESSION_LIST | WaitType::CONNECTION_ENDPOINT_LOCK | WaitType::DIRECTLOGCONSUMER_LIST | WaitType::DIRTY_PAGE_TABLE_LOCK | WaitType::DPT_ENTRY_LOCK | WaitType::DTCNEW_ENLIST | WaitType::DTCNEW_PREPARE | WaitType::DTCNEW_RECOVERY | WaitType::DTCNEW_TM | WaitType::DTCNEW_TRANSACTION_ENLISTMENT | WaitType::EXTERNAL_RG_UPDATE | WaitType::EXTERNAL_SCRIPT_PREPARE_SERVICE | WaitType::EXTERNAL_SCRIPT_SHUTDOWN | WaitType::EXTERNAL_WAIT_ON_LAUNCHER | WaitType::FILE_VALIDATION_THREADS | WaitType::FORWARDER_TRANSITION | WaitType::GLOBAL_QUERY_CLOSE | WaitType::GLOBAL_TRAN_CREATE | WaitType::GLOBAL_TRAN_UCS_SESSION | WaitType::HADR_DATABASE_WAIT_FOR_RECOVERY | WaitType::HADR_FILESTREAM_PREPROC | WaitType::HADR_SEEDING_CANCELLATION | WaitType::HADR_SEEDING_FILE_LIST | WaitType::HADR_SEEDING_LIMIT_BACKUPS | WaitType::HADR_SEEDING_SYNC_COMPLETION | WaitType::HADR_SEEDING_TIMEOUT_TASK | WaitType::HADR_SEEDING_WAIT_FOR_COMPLETION | WaitType::HADR_THROTTLE_LOG_RATE_GOVERNOR | WaitType::HCCO_CACHE | WaitType::HKCS_PARALLEL_MIGRATION | WaitType::HKCS_PARALLEL_RECOVERY | WaitType::HK_RESTORE_FILEMAP | WaitType::INSTANCE_LOG_RATE_GOVERNOR | WaitType::IO_QUEUE_LIMIT | WaitType::LOGMGR_PMM_LOG | WaitType::LOG_POOL_SCAN | WaitType::LOG_RATE_GOVERNOR | WaitType::NETWORKSXMLMGRLOAD | WaitType::PARALLEL_REDO_DRAIN_WORKER | WaitType::PARALLEL_REDO_FLOW_CONTROL | WaitType::PARALLEL_REDO_LOG_CACHE | WaitType::PARALLEL_REDO_TRAN_LIST | WaitType::PARALLEL_REDO_TRAN_TURN | WaitType::PARALLEL_REDO_WORKER_SYNC | WaitType::PARALLEL_REDO_WORKER_WAIT_WORK | WaitType::POOL_LOG_RATE_GOVERNOR | WaitType::PREEMPTIVE_HTTP_EVENT_WAIT | WaitType::PREEMPTIVE_HTTP_REQUEST | WaitType::PREEMPTIVE_OS_GETFINALFILEPATHBYHANDLE | WaitType::PREEMPTIVE_OS_VERIFYTRUST => "Internal use only.\n\nApplies to: SQL Server 2016 (13.x) and later versions.",
        _ => "",
    }
}

/// `w` is one of the wait types in part 4 of the description table.
pub open spec fn in_description_part_4(w: WaitType) -> bool {
    w is PWAIT_DIRECTLOGCONSUMER_GETNEXT
        || w is PWAIT_FABRIC_REPLICA_CONTROLLER_DATA_LOSS
        || w is PWAIT_HADRSIM
        || w is QDS_ASYNC_QUEUE
        || w is QDS_BLOOM_FILTER
        || w is QDS_EXCLUSIVE_ACCESS
        || w is QDS_QDS_CAPTURE_INIT
        || w is QRY_PROFILE_LIST_MUTEX
        || w is RECOVERY_MGR_LOCK
        || w is REMOTE_DATA_ARCHIVE_MIGRATION_DMV
        || w is REMOTE_DATA_ARCHIVE_SCHEMA_DMV
        || w is REMOTE_DATA_ARCHIVE_SCHEMA_TASK_QUEUE
        || w is RESERVED_MEMORY_ALLOCATION_EXT
        || w is RESTORE_FILEHANDLECACHE_ENTRYLOCK
        || w is RESTORE_FILEHANDLECACHE_LOCK
        || w is ROWGROUP_OP_STATS
        || w is ROWGROUP_VERSION
        || w is SATELLITE_CARGO
        || w is SATELLITE_SERVICE_SETUP
        || w is SATELLITE_TASK
        || w is SECURITY_DBE_STATE_MUTEX
        || w is SESSION_WAIT_STATS_CHILDREN
        || w is SHARED_DELTASTORE_CREATION
        || w is SLEEP_BUFFERPOOL_HELPLW
        || w is SLEEP_MEMORYPOOL_ALLOCATEPAGES
        || w is SLEEP_RETRY_VIRTUALALLOC
        || w is SLEEP_WORKSPACE_ALLOCATEPAGE
        || w is SMSYNC
        || w is SOCKETDUPLICATEQUEUE_CLEANUP
        || w is TDS_BANDWIDTH_STATE
        || w is TDS_INIT
        || w is TDS_PROXY_CONTAINER
        || w is WAIT_XTP_SWITCH_TO_INACTIVE
        || w is WINDOW_AGGREGATES_MULTIPASS
        || w is WINFAB_REPORT_FAULT
        || w is XDB_CONN_DUP_HASH
        || w is XE_FILE_TARGET_TVF
        || w is XIO_CREDENTIAL_MGR_RWLOCK
        || w is XIO_CREDENTIAL_RWLOCK
        || w is XIO_LEASE_RENEW_MGR_RWLOCK
        || w is XTP_HOST_PARALLEL_RECOVERY
        || w is XTP_PREEMPTIVE_TASK
        || w is XTP_TRUNCATION_LSN
        || w is ASSEMBLY_LOAD
        || w is ASYNC_DISKPOOL_LOCK
        || w is ASYNC_IO_COMPLETION
        || w is ASYNC_NETWORK_IO
        || w is ASYNC_OP_COMPLETION
        || w is ASYNC_OP_CONTEXT_READ
        || w is ASYNC_OP_CONTEXT_WRITE
}

/// The descriptions of the wait types in part 4 of the description table.
#[verifier::opaque]
pub open spec fn description_part_4(w: WaitType) -> &'static str {
    match w {
        WaitType::PWAIT_DIRECTLOGCONSUMER_GETNEXT | WaitType::PWAIT_FABRIC_REPLICA_CONTROLLER_DATA_LOSS | WaitType::PWAIT_HADRSIM | WaitType::QDS_ASYNC_QUEUE | WaitType::QDS_BLOOM_FILTER | WaitType::QDS_EXCLUSIVE_ACCESS | WaitType::QDS_QDS_CAPTURE_INIT | WaitType::QRY_PROFILE_LIST_MUTEX | WaitType::RECOVERY_MGR_LOCK | WaitType::REMOTE_DATA_ARCHIVE_MIGRATION_DMV | WaitType::REMOTE_DATA_ARCHIVE_SCHEMA_DMV | WaitType::REMOTE_DATA_ARCHIVE_SCHEMA_TASK_QUEUE | WaitType::RESERVED_MEMORY_ALLOCATION_EXT | WaitType::RESTORE_FILEHANDLECACHE_ENTRYLOCK | WaitType::RESTORE_FILEHANDLECACHE_LOCK | WaitType::ROWGROUP_OP_STATS | WaitType::ROWGROUP_VERSION | WaitType::SATELLITE_CARGO | WaitType::SATELLITE_SERVICE_SETUP | WaitType::SATELLITE_TASK | WaitType::SECURITY_DBE_STATE_MUTEX | WaitType::SESSION_WAIT_STATS_CHILDREN | WaitType::SHARED_DELTASTORE_CREATION | WaitType::SLEEP_BUFFERPOOL_HELPLW | WaitType::SLEEP_MEMORYPOOL_ALLOCATEPAGES | WaitType::SLEEP_RETRY_VIRTUALALLOC | WaitType::SLEEP_WORKSPACE_ALLOCATEPAGE | WaitType::SMSYNC | WaitType::SOCKETDUPLICATEQUEUE_CLEANUP | WaitType::TDS_BANDWIDTH_STATE | WaitType::TDS_INIT | WaitType::TDS_PROXY_CONTAINER | WaitType::WAIT_XTP_SWITCH_TO_INACTIVE | WaitType::WINDOW_AGGREGATES_MULTIPASS | WaitType::WINFAB_REPORT_FAULT | WaitType::XDB_CONN_DUP_HASH | WaitType::XE_FILE_TARGET_TVF | WaitType::XIO_CREDENTIAL_MGR_RWLOCK | WaitType::XIO_CREDENTIAL_RWLOCK | WaitType::XIO_LEASE_RENEW_MGR_RWLOCK | WaitType::XTP_HOST_PARALLEL_RECOVERY | WaitType::XTP_PREEMPTIVE_TASK | WaitType::XTP_TRUNCATION_LSN => "Internal use only.\n\nApplies to: SQL Server 2016 (13.x) and later versions.",
        WaitType::ASSEMBLY_LOAD => "Occurs during exclusive access to assembly loading.",
        WaitType::ASYNC_DISKPOOL_LOCK => "Occurs when there's an attempt to synchronize parallel threads that are performing tasks such as creating or initializing a file.",
        WaitType::ASYNC_IO_COMPLETION => "Occurs when a task is waiting for asynchronous non-data I/Os to finish. Examples include I/O involved in warm standby log shipping, database mirroring, some bulk import related operations.",
        WaitType::ASYNC_NETWORK_IO => "Occurs on network writes when the task is blocked waiting for the client application to acknowledge that it has processed all the data sent to it. Verify that the client application is processing data from the server as fast as possible or that no network delays exist. Reasons the client application can't consume data fast enough include: application design issues like writing results to a file while the results arrive, waiting for user input, client-side filtering on a large dataset instead of server-side filtering, or an intentional wait introduced. Also the client computer might be experiencing slow response due to issues like low virtual/physical memory, 100% CPU consumption, etc. Network delays can also lead to this wait - typically caused by network adapter driver issues, filter drivers, firewalls, or misconfigured routers.",
        WaitType::ASYNC_OP_COMPLETION | WaitType::ASYNC_OP_CONTEXT_READ | WaitType::ASYNC_OP_CONTEXT_WRITE => "Internal use only.\n\nApplies to: SQL Server 2014 (12.x) and later versions.",
        _ => "",
    }
}

/// `w` is one of the wait types in part 5 of the description table.
pub open spec fn in_description_part_5(w: WaitType) -> bool {
    w is BROKER_TASK_SHUTDOWN
        || w is BROKER_TASK_SUBMIT
        || w is CMEMPARTITIONED
        || w is COLUMNSTORE_BUILD_THROTTLE
        || w is DBSEEDING_FLOWCONTROL
        || w is DBSEEDING_OPERATION
        || w is DROP_DATABASE_TIMER_TASK
        || w is FABRIC_HADR_TRANSPORT_CONNECTION
        || w is FABRIC_REPLICA_CONTROLLER_LIST
        || w is FABRIC_REPLICA_CONTROLLER_STATE_AND_CONFIG
        || w is FABRIC_REPLICA_PUBLISHER_EVENT_PUBLISH
        || w is FABRIC_REPLICA_PUBLISHER_SUBSCRIBER_LIST
        || w is FABRIC_WAIT_FOR_BUILD_REPLICA_EVENT_PROCESSING
        || w is FEATURE_SWITCHES_UPDATE
        || w is FFT_NSO_FCB_STATE
        || w is HADR_DBSEEDING
        || w is HADR_DBSEEDING_LIST
        || w is HADR_FABRIC_CALLBACK
        || w is HTTP_STORAGE_CONNECTION
        || w is PHYSICAL_SEEDING_DMV
        || w is PREEMPTIVE_XE_CX_FILE_OPEN
        || w is PREEMPTIVE_XE_CX_HTTP_CALL
        || w is PWAIT_HADR_JOIN
        || w is PWAIT_LOG_CONSOLIDATION_IO
        || w is PWAIT_LOG_CONSOLIDATION_POLL
        || w is PWAIT_XTP_FSSTORAGE_MAINTENANCE
        || w is PWAIT_XTP_HOST_STORAGE_WAIT
        || w is QDS_ASYNC_CHECK_CONSISTENCY_TASK
        || w is QDS_ASYNC_PERSIST_TASK
        || w is QDS_ASYNC_PERSIST_TASK_START
        || w is QDS_BCKG_TASK
        || w is QDS_CLEANUP_STALE_QUERIES_TASK_MAIN_LOOP_SLEEP
        || w is QDS_CTXS
        || w is QDS_DB_DISK
        || w is QDS_DYN_VECTOR
        || w is QDS_LOADDB
        || w is QDS_PERSIST_TASK_MAIN_LOOP_SLEEP
        || w is QDS_SHUTDOWN_QUEUE
        || w is QDS_STMT
        || w is QDS_STMT_DISK
        || w is QDS_TASK_SHUTDOWN
        || w is QDS_TASK_START
        || w is QE_WARN_LIST_SYNC
        || w is RTDATA_LIST
        || w is SLO_UPDATE
        || w is SNI_CONN_DUP
        || w is VDI_CLIENT_COMPLETECOMMAND
        || w is VDI_CLIENT_GETCOMMAND
        || w is VDI_CLIENT_OPERATION
        || w is VDI_CLIENT_OTHER
}

/// The descriptions of the wait types in part 5 of the description table.
#[verifier::opaque]
pub open spec fn description_part_5(w: WaitType) -> &'static str {
    match w {
        WaitType::BROKER_TASK_SHUTDOWN | WaitType::BROKER_TASK_SUBMIT | WaitType::CMEMPARTITIONED | WaitType::COLUMNSTORE_BUILD_THROTTLE | WaitType::DBSEEDING_FLOWCONTROL | WaitType::DBSEEDING_OPERATION | WaitType::DROP_DATABASE_TIMER_TASK | WaitType::FABRIC_HADR_TRANSPORT_CONNECTION | WaitType::FABRIC_REPLICA_CONTROLLER_LIST | WaitType::FABRIC_REPLICA_CONTROLLER_STATE_AND_CONFIG | WaitType::FABRIC_REPLICA_PUBLISHER_EVENT_PUBLISH | WaitType::FABRIC_REPLICA_PUBLISHER_SUBSCRIBER_LIST | WaitType::FABRIC_WAIT_FOR_BUILD_REPLICA_EVENT_PROCESSING | WaitType::FEATURE_SWITCHES_UPDATE | WaitType::FFT_NSO_FCB_STATE | WaitType::HADR_DBSEEDING | WaitType::HADR_DBSEEDING_LIST | WaitType::HADR_FABRIC_CALLBACK | WaitType::HTTP_STORAGE_CONNECTION | WaitType::PHYSICAL_SEEDING_DMV | WaitType::PREEMPTIVE_XE_CX_FILE_OPEN | WaitType::PREEMPTIVE_XE_CX_HTTP_CALL | WaitType::PWAIT_HADR_JOIN | WaitType::PWAIT_LOG_CONSOLIDATION_IO | WaitType::PWAIT_LOG_CONSOLIDATION_POLL | WaitType::PWAIT_XTP_FSSTORAGE_MAINTENANCE | WaitType::PWAIT_XTP_HOST_STORAGE_WAIT | WaitType::QDS_ASYNC_CHECK_CONSISTENCY_TASK | WaitType::QDS_ASYNC_PERSIST_TASK | WaitType::QDS_ASYNC_PERSIST_TASK_START | WaitType::QDS_BCKG_TASK | WaitType::QDS_CLEANUP_STALE_QUERIES_TASK_MAIN_LOOP_SLEEP | WaitType::QDS_CTXS | WaitType::QDS_DB_DISK | WaitType::QDS_DYN_VECTOR | WaitType::QDS_LOADDB | WaitType::QDS_PERSIST_TASK_MAIN_LOOP_SLEEP | WaitType::QDS_SHUTDOWN_QUEUE | WaitType::QDS_STMT | WaitType::QDS_STMT_DISK | WaitType::QDS_TASK_SHUTDOWN | WaitType::QDS_TASK_START | WaitType::QE_WARN_LIST_SYNC | WaitType::RTDATA_LIST | WaitType::SLO_UPDATE | WaitType::SNI_CONN_DUP | WaitType::VDI_CLIENT_COMPLETECOMMAND | WaitType::VDI_CLIENT_GETCOMMAND | WaitType::VDI_CLIENT_OPERATION | WaitType::VDI_CLIENT_OTHER => "Internal use only.\n\nApplies to: SQL Server 2014 (12.x) and later versions.",
        _ => "",
    }
}

/// `w` is one of the wait types in part 6 of the description table.
pub open spec fn in_description_part_6(w: WaitType) -> bool {
    w is WAIT_SCRIPTDEPLOYMENT_REQUEST
        || w is WAIT_SCRIPTDEPLOYMENT_WORKER
        || w is WAIT_XTP_ASYNC_TX_COMPLETION
        || w is WAIT_XTP_CKPT_AGENT_WAKEUP
        || w is WAIT_XTP_OFFLINE_CKPT_BEFORE_REDO
        || w is WINFAB_API_CALL
        || w is WINFAB_REPLICA_BUILD_OPERATION
        || w is XE_CX_FILE_READ
        || w is XTP_HOST_DB_COLLECTION
        || w is XTP_HOST_LOG_ACTIVITY
        || w is AUDIT_GROUPCACHE_LOCK
        || w is AUDIT_LOGINCACHE_LOCK
        || w is AUDIT_ON_DEMAND_TARGET_LOCK
        || w is AUDIT_XE_SESSION_MGR
        || w is BACKUP
        || w is BACKUPBUFFER
        || w is BACKUPIO
        || w is BACKUPTHREAD
        || w is BACKUP_OPERATOR
        || w is BAD_PAGE_PROCESS
        || w is BMPALLOCATION
        || w is BMPBUILD
        || w is BMPREPARTITION
        || w is BMPREPLICATION
        || w is BPSORT
        || w is BROKER_CONNECTION_RECEIVE_TASK
        || w is BROKER_ENDPOINT_STATE_MUTEX
        || w is BROKER_EVENTHANDLER
        || w is BROKER_INIT
        || w is BROKER_MASTERSTART
        || w is BROKER_RECEIVE_WAITFOR
        || w is BROKER_REGISTERALLENDPOINTS
        || w is BROKER_SERVICE
        || w is BROKER_SHUTDOWN
        || w is BROKER_TASK_STOP
        || w is BROKER_TO_FLUSH
        || w is BROKER_TRANSMITTER
        || w is BUFFERPOOL_SCAN
        || w is BUILTIN_HASHKEY_MUTEX
        || w is CHECKPOINT_QUEUE
        || w is CHKPT
        || w is CLEAR_DB
        || w is CLRHOST_STATE_ACCESS
        || w is CLR_AUTO_EVENT
        || w is CLR_CRST
        || w is CLR_JOIN
        || w is CLR_MANUAL_EVENT
        || w is CLR_MEMORY_SPY
        || w is CLR_MONITOR
        || w is CLR_RWLOCK_READER
}

/// The descriptions of the wait types in part 6 of the description table.
#[verifier::opaque]
pub open spec fn description_part_6(w: WaitType) -> &'static str {
    match w {
        WaitType::WAIT_SCRIPTDEPLOYMENT_REQUEST | WaitType::WAIT_SCRIPTDEPLOYMENT_WORKER | WaitType::WAIT_XTP_ASYNC_TX_COMPLETION | WaitType::WAIT_XTP_CKPT_AGENT_WAKEUP | WaitType::WAIT_XTP_OFFLINE_CKPT_BEFORE_REDO | WaitType::WINFAB_API_CALL | WaitType::WINFAB_REPLICA_BUILD_OPERATION | WaitType::XE_CX_FILE_READ | WaitType::XTP_HOST_DB_COLLECTION | WaitType::XTP_HOST_LOG_ACTIVITY => "Internal use only.\n\nApplies to: SQL Server 2014 (12.x) and later versions.",
        WaitType::AUDIT_GROUPCACHE_LOCK => "Occurs when there's a wait on a lock that controls access to a special cache. The cache contains information about which audits are being used to audit each audit action group.",
        WaitType::AUDIT_LOGINCACHE_LOCK => "Occurs when there's a wait on a lock that controls access to a special cache. The cache contains information about which audits are being used to audit login audit action groups.",
        WaitType::AUDIT_ON_DEMAND_TARGET_LOCK => "Occurs when there's a wait on a lock that is used to ensure single initialization of audit related Extended Event targets.",
        WaitType::AUDIT_XE_SESSION_MGR => "Occurs when there's a wait on a lock that is used to synchronize the starting and stopping of audit related Extended Events sessions.",
        WaitType::BACKUP => "Occurs when a task is blocked as part of backup processing.",
        WaitType::BACKUPBUFFER | WaitType::BACKUPIO => "Occurs when a backup task is waiting for data, or is waiting for a buffer in which to store data. This type isn't typical, except when a task is waiting for a tape mount.",
        WaitType::BACKUPTHREAD => "Occurs when a task is waiting for a backup task to finish. Wait times might be long, from several minutes to several hours. If the task that is being waited on is in an I/O process, this type doesn't indicate a problem.",
        WaitType::BACKUP_OPERATOR => "Occurs when a task is waiting for a tape mount. To view the tape status, query sys.dm_io_backup_tapes. If a mount operation isn't pending, this wait type might indicate a hardware problem with the tape drive.",
        WaitType::BAD_PAGE_PROCESS => "Occurs when the background suspect page logger is trying to avoid running more than every five seconds. Excessive suspect pages cause the logger to run frequently.",
        WaitType::BMPALLOCATION => "Occurs with parallel batch-mode plans when synchronizing the allocation of a large bitmap filter. If waiting is excessive and can't be reduced by tuning the query (such as adding indexes), consider adjusting the cost threshold for parallelism, or lowering the degree of parallelism.\n\nApplies to: SQL Server 2014 (12.x) and later versions.",
        WaitType::BMPBUILD => "Occurs with parallel batch-mode plans when synchronizing the building of a large bitmap filter. If waiting is excessive and can't be reduced by tuning the query (such as adding indexes), consider adjusting the cost threshold for parallelism, or lowering the degree of parallelism.\n\nApplies to: SQL Server 2014 (12.x) and later versions.",
        WaitType::BMPREPARTITION => "Occurs with parallel batch-mode plans when synchronizing the repartitioning of a large bitmap filter. If waiting is excessive and can't be reduced by tuning the query (such as adding indexes), consider adjusting the cost threshold for parallelism, or lowering the degree of parallelism.\n\nApplies to: SQL Server 2014 (12.x) and later versions.",
        WaitType::BMPREPLICATION => "Occurs with parallel batch-mode plans when synchronizing the replication of a large bitmap filter across worker threads. If waiting is excessive and can't be reduced by tuning the query (such as adding indexes), consider adjusting the cost threshold for parallelism, or lowering the degree of parallelism.\n\nApplies to: SQL Server 2014 (12.x) and later versions.",
        WaitType::BPSORT => "Occurs with parallel batch-mode plans when synchronizing the sorting of a dataset across multiple threads. If waiting is excessive and can't be reduced by tuning the query (such as adding indexes), consider adjusting the cost threshold for parallelism, or lowering the degree of parallelism.\n\nApplies to: SQL Server 2016 (13.x) and later versions.",
        WaitType::BROKER_CONNECTION_RECEIVE_TASK => "Occurs when waiting for access to receive a message on a connection endpoint. Receive access to the endpoint is serialized.",
        WaitType::BROKER_ENDPOINT_STATE_MUTEX => "Occurs when there's contention to access the state of a Service Broker connection endpoint. Access to the state for changes is serialized.",
        WaitType::BROKER_EVENTHANDLER => "Occurs when a task is waiting in the primary event handler of the Service Broker. This should occur very briefly.",
        WaitType::BROKER_INIT => "Occurs when initializing Service Broker in each active database. This should occur infrequently.",
        WaitType::BROKER_MASTERSTART => "Occurs when a task is waiting for the primary event handler of the Service Broker to start. This should occur very briefly.",
        WaitType::BROKER_RECEIVE_WAITFOR => "Occurs when the RECEIVE WAITFOR is waiting. This might mean that either no messages are ready to be received in the queue or a lock contention is preventing it from receiving messages from the queue.",
        WaitType::BROKER_REGISTERALLENDPOINTS => "Occurs during the initialization of a Service Broker connection endpoint. This should occur very briefly.",
        WaitType::BROKER_SERVICE => "Occurs when the Service Broker destination list that is associated with a target service is updated or reprioritized.",
        WaitType::BROKER_SHUTDOWN => "Occurs when there's a planned shutdown of Service Broker. This should occur very briefly, if at all.",
        WaitType::BROKER_TASK_STOP => "Occurs when the Service Broker queue task handler tries to shut down the task. The state check is serialized and must be in a running state beforehand.",
        WaitType::BROKER_TO_FLUSH => "Occurs when the Service Broker lazy flusher flushes the in-memory transmission objects to a work table.",
        WaitType::BROKER_TRANSMITTER => "Occurs when the Service Broker transmitter is waiting for work. Service Broker has a component known as the Transmitter, which schedules messages from multiple dialogs to be sent across the wire over one or more connection endpoints. The transmitter has two dedicated threads for this purpose. This wait type is charged when these transmitter threads are waiting for dialog messages to be sent using the transport connections. High values of waiting_tasks_count for this wait type point to intermittent work for these transmitter threads and aren't indications of any performance problem. If service broker isn't used at all, waiting_tasks_count should be 2 (for the two transmitter threads), and wait_time_ms should be twice the duration since instance startup. See Service broker wait stats.",
        WaitType::BUFFERPOOL_SCAN => "Might occur when the buffer pool scan runs in parallel and the main task waits for the scan to complete. For more information, see Operations that trigger a buffer pool scan may run slowly on large-memory computers.\n\nApplies to: SQL Server 2022 (16.x) and later versions.",
        WaitType::BUILTIN_HASHKEY_MUTEX => "Might occur after startup of instance, while internal data structures are initializing. Doesn't recur once data structures have initialized.",
        WaitType::CHECKPOINT_QUEUE => "Occurs while the checkpoint task is waiting for the next checkpoint request.",
        WaitType::CHKPT => "Occurs at server startup to tell the checkpoint thread that it can start.",
        WaitType::CLEAR_DB => "Occurs during operations that change the state of a database, such as opening or closing a database.",
        WaitType::CLRHOST_STATE_ACCESS => "Occurs where there's a wait to acquire exclusive access to the CLR-hosting data structures. This wait type occurs while setting up or tearing down the CLR runtime.",
        WaitType::CLR_AUTO_EVENT => "Occurs when a task is currently performing common language runtime (CLR) execution and is waiting for a particular autoevent to be initiated. Long waits are typical, and don't indicate a problem.",
        WaitType::CLR_CRST => "Occurs when a task is currently performing CLR execution, and is waiting to enter a critical section of the task that is currently being used by another task.",
        WaitType::CLR_JOIN => "Occurs when a task is currently performing CLR execution, and is waiting for another task to end. This wait state occurs when there's a join between tasks.",
        WaitType::CLR_MANUAL_EVENT => "Occurs when a task is currently performing CLR execution, and is waiting for a specific manual event to be initiated.",
        WaitType::CLR_MEMORY_SPY => "Occurs during a wait on lock acquisition for a data structure that is used to record all virtual memory allocations that come from CLR. The data structure is locked to maintain its integrity if there's parallel access.",
        WaitType::CLR_MONITOR => "Occurs when a task is currently performing CLR execution, and is waiting to obtain a lock on the monitor.",
        WaitType::CLR_RWLOCK_READER => "Occurs when a task is currently performing CLR execution, and is waiting for a reader lock.",
        _ => "",
    }
}

/// `w` is one of the wait types in part 7 of the description table.
pub open spec fn in_description_part_7(w: WaitType) -> bool {
    w is CLR_RWLOCK_WRITER
        || w is CLR_SEMAPHORE
        || w is CLR_TASK_START
        || w is CMEMTHREAD
        || w is COMMIT_TABLE
        || w is DUMP_LOG_COORDINATOR_QUEUE
        || w is NODE_CACHE_MUTEX
        || w is PERFORMANCE_COUNTERS_RWLOCK
        || w is PREEMPTIVE_COM_COGETCLASSOBJECT
        || w is PREEMPTIVE_COM_CREATEACCESSOR
        || w is PREEMPTIVE_COM_DELETEROWS
        || w is PREEMPTIVE_COM_GETCOMMANDTEXT
        || w is PREEMPTIVE_COM_GETDATA
        || w is PREEMPTIVE_COM_GETNEXTROWS
        || w is PREEMPTIVE_COM_GETRESULT
        || w is PREEMPTIVE_COM_GETROWSBYBOOKMARK
        || w is PREEMPTIVE_COM_LBFLUSH
        || w is PREEMPTIVE_COM_LBLOCKREGION
        || w is PREEMPTIVE_COM_LBREADAT
        || w is PREEMPTIVE_COM_LBSETSIZE
        || w is PREEMPTIVE_COM_LBSTAT
        || w is PREEMPTIVE_COM_LBUNLOCKREGION
        || w is PREEMPTIVE_COM_LBWRITEAT
        || w is PREEMPTIVE_COM_QUERYINTERFACE
        || w is PREEMPTIVE_COM_RELEASE
        || w is PREEMPTIVE_COM_RELEASEACCESSOR
        || w is PREEMPTIVE_COM_RELEASEROWS
        || w is PREEMPTIVE_COM_RELEASESESSION
        || w is PREEMPTIVE_COM_RESTARTPOSITION
        || w is PREEMPTIVE_COM_SEQSTRMREAD
        || w is PREEMPTIVE_COM_SEQSTRMREADANDWRITE
        || w is PREEMPTIVE_COM_SETDATAFAILURE
        || w is PREEMPTIVE_COM_SETPARAMETERINFO
        || w is PREEMPTIVE_COM_SETPARAMETERPROPERTIES
        || w is PREEMPTIVE_COM_STRMLOCKREGION
        || w is PREEMPTIVE_COM_STRMSEEKANDREAD
        || w is PREEMPTIVE_COM_STRMSEEKANDWRITE
        || w is PREEMPTIVE_COM_STRMSETSIZE
        || w is PREEMPTIVE_COM_STRMSTAT
        || w is PREEMPTIVE_COM_STRMUNLOCKREGION
        || w is PREEMPTIVE_CONSOLEWRITE
        || w is PREEMPTIVE_CREATEPARAM
        || w is PREEMPTIVE_DEBUG
        || w is PREEMPTIVE_DFSADDLINK
        || w is PREEMPTIVE_DFSLINKEXISTCHECK
        || w is PREEMPTIVE_DFSLINKHEALTHCHECK
        || w is PREEMPTIVE_DFSREMOVELINK
        || w is PREEMPTIVE_DFSREMOVEROOT
        || w is PREEMPTIVE_DFSROOTFOLDERCHECK
        || w is PREEMPTIVE_DFSROOTINIT
}

/// The descriptions of the wait types in part 7 of the description table.
#[verifier::opaque]
pub open spec fn description_part_7(w: WaitType) -> &'static str {
    match w {
        WaitType::CLR_RWLOCK_WRITER => "Occurs when a task is currently performing CLR execution, and is waiting for a writer lock.",
        WaitType::CLR_SEMAPHORE => "Occurs when a task is currently performing CLR execution, and is waiting for a semaphore.",
        WaitType::CLR_TASK_START => "Occurs while waiting for a CLR task to complete startup.",
        WaitType::CMEMTHREAD => "Occurs when a task is waiting on a thread-safe memory object. The wait time might increase when there's contention caused by multiple tasks trying to allocate memory from the same memory object.",
        WaitType::COMMIT_TABLE | WaitType::DUMP_LOG_COORDINATOR_QUEUE | WaitType::NODE_CACHE_MUTEX | WaitType::PERFORMANCE_COUNTERS_RWLOCK | WaitType::PREEMPTIVE_COM_COGETCLASSOBJECT | WaitType::PREEMPTIVE_COM_CREATEACCESSOR | WaitType::PREEMPTIVE_COM_DELETEROWS | WaitType::PREEMPTIVE_COM_GETCOMMANDTEXT | WaitType::PREEMPTIVE_COM_GETDATA | WaitType::PREEMPTIVE_COM_GETNEXTROWS | WaitType::PREEMPTIVE_COM_GETRESULT | WaitType::PREEMPTIVE_COM_GETROWSBYBOOKMARK | WaitType::PREEMPTIVE_COM_LBFLUSH | WaitType::PREEMPTIVE_COM_LBLOCKREGION | WaitType::PREEMPTIVE_COM_LBREADAT | WaitType::PREEMPTIVE_COM_LBSETSIZE | WaitType::PREEMPTIVE_COM_LBSTAT | WaitType::PREEMPTIVE_COM_LBUNLOCKREGION | WaitType::PREEMPTIVE_COM_LBWRITEAT | WaitType::PREEMPTIVE_COM_QUERYINTERFACE | WaitType::PREEMPTIVE_COM_RELEASE | WaitType::PREEMPTIVE_COM_RELEASEACCESSOR | WaitType::PREEMPTIVE_COM_RELEASEROWS | WaitType::PREEMPTIVE_COM_RELEASESESSION | WaitType::PREEMPTIVE_COM_RESTARTPOSITION | WaitType::PREEMPTIVE_COM_SEQSTRMREAD | WaitType::PREEMPTIVE_COM_SEQSTRMREADANDWRITE | WaitType::PREEMPTIVE_COM_SETDATAFAILURE | WaitType::PREEMPTIVE_COM_SETPARAMETERINFO | WaitType::PREEMPTIVE_COM_SETPARAMETERPROPERTIES | WaitType::PREEMPTIVE_COM_STRMLOCKREGION | WaitType::PREEMPTIVE_COM_STRMSEEKANDREAD | WaitType::PREEMPTIVE_COM_STRMSEEKANDWRITE | WaitType::PREEMPTIVE_COM_STRMSETSIZE | WaitType::PREEMPTIVE_COM_STRMSTAT | WaitType::PREEMPTIVE_COM_STRMUNLOCKREGION | WaitType::PREEMPTIVE_CONSOLEWRITE | WaitType::PREEMPTIVE_CREATEPARAM | WaitType::PREEMPTIVE_DEBUG | WaitType::PREEMPTIVE_DFSADDLINK | WaitType::PREEMPTIVE_DFSLINKEXISTCHECK | WaitType::PREEMPTIVE_DFSLINKHEALTHCHECK | WaitType::PREEMPTIVE_DFSREMOVELINK | WaitType::PREEMPTIVE_DFSREMOVEROOT | WaitType::PREEMPTIVE_DFSROOTFOLDERCHECK | WaitType::PREEMPTIVE_DFSROOTINIT => "Internal use only.",
        _ => "",
    }
}

/// `w` is one of the wait types in part 8 of the description table.
pub open spec fn in_description_part_8(w: WaitType) -> bool {
    w is PREEMPTIVE_DFSROOTSHARECHECK
        || w is PREEMPTIVE_DTC_ABORT
        || w is PREEMPTIVE_DTC_ABORTREQUESTDONE
        || w is PREEMPTIVE_DTC_BEGINTRANSACTION
        || w is PREEMPTIVE_DTC_COMMITREQUESTDONE
        || w is PREEMPTIVE_DTC_ENLIST
        || w is PREEMPTIVE_DTC_PREPAREREQUESTDONE
        || w is PREEMPTIVE_FILESIZEGET
        || w is PREEMPTIVE_FSAOLEDB_ABORTTRANSACTION
        || w is PREEMPTIVE_FSAOLEDB_COMMITTRANSACTION
        || w is PREEMPTIVE_FSAOLEDB_STARTTRANSACTION
        || w is PREEMPTIVE_FSRECOVER_UNCONDITIONALUNDO
        || w is PREEMPTIVE_GETRMINFO
        || w is PREEMPTIVE_LOCKMONITOR
        || w is PREEMPTIVE_MSS_RELEASE
        || w is PREEMPTIVE_ODBCOPS
        || w is PREEMPTIVE_OLEDBOPS
        || w is PREEMPTIVE_OLEDB_ABORTORCOMMITTRAN
        || w is PREEMPTIVE_OLEDB_ABORTTRAN
        || w is PREEMPTIVE_OLEDB_GETDATASOURCE
        || w is PREEMPTIVE_OLEDB_GETLITERALINFO
        || w is PREEMPTIVE_OLEDB_GETPROPERTIES
        || w is PREEMPTIVE_OLEDB_GETPROPERTYINFO
        || w is PREEMPTIVE_OLEDB_GETSCHEMALOCK
        || w is PREEMPTIVE_OLEDB_JOINTRANSACTION
        || w is PREEMPTIVE_OLEDB_RELEASE
        || w is PREEMPTIVE_OLEDB_SETPROPERTIES
        || w is PREEMPTIVE_OLE_UNINIT
        || w is PREEMPTIVE_OS_ACCEPTSECURITYCONTEXT
        || w is PREEMPTIVE_OS_ACQUIRECREDENTIALSHANDLE
        || w is PREEMPTIVE_OS_AUTHENTICATIONOPS
        || w is PREEMPTIVE_OS_AUTHORIZATIONOPS
        || w is PREEMPTIVE_OS_AUTHZGETINFORMATIONFROMCONTEXT
        || w is PREEMPTIVE_OS_AUTHZINITIALIZECONTEXTFROMSID
        || w is PREEMPTIVE_OS_AUTHZINITIALIZERESOURCEMANAGER
        || w is PREEMPTIVE_OS_BACKUPREAD
        || w is PREEMPTIVE_OS_CLOSEHANDLE
        || w is PREEMPTIVE_OS_CLUSTEROPS
        || w is PREEMPTIVE_OS_COMOPS
        || w is PREEMPTIVE_OS_COMPLETEAUTHTOKEN
        || w is PREEMPTIVE_OS_COPYFILE
        || w is PREEMPTIVE_OS_CREATEDIRECTORY
        || w is PREEMPTIVE_OS_CREATEFILE
        || w is PREEMPTIVE_OS_CRYPTACQUIRECONTEXT
        || w is PREEMPTIVE_OS_CRYPTIMPORTKEY
        || w is PREEMPTIVE_OS_CRYPTOPS
        || w is PREEMPTIVE_OS_DECRYPTMESSAGE
        || w is PREEMPTIVE_OS_DELETEFILE
        || w is PREEMPTIVE_OS_DELETESECURITYCONTEXT
        || w is PREEMPTIVE_OS_DEVICEIOCONTROL
}

/// The descriptions of the wait types in part 8 of the description table.
#[verifier::opaque]
pub open spec fn description_part_8(w: WaitType) -> &'static str {
    match w {
        WaitType::PREEMPTIVE_DFSROOTSHARECHECK | WaitType::PREEMPTIVE_DTC_ABORT | WaitType::PREEMPTIVE_DTC_ABORTREQUESTDONE | WaitType::PREEMPTIVE_DTC_BEGINTRANSACTION | WaitType::PREEMPTIVE_DTC_COMMITREQUESTDONE | WaitType::PREEMPTIVE_DTC_ENLIST | WaitType::PREEMPTIVE_DTC_PREPAREREQUESTDONE | WaitType::PREEMPTIVE_FILESIZEGET | WaitType::PREEMPTIVE_FSAOLEDB_ABORTTRANSACTION | WaitType::PREEMPTIVE_FSAOLEDB_COMMITTRANSACTION | WaitType::PREEMPTIVE_FSAOLEDB_STARTTRANSACTION | WaitType::PREEMPTIVE_FSRECOVER_UNCONDITIONALUNDO | WaitType::PREEMPTIVE_GETRMINFO | WaitType::PREEMPTIVE_LOCKMONITOR | WaitType::PREEMPTIVE_MSS_RELEASE | WaitType::PREEMPTIVE_ODBCOPS | WaitType::PREEMPTIVE_OLEDBOPS | WaitType::PREEMPTIVE_OLEDB_ABORTORCOMMITTRAN | WaitType::PREEMPTIVE_OLEDB_ABORTTRAN | WaitType::PREEMPTIVE_OLEDB_GETDATASOURCE | WaitType::PREEMPTIVE_OLEDB_GETLITERALINFO | WaitType::PREEMPTIVE_OLEDB_GETPROPERTIES | WaitType::PREEMPTIVE_OLEDB_GETPROPERTYINFO | WaitType::PREEMPTIVE_OLEDB_GETSCHEMALOCK | WaitType::PREEMPTIVE_OLEDB_JOINTRANSACTION | WaitType::PREEMPTIVE_OLEDB_RELEASE | WaitType::PREEMPTIVE_OLEDB_SETPROPERTIES | WaitType::PREEMPTIVE_OLE_UNINIT | WaitType::PREEMPTIVE_OS_ACCEPTSECURITYCONTEXT | WaitType::PREEMPTIVE_OS_ACQUIRECREDENTIALSHANDLE | WaitType::PREEMPTIVE_OS_AUTHENTICATIONOPS | WaitType::PREEMPTIVE_OS_AUTHORIZATIONOPS | WaitType::PREEMPTIVE_OS_AUTHZGETINFORMATIONFROMCONTEXT | WaitType::PREEMPTIVE_OS_AUTHZINITIALIZECONTEXTFROMSID | WaitType::PREEMPTIVE_OS_AUTHZINITIALIZERESOURCEMANAGER | WaitType::PREEMPTIVE_OS_BACKUPREAD | WaitType::PREEMPTIVE_OS_CLOSEHANDLE | WaitType::PREEMPTIVE_OS_CLUSTEROPS | WaitType::PREEMPTIVE_OS_COMOPS | WaitType::PREEMPTIVE_OS_COMPLETEAUTHTOKEN | WaitType::PREEMPTIVE_OS_COPYFILE | WaitType::PREEMPTIVE_OS_CREATEDIRECTORY | WaitType::PREEMPTIVE_OS_CREATEFILE | WaitType::PREEMPTIVE_OS_CRYPTACQUIRECONTEXT | WaitType::PREEMPTIVE_OS_CRYPTIMPORTKEY | WaitType::PREEMPTIVE_OS_CRYPTOPS | WaitType::PREEMPTIVE_OS_DECRYPTMESSAGE | WaitType::PREEMPTIVE_OS_DELETEFILE | WaitType::PREEMPTIVE_OS_DELETESECURITYCONTEXT | WaitType::PREEMPTIVE_OS_DEVICEIOCONTROL => "Internal use only.",
        _ => "",
    }
}

/// `w` is one of the wait types in part 9 of the description table.
pub open spec fn in_description_part_9(w: WaitType) -> bool {
    w is PREEMPTIVE_OS_DEVICEOPS
        || w is PREEMPTIVE_OS_DIRSVC_NETWORKOPS
        || w is PREEMPTIVE_OS_DISCONNECTNAMEDPIPE
        || w is PREEMPTIVE_OS_DOMAINSERVICESOPS
        || w is PREEMPTIVE_OS_DSGETDCNAME
        || w is PREEMPTIVE_OS_DTCOPS
        || w is PREEMPTIVE_OS_ENCRYPTMESSAGE
        || w is PREEMPTIVE_OS_FILEOPS
        || w is PREEMPTIVE_OS_FINDFILE
        || w is PREEMPTIVE_OS_FLUSHFILEBUFFERS
        || w is PREEMPTIVE_OS_FORMATMESSAGE
        || w is PREEMPTIVE_OS_FREECREDENTIALSHANDLE
        || w is PREEMPTIVE_OS_FREELIBRARY
        || w is PREEMPTIVE_OS_GENERICOPS
        || w is PREEMPTIVE_OS_GETADDRINFO
        || w is PREEMPTIVE_OS_GETCOMPRESSEDFILESIZE
        || w is PREEMPTIVE_OS_GETDISKFREESPACE
        || w is PREEMPTIVE_OS_GETFILEATTRIBUTES
        || w is PREEMPTIVE_OS_GETFILESIZE
        || w is PREEMPTIVE_OS_GETLONGPATHNAME
        || w is PREEMPTIVE_OS_GETPROCADDRESS
        || w is PREEMPTIVE_OS_GETVOLUMENAMEFORVOLUMEMOUNTPOINT
        || w is PREEMPTIVE_OS_GETVOLUMEPATHNAME
        || w is PREEMPTIVE_OS_INITIALIZESECURITYCONTEXT
        || w is PREEMPTIVE_OS_LIBRARYOPS
        || w is PREEMPTIVE_OS_LOADLIBRARY
        || w is PREEMPTIVE_OS_LOGONUSER
        || w is PREEMPTIVE_OS_LOOKUPACCOUNTSID
        || w is PREEMPTIVE_OS_MESSAGEQUEUEOPS
        || w is PREEMPTIVE_OS_MOVEFILE
        || w is PREEMPTIVE_OS_NETGROUPGETUSERS
        || w is PREEMPTIVE_OS_NETLOCALGROUPGETMEMBERS
        || w is PREEMPTIVE_OS_NETUSERGETGROUPS
        || w is PREEMPTIVE_OS_NETUSERGETLOCALGROUPS
        || w is PREEMPTIVE_OS_NETUSERMODALSGET
        || w is PREEMPTIVE_OS_NETVALIDATEPASSWORDPOLICY
        || w is PREEMPTIVE_OS_NETVALIDATEPASSWORDPOLICYFREE
        || w is PREEMPTIVE_OS_OPENDIRECTORY
        || w is PREEMPTIVE_OS_PIPEOPS
        || w is PREEMPTIVE_OS_PROCESSOPS
        || w is PREEMPTIVE_OS_QUERYREGISTRY
        || w is PREEMPTIVE_OS_QUERYSECURITYCONTEXTTOKEN
        || w is PREEMPTIVE_OS_REMOVEDIRECTORY
        || w is PREEMPTIVE_OS_REPORTEVENT
        || w is PREEMPTIVE_OS_REVERTTOSELF
        || w is PREEMPTIVE_OS_RSFXDEVICEOPS
        || w is PREEMPTIVE_OS_SECURITYOPS
        || w is PREEMPTIVE_OS_SERVICEOPS
        || w is PREEMPTIVE_OS_SETENDOFFILE
        || w is PREEMPTIVE_OS_SETFILEPOINTER
}

/// The descriptions of the wait types in part 9 of the description table.
#[verifier::opaque]
pub open spec fn description_part_9(w: WaitType) -> &'static str {
    match w {
        WaitType::PREEMPTIVE_OS_DEVICEOPS | WaitType::PREEMPTIVE_OS_DIRSVC_NETWORKOPS | WaitType::PREEMPTIVE_OS_DISCONNECTNAMEDPIPE | WaitType::PREEMPTIVE_OS_DOMAINSERVICESOPS | WaitType::PREEMPTIVE_OS_DSGETDCNAME | WaitType::PREEMPTIVE_OS_DTCOPS | WaitType::PREEMPTIVE_OS_ENCRYPTMESSAGE | WaitType::PREEMPTIVE_OS_FILEOPS | WaitType::PREEMPTIVE_OS_FINDFILE | WaitType::PREEMPTIVE_OS_FLUSHFILEBUFFERS | WaitType::PREEMPTIVE_OS_FORMATMESSAGE | WaitType::PREEMPTIVE_OS_FREECREDENTIALSHANDLE | WaitType::PREEMPTIVE_OS_FREELIBRARY | WaitType::PREEMPTIVE_OS_GENERICOPS | WaitType::PREEMPTIVE_OS_GETADDRINFO | WaitType::PREEMPTIVE_OS_GETCOMPRESSEDFILESIZE | WaitType::PREEMPTIVE_OS_GETDISKFREESPACE | WaitType::PREEMPTIVE_OS_GETFILEATTRIBUTES | WaitType::PREEMPTIVE_OS_GETFILESIZE | WaitType::PREEMPTIVE_OS_GETLONGPATHNAME | WaitType::PREEMPTIVE_OS_GETPROCADDRESS | WaitType::PREEMPTIVE_OS_GETVOLUMENAMEFORVOLUMEMOUNTPOINT | WaitType::PREEMPTIVE_OS_GETVOLUMEPATHNAME | WaitType::PREEMPTIVE_OS_INITIALIZESECURITYCONTEXT | WaitType::PREEMPTIVE_OS_LIBRARYOPS | WaitType::PREEMPTIVE_OS_LOADLIBRARY | WaitType::PREEMPTIVE_OS_LOGONUSER | WaitType::PREEMPTIVE_OS_LOOKUPACCOUNTSID | WaitType::PREEMPTIVE_OS_MESSAGEQUEUEOPS | WaitType::PREEMPTIVE_OS_MOVEFILE | WaitType::PREEMPTIVE_OS_NETGROUPGETUSERS | WaitType::PREEMPTIVE_OS_NETLOCALGROUPGETMEMBERS | WaitType::PREEMPTIVE_OS_NETUSERGETGROUPS | WaitType::PREEMPTIVE_OS_NETUSERGETLOCALGROUPS | WaitType::PREEMPTIVE_OS_NETUSERMODALSGET | WaitType::PREEMPTIVE_OS_NETVALIDATEPASSWORDPOLICY | WaitType::PREEMPTIVE_OS_NETVALIDATEPASSWORDPOLICYFREE | WaitType::PREEMPTIVE_OS_OPENDIRECTORY | WaitType::PREEMPTIVE_OS_PIPEOPS | WaitType::PREEMPTIVE_OS_PROCESSOPS | WaitType::PREEMPTIVE_OS_QUERYREGISTRY | WaitType::PREEMPTIVE_OS_QUERYSECURITYCONTEXTTOKEN | WaitType::PREEMPTIVE_OS_REMOVEDIRECTORY | WaitType::PREEMPTIVE_OS_REPORTEVENT | WaitType::PREEMPTIVE_OS_REVERTTOSELF | WaitType::PREEMPTIVE_OS_RSFXDEVICEOPS | WaitType::PREEMPTIVE_OS_SECURITYOPS | WaitType::PREEMPTIVE_OS_SERVICEOPS | WaitType::PREEMPTIVE_OS_SETENDOFFILE | WaitType::PREEMPTIVE_OS_SETFILEPOINTER => "Internal use only.",
        _ => "",
    }
}

/// `w` is one of the wait types in part 10 of the description table.
pub open spec fn in_description_part_10(w: WaitType) -> bool {
    w is PREEMPTIVE_OS_SETFILEVALIDDATA
        || w is PREEMPTIVE_OS_SETNAMEDSECURITYINFO
        || w is PREEMPTIVE_OS_SQLCLROPS
        || w is PREEMPTIVE_OS_VERIFYSIGNATURE
        || w is PREEMPTIVE_OS_VSSOPS
        || w is PREEMPTIVE_OS_WAITFORSINGLEOBJECT
        || w is PREEMPTIVE_OS_WINSOCKOPS
        || w is PREEMPTIVE_OS_WRITEFILE
        || w is PREEMPTIVE_OS_WRITEFILEGATHER
        || w is PREEMPTIVE_OS_WSASETLASTERROR
        || w is PREEMPTIVE_REENLIST
        || w is PREEMPTIVE_RESIZELOG
        || w is PREEMPTIVE_ROLLFORWARDREDO
        || w is PREEMPTIVE_ROLLFORWARDUNDO
        || w is PREEMPTIVE_SB_STOPENDPOINT
        || w is PREEMPTIVE_SERVER_STARTUP
        || w is PREEMPTIVE_SETRMINFO
        || w is PREEMPTIVE_SHAREDMEM_GETDATA
        || w is PREEMPTIVE_SNIOPEN
        || w is PREEMPTIVE_SOSHOST
        || w is PREEMPTIVE_STARTRM
        || w is PREEMPTIVE_STREAMFCB_CHECKPOINT
        || w is PREEMPTIVE_STREAMFCB_RECOVER
        || w is PREEMPTIVE_TRANSIMPORT
        || w is PREEMPTIVE_UNMARSHALPROPAGATIONTOKEN
        || w is PREEMPTIVE_VSS_CREATESNAPSHOT
        || w is PREEMPTIVE_VSS_CREATEVOLUMESNAPSHOT
        || w is PREEMPTIVE_XE_CALLBACKEXECUTE
        || w is PREEMPTIVE_XE_DISPATCHER
        || w is PREEMPTIVE_XE_ENGINEINIT
        || w is PREEMPTIVE_XE_GETTARGETSTATE
        || w is PREEMPTIVE_XE_SESSIONCOMMIT
        || w is PREEMPTIVE_XE_TARGETFINALIZE
        || w is PREEMPTIVE_XE_TARGETINIT
        || w is PREEMPTIVE_XE_TIMERRUN
        || w is REPL_HISTORYCACHE_ACCESS
        || w is REPL_TRANHASHTABLE_ACCESS
        || w is RG_RECONFIG
        || w is TRACE_EVTNOTIF
        || w is XE_SERVICES_EVENTMANUAL
        || w is XE_SERVICES_MUTEX
        || w is XE_SERVICES_RWLOCK
        || w is XE_SESSION_CREATE_SYNC
        || w is XE_SESSION_FLUSH
        || w is XE_SESSION_SYNC
        || w is XE_STM_CREATE
        || w is XE_TIMER_EVENT
        || w is XE_TIMER_MUTEX
        || w is XE_TIMER_TASK_DONE
        || w is CXCONSUMER
}

/// The descriptions of the wait types in part 10 of the description table.
#[verifier::opaque]
pub open spec fn description_part_10(w: WaitType) -> &'static str {
    match w {
        WaitType::PREEMPTIVE_OS_SETFILEVALIDDATA | WaitType::PREEMPTIVE_OS_SETNAMEDSECURITYINFO | WaitType::PREEMPTIVE_OS_SQLCLROPS | WaitType::PREEMPTIVE_OS_VERIFYSIGNATURE | WaitType::PREEMPTIVE_OS_VSSOPS | WaitType::PREEMPTIVE_OS_WAITFORSINGLEOBJECT | WaitType::PREEMPTIVE_OS_WINSOCKOPS | WaitType::PREEMPTIVE_OS_WRITEFILE | WaitType::PREEMPTIVE_OS_WRITEFILEGATHER | WaitType::PREEMPTIVE_OS_WSASETLASTERROR | WaitType::PREEMPTIVE_REENLIST | WaitType::PREEMPTIVE_RESIZELOG | WaitType::PREEMPTIVE_ROLLFORWARDREDO | WaitType::PREEMPTIVE_ROLLFORWARDUNDO | WaitType::PREEMPTIVE_SB_STOPENDPOINT | WaitType::PREEMPTIVE_SERVER_STARTUP | WaitType::PREEMPTIVE_SETRMINFO | WaitType::PREEMPTIVE_SHAREDMEM_GETDATA | WaitType::PREEMPTIVE_SNIOPEN | WaitType::PREEMPTIVE_SOSHOST | WaitType::PREEMPTIVE_STARTRM | WaitType::PREEMPTIVE_STREAMFCB_CHECKPOINT | WaitType::PREEMPTIVE_STREAMFCB_RECOVER | WaitType::PREEMPTIVE_TRANSIMPORT | WaitType::PREEMPTIVE_UNMARSHALPROPAGATIONTOKEN | WaitType::PREEMPTIVE_VSS_CREATESNAPSHOT | WaitType::PREEMPTIVE_VSS_CREATEVOLUMESNAPSHOT | WaitType::PREEMPTIVE_XE_CALLBACKEXECUTE | WaitType::PREEMPTIVE_XE_DISPATCHER | WaitType::PREEMPTIVE_XE_ENGINEINIT | WaitType::PREEMPTIVE_XE_GETTARGETSTATE | WaitType::PREEMPTIVE_XE_SESSIONCOMMIT | WaitType::PREEMPTIVE_XE_TARGETFINALIZE | WaitType::PREEMPTIVE_XE_TARGETINIT | WaitType::PREEMPTIVE_XE_TIMERRUN | WaitType::REPL_HISTORYCACHE_ACCESS | WaitType::REPL_TRANHASHTABLE_ACCESS | WaitType::RG_RECONFIG | WaitType::TRACE_EVTNOTIF | WaitType::XE_SERVICES_EVENTMANUAL | WaitType::XE_SERVICES_MUTEX | WaitType::XE_SERVICES_RWLOCK | WaitType::XE_SESSION_CREATE_SYNC | WaitType::XE_SESSION_FLUSH | WaitType::XE_SESSION_SYNC | WaitType::XE_STM_CREATE | WaitType::XE_TIMER_EVENT | WaitType::XE_TIMER_MUTEX | WaitType::XE_TIMER_TASK_DONE => "Internal use only.",
        WaitType::CXCONSUMER => "Occurs with parallel query plans when a consumer thread (parent) waits for a producer thread to send rows. CXCONSUMER waits are caused by an Exchange Iterator that runs out of rows from its producer thread. This is a normal part of parallel query execution.\n\nApplies to: SQL Server (Starting with SQL Server 2016 (13.x) Service Pack 2, SQL Server 2017 (14.x) CU 3), Azure SQL Database, Azure SQL Managed Instance",
        _ => "",
    }
}

/// `w` is one of the wait types in part 11 of the description table.
pub open spec fn in_description_part_11(w: WaitType) -> bool {
    w is CXPACKET
        || w is CXROWSET_SYNC
        || w is CXSYNC_CONSUMER
        || w is CXSYNC_PORT
        || w is DAC_INIT
        || w is DBMIRRORING_CMD
        || w is DBMIRROR_EVENTS_QUEUE
        || w is DBMIRROR_SEND
        || w is DBMIRROR_WORKER_QUEUE
        || w is DEADLOCK_ENUM_MUTEX
        || w is DEADLOCK_TASK_SEARCH
        || w is DEBUG
        || w is DISABLE_VERSIONING
        || w is DISKIO_SUSPEND
        || w is DISPATCHER_QUEUE_SEMAPHORE
        || w is DLL_LOADING_MUTEX
        || w is DROPTEMP
        || w is DTC
        || w is DTC_ABORT_REQUEST
        || w is DTC_RESOLVE
        || w is DTC_STATE
        || w is DTC_TMDOWN_REQUEST
        || w is DTC_WAITFOR_OUTCOME
        || w is DUMP_LOG_COORDINATOR
        || w is EE_PMOLOCK
        || w is EE_SPECPROC_MAP_INIT
        || w is ENABLE_VERSIONING
        || w is ERROR_REPORTING_MANAGER
        || w is EXCHANGE
        || w is EXECSYNC
        || w is EXECUTION_PIPE_EVENT_INTERNAL
        || w is EXTERNAL_SCRIPT_NETWORK_IO
        || w is FOREIGN_REDO
        || w is FCB_REPLICA_READ
        || w is FCB_REPLICA_WRITE
        || w is FSAGENT
        || w is FSA_FORCE_OWN_XACT
        || w is FSTR_CONFIG_MUTEX
        || w is FSTR_CONFIG_RWLOCK
        || w is FS_FC_RWLOCK
        || w is FS_GARBAGE_COLLECTOR_SHUTDOWN
        || w is FS_HEADER_RWLOCK
        || w is FS_LOGTRUNC_RWLOCK
        || w is FT_COMPROWSET_RWLOCK
        || w is FT_IFTSHC_MUTEX
        || w is FT_IFTSISM_MUTEX
        || w is FT_IFTS_ASYNC_WRITE_PIPE
        || w is FT_IFTS_BLOB_HASH
        || w is FT_IFTS_CATEALOG_SOURCE
        || w is FT_IFTS_CHUNK_BUFFER_CLIENT_MANAGER
}

/// The descriptions of the wait types in part 11 of the description table.
#[verifier::opaque]
pub open spec fn description_part_11(w: WaitType) -> &'static str {
    match w {
        WaitType::CXPACKET => "Occurs with parallel query plans when waiting to synchronize the Query Processor Exchange Iterator, and when producing and consuming rows. If waiting is excessive and can't be reduced by tuning the query (such as adding indexes), consider adjusting the cost threshold for parallelism, or lowering the degree of parallelism.\n\nNote: Starting with SQL Server 2016 (13.x) Service Pack 2 and SQL Server 2017 (14.x) CU 3, CXPACKET only refers to waiting to synchronize the Exchange Iterator and producing rows. Threads consuming rows are tracked separately in the CXCONSUMER wait type. If the consumer threads are too slow, the Exchange Iterator buffer might become full and cause CXPACKET waits.\n\nNote: In SQL Server 2022 (16.x) and later versions, Azure SQL Database, and Azure SQL Managed Instance, CXPACKET only refers to waiting on threads producing rows. Exchange Iterator synchronization is tracked separately in the CXSYNC_PORT and CXSYNC_CONSUMER wait types. Threads consuming rows are tracked separately in the CXCONSUMER wait type.",
        WaitType::CXROWSET_SYNC => "Occurs during a parallel range scan.",
        WaitType::CXSYNC_CONSUMER => "Occurs with parallel query plans when waiting to reach an Exchange Iterator synchronization point among all consumer threads.\n\nApplies to: SQL Server 2022 (16.x) and later versions, Azure SQL Database, and Azure SQL Managed Instance",
        WaitType::CXSYNC_PORT => "Occurs with parallel query plans when waiting to open, close, and synchronize Exchange Iterator ports between producer and consumer threads. For example, if a query plan has a long sort operation, CXSYNC_PORT waits might be higher because the sort must complete before the Exchange Iterator port can be synchronized.\n\nApplies to: SQL Server 2022 (16.x) and later versions, Azure SQL Database, and Azure SQL Managed Instance",
        WaitType::DAC_INIT => "Occurs while the dedicated administrator connection is initializing.",
        WaitType::DBMIRRORING_CMD => "Occurs when a task is waiting for log records to be flushed to disk. This wait state is expected to be held for long periods of time.",
        WaitType::DBMIRROR_EVENTS_QUEUE => "Occurs when database mirroring waits for events to process.",
        WaitType::DBMIRROR_SEND => "Occurs when a task is waiting for a communications backlog at the network layer to clear to be able to send messages. Indicates that the communications layer is starting to become overloaded and affect the database mirroring data throughput.",
        WaitType::DBMIRROR_WORKER_QUEUE => "Indicates that the database mirroring worker task is waiting for more work.",
        WaitType::DEADLOCK_ENUM_MUTEX => "Occurs when the deadlock monitor and sys.dm_os_waiting_tasks try to make sure that SQL Server isn't running multiple deadlock searches at the same time.",
        WaitType::DEADLOCK_TASK_SEARCH => "Large waiting time on this resource indicates that the server is executing queries on top of sys.dm_os_waiting_tasks, and these queries are blocking deadlock monitor from running deadlock search. This wait type is used by deadlock monitor only. Queries on top of sys.dm_os_waiting_tasks use DEADLOCK_ENUM_MUTEX.",
        WaitType::DEBUG => "Occurs during Transact-SQL and CLR debugging for internal synchronization.",
        WaitType::DISABLE_VERSIONING => "Occurs when SQL Server polls the version transaction manager to see whether the timestamp of the earliest active transaction is later than the timestamp of when the state started changing. If this is this case, all the snapshot transactions that were started before the ALTER DATABASE statement was run have finished. This wait state is used when SQL Server disables versioning by using the ALTER DATABASE statement.",
        WaitType::DISKIO_SUSPEND => "Occurs when a task is waiting to access a file when an external backup is active. This is reported for each waiting user process. A count larger than five per user process might indicate that the external backup is taking too much time to finish.",
        WaitType::DISPATCHER_QUEUE_SEMAPHORE => "Occurs when a thread from the dispatcher pool is waiting for more work to process. The wait time for this wait type is expected to increase when the dispatcher is idle.",
        WaitType::DLL_LOADING_MUTEX => "Occurs once while waiting for the XML parser DLL to load.",
        WaitType::DROPTEMP => "Occurs between attempts to drop a temporary object if the previous attempt failed. The wait duration grows exponentially with each failed drop attempt.",
        WaitType::DTC => "Occurs when a task is waiting on an event that is used to manage state transition. This state controls when the recovery of Microsoft Distributed Transaction Coordinator (MS DTC) transactions occurs after SQL Server receives notification that the MS DTC service has become unavailable.",
        WaitType::DTC_ABORT_REQUEST => "Occurs in an MSDTC worker session when the session is waiting to take ownership of an MSDTC transaction. After MS DTC owns the transaction, the session can roll back the transaction. Generally, the session waits for another session that is using the transaction.",
        WaitType::DTC_RESOLVE => "Occurs when a recovery task is waiting for the master database in a cross-database transaction so that the task can query the outcome of the transaction.",
        WaitType::DTC_STATE => "Occurs when a task is waiting on an event that protects changes to the internal MS DTC global state object. This state should be held for very short periods of time.",
        WaitType::DTC_TMDOWN_REQUEST => "Occurs in an MSDTC worker session when SQL Server receives notification that the MS DTC service isn't available. First, the worker waits for the MS DTC recovery process to start. Then, the worker waits to obtain the outcome of the distributed transaction that the worker is working on. This might continue until the connection with the MS DTC service has been reestablished.",
        WaitType::DTC_WAITFOR_OUTCOME => "Occurs when recovery tasks wait for MS DTC to become active to enable the resolution of prepared transactions.",
        WaitType::DUMP_LOG_COORDINATOR => "Occurs when a main task is waiting for a subtask to generate data. Ordinarily, this state doesn't occur. A long wait indicates an unexpected blockage. The subtask should be investigated.",
        WaitType::EE_PMOLOCK => "Occurs during synchronization of certain types of memory allocations during statement execution.",
        WaitType::EE_SPECPROC_MAP_INIT => "Occurs during synchronization of internal procedure hash table creation. This wait can only occur during the initial accessing of the hash table after the SQL Server instance starts.",
        WaitType::ENABLE_VERSIONING => "Occurs when SQL Server waits for all update transactions in this database to finish before declaring the database ready to transition to snapshot isolation allowed state. This state is used when SQL Server enables snapshot isolation by using the ALTER DATABASE statement.",
        WaitType::ERROR_REPORTING_MANAGER => "Occurs during synchronization of multiple concurrent error log initializations.",
        WaitType::EXCHANGE => "Occurs during synchronization in the query processor exchange iterator during parallel queries.",
        WaitType::EXECSYNC => "Occurs during parallel queries while synchronizing in query processor in areas not related to the exchange iterator. Examples of such areas are bitmaps, large binary objects (LOBs), and the spool iterator. LOBs might frequently use this wait state.",
        WaitType::EXECUTION_PIPE_EVENT_INTERNAL => "Occurs during synchronization between producer and consumer parts of batch execution that are submitted through the connection context.",
        WaitType::EXTERNAL_SCRIPT_NETWORK_IO | WaitType::FOREIGN_REDO => "Internal use only.\n\nApplies to: SQL Server 2017 (14.x) through current.",
        WaitType::FCB_REPLICA_READ => "Occurs when the reads of a snapshot (or a temporary snapshot created by DBCC) sparse file are synchronized.",
        WaitType::FCB_REPLICA_WRITE => "Occurs when the pushing or pulling of a page to a snapshot (or a temporary snapshot created by DBCC) sparse file is synchronized.",
        WaitType::FSAGENT => "Occurs when a FILESTREAM file I/O operation is waiting for a FILESTREAM agent resource that is being used by another file I/O operation.",
        WaitType::FSA_FORCE_OWN_XACT => "Occurs when a FILESTREAM file I/O operation needs to bind to the associated transaction, but the transaction is currently owned by another session.",
        WaitType::FSTR_CONFIG_MUTEX => "Occurs when there's a wait for another FILESTREAM feature reconfiguration to be completed.",
        WaitType::FSTR_CONFIG_RWLOCK => "Occurs when there's a wait to serialize access to the FILESTREAM configuration parameters.",
        WaitType::FS_FC_RWLOCK => "Occurs when there's a wait by the FILESTREAM garbage collector to do either of the following tasks:\n\n- Disable garbage collection (used by backup and restore).\n- Execute one cycle of the FILESTREAM garbage collector.",
        WaitType::FS_GARBAGE_COLLECTOR_SHUTDOWN => "Occurs when the FILESTREAM garbage collector is waiting for cleanup tasks to be completed.",
        WaitType::FS_HEADER_RWLOCK => "Occurs when there's a wait to acquire access to the FILESTREAM header of a FILESTREAM data container to either read or update contents in the FILESTREAM header file (Filestream.hdr).",
        WaitType::FS_LOGTRUNC_RWLOCK => "Occurs when there's a wait to acquire access to FILESTREAM log truncation to do either of the following tasks:\n\n- Temporarily disable FILESTREAM log (FSLOG) truncation (used by backup and restore).\n- Execute one cycle of FSLOG truncation.",
        WaitType::FT_COMPROWSET_RWLOCK => "Full-text is waiting on fragment metadata operation. Documented for informational purposes only. Not supported. Future compatibility isn't guaranteed.",
        WaitType::FT_IFTSHC_MUTEX => "Full-text is waiting on an FDHost control operation. Documented for informational purposes only. Not supported. Future compatibility isn't guaranteed.",
        WaitType::FT_IFTSISM_MUTEX => "Full-text is waiting on communication operation. Documented for informational purposes only. Not supported. Future compatibility isn't guaranteed.",
        WaitType::FT_IFTS_ASYNC_WRITE_PIPE | WaitType::FT_IFTS_BLOB_HASH | WaitType::FT_IFTS_CATEALOG_SOURCE | WaitType::FT_IFTS_CHUNK_BUFFER_CLIENT_MANAGER => "Internal use only.\n\nApplies to: SQL Server 2022 (16.x) CU 1 and later versions.",
        _ => "",
    }
}

/// `w` is one of the wait types in part 12 of the description table.
pub open spec fn in_description_part_12(w: WaitType) -> bool {
    w is FT_IFTS_CHUNK_BUFFER_PROTO_WORD_LIST
        || w is FT_IFTS_COMP_DESC_MANAGER
        || w is FT_IFTS_CONSUMER_PLUGIN
        || w is FT_IFTS_CRAWL_BATCH_LIST
        || w is FT_IFTS_CRAWL_CHILDREN
        || w is FT_IFTS_DOCID_INTERFACE_LIST
        || w is FT_IFTS_DOCID_LIST
        || w is FT_IFTS_FP_INFO_LIST
        || w is FT_IFTS_HOST_CONTROLLER
        || w is FT_IFTS_MASTER_MERGE_TASK_LIST
        || w is FT_IFTS_MEMREGPOOL
        || w is FT_IFTS_MERGE_FRAGMENT_SYNC
        || w is FT_IFTS_NOISE_WORDS_COLLECTION_CACHE
        || w is FT_IFTS_NOISE_WORDS_RESOURCE
        || w is FT_IFTS_OCCURRENCE_BUFFER_POOL
        || w is FT_IFTS_PIPELINE
        || w is FT_IFTS_PIPELINE_LIST
        || w is FT_IFTS_PIPELINE_MANAGER
        || w is FT_IFTS_PROJECT_FD_INFO_MAP
        || w is FT_IFTS_SCHEDULER
        || w is FT_IFTS_SHARED_MEMORY
        || w is FT_IFTS_SHUTDOWN_PIPE
        || w is FT_IFTS_SRCH_FD_MANAGER
        || w is FT_IFTS_SRCH_FD_SERVICE
        || w is FT_IFTS_STOPLIST_CACHE_MANAGER
        || w is FT_IFTS_THESAURUS
        || w is FT_IFTS_VERSION_MANAGER
        || w is FT_IFTS_WORK_QUEUE
        || w is FT_IFTS_RWLOCK
        || w is FT_IFTS_SCHEDULER_IDLE_WAIT
        || w is FT_MASTER_MERGE
        || w is FT_METADATA_MUTEX
        || w is FT_RESTART_CRAWL
        || w is FULLTEXT_GATHERER
        || w is GHOSTCLEANUP_UPDATE_STATS
        || w is GLOBAL_QUERY_CANCEL
        || w is GLOBAL_QUERY_CONSUMER
        || w is GLOBAL_QUERY_PRODUCER
        || w is HADR_THROTTLE_LOG_RATE_LOG_SIZE
        || w is HADR_THROTTLE_LOG_RATE_SEEDING
        || w is HADR_THROTTLE_LOG_RATE_SEND_RECV_QUEUE_SIZE
        || w is MEMORY_GRANT_UPDATE
        || w is MIGRATIONBUFFER
        || w is PWAIT_PREEMPTIVE_APP_USAGE_TIMER
        || w is PWAIT_SBS_FILE_OPERATION
        || w is QDS_HOST_INIT
        || w is RBIO_WAIT_VLF
        || w is REMOTE_BLOCK_IO
        || w is SBS_DISPATCH
        || w is SBS_RECEIVE_TRANSPORT
}

/// The descriptions of the wait types in part 12 of the description table.
#[verifier::opaque]
pub open spec fn description_part_12(w: WaitType) -> &'static str {
    match w {
        WaitType::FT_IFTS_CHUNK_BUFFER_PROTO_WORD_LIST | WaitType::FT_IFTS_COMP_DESC_MANAGER | WaitType::FT_IFTS_CONSUMER_PLUGIN | WaitType::FT_IFTS_CRAWL_BATCH_LIST | WaitType::FT_IFTS_CRAWL_CHILDREN | WaitType::FT_IFTS_DOCID_INTERFACE_LIST | WaitType::FT_IFTS_DOCID_LIST | WaitType::FT_IFTS_FP_INFO_LIST | WaitType::FT_IFTS_HOST_CONTROLLER | WaitType::FT_IFTS_MASTER_MERGE_TASK_LIST | WaitType::FT_IFTS_MEMREGPOOL | WaitType::FT_IFTS_MERGE_FRAGMENT_SYNC | WaitType::FT_IFTS_NOISE_WORDS_COLLECTION_CACHE | WaitType::FT_IFTS_NOISE_WORDS_RESOURCE | WaitType::FT_IFTS_OCCURRENCE_BUFFER_POOL | WaitType::FT_IFTS_PIPELINE | WaitType::FT_IFTS_PIPELINE_LIST | WaitType::FT_IFTS_PIPELINE_MANAGER | WaitType::FT_IFTS_PROJECT_FD_INFO_MAP | WaitType::FT_IFTS_SCHEDULER | WaitType::FT_IFTS_SHARED_MEMORY | WaitType::FT_IFTS_SHUTDOWN_PIPE | WaitType::FT_IFTS_SRCH_FD_MANAGER | WaitType::FT_IFTS_SRCH_FD_SERVICE | WaitType::FT_IFTS_STOPLIST_CACHE_MANAGER | WaitType::FT_IFTS_THESAURUS | WaitType::FT_IFTS_VERSION_MANAGER | WaitType::FT_IFTS_WORK_QUEUE => "Internal use only.\n\nApplies to: SQL Server 2022 (16.x) CU 1 and later versions.",
        WaitType::FT_IFTS_RWLOCK => "Full-text is waiting on internal synchronization. Documented for informational purposes only. Not supported. Future compatibility isn't guaranteed.",
        WaitType::FT_IFTS_SCHEDULER_IDLE_WAIT => "Full-text scheduler sleep wait type. The scheduler is idle.",
        WaitType::FT_MASTER_MERGE => "Full-text is waiting on master merge operation. Documented for informational purposes only. Not supported. Future compatibility isn't guaranteed.",
        WaitType::FT_METADATA_MUTEX => "Documented for informational purposes only. Not supported. Future compatibility isn't guaranteed.",
        WaitType::FT_RESTART_CRAWL => "Occurs when a full-text crawl needs to restart from a last known good point to recover from a transient failure. The wait lets the worker tasks currently working on that population to complete or exit the current step.",
        WaitType::FULLTEXT_GATHERER => "Occurs during synchronization of full-text operations.",
        WaitType::GHOSTCLEANUP_UPDATE_STATS | WaitType::GLOBAL_QUERY_CANCEL | WaitType::GLOBAL_QUERY_CONSUMER | WaitType::GLOBAL_QUERY_PRODUCER | WaitType::HADR_THROTTLE_LOG_RATE_LOG_SIZE | WaitType::HADR_THROTTLE_LOG_RATE_SEEDING | WaitType::HADR_THROTTLE_LOG_RATE_SEND_RECV_QUEUE_SIZE | WaitType::MEMORY_GRANT_UPDATE | WaitType::MIGRATIONBUFFER | WaitType::PWAIT_PREEMPTIVE_APP_USAGE_TIMER | WaitType::PWAIT_SBS_FILE_OPERATION | WaitType::QDS_HOST_INIT | WaitType::RBIO_WAIT_VLF | WaitType::REMOTE_BLOCK_IO | WaitType::SBS_DISPATCH | WaitType::SBS_RECEIVE_TRANSPORT => "Internal use only.\n\nApplies to: SQL Server 2017 (14.x) and later versions.",
        _ => "",
    }
}

/// `w` is one of the wait types in part 13 of the description table.
pub open spec fn in_description_part_13(w: WaitType) -> bool {
    w is SBS_TRANSPORT
        || w is SECURITY_CNG_PROVIDER_MUTEX
        || w is SNI_WRITE_ASYNC
        || w is TEMPORAL_BACKGROUND_PROCEED_CLEANUP
        || w is WAIT_XLOGREAD_SIGNAL
        || w is WAIT_XTP_COMPILE_WAIT
        || w is WAIT_XTP_SERIAL_RECOVERY
        || w is XIO_EDS_MGR_RWLOCK
        || w is XIO_EDS_RWLOCK
        || w is XIO_IOSTATS_BLOBLIST_RWLOCK
        || w is XIO_IOSTATS_FCBLIST_RWLOCK
        || w is HADR_AG_MUTEX
        || w is HADR_ARCONTROLLER_NOTIFICATIONS_SUBSCRIBER_LIST
        || w is HADR_AR_CRITICAL_SECTION_ENTRY
        || w is HADR_AR_MANAGER_MUTEX
        || w is HADR_BACKUP_BULK_LOCK
        || w is HADR_BACKUP_QUEUE
        || w is HADR_CLUSAPI_CALL
        || w is HADR_COMPRESSED_CACHE_SYNC
        || w is HADR_DATABASE_FLOW_CONTROL
        || w is HADR_DATABASE_VERSIONING_STATE
        || w is HADR_DATABASE_WAIT_FOR_RESTART
        || w is HADR_DATABASE_WAIT_FOR_TRANSITION_TO_VERSIONING
        || w is HADR_DBR_SUBSCRIBER
        || w is HADR_DBR_SUBSCRIBER_FILTER_LIST
        || w is HADR_DBSTATECHANGE_SYNC
        || w is HADR_DB_COMMAND
        || w is HADR_DB_OP_COMPLETION_SYNC
        || w is HADR_DB_OP_START_SYNC
        || w is HADR_FILESTREAM_BLOCK_FLUSH
        || w is HADR_FILESTREAM_FILE_CLOSE
        || w is HADR_FILESTREAM_FILE_REQUEST
        || w is HADR_FILESTREAM_IOMGR
        || w is HADR_FILESTREAM_IOMGR_IOCOMPLETION
        || w is HADR_FILESTREAM_MANAGER
        || w is HADR_GROUP_COMMIT
        || w is HADR_LOGCAPTURE_SYNC
        || w is HADR_LOGCAPTURE_WAIT
        || w is HADR_LOGPROGRESS_SYNC
        || w is HADR_NOTIFICATION_DEQUEUE
        || w is HADR_NOTIFICATION_WORKER_EXCLUSIVE_ACCESS
        || w is HADR_NOTIFICATION_WORKER_STARTUP_SYNC
        || w is HADR_NOTIFICATION_WORKER_TERMINATION_SYNC
        || w is HADR_PARTNER_SYNC
        || w is HADR_READ_ALL_NETWORKS
        || w is HADR_RECOVERY_WAIT_FOR_CONNECTION
        || w is HADR_RECOVERY_WAIT_FOR_UNDO
        || w is HADR_REPLICAINFO_SYNC
        || w is HADR_SYNCHRONIZING_THROTTLE
        || w is HADR_SYNC_COMMIT
}

/// The descriptions of the wait types in part 13 of the description table.
#[verifier::opaque]
pub open spec fn description_part_13(w: WaitType) -> &'static str {
    match w {
        WaitType::SBS_TRANSPORT | WaitType::SECURITY_CNG_PROVIDER_MUTEX | WaitType::SNI_WRITE_ASYNC | WaitType::TEMPORAL_BACKGROUND_PROCEED_CLEANUP | WaitType::WAIT_XLOGREAD_SIGNAL | WaitType::WAIT_XTP_COMPILE_WAIT | WaitType::WAIT_XTP_SERIAL_RECOVERY | WaitType::XIO_EDS_MGR_RWLOCK | WaitType::XIO_EDS_RWLOCK | WaitType::XIO_IOSTATS_BLOBLIST_RWLOCK | WaitType::XIO_IOSTATS_FCBLIST_RWLOCK => "Internal use only.\n\nApplies to: SQL Server 2017 (14.x) and later versions.",
        WaitType::HADR_AG_MUTEX => "Occurs when an availability group DDL statement or Windows Server Failover Clustering command is waiting for exclusive read/write access to the configuration of an availability group.\n\nApplies to: SQL Server 2012 (11.x) and later versions.",
        WaitType::HADR_ARCONTROLLER_NOTIFICATIONS_SUBSCRIBER_LIST => "The publisher for an availability replica event (such as a state change or configuration change) is waiting for exclusive read/write access to the list of event subscribers. Internal use only.\n\nApplies to: SQL Server 2012 (11.x) and later versions.",
        WaitType::HADR_AR_CRITICAL_SECTION_ENTRY => "Occurs when an availability group DDL statement or Windows Server Failover Clustering command is waiting for exclusive read/write access to the runtime state of the local replica of the associated availability group.\n\nApplies to: SQL Server 2012 (11.x) and later versions.",
        WaitType::HADR_AR_MANAGER_MUTEX => "Occurs when an availability replica shutdown is waiting for startup to complete or an availability replica startup is waiting for shutdown to complete. Internal use only.\n\nApplies to: SQL Server 2012 (11.x) and later versions.",
        WaitType::HADR_BACKUP_BULK_LOCK => "The availability group primary database received a backup request from a secondary database and is waiting for the background thread to finish processing the request on acquiring or releasing the BulkOp lock.\n\nApplies to: SQL Server 2012 (11.x) and later versions.",
        WaitType::HADR_BACKUP_QUEUE => "The backup background thread of the availability group primary database is waiting for a new work request from the secondary database. (Typically, this occurs when the primary database is holding the BulkOp log and is waiting for the secondary database to indicate that the primary database can release the lock).\n\nApplies to: SQL Server 2012 (11.x) and later versions.",
        WaitType::HADR_CLUSAPI_CALL => "A SQL Server thread is waiting to switch from non-preemptive mode (scheduled by SQL Server) to preemptive mode (scheduled by the operating system) in order to invoke Windows Server Failover Clustering APIs.\n\nApplies to: SQL Server 2012 (11.x) and later versions.",
        WaitType::HADR_COMPRESSED_CACHE_SYNC => "Waiting for access to the cache of compressed log blocks that is used to avoid redundant compression of the log blocks sent to multiple secondary databases.\n\nApplies to: SQL Server 2012 (11.x) and later versions.",
        WaitType::HADR_DATABASE_FLOW_CONTROL => "Waiting for messages to be sent to the partner when the maximum number of queued messages has been reached. Indicates that the log scans are running faster than the network sends. This is an issue only if network sends are slower than expected.\n\nApplies to: SQL Server 2012 (11.x) and later versions.",
        WaitType::HADR_DATABASE_VERSIONING_STATE => "Occurs on the versioning state change of an availability group secondary database. This wait is for internal data structures and usually is very short with no direct effect on data access.\n\nApplies to: SQL Server 2012 (11.x) and later versions.",
        WaitType::HADR_DATABASE_WAIT_FOR_RESTART => "Waiting for the database to restart under availability group control. Under normal conditions, this isn't a customer issue because waits are expected here.\n\nApplies to: SQL Server 2012 (11.x) and later versions.",
        WaitType::HADR_DATABASE_WAIT_FOR_TRANSITION_TO_VERSIONING => "A query on objects in a readable secondary database of an availability group is blocked on row versioning while waiting for commit or rollback of all transactions that were in-flight when the secondary replica was enabled for read workloads. This wait type guarantees that row versions are available before execution of a query under snapshot isolation.\n\nApplies to: SQL Server 2012 (11.x) and later versions.",
        WaitType::HADR_DBR_SUBSCRIBER => "The publisher for an availability replica event (such as a state change or configuration change) is waiting for exclusive read/write access to the runtime state of an event subscriber that corresponds to an availability database. Internal use only.\n\nApplies to: SQL Server 2012 (11.x) and later versions.",
        WaitType::HADR_DBR_SUBSCRIBER_FILTER_LIST => "The publisher for an availability replica event (such as a state change or configuration change) is waiting for exclusive read/write access to the list of event subscribers that correspond to availability databases. Internal use only.\n\nApplies to: SQL Server 2012 (11.x) and later versions.",
        WaitType::HADR_DBSTATECHANGE_SYNC => "Concurrency control wait for updating the internal state of the database replica.\n\nApplies to: SQL Server 2012 (11.x) and later versions.",
        WaitType::HADR_DB_COMMAND | WaitType::HADR_DB_OP_COMPLETION_SYNC => "Waiting for responses to conversational messages (which require an explicit response from the other side, using the availability group conversational message infrastructure). Many different message types use this wait type.\n\nApplies to: SQL Server 2012 (11.x) and later versions.",
        WaitType::HADR_DB_OP_START_SYNC => "An availability group DDL statement or a Windows Server Failover Clustering command is waiting for serialized access to an availability database and its runtime state.\n\nApplies to: SQL Server 2012 (11.x) and later versions.",
        WaitType::HADR_FILESTREAM_BLOCK_FLUSH => "The FILESTREAM Always On transport manager is waiting until processing of a log block is finished.\n\nApplies to: SQL Server 2012 (11.x) and later versions.",
        WaitType::HADR_FILESTREAM_FILE_CLOSE => "The FILESTREAM Always On transport manager is waiting until the next FILESTREAM file gets processed and its handle gets closed.\n\nApplies to: SQL Server 2012 (11.x) and later versions.",
        WaitType::HADR_FILESTREAM_FILE_REQUEST => "An Always On secondary replica is waiting for the primary replica to send all requested FILESTREAM files during UNDO.\n\nApplies to: SQL Server 2012 (11.x) and later versions.",
        WaitType::HADR_FILESTREAM_IOMGR => "The FILESTREAM Always On transport manager is waiting for R/W lock that protects the FILESTREAM Always On I/O manager during startup or shutdown.\n\nApplies to: SQL Server 2012 (11.x) and later versions.",
        WaitType::HADR_FILESTREAM_IOMGR_IOCOMPLETION => "The FILESTREAM Always On I/O manager is waiting for I/O completion.\n\nApplies to: SQL Server 2012 (11.x) and later versions.",
        WaitType::HADR_FILESTREAM_MANAGER => "The FILESTREAM Always On transport manager is waiting for the R/W lock that protects the FILESTREAM Always On transport manager during startup or shutdown.\n\nApplies to: SQL Server 2012 (11.x) and later versions.",
        WaitType::HADR_GROUP_COMMIT => "Transaction commit processing is waiting to allow a group commit so that multiple commit log records can be put into a single log block. This wait is an expected condition that optimizes the log I/O, capture, and send operations.\n\nApplies to: SQL Server 2012 (11.x) and later versions.",
        WaitType::HADR_LOGCAPTURE_SYNC => "Concurrency control around the log capture or apply object when creating or destroying scans. This is an expected wait when partners change state or connection status.\n\nApplies to: SQL Server 2012 (11.x) and later versions.",
        WaitType::HADR_LOGCAPTURE_WAIT => "Waiting for log records to become available. Can occur either when waiting for new log records to be generated by connections or for I/O completion when reading log not in the cache. This is an expected wait if the log scan is caught up to the end of log or is reading from disk.\n\nApplies to: SQL Server 2012 (11.x) and later versions.",
        WaitType::HADR_LOGPROGRESS_SYNC => "Concurrency control wait when updating the log progress status of database replicas.\n\nApplies to: SQL Server 2012 (11.x) and later versions.",
        WaitType::HADR_NOTIFICATION_DEQUEUE => "A background task that processes Windows Server Failover Clustering notifications is waiting for the next notification. Internal use only.\n\nApplies to: SQL Server 2012 (11.x) and later versions.",
        WaitType::HADR_NOTIFICATION_WORKER_EXCLUSIVE_ACCESS => "The availability replica manager is waiting for serialized access to the runtime state of a background task that processes Windows Server Failover Clustering notifications. Internal use only.\n\nApplies to: SQL Server 2012 (11.x) and later versions.",
        WaitType::HADR_NOTIFICATION_WORKER_STARTUP_SYNC => "A background task is waiting for the completion of the startup of a background task that processes Windows Server Failover Clustering notifications. Internal use only.\n\nApplies to: SQL Server 2012 (11.x) and later versions.",
        WaitType::HADR_NOTIFICATION_WORKER_TERMINATION_SYNC => "A background task is waiting for the termination of a background task that processes Windows Server Failover Clustering notifications. Internal use only.\n\nApplies to: SQL Server 2012 (11.x) and later versions.",
        WaitType::HADR_PARTNER_SYNC => "Concurrency control wait on the partner list.\n\nApplies to: SQL Server 2012 (11.x) and later versions.",
        WaitType::HADR_READ_ALL_NETWORKS => "Waiting to get read or write access to the list of WSFC networks. Internal use only. Note: The engine keeps a list of WSFC networks that is used in DMVs (such as sys.dm_hadr_cluster_networks) or to validate Always On Transact-SQL statements that reference WSFC network information. This list is updated upon engine startup, WSFC related notifications, and internal Always On restart (for example, losing and regaining of WSFC quorum). Tasks are usually blocked when an update in that list is in progress.\n\nApplies to: SQL Server 2012 (11.x) and later versions.",
        WaitType::HADR_RECOVERY_WAIT_FOR_CONNECTION => "Waiting for the secondary database to connect to the primary database before running recovery. This is an expected wait, which can lengthen if the connection to the primary is slow to establish.\n\nApplies to: SQL Server 2012 (11.x) and later versions.",
        WaitType::HADR_RECOVERY_WAIT_FOR_UNDO => "Database recovery is waiting for the secondary database to finish the reverting and initializing phase to bring it back to the common log point with the primary database. This is an expected wait after failovers. Undo progress can be tracked through the Windows System Monitor (perfmon.exe) and DMVs.\n\nApplies to: SQL Server 2012 (11.x) and later versions.",
        WaitType::HADR_REPLICAINFO_SYNC => "Waiting for concurrency control to update the current replica state.\n\nApplies to: SQL Server 2012 (11.x) and later versions.",
        WaitType::HADR_SYNCHRONIZING_THROTTLE => "Waiting for transaction commit processing to allow a synchronizing secondary database to catch up to the primary end of the log, in order to transition to the synchronized state. This is an expected wait when a secondary database is catching up.\n\nApplies to: SQL Server 2012 (11.x) and later versions.",
        WaitType::HADR_SYNC_COMMIT => "Waiting for a transaction commit processing on the synchronized secondary databases to harden the log. This wait is also reflected by the Transaction Delay performance counter. This wait type is expected for synchronous-commit availability groups, and indicates the time to send, write, and acknowledge log commit to the secondary databases.\nFor detailed information and troubleshooting HADR_SYNC_COMMIT, refer to this blog post\n\nApplies to: SQL Server 2012 (11.x) and later versions.",
        _ => "",
    }
}

/// `w` is one of the wait types in part 14 of the description table.
pub open spec fn in_description_part_14(w: WaitType) -> bool {
    w is HADR_TDS_LISTENER_SYNC
        || w is HADR_TDS_LISTENER_SYNC_PROCESSING
        || w is HADR_THROTTLE_LOG_RATE_MISMATCHED_SLO
        || w is HADR_TIMER_TASK
        || w is HADR_TRANSPORT_DBRLIST
        || w is HADR_TRANSPORT_FLOW_CONTROL
        || w is HADR_TRANSPORT_SESSION
        || w is HADR_WORK_POOL
        || w is HADR_WORK_QUEUE
        || w is HADR_XRF_STACK_ACCESS
        || w is HTBUILD
        || w is HTBUILD_AGG
        || w is HTBUILD_JOIN
        || w is HTDELETE
        || w is HTDELETE_AGG
        || w is HTDELETE_JOIN
        || w is HTMEMO
        || w is HTREINIT
        || w is HTREPARTITION
        || w is HTTP_ENUMERATION
        || w is HTTP_START
        || w is IMPPROV_IOWAIT
        || w is IO_AUDIT_MUTEX
        || w is IO_COMPLETION
        || w is IO_RETRY
        || w is KSOURCE_WAKEUP
        || w is LATCH_DT
        || w is LATCH_EX
        || w is LATCH_KP
        || w is LATCH_SH
        || w is LATCH_UP
        || w is LAZYWRITER_SLEEP
        || w is LCK_M_BU
        || w is LCK_M_BU_ABORT_BLOCKERS
        || w is LCK_M_BU_LOW_PRIORITY
        || w is LCK_M_IS
        || w is LCK_M_IS_ABORT_BLOCKERS
        || w is LCK_M_IS_LOW_PRIORITY
        || w is LCK_M_IU
        || w is LCK_M_IU_ABORT_BLOCKERS
        || w is LCK_M_IU_LOW_PRIORITY
        || w is LCK_M_IX
        || w is LCK_M_IX_ABORT_BLOCKERS
        || w is LCK_M_IX_LOW_PRIORITY
        || w is LCK_M_RIn_NL
        || w is LCK_M_RIn_NL_ABORT_BLOCKERS
        || w is LCK_M_RIn_NL_LOW_PRIORITY
        || w is LCK_M_RIn_S
        || w is LCK_M_RIn_S_ABORT_BLOCKERS
        || w is LCK_M_RIn_S_LOW_PRIORITY
}

/// The descriptions of the wait types in part 14 of the description table.
#[verifier::opaque]
pub open spec fn description_part_14(w: WaitType) -> &'static str {
    match w {
        WaitType::HADR_TDS_LISTENER_SYNC => "Either the internal Always On system, or the WSFC cluster, requests that listeners are started or stopped. The processing of this request is always asynchronous, and there's a mechanism to remove redundant requests. There are also moments that this process is suspended because of configuration changes. All waits related with this listener synchronization mechanism use this wait type. Internal use only.\n\nApplies to: SQL Server 2012 (11.x) and later versions.",
        WaitType::HADR_TDS_LISTENER_SYNC_PROCESSING => "Used at the end of an Always On Transact-SQL statement that requires starting and/or stopping an availability group listener. Since the start/stop operation is done asynchronously, the user thread blocks using this wait type until the situation of the listener is known.\n\nApplies to: SQL Server 2012 (11.x) and later versions.",
        WaitType::HADR_THROTTLE_LOG_RATE_MISMATCHED_SLO => "Occurs when a geo-replication secondary is configured with lower compute size (lower SLO) than the primary. A primary database is throttled due to delayed log consumption by the secondary. This is caused by the secondary database having insufficient compute capacity to keep up with the primary database's rate of change.\n\nApplies to: Azure SQL Database",
        WaitType::HADR_TIMER_TASK => "Waiting to get the lock on the timer task object and is also used for the actual waits between times that work is being performed. For example, for a task that runs every 10 seconds, after one execution, availability groups waits about 10 seconds to reschedule the task, and the wait is included here.\n\nApplies to: SQL Server 2012 (11.x) and later versions.",
        WaitType::HADR_TRANSPORT_DBRLIST => "Waiting for access to the transport layer's database replica list. Used for the spinlock that grants access to it.\n\nApplies to: SQL Server 2012 (11.x) and later versions.",
        WaitType::HADR_TRANSPORT_FLOW_CONTROL => "Waiting when the number of outstanding unacknowledged Always On messages is over the out flow control threshold. This is on an availability replica-to-replica basis (not on a database-to-database basis).\n\nApplies to: SQL Server 2012 (11.x) and later versions.",
        WaitType::HADR_TRANSPORT_SESSION => "Availability groups are waiting while changing or accessing the underlying transport state.\n\nApplies to: SQL Server 2012 (11.x) and later versions.",
        WaitType::HADR_WORK_POOL => "Concurrency control wait on the availability group background work task object.\n\nApplies to: SQL Server 2012 (11.x) and later versions.",
        WaitType::HADR_WORK_QUEUE => "Availability group background worker thread waiting for new work to be assigned. This is an expected wait when there are ready workers waiting for new work, which is the normal state.\n\nApplies to: SQL Server 2012 (11.x) and later versions.",
        WaitType::HADR_XRF_STACK_ACCESS => "Accessing (look up, add, and delete) the extended recovery fork stack for an availability database.\n\nApplies to: SQL Server 2012 (11.x) and later versions.",
        WaitType::HTBUILD => "Occurs with parallel batch-mode plans when synchronizing the building of the hash table on the input side of a hash join/aggregation. If waiting is excessive and can't be reduced by tuning the query (such as adding indexes), consider adjusting the cost threshold for parallelism, or lowering the degree of parallelism.\n\nApplies to: SQL Server 2012 (11.x) and later versions, but not Azure SQL Database, Azure SQL Managed Instance with the always-up-to-date update policy, and Azure Synapse Analytics.",
        WaitType::HTBUILD_AGG => "Occurs with parallel batch-mode plans when synchronizing the building of the hash table on the input side of a hash aggregation. If waiting is excessive and can't be reduced by tuning the query (such as adding indexes), consider adjusting the cost threshold for parallelism, or lowering the degree of parallelism.\n\nApplies to: Azure SQL Database, Azure SQL Managed Instance with the SQL Server 2025 or Always-up-to-date update policy, and Azure Synapse Analytics.",
        WaitType::HTBUILD_JOIN => "Occurs with parallel batch-mode plans when synchronizing the building of the hash table on the input side of a hash join. If waiting is excessive and can't be reduced by tuning the query (such as adding indexes), consider adjusting the cost threshold for parallelism, or lowering the degree of parallelism.\n\nApplies to: Azure SQL Database, Azure SQL Managed Instance with the SQL Server 2025 or Always-up-to-date update policy, and Azure Synapse Analytics.",
        WaitType::HTDELETE => "Occurs with parallel batch-mode plans when synchronizing at the end of a hash join/aggregation. If waiting is excessive and can't be reduced by tuning the query (such as adding indexes), consider adjusting the cost threshold for parallelism, or lowering the degree of parallelism.\n\nApplies to: SQL Server 2014 (12.x) and later versions, but not Azure SQL Database, Azure SQL Managed Instance with the SQL Server 2025 or Always-up-to-date update policy, and Azure Synapse Analytics.",
        WaitType::HTDELETE_AGG => "Occurs with parallel batch-mode plans when synchronizing at the end of a hash aggregation. If waiting is excessive and can't be reduced by tuning the query (such as adding indexes), consider adjusting the cost threshold for parallelism, or lowering the degree of parallelism.\n\nApplies to: Azure SQL Database, Azure SQL Managed Instance with the SQL Server 2025 or Always-up-to-date update policy, and Azure Synapse Analytics.",
        WaitType::HTDELETE_JOIN => "Occurs with parallel batch-mode plans when synchronizing at the end of a hash join. If waiting is excessive and can't be reduced by tuning the query (such as adding indexes), consider adjusting the cost threshold for parallelism, or lowering the degree of parallelism.\n\nApplies to: Azure SQL Database, Azure SQL Managed Instance with the SQL Server 2025 or Always-up-to-date update policy, and Azure Synapse Analytics.",
        WaitType::HTMEMO => "Occurs with parallel batch-mode plans when synchronizing before scanning hash table to output matches / non-matches in hash join/aggregation. If waiting is excessive and can't be reduced by tuning the query (such as adding indexes), consider adjusting the cost threshold for parallelism, or lowering the degree of parallelism.\n\nApplies to: SQL Server 2014 (12.x) and later versions.",
        WaitType::HTREINIT => "Occurs with parallel batch-mode plans when synchronizing before resetting a hash join/aggregation for the next partial join. If waiting is excessive and can't be reduced by tuning the query (such as adding indexes), consider adjusting the cost threshold for parallelism, or lowering the degree of parallelism.\n\nApplies to: SQL Server 2014 (12.x) and later versions.",
        WaitType::HTREPARTITION => "Occurs with parallel batch-mode plans when synchronizing the repartitioning of the hash table on the input side of a hash join/aggregation. If waiting is excessive and can't be reduced by tuning the query (such as adding indexes), consider adjusting the cost threshold for parallelism, or lowering the degree of parallelism.\n\nApplies to: SQL Server 2012 (11.x) and later versions.",
        WaitType::HTTP_ENUMERATION => "Occurs at startup to enumerate the HTTP endpoints to start HTTP.",
        WaitType::HTTP_START => "Occurs when a connection is waiting for HTTP to complete initialization.",
        WaitType::IMPPROV_IOWAIT => "Occurs when SQL Server waits for a bulkload I/O to finish.",
        WaitType::IO_AUDIT_MUTEX => "Occurs during synchronization of trace event buffers.",
        WaitType::IO_COMPLETION => "Occurs while waiting for I/O operations to complete. This wait type generally represents non-data page I/Os. Data page I/O completion waits appear as PAGEIOLATCH_* waits.",
        WaitType::IO_RETRY => "Occurs when an I/O operation such as a read or a write to disk fails because of insufficient resources, and is then retried.",
        WaitType::KSOURCE_WAKEUP => "Used by the service control task while waiting for requests from the Service Control Manager. Long waits are expected and don't indicate a problem.",
        WaitType::LATCH_DT => "Occurs when waiting for a DT (destroy) latch. This doesn't include buffer latches or transaction mark latches. A listing of LATCH_* waits is available in sys.dm_os_latch_stats. sys.dm_os_latch_stats groups LATCH_NL, LATCH_SH, LATCH_UP, LATCH_EX, and LATCH_DT waits together.",
        WaitType::LATCH_EX => "Occurs when waiting for an EX (exclusive) latch. This doesn't include buffer latches or transaction mark latches. A listing of LATCH_* waits is available in sys.dm_os_latch_stats. sys.dm_os_latch_stats groups LATCH_NL, LATCH_SH, LATCH_UP, LATCH_EX, and LATCH_DT waits together.",
        WaitType::LATCH_KP => "Occurs when waiting for a KP (keep) latch. This doesn't include buffer latches or transaction mark latches. A listing of LATCH_* waits is available in sys.dm_os_latch_stats. sys.dm_os_latch_stats groups LATCH_NL, LATCH_SH, LATCH_UP, LATCH_EX, and LATCH_DT waits together.",
        WaitType::LATCH_SH => "Occurs when waiting for an SH (share) latch. This doesn't include buffer latches or transaction mark latches. A listing of LATCH_* waits is available in sys.dm_os_latch_stats. sys.dm_os_latch_stats groups LATCH_NL, LATCH_SH, LATCH_UP, LATCH_EX, and LATCH_DT waits together.",
        WaitType::LATCH_UP => "Occurs when waiting for an UP (update) latch. This doesn't include buffer latches or transaction mark latches. A listing of LATCH_* waits is available in sys.dm_os_latch_stats. sys.dm_os_latch_stats groups LATCH_NL, LATCH_SH, LATCH_UP, LATCH_EX, and LATCH_DT waits together.",
        WaitType::LAZYWRITER_SLEEP => "Occurs when lazy writer tasks are suspended. This is a measure of the time spent by background tasks that are waiting. Don't consider this state when you're looking for user stalls.",
        WaitType::LCK_M_BU => "Occurs when a task is waiting to acquire a Bulk Update (BU) lock. For more information, see Bulk Update Locks.",
        WaitType::LCK_M_BU_ABORT_BLOCKERS => "Occurs when a task is waiting to acquire a Bulk Update (BU) lock with Abort Blockers. (Related to the low priority wait option of ALTER TABLE and ALTER INDEX.) For more information, see Bulk Update Locks.\n\nApplies to: SQL Server 2014 (12.x) and later versions.",
        WaitType::LCK_M_BU_LOW_PRIORITY => "Occurs when a task is waiting to acquire a Bulk Update (BU) lock with Low Priority. (Related to the low priority wait option of ALTER TABLE and ALTER INDEX.) For more information, see Bulk Update Locks.\n\nApplies to: SQL Server 2014 (12.x) and later versions.",
        WaitType::LCK_M_IS => "Occurs when a task is waiting to acquire an Intent Shared (IS) lock. For more information, see Intent Locks.",
        WaitType::LCK_M_IS_ABORT_BLOCKERS => "Occurs when a task is waiting to acquire an Intent Shared (IS) lock with Abort Blockers. (Related to the low priority wait option of ALTER TABLE and ALTER INDEX.) For more information, see Intent Locks.\n\nApplies to: SQL Server 2014 (12.x) and later versions.",
        WaitType::LCK_M_IS_LOW_PRIORITY => "Occurs when a task is waiting to acquire an Intent Shared (IS) lock with Low Priority. (Related to the low priority wait option of ALTER TABLE and ALTER INDEX.) For more information, see Intent Locks.\n\nApplies to: SQL Server 2014 (12.x) and later versions.",
        WaitType::LCK_M_IU => "Occurs when a task is waiting to acquire an Intent Update (IU) lock. For more information, see Intent Locks.",
        WaitType::LCK_M_IU_ABORT_BLOCKERS => "Occurs when a task is waiting to acquire an Intent Update (IU) lock with Abort Blockers. (Related to the low priority wait option of ALTER TABLE and ALTER INDEX.) For more information, see Intent Locks.\n\nApplies to: SQL Server 2014 (12.x) and later versions.",
        WaitType::LCK_M_IU_LOW_PRIORITY => "Occurs when a task is waiting to acquire an Intent Update (IU) lock with Low Priority. (Related to the low priority wait option of ALTER TABLE and ALTER INDEX.) For more information, see Intent Locks.\n\nApplies to: SQL Server 2014 (12.x) and later versions.",
        WaitType::LCK_M_IX => "Occurs when a task is waiting to acquire an Intent Exclusive (IX) lock. For more information, see Intent Locks.",
        WaitType::LCK_M_IX_ABORT_BLOCKERS => "Occurs when a task is waiting to acquire an Intent Exclusive (IX) lock with Abort Blockers. (Related to the low priority wait option of ALTER TABLE and ALTER INDEX.) For more information, see Intent Locks.\n\nApplies to: SQL Server 2014 (12.x) and later versions.",
        WaitType::LCK_M_IX_LOW_PRIORITY => "Occurs when a task is waiting to acquire an Intent Exclusive (IX) lock with Low Priority. (Related to the low priority wait option of ALTER TABLE and ALTER INDEX.) For more information, see Intent Locks.\n\nApplies to: SQL Server 2014 (12.x) and later versions.",
        WaitType::LCK_M_RIn_NL => "Occurs when a task is waiting to acquire a NULL lock on the current key value, and an Insert Range lock between the current and previous key. A NULL lock on the key is an instant release lock.",
        WaitType::LCK_M_RIn_NL_ABORT_BLOCKERS => "Occurs when a task is waiting to acquire a NULL lock with Abort Blockers on the current key value, and an Insert Range lock with Abort Blockers between the current and previous key. A NULL lock on the key is an instant release lock. (Related to the low priority wait option of ALTER TABLE and ALTER INDEX.)\n\nApplies to: SQL Server 2014 (12.x) and later versions.",
        WaitType::LCK_M_RIn_NL_LOW_PRIORITY => "Occurs when a task is waiting to acquire a NULL lock with Low Priority on the current key value, and an Insert Range lock with Low Priority between the current and previous key. A NULL lock on the key is an instant release lock. (Related to the low priority wait option of ALTER TABLE and ALTER INDEX.)\n\nApplies to: SQL Server 2014 (12.x) and later versions.",
        WaitType::LCK_M_RIn_S => "Occurs when a task is waiting to acquire a shared lock on the current key value, and an Insert Range lock between the current and previous key.",
        WaitType::LCK_M_RIn_S_ABORT_BLOCKERS => "Occurs when a task is waiting to acquire a shared lock with Abort Blockers on the current key value, and an Insert Range lock with Abort Blockers between the current and previous key. (Related to the low priority wait option of ALTER TABLE and ALTER INDEX.)\n\nApplies to: SQL Server 2014 (12.x) and later versions.",
        WaitType::LCK_M_RIn_S_LOW_PRIORITY => "Occurs when a task is waiting to acquire a shared lock with Low Priority on the current key value, and an Insert Range lock with Low Priority between the current and previous key. (Related to the low priority wait option of ALTER TABLE and ALTER INDEX.)\n\nApplies to: SQL Server 2014 (12.x) and later versions.",
        _ => "",
    }
}

/// `w` is one of the wait types in part 15 of the description table.
pub open spec fn in_description_part_15(w: WaitType) -> bool {
    w is LCK_M_RIn_U
        || w is LCK_M_RIn_U_ABORT_BLOCKERS
        || w is LCK_M_RIn_U_LOW_PRIORITY
        || w is LCK_M_RIn_X
        || w is LCK_M_RIn_X_ABORT_BLOCKERS
        || w is LCK_M_RIn_X_LOW_PRIORITY
        || w is LCK_M_RS_S
        || w is LCK_M_RS_S_ABORT_BLOCKERS
        || w is LCK_M_RS_S_LOW_PRIORITY
        || w is LCK_M_RS_U
        || w is LCK_M_RS_U_ABORT_BLOCKERS
        || w is LCK_M_RS_U_LOW_PRIORITY
        || w is LCK_M_RX_S
        || w is LCK_M_RX_S_ABORT_BLOCKERS
        || w is LCK_M_RX_S_LOW_PRIORITY
        || w is LCK_M_RX_U
        || w is LCK_M_RX_U_ABORT_BLOCKERS
        || w is LCK_M_RX_U_LOW_PRIORITY
        || w is LCK_M_RX_X
        || w is LCK_M_RX_X_ABORT_BLOCKERS
        || w is LCK_M_RX_X_LOW_PRIORITY
        || w is LCK_M_S
        || w is LCK_M_SCH_M
        || w is LCK_M_SCH_M_ABORT_BLOCKERS
        || w is LCK_M_SCH_M_LOW_PRIORITY
        || w is LCK_M_SCH_S
        || w is LCK_M_SCH_S_ABORT_BLOCKERS
        || w is LCK_M_SCH_S_LOW_PRIORITY
        || w is LCK_M_SIU
        || w is LCK_M_SIU_ABORT_BLOCKERS
        || w is LCK_M_SIU_LOW_PRIORITY
        || w is LCK_M_SIX
        || w is LCK_M_SIX_ABORT_BLOCKERS
        || w is LCK_M_SIX_LOW_PRIORITY
        || w is LCK_M_S_ABORT_BLOCKERS
        || w is LCK_M_S_LOW_PRIORITY
        || w is LCK_M_S_XACT
        || w is LCK_M_S_XACT_MODIFY
        || w is LCK_M_S_XACT_READ
        || w is LCK_M_U
        || w is LCK_M_UIX
        || w is LCK_M_UIX_ABORT_BLOCKERS
        || w is LCK_M_UIX_LOW_PRIORITY
        || w is LCK_M_U_ABORT_BLOCKERS
        || w is LCK_M_U_LOW_PRIORITY
        || w is LCK_M_X
        || w is LCK_M_X_ABORT_BLOCKERS
        || w is LCK_M_X_LOW_PRIORITY
        || w is LOGBUFFER
        || w is LOGMGR
}

/// The descriptions of the wait types in part 15 of the description table.
#[verifier::opaque]
pub open spec fn description_part_15(w: WaitType) -> &'static str {
    match w {
        WaitType::LCK_M_RIn_U => "Task is waiting to acquire an Update lock on the current key value, and an Insert Range lock between the current and previous key.",
        WaitType::LCK_M_RIn_U_ABORT_BLOCKERS => "Task is waiting to acquire an Update lock with Abort Blockers on the current key value, and an Insert Range lock with Abort Blockers between the current and previous key. (Related to the low priority wait option of ALTER TABLE and ALTER INDEX.)\n\nApplies to: SQL Server 2014 (12.x) and later versions.",
        WaitType::LCK_M_RIn_U_LOW_PRIORITY => "Task is waiting to acquire an Update lock with Low Priority on the current key value, and an Insert Range lock with Low Priority between the current and previous key. (Related to the low priority wait option of ALTER TABLE and ALTER INDEX.)\n\nApplies to: SQL Server 2014 (12.x) and later versions.",
        WaitType::LCK_M_RIn_X => "Occurs when a task is waiting to acquire an Exclusive lock on the current key value, and an Insert Range lock between the current and previous key.",
        WaitType::LCK_M_RIn_X_ABORT_BLOCKERS => "Occurs when a task is waiting to acquire an Exclusive lock with Abort Blockers on the current key value, and an Insert Range lock with Abort Blockers between the current and previous key. (Related to the low priority wait option of ALTER TABLE and ALTER INDEX.)\n\nApplies to: SQL Server 2014 (12.x) and later versions.",
        WaitType::LCK_M_RIn_X_LOW_PRIORITY => "Occurs when a task is waiting to acquire an Exclusive lock with Low Priority on the current key value, and an Insert Range lock with Low Priority between the current and previous key. (Related to the low priority wait option of ALTER TABLE and ALTER INDEX.)\n\nApplies to: SQL Server 2014 (12.x) and later versions.",
        WaitType::LCK_M_RS_S => "Occurs when a task is waiting to acquire a Shared lock on the current key value, and a Shared Range lock between the current and previous key.",
        WaitType::LCK_M_RS_S_ABORT_BLOCKERS => "Occurs when a task is waiting to acquire a Shared lock with Abort Blockers on the current key value, and a Shared Range lock with Abort Blockers between the current and previous key. (Related to the low priority wait option of ALTER TABLE and ALTER INDEX.)\n\nApplies to: SQL Server 2014 (12.x) and later versions.",
        WaitType::LCK_M_RS_S_LOW_PRIORITY => "Occurs when a task is waiting to acquire a Shared lock with Low Priority on the current key value, and a Shared Range lock with Low Priority between the current and previous key. (Related to the low priority wait option of ALTER TABLE and ALTER INDEX.)\n\nApplies to: SQL Server 2014 (12.x) and later versions.",
        WaitType::LCK_M_RS_U => "Occurs when a task is waiting to acquire an Update lock on the current key value, and an Update Range lock between the current and previous key.",
        WaitType::LCK_M_RS_U_ABORT_BLOCKERS => "Occurs when a task is waiting to acquire an Update lock with Abort Blockers on the current key value, and an Update Range lock with Abort Blockers between the current and previous key. (Related to the low priority wait option of ALTER TABLE and ALTER INDEX.)\n\nApplies to: SQL Server 2014 (12.x) and later versions.",
        WaitType::LCK_M_RS_U_LOW_PRIORITY => "Occurs when a task is waiting to acquire an Update lock with Low Priority on the current key value, and an Update Range lock with Low Priority between the current and previous key. (Related to the low priority wait option of ALTER TABLE and ALTER INDEX.)\n\nApplies to: SQL Server 2014 (12.x) and later versions.",
        WaitType::LCK_M_RX_S => "Occurs when a task is waiting to acquire a Shared lock on the current key value, and an Exclusive Range lock between the current and previous key.",
        WaitType::LCK_M_RX_S_ABORT_BLOCKERS => "Occurs when a task is waiting to acquire a Shared lock with Abort Blockers on the current key value, and an Exclusive Range with Abort Blockers lock between the current and previous key. (Related to the low priority wait option of ALTER TABLE and ALTER INDEX.)\n\nApplies to: SQL Server 2014 (12.x) and later versions.",
        WaitType::LCK_M_RX_S_LOW_PRIORITY => "Occurs when a task is waiting to acquire a Shared lock with Low Priority on the current key value, and an Exclusive Range with Low Priority lock between the current and previous key. (Related to the low priority wait option of ALTER TABLE and ALTER INDEX.)\n\nApplies to: SQL Server 2014 (12.x) and later versions.",
        WaitType::LCK_M_RX_U => "Occurs when a task is waiting to acquire an Update lock on the current key value, and an Exclusive range lock between the current and previous key.",
        WaitType::LCK_M_RX_U_ABORT_BLOCKERS => "Occurs when a task is waiting to acquire an Update lock with Abort Blockers on the current key value, and an Exclusive range lock with Abort Blockers between the current and previous key. (Related to the low priority wait option of ALTER TABLE and ALTER INDEX.)\n\nApplies to: SQL Server 2014 (12.x) and later versions.",
        WaitType::LCK_M_RX_U_LOW_PRIORITY => "Occurs when a task is waiting to acquire an Update lock with Low Priority on the current key value, and an Exclusive range lock with Low Priority between the current and previous key. (Related to the low priority wait option of ALTER TABLE and ALTER INDEX.)\n\nApplies to: SQL Server 2014 (12.x) and later versions.",
        WaitType::LCK_M_RX_X => "Occurs when a task is waiting to acquire an Exclusive lock on the current key value, and an Exclusive Range lock between the current and previous key.",
        WaitType::LCK_M_RX_X_ABORT_BLOCKERS => "Occurs when a task is waiting to acquire an Exclusive lock with Abort Blockers on the current key value, and an Exclusive Range lock with Abort Blockers between the current and previous key. (Related to the low priority wait option of ALTER TABLE and ALTER INDEX.)\n\nApplies to: SQL Server 2014 (12.x) and later versions.",
        WaitType::LCK_M_RX_X_LOW_PRIORITY => "Occurs when a task is waiting to acquire an Exclusive lock with Low Priority on the current key value, and an Exclusive Range lock with Low Priority between the current and previous key. (Related to the low priority wait option of ALTER TABLE and ALTER INDEX.)\n\nApplies to: SQL Server 2014 (12.x) and later versions.",
        WaitType::LCK_M_S => "Occurs when a task is waiting to acquire a Shared lock. For more information, see Shared Locks.",
        WaitType::LCK_M_SCH_M => "Occurs when a task is waiting to acquire a Schema Modify lock. For more information, see Schema Locks.",
        WaitType::LCK_M_SCH_M_ABORT_BLOCKERS => "Occurs when a task is waiting to acquire a Schema Modify lock with Abort Blockers. (Related to the low priority wait option of ALTER TABLE and ALTER INDEX.) For more information, see Schema Locks.\n\nApplies to: SQL Server 2014 (12.x) and later versions.",
        WaitType::LCK_M_SCH_M_LOW_PRIORITY => "Occurs when a task is waiting to acquire a Schema Modify lock with Low Priority. (Related to the low priority wait option of ALTER TABLE and ALTER INDEX.) For more information, see Schema Locks.\n\nApplies to: SQL Server 2014 (12.x) and later versions.",
        WaitType::LCK_M_SCH_S => "Occurs when a task is waiting to acquire a Schema Share lock. For more information, see Schema Locks.",
        WaitType::LCK_M_SCH_S_ABORT_BLOCKERS => "Occurs when a task is waiting to acquire a Schema Share lock with Abort Blockers. (Related to the low priority wait option of ALTER TABLE and ALTER INDEX.) For more information, see Schema Locks.\n\nApplies to: SQL Server 2014 (12.x) and later versions.",
        WaitType::LCK_M_SCH_S_LOW_PRIORITY => "Occurs when a task is waiting to acquire a Schema Share lock with Low Priority. (Related to the low priority wait option of ALTER TABLE and ALTER INDEX.) For more information, see Schema Locks.\n\nApplies to: SQL Server 2014 (12.x) and later versions.",
        WaitType::LCK_M_SIU => "Occurs when a task is waiting to acquire a Shared With Intent Update lock. For more information, see Intent Locks.",
        WaitType::LCK_M_SIU_ABORT_BLOCKERS => "Occurs when a task is waiting to acquire a Shared With Intent Update lock with Abort Blockers. (Related to the low priority wait option of ALTER TABLE and ALTER INDEX.) For more information, see Intent Locks.\n\nApplies to: SQL Server 2014 (12.x) and later versions.",
        WaitType::LCK_M_SIU_LOW_PRIORITY => "Occurs when a task is waiting to acquire a Shared With Intent Update lock with Low Priority. (Related to the low priority wait option of ALTER TABLE and ALTER INDEX.) For more information, see Intent Locks.\n\nApplies to: SQL Server 2014 (12.x) and later versions.",
        WaitType::LCK_M_SIX => "Occurs when a task is waiting to acquire a Shared With Intent Exclusive lock. For more information, see Intent Locks.",
        WaitType::LCK_M_SIX_ABORT_BLOCKERS => "Occurs when a task is waiting to acquire a Shared With Intent Exclusive lock with Abort Blockers. (Related to the low priority wait option of ALTER TABLE and ALTER INDEX.) For more information, see Intent Locks.\n\nApplies to: SQL Server 2014 (12.x) and later versions.",
        WaitType::LCK_M_SIX_LOW_PRIORITY => "Occurs when a task is waiting to acquire a Shared With Intent Exclusive lock with Low Priority. (Related to the low priority wait option of ALTER TABLE and ALTER INDEX.) For more information, see Intent Locks.\n\nApplies to: SQL Server 2014 (12.x) and later versions.",
        WaitType::LCK_M_S_ABORT_BLOCKERS => "Occurs when a task is waiting to acquire a Shared lock with Abort Blockers. (Related to the low priority wait option of ALTER TABLE and ALTER INDEX.) For more information, see Shared Locks.\n\nApplies to: SQL Server 2014 (12.x) and later versions.",
        WaitType::LCK_M_S_LOW_PRIORITY => "Occurs when a task is waiting to acquire a Shared lock with Low Priority. (Related to the low priority wait option of ALTER TABLE and ALTER INDEX.) For more information, see Shared Locks.\n\nApplies to: SQL Server 2014 (12.x) and later versions.",
        WaitType::LCK_M_S_XACT => "Occurs when optimized locking is enabled and a task is waiting for a shared lock on an XACT (transaction) wait_resource type, where the read or modify intent can't be inferred.",
        WaitType::LCK_M_S_XACT_MODIFY => "Occurs when optimized locking is enabled and a task is waiting for a shared lock on an XACT (transaction) wait_resource type, with an intent to modify.",
        WaitType::LCK_M_S_XACT_READ => "Occurs when optimized locking is enabled and a task is waiting for a shared lock on an XACT (transaction)wait_resource type, with an intent to read.",
        WaitType::LCK_M_U => "Occurs when a task is waiting to acquire an Update lock. For more information, see Update Locks.",
        WaitType::LCK_M_UIX => "Occurs when a task is waiting to acquire an Update With Intent Exclusive lock. For more information, see Intent Locks.",
        WaitType::LCK_M_UIX_ABORT_BLOCKERS => "Occurs when a task is waiting to acquire an Update With Intent Exclusive lock with Abort Blockers. (Related to the low priority wait option of ALTER TABLE and ALTER INDEX.) For more information, see Intent Locks.\n\nApplies to: SQL Server 2014 (12.x) and later versions.",
        WaitType::LCK_M_UIX_LOW_PRIORITY => "Occurs when a task is waiting to acquire an Update With Intent Exclusive lock with Low Priority. (Related to the low priority wait option of ALTER TABLE and ALTER INDEX.) For more information, see Intent Locks.\n\nApplies to: SQL Server 2014 (12.x) and later versions.",
        WaitType::LCK_M_U_ABORT_BLOCKERS => "Occurs when a task is waiting to acquire an Update lock with Abort Blockers. (Related to the low priority wait option of ALTER TABLE and ALTER INDEX.) For more information, see Update Locks.\n\nApplies to: SQL Server 2014 (12.x) and later versions.",
        WaitType::LCK_M_U_LOW_PRIORITY => "Occurs when a task is waiting to acquire an Update lock with Low Priority. (Related to the low priority wait option of ALTER TABLE and ALTER INDEX.) For more information, see Update Locks.\n\nApplies to: SQL Server 2014 (12.x) and later versions.",
        WaitType::LCK_M_X => "Occurs when a task is waiting to acquire an Exclusive lock. For more information, see Exclusive Locks.",
        WaitType::LCK_M_X_ABORT_BLOCKERS => "Occurs when a task is waiting to acquire an Exclusive lock with Abort Blockers. (Related to the low priority wait option of ALTER TABLE and ALTER INDEX.) For more information, see Exclusive Locks.\n\nApplies to: SQL Server 2014 (12.x) and later versions.",
        WaitType::LCK_M_X_LOW_PRIORITY => "Occurs when a task is waiting to acquire an Exclusive lock with Low Priority. (Related to the low priority wait option of ALTER TABLE and ALTER INDEX.) For more information, see Exclusive Locks.\n\nApplies to: SQL Server 2014 (12.x) and later versions.",
        WaitType::LOGBUFFER => "Occurs when a task is waiting for space in the log buffer to store a log record. Consistently high values might indicate that the log devices can't keep up with the amount of log being generated by the server.",
        WaitType::LOGMGR => "Occurs when a task is waiting for any outstanding log I/Os to finish before shutting down the log while closing the database.",
        _ => "",
    }
}

/// `w` is one of the wait types in part 16 of the description table.
pub open spec fn in_description_part_16(w: WaitType) -> bool {
    w is LOGMGR_QUEUE
        || w is LOGMGR_RESERVE_APPEND
        || w is LOWFAIL_MEMMGR_QUEUE
        || w is MEMORY_ALLOCATION_EXT
        || w is METADATA_LAZYCACHE_RWLOCK
        || w is SQLTRACE_LOCK
        || w is MSQL_DQ
        || w is MSQL_XACT_MGR_MUTEX
        || w is MSQL_XACT_MUTEX
        || w is MSQL_XP
        || w is MSSEARCH
        || w is NET_WAITFOR_PACKET
        || w is OLEDB
        || w is ONDEMAND_TASK_QUEUE
        || w is PAGEIOLATCH_DT
        || w is PAGEIOLATCH_EX
        || w is PAGEIOLATCH_KP
        || w is PAGEIOLATCH_SH
        || w is PAGEIOLATCH_UP
        || w is PAGELATCH_DT
        || w is PAGELATCH_EX
        || w is PAGELATCH_KP
        || w is PAGELATCH_SH
        || w is PAGELATCH_UP
        || w is PARALLEL_BACKUP_QUEUE
        || w is PREEMPTIVE_AUDIT_ACCESS_EVENTLOG
        || w is PREEMPTIVE_AUDIT_ACCESS_SECLOG
        || w is PREEMPTIVE_CLOSEBACKUPMEDIA
        || w is PREEMPTIVE_CLOSEBACKUPTAPE
        || w is PREEMPTIVE_CLOSEBACKUPVDIDEVICE
        || w is PREEMPTIVE_CLUSAPI_CLUSTERRESOURCECONTROL
        || w is PREEMPTIVE_COM_COCREATEINSTANCE
        || w is PREEMPTIVE_HADR_LEASE_MECHANISM
        || w is PREEMPTIVE_OS_SQMLAUNCH
        || w is PRINT_ROLLBACK_PROGRESS
        || w is PVS_CLEANUP_LOCK
        || w is PWAIT_HADR_CHANGE_NOTIFIER_TERMINATION_SYNC
        || w is PWAIT_HADR_CLUSTER_INTEGRATION
        || w is PWAIT_HADR_OFFLINE_COMPLETED
        || w is PWAIT_HADR_ONLINE_COMPLETED
        || w is PWAIT_HADR_POST_ONLINE_COMPLETED
        || w is PWAIT_HADR_WORKITEM_COMPLETED
        || w is PWAIT_MD_LOGIN_STATS
        || w is PWAIT_MD_RELATION_CACHE
        || w is PWAIT_MD_SERVER_CACHE
        || w is PWAIT_MD_UPGRADE_CONFIG
        || w is QPJOB_KILL
        || w is QPJOB_WAITFOR_ABORT
        || w is QRY_MEM_GRANT_INFO_MUTEX
        || w is QUERY_ERRHDL_SERVICE_DONE
}

/// The descriptions of the wait types in part 16 of the description table.
#[verifier::opaque]
pub open spec fn description_part_16(w: WaitType) -> &'static str {
    match w {
        WaitType::LOGMGR_QUEUE => "Occurs while the log writer task waits for work requests.",
        WaitType::LOGMGR_RESERVE_APPEND => "Occurs when a task is waiting to see whether log truncation frees up log space to enable the task to write a new log record. Consider increasing the size of the log files for the affected database to reduce this wait.",
        WaitType::LOWFAIL_MEMMGR_QUEUE => "Occurs while waiting for memory to be available for use.",
        WaitType::MEMORY_ALLOCATION_EXT => "Occurs while allocating memory from either the internal SQL Server memory pool or the operation system.\n\nApplies to: SQL Server 2016 (13.x) and later versions.",
        WaitType::METADATA_LAZYCACHE_RWLOCK | WaitType::SQLTRACE_LOCK => "Internal use only.\n\nApplies to: SQL Server 2008 R2 (10.50.x) only.",
        WaitType::MSQL_DQ => "Occurs when a task is waiting for a distributed query operation to finish. This is used to detect potential Multiple Active Result Set (MARS) application deadlocks. The wait ends when the distributed query call finishes.",
        WaitType::MSQL_XACT_MGR_MUTEX => "Occurs when a task is waiting to obtain ownership of the session transaction manager to perform a session level transaction operation.",
        WaitType::MSQL_XACT_MUTEX => "Occurs during synchronization of transaction usage. A request must acquire the mutex before it can use the transaction.",
        WaitType::MSQL_XP => "Occurs when a task is waiting for an extended stored procedure to end. SQL Server uses this wait state to detect potential MARS application deadlocks. The wait stops when the extended stored procedure call ends.",
        WaitType::MSSEARCH => "Occurs during Full-Text Search calls. This wait ends when the full-text operation completes. It doesn't indicate contention, but rather the duration of full-text operations.",
        WaitType::NET_WAITFOR_PACKET => "Occurs when a connection is waiting for a network packet during a network read.",
        WaitType::OLEDB => "Occurs when SQL Server calls the SNAC OLE DB Provider (SQLNCLI) or the Microsoft OLE DB Driver for SQL Server (MSOLEDBSQL). This wait type isn't used for synchronization. Instead, it indicates the duration of calls to the OLE DB provider.",
        WaitType::ONDEMAND_TASK_QUEUE => "Occurs while a background task waits for high priority system task requests. Long wait times indicate that there have been no high priority requests to process, and shouldn't cause concern.",
        WaitType::PAGEIOLATCH_DT => "Occurs when a task is waiting on a latch for a buffer that is in an I/O request. The latch request is in Destroy mode. Long waits might indicate problems with the disk subsystem.",
        WaitType::PAGEIOLATCH_EX => "Occurs when a task is waiting on a latch for a buffer that is in an I/O request. The latch request is in Exclusive mode - a mode used when the buffer is being written to disk. Long waits might indicate problems with the disk subsystem.\n\nFor more information, see Slow I/O - SQL Server and disk I/O performance.",
        WaitType::PAGEIOLATCH_KP => "Occurs when a task is waiting on a latch for a buffer that is in an I/O request. The latch request is in Keep mode. Long waits might indicate problems with the disk subsystem.",
        WaitType::PAGEIOLATCH_SH => "Occurs when a task is waiting on a latch for a buffer that is in an I/O request. The latch request is in Shared mode - a mode used when the buffer is being read from disk. Long waits might indicate problems with the disk subsystem.\n\nFor more information, see Slow I/O - SQL Server and disk I/O performance.",
        WaitType::PAGEIOLATCH_UP => "Occurs when a task is waiting on a latch for a buffer that is in an I/O request. The latch request is in Update mode. Long waits might indicate problems with the disk subsystem.\n\nFor more information, see Slow I/O - SQL Server and disk I/O performance.",
        WaitType::PAGELATCH_DT => "Occurs when a task is waiting on a latch for a buffer that isn't in an I/O request. The latch request is in Destroy mode. Destroy mode must be acquired before deleting contents of a page. For more information, see Latch Modes.",
        WaitType::PAGELATCH_EX => "Occurs when a task is waiting on a latch for a buffer that isn't in an I/O request. The latch request is in Exclusive mode - it blocks other threads from writing to or reading from the page (buffer).\n\nA common scenario that leads to this latch is the \"last-page insert\" buffer latch contention. To understand and resolve this, use Resolve last-page insert PAGELATCH_EX contention and Diagnose and resolve last-page-insert latch contention on SQL Server. Another scenario is Latch contention on small tables with a non-clustered index and random inserts (queue table).",
        WaitType::PAGELATCH_KP => "Occurs when a task is waiting on a latch for a buffer that isn't in an I/O request. The latch request is in Keep mode, which prevents the page from being destroyed by another thread. For more information, see Latch Modes.",
        WaitType::PAGELATCH_SH => "Occurs when a task is waiting on a latch for a buffer that isn't in an I/O request. The latch request is in Shared mode, which allows multiple threads to read, but not modify, a buffer (page). For more information, see Latch Modes.",
        WaitType::PAGELATCH_UP => "Occurs when a task is waiting on a latch for a buffer that isn't in an I/O request. The latch request is in Update mode. Commonly this wait type might be observed when a system page (buffer) like PFS, GAM, SGAM is latched. For more information, see Latch Modes.\n\nFor troubleshooting a common scenario with this latch, refer to Reduce Allocation Contention in SQL Server tempdb database.",
        WaitType::PARALLEL_BACKUP_QUEUE => "Occurs when serializing output produced by RESTORE HEADERONLY, RESTORE FILELISTONLY, or RESTORE LABELONLY.",
        WaitType::PREEMPTIVE_AUDIT_ACCESS_EVENTLOG => "Occurs when the SQL Server Operating System (SQLOS) scheduler switches to preemptive mode to write an audit event to the Windows event log.\n\nApplies to: SQL Server 2008 R2 (10.50.x) only.",
        WaitType::PREEMPTIVE_AUDIT_ACCESS_SECLOG => "Occurs when the SQLOS scheduler switches to preemptive mode to write an audit event to the Windows Security log.\n\nApplies to: SQL Server 2008 R2 (10.50.x) only.",
        WaitType::PREEMPTIVE_CLOSEBACKUPMEDIA => "Occurs when the SQLOS scheduler switches to preemptive mode to close backup media.",
        WaitType::PREEMPTIVE_CLOSEBACKUPTAPE => "Occurs when the SQLOS scheduler switches to preemptive mode to close a tape backup device.",
        WaitType::PREEMPTIVE_CLOSEBACKUPVDIDEVICE => "Occurs when the SQLOS scheduler switches to preemptive mode to close a virtual backup device.",
        WaitType::PREEMPTIVE_CLUSAPI_CLUSTERRESOURCECONTROL => "Occurs when the SQLOS scheduler switches to preemptive mode to perform Windows Server failover cluster operations.",
        WaitType::PREEMPTIVE_COM_COCREATEINSTANCE => "Occurs when the SQLOS scheduler switches to preemptive mode to create a COM object.",
        WaitType::PREEMPTIVE_HADR_LEASE_MECHANISM => "Availability group lease manager scheduling for Microsoft Support diagnostics.\n\nApplies to: SQL Server 2012 (11.x) and later versions.",
        WaitType::PREEMPTIVE_OS_SQMLAUNCH => "Internal use only.\n\nApplies to: SQL Server 2008 R2 (10.50.x) through SQL Server 2016 (13.x).",
        WaitType::PRINT_ROLLBACK_PROGRESS => "Used to wait while user processes are ended in a database that has been transitioned by using the ALTER DATABASE termination clause. For more information, see ALTER DATABASE (Transact-SQL).",
        WaitType::PVS_CLEANUP_LOCK => "Occurs when the persistent version store (PVS) cleanup process is waiting for a lock required to start the cleanup. Might occur when an active transaction is preventing PVS cleanup initiated internally or using the sys.sp_persistent_version_cleanup system stored procedure. For more information, see Monitor and troubleshoot accelerated database recovery.\n\nApplies to: SQL Server 2019 (15.x) and later versions.",
        WaitType::PWAIT_HADR_CHANGE_NOTIFIER_TERMINATION_SYNC => "Occurs when a background task is waiting for the termination of the background task that receives (via polling) Windows Server Failover Clustering notifications.\n\nApplies to: SQL Server 2012 (11.x) and later versions.",
        WaitType::PWAIT_HADR_CLUSTER_INTEGRATION => "An append, replace, and/or remove operation is waiting to grab a write lock on an Always On internal list (such as a list of networks, network addresses, or availability group listeners). Internal use only.\n\nApplies to: SQL Server 2012 (11.x) and later versions.",
        WaitType::PWAIT_HADR_OFFLINE_COMPLETED => "A drop availability group operation is waiting for the target availability group to go offline before destroying Windows Server Failover Clustering objects.\n\nApplies to: SQL Server 2012 (11.x) and later versions.",
        WaitType::PWAIT_HADR_ONLINE_COMPLETED => "A create or failover availability group operation is waiting for the target availability group to come online.\n\nApplies to: SQL Server 2012 (11.x) and later versions.",
        WaitType::PWAIT_HADR_POST_ONLINE_COMPLETED => "A drop availability group operation is waiting for the termination of any background task that was scheduled as part of a previous command. For example, there might be a background task that is transitioning availability databases to the primary role. The DROP AVAILABILITY GROUP DDL must wait for this background task to terminate in order to avoid race conditions.\n\nApplies to: SQL Server 2012 (11.x) and later versions.",
        WaitType::PWAIT_HADR_WORKITEM_COMPLETED => "Internal wait by a thread waiting for an async work task to complete. This is an expected wait and is for CSS use.\n\nApplies to: SQL Server 2012 (11.x) and later versions.",
        WaitType::PWAIT_MD_LOGIN_STATS => "Occurs during internal synchronization in metadata on login stats.\n\nApplies to: SQL Server 2012 (11.x) and later versions.",
        WaitType::PWAIT_MD_RELATION_CACHE => "Occurs during internal synchronization in metadata on table or index.\n\nApplies to: SQL Server 2012 (11.x) and later versions.",
        WaitType::PWAIT_MD_SERVER_CACHE => "Occurs during internal synchronization in metadata on linked servers.\n\nApplies to: SQL Server 2012 (11.x) and later versions.",
        WaitType::PWAIT_MD_UPGRADE_CONFIG => "Occurs during internal synchronization in upgrading server wide configurations.\n\nApplies to: SQL Server 2012 (11.x) and later versions.",
        WaitType::QPJOB_KILL => "Indicates that an asynchronous automatic statistics update was canceled by a call to KILL as the update was starting to run. The terminating thread is suspended, waiting for it to start listening for KILL commands. A good value is less than one second.",
        WaitType::QPJOB_WAITFOR_ABORT => "Indicates that an asynchronous automatic statistics update was canceled by a call to KILL when it was running. The update has now completed but is suspended until the terminating thread message coordination is complete. This is an ordinary but rare state, and should be very short. A good value is less than one second.",
        WaitType::QRY_MEM_GRANT_INFO_MUTEX => "Occurs when Query Execution memory management tries to control access to static grant information list. This state lists information about the current granted and waiting memory requests. This state is a simple access control state. There should never be a long wait on this state. If this mutex isn't released, all new memory-using queries stop responding.",
        WaitType::QUERY_ERRHDL_SERVICE_DONE => "Identified for informational purposes only. Not supported.\n\nApplies to: SQL Server 2008 R2 (10.50.x) only.",
        _ => "",
    }
}

/// `w` is one of the wait types in part 17 of the description table.
pub open spec fn in_description_part_17(w: WaitType) -> bool {
    w is QUERY_WAIT_ERRHDL_SERVICE
        || w is XE_PACKAGE_LOCK_BACKOFF
        || w is QUERY_EXECUTION_INDEX_SORT_EVENT_OPEN
        || w is QUERY_NOTIFICATION_MGR_MUTEX
        || w is QUERY_NOTIFICATION_SUBSCRIPTION_MUTEX
        || w is QUERY_NOTIFICATION_TABLE_MGR_MUTEX
        || w is QUERY_OPTIMIZER_PRINT_MUTEX
        || w is RBIO_RG_DESTAGE
        || w is RBIO_RG_LOCALDESTAGE
        || w is RBIO_RG_REPLICA
        || w is RBIO_RG_STORAGE
        || w is RECOVER_CHANGEDB
        || w is REPLICA_WRITES
        || w is REPL_CACHE_ACCESS
        || w is REPL_SCHEMA_ACCESS
        || w is REQUEST_DISPENSER_PAUSE
        || w is REQUEST_FOR_DEADLOCK_SEARCH
        || w is RESMGR_THROTTLED
        || w is RESOURCE_QUEUE
        || w is RESOURCE_SEMAPHORE
        || w is RESOURCE_SEMAPHORE_MUTEX
        || w is RESOURCE_SEMAPHORE_QUERY_COMPILE
        || w is RESOURCE_SEMAPHORE_SMALL_QUERY
        || w is SECURITY_MUTEX
        || w is SEC_DROP_TEMP_KEY
        || w is SEQUENTIAL_GUID
        || w is SERVER_IDLE_CHECK
        || w is SHUTDOWN
        || w is SLEEP_BPOOL_FLUSH
        || w is SLEEP_DBSTARTUP
        || w is SLEEP_DCOMSTARTUP
        || w is SLEEP_MSDBSTARTUP
        || w is SLEEP_SYSTEMTASK
        || w is SLEEP_TASK
        || w is SLEEP_TEMPDBSTARTUP
        || w is SNI_CRITICAL_SECTION
        || w is SNI_HTTP_WAITFOR_0_DISCON
        || w is SNI_LISTENER_ACCESS
        || w is SNI_TASK_COMPLETION
        || w is SOAP_READ
        || w is SOAP_WRITE
        || w is SOSHOST_EVENT
        || w is SOSHOST_INTERNAL
        || w is SOSHOST_MUTEX
        || w is SOSHOST_RWLOCK
        || w is SOSHOST_SEMAPHORE
        || w is SOSHOST_SLEEP
        || w is SOSHOST_TRACELOCK
        || w is SOSHOST_WAITFORDONE
        || w is SOS_CALLBACK_REMOVAL
}

/// The descriptions of the wait types in part 17 of the description table.
#[verifier::opaque]
pub open spec fn description_part_17(w: WaitType) -> &'static str {
    match w {
        WaitType::QUERY_WAIT_ERRHDL_SERVICE | WaitType::XE_PACKAGE_LOCK_BACKOFF => "Identified for informational purposes only. Not supported.\n\nApplies to: SQL Server 2008 R2 (10.50.x) only.",
        WaitType::QUERY_EXECUTION_INDEX_SORT_EVENT_OPEN => "Occurs in certain cases when offline create index build is run in parallel, and the different worker threads that are sorting synchronize access to the sort files.",
        WaitType::QUERY_NOTIFICATION_MGR_MUTEX => "Occurs during synchronization of the garbage collection queue in the Query Notification Manager.",
        WaitType::QUERY_NOTIFICATION_SUBSCRIPTION_MUTEX => "Occurs during state synchronization for transactions in Query Notifications.",
        WaitType::QUERY_NOTIFICATION_TABLE_MGR_MUTEX => "Occurs during internal synchronization within the Query Notification Manager.",
        WaitType::QUERY_OPTIMIZER_PRINT_MUTEX => "Occurs during synchronization of query optimizer diagnostic output production. This wait type only occurs if diagnostic settings have been enabled under direction of Microsoft Product Support.",
        WaitType::RBIO_RG_DESTAGE => "Occurs when a Hyperscale database compute node is being throttled due to delayed log consumption by the long term log storage.\n\nApplies to: Azure SQL Database Hyperscale.",
        WaitType::RBIO_RG_LOCALDESTAGE => "Occurs when a Hyperscale database compute node is being throttled due to delayed log consumption by the log service.\n\nApplies to: Azure SQL Database Hyperscale.",
        WaitType::RBIO_RG_REPLICA => "Occurs when a Hyperscale database compute node is being throttled due to delayed log consumption by the readable secondary replica nodes.\n\nApplies to: Azure SQL Database Hyperscale.",
        WaitType::RBIO_RG_STORAGE => "Occurs when a Hyperscale database compute node is being throttled due to delayed log consumption at the page servers.\n\nApplies to: Azure SQL Database Hyperscale.",
        WaitType::RECOVER_CHANGEDB => "Occurs during synchronization of database status in warm standby database.",
        WaitType::REPLICA_WRITES => "Occurs while a task waits for completion of page writes to database snapshots or DBCC replicas.",
        WaitType::REPL_CACHE_ACCESS => "Occurs during synchronization on a replication article cache. During these waits, the replication log reader stalls, and data definition language (DDL) statements on a published table are blocked.",
        WaitType::REPL_SCHEMA_ACCESS => "Occurs during synchronization of replication schema version information. This state exists when DDL statements are executed on the replicated object, and when the log reader builds or consumes versioned schema based on DDL occurrence. Contention can be seen on this wait type if you have many published databases on a single publisher with transactional replication and the published databases are very active.",
        WaitType::REQUEST_DISPENSER_PAUSE => "Occurs when a task is waiting for all outstanding I/O to complete, so that I/O to a file can be frozen for snapshot backup.",
        WaitType::REQUEST_FOR_DEADLOCK_SEARCH => "Occurs while the deadlock monitor waits to start the next deadlock search. This wait is expected between deadlock detections, and lengthy total waiting time on this resource doesn't indicate a problem.",
        WaitType::RESMGR_THROTTLED => "Occurs when a new request comes in and is throttled based on the GROUP_MAX_REQUESTS setting.",
        WaitType::RESOURCE_QUEUE => "Occurs during synchronization of various internal resource queues.",
        WaitType::RESOURCE_SEMAPHORE => "Occurs when a query memory request during query execution can't be granted immediately due to other concurrent queries. High waits and wait times might indicate excessive number of concurrent queries, or excessive memory request amounts. Excessive waits of this type might raise SQL error 8645, \"A time out occurred while waiting for memory resources to execute the query. Rerun the query.\"\n\nFor detailed information and troubleshooting ideas on memory grant waits, see Troubleshoot slow performance or low memory issues caused by memory grants in SQL Server.",
        WaitType::RESOURCE_SEMAPHORE_MUTEX => "Occurs while a query waits for its request for a thread reservation to be fulfilled. It also occurs when synchronizing query compile and memory grant requests.",
        WaitType::RESOURCE_SEMAPHORE_QUERY_COMPILE => "Occurs when the number of concurrent query compilations reaches a throttling limit. High waits and wait times might indicate excessive compilations, recompiles, or uncacheable plans.",
        WaitType::RESOURCE_SEMAPHORE_SMALL_QUERY => "Occurs when memory request by a small query can't be granted immediately due to other concurrent queries. Wait time shouldn't exceed more than a few seconds, because the server transfers the request to the main query memory pool if it fails to grant the requested memory within a few seconds. High waits might indicate an excessive number of concurrent small queries while the main memory pool is blocked by waiting queries.\n\nApplies to: SQL Server 2008 R2 (10.50.x) only.",
        WaitType::SECURITY_MUTEX => "Occurs when there's a wait for mutexes that control access to the global list of Extensible Key Management (EKM) cryptographic providers and the session-scoped list of EKM sessions.",
        WaitType::SEC_DROP_TEMP_KEY => "Occurs after a failed attempt to drop a temporary security key before a retry attempt.",
        WaitType::SEQUENTIAL_GUID => "Occurs while a new sequential GUID is being obtained.",
        WaitType::SERVER_IDLE_CHECK => "Occurs during synchronization of SQL Server instance idle status when a resource monitor is attempting to declare a SQL Server instance as idle or trying to wake up.",
        WaitType::SHUTDOWN => "Occurs while a shutdown statement waits for active connections to exit.",
        WaitType::SLEEP_BPOOL_FLUSH => "Occurs when a checkpoint is throttling the issuance of new I/Os in order to avoid flooding the disk subsystem.",
        WaitType::SLEEP_DBSTARTUP => "Occurs during database startup while waiting for all databases to recover.",
        WaitType::SLEEP_DCOMSTARTUP => "Occurs once at most during SQL Server instance startup while waiting for DCOM initialization to complete.",
        WaitType::SLEEP_MSDBSTARTUP => "Occurs when SQL Trace waits for the msdb database to complete startup.",
        WaitType::SLEEP_SYSTEMTASK => "Occurs during the start of a background task while waiting for tempdb to complete startup.",
        WaitType::SLEEP_TASK => "Occurs when a task sleeps while waiting for a generic event to occur.",
        WaitType::SLEEP_TEMPDBSTARTUP => "Occurs while a task waits for tempdb to complete startup.",
        WaitType::SNI_CRITICAL_SECTION => "Occurs during internal synchronization within SQL Server networking components.",
        WaitType::SNI_HTTP_WAITFOR_0_DISCON => "Occurs during SQL Server shutdown, while waiting for outstanding HTTP connections to exit.",
        WaitType::SNI_LISTENER_ACCESS => "Occurs while waiting for non-uniform memory access (NUMA) nodes to update state change. Access to state change is serialized.",
        WaitType::SNI_TASK_COMPLETION => "Occurs when there's a wait for all tasks to finish during a NUMA node state change.",
        WaitType::SOAP_READ => "Occurs while waiting for an HTTP network read to complete.",
        WaitType::SOAP_WRITE => "Occurs while waiting for an HTTP network write to complete.",
        WaitType::SOSHOST_EVENT => "Occurs when a hosted component, such as CLR, waits on a SQL Server event synchronization object.",
        WaitType::SOSHOST_INTERNAL => "Occurs during synchronization of memory manager callbacks used by hosted components, such as CLR.",
        WaitType::SOSHOST_MUTEX => "Occurs when a hosted component, such as CLR, waits on a SQL Server mutex synchronization object.",
        WaitType::SOSHOST_RWLOCK => "Occurs when a hosted component, such as CLR, waits on a SQL Server reader-writer synchronization object.",
        WaitType::SOSHOST_SEMAPHORE => "Occurs when a hosted component, such as CLR, waits on a SQL Server semaphore synchronization object.",
        WaitType::SOSHOST_SLEEP => "Occurs when a hosted task sleeps while waiting for a generic event to occur. Hosted tasks are used by hosted components such as CLR.",
        WaitType::SOSHOST_TRACELOCK => "Occurs during synchronization of access to trace streams.",
        WaitType::SOSHOST_WAITFORDONE => "Occurs when a hosted component, such as CLR, waits for a task to complete.",
        WaitType::SOS_CALLBACK_REMOVAL => "Occurs while performing synchronization on a callback list in order to remove a callback. It isn't expected for this counter to change after server initialization is completed.",
        _ => "",
    }
}

/// `w` is one of the wait types in part 18 of the description table.
pub open spec fn in_description_part_18(w: WaitType) -> bool {
    w is SOS_DISPATCHER_MUTEX
        || w is SOS_LOCALALLOCATORLIST
        || w is SOS_MEMORY_USAGE_ADJUSTMENT
        || w is SOS_OBJECT_STORE_DESTROY_MUTEX
        || w is SOS_PHYS_PAGE_CACHE
        || w is SOS_PROCESS_AFFINITY_MUTEX
        || w is SOS_RESERVEDMEMBLOCKLIST
        || w is SOS_SCHEDULER_YIELD
        || w is SOS_SMALL_PAGE_ALLOC
        || w is SOS_STACKSTORE_INIT_MUTEX
        || w is SOS_SYNC_TASK_ENQUEUE_EVENT
        || w is SOS_VIRTUALMEMORY_LOW
        || w is SOS_WORK_DISPATCHER
        || w is SPINLOCK_EXT
        || w is SQLCLR_APPDOMAIN
        || w is SQLCLR_ASSEMBLY
        || w is SQLCLR_DEADLOCK_DETECTION
        || w is SQLCLR_QUANTUM_PUNISHMENT
        || w is SQLSORT_NORMMUTEX
        || w is SQLSORT_SORTMUTEX
        || w is SQLTRACE_BUFFER_FLUSH
        || w is SQLTRACE_FILE_BUFFER
        || w is SQLTRACE_SHUTDOWN
        || w is SQLTRACE_WAIT_ENTRIES
        || w is SRVPROC_SHUTDOWN
        || w is TEMPOBJ
        || w is THREADPOOL
        || w is TIMEPRIV_TIMEPERIOD
        || w is TRACEWRITE
        || w is TRANSACTION_MUTEX
        || w is TRAN_MARKLATCH_DT
        || w is TRAN_MARKLATCH_EX
        || w is TRAN_MARKLATCH_KP
        || w is TRAN_MARKLATCH_SH
        || w is TRAN_MARKLATCH_UP
        || w is UTIL_PAGE_ALLOC
        || w is VIA_ACCEPT
        || w is VIEW_DEFINITION_MUTEX
        || w is WAITFOR
        || w is WAITSTAT_MUTEX
        || w is WAIT_FOR_RESULTS
        || w is WAIT_ON_SYNC_STATISTICS_REFRESH
        || w is WAIT_XTP_CKPT_CLOSE
        || w is WAIT_XTP_CKPT_ENABLED
        || w is WAIT_XTP_CKPT_STATE_LOCK
        || w is WAIT_XTP_GUEST
        || w is WAIT_XTP_HOST_WAIT
        || w is WAIT_XTP_OFFLINE_CKPT_LOG_IO
        || w is WAIT_XTP_OFFLINE_CKPT_NEW_LOG
        || w is WAIT_XTP_PROCEDURE_ENTRY
}

/// The descriptions of the wait types in part 18 of the description table.
#[verifier::opaque]
pub open spec fn description_part_18(w: WaitType) -> &'static str {
    match w {
        WaitType::SOS_DISPATCHER_MUTEX => "Occurs during internal synchronization of the dispatcher pool. This includes when the pool is being adjusted.",
        WaitType::SOS_LOCALALLOCATORLIST => "Occurs during internal synchronization in the SQL Server memory manager.\n\nApplies to: SQL Server 2008 R2 (10.50.x) only.",
        WaitType::SOS_MEMORY_USAGE_ADJUSTMENT => "Occurs when memory usage is being adjusted among pools.",
        WaitType::SOS_OBJECT_STORE_DESTROY_MUTEX => "Occurs during internal synchronization in memory pools when destroying objects from the pool.",
        WaitType::SOS_PHYS_PAGE_CACHE => "Accounts for the time a thread waits to acquire the mutex it must acquire before it allocates physical pages or before it returns those pages to the operating system. Waits on this type only appear if the instance of SQL Server uses AWE memory.\n\nApplies to: SQL Server 2012 (11.x) and later versions.",
        WaitType::SOS_PROCESS_AFFINITY_MUTEX => "Occurs during synchronizing of access to process affinity settings.",
        WaitType::SOS_RESERVEDMEMBLOCKLIST => "Occurs during internal synchronization in the SQL Server Memory Manager.\n\nApplies to: SQL Server 2008 R2 (10.50.x) only.",
        WaitType::SOS_SCHEDULER_YIELD => "Occurs when a task voluntarily yields the scheduler for other tasks to execute. During this wait, the task is waiting in a runnable queue for its quantum to be renewed, that is, waiting to be scheduled to run on the CPU again. Prolonged waits on this wait type most frequently indicate opportunities to optimize queries that perform index or table scans. Focus on plan regression, missing index, stats updates, and query rewrites. Optimizing runtimes reduces the need for tasks to be yielding multiple times. If query times for such CPU-consuming tasks are acceptable, then this wait type is expected and can be ignored.",
        WaitType::SOS_SMALL_PAGE_ALLOC => "Occurs during the allocation and freeing of memory that is managed by some memory objects.",
        WaitType::SOS_STACKSTORE_INIT_MUTEX => "Occurs during synchronization of internal store initialization.",
        WaitType::SOS_SYNC_TASK_ENQUEUE_EVENT => "Occurs when a task is started in a synchronous manner. Most tasks in SQL Server are started in an asynchronous manner, in which control returns to the starter immediately after the task request has been placed on the work queue.",
        WaitType::SOS_VIRTUALMEMORY_LOW => "Occurs when a memory allocation waits for a Resource Manager to free up virtual memory.",
        WaitType::SOS_WORK_DISPATCHER => "Internal use only.\n\nApplies to: SQL Server 2019 (15.x) and later versions.",
        WaitType::SPINLOCK_EXT => "Occurs when a thread is waiting to acquire a spinlock. Includes both the spinning and the sleeping time. High values might indicate spinlock contention.\n\nBecause of a possibility of a minor performance impact with high throughput and high concurrency workloads, the SPINLOCK_EXT waits are tracked only if trace flag 8134 is enabled.\n\nApplies to: SQL Server 2025 (17.x) and later versions.",
        WaitType::SQLCLR_APPDOMAIN => "Occurs while CLR waits for an application domain to complete startup.",
        WaitType::SQLCLR_ASSEMBLY => "Occurs while waiting for access to the loaded assembly list in the appdomain.",
        WaitType::SQLCLR_DEADLOCK_DETECTION => "Occurs while CLR waits for deadlock detection to complete.",
        WaitType::SQLCLR_QUANTUM_PUNISHMENT => "Occurs when a CLR task is throttled because it has exceeded its execution quantum. This throttling is done in order to reduce the effect of this resource-intensive task on other tasks.",
        WaitType::SQLSORT_NORMMUTEX | WaitType::SQLSORT_SORTMUTEX => "Occurs during internal synchronization, while initializing internal sorting structures.",
        WaitType::SQLTRACE_BUFFER_FLUSH => "Occurs when a task is waiting for a background task to flush trace buffers to disk every four seconds.\n\nApplies to: SQL Server 2008 R2 (10.50.x) only.",
        WaitType::SQLTRACE_FILE_BUFFER => "Occurs during synchronization on trace buffers during a file trace.\n\nApplies to: SQL Server 2012 (11.x) and later versions.",
        WaitType::SQLTRACE_SHUTDOWN => "Occurs while trace shutdown waits for outstanding trace events to complete.",
        WaitType::SQLTRACE_WAIT_ENTRIES => "Occurs while a SQL Trace event queue waits for packets to arrive on the queue.",
        WaitType::SRVPROC_SHUTDOWN => "Occurs while the shutdown process waits for internal resources to be released to shut down cleanly.",
        WaitType::TEMPOBJ => "Occurs when temporary object drops are synchronized. This wait is rare, and only occurs if a task has requested exclusive access for temp table drops.",
        WaitType::THREADPOOL => "Occurs when a task (query or login/logout) is waiting for a worker thread to execute it. This can indicate that the maximum worker thread setting is misconfigured, or, most commonly, that batch executions are taking unusually long, thus reducing the number of worker threads available to satisfy other batches. Examine the performance of batches (queries) and reduce query duration by either reducing bottlenecks (blocking, parallelism, I/O, latch waits), or providing proper indexing or query design.",
        WaitType::TIMEPRIV_TIMEPERIOD => "Occurs during internal synchronization of the Extended Events timer.",
        WaitType::TRACEWRITE => "Occurs when the SQL Trace rowset trace provider waits for either a free buffer or a buffer with events to process.",
        WaitType::TRANSACTION_MUTEX => "Occurs during synchronization of access to a transaction by multiple batches.",
        WaitType::TRAN_MARKLATCH_DT => "Occurs when waiting for a destroy mode latch on a transaction mark latch. Transaction mark latches are used for synchronization of commits with marked transactions.",
        WaitType::TRAN_MARKLATCH_EX => "Occurs when waiting for an exclusive mode latch on a marked transaction. Transaction mark latches are used for synchronization of commits with marked transactions.",
        WaitType::TRAN_MARKLATCH_KP => "Occurs when waiting for a keep mode latch on a marked transaction. Transaction mark latches are used for synchronization of commits with marked transactions.",
        WaitType::TRAN_MARKLATCH_SH => "Occurs when waiting for a shared mode latch on a marked transaction. Transaction mark latches are used for synchronization of commits with marked transactions.",
        WaitType::TRAN_MARKLATCH_UP => "Occurs when waiting for an update mode latch on a marked transaction. Transaction mark latches are used for synchronization of commits with marked transactions.",
        WaitType::UTIL_PAGE_ALLOC => "Occurs when transaction log scans wait for memory to be available during memory pressure.",
        WaitType::VIA_ACCEPT => "Occurs when a Virtual Interface Adapter (VIA) provider connection is completed during startup.",
        WaitType::VIEW_DEFINITION_MUTEX => "Occurs during synchronization on access to cached view definitions.",
        WaitType::WAITFOR => "Occurs as a result of a WAITFOR Transact-SQL statement. The duration of the wait is determined by the parameters to the statement. This is a user-initiated wait.",
        WaitType::WAITSTAT_MUTEX => "Occurs during synchronization of access to the collection of statistics used to populate sys.dm_os_wait_stats.",
        WaitType::WAIT_FOR_RESULTS => "Occurs when waiting for a query notification to be triggered.",
        WaitType::WAIT_ON_SYNC_STATISTICS_REFRESH => "Occurs when waiting for synchronous statistics update to complete before query compilation and execution can resume.\n\nApplies to: Starting with SQL Server 2019 (15.x)",
        WaitType::WAIT_XTP_CKPT_CLOSE => "Occurs when waiting for a checkpoint to complete.\n\nApplies to: SQL Server 2014 (12.x) and later versions.",
        WaitType::WAIT_XTP_CKPT_ENABLED => "Occurs when checkpointing is disabled, and waiting for checkpointing to be enabled.\n\nApplies to: SQL Server 2014 (12.x) and later versions.",
        WaitType::WAIT_XTP_CKPT_STATE_LOCK => "Occurs when synchronizing checking of checkpoint state.\n\nApplies to: SQL Server 2014 (12.x) and later versions.",
        WaitType::WAIT_XTP_GUEST => "Occurs when the database memory allocator needs to stop receiving low-memory notifications.\n\nApplies to: SQL Server 2012 (11.x) and later versions.",
        WaitType::WAIT_XTP_HOST_WAIT => "Occurs when waits are triggered by the database engine and implemented by the host.\n\nApplies to: SQL Server 2014 (12.x) and later versions.",
        WaitType::WAIT_XTP_OFFLINE_CKPT_LOG_IO => "Occurs when offline checkpoint is waiting for a log read IO to complete.\n\nApplies to: SQL Server 2014 (12.x) and later versions.",
        WaitType::WAIT_XTP_OFFLINE_CKPT_NEW_LOG => "Occurs when offline checkpoint is waiting for new log records to scan.\n\nApplies to: SQL Server 2014 (12.x) and later versions.",
        WaitType::WAIT_XTP_PROCEDURE_ENTRY => "Occurs when a drop procedure is waiting for all current executions of that procedure to complete.\n\nApplies to: SQL Server 2014 (12.x) and later versions.",
        _ => "",
    }
}

/// `w` is one of the wait types in part 19 of the description table.
pub open spec fn in_description_part_19(w: WaitType) -> bool {
    w is WAIT_XTP_RECOVERY
        || w is WAIT_XTP_TASK_SHUTDOWN
        || w is WAIT_XTP_TRAN_DEPENDENCY
        || w is WORKTBL_DROP
        || w is WRITELOG
        || w is WRITE_COMPLETION
        || w is XACTLOCKINFO
        || w is XACTWORKSPACE_MUTEX
        || w is XACT_OWN_TRANSACTION
        || w is XACT_RECLAIM_SESSION
        || w is XE_BUFFERMGR_ALLPROCESSED_EVENT
        || w is XE_BUFFERMGR_FREEBUF_EVENT
        || w is XE_DISPATCHER_CONFIG_SESSION_LIST
        || w is XE_DISPATCHER_JOIN
        || w is XE_DISPATCHER_WAIT
        || w is XTPPROC_CACHE_ACCESS
        || w is XTPPROC_PARTITIONED_STACK_CREATE
        || w is Unknown
}

/// The descriptions of the wait types in part 19 of the description table.
#[verifier::opaque]
pub open spec fn description_part_19(w: WaitType) -> &'static str {
    match w {
        WaitType::WAIT_XTP_RECOVERY => "Occurs when database recovery is waiting for recovery of memory-optimized objects to finish.\n\nApplies to: SQL Server 2014 (12.x) and later versions.",
        WaitType::WAIT_XTP_TASK_SHUTDOWN => "Occurs when waiting for an In-Memory OLTP thread to complete.\n\nApplies to: SQL Server 2012 (11.x) and later versions.",
        WaitType::WAIT_XTP_TRAN_DEPENDENCY => "Occurs when waiting for transaction dependencies.\n\nApplies to: SQL Server 2014 (12.x) and later versions.",
        WaitType::WORKTBL_DROP => "Occurs while pausing before retrying, after a failed worktable drop.",
        WaitType::WRITELOG => "Occurs while waiting for a log flush to complete. Common operations that cause log flushes are transaction commits and checkpoints. Common reasons for long waits on WRITELOG are: disk latency (where transaction log files reside), the inability for I/O to keep up with transactions, or, a large number of transaction log operations and flushes (commits, rollback)",
        WaitType::WRITE_COMPLETION => "Occurs when a write operation is in progress.",
        WaitType::XACTLOCKINFO => "Occurs during synchronization of access to the list of locks for a transaction. In addition to the transaction itself, the list of locks is accessed by operations such as deadlock detection and lock migration during page splits.",
        WaitType::XACTWORKSPACE_MUTEX => "Occurs during synchronization of defections from a transaction, as well as the number of database locks between enlist members of a transaction.",
        WaitType::XACT_OWN_TRANSACTION => "Occurs while waiting to acquire ownership of a transaction.",
        WaitType::XACT_RECLAIM_SESSION => "Occurs while waiting for the current owner of a session to release ownership of the session.",
        WaitType::XE_BUFFERMGR_ALLPROCESSED_EVENT => "Occurs when Extended Events session buffers are flushed to targets. This wait occurs on a background thread.",
        WaitType::XE_BUFFERMGR_FREEBUF_EVENT => "Occurs when either of the following conditions is true:\n\n- An Extended Events session is configured for no event loss, and all buffers in the session are currently full. This can indicate that the buffers for an Extended Events session are too small or should be partitioned.\n- Audits experience a delay. This can indicate a disk bottleneck on the drive where the audits are written.",
        WaitType::XE_DISPATCHER_CONFIG_SESSION_LIST => "Occurs when an Extended Events session that is using asynchronous targets is started or stopped. This wait indicates either of the following conditions:\n\n- An Extended Events session is registering with a background thread pool.\n- The background thread pool is calculating the required number of threads based on current load.",
        WaitType::XE_DISPATCHER_JOIN => "Occurs when a background thread that is used for Extended Events sessions is terminating.",
        WaitType::XE_DISPATCHER_WAIT => "Occurs when a background thread that is used for Extended Events sessions is waiting for event buffers to process.",
        WaitType::XTPPROC_CACHE_ACCESS => "Occurs when for accessing all natively compiled stored procedure cache objects.\n\nApplies to: SQL Server 2014 (12.x) and later versions.",
        WaitType::XTPPROC_PARTITIONED_STACK_CREATE => "Occurs when allocating per-NUMA node natively compiled stored procedure cache structures (must be done single threaded) for a given procedure.\n\nApplies to: SQL Server 2012 (11.x) and later versions.",
        WaitType::Unknown(_) => "Not present in the generated wait-type table.",
        _ => "",
    }
}

/// The description of each wait type as SQL Server's documentation gives it.
pub open spec fn wait_type_description(w: WaitType) -> &'static str {
    if in_description_part_0(w) {
        description_part_0(w)
    } else if in_description_part_1(w) {
        description_part_1(w)
    } else if in_description_part_2(w) {
        description_part_2(w)
    } else if in_description_part_3(w) {
        description_part_3(w)
    } else if in_description_part_4(w) {
        description_part_4(w)
    } else if in_description_part_5(w) {
        description_part_5(w)
    } else if in_description_part_6(w) {
        description_part_6(w)
    } else if in_description_part_7(w) {
        description_part_7(w)
    } else if in_description_part_8(w) {
        description_part_8(w)
    } else if in_description_part_9(w) {
        description_part_9(w)
    } else if in_description_part_10(w) {
        description_part_10(w)
    } else if in_description_part_11(w) {
        description_part_11(w)
    } else if in_description_part_12(w) {
        description_part_12(w)
    } else if in_description_part_13(w) {
        description_part_13(w)
    } else if in_description_part_14(w) {
        description_part_14(w)
    } else if in_description_part_15(w) {
        description_part_15(w)
    } else if in_description_part_16(w) {
        description_part_16(w)
    } else if in_description_part_17(w) {
        description_part_17(w)
    } else if in_description_part_18(w) {
        description_part_18(w)
    } else if in_description_part_19(w) {
        description_part_19(w)
    } else {
        ""
    }
}

fn description_of_0(w: &WaitType) -> (r: &'static str)
    ensures
        r == wait_type_description(*w),
{
    proof {
        reveal(description_part_0);
    }
    match w {
        WaitType::ABR | WaitType::CHECK_PRINT_RECORD | WaitType::DBMIRROR_DBM_EVENT | WaitType::DBMIRROR_DBM_MUTEX | WaitType::DUMPTRIGGER | WaitType::EC | WaitType::FAILPOINT | WaitType::GUARDIAN | WaitType::INTERNAL_TESTING | WaitType::IOAFF_RANGE_QUEUE | WaitType::KTM_ENLISTMENT | WaitType::KTM_RECOVERY_MANAGER | WaitType::KTM_RECOVERY_RESOLUTION | WaitType::LATCH_NL | WaitType::LOGGENERATION | WaitType::LOGMGR_FLUSH | WaitType::MISCELLANEOUS | WaitType::PAGEIOLATCH_NL | WaitType::PAGELATCH_NL | WaitType::PREEMPTIVE_ABR | WaitType::PREEMPTIVE_SOSTESTING | WaitType::PREEMPTIVE_STRESSDRIVER | WaitType::PREEMPTIVE_TESTING | WaitType::PREEMPTIVE_XETESTING | WaitType::QUERY_NOTIFICATION_UNITTEST_MUTEX | WaitType::QUERY_TRACEOUT | WaitType::TRAN_MARKLATCH_NL | WaitType::WAITFOR_TASKSHUTDOWN | WaitType::WCC | WaitType::XE_MODULEMGR_SYNC | WaitType::XE_OLS_LOCK => "Identified for informational purposes only. Not supported. Future compatibility isn't guaranteed.",
        WaitType::AM_INDBUILD_ALLOCATION | WaitType::AM_SCHEMAMGR_UNSHARED_CACHE | WaitType::BROKER_DISPATCHER | WaitType::BROKER_FORWARDER | WaitType::BROKER_TRANSMISSION_OBJECT | WaitType::BROKER_TRANSMISSION_TABLE | WaitType::BROKER_TRANSMISSION_WORK | WaitType::CHANGE_TRACKING_WAITFORCHANGES | WaitType::COUNTRECOVERYMGR | WaitType::CREATE_DATINISERVICE | WaitType::DBCC_SCALE_OUT_EXPR_CACHE | WaitType::DIRTY_PAGE_POLL | WaitType::DIRTY_PAGE_SYNC | WaitType::DISPATCHER_PRIORITY_QUEUE_SEMAPHORE | WaitType::DTCPNTSYNC | WaitType::ENABLE_EMPTY_VERSIONING | WaitType::FFT_NSO_DB_KILL_FLAG | WaitType::FFT_NSO_DB_LIST | WaitType::FFT_NSO_FCB => "Internal use only.\n\nApplies to: SQL Server 2012 (11.x) and later versions.",
        _ => description_of_1(w),
    }
}

fn description_of_1(w: &WaitType) -> (r: &'static str)
    requires
        !in_description_part_0(*w),
    ensures
        r == wait_type_description(*w),
{
    proof {
        reveal(description_part_1);
    }
    match w {
        WaitType::FFT_NSO_FCB_FIND | WaitType::FFT_NSO_FCB_PARENT | WaitType::FFT_NSO_FCB_RELEASE_CACHED_ENTRIES | WaitType::FFT_NSO_FILEOBJECT | WaitType::FFT_NSO_TABLE_LIST | WaitType::FFT_NTFS_STORE | WaitType::FFT_RECOVERY | WaitType::FFT_RSFX_COMM | WaitType::FFT_RSFX_WAIT_FOR_MEMORY | WaitType::FFT_STARTUP_SHUTDOWN | WaitType::FFT_STORE_DB | WaitType::FFT_STORE_ROWSET_LIST | WaitType::FFT_STORE_TABLE | WaitType::FILESTREAM_CACHE | WaitType::FILESTREAM_CHUNKER | WaitType::FILESTREAM_CHUNKER_INIT | WaitType::FILESTREAM_FCB | WaitType::FILESTREAM_FILE_OBJECT | WaitType::FILESTREAM_WORKITEM_QUEUE | WaitType::FILETABLE_SHUTDOWN | WaitType::FT_MASTER_MERGE_COORDINATOR | WaitType::FT_PROPERTYLIST_CACHE | WaitType::GDMA_GET_RESOURCE_OWNER | WaitType::GHOSTCLEANUPSYNCMGR | WaitType::HADR_AR_UNLOAD_COMPLETED | WaitType::HADR_CONNECTIVITY_INFO | WaitType::LOGCAPTURE_LOGPOOLTRUNCPOINT | WaitType::LOGPOOLREFCOUNTEDOBJECT_REFDONE | WaitType::LOGPOOL_CACHESIZE | WaitType::LOGPOOL_CONSUMER | WaitType::LOGPOOL_CONSUMERSET | WaitType::LOGPOOL_FREEPOOLS | WaitType::LOGPOOL_MGRSET | WaitType::LOGPOOL_REPLACEMENTSET | WaitType::MD_AGENT_YIELD | WaitType::MD_LAZYCACHE_RWLOCK | WaitType::PREEMPTIVE_OS_PDH_WMI_INIT | WaitType::PREEMPTIVE_OS_QUERYCONTEXTATTRIBUTES | WaitType::PREEMPTIVE_SP_SERVER_DIAGNOSTICS | WaitType::PRU_ROLLBACK_DEFERRED | WaitType::PWAIT_ALL_COMPONENTS_INITIALIZED | WaitType::PWAIT_COOP_SCAN | WaitType::PWAIT_EVENT_SESSION_INIT_MUTEX | WaitType::PWAIT_HADR_ACTION_COMPLETED | WaitType::PWAIT_HADR_FAILOVER_COMPLETED | WaitType::PWAIT_HADR_SERVER_READY_CONNECTIONS | WaitType::PWAIT_PREEMPTIVE_AUDIT_ACCESS_WINDOWSLOG | WaitType::PWAIT_QRY_BPMEMORY | WaitType::PWAIT_REPLICA_ONLINE_INIT_MUTEX | WaitType::PWAIT_RESOURCE_SEMAPHORE_FT_PARALLEL_QUERY_SYNC => "Internal use only.\n\nApplies to: SQL Server 2012 (11.x) and later versions.",
        _ => description_of_2(w),
    }
}

fn description_of_2(w: &WaitType) -> (r: &'static str)
    requires
        !in_description_part_0(*w),
        !in_description_part_1(*w),
    ensures
        r == wait_type_description(*w),
{
    proof {
        reveal(description_part_2);
    }
    match w {
        WaitType::QRY_PARALLEL_THREAD_MUTEX | WaitType::QUERY_TASK_ENQUEUE_MUTEX | WaitType::REDO_THREAD_PENDING_WORK | WaitType::REDO_THREAD_SYNC | WaitType::REPL_TRANFSINFO_ACCESS | WaitType::REPL_TRANTEXTINFO_ACCESS | WaitType::RESOURCE_GOVERNOR_IDLE | WaitType::SCAN_CHAR_HASH_ARRAY_INITIALIZATION | WaitType::SECURITY_CRYPTO_CONTEXT_MUTEX | WaitType::SECURITY_KEYRING_RWLOCK | WaitType::SECURITY_RULETABLE_MUTEX | WaitType::SEMPLAT_DSI_BUILD | WaitType::SEQUENCE_GENERATION | WaitType::SERVER_RECONFIGURE | WaitType::SLEEP_MASTERDBREADY | WaitType::SLEEP_MASTERMDREADY | WaitType::SLEEP_MASTERUPGRADED | WaitType::SOS_MEMORY_TOPLEVELBLOCKALLOCATOR | WaitType::SP_PREEMPTIVE_SERVER_DIAGNOSTICS_SLEEP | WaitType::SP_SERVER_DIAGNOSTICS_BUFFER_ACCESS | WaitType::SP_SERVER_DIAGNOSTICS_INIT_MUTEX | WaitType::SP_SERVER_DIAGNOSTICS_SLEEP | WaitType::SQLTRACE_FILE_READ_IO_COMPLETION | WaitType::SQLTRACE_FILE_WRITE_IO_COMPLETION | WaitType::SQLTRACE_INCREMENTAL_FLUSH_SLEEP | WaitType::SQLTRACE_PENDING_BUFFER_WRITERS | WaitType::STARTUP_DEPENDENCY_MANAGER | WaitType::TERMINATE_LISTENER | WaitType::UCS_ENDPOINT_CHANGE | WaitType::UCS_MANAGER | WaitType::UCS_MEMORY_NOTIFICATION | WaitType::UCS_SESSION_REGISTRATION | WaitType::UCS_TRANSPORT | WaitType::UCS_TRANSPORT_STREAM_CHANGE | WaitType::VERSIONING_COMMITTING | WaitType::WAITFOR_PER_QUEUE | WaitType::XDESTSVERMGR | WaitType::XDES_HISTORY | WaitType::XDES_OUT_OF_ORDER_LIST | WaitType::XDES_SNAPSHOT | WaitType::XE_CALLBACK_LIST | WaitType::XE_LIVE_TARGET_TVF => "Internal use only.\n\nApplies to: SQL Server 2012 (11.x) and later versions.",
        WaitType::ASSEMBLY_FILTER_HASHTABLE | WaitType::ASYNC_SOCKETDUP_IO | WaitType::BLOB_METADATA | WaitType::BROKER_START | WaitType::CHECK_SCANNER_MUTEX | WaitType::CHECK_TABLES_INITIALIZATION | WaitType::CHECK_TABLES_SINGLE_SCAN | WaitType::CHECK_TABLES_THREAD_BARRIER => "Internal use only.\n\nApplies to: SQL Server 2016 (13.x) and later versions.",
        _ => description_of_3(w),
    }
}

fn description_of_3(w: &WaitType) -> (r: &'static str)
    requires
        !in_description_part_0(*w),
        !in_description_part_1(*w),
        !in_description_part_2(*w),
    ensures
        r == wait_type_description(*w),
{
    proof {
        reveal(description_part_3);
    }
    match w {
        WaitType::COLUMNSTORE_COLUMNDATASET_SESSION_LIST | WaitType::CONNECTION_ENDPOINT_LOCK | WaitType::DIRECTLOGCONSUMER_LIST | WaitType::DIRTY_PAGE_TABLE_LOCK | WaitType::DPT_ENTRY_LOCK | WaitType::DTCNEW_ENLIST | WaitType::DTCNEW_PREPARE | WaitType::DTCNEW_RECOVERY | WaitType::DTCNEW_TM | WaitType::DTCNEW_TRANSACTION_ENLISTMENT | WaitType::EXTERNAL_RG_UPDATE | WaitType::EXTERNAL_SCRIPT_PREPARE_SERVICE | WaitType::EXTERNAL_SCRIPT_SHUTDOWN | WaitType::EXTERNAL_WAIT_ON_LAUNCHER | WaitType::FILE_VALIDATION_THREADS | WaitType::FORWARDER_TRANSITION | WaitType::GLOBAL_QUERY_CLOSE | WaitType::GLOBAL_TRAN_CREATE | WaitType::GLOBAL_TRAN_UCS_SESSION | WaitType::HADR_DATABASE_WAIT_FOR_RECOVERY | WaitType::HADR_FILESTREAM_PREPROC | WaitType::HADR_SEEDING_CANCELLATION | WaitType::HADR_SEEDING_FILE_LIST | WaitType::HADR_SEEDING_LIMIT_BACKUPS | WaitType::HADR_SEEDING_SYNC_COMPLETION | WaitType::HADR_SEEDING_TIMEOUT_TASK | WaitType::HADR_SEEDING_WAIT_FOR_COMPLETION | WaitType::HADR_THROTTLE_LOG_RATE_GOVERNOR | WaitType::HCCO_CACHE | WaitType::HKCS_PARALLEL_MIGRATION | WaitType::HKCS_PARALLEL_RECOVERY | WaitType::HK_RESTORE_FILEMAP | WaitType::INSTANCE_LOG_RATE_GOVERNOR | WaitType::IO_QUEUE_LIMIT | WaitType::LOGMGR_PMM_LOG | WaitType::LOG_POOL_SCAN | WaitType::LOG_RATE_GOVERNOR | WaitType::NETWORKSXMLMGRLOAD | WaitType::PARALLEL_REDO_DRAIN_WORKER | WaitType::PARALLEL_REDO_FLOW_CONTROL | WaitType::PARALLEL_REDO_LOG_CACHE | WaitType::PARALLEL_REDO_TRAN_LIST | WaitType::PARALLEL_REDO_TRAN_TURN | WaitType::PARALLEL_REDO_WORKER_SYNC | WaitType::PARALLEL_REDO_WORKER_WAIT_WORK | WaitType::POOL_LOG_RATE_GOVERNOR | WaitType::PREEMPTIVE_HTTP_EVENT_WAIT | WaitType::PREEMPTIVE_HTTP_REQUEST | WaitType::PREEMPTIVE_OS_GETFINALFILEPATHBYHANDLE | WaitType::PREEMPTIVE_OS_VERIFYTRUST => "Internal use only.\n\nApplies to: SQL Server 2016 (13.x) and later versions.",
        _ => description_of_4(w),
    }
}

fn description_of_4(w: &WaitType) -> (r: &'static str)
    requires
        !in_description_part_0(*w),
        !in_description_part_1(*w),
        !in_description_part_2(*w),
        !in_description_part_3(*w),
    ensures
        r == wait_type_description(*w),
{
    proof {
        reveal(description_part_4);
    }
    match w {
        WaitType::PWAIT_DIRECTLOGCONSUMER_GETNEXT | WaitType::PWAIT_FABRIC_REPLICA_CONTROLLER_DATA_LOSS | WaitType::PWAIT_HADRSIM | WaitType::QDS_ASYNC_QUEUE | WaitType::QDS_BLOOM_FILTER | WaitType::QDS_EXCLUSIVE_ACCESS | WaitType::QDS_QDS_CAPTURE_INIT | WaitType::QRY_PROFILE_LIST_MUTEX | WaitType::RECOVERY_MGR_LOCK | WaitType::REMOTE_DATA_ARCHIVE_MIGRATION_DMV | WaitType::REMOTE_DATA_ARCHIVE_SCHEMA_DMV | WaitType::REMOTE_DATA_ARCHIVE_SCHEMA_TASK_QUEUE | WaitType::RESERVED_MEMORY_ALLOCATION_EXT | WaitType::RESTORE_FILEHANDLECACHE_ENTRYLOCK | WaitType::RESTORE_FILEHANDLECACHE_LOCK | WaitType::ROWGROUP_OP_STATS | WaitType::ROWGROUP_VERSION | WaitType::SATELLITE_CARGO | WaitType::SATELLITE_SERVICE_SETUP | WaitType::SATELLITE_TASK | WaitType::SECURITY_DBE_STATE_MUTEX | WaitType::SESSION_WAIT_STATS_CHILDREN | WaitType::SHARED_DELTASTORE_CREATION | WaitType::SLEEP_BUFFERPOOL_HELPLW | WaitType::SLEEP_MEMORYPOOL_ALLOCATEPAGES | WaitType::SLEEP_RETRY_VIRTUALALLOC | WaitType::SLEEP_WORKSPACE_ALLOCATEPAGE | WaitType::SMSYNC | WaitType::SOCKETDUPLICATEQUEUE_CLEANUP | WaitType::TDS_BANDWIDTH_STATE | WaitType::TDS_INIT | WaitType::TDS_PROXY_CONTAINER | WaitType::WAIT_XTP_SWITCH_TO_INACTIVE | WaitType::WINDOW_AGGREGATES_MULTIPASS | WaitType::WINFAB_REPORT_FAULT | WaitType::XDB_CONN_DUP_HASH | WaitType::XE_FILE_TARGET_TVF | WaitType::XIO_CREDENTIAL_MGR_RWLOCK | WaitType::XIO_CREDENTIAL_RWLOCK | WaitType::XIO_LEASE_RENEW_MGR_RWLOCK | WaitType::XTP_HOST_PARALLEL_RECOVERY | WaitType::XTP_PREEMPTIVE_TASK | WaitType::XTP_TRUNCATION_LSN => "Internal use only.\n\nApplies to: SQL Server 2016 (13.x) and later versions.",
        WaitType::ASSEMBLY_LOAD => "Occurs during exclusive access to assembly loading.",
        WaitType::ASYNC_DISKPOOL_LOCK => "Occurs when there's an attempt to synchronize parallel threads that are performing tasks such as creating or initializing a file.",
        WaitType::ASYNC_IO_COMPLETION => "Occurs when a task is waiting for asynchronous non-data I/Os to finish. Examples include I/O involved in warm standby log shipping, database mirroring, some bulk import related operations.",
        WaitType::ASYNC_NETWORK_IO => "Occurs on network writes when the task is blocked waiting for the client application to acknowledge that it has processed all the data sent to it. Verify that the client application is processing data from the server as fast as possible or that no network delays exist. Reasons the client application can't consume data fast enough include: application design issues like writing results to a file while the results arrive, waiting for user input, client-side filtering on a large dataset instead of server-side filtering, or an intentional wait introduced. Also the client computer might be experiencing slow response due to issues like low virtual/physical memory, 100% CPU consumption, etc. Network delays can also lead to this wait - typically caused by network adapter driver issues, filter drivers, firewalls, or misconfigured routers.",
        WaitType::ASYNC_OP_COMPLETION | WaitType::ASYNC_OP_CONTEXT_READ | WaitType::ASYNC_OP_CONTEXT_WRITE => "Internal use only.\n\nApplies to: SQL Server 2014 (12.x) and later versions.",
        _ => description_of_5(w),
    }
}

fn description_of_5(w: &WaitType) -> (r: &'static str)
    requires
        !in_description_part_0(*w),
        !in_description_part_1(*w),
        !in_description_part_2(*w),
        !in_description_part_3(*w),
        !in_description_part_4(*w),
    ensures
        r == wait_type_description(*w),
{
    proof {
        reveal(description_part_5);
    }
    match w {
        WaitType::BROKER_TASK_SHUTDOWN | WaitType::BROKER_TASK_SUBMIT | WaitType::CMEMPARTITIONED | WaitType::COLUMNSTORE_BUILD_THROTTLE | WaitType::DBSEEDING_FLOWCONTROL | WaitType::DBSEEDING_OPERATION | WaitType::DROP_DATABASE_TIMER_TASK | WaitType::FABRIC_HADR_TRANSPORT_CONNECTION | WaitType::FABRIC_REPLICA_CONTROLLER_LIST | WaitType::FABRIC_REPLICA_CONTROLLER_STATE_AND_CONFIG | WaitType::FABRIC_REPLICA_PUBLISHER_EVENT_PUBLISH | WaitType::FABRIC_REPLICA_PUBLISHER_SUBSCRIBER_LIST | WaitType::FABRIC_WAIT_FOR_BUILD_REPLICA_EVENT_PROCESSING | WaitType::FEATURE_SWITCHES_UPDATE | WaitType::FFT_NSO_FCB_STATE | WaitType::HADR_DBSEEDING | WaitType::HADR_DBSEEDING_LIST | WaitType::HADR_FABRIC_CALLBACK | WaitType::HTTP_STORAGE_CONNECTION | WaitType::PHYSICAL_SEEDING_DMV | WaitType::PREEMPTIVE_XE_CX_FILE_OPEN | WaitType::PREEMPTIVE_XE_CX_HTTP_CALL | WaitType::PWAIT_HADR_JOIN | WaitType::PWAIT_LOG_CONSOLIDATION_IO | WaitType::PWAIT_LOG_CONSOLIDATION_POLL | WaitType::PWAIT_XTP_FSSTORAGE_MAINTENANCE | WaitType::PWAIT_XTP_HOST_STORAGE_WAIT | WaitType::QDS_ASYNC_CHECK_CONSISTENCY_TASK | WaitType::QDS_ASYNC_PERSIST_TASK | WaitType::QDS_ASYNC_PERSIST_TASK_START | WaitType::QDS_BCKG_TASK | WaitType::QDS_CLEANUP_STALE_QUERIES_TASK_MAIN_LOOP_SLEEP | WaitType::QDS_CTXS | WaitType::QDS_DB_DISK | WaitType::QDS_DYN_VECTOR | WaitType::QDS_LOADDB | WaitType::QDS_PERSIST_TASK_MAIN_LOOP_SLEEP | WaitType::QDS_SHUTDOWN_QUEUE | WaitType::QDS_STMT | WaitType::QDS_STMT_DISK | WaitType::QDS_TASK_SHUTDOWN | WaitType::QDS_TASK_START | WaitType::QE_WARN_LIST_SYNC | WaitType::RTDATA_LIST | WaitType::SLO_UPDATE | WaitType::SNI_CONN_DUP | WaitType::VDI_CLIENT_COMPLETECOMMAND | WaitType::VDI_CLIENT_GETCOMMAND | WaitType::VDI_CLIENT_OPERATION | WaitType::VDI_CLIENT_OTHER => "Internal use only.\n\nApplies to: SQL Server 2014 (12.x) and later versions.",
        _ => description_of_6(w),
    }
}

fn description_of_6(w: &WaitType) -> (r: &'static str)
    requires
        !in_description_part_0(*w),
        !in_description_part_1(*w),
        !in_description_part_2(*w),
        !in_description_part_3(*w),
        !in_description_part_4(*w),
        !in_description_part_5(*w),
    ensures
        r == wait_type_description(*w),
{
    proof {
        reveal(description_part_6);
    }
    match w {
        WaitType::WAIT_SCRIPTDEPLOYMENT_REQUEST | WaitType::WAIT_SCRIPTDEPLOYMENT_WORKER | WaitType::WAIT_XTP_ASYNC_TX_COMPLETION | WaitType::WAIT_XTP_CKPT_AGENT_WAKEUP | WaitType::WAIT_XTP_OFFLINE_CKPT_BEFORE_REDO | WaitType::WINFAB_API_CALL | WaitType::WINFAB_REPLICA_BUILD_OPERATION | WaitType::XE_CX_FILE_READ | WaitType::XTP_HOST_DB_COLLECTION | WaitType::XTP_HOST_LOG_ACTIVITY => "Internal use only.\n\nApplies to: SQL Server 2014 (12.x) and later versions.",
        WaitType::AUDIT_GROUPCACHE_LOCK => "Occurs when there's a wait on a lock that controls access to a special cache. The cache contains information about which audits are being used to audit each audit action group.",
        WaitType::AUDIT_LOGINCACHE_LOCK => "Occurs when there's a wait on a lock that controls access to a special cache. The cache contains information about which audits are being used to audit login audit action groups.",
        WaitType::AUDIT_ON_DEMAND_TARGET_LOCK => "Occurs when there's a wait on a lock that is used to ensure single initialization of audit related Extended Event targets.",
        WaitType::AUDIT_XE_SESSION_MGR => "Occurs when there's a wait on a lock that is used to synchronize the starting and stopping of audit related Extended Events sessions.",
        WaitType::BACKUP => "Occurs when a task is blocked as part of backup processing.",
        WaitType::BACKUPBUFFER | WaitType::BACKUPIO => "Occurs when a backup task is waiting for data, or is waiting for a buffer in which to store data. This type isn't typical, except when a task is waiting for a tape mount.",
        WaitType::BACKUPTHREAD => "Occurs when a task is waiting for a backup task to finish. Wait times might be long, from several minutes to several hours. If the task that is being waited on is in an I/O process, this type doesn't indicate a problem.",
        WaitType::BACKUP_OPERATOR => "Occurs when a task is waiting for a tape mount. To view the tape status, query sys.dm_io_backup_tapes. If a mount operation isn't pending, this wait type might indicate a hardware problem with the tape drive.",
        WaitType::BAD_PAGE_PROCESS => "Occurs when the background suspect page logger is trying to avoid running more than every five seconds. Excessive suspect pages cause the logger to run frequently.",
        WaitType::BMPALLOCATION => "Occurs with parallel batch-mode plans when synchronizing the allocation of a large bitmap filter. If waiting is excessive and can't be reduced by tuning the query (such as adding indexes), consider adjusting the cost threshold for parallelism, or lowering the degree of parallelism.\n\nApplies to: SQL Server 2014 (12.x) and later versions.",
        WaitType::BMPBUILD => "Occurs with parallel batch-mode plans when synchronizing the building of a large bitmap filter. If waiting is excessive and can't be reduced by tuning the query (such as adding indexes), consider adjusting the cost threshold for parallelism, or lowering the degree of parallelism.\n\nApplies to: SQL Server 2014 (12.x) and later versions.",
        WaitType::BMPREPARTITION => "Occurs with parallel batch-mode plans when synchronizing the repartitioning of a large bitmap filter. If waiting is excessive and can't be reduced by tuning the query (such as adding indexes), consider adjusting the cost threshold for parallelism, or lowering the degree of parallelism.\n\nApplies to: SQL Server 2014 (12.x) and later versions.",
        WaitType::BMPREPLICATION => "Occurs with parallel batch-mode plans when synchronizing the replication of a large bitmap filter across worker threads. If waiting is excessive and can't be reduced by tuning the query (such as adding indexes), consider adjusting the cost threshold for parallelism, or lowering the degree of parallelism.\n\nApplies to: SQL Server 2014 (12.x) and later versions.",
        WaitType::BPSORT => "Occurs with parallel batch-mode plans when synchronizing the sorting of a dataset across multiple threads. If waiting is excessive and can't be reduced by tuning the query (such as adding indexes), consider adjusting the cost threshold for parallelism, or lowering the degree of parallelism.\n\nApplies to: SQL Server 2016 (13.x) and later versions.",
        WaitType::BROKER_CONNECTION_RECEIVE_TASK => "Occurs when waiting for access to receive a message on a connection endpoint. Receive access to the endpoint is serialized.",
        WaitType::BROKER_ENDPOINT_STATE_MUTEX => "Occurs when there's contention to access the state of a Service Broker connection endpoint. Access to the state for changes is serialized.",
        WaitType::BROKER_EVENTHANDLER => "Occurs when a task is waiting in the primary event handler of the Service Broker. This should occur very briefly.",
        WaitType::BROKER_INIT => "Occurs when initializing Service Broker in each active database. This should occur infrequently.",
        WaitType::BROKER_MASTERSTART => "Occurs when a task is waiting for the primary event handler of the Service Broker to start. This should occur very briefly.",
        WaitType::BROKER_RECEIVE_WAITFOR => "Occurs when the RECEIVE WAITFOR is waiting. This might mean that either no messages are ready to be received in the queue or a lock contention is preventing it from receiving messages from the queue.",
        WaitType::BROKER_REGISTERALLENDPOINTS => "Occurs during the initialization of a Service Broker connection endpoint. This should occur very briefly.",
        WaitType::BROKER_SERVICE => "Occurs when the Service Broker destination list that is associated with a target service is updated or reprioritized.",
        WaitType::BROKER_SHUTDOWN => "Occurs when there's a planned shutdown of Service Broker. This should occur very briefly, if at all.",
        WaitType::BROKER_TASK_STOP => "Occurs when the Service Broker queue task handler tries to shut down the task. The state check is serialized and must be in a running state beforehand.",
        WaitType::BROKER_TO_FLUSH => "Occurs when the Service Broker lazy flusher flushes the in-memory transmission objects to a work table.",
        WaitType::BROKER_TRANSMITTER => "Occurs when the Service Broker transmitter is waiting for work. Service Broker has a component known as the Transmitter, which schedules messages from multiple dialogs to be sent across the wire over one or more connection endpoints. The transmitter has two dedicated threads for this purpose. This wait type is charged when these transmitter threads are waiting for dialog messages to be sent using the transport connections. High values of waiting_tasks_count for this wait type point to intermittent work for these transmitter threads and aren't indications of any performance problem. If service broker isn't used at all, waiting_tasks_count should be 2 (for the two transmitter threads), and wait_time_ms should be twice the duration since instance startup. See Service broker wait stats.",
        WaitType::BUFFERPOOL_SCAN => "Might occur when the buffer pool scan runs in parallel and the main task waits for the scan to complete. For more information, see Operations that trigger a buffer pool scan may run slowly on large-memory computers.\n\nApplies to: SQL Server 2022 (16.x) and later versions.",
        WaitType::BUILTIN_HASHKEY_MUTEX => "Might occur after startup of instance, while internal data structures are initializing. Doesn't recur once data structures have initialized.",
        WaitType::CHECKPOINT_QUEUE => "Occurs while the checkpoint task is waiting for the next checkpoint request.",
        WaitType::CHKPT => "Occurs at server startup to tell the checkpoint thread that it can start.",
        WaitType::CLEAR_DB => "Occurs during operations that change the state of a database, such as opening or closing a database.",
        WaitType::CLRHOST_STATE_ACCESS => "Occurs where there's a wait to acquire exclusive access to the CLR-hosting data structures. This wait type occurs while setting up or tearing down the CLR runtime.",
        WaitType::CLR_AUTO_EVENT => "Occurs when a task is currently performing common language runtime (CLR) execution and is waiting for a particular autoevent to be initiated. Long waits are typical, and don't indicate a problem.",
        WaitType::CLR_CRST => "Occurs when a task is currently performing CLR execution, and is waiting to enter a critical section of the task that is currently being used by another task.",
        WaitType::CLR_JOIN => "Occurs when a task is currently performing CLR execution, and is waiting for another task to end. This wait state occurs when there's a join between tasks.",
        WaitType::CLR_MANUAL_EVENT => "Occurs when a task is currently performing CLR execution, and is waiting for a specific manual event to be initiated.",
        WaitType::CLR_MEMORY_SPY => "Occurs during a wait on lock acquisition for a data structure that is used to record all virtual memory allocations that come from CLR. The data structure is locked to maintain its integrity if there's parallel access.",
        WaitType::CLR_MONITOR => "Occurs when a task is currently performing CLR execution, and is waiting to obtain a lock on the monitor.",
        WaitType::CLR_RWLOCK_READER => "Occurs when a task is currently performing CLR execution, and is waiting for a reader lock.",
        _ => description_of_7(w),
    }
}

fn description_of_7(w: &WaitType) -> (r: &'static str)
    requires
        !in_description_part_0(*w),
        !in_description_part_1(*w),
        !in_description_part_2(*w),
        !in_description_part_3(*w),
        !in_description_part_4(*w),
        !in_description_part_5(*w),
        !in_description_part_6(*w),
    ensures
        r == wait_type_description(*w),
{
    proof {
        reveal(description_part_7);
    }
    match w {
        WaitType::CLR_RWLOCK_WRITER => "Occurs when a task is currently performing CLR execution, and is waiting for a writer lock.",
        WaitType::CLR_SEMAPHORE => "Occurs when a task is currently performing CLR execution, and is waiting for a semaphore.",
        WaitType::CLR_TASK_START => "Occurs while waiting for a CLR task to complete startup.",
        WaitType::CMEMTHREAD => "Occurs when a task is waiting on a thread-safe memory object. The wait time might increase when there's contention caused by multiple tasks trying to allocate memory from the same memory object.",
        WaitType::COMMIT_TABLE | WaitType::DUMP_LOG_COORDINATOR_QUEUE | WaitType::NODE_CACHE_MUTEX | WaitType::PERFORMANCE_COUNTERS_RWLOCK | WaitType::PREEMPTIVE_COM_COGETCLASSOBJECT | WaitType::PREEMPTIVE_COM_CREATEACCESSOR | WaitType::PREEMPTIVE_COM_DELETEROWS | WaitType::PREEMPTIVE_COM_GETCOMMANDTEXT | WaitType::PREEMPTIVE_COM_GETDATA | WaitType::PREEMPTIVE_COM_GETNEXTROWS | WaitType::PREEMPTIVE_COM_GETRESULT | WaitType::PREEMPTIVE_COM_GETROWSBYBOOKMARK | WaitType::PREEMPTIVE_COM_LBFLUSH | WaitType::PREEMPTIVE_COM_LBLOCKREGION | WaitType::PREEMPTIVE_COM_LBREADAT | WaitType::PREEMPTIVE_COM_LBSETSIZE | WaitType::PREEMPTIVE_COM_LBSTAT | WaitType::PREEMPTIVE_COM_LBUNLOCKREGION | WaitType::PREEMPTIVE_COM_LBWRITEAT | WaitType::PREEMPTIVE_COM_QUERYINTERFACE | WaitType::PREEMPTIVE_COM_RELEASE | WaitType::PREEMPTIVE_COM_RELEASEACCESSOR | WaitType::PREEMPTIVE_COM_RELEASEROWS | WaitType::PREEMPTIVE_COM_RELEASESESSION | WaitType::PREEMPTIVE_COM_RESTARTPOSITION | WaitType::PREEMPTIVE_COM_SEQSTRMREAD | WaitType::PREEMPTIVE_COM_SEQSTRMREADANDWRITE | WaitType::PREEMPTIVE_COM_SETDATAFAILURE | WaitType::PREEMPTIVE_COM_SETPARAMETERINFO | WaitType::PREEMPTIVE_COM_SETPARAMETERPROPERTIES | WaitType::PREEMPTIVE_COM_STRMLOCKREGION | WaitType::PREEMPTIVE_COM_STRMSEEKANDREAD | WaitType::PREEMPTIVE_COM_STRMSEEKANDWRITE | WaitType::PREEMPTIVE_COM_STRMSETSIZE | WaitType::PREEMPTIVE_COM_STRMSTAT | WaitType::PREEMPTIVE_COM_STRMUNLOCKREGION | WaitType::PREEMPTIVE_CONSOLEWRITE | WaitType::PREEMPTIVE_CREATEPARAM | WaitType::PREEMPTIVE_DEBUG | WaitType::PREEMPTIVE_DFSADDLINK | WaitType::PREEMPTIVE_DFSLINKEXISTCHECK | WaitType::PREEMPTIVE_DFSLINKHEALTHCHECK | WaitType::PREEMPTIVE_DFSREMOVELINK | WaitType::PREEMPTIVE_DFSREMOVEROOT | WaitType::PREEMPTIVE_DFSROOTFOLDERCHECK | WaitType::PREEMPTIVE_DFSROOTINIT => "Internal use only.",
        _ => description_of_8(w),
    }
}

fn description_of_8(w: &WaitType) -> (r: &'static str)
    requires
        !in_description_part_0(*w),
        !in_description_part_1(*w),
        !in_description_part_2(*w),
        !in_description_part_3(*w),
        !in_description_part_4(*w),
        !in_description_part_5(*w),
        !in_description_part_6(*w),
        !in_description_part_7(*w),
    ensures
        r == wait_type_description(*w),
{
    proof {
        reveal(description_part_8);
    }
    match w {
        WaitType::PREEMPTIVE_DFSROOTSHARECHECK | WaitType::PREEMPTIVE_DTC_ABORT | WaitType::PREEMPTIVE_DTC_ABORTREQUESTDONE | WaitType::PREEMPTIVE_DTC_BEGINTRANSACTION | WaitType::PREEMPTIVE_DTC_COMMITREQUESTDONE | WaitType::PREEMPTIVE_DTC_ENLIST | WaitType::PREEMPTIVE_DTC_PREPAREREQUESTDONE | WaitType::PREEMPTIVE_FILESIZEGET | WaitType::PREEMPTIVE_FSAOLEDB_ABORTTRANSACTION | WaitType::PREEMPTIVE_FSAOLEDB_COMMITTRANSACTION | WaitType::PREEMPTIVE_FSAOLEDB_STARTTRANSACTION | WaitType::PREEMPTIVE_FSRECOVER_UNCONDITIONALUNDO | WaitType::PREEMPTIVE_GETRMINFO | WaitType::PREEMPTIVE_LOCKMONITOR | WaitType::PREEMPTIVE_MSS_RELEASE | WaitType::PREEMPTIVE_ODBCOPS | WaitType::PREEMPTIVE_OLEDBOPS | WaitType::PREEMPTIVE_OLEDB_ABORTORCOMMITTRAN | WaitType::PREEMPTIVE_OLEDB_ABORTTRAN | WaitType::PREEMPTIVE_OLEDB_GETDATASOURCE | WaitType::PREEMPTIVE_OLEDB_GETLITERALINFO | WaitType::PREEMPTIVE_OLEDB_GETPROPERTIES | WaitType::PREEMPTIVE_OLEDB_GETPROPERTYINFO | WaitType::PREEMPTIVE_OLEDB_GETSCHEMALOCK | WaitType::PREEMPTIVE_OLEDB_JOINTRANSACTION | WaitType::PREEMPTIVE_OLEDB_RELEASE | WaitType::PREEMPTIVE_OLEDB_SETPROPERTIES | WaitType::PREEMPTIVE_OLE_UNINIT | WaitType::PREEMPTIVE_OS_ACCEPTSECURITYCONTEXT | WaitType::PREEMPTIVE_OS_ACQUIRECREDENTIALSHANDLE | WaitType::PREEMPTIVE_OS_AUTHENTICATIONOPS | WaitType::PREEMPTIVE_OS_AUTHORIZATIONOPS | WaitType::PREEMPTIVE_OS_AUTHZGETINFORMATIONFROMCONTEXT | WaitType::PREEMPTIVE_OS_AUTHZINITIALIZECONTEXTFROMSID | WaitType::PREEMPTIVE_OS_AUTHZINITIALIZERESOURCEMANAGER | WaitType::PREEMPTIVE_OS_BACKUPREAD | WaitType::PREEMPTIVE_OS_CLOSEHANDLE | WaitType::PREEMPTIVE_OS_CLUSTEROPS | WaitType::PREEMPTIVE_OS_COMOPS | WaitType::PREEMPTIVE_OS_COMPLETEAUTHTOKEN | WaitType::PREEMPTIVE_OS_COPYFILE | WaitType::PREEMPTIVE_OS_CREATEDIRECTORY | WaitType::PREEMPTIVE_OS_CREATEFILE | WaitType::PREEMPTIVE_OS_CRYPTACQUIRECONTEXT | WaitType::PREEMPTIVE_OS_CRYPTIMPORTKEY | WaitType::PREEMPTIVE_OS_CRYPTOPS | WaitType::PREEMPTIVE_OS_DECRYPTMESSAGE | WaitType::PREEMPTIVE_OS_DELETEFILE | WaitType::PREEMPTIVE_OS_DELETESECURITYCONTEXT | WaitType::PREEMPTIVE_OS_DEVICEIOCONTROL => "Internal use only.",
        _ => description_of_9(w),
    }
}

fn description_of_9(w: &WaitType) -> (r: &'static str)
    requires
        !in_description_part_0(*w),
        !in_description_part_1(*w),
        !in_description_part_2(*w),
        !in_description_part_3(*w),
        !in_description_part_4(*w),
        !in_description_part_5(*w),
        !in_description_part_6(*w),
        !in_description_part_7(*w),
        !in_description_part_8(*w),
    ensures
        r == wait_type_description(*w),
{
    proof {
        reveal(description_part_9);
    }
    match w {
        WaitType::PREEMPTIVE_OS_DEVICEOPS | WaitType::PREEMPTIVE_OS_DIRSVC_NETWORKOPS | WaitType::PREEMPTIVE_OS_DISCONNECTNAMEDPIPE | WaitType::PREEMPTIVE_OS_DOMAINSERVICESOPS | WaitType::PREEMPTIVE_OS_DSGETDCNAME | WaitType::PREEMPTIVE_OS_DTCOPS | WaitType::PREEMPTIVE_OS_ENCRYPTMESSAGE | WaitType::PREEMPTIVE_OS_FILEOPS | WaitType::PREEMPTIVE_OS_FINDFILE | WaitType::PREEMPTIVE_OS_FLUSHFILEBUFFERS | WaitType::PREEMPTIVE_OS_FORMATMESSAGE | WaitType::PREEMPTIVE_OS_FREECREDENTIALSHANDLE | WaitType::PREEMPTIVE_OS_FREELIBRARY | WaitType::PREEMPTIVE_OS_GENERICOPS | WaitType::PREEMPTIVE_OS_GETADDRINFO | WaitType::PREEMPTIVE_OS_GETCOMPRESSEDFILESIZE | WaitType::PREEMPTIVE_OS_GETDISKFREESPACE | WaitType::PREEMPTIVE_OS_GETFILEATTRIBUTES | WaitType::PREEMPTIVE_OS_GETFILESIZE | WaitType::PREEMPTIVE_OS_GETLONGPATHNAME | WaitType::PREEMPTIVE_OS_GETPROCADDRESS | WaitType::PREEMPTIVE_OS_GETVOLUMENAMEFORVOLUMEMOUNTPOINT | WaitType::PREEMPTIVE_OS_GETVOLUMEPATHNAME | WaitType::PREEMPTIVE_OS_INITIALIZESECURITYCONTEXT | WaitType::PREEMPTIVE_OS_LIBRARYOPS | WaitType::PREEMPTIVE_OS_LOADLIBRARY | WaitType::PREEMPTIVE_OS_LOGONUSER | WaitType::PREEMPTIVE_OS_LOOKUPACCOUNTSID | WaitType::PREEMPTIVE_OS_MESSAGEQUEUEOPS | WaitType::PREEMPTIVE_OS_MOVEFILE | WaitType::PREEMPTIVE_OS_NETGROUPGETUSERS | WaitType::PREEMPTIVE_OS_NETLOCALGROUPGETMEMBERS | WaitType::PREEMPTIVE_OS_NETUSERGETGROUPS | WaitType::PREEMPTIVE_OS_NETUSERGETLOCALGROUPS | WaitType::PREEMPTIVE_OS_NETUSERMODALSGET | WaitType::PREEMPTIVE_OS_NETVALIDATEPASSWORDPOLICY | WaitType::PREEMPTIVE_OS_NETVALIDATEPASSWORDPOLICYFREE | WaitType::PREEMPTIVE_OS_OPENDIRECTORY | WaitType::PREEMPTIVE_OS_PIPEOPS | WaitType::PREEMPTIVE_OS_PROCESSOPS | WaitType::PREEMPTIVE_OS_QUERYREGISTRY | WaitType::PREEMPTIVE_OS_QUERYSECURITYCONTEXTTOKEN | WaitType::PREEMPTIVE_OS_REMOVEDIRECTORY | WaitType::PREEMPTIVE_OS_REPORTEVENT | WaitType::PREEMPTIVE_OS_REVERTTOSELF | WaitType::PREEMPTIVE_OS_RSFXDEVICEOPS | WaitType::PREEMPTIVE_OS_SECURITYOPS | WaitType::PREEMPTIVE_OS_SERVICEOPS | WaitType::PREEMPTIVE_OS_SETENDOFFILE | WaitType::PREEMPTIVE_OS_SETFILEPOINTER => "Internal use only.",
        _ => description_of_10(w),
    }
}

fn description_of_10(w: &WaitType) -> (r: &'static str)
    requires
        !in_description_part_0(*w),
        !in_description_part_1(*w),
        !in_description_part_2(*w),
        !in_description_part_3(*w),
        !in_description_part_4(*w),
        !in_description_part_5(*w),
        !in_description_part_6(*w),
        !in_description_part_7(*w),
        !in_description_part_8(*w),
        !in_description_part_9(*w),
    ensures
        r == wait_type_description(*w),
{
    proof {
        reveal(description_part_10);
    }
    match w {
        WaitType::PREEMPTIVE_OS_SETFILEVALIDDATA | WaitType::PREEMPTIVE_OS_SETNAMEDSECURITYINFO | WaitType::PREEMPTIVE_OS_SQLCLROPS | WaitType::PREEMPTIVE_OS_VERIFYSIGNATURE | WaitType::PREEMPTIVE_OS_VSSOPS | WaitType::PREEMPTIVE_OS_WAITFORSINGLEOBJECT | WaitType::PREEMPTIVE_OS_WINSOCKOPS | WaitType::PREEMPTIVE_OS_WRITEFILE | WaitType::PREEMPTIVE_OS_WRITEFILEGATHER | WaitType::PREEMPTIVE_OS_WSASETLASTERROR | WaitType::PREEMPTIVE_REENLIST | WaitType::PREEMPTIVE_RESIZELOG | WaitType::PREEMPTIVE_ROLLFORWARDREDO | WaitType::PREEMPTIVE_ROLLFORWARDUNDO | WaitType::PREEMPTIVE_SB_STOPENDPOINT | WaitType::PREEMPTIVE_SERVER_STARTUP | WaitType::PREEMPTIVE_SETRMINFO | WaitType::PREEMPTIVE_SHAREDMEM_GETDATA | WaitType::PREEMPTIVE_SNIOPEN | WaitType::PREEMPTIVE_SOSHOST | WaitType::PREEMPTIVE_STARTRM | WaitType::PREEMPTIVE_STREAMFCB_CHECKPOINT | WaitType::PREEMPTIVE_STREAMFCB_RECOVER | WaitType::PREEMPTIVE_TRANSIMPORT | WaitType::PREEMPTIVE_UNMARSHALPROPAGATIONTOKEN | WaitType::PREEMPTIVE_VSS_CREATESNAPSHOT | WaitType::PREEMPTIVE_VSS_CREATEVOLUMESNAPSHOT | WaitType::PREEMPTIVE_XE_CALLBACKEXECUTE | WaitType::PREEMPTIVE_XE_DISPATCHER | WaitType::PREEMPTIVE_XE_ENGINEINIT | WaitType::PREEMPTIVE_XE_GETTARGETSTATE | WaitType::PREEMPTIVE_XE_SESSIONCOMMIT | WaitType::PREEMPTIVE_XE_TARGETFINALIZE | WaitType::PREEMPTIVE_XE_TARGETINIT | WaitType::PREEMPTIVE_XE_TIMERRUN | WaitType::REPL_HISTORYCACHE_ACCESS | WaitType::REPL_TRANHASHTABLE_ACCESS | WaitType::RG_RECONFIG | WaitType::TRACE_EVTNOTIF | WaitType::XE_SERVICES_EVENTMANUAL | WaitType::XE_SERVICES_MUTEX | WaitType::XE_SERVICES_RWLOCK | WaitType::XE_SESSION_CREATE_SYNC | WaitType::XE_SESSION_FLUSH | WaitType::XE_SESSION_SYNC | WaitType::XE_STM_CREATE | WaitType::XE_TIMER_EVENT | WaitType::XE_TIMER_MUTEX | WaitType::XE_TIMER_TASK_DONE => "Internal use only.",
        WaitType::CXCONSUMER => "Occurs with parallel query plans when a consumer thread (parent) waits for a producer thread to send rows. CXCONSUMER waits are caused by an Exchange Iterator that runs out of rows from its producer thread. This is a normal part of parallel query execution.\n\nApplies to: SQL Server (Starting with SQL Server 2016 (13.x) Service Pack 2, SQL Server 2017 (14.x) CU 3), Azure SQL Database, Azure SQL Managed Instance",
        _ => description_of_11(w),
    }
}

fn description_of_11(w: &WaitType) -> (r: &'static str)
    requires
        !in_description_part_0(*w),
        !in_description_part_1(*w),
        !in_description_part_2(*w),
        !in_description_part_3(*w),
        !in_description_part_4(*w),
        !in_description_part_5(*w),
        !in_description_part_6(*w),
        !in_description_part_7(*w),
        !in_description_part_8(*w),
        !in_description_part_9(*w),
        !in_description_part_10(*w),
    ensures
        r == wait_type_description(*w),
{
    proof {
        reveal(description_part_11);
    }
    match w {
        WaitType::CXPACKET => "Occurs with parallel query plans when waiting to synchronize the Query Processor Exchange Iterator, and when producing and consuming rows. If waiting is excessive and can't be reduced by tuning the query (such as adding indexes), consider adjusting the cost threshold for parallelism, or lowering the degree of parallelism.\n\nNote: Starting with SQL Server 2016 (13.x) Service Pack 2 and SQL Server 2017 (14.x) CU 3, CXPACKET only refers to waiting to synchronize the Exchange Iterator and producing rows. Threads consuming rows are tracked separately in the CXCONSUMER wait type. If the consumer threads are too slow, the Exchange Iterator buffer might become full and cause CXPACKET waits.\n\nNote: In SQL Server 2022 (16.x) and later versions, Azure SQL Database, and Azure SQL Managed Instance, CXPACKET only refers to waiting on threads producing rows. Exchange Iterator synchronization is tracked separately in the CXSYNC_PORT and CXSYNC_CONSUMER wait types. Threads consuming rows are tracked separately in the CXCONSUMER wait type.",
        WaitType::CXROWSET_SYNC => "Occurs during a parallel range scan.",
        WaitType::CXSYNC_CONSUMER => "Occurs with parallel query plans when waiting to reach an Exchange Iterator synchronization point among all consumer threads.\n\nApplies to: SQL Server 2022 (16.x) and later versions, Azure SQL Database, and Azure SQL Managed Instance",
        WaitType::CXSYNC_PORT => "Occurs with parallel query plans when waiting to open, close, and synchronize Exchange Iterator ports between producer and consumer threads. For example, if a query plan has a long sort operation, CXSYNC_PORT waits might be higher because the sort must complete before the Exchange Iterator port can be synchronized.\n\nApplies to: SQL Server 2022 (16.x) and later versions, Azure SQL Database, and Azure SQL Managed Instance",
        WaitType::DAC_INIT => "Occurs while the dedicated administrator connection is initializing.",
        WaitType::DBMIRRORING_CMD => "Occurs when a task is waiting for log records to be flushed to disk. This wait state is expected to be held for long periods of time.",
        WaitType::DBMIRROR_EVENTS_QUEUE => "Occurs when database mirroring waits for events to process.",
        WaitType::DBMIRROR_SEND => "Occurs when a task is waiting for a communications backlog at the network layer to clear to be able to send messages. Indicates that the communications layer is starting to become overloaded and affect the database mirroring data throughput.",
        WaitType::DBMIRROR_WORKER_QUEUE => "Indicates that the database mirroring worker task is waiting for more work.",
        WaitType::DEADLOCK_ENUM_MUTEX => "Occurs when the deadlock monitor and sys.dm_os_waiting_tasks try to make sure that SQL Server isn't running multiple deadlock searches at the same time.",
        WaitType::DEADLOCK_TASK_SEARCH => "Large waiting time on this resource indicates that the server is executing queries on top of sys.dm_os_waiting_tasks, and these queries are blocking deadlock monitor from running deadlock search. This wait type is used by deadlock monitor only. Queries on top of sys.dm_os_waiting_tasks use DEADLOCK_ENUM_MUTEX.",
        WaitType::DEBUG => "Occurs during Transact-SQL and CLR debugging for internal synchronization.",
        WaitType::DISABLE_VERSIONING => "Occurs when SQL Server polls the version transaction manager to see whether the timestamp of the earliest active transaction is later than the timestamp of when the state started changing. If this is this case, all the snapshot transactions that were started before the ALTER DATABASE statement was run have finished. This wait state is used when SQL Server disables versioning by using the ALTER DATABASE statement.",
        WaitType::DISKIO_SUSPEND => "Occurs when a task is waiting to access a file when an external backup is active. This is reported for each waiting user process. A count larger than five per user process might indicate that the external backup is taking too much time to finish.",
        WaitType::DISPATCHER_QUEUE_SEMAPHORE => "Occurs when a thread from the dispatcher pool is waiting for more work to process. The wait time for this wait type is expected to increase when the dispatcher is idle.",
        WaitType::DLL_LOADING_MUTEX => "Occurs once while waiting for the XML parser DLL to load.",
        WaitType::DROPTEMP => "Occurs between attempts to drop a temporary object if the previous attempt failed. The wait duration grows exponentially with each failed drop attempt.",
        WaitType::DTC => "Occurs when a task is waiting on an event that is used to manage state transition. This state controls when the recovery of Microsoft Distributed Transaction Coordinator (MS DTC) transactions occurs after SQL Server receives notification that the MS DTC service has become unavailable.",
        WaitType::DTC_ABORT_REQUEST => "Occurs in an MSDTC worker session when the session is waiting to take ownership of an MSDTC transaction. After MS DTC owns the transaction, the session can roll back the transaction. Generally, the session waits for another session that is using the transaction.",
        WaitType::DTC_RESOLVE => "Occurs when a recovery task is waiting for the master database in a cross-database transaction so that the task can query the outcome of the transaction.",
        WaitType::DTC_STATE => "Occurs when a task is waiting on an event that protects changes to the internal MS DTC global state object. This state should be held for very short periods of time.",
        WaitType::DTC_TMDOWN_REQUEST => "Occurs in an MSDTC worker session when SQL Server receives notification that the MS DTC service isn't available. First, the worker waits for the MS DTC recovery process to start. Then, the worker waits to obtain the outcome of the distributed transaction that the worker is working on. This might continue until the connection with the MS DTC service has been reestablished.",
        WaitType::DTC_WAITFOR_OUTCOME => "Occurs when recovery tasks wait for MS DTC to become active to enable the resolution of prepared transactions.",
        WaitType::DUMP_LOG_COORDINATOR => "Occurs when a main task is waiting for a subtask to generate data. Ordinarily, this state doesn't occur. A long wait indicates an unexpected blockage. The subtask should be investigated.",
        WaitType::EE_PMOLOCK => "Occurs during synchronization of certain types of memory allocations during statement execution.",
        WaitType::EE_SPECPROC_MAP_INIT => "Occurs during synchronization of internal procedure hash table creation. This wait can only occur during the initial accessing of the hash table after the SQL Server instance starts.",
        WaitType::ENABLE_VERSIONING => "Occurs when SQL Server waits for all update transactions in this database to finish before declaring the database ready to transition to snapshot isolation allowed state. This state is used when SQL Server enables snapshot isolation by using the ALTER DATABASE statement.",
        WaitType::ERROR_REPORTING_MANAGER => "Occurs during synchronization of multiple concurrent error log initializations.",
        WaitType::EXCHANGE => "Occurs during synchronization in the query processor exchange iterator during parallel queries.",
        WaitType::EXECSYNC => "Occurs during parallel queries while synchronizing in query processor in areas not related to the exchange iterator. Examples of such areas are bitmaps, large binary objects (LOBs), and the spool iterator. LOBs might frequently use this wait state.",
        WaitType::EXECUTION_PIPE_EVENT_INTERNAL => "Occurs during synchronization between producer and consumer parts of batch execution that are submitted through the connection context.",
        WaitType::EXTERNAL_SCRIPT_NETWORK_IO | WaitType::FOREIGN_REDO => "Internal use only.\n\nApplies to: SQL Server 2017 (14.x) through current.",
        WaitType::FCB_REPLICA_READ => "Occurs when the reads of a snapshot (or a temporary snapshot created by DBCC) sparse file are synchronized.",
        WaitType::FCB_REPLICA_WRITE => "Occurs when the pushing or pulling of a page to a snapshot (or a temporary snapshot created by DBCC) sparse file is synchronized.",
        WaitType::FSAGENT => "Occurs when a FILESTREAM file I/O operation is waiting for a FILESTREAM agent resource that is being used by another file I/O operation.",
        WaitType::FSA_FORCE_OWN_XACT => "Occurs when a FILESTREAM file I/O operation needs to bind to the associated transaction, but the transaction is currently owned by another session.",
        WaitType::FSTR_CONFIG_MUTEX => "Occurs when there's a wait for another FILESTREAM feature reconfiguration to be completed.",
        WaitType::FSTR_CONFIG_RWLOCK => "Occurs when there's a wait to serialize access to the FILESTREAM configuration parameters.",
        WaitType::FS_FC_RWLOCK => "Occurs when there's a wait by the FILESTREAM garbage collector to do either of the following tasks:\n\n- Disable garbage collection (used by backup and restore).\n- Execute one cycle of the FILESTREAM garbage collector.",
        WaitType::FS_GARBAGE_COLLECTOR_SHUTDOWN => "Occurs when the FILESTREAM garbage collector is waiting for cleanup tasks to be completed.",
        WaitType::FS_HEADER_RWLOCK => "Occurs when there's a wait to acquire access to the FILESTREAM header of a FILESTREAM data container to either read or update contents in the FILESTREAM header file (Filestream.hdr).",
        WaitType::FS_LOGTRUNC_RWLOCK => "Occurs when there's a wait to acquire access to FILESTREAM log truncation to do either of the following tasks:\n\n- Temporarily disable FILESTREAM log (FSLOG) truncation (used by backup and restore).\n- Execute one cycle of FSLOG truncation.",
        WaitType::FT_COMPROWSET_RWLOCK => "Full-text is waiting on fragment metadata operation. Documented for informational purposes only. Not supported. Future compatibility isn't guaranteed.",
        WaitType::FT_IFTSHC_MUTEX => "Full-text is waiting on an FDHost control operation. Documented for informational purposes only. Not supported. Future compatibility isn't guaranteed.",
        WaitType::FT_IFTSISM_MUTEX => "Full-text is waiting on communication operation. Documented for informational purposes only. Not supported. Future compatibility isn't guaranteed.",
        WaitType::FT_IFTS_ASYNC_WRITE_PIPE | WaitType::FT_IFTS_BLOB_HASH | WaitType::FT_IFTS_CATEALOG_SOURCE | WaitType::FT_IFTS_CHUNK_BUFFER_CLIENT_MANAGER => "Internal use only.\n\nApplies to: SQL Server 2022 (16.x) CU 1 and later versions.",
        _ => description_of_12(w),
    }
}

fn description_of_12(w: &WaitType) -> (r: &'static str)
    requires
        !in_description_part_0(*w),
        !in_description_part_1(*w),
        !in_description_part_2(*w),
        !in_description_part_3(*w),
        !in_description_part_4(*w),
        !in_description_part_5(*w),
        !in_description_part_6(*w),
        !in_description_part_7(*w),
        !in_description_part_8(*w),
        !in_description_part_9(*w),
        !in_description_part_10(*w),
        !in_description_part_11(*w),
    ensures
        r == wait_type_description(*w),
{
    proof {
        reveal(description_part_12);
    }
    match w {
        WaitType::FT_IFTS_CHUNK_BUFFER_PROTO_WORD_LIST | WaitType::FT_IFTS_COMP_DESC_MANAGER | WaitType::FT_IFTS_CONSUMER_PLUGIN | WaitType::FT_IFTS_CRAWL_BATCH_LIST | WaitType::FT_IFTS_CRAWL_CHILDREN | WaitType::FT_IFTS_DOCID_INTERFACE_LIST | WaitType::FT_IFTS_DOCID_LIST | WaitType::FT_IFTS_FP_INFO_LIST | WaitType::FT_IFTS_HOST_CONTROLLER | WaitType::FT_IFTS_MASTER_MERGE_TASK_LIST | WaitType::FT_IFTS_MEMREGPOOL | WaitType::FT_IFTS_MERGE_FRAGMENT_SYNC | WaitType::FT_IFTS_NOISE_WORDS_COLLECTION_CACHE | WaitType::FT_IFTS_NOISE_WORDS_RESOURCE | WaitType::FT_IFTS_OCCURRENCE_BUFFER_POOL | WaitType::FT_IFTS_PIPELINE | WaitType::FT_IFTS_PIPELINE_LIST | WaitType::FT_IFTS_PIPELINE_MANAGER | WaitType::FT_IFTS_PROJECT_FD_INFO_MAP | WaitType::FT_IFTS_SCHEDULER | WaitType::FT_IFTS_SHARED_MEMORY | WaitType::FT_IFTS_SHUTDOWN_PIPE | WaitType::FT_IFTS_SRCH_FD_MANAGER | WaitType::FT_IFTS_SRCH_FD_SERVICE | WaitType::FT_IFTS_STOPLIST_CACHE_MANAGER | WaitType::FT_IFTS_THESAURUS | WaitType::FT_IFTS_VERSION_MANAGER | WaitType::FT_IFTS_WORK_QUEUE => "Internal use only.\n\nApplies to: SQL Server 2022 (16.x) CU 1 and later versions.",
        WaitType::FT_IFTS_RWLOCK => "Full-text is waiting on internal synchronization. Documented for informational purposes only. Not supported. Future compatibility isn't guaranteed.",
        WaitType::FT_IFTS_SCHEDULER_IDLE_WAIT => "Full-text scheduler sleep wait type. The scheduler is idle.",
        WaitType::FT_MASTER_MERGE => "Full-text is waiting on master merge operation. Documented for informational purposes only. Not supported. Future compatibility isn't guaranteed.",
        WaitType::FT_METADATA_MUTEX => "Documented for informational purposes only. Not supported. Future compatibility isn't guaranteed.",
        WaitType::FT_RESTART_CRAWL => "Occurs when a full-text crawl needs to restart from a last known good point to recover from a transient failure. The wait lets the worker tasks currently working on that population to complete or exit the current step.",
        WaitType::FULLTEXT_GATHERER => "Occurs during synchronization of full-text operations.",
        WaitType::GHOSTCLEANUP_UPDATE_STATS | WaitType::GLOBAL_QUERY_CANCEL | WaitType::GLOBAL_QUERY_CONSUMER | WaitType::GLOBAL_QUERY_PRODUCER | WaitType::HADR_THROTTLE_LOG_RATE_LOG_SIZE | WaitType::HADR_THROTTLE_LOG_RATE_SEEDING | WaitType::HADR_THROTTLE_LOG_RATE_SEND_RECV_QUEUE_SIZE | WaitType::MEMORY_GRANT_UPDATE | WaitType::MIGRATIONBUFFER | WaitType::PWAIT_PREEMPTIVE_APP_USAGE_TIMER | WaitType::PWAIT_SBS_FILE_OPERATION | WaitType::QDS_HOST_INIT | WaitType::RBIO_WAIT_VLF | WaitType::REMOTE_BLOCK_IO | WaitType::SBS_DISPATCH | WaitType::SBS_RECEIVE_TRANSPORT => "Internal use only.\n\nApplies to: SQL Server 2017 (14.x) and later versions.",
        _ => description_of_13(w),
    }
}

fn description_of_13(w: &WaitType) -> (r: &'static str)
    requires
        !in_description_part_0(*w),
        !in_description_part_1(*w),
        !in_description_part_2(*w),
        !in_description_part_3(*w),
        !in_description_part_4(*w),
        !in_description_part_5(*w),
        !in_description_part_6(*w),
        !in_description_part_7(*w),
        !in_description_part_8(*w),
        !in_description_part_9(*w),
        !in_description_part_10(*w),
        !in_description_part_11(*w),
        !in_description_part_12(*w),
    ensures
        r == wait_type_description(*w),
{
    proof {
        reveal(description_part_13);
    }
    match w {
        WaitType::SBS_TRANSPORT | WaitType::SECURITY_CNG_PROVIDER_MUTEX | WaitType::SNI_WRITE_ASYNC | WaitType::TEMPORAL_BACKGROUND_PROCEED_CLEANUP | WaitType::WAIT_XLOGREAD_SIGNAL | WaitType::WAIT_XTP_COMPILE_WAIT | WaitType::WAIT_XTP_SERIAL_RECOVERY | WaitType::XIO_EDS_MGR_RWLOCK | WaitType::XIO_EDS_RWLOCK | WaitType::XIO_IOSTATS_BLOBLIST_RWLOCK | WaitType::XIO_IOSTATS_FCBLIST_RWLOCK => "Internal use only.\n\nApplies to: SQL Server 2017 (14.x) and later versions.",
        WaitType::HADR_AG_MUTEX => "Occurs when an availability group DDL statement or Windows Server Failover Clustering command is waiting for exclusive read/write access to the configuration of an availability group.\n\nApplies to: SQL Server 2012 (11.x) and later versions.",
        WaitType::HADR_ARCONTROLLER_NOTIFICATIONS_SUBSCRIBER_LIST => "The publisher for an availability replica event (such as a state change or configuration change) is waiting for exclusive read/write access to the list of event subscribers. Internal use only.\n\nApplies to: SQL Server 2012 (11.x) and later versions.",
        WaitType::HADR_AR_CRITICAL_SECTION_ENTRY => "Occurs when an availability group DDL statement or Windows Server Failover Clustering command is waiting for exclusive read/write access to the runtime state of the local replica of the associated availability group.\n\nApplies to: SQL Server 2012 (11.x) and later versions.",
        WaitType::HADR_AR_MANAGER_MUTEX => "Occurs when an availability replica shutdown is waiting for startup to complete or an availability replica startup is waiting for shutdown to complete. Internal use only.\n\nApplies to: SQL Server 2012 (11.x) and later versions.",
        WaitType::HADR_BACKUP_BULK_LOCK => "The availability group primary database received a backup request from a secondary database and is waiting for the background thread to finish processing the request on acquiring or releasing the BulkOp lock.\n\nApplies to: SQL Server 2012 (11.x) and later versions.",
        WaitType::HADR_BACKUP_QUEUE => "The backup background thread of the availability group primary database is waiting for a new work request from the secondary database. (Typically, this occurs when the primary database is holding the BulkOp log and is waiting for the secondary database to indicate that the primary database can release the lock).\n\nApplies to: SQL Server 2012 (11.x) and later versions.",
        WaitType::HADR_CLUSAPI_CALL => "A SQL Server thread is waiting to switch from non-preemptive mode (scheduled by SQL Server) to preemptive mode (scheduled by the operating system) in order to invoke Windows Server Failover Clustering APIs.\n\nApplies to: SQL Server 2012 (11.x) and later versions.",
        WaitType::HADR_COMPRESSED_CACHE_SYNC => "Waiting for access to the cache of compressed log blocks that is used to avoid redundant compression of the log blocks sent to multiple secondary databases.\n\nApplies to: SQL Server 2012 (11.x) and later versions.",
        WaitType::HADR_DATABASE_FLOW_CONTROL => "Waiting for messages to be sent to the partner when the maximum number of queued messages has been reached. Indicates that the log scans are running faster than the network sends. This is an issue only if network sends are slower than expected.\n\nApplies to: SQL Server 2012 (11.x) and later versions.",
        WaitType::HADR_DATABASE_VERSIONING_STATE => "Occurs on the versioning state change of an availability group secondary database. This wait is for internal data structures and usually is very short with no direct effect on data access.\n\nApplies to: SQL Server 2012 (11.x) and later versions.",
        WaitType::HADR_DATABASE_WAIT_FOR_RESTART => "Waiting for the database to restart under availability group control. Under normal conditions, this isn't a customer issue because waits are expected here.\n\nApplies to: SQL Server 2012 (11.x) and later versions.",
        WaitType::HADR_DATABASE_WAIT_FOR_TRANSITION_TO_VERSIONING => "A query on objects in a readable secondary database of an availability group is blocked on row versioning while waiting for commit or rollback of all transactions that were in-flight when the secondary replica was enabled for read workloads. This wait type guarantees that row versions are available before execution of a query under snapshot isolation.\n\nApplies to: SQL Server 2012 (11.x) and later versions.",
        WaitType::HADR_DBR_SUBSCRIBER => "The publisher for an availability replica event (such as a state change or configuration change) is waiting for exclusive read/write access to the runtime state of an event subscriber that corresponds to an availability database. Internal use only.\n\nApplies to: SQL Server 2012 (11.x) and later versions.",
        WaitType::HADR_DBR_SUBSCRIBER_FILTER_LIST => "The publisher for an availability replica event (such as a state change or configuration change) is waiting for exclusive read/write access to the list of event subscribers that correspond to availability databases. Internal use only.\n\nApplies to: SQL Server 2012 (11.x) and later versions.",
        WaitType::HADR_DBSTATECHANGE_SYNC => "Concurrency control wait for updating the internal state of the database replica.\n\nApplies to: SQL Server 2012 (11.x) and later versions.",
        WaitType::HADR_DB_COMMAND | WaitType::HADR_DB_OP_COMPLETION_SYNC => "Waiting for responses to conversational messages (which require an explicit response from the other side, using the availability group conversational message infrastructure). Many different message types use this wait type.\n\nApplies to: SQL Server 2012 (11.x) and later versions.",
        WaitType::HADR_DB_OP_START_SYNC => "An availability group DDL statement or a Windows Server Failover Clustering command is waiting for serialized access to an availability database and its runtime state.\n\nApplies to: SQL Server 2012 (11.x) and later versions.",
        WaitType::HADR_FILESTREAM_BLOCK_FLUSH => "The FILESTREAM Always On transport manager is waiting until processing of a log block is finished.\n\nApplies to: SQL Server 2012 (11.x) and later versions.",
        WaitType::HADR_FILESTREAM_FILE_CLOSE => "The FILESTREAM Always On transport manager is waiting until the next FILESTREAM file gets processed and its handle gets closed.\n\nApplies to: SQL Server 2012 (11.x) and later versions.",
        WaitType::HADR_FILESTREAM_FILE_REQUEST => "An Always On secondary replica is waiting for the primary replica to send all requested FILESTREAM files during UNDO.\n\nApplies to: SQL Server 2012 (11.x) and later versions.",
        WaitType::HADR_FILESTREAM_IOMGR => "The FILESTREAM Always On transport manager is waiting for R/W lock that protects the FILESTREAM Always On I/O manager during startup or shutdown.\n\nApplies to: SQL Server 2012 (11.x) and later versions.",
        WaitType::HADR_FILESTREAM_IOMGR_IOCOMPLETION => "The FILESTREAM Always On I/O manager is waiting for I/O completion.\n\nApplies to: SQL Server 2012 (11.x) and later versions.",
        WaitType::HADR_FILESTREAM_MANAGER => "The FILESTREAM Always On transport manager is waiting for the R/W lock that protects the FILESTREAM Always On transport manager during startup or shutdown.\n\nApplies to: SQL Server 2012 (11.x) and later versions.",
        WaitType::HADR_GROUP_COMMIT => "Transaction commit processing is waiting to allow a group commit so that multiple commit log records can be put into a single log block. This wait is an expected condition that optimizes the log I/O, capture, and send operations.\n\nApplies to: SQL Server 2012 (11.x) and later versions.",
        WaitType::HADR_LOGCAPTURE_SYNC => "Concurrency control around the log capture or apply object when creating or destroying scans. This is an expected wait when partners change state or connection status.\n\nApplies to: SQL Server 2012 (11.x) and later versions.",
        WaitType::HADR_LOGCAPTURE_WAIT => "Waiting for log records to become available. Can occur either when waiting for new log records to be generated by connections or for I/O completion when reading log not in the cache. This is an expected wait if the log scan is caught up to the end of log or is reading from disk.\n\nApplies to: SQL Server 2012 (11.x) and later versions.",
        WaitType::HADR_LOGPROGRESS_SYNC => "Concurrency control wait when updating the log progress status of database replicas.\n\nApplies to: SQL Server 2012 (11.x) and later versions.",
        WaitType::HADR_NOTIFICATION_DEQUEUE => "A background task that processes Windows Server Failover Clustering notifications is waiting for the next notification. Internal use only.\n\nApplies to: SQL Server 2012 (11.x) and later versions.",
        WaitType::HADR_NOTIFICATION_WORKER_EXCLUSIVE_ACCESS => "The availability replica manager is waiting for serialized access to the runtime state of a background task that processes Windows Server Failover Clustering notifications. Internal use only.\n\nApplies to: SQL Server 2012 (11.x) and later versions.",
        WaitType::HADR_NOTIFICATION_WORKER_STARTUP_SYNC => "A background task is waiting for the completion of the startup of a background task that processes Windows Server Failover Clustering notifications. Internal use only.\n\nApplies to: SQL Server 2012 (11.x) and later versions.",
        WaitType::HADR_NOTIFICATION_WORKER_TERMINATION_SYNC => "A background task is waiting for the termination of a background task that processes Windows Server Failover Clustering notifications. Internal use only.\n\nApplies to: SQL Server 2012 (11.x) and later versions.",
        WaitType::HADR_PARTNER_SYNC => "Concurrency control wait on the partner list.\n\nApplies to: SQL Server 2012 (11.x) and later versions.",
        WaitType::HADR_READ_ALL_NETWORKS => "Waiting to get read or write access to the list of WSFC networks. Internal use only. Note: The engine keeps a list of WSFC networks that is used in DMVs (such as sys.dm_hadr_cluster_networks) or to validate Always On Transact-SQL statements that reference WSFC network information. This list is updated upon engine startup, WSFC related notifications, and internal Always On restart (for example, losing and regaining of WSFC quorum). Tasks are usually blocked when an update in that list is in progress.\n\nApplies to: SQL Server 2012 (11.x) and later versions.",
        WaitType::HADR_RECOVERY_WAIT_FOR_CONNECTION => "Waiting for the secondary database to connect to the primary database before running recovery. This is an expected wait, which can lengthen if the connection to the primary is slow to establish.\n\nApplies to: SQL Server 2012 (11.x) and later versions.",
        WaitType::HADR_RECOVERY_WAIT_FOR_UNDO => "Database recovery is waiting for the secondary database to finish the reverting and initializing phase to bring it back to the common log point with the primary database. This is an expected wait after failovers. Undo progress can be tracked through the Windows System Monitor (perfmon.exe) and DMVs.\n\nApplies to: SQL Server 2012 (11.x) and later versions.",
        WaitType::HADR_REPLICAINFO_SYNC => "Waiting for concurrency control to update the current replica state.\n\nApplies to: SQL Server 2012 (11.x) and later versions.",
        WaitType::HADR_SYNCHRONIZING_THROTTLE => "Waiting for transaction commit processing to allow a synchronizing secondary database to catch up to the primary end of the log, in order to transition to the synchronized state. This is an expected wait when a secondary database is catching up.\n\nApplies to: SQL Server 2012 (11.x) and later versions.",
        WaitType::HADR_SYNC_COMMIT => "Waiting for a transaction commit processing on the synchronized secondary databases to harden the log. This wait is also reflected by the Transaction Delay performance counter. This wait type is expected for synchronous-commit availability groups, and indicates the time to send, write, and acknowledge log commit to the secondary databases.\nFor detailed information and troubleshooting HADR_SYNC_COMMIT, refer to this blog post\n\nApplies to: SQL Server 2012 (11.x) and later versions.",
        _ => description_of_14(w),
    }
}

fn description_of_14(w: &WaitType) -> (r: &'static str)
    requires
        !in_description_part_0(*w),
        !in_description_part_1(*w),
        !in_description_part_2(*w),
        !in_description_part_3(*w),
        !in_description_part_4(*w),
        !in_description_part_5(*w),
        !in_description_part_6(*w),
        !in_description_part_7(*w),
        !in_description_part_8(*w),
        !in_description_part_9(*w),
        !in_description_part_10(*w),
        !in_description_part_11(*w),
        !in_description_part_12(*w),
        !in_description_part_13(*w),
    ensures
        r == wait_type_description(*w),
{
    proof {
        reveal(description_part_14);
    }
    match w {
        WaitType::HADR_TDS_LISTENER_SYNC => "Either the internal Always On system, or the WSFC cluster, requests that listeners are started or stopped. The processing of this request is always asynchronous, and there's a mechanism to remove redundant requests. There are also moments that this process is suspended because of configuration changes. All waits related with this listener synchronization mechanism use this wait type. Internal use only.\n\nApplies to: SQL Server 2012 (11.x) and later versions.",
        WaitType::HADR_TDS_LISTENER_SYNC_PROCESSING => "Used at the end of an Always On Transact-SQL statement that requires starting and/or stopping an availability group listener. Since the start/stop operation is done asynchronously, the user thread blocks using this wait type until the situation of the listener is known.\n\nApplies to: SQL Server 2012 (11.x) and later versions.",
        WaitType::HADR_THROTTLE_LOG_RATE_MISMATCHED_SLO => "Occurs when a geo-replication secondary is configured with lower compute size (lower SLO) than the primary. A primary database is throttled due to delayed log consumption by the secondary. This is caused by the secondary database having insufficient compute capacity to keep up with the primary database's rate of change.\n\nApplies to: Azure SQL Database",
        WaitType::HADR_TIMER_TASK => "Waiting to get the lock on the timer task object and is also used for the actual waits between times that work is being performed. For example, for a task that runs every 10 seconds, after one execution, availability groups waits about 10 seconds to reschedule the task, and the wait is included here.\n\nApplies to: SQL Server 2012 (11.x) and later versions.",
        WaitType::HADR_TRANSPORT_DBRLIST => "Waiting for access to the transport layer's database replica list. Used for the spinlock that grants access to it.\n\nApplies to: SQL Server 2012 (11.x) and later versions.",
        WaitType::HADR_TRANSPORT_FLOW_CONTROL => "Waiting when the number of outstanding unacknowledged Always On messages is over the out flow control threshold. This is on an availability replica-to-replica basis (not on a database-to-database basis).\n\nApplies to: SQL Server 2012 (11.x) and later versions.",
        WaitType::HADR_TRANSPORT_SESSION => "Availability groups are waiting while changing or accessing the underlying transport state.\n\nApplies to: SQL Server 2012 (11.x) and later versions.",
        WaitType::HADR_WORK_POOL => "Concurrency control wait on the availability group background work task object.\n\nApplies to: SQL Server 2012 (11.x) and later versions.",
        WaitType::HADR_WORK_QUEUE => "Availability group background worker thread waiting for new work to be assigned. This is an expected wait when there are ready workers waiting for new work, which is the normal state.\n\nApplies to: SQL Server 2012 (11.x) and later versions.",
        WaitType::HADR_XRF_STACK_ACCESS => "Accessing (look up, add, and delete) the extended recovery fork stack for an availability database.\n\nApplies to: SQL Server 2012 (11.x) and later versions.",
        WaitType::HTBUILD => "Occurs with parallel batch-mode plans when synchronizing the building of the hash table on the input side of a hash join/aggregation. If waiting is excessive and can't be reduced by tuning the query (such as adding indexes), consider adjusting the cost threshold for parallelism, or lowering the degree of parallelism.\n\nApplies to: SQL Server 2012 (11.x) and later versions, but not Azure SQL Database, Azure SQL Managed Instance with the always-up-to-date update policy, and Azure Synapse Analytics.",
        WaitType::HTBUILD_AGG => "Occurs with parallel batch-mode plans when synchronizing the building of the hash table on the input side of a hash aggregation. If waiting is excessive and can't be reduced by tuning the query (such as adding indexes), consider adjusting the cost threshold for parallelism, or lowering the degree of parallelism.\n\nApplies to: Azure SQL Database, Azure SQL Managed Instance with the SQL Server 2025 or Always-up-to-date update policy, and Azure Synapse Analytics.",
        WaitType::HTBUILD_JOIN => "Occurs with parallel batch-mode plans when synchronizing the building of the hash table on the input side of a hash join. If waiting is excessive and can't be reduced by tuning the query (such as adding indexes), consider adjusting the cost threshold for parallelism, or lowering the degree of parallelism.\n\nApplies to: Azure SQL Database, Azure SQL Managed Instance with the SQL Server 2025 or Always-up-to-date update policy, and Azure Synapse Analytics.",
        WaitType::HTDELETE => "Occurs with parallel batch-mode plans when synchronizing at the end of a hash join/aggregation. If waiting is excessive and can't be reduced by tuning the query (such as adding indexes), consider adjusting the cost threshold for parallelism, or lowering the degree of parallelism.\n\nApplies to: SQL Server 2014 (12.x) and later versions, but not Azure SQL Database, Azure SQL Managed Instance with the SQL Server 2025 or Always-up-to-date update policy, and Azure Synapse Analytics.",
        WaitType::HTDELETE_AGG => "Occurs with parallel batch-mode plans when synchronizing at the end of a hash aggregation. If waiting is excessive and can't be reduced by tuning the query (such as adding indexes), consider adjusting the cost threshold for parallelism, or lowering the degree of parallelism.\n\nApplies to: Azure SQL Database, Azure SQL Managed Instance with the SQL Server 2025 or Always-up-to-date update policy, and Azure Synapse Analytics.",
        WaitType::HTDELETE_JOIN => "Occurs with parallel batch-mode plans when synchronizing at the end of a hash join. If waiting is excessive and can't be reduced by tuning the query (such as adding indexes), consider adjusting the cost threshold for parallelism, or lowering the degree of parallelism.\n\nApplies to: Azure SQL Database, Azure SQL Managed Instance with the SQL Server 2025 or Always-up-to-date update policy, and Azure Synapse Analytics.",
        WaitType::HTMEMO => "Occurs with parallel batch-mode plans when synchronizing before scanning hash table to output matches / non-matches in hash join/aggregation. If waiting is excessive and can't be reduced by tuning the query (such as adding indexes), consider adjusting the cost threshold for parallelism, or lowering the degree of parallelism.\n\nApplies to: SQL Server 2014 (12.x) and later versions.",
        WaitType::HTREINIT => "Occurs with parallel batch-mode plans when synchronizing before resetting a hash join/aggregation for the next partial join. If waiting is excessive and can't be reduced by tuning the query (such as adding indexes), consider adjusting the cost threshold for parallelism, or lowering the degree of parallelism.\n\nApplies to: SQL Server 2014 (12.x) and later versions.",
        WaitType::HTREPARTITION => "Occurs with parallel batch-mode plans when synchronizing the repartitioning of the hash table on the input side of a hash join/aggregation. If waiting is excessive and can't be reduced by tuning the query (such as adding indexes), consider adjusting the cost threshold for parallelism, or lowering the degree of parallelism.\n\nApplies to: SQL Server 2012 (11.x) and later versions.",
        WaitType::HTTP_ENUMERATION => "Occurs at startup to enumerate the HTTP endpoints to start HTTP.",
        WaitType::HTTP_START => "Occurs when a connection is waiting for HTTP to complete initialization.",
        WaitType::IMPPROV_IOWAIT => "Occurs when SQL Server waits for a bulkload I/O to finish.",
        WaitType::IO_AUDIT_MUTEX => "Occurs during synchronization of trace event buffers.",
        WaitType::IO_COMPLETION => "Occurs while waiting for I/O operations to complete. This wait type generally represents non-data page I/Os. Data page I/O completion waits appear as PAGEIOLATCH_* waits.",
        WaitType::IO_RETRY => "Occurs when an I/O operation such as a read or a write to disk fails because of insufficient resources, and is then retried.",
        WaitType::KSOURCE_WAKEUP => "Used by the service control task while waiting for requests from the Service Control Manager. Long waits are expected and don't indicate a problem.",
        WaitType::LATCH_DT => "Occurs when waiting for a DT (destroy) latch. This doesn't include buffer latches or transaction mark latches. A listing of LATCH_* waits is available in sys.dm_os_latch_stats. sys.dm_os_latch_stats groups LATCH_NL, LATCH_SH, LATCH_UP, LATCH_EX, and LATCH_DT waits together.",
        WaitType::LATCH_EX => "Occurs when waiting for an EX (exclusive) latch. This doesn't include buffer latches or transaction mark latches. A listing of LATCH_* waits is available in sys.dm_os_latch_stats. sys.dm_os_latch_stats groups LATCH_NL, LATCH_SH, LATCH_UP, LATCH_EX, and LATCH_DT waits together.",
        WaitType::LATCH_KP => "Occurs when waiting for a KP (keep) latch. This doesn't include buffer latches or transaction mark latches. A listing of LATCH_* waits is available in sys.dm_os_latch_stats. sys.dm_os_latch_stats groups LATCH_NL, LATCH_SH, LATCH_UP, LATCH_EX, and LATCH_DT waits together.",
        WaitType::LATCH_SH => "Occurs when waiting for an SH (share) latch. This doesn't include buffer latches or transaction mark latches. A listing of LATCH_* waits is available in sys.dm_os_latch_stats. sys.dm_os_latch_stats groups LATCH_NL, LATCH_SH, LATCH_UP, LATCH_EX, and LATCH_DT waits together.",
        WaitType::LATCH_UP => "Occurs when waiting for an UP (update) latch. This doesn't include buffer latches or transaction mark latches. A listing of LATCH_* waits is available in sys.dm_os_latch_stats. sys.dm_os_latch_stats groups LATCH_NL, LATCH_SH, LATCH_UP, LATCH_EX, and LATCH_DT waits together.",
        WaitType::LAZYWRITER_SLEEP => "Occurs when lazy writer tasks are suspended. This is a measure of the time spent by background tasks that are waiting. Don't consider this state when you're looking for user stalls.",
        WaitType::LCK_M_BU => "Occurs when a task is waiting to acquire a Bulk Update (BU) lock. For more information, see Bulk Update Locks.",
        WaitType::LCK_M_BU_ABORT_BLOCKERS => "Occurs when a task is waiting to acquire a Bulk Update (BU) lock with Abort Blockers. (Related to the low priority wait option of ALTER TABLE and ALTER INDEX.) For more information, see Bulk Update Locks.\n\nApplies to: SQL Server 2014 (12.x) and later versions.",
        WaitType::LCK_M_BU_LOW_PRIORITY => "Occurs when a task is waiting to acquire a Bulk Update (BU) lock with Low Priority. (Related to the low priority wait option of ALTER TABLE and ALTER INDEX.) For more information, see Bulk Update Locks.\n\nApplies to: SQL Server 2014 (12.x) and later versions.",
        WaitType::LCK_M_IS => "Occurs when a task is waiting to acquire an Intent Shared (IS) lock. For more information, see Intent Locks.",
        WaitType::LCK_M_IS_ABORT_BLOCKERS => "Occurs when a task is waiting to acquire an Intent Shared (IS) lock with Abort Blockers. (Related to the low priority wait option of ALTER TABLE and ALTER INDEX.) For more information, see Intent Locks.\n\nApplies to: SQL Server 2014 (12.x) and later versions.",
        WaitType::LCK_M_IS_LOW_PRIORITY => "Occurs when a task is waiting to acquire an Intent Shared (IS) lock with Low Priority. (Related to the low priority wait option of ALTER TABLE and ALTER INDEX.) For more information, see Intent Locks.\n\nApplies to: SQL Server 2014 (12.x) and later versions.",
        WaitType::LCK_M_IU => "Occurs when a task is waiting to acquire an Intent Update (IU) lock. For more information, see Intent Locks.",
        WaitType::LCK_M_IU_ABORT_BLOCKERS => "Occurs when a task is waiting to acquire an Intent Update (IU) lock with Abort Blockers. (Related to the low priority wait option of ALTER TABLE and ALTER INDEX.) For more information, see Intent Locks.\n\nApplies to: SQL Server 2014 (12.x) and later versions.",
        WaitType::LCK_M_IU_LOW_PRIORITY => "Occurs when a task is waiting to acquire an Intent Update (IU) lock with Low Priority. (Related to the low priority wait option of ALTER TABLE and ALTER INDEX.) For more information, see Intent Locks.\n\nApplies to: SQL Server 2014 (12.x) and later versions.",
        WaitType::LCK_M_IX => "Occurs when a task is waiting to acquire an Intent Exclusive (IX) lock. For more information, see Intent Locks.",
        WaitType::LCK_M_IX_ABORT_BLOCKERS => "Occurs when a task is waiting to acquire an Intent Exclusive (IX) lock with Abort Blockers. (Related to the low priority wait option of ALTER TABLE and ALTER INDEX.) For more information, see Intent Locks.\n\nApplies to: SQL Server 2014 (12.x) and later versions.",
        WaitType::LCK_M_IX_LOW_PRIORITY => "Occurs when a task is waiting to acquire an Intent Exclusive (IX) lock with Low Priority. (Related to the low priority wait option of ALTER TABLE and ALTER INDEX.) For more information, see Intent Locks.\n\nApplies to: SQL Server 2014 (12.x) and later versions.",
        WaitType::LCK_M_RIn_NL => "Occurs when a task is waiting to acquire a NULL lock on the current key value, and an Insert Range lock between the current and previous key. A NULL lock on the key is an instant release lock.",
        WaitType::LCK_M_RIn_NL_ABORT_BLOCKERS => "Occurs when a task is waiting to acquire a NULL lock with Abort Blockers on the current key value, and an Insert Range lock with Abort Blockers between the current and previous key. A NULL lock on the key is an instant release lock. (Related to the low priority wait option of ALTER TABLE and ALTER INDEX.)\n\nApplies to: SQL Server 2014 (12.x) and later versions.",
        WaitType::LCK_M_RIn_NL_LOW_PRIORITY => "Occurs when a task is waiting to acquire a NULL lock with Low Priority on the current key value, and an Insert Range lock with Low Priority between the current and previous key. A NULL lock on the key is an instant release lock. (Related to the low priority wait option of ALTER TABLE and ALTER INDEX.)\n\nApplies to: SQL Server 2014 (12.x) and later versions.",
        WaitType::LCK_M_RIn_S => "Occurs when a task is waiting to acquire a shared lock on the current key value, and an Insert Range lock between the current and previous key.",
        WaitType::LCK_M_RIn_S_ABORT_BLOCKERS => "Occurs when a task is waiting to acquire a shared lock with Abort Blockers on the current key value, and an Insert Range lock with Abort Blockers between the current and previous key. (Related to the low priority wait option of ALTER TABLE and ALTER INDEX.)\n\nApplies to: SQL Server 2014 (12.x) and later versions.",
        WaitType::LCK_M_RIn_S_LOW_PRIORITY => "Occurs when a task is waiting to acquire a shared lock with Low Priority on the current key value, and an Insert Range lock with Low Priority between the current and previous key. (Related to the low priority wait option of ALTER TABLE and ALTER INDEX.)\n\nApplies to: SQL Server 2014 (12.x) and later versions.",
        _ => description_of_15(w),
    }
}

fn description_of_15(w: &WaitType) -> (r: &'static str)
    requires
        !in_description_part_0(*w),
        !in_description_part_1(*w),
        !in_description_part_2(*w),
        !in_description_part_3(*w),
        !in_description_part_4(*w),
        !in_description_part_5(*w),
        !in_description_part_6(*w),
        !in_description_part_7(*w),
        !in_description_part_8(*w),
        !in_description_part_9(*w),
        !in_description_part_10(*w),
        !in_description_part_11(*w),
        !in_description_part_12(*w),
        !in_description_part_13(*w),
        !in_description_part_14(*w),
    ensures
        r == wait_type_description(*w),
{
    proof {
        reveal(description_part_15);
    }
    match w {
        WaitType::LCK_M_RIn_U => "Task is waiting to acquire an Update lock on the current key value, and an Insert Range lock between the current and previous key.",
        WaitType::LCK_M_RIn_U_ABORT_BLOCKERS => "Task is waiting to acquire an Update lock with Abort Blockers on the current key value, and an Insert Range lock with Abort Blockers between the current and previous key. (Related to the low priority wait option of ALTER TABLE and ALTER INDEX.)\n\nApplies to: SQL Server 2014 (12.x) and later versions.",
        WaitType::LCK_M_RIn_U_LOW_PRIORITY => "Task is waiting to acquire an Update lock with Low Priority on the current key value, and an Insert Range lock with Low Priority between the current and previous key. (Related to the low priority wait option of ALTER TABLE and ALTER INDEX.)\n\nApplies to: SQL Server 2014 (12.x) and later versions.",
        WaitType::LCK_M_RIn_X => "Occurs when a task is waiting to acquire an Exclusive lock on the current key value, and an Insert Range lock between the current and previous key.",
        WaitType::LCK_M_RIn_X_ABORT_BLOCKERS => "Occurs when a task is waiting to acquire an Exclusive lock with Abort Blockers on the current key value, and an Insert Range lock with Abort Blockers between the current and previous key. (Related to the low priority wait option of ALTER TABLE and ALTER INDEX.)\n\nApplies to: SQL Server 2014 (12.x) and later versions.",
        WaitType::LCK_M_RIn_X_LOW_PRIORITY => "Occurs when a task is waiting to acquire an Exclusive lock with Low Priority on the current key value, and an Insert Range lock with Low Priority between the current and previous key. (Related to the low priority wait option of ALTER TABLE and ALTER INDEX.)\n\nApplies to: SQL Server 2014 (12.x) and later versions.",
        WaitType::LCK_M_RS_S => "Occurs when a task is waiting to acquire a Shared lock on the current key value, and a Shared Range lock between the current and previous key.",
        WaitType::LCK_M_RS_S_ABORT_BLOCKERS => "Occurs when a task is waiting to acquire a Shared lock with Abort Blockers on the current key value, and a Shared Range lock with Abort Blockers between the current and previous key. (Related to the low priority wait option of ALTER TABLE and ALTER INDEX.)\n\nApplies to: SQL Server 2014 (12.x) and later versions.",
        WaitType::LCK_M_RS_S_LOW_PRIORITY => "Occurs when a task is waiting to acquire a Shared lock with Low Priority on the current key value, and a Shared Range lock with Low Priority between the current and previous key. (Related to the low priority wait option of ALTER TABLE and ALTER INDEX.)\n\nApplies to: SQL Server 2014 (12.x) and later versions.",
        WaitType::LCK_M_RS_U => "Occurs when a task is waiting to acquire an Update lock on the current key value, and an Update Range lock between the current and previous key.",
        WaitType::LCK_M_RS_U_ABORT_BLOCKERS => "Occurs when a task is waiting to acquire an Update lock with Abort Blockers on the current key value, and an Update Range lock with Abort Blockers between the current and previous key. (Related to the low priority wait option of ALTER TABLE and ALTER INDEX.)\n\nApplies to: SQL Server 2014 (12.x) and later versions.",
        WaitType::LCK_M_RS_U_LOW_PRIORITY => "Occurs when a task is waiting to acquire an Update lock with Low Priority on the current key value, and an Update Range lock with Low Priority between the current and previous key. (Related to the low priority wait option of ALTER TABLE and ALTER INDEX.)\n\nApplies to: SQL Server 2014 (12.x) and later versions.",
        WaitType::LCK_M_RX_S => "Occurs when a task is waiting to acquire a Shared lock on the current key value, and an Exclusive Range lock between the current and previous key.",
        WaitType::LCK_M_RX_S_ABORT_BLOCKERS => "Occurs when a task is waiting to acquire a Shared lock with Abort Blockers on the current key value, and an Exclusive Range with Abort Blockers lock between the current and previous key. (Related to the low priority wait option of ALTER TABLE and ALTER INDEX.)\n\nApplies to: SQL Server 2014 (12.x) and later versions.",
        WaitType::LCK_M_RX_S_LOW_PRIORITY => "Occurs when a task is waiting to acquire a Shared lock with Low Priority on the current key value, and an Exclusive Range with Low Priority lock between the current and previous key. (Related to the low priority wait option of ALTER TABLE and ALTER INDEX.)\n\nApplies to: SQL Server 2014 (12.x) and later versions.",
        WaitType::LCK_M_RX_U => "Occurs when a task is waiting to acquire an Update lock on the current key value, and an Exclusive range lock between the current and previous key.",
        WaitType::LCK_M_RX_U_ABORT_BLOCKERS => "Occurs when a task is waiting to acquire an Update lock with Abort Blockers on the current key value, and an Exclusive range lock with Abort Blockers between the current and previous key. (Related to the low priority wait option of ALTER TABLE and ALTER INDEX.)\n\nApplies to: SQL Server 2014 (12.x) and later versions.",
        WaitType::LCK_M_RX_U_LOW_PRIORITY => "Occurs when a task is waiting to acquire an Update lock with Low Priority on the current key value, and an Exclusive range lock with Low Priority between the current and previous key. (Related to the low priority wait option of ALTER TABLE and ALTER INDEX.)\n\nApplies to: SQL Server 2014 (12.x) and later versions.",
        WaitType::LCK_M_RX_X => "Occurs when a task is waiting to acquire an Exclusive lock on the current key value, and an Exclusive Range lock between the current and previous key.",
        WaitType::LCK_M_RX_X_ABORT_BLOCKERS => "Occurs when a task is waiting to acquire an Exclusive lock with Abort Blockers on the current key value, and an Exclusive Range lock with Abort Blockers between the current and previous key. (Related to the low priority wait option of ALTER TABLE and ALTER INDEX.)\n\nApplies to: SQL Server 2014 (12.x) and later versions.",
        WaitType::LCK_M_RX_X_LOW_PRIORITY => "Occurs when a task is waiting to acquire an Exclusive lock with Low Priority on the current key value, and an Exclusive Range lock with Low Priority between the current and previous key. (Related to the low priority wait option of ALTER TABLE and ALTER INDEX.)\n\nApplies to: SQL Server 2014 (12.x) and later versions.",
        WaitType::LCK_M_S => "Occurs when a task is waiting to acquire a Shared lock. For more information, see Shared Locks.",
        WaitType::LCK_M_SCH_M => "Occurs when a task is waiting to acquire a Schema Modify lock. For more information, see Schema Locks.",
        WaitType::LCK_M_SCH_M_ABORT_BLOCKERS => "Occurs when a task is waiting to acquire a Schema Modify lock with Abort Blockers. (Related to the low priority wait option of ALTER TABLE and ALTER INDEX.) For more information, see Schema Locks.\n\nApplies to: SQL Server 2014 (12.x) and later versions.",
        WaitType::LCK_M_SCH_M_LOW_PRIORITY => "Occurs when a task is waiting to acquire a Schema Modify lock with Low Priority. (Related to the low priority wait option of ALTER TABLE and ALTER INDEX.) For more information, see Schema Locks.\n\nApplies to: SQL Server 2014 (12.x) and later versions.",
        WaitType::LCK_M_SCH_S => "Occurs when a task is waiting to acquire a Schema Share lock. For more information, see Schema Locks.",
        WaitType::LCK_M_SCH_S_ABORT_BLOCKERS => "Occurs when a task is waiting to acquire a Schema Share lock with Abort Blockers. (Related to the low priority wait option of ALTER TABLE and ALTER INDEX.) For more information, see Schema Locks.\n\nApplies to: SQL Server 2014 (12.x) and later versions.",
        WaitType::LCK_M_SCH_S_LOW_PRIORITY => "Occurs when a task is waiting to acquire a Schema Share lock with Low Priority. (Related to the low priority wait option of ALTER TABLE and ALTER INDEX.) For more information, see Schema Locks.\n\nApplies to: SQL Server 2014 (12.x) and later versions.",
        WaitType::LCK_M_SIU => "Occurs when a task is waiting to acquire a Shared With Intent Update lock. For more information, see Intent Locks.",
        WaitType::LCK_M_SIU_ABORT_BLOCKERS => "Occurs when a task is waiting to acquire a Shared With Intent Update lock with Abort Blockers. (Related to the low priority wait option of ALTER TABLE and ALTER INDEX.) For more information, see Intent Locks.\n\nApplies to: SQL Server 2014 (12.x) and later versions.",
        WaitType::LCK_M_SIU_LOW_PRIORITY => "Occurs when a task is waiting to acquire a Shared With Intent Update lock with Low Priority. (Related to the low priority wait option of ALTER TABLE and ALTER INDEX.) For more information, see Intent Locks.\n\nApplies to: SQL Server 2014 (12.x) and later versions.",
        WaitType::LCK_M_SIX => "Occurs when a task is waiting to acquire a Shared With Intent Exclusive lock. For more information, see Intent Locks.",
        WaitType::LCK_M_SIX_ABORT_BLOCKERS => "Occurs when a task is waiting to acquire a Shared With Intent Exclusive lock with Abort Blockers. (Related to the low priority wait option of ALTER TABLE and ALTER INDEX.) For more information, see Intent Locks.\n\nApplies to: SQL Server 2014 (12.x) and later versions.",
        WaitType::LCK_M_SIX_LOW_PRIORITY => "Occurs when a task is waiting to acquire a Shared With Intent Exclusive lock with Low Priority. (Related to the low priority wait option of ALTER TABLE and ALTER INDEX.) For more information, see Intent Locks.\n\nApplies to: SQL Server 2014 (12.x) and later versions.",
        WaitType::LCK_M_S_ABORT_BLOCKERS => "Occurs when a task is waiting to acquire a Shared lock with Abort Blockers. (Related to the low priority wait option of ALTER TABLE and ALTER INDEX.) For more information, see Shared Locks.\n\nApplies to: SQL Server 2014 (12.x) and later versions.",
        WaitType::LCK_M_S_LOW_PRIORITY => "Occurs when a task is waiting to acquire a Shared lock with Low Priority. (Related to the low priority wait option of ALTER TABLE and ALTER INDEX.) For more information, see Shared Locks.\n\nApplies to: SQL Server 2014 (12.x) and later versions.",
        WaitType::LCK_M_S_XACT => "Occurs when optimized locking is enabled and a task is waiting for a shared lock on an XACT (transaction) wait_resource type, where the read or modify intent can't be inferred.",
        WaitType::LCK_M_S_XACT_MODIFY => "Occurs when optimized locking is enabled and a task is waiting for a shared lock on an XACT (transaction) wait_resource type, with an intent to modify.",
        WaitType::LCK_M_S_XACT_READ => "Occurs when optimized locking is enabled and a task is waiting for a shared lock on an XACT (transaction)wait_resource type, with an intent to read.",
        WaitType::LCK_M_U => "Occurs when a task is waiting to acquire an Update lock. For more information, see Update Locks.",
        WaitType::LCK_M_UIX => "Occurs when a task is waiting to acquire an Update With Intent Exclusive lock. For more information, see Intent Locks.",
        WaitType::LCK_M_UIX_ABORT_BLOCKERS => "Occurs when a task is waiting to acquire an Update With Intent Exclusive lock with Abort Blockers. (Related to the low priority wait option of ALTER TABLE and ALTER INDEX.) For more information, see Intent Locks.\n\nApplies to: SQL Server 2014 (12.x) and later versions.",
        WaitType::LCK_M_UIX_LOW_PRIORITY => "Occurs when a task is waiting to acquire an Update With Intent Exclusive lock with Low Priority. (Related to the low priority wait option of ALTER TABLE and ALTER INDEX.) For more information, see Intent Locks.\n\nApplies to: SQL Server 2014 (12.x) and later versions.",
        WaitType::LCK_M_U_ABORT_BLOCKERS => "Occurs when a task is waiting to acquire an Update lock with Abort Blockers. (Related to the low priority wait option of ALTER TABLE and ALTER INDEX.) For more information, see Update Locks.\n\nApplies to: SQL Server 2014 (12.x) and later versions.",
        WaitType::LCK_M_U_LOW_PRIORITY => "Occurs when a task is waiting to acquire an Update lock with Low Priority. (Related to the low priority wait option of ALTER TABLE and ALTER INDEX.) For more information, see Update Locks.\n\nApplies to: SQL Server 2014 (12.x) and later versions.",
        WaitType::LCK_M_X => "Occurs when a task is waiting to acquire an Exclusive lock. For more information, see Exclusive Locks.",
        WaitType::LCK_M_X_ABORT_BLOCKERS => "Occurs when a task is waiting to acquire an Exclusive lock with Abort Blockers. (Related to the low priority wait option of ALTER TABLE and ALTER INDEX.) For more information, see Exclusive Locks.\n\nApplies to: SQL Server 2014 (12.x) and later versions.",
        WaitType::LCK_M_X_LOW_PRIORITY => "Occurs when a task is waiting to acquire an Exclusive lock with Low Priority. (Related to the low priority wait option of ALTER TABLE and ALTER INDEX.) For more information, see Exclusive Locks.\n\nApplies to: SQL Server 2014 (12.x) and later versions.",
        WaitType::LOGBUFFER => "Occurs when a task is waiting for space in the log buffer to store a log record. Consistently high values might indicate that the log devices can't keep up with the amount of log being generated by the server.",
        WaitType::LOGMGR => "Occurs when a task is waiting for any outstanding log I/Os to finish before shutting down the log while closing the database.",
        _ => description_of_16(w),
    }
}

fn description_of_16(w: &WaitType) -> (r: &'static str)
    requires
        !in_description_part_0(*w),
        !in_description_part_1(*w),
        !in_description_part_2(*w),
        !in_description_part_3(*w),
        !in_description_part_4(*w),
        !in_description_part_5(*w),
        !in_description_part_6(*w),
        !in_description_part_7(*w),
        !in_description_part_8(*w),
        !in_description_part_9(*w),
        !in_description_part_10(*w),
        !in_description_part_11(*w),
        !in_description_part_12(*w),
        !in_description_part_13(*w),
        !in_description_part_14(*w),
        !in_description_part_15(*w),
    ensures
        r == wait_type_description(*w),
{
    proof {
        reveal(description_part_16);
    }
    match w {
        WaitType::LOGMGR_QUEUE => "Occurs while the log writer task waits for work requests.",
        WaitType::LOGMGR_RESERVE_APPEND => "Occurs when a task is waiting to see whether log truncation frees up log space to enable the task to write a new log record. Consider increasing the size of the log files for the affected database to reduce this wait.",
        WaitType::LOWFAIL_MEMMGR_QUEUE => "Occurs while waiting for memory to be available for use.",
        WaitType::MEMORY_ALLOCATION_EXT => "Occurs while allocating memory from either the internal SQL Server memory pool or the operation system.\n\nApplies to: SQL Server 2016 (13.x) and later versions.",
        WaitType::METADATA_LAZYCACHE_RWLOCK | WaitType::SQLTRACE_LOCK => "Internal use only.\n\nApplies to: SQL Server 2008 R2 (10.50.x) only.",
        WaitType::MSQL_DQ => "Occurs when a task is waiting for a distributed query operation to finish. This is used to detect potential Multiple Active Result Set (MARS) application deadlocks. The wait ends when the distributed query call finishes.",
        WaitType::MSQL_XACT_MGR_MUTEX => "Occurs when a task is waiting to obtain ownership of the session transaction manager to perform a session level transaction operation.",
        WaitType::MSQL_XACT_MUTEX => "Occurs during synchronization of transaction usage. A request must acquire the mutex before it can use the transaction.",
        WaitType::MSQL_XP => "Occurs when a task is waiting for an extended stored procedure to end. SQL Server uses this wait state to detect potential MARS application deadlocks. The wait stops when the extended stored procedure call ends.",
        WaitType::MSSEARCH => "Occurs during Full-Text Search calls. This wait ends when the full-text operation completes. It doesn't indicate contention, but rather the duration of full-text operations.",
        WaitType::NET_WAITFOR_PACKET => "Occurs when a connection is waiting for a network packet during a network read.",
        WaitType::OLEDB => "Occurs when SQL Server calls the SNAC OLE DB Provider (SQLNCLI) or the Microsoft OLE DB Driver for SQL Server (MSOLEDBSQL). This wait type isn't used for synchronization. Instead, it indicates the duration of calls to the OLE DB provider.",
        WaitType::ONDEMAND_TASK_QUEUE => "Occurs while a background task waits for high priority system task requests. Long wait times indicate that there have been no high priority requests to process, and shouldn't cause concern.",
        WaitType::PAGEIOLATCH_DT => "Occurs when a task is waiting on a latch for a buffer that is in an I/O request. The latch request is in Destroy mode. Long waits might indicate problems with the disk subsystem.",
        WaitType::PAGEIOLATCH_EX => "Occurs when a task is waiting on a latch for a buffer that is in an I/O request. The latch request is in Exclusive mode - a mode used when the buffer is being written to disk. Long waits might indicate problems with the disk subsystem.\n\nFor more information, see Slow I/O - SQL Server and disk I/O performance.",
        WaitType::PAGEIOLATCH_KP => "Occurs when a task is waiting on a latch for a buffer that is in an I/O request. The latch request is in Keep mode. Long waits might indicate problems with the disk subsystem.",
        WaitType::PAGEIOLATCH_SH => "Occurs when a task is waiting on a latch for a buffer that is in an I/O request. The latch request is in Shared mode - a mode used when the buffer is being read from disk. Long waits might indicate problems with the disk subsystem.\n\nFor more information, see Slow I/O - SQL Server and disk I/O performance.",
        WaitType::PAGEIOLATCH_UP => "Occurs when a task is waiting on a latch for a buffer that is in an I/O request. The latch request is in Update mode. Long waits might indicate problems with the disk subsystem.\n\nFor more information, see Slow I/O - SQL Server and disk I/O performance.",
        WaitType::PAGELATCH_DT => "Occurs when a task is waiting on a latch for a buffer that isn't in an I/O request. The latch request is in Destroy mode. Destroy mode must be acquired before deleting contents of a page. For more information, see Latch Modes.",
        WaitType::PAGELATCH_EX => "Occurs when a task is waiting on a latch for a buffer that isn't in an I/O request. The latch request is in Exclusive mode - it blocks other threads from writing to or reading from the page (buffer).\n\nA common scenario that leads to this latch is the \"last-page insert\" buffer latch contention. To understand and resolve this, use Resolve last-page insert PAGELATCH_EX contention and Diagnose and resolve last-page-insert latch contention on SQL Server. Another scenario is Latch contention on small tables with a non-clustered index and random inserts (queue table).",
        WaitType::PAGELATCH_KP => "Occurs when a task is waiting on a latch for a buffer that isn't in an I/O request. The latch request is in Keep mode, which prevents the page from being destroyed by another thread. For more information, see Latch Modes.",
        WaitType::PAGELATCH_SH => "Occurs when a task is waiting on a latch for a buffer that isn't in an I/O request. The latch request is in Shared mode, which allows multiple threads to read, but not modify, a buffer (page). For more information, see Latch Modes.",
        WaitType::PAGELATCH_UP => "Occurs when a task is waiting on a latch for a buffer that isn't in an I/O request. The latch request is in Update mode. Commonly this wait type might be observed when a system page (buffer) like PFS, GAM, SGAM is latched. For more information, see Latch Modes.\n\nFor troubleshooting a common scenario with this latch, refer to Reduce Allocation Contention in SQL Server tempdb database.",
        WaitType::PARALLEL_BACKUP_QUEUE => "Occurs when serializing output produced by RESTORE HEADERONLY, RESTORE FILELISTONLY, or RESTORE LABELONLY.",
        WaitType::PREEMPTIVE_AUDIT_ACCESS_EVENTLOG => "Occurs when the SQL Server Operating System (SQLOS) scheduler switches to preemptive mode to write an audit event to the Windows event log.\n\nApplies to: SQL Server 2008 R2 (10.50.x) only.",
        WaitType::PREEMPTIVE_AUDIT_ACCESS_SECLOG => "Occurs when the SQLOS scheduler switches to preemptive mode to write an audit event to the Windows Security log.\n\nApplies to: SQL Server 2008 R2 (10.50.x) only.",
        WaitType::PREEMPTIVE_CLOSEBACKUPMEDIA => "Occurs when the SQLOS scheduler switches to preemptive mode to close backup media.",
        WaitType::PREEMPTIVE_CLOSEBACKUPTAPE => "Occurs when the SQLOS scheduler switches to preemptive mode to close a tape backup device.",
        WaitType::PREEMPTIVE_CLOSEBACKUPVDIDEVICE => "Occurs when the SQLOS scheduler switches to preemptive mode to close a virtual backup device.",
        WaitType::PREEMPTIVE_CLUSAPI_CLUSTERRESOURCECONTROL => "Occurs when the SQLOS scheduler switches to preemptive mode to perform Windows Server failover cluster operations.",
        WaitType::PREEMPTIVE_COM_COCREATEINSTANCE => "Occurs when the SQLOS scheduler switches to preemptive mode to create a COM object.",
        WaitType::PREEMPTIVE_HADR_LEASE_MECHANISM => "Availability group lease manager scheduling for Microsoft Support diagnostics.\n\nApplies to: SQL Server 2012 (11.x) and later versions.",
        WaitType::PREEMPTIVE_OS_SQMLAUNCH => "Internal use only.\n\nApplies to: SQL Server 2008 R2 (10.50.x) through SQL Server 2016 (13.x).",
        WaitType::PRINT_ROLLBACK_PROGRESS => "Used to wait while user processes are ended in a database that has been transitioned by using the ALTER DATABASE termination clause. For more information, see ALTER DATABASE (Transact-SQL).",
        WaitType::PVS_CLEANUP_LOCK => "Occurs when the persistent version store (PVS) cleanup process is waiting for a lock required to start the cleanup. Might occur when an active transaction is preventing PVS cleanup initiated internally or using the sys.sp_persistent_version_cleanup system stored procedure. For more information, see Monitor and troubleshoot accelerated database recovery.\n\nApplies to: SQL Server 2019 (15.x) and later versions.",
        WaitType::PWAIT_HADR_CHANGE_NOTIFIER_TERMINATION_SYNC => "Occurs when a background task is waiting for the termination of the background task that receives (via polling) Windows Server Failover Clustering notifications.\n\nApplies to: SQL Server 2012 (11.x) and later versions.",
        WaitType::PWAIT_HADR_CLUSTER_INTEGRATION => "An append, replace, and/or remove operation is waiting to grab a write lock on an Always On internal list (such as a list of networks, network addresses, or availability group listeners). Internal use only.\n\nApplies to: SQL Server 2012 (11.x) and later versions.",
        WaitType::PWAIT_HADR_OFFLINE_COMPLETED => "A drop availability group operation is waiting for the target availability group to go offline before destroying Windows Server Failover Clustering objects.\n\nApplies to: SQL Server 2012 (11.x) and later versions.",
        WaitType::PWAIT_HADR_ONLINE_COMPLETED => "A create or failover availability group operation is waiting for the target availability group to come online.\n\nApplies to: SQL Server 2012 (11.x) and later versions.",
        WaitType::PWAIT_HADR_POST_ONLINE_COMPLETED => "A drop availability group operation is waiting for the termination of any background task that was scheduled as part of a previous command. For example, there might be a background task that is transitioning availability databases to the primary role. The DROP AVAILABILITY GROUP DDL must wait for this background task to terminate in order to avoid race conditions.\n\nApplies to: SQL Server 2012 (11.x) and later versions.",
        WaitType::PWAIT_HADR_WORKITEM_COMPLETED => "Internal wait by a thread waiting for an async work task to complete. This is an expected wait and is for CSS use.\n\nApplies to: SQL Server 2012 (11.x) and later versions.",
        WaitType::PWAIT_MD_LOGIN_STATS => "Occurs during internal synchronization in metadata on login stats.\n\nApplies to: SQL Server 2012 (11.x) and later versions.",
        WaitType::PWAIT_MD_RELATION_CACHE => "Occurs during internal synchronization in metadata on table or index.\n\nApplies to: SQL Server 2012 (11.x) and later versions.",
        WaitType::PWAIT_MD_SERVER_CACHE => "Occurs during internal synchronization in metadata on linked servers.\n\nApplies to: SQL Server 2012 (11.x) and later versions.",
        WaitType::PWAIT_MD_UPGRADE_CONFIG => "Occurs during internal synchronization in upgrading server wide configurations.\n\nApplies to: SQL Server 2012 (11.x) and later versions.",
        WaitType::QPJOB_KILL => "Indicates that an asynchronous automatic statistics update was canceled by a call to KILL as the update was starting to run. The terminating thread is suspended, waiting for it to start listening for KILL commands. A good value is less than one second.",
        WaitType::QPJOB_WAITFOR_ABORT => "Indicates that an asynchronous automatic statistics update was canceled by a call to KILL when it was running. The update has now completed but is suspended until the terminating thread message coordination is complete. This is an ordinary but rare state, and should be very short. A good value is less than one second.",
        WaitType::QRY_MEM_GRANT_INFO_MUTEX => "Occurs when Query Execution memory management tries to control access to static grant information list. This state lists information about the current granted and waiting memory requests. This state is a simple access control state. There should never be a long wait on this state. If this mutex isn't released, all new memory-using queries stop responding.",
        WaitType::QUERY_ERRHDL_SERVICE_DONE => "Identified for informational purposes only. Not supported.\n\nApplies to: SQL Server 2008 R2 (10.50.x) only.",
        _ => description_of_17(w),
    }
}

fn description_of_17(w: &WaitType) -> (r: &'static str)
    requires
        !in_description_part_0(*w),
        !in_description_part_1(*w),
        !in_description_part_2(*w),
        !in_description_part_3(*w),
        !in_description_part_4(*w),
        !in_description_part_5(*w),
        !in_description_part_6(*w),
        !in_description_part_7(*w),
        !in_description_part_8(*w),
        !in_description_part_9(*w),
        !in_description_part_10(*w),
        !in_description_part_11(*w),
        !in_description_part_12(*w),
        !in_description_part_13(*w),
        !in_description_part_14(*w),
        !in_description_part_15(*w),
        !in_description_part_16(*w),
    ensures
        r == wait_type_description(*w),
{
    proof {
        reveal(description_part_17);
    }
    match w {
        WaitType::QUERY_WAIT_ERRHDL_SERVICE | WaitType::XE_PACKAGE_LOCK_BACKOFF => "Identified for informational purposes only. Not supported.\n\nApplies to: SQL Server 2008 R2 (10.50.x) only.",
        WaitType::QUERY_EXECUTION_INDEX_SORT_EVENT_OPEN => "Occurs in certain cases when offline create index build is run in parallel, and the different worker threads that are sorting synchronize access to the sort files.",
        WaitType::QUERY_NOTIFICATION_MGR_MUTEX => "Occurs during synchronization of the garbage collection queue in the Query Notification Manager.",
        WaitType::QUERY_NOTIFICATION_SUBSCRIPTION_MUTEX => "Occurs during state synchronization for transactions in Query Notifications.",
        WaitType::QUERY_NOTIFICATION_TABLE_MGR_MUTEX => "Occurs during internal synchronization within the Query Notification Manager.",
        WaitType::QUERY_OPTIMIZER_PRINT_MUTEX => "Occurs during synchronization of query optimizer diagnostic output production. This wait type only occurs if diagnostic settings have been enabled under direction of Microsoft Product Support.",
        WaitType::RBIO_RG_DESTAGE => "Occurs when a Hyperscale database compute node is being throttled due to delayed log consumption by the long term log storage.\n\nApplies to: Azure SQL Database Hyperscale.",
        WaitType::RBIO_RG_LOCALDESTAGE => "Occurs when a Hyperscale database compute node is being throttled due to delayed log consumption by the log service.\n\nApplies to: Azure SQL Database Hyperscale.",
        WaitType::RBIO_RG_REPLICA => "Occurs when a Hyperscale database compute node is being throttled due to delayed log consumption by the readable secondary replica nodes.\n\nApplies to: Azure SQL Database Hyperscale.",
        WaitType::RBIO_RG_STORAGE => "Occurs when a Hyperscale database compute node is being throttled due to delayed log consumption at the page servers.\n\nApplies to: Azure SQL Database Hyperscale.",
        WaitType::RECOVER_CHANGEDB => "Occurs during synchronization of database status in warm standby database.",
        WaitType::REPLICA_WRITES => "Occurs while a task waits for completion of page writes to database snapshots or DBCC replicas.",
        WaitType::REPL_CACHE_ACCESS => "Occurs during synchronization on a replication article cache. During these waits, the replication log reader stalls, and data definition language (DDL) statements on a published table are blocked.",
        WaitType::REPL_SCHEMA_ACCESS => "Occurs during synchronization of replication schema version information. This state exists when DDL statements are executed on the replicated object, and when the log reader builds or consumes versioned schema based on DDL occurrence. Contention can be seen on this wait type if you have many published databases on a single publisher with transactional replication and the published databases are very active.",
        WaitType::REQUEST_DISPENSER_PAUSE => "Occurs when a task is waiting for all outstanding I/O to complete, so that I/O to a file can be frozen for snapshot backup.",
        WaitType::REQUEST_FOR_DEADLOCK_SEARCH => "Occurs while the deadlock monitor waits to start the next deadlock search. This wait is expected between deadlock detections, and lengthy total waiting time on this resource doesn't indicate a problem.",
        WaitType::RESMGR_THROTTLED => "Occurs when a new request comes in and is throttled based on the GROUP_MAX_REQUESTS setting.",
        WaitType::RESOURCE_QUEUE => "Occurs during synchronization of various internal resource queues.",
        WaitType::RESOURCE_SEMAPHORE => "Occurs when a query memory request during query execution can't be granted immediately due to other concurrent queries. High waits and wait times might indicate excessive number of concurrent queries, or excessive memory request amounts. Excessive waits of this type might raise SQL error 8645, \"A time out occurred while waiting for memory resources to execute the query. Rerun the query.\"\n\nFor detailed information and troubleshooting ideas on memory grant waits, see Troubleshoot slow performance or low memory issues caused by memory grants in SQL Server.",
        WaitType::RESOURCE_SEMAPHORE_MUTEX => "Occurs while a query waits for its request for a thread reservation to be fulfilled. It also occurs when synchronizing query compile and memory grant requests.",
        WaitType::RESOURCE_SEMAPHORE_QUERY_COMPILE => "Occurs when the number of concurrent query compilations reaches a throttling limit. High waits and wait times might indicate excessive compilations, recompiles, or uncacheable plans.",
        WaitType::RESOURCE_SEMAPHORE_SMALL_QUERY => "Occurs when memory request by a small query can't be granted immediately due to other concurrent queries. Wait time shouldn't exceed more than a few seconds, because the server transfers the request to the main query memory pool if it fails to grant the requested memory within a few seconds. High waits might indicate an excessive number of concurrent small queries while the main memory pool is blocked by waiting queries.\n\nApplies to: SQL Server 2008 R2 (10.50.x) only.",
        WaitType::SECURITY_MUTEX => "Occurs when there's a wait for mutexes that control access to the global list of Extensible Key Management (EKM) cryptographic providers and the session-scoped list of EKM sessions.",
        WaitType::SEC_DROP_TEMP_KEY => "Occurs after a failed attempt to drop a temporary security key before a retry attempt.",
        WaitType::SEQUENTIAL_GUID => "Occurs while a new sequential GUID is being obtained.",
        WaitType::SERVER_IDLE_CHECK => "Occurs during synchronization of SQL Server instance idle status when a resource monitor is attempting to declare a SQL Server instance as idle or trying to wake up.",
        WaitType::SHUTDOWN => "Occurs while a shutdown statement waits for active connections to exit.",
        WaitType::SLEEP_BPOOL_FLUSH => "Occurs when a checkpoint is throttling the issuance of new I/Os in order to avoid flooding the disk subsystem.",
        WaitType::SLEEP_DBSTARTUP => "Occurs during database startup while waiting for all databases to recover.",
        WaitType::SLEEP_DCOMSTARTUP => "Occurs once at most during SQL Server instance startup while waiting for DCOM initialization to complete.",
        WaitType::SLEEP_MSDBSTARTUP => "Occurs when SQL Trace waits for the msdb database to complete startup.",
        WaitType::SLEEP_SYSTEMTASK => "Occurs during the start of a background task while waiting for tempdb to complete startup.",
        WaitType::SLEEP_TASK => "Occurs when a task sleeps while waiting for a generic event to occur.",
        WaitType::SLEEP_TEMPDBSTARTUP => "Occurs while a task waits for tempdb to complete startup.",
        WaitType::SNI_CRITICAL_SECTION => "Occurs during internal synchronization within SQL Server networking components.",
        WaitType::SNI_HTTP_WAITFOR_0_DISCON => "Occurs during SQL Server shutdown, while waiting for outstanding HTTP connections to exit.",
        WaitType::SNI_LISTENER_ACCESS => "Occurs while waiting for non-uniform memory access (NUMA) nodes to update state change. Access to state change is serialized.",
        WaitType::SNI_TASK_COMPLETION => "Occurs when there's a wait for all tasks to finish during a NUMA node state change.",
        WaitType::SOAP_READ => "Occurs while waiting for an HTTP network read to complete.",
        WaitType::SOAP_WRITE => "Occurs while waiting for an HTTP network write to complete.",
        WaitType::SOSHOST_EVENT => "Occurs when a hosted component, such as CLR, waits on a SQL Server event synchronization object.",
        WaitType::SOSHOST_INTERNAL => "Occurs during synchronization of memory manager callbacks used by hosted components, such as CLR.",
        WaitType::SOSHOST_MUTEX => "Occurs when a hosted component, such as CLR, waits on a SQL Server mutex synchronization object.",
        WaitType::SOSHOST_RWLOCK => "Occurs when a hosted component, such as CLR, waits on a SQL Server reader-writer synchronization object.",
        WaitType::SOSHOST_SEMAPHORE => "Occurs when a hosted component, such as CLR, waits on a SQL Server semaphore synchronization object.",
        WaitType::SOSHOST_SLEEP => "Occurs when a hosted task sleeps while waiting for a generic event to occur. Hosted tasks are used by hosted components such as CLR.",
        WaitType::SOSHOST_TRACELOCK => "Occurs during synchronization of access to trace streams.",
        WaitType::SOSHOST_WAITFORDONE => "Occurs when a hosted component, such as CLR, waits for a task to complete.",
        WaitType::SOS_CALLBACK_REMOVAL => "Occurs while performing synchronization on a callback list in order to remove a callback. It isn't expected for this counter to change after server initialization is completed.",
        _ => description_of_18(w),
    }
}

fn description_of_18(w: &WaitType) -> (r: &'static str)
    requires
        !in_description_part_0(*w),
        !in_description_part_1(*w),
        !in_description_part_2(*w),
        !in_description_part_3(*w),
        !in_description_part_4(*w),
        !in_description_part_5(*w),
        !in_description_part_6(*w),
        !in_description_part_7(*w),
        !in_description_part_8(*w),
        !in_description_part_9(*w),
        !in_description_part_10(*w),
        !in_description_part_11(*w),
        !in_description_part_12(*w),
        !in_description_part_13(*w),
        !in_description_part_14(*w),
        !in_description_part_15(*w),
        !in_description_part_16(*w),
        !in_description_part_17(*w),
    ensures
        r == wait_type_description(*w),
{
    proof {
        reveal(description_part_18);
    }
    match w {
        WaitType::SOS_DISPATCHER_MUTEX => "Occurs during internal synchronization of the dispatcher pool. This includes when the pool is being adjusted.",
        WaitType::SOS_LOCALALLOCATORLIST => "Occurs during internal synchronization in the SQL Server memory manager.\n\nApplies to: SQL Server 2008 R2 (10.50.x) only.",
        WaitType::SOS_MEMORY_USAGE_ADJUSTMENT => "Occurs when memory usage is being adjusted among pools.",
        WaitType::SOS_OBJECT_STORE_DESTROY_MUTEX => "Occurs during internal synchronization in memory pools when destroying objects from the pool.",
        WaitType::SOS_PHYS_PAGE_CACHE => "Accounts for the time a thread waits to acquire the mutex it must acquire before it allocates physical pages or before it returns those pages to the operating system. Waits on this type only appear if the instance of SQL Server uses AWE memory.\n\nApplies to: SQL Server 2012 (11.x) and later versions.",
        WaitType::SOS_PROCESS_AFFINITY_MUTEX => "Occurs during synchronizing of access to process affinity settings.",
        WaitType::SOS_RESERVEDMEMBLOCKLIST => "Occurs during internal synchronization in the SQL Server Memory Manager.\n\nApplies to: SQL Server 2008 R2 (10.50.x) only.",
        WaitType::SOS_SCHEDULER_YIELD => "Occurs when a task voluntarily yields the scheduler for other tasks to execute. During this wait, the task is waiting in a runnable queue for its quantum to be renewed, that is, waiting to be scheduled to run on the CPU again. Prolonged waits on this wait type most frequently indicate opportunities to optimize queries that perform index or table scans. Focus on plan regression, missing index, stats updates, and query rewrites. Optimizing runtimes reduces the need for tasks to be yielding multiple times. If query times for such CPU-consuming tasks are acceptable, then this wait type is expected and can be ignored.",
        WaitType::SOS_SMALL_PAGE_ALLOC => "Occurs during the allocation and freeing of memory that is managed by some memory objects.",
        WaitType::SOS_STACKSTORE_INIT_MUTEX => "Occurs during synchronization of internal store initialization.",
        WaitType::SOS_SYNC_TASK_ENQUEUE_EVENT => "Occurs when a task is started in a synchronous manner. Most tasks in SQL Server are started in an asynchronous manner, in which control returns to the starter immediately after the task request has been placed on the work queue.",
        WaitType::SOS_VIRTUALMEMORY_LOW => "Occurs when a memory allocation waits for a Resource Manager to free up virtual memory.",
        WaitType::SOS_WORK_DISPATCHER => "Internal use only.\n\nApplies to: SQL Server 2019 (15.x) and later versions.",
        WaitType::SPINLOCK_EXT => "Occurs when a thread is waiting to acquire a spinlock. Includes both the spinning and the sleeping time. High values might indicate spinlock contention.\n\nBecause of a possibility of a minor performance impact with high throughput and high concurrency workloads, the SPINLOCK_EXT waits are tracked only if trace flag 8134 is enabled.\n\nApplies to: SQL Server 2025 (17.x) and later versions.",
        WaitType::SQLCLR_APPDOMAIN => "Occurs while CLR waits for an application domain to complete startup.",
        WaitType::SQLCLR_ASSEMBLY => "Occurs while waiting for access to the loaded assembly list in the appdomain.",
        WaitType::SQLCLR_DEADLOCK_DETECTION => "Occurs while CLR waits for deadlock detection to complete.",
        WaitType::SQLCLR_QUANTUM_PUNISHMENT => "Occurs when a CLR task is throttled because it has exceeded its execution quantum. This throttling is done in order to reduce the effect of this resource-intensive task on other tasks.",
        WaitType::SQLSORT_NORMMUTEX | WaitType::SQLSORT_SORTMUTEX => "Occurs during internal synchronization, while initializing internal sorting structures.",
        WaitType::SQLTRACE_BUFFER_FLUSH => "Occurs when a task is waiting for a background task to flush trace buffers to disk every four seconds.\n\nApplies to: SQL Server 2008 R2 (10.50.x) only.",
        WaitType::SQLTRACE_FILE_BUFFER => "Occurs during synchronization on trace buffers during a file trace.\n\nApplies to: SQL Server 2012 (11.x) and later versions.",
        WaitType::SQLTRACE_SHUTDOWN => "Occurs while trace shutdown waits for outstanding trace events to complete.",
        WaitType::SQLTRACE_WAIT_ENTRIES => "Occurs while a SQL Trace event queue waits for packets to arrive on the queue.",
        WaitType::SRVPROC_SHUTDOWN => "Occurs while the shutdown process waits for internal resources to be released to shut down cleanly.",
        WaitType::TEMPOBJ => "Occurs when temporary object drops are synchronized. This wait is rare, and only occurs if a task has requested exclusive access for temp table drops.",
        WaitType::THREADPOOL => "Occurs when a task (query or login/logout) is waiting for a worker thread to execute it. This can indicate that the maximum worker thread setting is misconfigured, or, most commonly, that batch executions are taking unusually long, thus reducing the number of worker threads available to satisfy other batches. Examine the performance of batches (queries) and reduce query duration by either reducing bottlenecks (blocking, parallelism, I/O, latch waits), or providing proper indexing or query design.",
        WaitType::TIMEPRIV_TIMEPERIOD => "Occurs during internal synchronization of the Extended Events timer.",
        WaitType::TRACEWRITE => "Occurs when the SQL Trace rowset trace provider waits for either a free buffer or a buffer with events to process.",
        WaitType::TRANSACTION_MUTEX => "Occurs during synchronization of access to a transaction by multiple batches.",
        WaitType::TRAN_MARKLATCH_DT => "Occurs when waiting for a destroy mode latch on a transaction mark latch. Transaction mark latches are used for synchronization of commits with marked transactions.",
        WaitType::TRAN_MARKLATCH_EX => "Occurs when waiting for an exclusive mode latch on a marked transaction. Transaction mark latches are used for synchronization of commits with marked transactions.",
        WaitType::TRAN_MARKLATCH_KP => "Occurs when waiting for a keep mode latch on a marked transaction. Transaction mark latches are used for synchronization of commits with marked transactions.",
        WaitType::TRAN_MARKLATCH_SH => "Occurs when waiting for a shared mode latch on a marked transaction. Transaction mark latches are used for synchronization of commits with marked transactions.",
        WaitType::TRAN_MARKLATCH_UP => "Occurs when waiting for an update mode latch on a marked transaction. Transaction mark latches are used for synchronization of commits with marked transactions.",
        WaitType::UTIL_PAGE_ALLOC => "Occurs when transaction log scans wait for memory to be available during memory pressure.",
        WaitType::VIA_ACCEPT => "Occurs when a Virtual Interface Adapter (VIA) provider connection is completed during startup.",
        WaitType::VIEW_DEFINITION_MUTEX => "Occurs during synchronization on access to cached view definitions.",
        WaitType::WAITFOR => "Occurs as a result of a WAITFOR Transact-SQL statement. The duration of the wait is determined by the parameters to the statement. This is a user-initiated wait.",
        WaitType::WAITSTAT_MUTEX => "Occurs during synchronization of access to the collection of statistics used to populate sys.dm_os_wait_stats.",
        WaitType::WAIT_FOR_RESULTS => "Occurs when waiting for a query notification to be triggered.",
        WaitType::WAIT_ON_SYNC_STATISTICS_REFRESH => "Occurs when waiting for synchronous statistics update to complete before query compilation and execution can resume.\n\nApplies to: Starting with SQL Server 2019 (15.x)",
        WaitType::WAIT_XTP_CKPT_CLOSE => "Occurs when waiting for a checkpoint to complete.\n\nApplies to: SQL Server 2014 (12.x) and later versions.",
        WaitType::WAIT_XTP_CKPT_ENABLED => "Occurs when checkpointing is disabled, and waiting for checkpointing to be enabled.\n\nApplies to: SQL Server 2014 (12.x) and later versions.",
        WaitType::WAIT_XTP_CKPT_STATE_LOCK => "Occurs when synchronizing checking of checkpoint state.\n\nApplies to: SQL Server 2014 (12.x) and later versions.",
        WaitType::WAIT_XTP_GUEST => "Occurs when the database memory allocator needs to stop receiving low-memory notifications.\n\nApplies to: SQL Server 2012 (11.x) and later versions.",
        WaitType::WAIT_XTP_HOST_WAIT => "Occurs when waits are triggered by the database engine and implemented by the host.\n\nApplies to: SQL Server 2014 (12.x) and later versions.",
        WaitType::WAIT_XTP_OFFLINE_CKPT_LOG_IO => "Occurs when offline checkpoint is waiting for a log read IO to complete.\n\nApplies to: SQL Server 2014 (12.x) and later versions.",
        WaitType::WAIT_XTP_OFFLINE_CKPT_NEW_LOG => "Occurs when offline checkpoint is waiting for new log records to scan.\n\nApplies to: SQL Server 2014 (12.x) and later versions.",
        WaitType::WAIT_XTP_PROCEDURE_ENTRY => "Occurs when a drop procedure is waiting for all current executions of that procedure to complete.\n\nApplies to: SQL Server 2014 (12.x) and later versions.",
        _ => description_of_19(w),
    }
}

fn description_of_19(w: &WaitType) -> (r: &'static str)
    requires
        !in_description_part_0(*w),
        !in_description_part_1(*w),
        !in_description_part_2(*w),
        !in_description_part_3(*w),
        !in_description_part_4(*w),
        !in_description_part_5(*w),
        !in_description_part_6(*w),
        !in_description_part_7(*w),
        !in_description_part_8(*w),
        !in_description_part_9(*w),
        !in_description_part_10(*w),
        !in_description_part_11(*w),
        !in_description_part_12(*w),
        !in_description_part_13(*w),
        !in_description_part_14(*w),
        !in_description_part_15(*w),
        !in_description_part_16(*w),
        !in_description_part_17(*w),
        !in_description_part_18(*w),
    ensures
        r == wait_type_description(*w),
{
    proof {
        reveal(description_part_19);
    }
    match w {
        WaitType::WAIT_XTP_RECOVERY => "Occurs when database recovery is waiting for recovery of memory-optimized objects to finish.\n\nApplies to: SQL Server 2014 (12.x) and later versions.",
        WaitType::WAIT_XTP_TASK_SHUTDOWN => "Occurs when waiting for an In-Memory OLTP thread to complete.\n\nApplies to: SQL Server 2012 (11.x) and later versions.",
        WaitType::WAIT_XTP_TRAN_DEPENDENCY => "Occurs when waiting for transaction dependencies.\n\nApplies to: SQL Server 2014 (12.x) and later versions.",
        WaitType::WORKTBL_DROP => "Occurs while pausing before retrying, after a failed worktable drop.",
        WaitType::WRITELOG => "Occurs while waiting for a log flush to complete. Common operations that cause log flushes are transaction commits and checkpoints. Common reasons for long waits on WRITELOG are: disk latency (where transaction log files reside), the inability for I/O to keep up with transactions, or, a large number of transaction log operations and flushes (commits, rollback)",
        WaitType::WRITE_COMPLETION => "Occurs when a write operation is in progress.",
        WaitType::XACTLOCKINFO => "Occurs during synchronization of access to the list of locks for a transaction. In addition to the transaction itself, the list of locks is accessed by operations such as deadlock detection and lock migration during page splits.",
        WaitType::XACTWORKSPACE_MUTEX => "Occurs during synchronization of defections from a transaction, as well as the number of database locks between enlist members of a transaction.",
        WaitType::XACT_OWN_TRANSACTION => "Occurs while waiting to acquire ownership of a transaction.",
        WaitType::XACT_RECLAIM_SESSION => "Occurs while waiting for the current owner of a session to release ownership of the session.",
        WaitType::XE_BUFFERMGR_ALLPROCESSED_EVENT => "Occurs when Extended Events session buffers are flushed to targets. This wait occurs on a background thread.",
        WaitType::XE_BUFFERMGR_FREEBUF_EVENT => "Occurs when either of the following conditions is true:\n\n- An Extended Events session is configured for no event loss, and all buffers in the session are currently full. This can indicate that the buffers for an Extended Events session are too small or should be partitioned.\n- Audits experience a delay. This can indicate a disk bottleneck on the drive where the audits are written.",
        WaitType::XE_DISPATCHER_CONFIG_SESSION_LIST => "Occurs when an Extended Events session that is using asynchronous targets is started or stopped. This wait indicates either of the following conditions:\n\n- An Extended Events session is registering with a background thread pool.\n- The background thread pool is calculating the required number of threads based on current load.",
        WaitType::XE_DISPATCHER_JOIN => "Occurs when a background thread that is used for Extended Events sessions is terminating.",
        WaitType::XE_DISPATCHER_WAIT => "Occurs when a background thread that is used for Extended Events sessions is waiting for event buffers to process.",
        WaitType::XTPPROC_CACHE_ACCESS => "Occurs when for accessing all natively compiled stored procedure cache objects.\n\nApplies to: SQL Server 2014 (12.x) and later versions.",
        WaitType::XTPPROC_PARTITIONED_STACK_CREATE => "Occurs when allocating per-NUMA node natively compiled stored procedure cache structures (must be done single threaded) for a given procedure.\n\nApplies to: SQL Server 2012 (11.x) and later versions.",
        WaitType::Unknown(_) => "Not present in the generated wait-type table.",
        _ => "",
    }
}

impl WaitType {
    /// The description from SQL Server's documentation, with its note on
    /// the versions that have the wait type where there is one.
    pub fn description(&self) -> (r: &'static str)
        ensures
            r == wait_type_description(*self),
    {
        description_of_0(self)
    }
}

} // verus!
