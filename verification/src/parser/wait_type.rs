//! SQL Server wait types and their names.
use vstd::prelude::*;

verus! {

/// SQL Server wait types (`sys.dm_os_wait_stats`). SQL Server adds wait
/// types with every release, so reading a name never fails: a name that is
/// not in this list is kept in `Unknown`.
#[allow(non_camel_case_types)]
#[derive(Debug, PartialEq, Eq, Hash)]
pub enum WaitType {
    ABR,
    AM_INDBUILD_ALLOCATION,
    AM_SCHEMAMGR_UNSHARED_CACHE,
    ASSEMBLY_FILTER_HASHTABLE,
    ASSEMBLY_LOAD,
    ASYNC_DISKPOOL_LOCK,
    ASYNC_IO_COMPLETION,
    ASYNC_NETWORK_IO,
    ASYNC_OP_COMPLETION,
    ASYNC_OP_CONTEXT_READ,
    ASYNC_OP_CONTEXT_WRITE,
    ASYNC_SOCKETDUP_IO,
    AUDIT_GROUPCACHE_LOCK,
    AUDIT_LOGINCACHE_LOCK,
    AUDIT_ON_DEMAND_TARGET_LOCK,
    AUDIT_XE_SESSION_MGR,
    BACKUP,
    BACKUPBUFFER,
    BACKUPIO,
    BACKUPTHREAD,
    BACKUP_OPERATOR,
    BAD_PAGE_PROCESS,
    BLOB_METADATA,
    BMPALLOCATION,
    BMPBUILD,
    BMPREPARTITION,
    BMPREPLICATION,
    BPSORT,
    BROKER_CONNECTION_RECEIVE_TASK,
    BROKER_DISPATCHER,
    BROKER_ENDPOINT_STATE_MUTEX,
    BROKER_EVENTHANDLER,
    BROKER_FORWARDER,
    BROKER_INIT,
    BROKER_MASTERSTART,
    BROKER_RECEIVE_WAITFOR,
    BROKER_REGISTERALLENDPOINTS,
    BROKER_SERVICE,
    BROKER_SHUTDOWN,
    BROKER_START,
    BROKER_TASK_SHUTDOWN,
    BROKER_TASK_STOP,
    BROKER_TASK_SUBMIT,
    BROKER_TO_FLUSH,
    BROKER_TRANSMISSION_OBJECT,
    BROKER_TRANSMISSION_TABLE,
    BROKER_TRANSMISSION_WORK,
    BROKER_TRANSMITTER,
    BUFFERPOOL_SCAN,
    BUILTIN_HASHKEY_MUTEX,
    CHANGE_TRACKING_WAITFORCHANGES,
    CHECKPOINT_QUEUE,
    CHECK_PRINT_RECORD,
    CHECK_SCANNER_MUTEX,
    CHECK_TABLES_INITIALIZATION,
    CHECK_TABLES_SINGLE_SCAN,
    CHECK_TABLES_THREAD_BARRIER,
    CHKPT,
    CLEAR_DB,
    CLRHOST_STATE_ACCESS,
    CLR_AUTO_EVENT,
    CLR_CRST,
    CLR_JOIN,
    CLR_MANUAL_EVENT,
    CLR_MEMORY_SPY,
    CLR_MONITOR,
    CLR_RWLOCK_READER,
    CLR_RWLOCK_WRITER,
    CLR_SEMAPHORE,
    CLR_TASK_START,
    CMEMPARTITIONED,
    CMEMTHREAD,
    COLUMNSTORE_BUILD_THROTTLE,
    COLUMNSTORE_COLUMNDATASET_SESSION_LIST,
    COMMIT_TABLE,
    CONNECTION_ENDPOINT_LOCK,
    COUNTRECOVERYMGR,
    CREATE_DATINISERVICE,
    CXCONSUMER,
    CXPACKET,
    CXROWSET_SYNC,
    CXSYNC_CONSUMER,
    CXSYNC_PORT,
    DAC_INIT,
    DBCC_SCALE_OUT_EXPR_CACHE,
    DBMIRRORING_CMD,
    DBMIRROR_DBM_EVENT,
    DBMIRROR_DBM_MUTEX,
    DBMIRROR_EVENTS_QUEUE,
    DBMIRROR_SEND,
    DBMIRROR_WORKER_QUEUE,
    DBSEEDING_FLOWCONTROL,
    DBSEEDING_OPERATION,
    DEADLOCK_ENUM_MUTEX,
    DEADLOCK_TASK_SEARCH,
    DEBUG,
    DIRECTLOGCONSUMER_LIST,
    DIRTY_PAGE_POLL,
    DIRTY_PAGE_SYNC,
    DIRTY_PAGE_TABLE_LOCK,
    DISABLE_VERSIONING,
    DISKIO_SUSPEND,
    DISPATCHER_PRIORITY_QUEUE_SEMAPHORE,
    DISPATCHER_QUEUE_SEMAPHORE,
    DLL_LOADING_MUTEX,
    DPT_ENTRY_LOCK,
    DROPTEMP,
    DROP_DATABASE_TIMER_TASK,
    DTC,
    DTCNEW_ENLIST,
    DTCNEW_PREPARE,
    DTCNEW_RECOVERY,
    DTCNEW_TM,
    DTCNEW_TRANSACTION_ENLISTMENT,
    DTCPNTSYNC,
    DTC_ABORT_REQUEST,
    DTC_RESOLVE,
    DTC_STATE,
    DTC_TMDOWN_REQUEST,
    DTC_WAITFOR_OUTCOME,
    DUMPTRIGGER,
    DUMP_LOG_COORDINATOR,
    DUMP_LOG_COORDINATOR_QUEUE,
    EC,
    EE_PMOLOCK,
    EE_SPECPROC_MAP_INIT,
    ENABLE_EMPTY_VERSIONING,
    ENABLE_VERSIONING,
    ERROR_REPORTING_MANAGER,
    EXCHANGE,
    EXECSYNC,
    EXECUTION_PIPE_EVENT_INTERNAL,
    EXTERNAL_RG_UPDATE,
    EXTERNAL_SCRIPT_NETWORK_IO,
    EXTERNAL_SCRIPT_PREPARE_SERVICE,
    EXTERNAL_SCRIPT_SHUTDOWN,
    EXTERNAL_WAIT_ON_LAUNCHER,
    FABRIC_HADR_TRANSPORT_CONNECTION,
    FABRIC_REPLICA_CONTROLLER_LIST,
    FABRIC_REPLICA_CONTROLLER_STATE_AND_CONFIG,
    FABRIC_REPLICA_PUBLISHER_EVENT_PUBLISH,
    FABRIC_REPLICA_PUBLISHER_SUBSCRIBER_LIST,
    FABRIC_WAIT_FOR_BUILD_REPLICA_EVENT_PROCESSING,
    FAILPOINT,
    FCB_REPLICA_READ,
    FCB_REPLICA_WRITE,
    FEATURE_SWITCHES_UPDATE,
    FFT_NSO_DB_KILL_FLAG,
    FFT_NSO_DB_LIST,
    FFT_NSO_FCB,
    FFT_NSO_FCB_FIND,
    FFT_NSO_FCB_PARENT,
    FFT_NSO_FCB_RELEASE_CACHED_ENTRIES,
    FFT_NSO_FCB_STATE,
    FFT_NSO_FILEOBJECT,
    FFT_NSO_TABLE_LIST,
    FFT_NTFS_STORE,
    FFT_RECOVERY,
    FFT_RSFX_COMM,
    FFT_RSFX_WAIT_FOR_MEMORY,
    FFT_STARTUP_SHUTDOWN,
    FFT_STORE_DB,
    FFT_STORE_ROWSET_LIST,
    FFT_STORE_TABLE,
    FILESTREAM_CACHE,
    FILESTREAM_CHUNKER,
    FILESTREAM_CHUNKER_INIT,
    FILESTREAM_FCB,
    FILESTREAM_FILE_OBJECT,
    FILESTREAM_WORKITEM_QUEUE,
    FILETABLE_SHUTDOWN,
    FILE_VALIDATION_THREADS,
    FOREIGN_REDO,
    FORWARDER_TRANSITION,
    FSAGENT,
    FSA_FORCE_OWN_XACT,
    FSTR_CONFIG_MUTEX,
    FSTR_CONFIG_RWLOCK,
    FS_FC_RWLOCK,
    FS_GARBAGE_COLLECTOR_SHUTDOWN,
    FS_HEADER_RWLOCK,
    FS_LOGTRUNC_RWLOCK,
    FT_COMPROWSET_RWLOCK,
    FT_IFTSHC_MUTEX,
    FT_IFTSISM_MUTEX,
    FT_IFTS_ASYNC_WRITE_PIPE,
    FT_IFTS_BLOB_HASH,
    FT_IFTS_CATEALOG_SOURCE,
    FT_IFTS_CHUNK_BUFFER_CLIENT_MANAGER,
    FT_IFTS_CHUNK_BUFFER_PROTO_WORD_LIST,
    FT_IFTS_COMP_DESC_MANAGER,
    FT_IFTS_CONSUMER_PLUGIN,
    FT_IFTS_CRAWL_BATCH_LIST,
    FT_IFTS_CRAWL_CHILDREN,
    FT_IFTS_DOCID_INTERFACE_LIST,
    FT_IFTS_DOCID_LIST,
    FT_IFTS_FP_INFO_LIST,
    FT_IFTS_HOST_CONTROLLER,
    FT_IFTS_MASTER_MERGE_TASK_LIST,
    FT_IFTS_MEMREGPOOL,
    FT_IFTS_MERGE_FRAGMENT_SYNC,
    FT_IFTS_NOISE_WORDS_COLLECTION_CACHE,
    FT_IFTS_NOISE_WORDS_RESOURCE,
    FT_IFTS_OCCURRENCE_BUFFER_POOL,
    FT_IFTS_PIPELINE,
    FT_IFTS_PIPELINE_LIST,
    FT_IFTS_PIPELINE_MANAGER,
    FT_IFTS_PROJECT_FD_INFO_MAP,
    FT_IFTS_RWLOCK,
    FT_IFTS_SCHEDULER,
    FT_IFTS_SCHEDULER_IDLE_WAIT,
    FT_IFTS_SHARED_MEMORY,
    FT_IFTS_SHUTDOWN_PIPE,
    FT_IFTS_SRCH_FD_MANAGER,
    FT_IFTS_SRCH_FD_SERVICE,
    FT_IFTS_STOPLIST_CACHE_MANAGER,
    FT_IFTS_THESAURUS,
    FT_IFTS_VERSION_MANAGER,
    FT_IFTS_WORK_QUEUE,
    FT_MASTER_MERGE,
    FT_MASTER_MERGE_COORDINATOR,
    FT_METADATA_MUTEX,
    FT_PROPERTYLIST_CACHE,
    FT_RESTART_CRAWL,
    FULLTEXT_GATHERER,
    GDMA_GET_RESOURCE_OWNER,
    GHOSTCLEANUPSYNCMGR,
    GHOSTCLEANUP_UPDATE_STATS,
    GLOBAL_QUERY_CANCEL,
    GLOBAL_QUERY_CLOSE,
    GLOBAL_QUERY_CONSUMER,
    GLOBAL_QUERY_PRODUCER,
    GLOBAL_TRAN_CREATE,
    GLOBAL_TRAN_UCS_SESSION,
    GUARDIAN,
    HADR_AG_MUTEX,
    HADR_ARCONTROLLER_NOTIFICATIONS_SUBSCRIBER_LIST,
    HADR_AR_CRITICAL_SECTION_ENTRY,
    HADR_AR_MANAGER_MUTEX,
    HADR_AR_UNLOAD_COMPLETED,
    HADR_BACKUP_BULK_LOCK,
    HADR_BACKUP_QUEUE,
    HADR_CLUSAPI_CALL,
    HADR_COMPRESSED_CACHE_SYNC,
    HADR_CONNECTIVITY_INFO,
    HADR_DATABASE_FLOW_CONTROL,
    HADR_DATABASE_VERSIONING_STATE,
    HADR_DATABASE_WAIT_FOR_RECOVERY,
    HADR_DATABASE_WAIT_FOR_RESTART,
    HADR_DATABASE_WAIT_FOR_TRANSITION_TO_VERSIONING,
    HADR_DBR_SUBSCRIBER,
    HADR_DBR_SUBSCRIBER_FILTER_LIST,
    HADR_DBSEEDING,
    HADR_DBSEEDING_LIST,
    HADR_DBSTATECHANGE_SYNC,
    HADR_DB_COMMAND,
    HADR_DB_OP_COMPLETION_SYNC,
    HADR_DB_OP_START_SYNC,
    HADR_FABRIC_CALLBACK,
    HADR_FILESTREAM_BLOCK_FLUSH,
    HADR_FILESTREAM_FILE_CLOSE,
    HADR_FILESTREAM_FILE_REQUEST,
    HADR_FILESTREAM_IOMGR,
    HADR_FILESTREAM_IOMGR_IOCOMPLETION,
    HADR_FILESTREAM_MANAGER,
    HADR_FILESTREAM_PREPROC,
    HADR_GROUP_COMMIT,
    HADR_LOGCAPTURE_SYNC,
    HADR_LOGCAPTURE_WAIT,
    HADR_LOGPROGRESS_SYNC,
    HADR_NOTIFICATION_DEQUEUE,
    HADR_NOTIFICATION_WORKER_EXCLUSIVE_ACCESS,
    HADR_NOTIFICATION_WORKER_STARTUP_SYNC,
    HADR_NOTIFICATION_WORKER_TERMINATION_SYNC,
    HADR_PARTNER_SYNC,
    HADR_READ_ALL_NETWORKS,
    HADR_RECOVERY_WAIT_FOR_CONNECTION,
    HADR_RECOVERY_WAIT_FOR_UNDO,
    HADR_REPLICAINFO_SYNC,
    HADR_SEEDING_CANCELLATION,
    HADR_SEEDING_FILE_LIST,
    HADR_SEEDING_LIMIT_BACKUPS,
    HADR_SEEDING_SYNC_COMPLETION,
    HADR_SEEDING_TIMEOUT_TASK,
    HADR_SEEDING_WAIT_FOR_COMPLETION,
    HADR_SYNCHRONIZING_THROTTLE,
    HADR_SYNC_COMMIT,
    HADR_TDS_LISTENER_SYNC,
    HADR_TDS_LISTENER_SYNC_PROCESSING,
    HADR_THROTTLE_LOG_RATE_GOVERNOR,
    HADR_THROTTLE_LOG_RATE_LOG_SIZE,
    HADR_THROTTLE_LOG_RATE_MISMATCHED_SLO,
    HADR_THROTTLE_LOG_RATE_SEEDING,
    HADR_THROTTLE_LOG_RATE_SEND_RECV_QUEUE_SIZE,
    HADR_TIMER_TASK,
    HADR_TRANSPORT_DBRLIST,
    HADR_TRANSPORT_FLOW_CONTROL,
    HADR_TRANSPORT_SESSION,
    HADR_WORK_POOL,
    HADR_WORK_QUEUE,
    HADR_XRF_STACK_ACCESS,
    HCCO_CACHE,
    HKCS_PARALLEL_MIGRATION,
    HKCS_PARALLEL_RECOVERY,
    HK_RESTORE_FILEMAP,
    HTBUILD,
    HTBUILD_AGG,
    HTBUILD_JOIN,
    HTDELETE,
    HTDELETE_AGG,
    HTDELETE_JOIN,
    HTMEMO,
    HTREINIT,
    HTREPARTITION,
    HTTP_ENUMERATION,
    HTTP_START,
    HTTP_STORAGE_CONNECTION,
    IMPPROV_IOWAIT,
    INSTANCE_LOG_RATE_GOVERNOR,
    INTERNAL_TESTING,
    IOAFF_RANGE_QUEUE,
    IO_AUDIT_MUTEX,
    IO_COMPLETION,
    IO_QUEUE_LIMIT,
    IO_RETRY,
    KSOURCE_WAKEUP,
    KTM_ENLISTMENT,
    KTM_RECOVERY_MANAGER,
    KTM_RECOVERY_RESOLUTION,
    LATCH_DT,
    LATCH_EX,
    LATCH_KP,
    LATCH_NL,
    LATCH_SH,
    LATCH_UP,
    LAZYWRITER_SLEEP,
    LCK_M_BU,
    LCK_M_BU_ABORT_BLOCKERS,
    LCK_M_BU_LOW_PRIORITY,
    LCK_M_IS,
    LCK_M_IS_ABORT_BLOCKERS,
    LCK_M_IS_LOW_PRIORITY,
    LCK_M_IU,
    LCK_M_IU_ABORT_BLOCKERS,
    LCK_M_IU_LOW_PRIORITY,
    LCK_M_IX,
    LCK_M_IX_ABORT_BLOCKERS,
    LCK_M_IX_LOW_PRIORITY,
    LCK_M_RIn_NL,
    LCK_M_RIn_NL_ABORT_BLOCKERS,
    LCK_M_RIn_NL_LOW_PRIORITY,
    LCK_M_RIn_S,
    LCK_M_RIn_S_ABORT_BLOCKERS,
    LCK_M_RIn_S_LOW_PRIORITY,
    LCK_M_RIn_U,
    LCK_M_RIn_U_ABORT_BLOCKERS,
    LCK_M_RIn_U_LOW_PRIORITY,
    LCK_M_RIn_X,
    LCK_M_RIn_X_ABORT_BLOCKERS,
    LCK_M_RIn_X_LOW_PRIORITY,
    LCK_M_RS_S,
    LCK_M_RS_S_ABORT_BLOCKERS,
    LCK_M_RS_S_LOW_PRIORITY,
    LCK_M_RS_U,
    LCK_M_RS_U_ABORT_BLOCKERS,
    LCK_M_RS_U_LOW_PRIORITY,
    LCK_M_RX_S,
    LCK_M_RX_S_ABORT_BLOCKERS,
    LCK_M_RX_S_LOW_PRIORITY,
    LCK_M_RX_U,
    LCK_M_RX_U_ABORT_BLOCKERS,
    LCK_M_RX_U_LOW_PRIORITY,
    LCK_M_RX_X,
    LCK_M_RX_X_ABORT_BLOCKERS,
    LCK_M_RX_X_LOW_PRIORITY,
    LCK_M_S,
    LCK_M_SCH_M,
    LCK_M_SCH_M_ABORT_BLOCKERS,
    LCK_M_SCH_M_LOW_PRIORITY,
    LCK_M_SCH_S,
    LCK_M_SCH_S_ABORT_BLOCKERS,
    LCK_M_SCH_S_LOW_PRIORITY,
    LCK_M_SIU,
    LCK_M_SIU_ABORT_BLOCKERS,
    LCK_M_SIU_LOW_PRIORITY,
    LCK_M_SIX,
    LCK_M_SIX_ABORT_BLOCKERS,
    LCK_M_SIX_LOW_PRIORITY,
    LCK_M_S_ABORT_BLOCKERS,
    LCK_M_S_LOW_PRIORITY,
    LCK_M_S_XACT,
    LCK_M_S_XACT_MODIFY,
    LCK_M_S_XACT_READ,
    LCK_M_U,
    LCK_M_UIX,
    LCK_M_UIX_ABORT_BLOCKERS,
    LCK_M_UIX_LOW_PRIORITY,
    LCK_M_U_ABORT_BLOCKERS,
    LCK_M_U_LOW_PRIORITY,
    LCK_M_X,
    LCK_M_X_ABORT_BLOCKERS,
    LCK_M_X_LOW_PRIORITY,
    LOGBUFFER,
    LOGCAPTURE_LOGPOOLTRUNCPOINT,
    LOGGENERATION,
    LOGMGR,
    LOGMGR_FLUSH,
    LOGMGR_PMM_LOG,
    LOGMGR_QUEUE,
    LOGMGR_RESERVE_APPEND,
    LOGPOOLREFCOUNTEDOBJECT_REFDONE,
    LOGPOOL_CACHESIZE,
    LOGPOOL_CONSUMER,
    LOGPOOL_CONSUMERSET,
    LOGPOOL_FREEPOOLS,
    LOGPOOL_MGRSET,
    LOGPOOL_REPLACEMENTSET,
    LOG_POOL_SCAN,
    LOG_RATE_GOVERNOR,
    LOWFAIL_MEMMGR_QUEUE,
    MD_AGENT_YIELD,
    MD_LAZYCACHE_RWLOCK,
    MEMORY_ALLOCATION_EXT,
    MEMORY_GRANT_UPDATE,
    METADATA_LAZYCACHE_RWLOCK,
    MIGRATIONBUFFER,
    MISCELLANEOUS,
    MSQL_DQ,
    MSQL_XACT_MGR_MUTEX,
    MSQL_XACT_MUTEX,
    MSQL_XP,
    MSSEARCH,
    NETWORKSXMLMGRLOAD,
    NET_WAITFOR_PACKET,
    NODE_CACHE_MUTEX,
    OLEDB,
    ONDEMAND_TASK_QUEUE,
    PAGEIOLATCH_DT,
    PAGEIOLATCH_EX,
    PAGEIOLATCH_KP,
    PAGEIOLATCH_NL,
    PAGEIOLATCH_SH,
    PAGEIOLATCH_UP,
    PAGELATCH_DT,
    PAGELATCH_EX,
    PAGELATCH_KP,
    PAGELATCH_NL,
    PAGELATCH_SH,
    PAGELATCH_UP,
    PARALLEL_BACKUP_QUEUE,
    PARALLEL_REDO_DRAIN_WORKER,
    PARALLEL_REDO_FLOW_CONTROL,
    PARALLEL_REDO_LOG_CACHE,
    PARALLEL_REDO_TRAN_LIST,
    PARALLEL_REDO_TRAN_TURN,
    PARALLEL_REDO_WORKER_SYNC,
    PARALLEL_REDO_WORKER_WAIT_WORK,
    PERFORMANCE_COUNTERS_RWLOCK,
    PHYSICAL_SEEDING_DMV,
    POOL_LOG_RATE_GOVERNOR,
    PREEMPTIVE_ABR,
    PREEMPTIVE_AUDIT_ACCESS_EVENTLOG,
    PREEMPTIVE_AUDIT_ACCESS_SECLOG,
    PREEMPTIVE_CLOSEBACKUPMEDIA,
    PREEMPTIVE_CLOSEBACKUPTAPE,
    PREEMPTIVE_CLOSEBACKUPVDIDEVICE,
    PREEMPTIVE_CLUSAPI_CLUSTERRESOURCECONTROL,
    PREEMPTIVE_COM_COCREATEINSTANCE,
    PREEMPTIVE_COM_COGETCLASSOBJECT,
    PREEMPTIVE_COM_CREATEACCESSOR,
    PREEMPTIVE_COM_DELETEROWS,
    PREEMPTIVE_COM_GETCOMMANDTEXT,
    PREEMPTIVE_COM_GETDATA,
    PREEMPTIVE_COM_GETNEXTROWS,
    PREEMPTIVE_COM_GETRESULT,
    PREEMPTIVE_COM_GETROWSBYBOOKMARK,
    PREEMPTIVE_COM_LBFLUSH,
    PREEMPTIVE_COM_LBLOCKREGION,
    PREEMPTIVE_COM_LBREADAT,
    PREEMPTIVE_COM_LBSETSIZE,
    PREEMPTIVE_COM_LBSTAT,
    PREEMPTIVE_COM_LBUNLOCKREGION,
    PREEMPTIVE_COM_LBWRITEAT,
    PREEMPTIVE_COM_QUERYINTERFACE,
    PREEMPTIVE_COM_RELEASE,
    PREEMPTIVE_COM_RELEASEACCESSOR,
    PREEMPTIVE_COM_RELEASEROWS,
    PREEMPTIVE_COM_RELEASESESSION,
    PREEMPTIVE_COM_RESTARTPOSITION,
    PREEMPTIVE_COM_SEQSTRMREAD,
    PREEMPTIVE_COM_SEQSTRMREADANDWRITE,
    PREEMPTIVE_COM_SETDATAFAILURE,
    PREEMPTIVE_COM_SETPARAMETERINFO,
    PREEMPTIVE_COM_SETPARAMETERPROPERTIES,
    PREEMPTIVE_COM_STRMLOCKREGION,
    PREEMPTIVE_COM_STRMSEEKANDREAD,
    PREEMPTIVE_COM_STRMSEEKANDWRITE,
    PREEMPTIVE_COM_STRMSETSIZE,
    PREEMPTIVE_COM_STRMSTAT,
    PREEMPTIVE_COM_STRMUNLOCKREGION,
    PREEMPTIVE_CONSOLEWRITE,
    PREEMPTIVE_CREATEPARAM,
    PREEMPTIVE_DEBUG,
    PREEMPTIVE_DFSADDLINK,
    PREEMPTIVE_DFSLINKEXISTCHECK,
    PREEMPTIVE_DFSLINKHEALTHCHECK,
    PREEMPTIVE_DFSREMOVELINK,
    PREEMPTIVE_DFSREMOVEROOT,
    PREEMPTIVE_DFSROOTFOLDERCHECK,
    PREEMPTIVE_DFSROOTINIT,
    PREEMPTIVE_DFSROOTSHARECHECK,
    PREEMPTIVE_DTC_ABORT,
    PREEMPTIVE_DTC_ABORTREQUESTDONE,
    PREEMPTIVE_DTC_BEGINTRANSACTION,
    PREEMPTIVE_DTC_COMMITREQUESTDONE,
    PREEMPTIVE_DTC_ENLIST,
    PREEMPTIVE_DTC_PREPAREREQUESTDONE,
    PREEMPTIVE_FILESIZEGET,
    PREEMPTIVE_FSAOLEDB_ABORTTRANSACTION,
    PREEMPTIVE_FSAOLEDB_COMMITTRANSACTION,
    PREEMPTIVE_FSAOLEDB_STARTTRANSACTION,
    PREEMPTIVE_FSRECOVER_UNCONDITIONALUNDO,
    PREEMPTIVE_GETRMINFO,
    PREEMPTIVE_HADR_LEASE_MECHANISM,
    PREEMPTIVE_HTTP_EVENT_WAIT,
    PREEMPTIVE_HTTP_REQUEST,
    PREEMPTIVE_LOCKMONITOR,
    PREEMPTIVE_MSS_RELEASE,
    PREEMPTIVE_ODBCOPS,
    PREEMPTIVE_OLEDBOPS,
    PREEMPTIVE_OLEDB_ABORTORCOMMITTRAN,
    PREEMPTIVE_OLEDB_ABORTTRAN,
    PREEMPTIVE_OLEDB_GETDATASOURCE,
    PREEMPTIVE_OLEDB_GETLITERALINFO,
    PREEMPTIVE_OLEDB_GETPROPERTIES,
    PREEMPTIVE_OLEDB_GETPROPERTYINFO,
    PREEMPTIVE_OLEDB_GETSCHEMALOCK,
    PREEMPTIVE_OLEDB_JOINTRANSACTION,
    PREEMPTIVE_OLEDB_RELEASE,
    PREEMPTIVE_OLEDB_SETPROPERTIES,
    PREEMPTIVE_OLE_UNINIT,
    PREEMPTIVE_OS_ACCEPTSECURITYCONTEXT,
    PREEMPTIVE_OS_ACQUIRECREDENTIALSHANDLE,
    PREEMPTIVE_OS_AUTHENTICATIONOPS,
    PREEMPTIVE_OS_AUTHORIZATIONOPS,
    PREEMPTIVE_OS_AUTHZGETINFORMATIONFROMCONTEXT,
    PREEMPTIVE_OS_AUTHZINITIALIZECONTEXTFROMSID,
    PREEMPTIVE_OS_AUTHZINITIALIZERESOURCEMANAGER,
    PREEMPTIVE_OS_BACKUPREAD,
    PREEMPTIVE_OS_CLOSEHANDLE,
    PREEMPTIVE_OS_CLUSTEROPS,
    PREEMPTIVE_OS_COMOPS,
    PREEMPTIVE_OS_COMPLETEAUTHTOKEN,
    PREEMPTIVE_OS_COPYFILE,
    PREEMPTIVE_OS_CREATEDIRECTORY,
    PREEMPTIVE_OS_CREATEFILE,
    PREEMPTIVE_OS_CRYPTACQUIRECONTEXT,
    PREEMPTIVE_OS_CRYPTIMPORTKEY,
    PREEMPTIVE_OS_CRYPTOPS,
    PREEMPTIVE_OS_DECRYPTMESSAGE,
    PREEMPTIVE_OS_DELETEFILE,
    PREEMPTIVE_OS_DELETESECURITYCONTEXT,
    PREEMPTIVE_OS_DEVICEIOCONTROL,
    PREEMPTIVE_OS_DEVICEOPS,
    PREEMPTIVE_OS_DIRSVC_NETWORKOPS,
    PREEMPTIVE_OS_DISCONNECTNAMEDPIPE,
    PREEMPTIVE_OS_DOMAINSERVICESOPS,
    PREEMPTIVE_OS_DSGETDCNAME,
    PREEMPTIVE_OS_DTCOPS,
    PREEMPTIVE_OS_ENCRYPTMESSAGE,
    PREEMPTIVE_OS_FILEOPS,
    PREEMPTIVE_OS_FINDFILE,
    PREEMPTIVE_OS_FLUSHFILEBUFFERS,
    PREEMPTIVE_OS_FORMATMESSAGE,
    PREEMPTIVE_OS_FREECREDENTIALSHANDLE,
    PREEMPTIVE_OS_FREELIBRARY,
    PREEMPTIVE_OS_GENERICOPS,
    PREEMPTIVE_OS_GETADDRINFO,
    PREEMPTIVE_OS_GETCOMPRESSEDFILESIZE,
    PREEMPTIVE_OS_GETDISKFREESPACE,
    PREEMPTIVE_OS_GETFILEATTRIBUTES,
    PREEMPTIVE_OS_GETFILESIZE,
    PREEMPTIVE_OS_GETFINALFILEPATHBYHANDLE,
    PREEMPTIVE_OS_GETLONGPATHNAME,
    PREEMPTIVE_OS_GETPROCADDRESS,
    PREEMPTIVE_OS_GETVOLUMENAMEFORVOLUMEMOUNTPOINT,
    PREEMPTIVE_OS_GETVOLUMEPATHNAME,
    PREEMPTIVE_OS_INITIALIZESECURITYCONTEXT,
    PREEMPTIVE_OS_LIBRARYOPS,
    PREEMPTIVE_OS_LOADLIBRARY,
    PREEMPTIVE_OS_LOGONUSER,
    PREEMPTIVE_OS_LOOKUPACCOUNTSID,
    PREEMPTIVE_OS_MESSAGEQUEUEOPS,
    PREEMPTIVE_OS_MOVEFILE,
    PREEMPTIVE_OS_NETGROUPGETUSERS,
    PREEMPTIVE_OS_NETLOCALGROUPGETMEMBERS,
    PREEMPTIVE_OS_NETUSERGETGROUPS,
    PREEMPTIVE_OS_NETUSERGETLOCALGROUPS,
    PREEMPTIVE_OS_NETUSERMODALSGET,
    PREEMPTIVE_OS_NETVALIDATEPASSWORDPOLICY,
    PREEMPTIVE_OS_NETVALIDATEPASSWORDPOLICYFREE,
    PREEMPTIVE_OS_OPENDIRECTORY,
    PREEMPTIVE_OS_PDH_WMI_INIT,
    PREEMPTIVE_OS_PIPEOPS,
    PREEMPTIVE_OS_PROCESSOPS,
    PREEMPTIVE_OS_QUERYCONTEXTATTRIBUTES,
    PREEMPTIVE_OS_QUERYREGISTRY,
    PREEMPTIVE_OS_QUERYSECURITYCONTEXTTOKEN,
    PREEMPTIVE_OS_REMOVEDIRECTORY,
    PREEMPTIVE_OS_REPORTEVENT,
    PREEMPTIVE_OS_REVERTTOSELF,
    PREEMPTIVE_OS_RSFXDEVICEOPS,
    PREEMPTIVE_OS_SECURITYOPS,
    PREEMPTIVE_OS_SERVICEOPS,
    PREEMPTIVE_OS_SETENDOFFILE,
    PREEMPTIVE_OS_SETFILEPOINTER,
    PREEMPTIVE_OS_SETFILEVALIDDATA,
    PREEMPTIVE_OS_SETNAMEDSECURITYINFO,
    PREEMPTIVE_OS_SQLCLROPS,
    PREEMPTIVE_OS_SQMLAUNCH,
    PREEMPTIVE_OS_VERIFYSIGNATURE,
    PREEMPTIVE_OS_VERIFYTRUST,
    PREEMPTIVE_OS_VSSOPS,
    PREEMPTIVE_OS_WAITFORSINGLEOBJECT,
    PREEMPTIVE_OS_WINSOCKOPS,
    PREEMPTIVE_OS_WRITEFILE,
    PREEMPTIVE_OS_WRITEFILEGATHER,
    PREEMPTIVE_OS_WSASETLASTERROR,
    PREEMPTIVE_REENLIST,
    PREEMPTIVE_RESIZELOG,
    PREEMPTIVE_ROLLFORWARDREDO,
    PREEMPTIVE_ROLLFORWARDUNDO,
    PREEMPTIVE_SB_STOPENDPOINT,
    PREEMPTIVE_SERVER_STARTUP,
    PREEMPTIVE_SETRMINFO,
    PREEMPTIVE_SHAREDMEM_GETDATA,
    PREEMPTIVE_SNIOPEN,
    PREEMPTIVE_SOSHOST,
    PREEMPTIVE_SOSTESTING,
    PREEMPTIVE_SP_SERVER_DIAGNOSTICS,
    PREEMPTIVE_STARTRM,
    PREEMPTIVE_STREAMFCB_CHECKPOINT,
    PREEMPTIVE_STREAMFCB_RECOVER,
    PREEMPTIVE_STRESSDRIVER,
    PREEMPTIVE_TESTING,
    PREEMPTIVE_TRANSIMPORT,
    PREEMPTIVE_UNMARSHALPROPAGATIONTOKEN,
    PREEMPTIVE_VSS_CREATESNAPSHOT,
    PREEMPTIVE_VSS_CREATEVOLUMESNAPSHOT,
    PREEMPTIVE_XETESTING,
    PREEMPTIVE_XE_CALLBACKEXECUTE,
    PREEMPTIVE_XE_CX_FILE_OPEN,
    PREEMPTIVE_XE_CX_HTTP_CALL,
    PREEMPTIVE_XE_DISPATCHER,
    PREEMPTIVE_XE_ENGINEINIT,
    PREEMPTIVE_XE_GETTARGETSTATE,
    PREEMPTIVE_XE_SESSIONCOMMIT,
    PREEMPTIVE_XE_TARGETFINALIZE,
    PREEMPTIVE_XE_TARGETINIT,
    PREEMPTIVE_XE_TIMERRUN,
    PRINT_ROLLBACK_PROGRESS,
    PRU_ROLLBACK_DEFERRED,
    PVS_CLEANUP_LOCK,
    PWAIT_ALL_COMPONENTS_INITIALIZED,
    PWAIT_COOP_SCAN,
    PWAIT_DIRECTLOGCONSUMER_GETNEXT,
    PWAIT_EVENT_SESSION_INIT_MUTEX,
    PWAIT_FABRIC_REPLICA_CONTROLLER_DATA_LOSS,
    PWAIT_HADRSIM,
    PWAIT_HADR_ACTION_COMPLETED,
    PWAIT_HADR_CHANGE_NOTIFIER_TERMINATION_SYNC,
    PWAIT_HADR_CLUSTER_INTEGRATION,
    PWAIT_HADR_FAILOVER_COMPLETED,
    PWAIT_HADR_JOIN,
    PWAIT_HADR_OFFLINE_COMPLETED,
    PWAIT_HADR_ONLINE_COMPLETED,
    PWAIT_HADR_POST_ONLINE_COMPLETED,
    PWAIT_HADR_SERVER_READY_CONNECTIONS,
    PWAIT_HADR_WORKITEM_COMPLETED,
    PWAIT_LOG_CONSOLIDATION_IO,
    PWAIT_LOG_CONSOLIDATION_POLL,
    PWAIT_MD_LOGIN_STATS,
    PWAIT_MD_RELATION_CACHE,
    PWAIT_MD_SERVER_CACHE,
    PWAIT_MD_UPGRADE_CONFIG,
    PWAIT_PREEMPTIVE_APP_USAGE_TIMER,
    PWAIT_PREEMPTIVE_AUDIT_ACCESS_WINDOWSLOG,
    PWAIT_QRY_BPMEMORY,
    PWAIT_REPLICA_ONLINE_INIT_MUTEX,
    PWAIT_RESOURCE_SEMAPHORE_FT_PARALLEL_QUERY_SYNC,
    PWAIT_SBS_FILE_OPERATION,
    PWAIT_XTP_FSSTORAGE_MAINTENANCE,
    PWAIT_XTP_HOST_STORAGE_WAIT,
    QDS_ASYNC_CHECK_CONSISTENCY_TASK,
    QDS_ASYNC_PERSIST_TASK,
    QDS_ASYNC_PERSIST_TASK_START,
    QDS_ASYNC_QUEUE,
    QDS_BCKG_TASK,
    QDS_BLOOM_FILTER,
    QDS_CLEANUP_STALE_QUERIES_TASK_MAIN_LOOP_SLEEP,
    QDS_CTXS,
    QDS_DB_DISK,
    QDS_DYN_VECTOR,
    QDS_EXCLUSIVE_ACCESS,
    QDS_HOST_INIT,
    QDS_LOADDB,
    QDS_PERSIST_TASK_MAIN_LOOP_SLEEP,
    QDS_QDS_CAPTURE_INIT,
    QDS_SHUTDOWN_QUEUE,
    QDS_STMT,
    QDS_STMT_DISK,
    QDS_TASK_SHUTDOWN,
    QDS_TASK_START,
    QE_WARN_LIST_SYNC,
    QPJOB_KILL,
    QPJOB_WAITFOR_ABORT,
    QRY_MEM_GRANT_INFO_MUTEX,
    QRY_PARALLEL_THREAD_MUTEX,
    QRY_PROFILE_LIST_MUTEX,
    QUERY_ERRHDL_SERVICE_DONE,
    QUERY_EXECUTION_INDEX_SORT_EVENT_OPEN,
    QUERY_NOTIFICATION_MGR_MUTEX,
    QUERY_NOTIFICATION_SUBSCRIPTION_MUTEX,
    QUERY_NOTIFICATION_TABLE_MGR_MUTEX,
    QUERY_NOTIFICATION_UNITTEST_MUTEX,
    QUERY_OPTIMIZER_PRINT_MUTEX,
    QUERY_TASK_ENQUEUE_MUTEX,
    QUERY_TRACEOUT,
    QUERY_WAIT_ERRHDL_SERVICE,
    RBIO_RG_DESTAGE,
    RBIO_RG_LOCALDESTAGE,
    RBIO_RG_REPLICA,
    RBIO_RG_STORAGE,
    RBIO_WAIT_VLF,
    RECOVERY_MGR_LOCK,
    RECOVER_CHANGEDB,
    REDO_THREAD_PENDING_WORK,
    REDO_THREAD_SYNC,
    REMOTE_BLOCK_IO,
    REMOTE_DATA_ARCHIVE_MIGRATION_DMV,
    REMOTE_DATA_ARCHIVE_SCHEMA_DMV,
    REMOTE_DATA_ARCHIVE_SCHEMA_TASK_QUEUE,
    REPLICA_WRITES,
    REPL_CACHE_ACCESS,
    REPL_HISTORYCACHE_ACCESS,
    REPL_SCHEMA_ACCESS,
    REPL_TRANFSINFO_ACCESS,
    REPL_TRANHASHTABLE_ACCESS,
    REPL_TRANTEXTINFO_ACCESS,
    REQUEST_DISPENSER_PAUSE,
    REQUEST_FOR_DEADLOCK_SEARCH,
    RESERVED_MEMORY_ALLOCATION_EXT,
    RESMGR_THROTTLED,
    RESOURCE_GOVERNOR_IDLE,
    RESOURCE_QUEUE,
    RESOURCE_SEMAPHORE,
    RESOURCE_SEMAPHORE_MUTEX,
    RESOURCE_SEMAPHORE_QUERY_COMPILE,
    RESOURCE_SEMAPHORE_SMALL_QUERY,
    RESTORE_FILEHANDLECACHE_ENTRYLOCK,
    RESTORE_FILEHANDLECACHE_LOCK,
    RG_RECONFIG,
    ROWGROUP_OP_STATS,
    ROWGROUP_VERSION,
    RTDATA_LIST,
    SATELLITE_CARGO,
    SATELLITE_SERVICE_SETUP,
    SATELLITE_TASK,
    SBS_DISPATCH,
    SBS_RECEIVE_TRANSPORT,
    SBS_TRANSPORT,
    SCAN_CHAR_HASH_ARRAY_INITIALIZATION,
    SECURITY_CNG_PROVIDER_MUTEX,
    SECURITY_CRYPTO_CONTEXT_MUTEX,
    SECURITY_DBE_STATE_MUTEX,
    SECURITY_KEYRING_RWLOCK,
    SECURITY_MUTEX,
    SECURITY_RULETABLE_MUTEX,
    SEC_DROP_TEMP_KEY,
    SEMPLAT_DSI_BUILD,
    SEQUENCE_GENERATION,
    SEQUENTIAL_GUID,
    SERVER_IDLE_CHECK,
    SERVER_RECONFIGURE,
    SESSION_WAIT_STATS_CHILDREN,
    SHARED_DELTASTORE_CREATION,
    SHUTDOWN,
    SLEEP_BPOOL_FLUSH,
    SLEEP_BUFFERPOOL_HELPLW,
    SLEEP_DBSTARTUP,
    SLEEP_DCOMSTARTUP,
    SLEEP_MASTERDBREADY,
    SLEEP_MASTERMDREADY,
    SLEEP_MASTERUPGRADED,
    SLEEP_MEMORYPOOL_ALLOCATEPAGES,
    SLEEP_MSDBSTARTUP,
    SLEEP_RETRY_VIRTUALALLOC,
    SLEEP_SYSTEMTASK,
    SLEEP_TASK,
    SLEEP_TEMPDBSTARTUP,
    SLEEP_WORKSPACE_ALLOCATEPAGE,
    SLO_UPDATE,
    SMSYNC,
    SNI_CONN_DUP,
    SNI_CRITICAL_SECTION,
    SNI_HTTP_WAITFOR_0_DISCON,
    SNI_LISTENER_ACCESS,
    SNI_TASK_COMPLETION,
    SNI_WRITE_ASYNC,
    SOAP_READ,
    SOAP_WRITE,
    SOCKETDUPLICATEQUEUE_CLEANUP,
    SOSHOST_EVENT,
    SOSHOST_INTERNAL,
    SOSHOST_MUTEX,
    SOSHOST_RWLOCK,
    SOSHOST_SEMAPHORE,
    SOSHOST_SLEEP,
    SOSHOST_TRACELOCK,
    SOSHOST_WAITFORDONE,
    SOS_CALLBACK_REMOVAL,
    SOS_DISPATCHER_MUTEX,
    SOS_LOCALALLOCATORLIST,
    SOS_MEMORY_TOPLEVELBLOCKALLOCATOR,
    SOS_MEMORY_USAGE_ADJUSTMENT,
    SOS_OBJECT_STORE_DESTROY_MUTEX,
    SOS_PHYS_PAGE_CACHE,
    SOS_PROCESS_AFFINITY_MUTEX,
    SOS_RESERVEDMEMBLOCKLIST,
    SOS_SCHEDULER_YIELD,
    SOS_SMALL_PAGE_ALLOC,
    SOS_STACKSTORE_INIT_MUTEX,
    SOS_SYNC_TASK_ENQUEUE_EVENT,
    SOS_VIRTUALMEMORY_LOW,
    SOS_WORK_DISPATCHER,
    SPINLOCK_EXT,
    SP_PREEMPTIVE_SERVER_DIAGNOSTICS_SLEEP,
    SP_SERVER_DIAGNOSTICS_BUFFER_ACCESS,
    SP_SERVER_DIAGNOSTICS_INIT_MUTEX,
    SP_SERVER_DIAGNOSTICS_SLEEP,
    SQLCLR_APPDOMAIN,
    SQLCLR_ASSEMBLY,
    SQLCLR_DEADLOCK_DETECTION,
    SQLCLR_QUANTUM_PUNISHMENT,
    SQLSORT_NORMMUTEX,
    SQLSORT_SORTMUTEX,
    SQLTRACE_BUFFER_FLUSH,
    SQLTRACE_FILE_BUFFER,
    SQLTRACE_FILE_READ_IO_COMPLETION,
    SQLTRACE_FILE_WRITE_IO_COMPLETION,
    SQLTRACE_INCREMENTAL_FLUSH_SLEEP,
    SQLTRACE_LOCK,
    SQLTRACE_PENDING_BUFFER_WRITERS,
    SQLTRACE_SHUTDOWN,
    SQLTRACE_WAIT_ENTRIES,
    SRVPROC_SHUTDOWN,
    STARTUP_DEPENDENCY_MANAGER,
    TDS_BANDWIDTH_STATE,
    TDS_INIT,
    TDS_PROXY_CONTAINER,
    TEMPOBJ,
    TEMPORAL_BACKGROUND_PROCEED_CLEANUP,
    TERMINATE_LISTENER,
    THREADPOOL,
    TIMEPRIV_TIMEPERIOD,
    TRACEWRITE,
    TRACE_EVTNOTIF,
    TRANSACTION_MUTEX,
    TRAN_MARKLATCH_DT,
    TRAN_MARKLATCH_EX,
    TRAN_MARKLATCH_KP,
    TRAN_MARKLATCH_NL,
    TRAN_MARKLATCH_SH,
    TRAN_MARKLATCH_UP,
    UCS_ENDPOINT_CHANGE,
    UCS_MANAGER,
    UCS_MEMORY_NOTIFICATION,
    UCS_SESSION_REGISTRATION,
    UCS_TRANSPORT,
    UCS_TRANSPORT_STREAM_CHANGE,
    UTIL_PAGE_ALLOC,
    VDI_CLIENT_COMPLETECOMMAND,
    VDI_CLIENT_GETCOMMAND,
    VDI_CLIENT_OPERATION,
    VDI_CLIENT_OTHER,
    VERSIONING_COMMITTING,
    VIA_ACCEPT,
    VIEW_DEFINITION_MUTEX,
    WAITFOR,
    WAITFOR_PER_QUEUE,
    WAITFOR_TASKSHUTDOWN,
    WAITSTAT_MUTEX,
    WAIT_FOR_RESULTS,
    WAIT_ON_SYNC_STATISTICS_REFRESH,
    WAIT_SCRIPTDEPLOYMENT_REQUEST,
    WAIT_SCRIPTDEPLOYMENT_WORKER,
    WAIT_XLOGREAD_SIGNAL,
    WAIT_XTP_ASYNC_TX_COMPLETION,
    WAIT_XTP_CKPT_AGENT_WAKEUP,
    WAIT_XTP_CKPT_CLOSE,
    WAIT_XTP_CKPT_ENABLED,
    WAIT_XTP_CKPT_STATE_LOCK,
    WAIT_XTP_COMPILE_WAIT,
    WAIT_XTP_GUEST,
    WAIT_XTP_HOST_WAIT,
    WAIT_XTP_OFFLINE_CKPT_BEFORE_REDO,
    WAIT_XTP_OFFLINE_CKPT_LOG_IO,
    WAIT_XTP_OFFLINE_CKPT_NEW_LOG,
    WAIT_XTP_PROCEDURE_ENTRY,
    WAIT_XTP_RECOVERY,
    WAIT_XTP_SERIAL_RECOVERY,
    WAIT_XTP_SWITCH_TO_INACTIVE,
    WAIT_XTP_TASK_SHUTDOWN,
    WAIT_XTP_TRAN_DEPENDENCY,
    WCC,
    WINDOW_AGGREGATES_MULTIPASS,
    WINFAB_API_CALL,
    WINFAB_REPLICA_BUILD_OPERATION,
    WINFAB_REPORT_FAULT,
    WORKTBL_DROP,
    WRITELOG,
    WRITE_COMPLETION,
    XACTLOCKINFO,
    XACTWORKSPACE_MUTEX,
    XACT_OWN_TRANSACTION,
    XACT_RECLAIM_SESSION,
    XDB_CONN_DUP_HASH,
    XDESTSVERMGR,
    XDES_HISTORY,
    XDES_OUT_OF_ORDER_LIST,
    XDES_SNAPSHOT,
    XE_BUFFERMGR_ALLPROCESSED_EVENT,
    XE_BUFFERMGR_FREEBUF_EVENT,
    XE_CALLBACK_LIST,
    XE_CX_FILE_READ,
    XE_DISPATCHER_CONFIG_SESSION_LIST,
    XE_DISPATCHER_JOIN,
    XE_DISPATCHER_WAIT,
    XE_FILE_TARGET_TVF,
    XE_LIVE_TARGET_TVF,
    XE_MODULEMGR_SYNC,
    XE_OLS_LOCK,
    XE_PACKAGE_LOCK_BACKOFF,
    XE_SERVICES_EVENTMANUAL,
    XE_SERVICES_MUTEX,
    XE_SERVICES_RWLOCK,
    XE_SESSION_CREATE_SYNC,
    XE_SESSION_FLUSH,
    XE_SESSION_SYNC,
    XE_STM_CREATE,
    XE_TIMER_EVENT,
    XE_TIMER_MUTEX,
    XE_TIMER_TASK_DONE,
    XIO_CREDENTIAL_MGR_RWLOCK,
    XIO_CREDENTIAL_RWLOCK,
    XIO_EDS_MGR_RWLOCK,
    XIO_EDS_RWLOCK,
    XIO_IOSTATS_BLOBLIST_RWLOCK,
    XIO_IOSTATS_FCBLIST_RWLOCK,
    XIO_LEASE_RENEW_MGR_RWLOCK,
    XTPPROC_CACHE_ACCESS,
    XTPPROC_PARTITIONED_STACK_CREATE,
    XTP_HOST_DB_COLLECTION,
    XTP_HOST_LOG_ACTIVITY,
    XTP_HOST_PARALLEL_RECOVERY,
    XTP_PREEMPTIVE_TASK,
    XTP_TRUNCATION_LSN,
    Unknown(String),
}

/// `w` is one of the wait types in part 0 of the list.
pub open spec fn in_part_0(w: WaitType) -> bool {
    w is ABR
        || w is AM_INDBUILD_ALLOCATION
        || w is AM_SCHEMAMGR_UNSHARED_CACHE
        || w is ASSEMBLY_FILTER_HASHTABLE
        || w is ASSEMBLY_LOAD
        || w is ASYNC_DISKPOOL_LOCK
        || w is ASYNC_IO_COMPLETION
        || w is ASYNC_NETWORK_IO
        || w is ASYNC_OP_COMPLETION
        || w is ASYNC_OP_CONTEXT_READ
        || w is ASYNC_OP_CONTEXT_WRITE
        || w is ASYNC_SOCKETDUP_IO
        || w is AUDIT_GROUPCACHE_LOCK
        || w is AUDIT_LOGINCACHE_LOCK
        || w is AUDIT_ON_DEMAND_TARGET_LOCK
        || w is AUDIT_XE_SESSION_MGR
        || w is BACKUP
        || w is BACKUPBUFFER
        || w is BACKUPIO
        || w is BACKUPTHREAD
        || w is BACKUP_OPERATOR
        || w is BAD_PAGE_PROCESS
        || w is BLOB_METADATA
        || w is BMPALLOCATION
        || w is BMPBUILD
        || w is BMPREPARTITION
        || w is BMPREPLICATION
        || w is BPSORT
        || w is BROKER_CONNECTION_RECEIVE_TASK
        || w is BROKER_DISPATCHER
        || w is BROKER_ENDPOINT_STATE_MUTEX
        || w is BROKER_EVENTHANDLER
        || w is BROKER_FORWARDER
        || w is BROKER_INIT
        || w is BROKER_MASTERSTART
        || w is BROKER_RECEIVE_WAITFOR
        || w is BROKER_REGISTERALLENDPOINTS
        || w is BROKER_SERVICE
        || w is BROKER_SHUTDOWN
        || w is BROKER_START
        || w is BROKER_TASK_SHUTDOWN
        || w is BROKER_TASK_STOP
        || w is BROKER_TASK_SUBMIT
        || w is BROKER_TO_FLUSH
        || w is BROKER_TRANSMISSION_OBJECT
        || w is BROKER_TRANSMISSION_TABLE
        || w is BROKER_TRANSMISSION_WORK
        || w is BROKER_TRANSMITTER
        || w is BUFFERPOOL_SCAN
        || w is BUILTIN_HASHKEY_MUTEX
}

/// The names of the wait types in part 0 of the list.
#[verifier::opaque]
pub open spec fn listed_name_0(w: WaitType) -> Seq<char> {
    match w {
        WaitType::ABR => "ABR"@,
        WaitType::AM_INDBUILD_ALLOCATION => "AM_INDBUILD_ALLOCATION"@,
        WaitType::AM_SCHEMAMGR_UNSHARED_CACHE => "AM_SCHEMAMGR_UNSHARED_CACHE"@,
        WaitType::ASSEMBLY_FILTER_HASHTABLE => "ASSEMBLY_FILTER_HASHTABLE"@,
        WaitType::ASSEMBLY_LOAD => "ASSEMBLY_LOAD"@,
        WaitType::ASYNC_DISKPOOL_LOCK => "ASYNC_DISKPOOL_LOCK"@,
        WaitType::ASYNC_IO_COMPLETION => "ASYNC_IO_COMPLETION"@,
        WaitType::ASYNC_NETWORK_IO => "ASYNC_NETWORK_IO"@,
        WaitType::ASYNC_OP_COMPLETION => "ASYNC_OP_COMPLETION"@,
        WaitType::ASYNC_OP_CONTEXT_READ => "ASYNC_OP_CONTEXT_READ"@,
        WaitType::ASYNC_OP_CONTEXT_WRITE => "ASYNC_OP_CONTEXT_WRITE"@,
        WaitType::ASYNC_SOCKETDUP_IO => "ASYNC_SOCKETDUP_IO"@,
        WaitType::AUDIT_GROUPCACHE_LOCK => "AUDIT_GROUPCACHE_LOCK"@,
        WaitType::AUDIT_LOGINCACHE_LOCK => "AUDIT_LOGINCACHE_LOCK"@,
        WaitType::AUDIT_ON_DEMAND_TARGET_LOCK => "AUDIT_ON_DEMAND_TARGET_LOCK"@,
        WaitType::AUDIT_XE_SESSION_MGR => "AUDIT_XE_SESSION_MGR"@,
        WaitType::BACKUP => "BACKUP"@,
        WaitType::BACKUPBUFFER => "BACKUPBUFFER"@,
        WaitType::BACKUPIO => "BACKUPIO"@,
        WaitType::BACKUPTHREAD => "BACKUPTHREAD"@,
        WaitType::BACKUP_OPERATOR => "BACKUP_OPERATOR"@,
        WaitType::BAD_PAGE_PROCESS => "BAD_PAGE_PROCESS"@,
        WaitType::BLOB_METADATA => "BLOB_METADATA"@,
        WaitType::BMPALLOCATION => "BMPALLOCATION"@,
        WaitType::BMPBUILD => "BMPBUILD"@,
        WaitType::BMPREPARTITION => "BMPREPARTITION"@,
        WaitType::BMPREPLICATION => "BMPREPLICATION"@,
        WaitType::BPSORT => "BPSORT"@,
        WaitType::BROKER_CONNECTION_RECEIVE_TASK => "BROKER_CONNECTION_RECEIVE_TASK"@,
        WaitType::BROKER_DISPATCHER => "BROKER_DISPATCHER"@,
        WaitType::BROKER_ENDPOINT_STATE_MUTEX => "BROKER_ENDPOINT_STATE_MUTEX"@,
        WaitType::BROKER_EVENTHANDLER => "BROKER_EVENTHANDLER"@,
        WaitType::BROKER_FORWARDER => "BROKER_FORWARDER"@,
        WaitType::BROKER_INIT => "BROKER_INIT"@,
        WaitType::BROKER_MASTERSTART => "BROKER_MASTERSTART"@,
        WaitType::BROKER_RECEIVE_WAITFOR => "BROKER_RECEIVE_WAITFOR"@,
        WaitType::BROKER_REGISTERALLENDPOINTS => "BROKER_REGISTERALLENDPOINTS"@,
        WaitType::BROKER_SERVICE => "BROKER_SERVICE"@,
        WaitType::BROKER_SHUTDOWN => "BROKER_SHUTDOWN"@,
        WaitType::BROKER_START => "BROKER_START"@,
        WaitType::BROKER_TASK_SHUTDOWN => "BROKER_TASK_SHUTDOWN"@,
        WaitType::BROKER_TASK_STOP => "BROKER_TASK_STOP"@,
        WaitType::BROKER_TASK_SUBMIT => "BROKER_TASK_SUBMIT"@,
        WaitType::BROKER_TO_FLUSH => "BROKER_TO_FLUSH"@,
        WaitType::BROKER_TRANSMISSION_OBJECT => "BROKER_TRANSMISSION_OBJECT"@,
        WaitType::BROKER_TRANSMISSION_TABLE => "BROKER_TRANSMISSION_TABLE"@,
        WaitType::BROKER_TRANSMISSION_WORK => "BROKER_TRANSMISSION_WORK"@,
        WaitType::BROKER_TRANSMITTER => "BROKER_TRANSMITTER"@,
        WaitType::BUFFERPOOL_SCAN => "BUFFERPOOL_SCAN"@,
        WaitType::BUILTIN_HASHKEY_MUTEX => "BUILTIN_HASHKEY_MUTEX"@,
        _ => seq![],
    }
}

/// `w` is one of the wait types in part 1 of the list.
pub open spec fn in_part_1(w: WaitType) -> bool {
    w is CHANGE_TRACKING_WAITFORCHANGES
        || w is CHECKPOINT_QUEUE
        || w is CHECK_PRINT_RECORD
        || w is CHECK_SCANNER_MUTEX
        || w is CHECK_TABLES_INITIALIZATION
        || w is CHECK_TABLES_SINGLE_SCAN
        || w is CHECK_TABLES_THREAD_BARRIER
        || w is CHKPT
        || w is CLEAR_DB
        || w is CLRHOST_STATE_ACCESS
        || w is CLR_AUTO_EVENT
        || w is CLR_CRST
        || w is CLR_JOIN
        || w is CLR_MANUAL_EVENT
        || w is CLR_MEMORY_SPY
        || w is CLR_MONITOR
        || w is CLR_RWLOCK_READER
        || w is CLR_RWLOCK_WRITER
        || w is CLR_SEMAPHORE
        || w is CLR_TASK_START
        || w is CMEMPARTITIONED
        || w is CMEMTHREAD
        || w is COLUMNSTORE_BUILD_THROTTLE
        || w is COLUMNSTORE_COLUMNDATASET_SESSION_LIST
        || w is COMMIT_TABLE
        || w is CONNECTION_ENDPOINT_LOCK
        || w is COUNTRECOVERYMGR
        || w is CREATE_DATINISERVICE
        || w is CXCONSUMER
        || w is CXPACKET
        || w is CXROWSET_SYNC
        || w is CXSYNC_CONSUMER
        || w is CXSYNC_PORT
        || w is DAC_INIT
        || w is DBCC_SCALE_OUT_EXPR_CACHE
        || w is DBMIRRORING_CMD
        || w is DBMIRROR_DBM_EVENT
        || w is DBMIRROR_DBM_MUTEX
        || w is DBMIRROR_EVENTS_QUEUE
        || w is DBMIRROR_SEND
        || w is DBMIRROR_WORKER_QUEUE
        || w is DBSEEDING_FLOWCONTROL
        || w is DBSEEDING_OPERATION
        || w is DEADLOCK_ENUM_MUTEX
        || w is DEADLOCK_TASK_SEARCH
        || w is DEBUG
        || w is DIRECTLOGCONSUMER_LIST
        || w is DIRTY_PAGE_POLL
        || w is DIRTY_PAGE_SYNC
        || w is DIRTY_PAGE_TABLE_LOCK
}

/// The names of the wait types in part 1 of the list.
#[verifier::opaque]
pub open spec fn listed_name_1(w: WaitType) -> Seq<char> {
    match w {
        WaitType::CHANGE_TRACKING_WAITFORCHANGES => "CHANGE_TRACKING_WAITFORCHANGES"@,
        WaitType::CHECKPOINT_QUEUE => "CHECKPOINT_QUEUE"@,
        WaitType::CHECK_PRINT_RECORD => "CHECK_PRINT_RECORD"@,
        WaitType::CHECK_SCANNER_MUTEX => "CHECK_SCANNER_MUTEX"@,
        WaitType::CHECK_TABLES_INITIALIZATION => "CHECK_TABLES_INITIALIZATION"@,
        WaitType::CHECK_TABLES_SINGLE_SCAN => "CHECK_TABLES_SINGLE_SCAN"@,
        WaitType::CHECK_TABLES_THREAD_BARRIER => "CHECK_TABLES_THREAD_BARRIER"@,
        WaitType::CHKPT => "CHKPT"@,
        WaitType::CLEAR_DB => "CLEAR_DB"@,
        WaitType::CLRHOST_STATE_ACCESS => "CLRHOST_STATE_ACCESS"@,
        WaitType::CLR_AUTO_EVENT => "CLR_AUTO_EVENT"@,
        WaitType::CLR_CRST => "CLR_CRST"@,
        WaitType::CLR_JOIN => "CLR_JOIN"@,
        WaitType::CLR_MANUAL_EVENT => "CLR_MANUAL_EVENT"@,
        WaitType::CLR_MEMORY_SPY => "CLR_MEMORY_SPY"@,
        WaitType::CLR_MONITOR => "CLR_MONITOR"@,
        WaitType::CLR_RWLOCK_READER => "CLR_RWLOCK_READER"@,
        WaitType::CLR_RWLOCK_WRITER => "CLR_RWLOCK_WRITER"@,
        WaitType::CLR_SEMAPHORE => "CLR_SEMAPHORE"@,
        WaitType::CLR_TASK_START => "CLR_TASK_START"@,
        WaitType::CMEMPARTITIONED => "CMEMPARTITIONED"@,
        WaitType::CMEMTHREAD => "CMEMTHREAD"@,
        WaitType::COLUMNSTORE_BUILD_THROTTLE => "COLUMNSTORE_BUILD_THROTTLE"@,
        WaitType::COLUMNSTORE_COLUMNDATASET_SESSION_LIST => "COLUMNSTORE_COLUMNDATASET_SESSION_LIST"@,
        WaitType::COMMIT_TABLE => "COMMIT_TABLE"@,
        WaitType::CONNECTION_ENDPOINT_LOCK => "CONNECTION_ENDPOINT_LOCK"@,
        WaitType::COUNTRECOVERYMGR => "COUNTRECOVERYMGR"@,
        WaitType::CREATE_DATINISERVICE => "CREATE_DATINISERVICE"@,
        WaitType::CXCONSUMER => "CXCONSUMER"@,
        WaitType::CXPACKET => "CXPACKET"@,
        WaitType::CXROWSET_SYNC => "CXROWSET_SYNC"@,
        WaitType::CXSYNC_CONSUMER => "CXSYNC_CONSUMER"@,
        WaitType::CXSYNC_PORT => "CXSYNC_PORT"@,
        WaitType::DAC_INIT => "DAC_INIT"@,
        WaitType::DBCC_SCALE_OUT_EXPR_CACHE => "DBCC_SCALE_OUT_EXPR_CACHE"@,
        WaitType::DBMIRRORING_CMD => "DBMIRRORING_CMD"@,
        WaitType::DBMIRROR_DBM_EVENT => "DBMIRROR_DBM_EVENT"@,
        WaitType::DBMIRROR_DBM_MUTEX => "DBMIRROR_DBM_MUTEX"@,
        WaitType::DBMIRROR_EVENTS_QUEUE => "DBMIRROR_EVENTS_QUEUE"@,
        WaitType::DBMIRROR_SEND => "DBMIRROR_SEND"@,
        WaitType::DBMIRROR_WORKER_QUEUE => "DBMIRROR_WORKER_QUEUE"@,
        WaitType::DBSEEDING_FLOWCONTROL => "DBSEEDING_FLOWCONTROL"@,
        WaitType::DBSEEDING_OPERATION => "DBSEEDING_OPERATION"@,
        WaitType::DEADLOCK_ENUM_MUTEX => "DEADLOCK_ENUM_MUTEX"@,
        WaitType::DEADLOCK_TASK_SEARCH => "DEADLOCK_TASK_SEARCH"@,
        WaitType::DEBUG => "DEBUG"@,
        WaitType::DIRECTLOGCONSUMER_LIST => "DIRECTLOGCONSUMER_LIST"@,
        WaitType::DIRTY_PAGE_POLL => "DIRTY_PAGE_POLL"@,
        WaitType::DIRTY_PAGE_SYNC => "DIRTY_PAGE_SYNC"@,
        WaitType::DIRTY_PAGE_TABLE_LOCK => "DIRTY_PAGE_TABLE_LOCK"@,
        _ => seq![],
    }
}

/// `w` is one of the wait types in part 2 of the list.
pub open spec fn in_part_2(w: WaitType) -> bool {
    w is DISABLE_VERSIONING
        || w is DISKIO_SUSPEND
        || w is DISPATCHER_PRIORITY_QUEUE_SEMAPHORE
        || w is DISPATCHER_QUEUE_SEMAPHORE
        || w is DLL_LOADING_MUTEX
        || w is DPT_ENTRY_LOCK
        || w is DROPTEMP
        || w is DROP_DATABASE_TIMER_TASK
        || w is DTC
        || w is DTCNEW_ENLIST
        || w is DTCNEW_PREPARE
        || w is DTCNEW_RECOVERY
        || w is DTCNEW_TM
        || w is DTCNEW_TRANSACTION_ENLISTMENT
        || w is DTCPNTSYNC
        || w is DTC_ABORT_REQUEST
        || w is DTC_RESOLVE
        || w is DTC_STATE
        || w is DTC_TMDOWN_REQUEST
        || w is DTC_WAITFOR_OUTCOME
        || w is DUMPTRIGGER
        || w is DUMP_LOG_COORDINATOR
        || w is DUMP_LOG_COORDINATOR_QUEUE
        || w is EC
        || w is EE_PMOLOCK
        || w is EE_SPECPROC_MAP_INIT
        || w is ENABLE_EMPTY_VERSIONING
        || w is ENABLE_VERSIONING
        || w is ERROR_REPORTING_MANAGER
        || w is EXCHANGE
        || w is EXECSYNC
        || w is EXECUTION_PIPE_EVENT_INTERNAL
        || w is EXTERNAL_RG_UPDATE
        || w is EXTERNAL_SCRIPT_NETWORK_IO
        || w is EXTERNAL_SCRIPT_PREPARE_SERVICE
        || w is EXTERNAL_SCRIPT_SHUTDOWN
        || w is EXTERNAL_WAIT_ON_LAUNCHER
        || w is FABRIC_HADR_TRANSPORT_CONNECTION
        || w is FABRIC_REPLICA_CONTROLLER_LIST
        || w is FABRIC_REPLICA_CONTROLLER_STATE_AND_CONFIG
        || w is FABRIC_REPLICA_PUBLISHER_EVENT_PUBLISH
        || w is FABRIC_REPLICA_PUBLISHER_SUBSCRIBER_LIST
        || w is FABRIC_WAIT_FOR_BUILD_REPLICA_EVENT_PROCESSING
        || w is FAILPOINT
        || w is FCB_REPLICA_READ
        || w is FCB_REPLICA_WRITE
        || w is FEATURE_SWITCHES_UPDATE
        || w is FFT_NSO_DB_KILL_FLAG
        || w is FFT_NSO_DB_LIST
        || w is FFT_NSO_FCB
}

/// The names of the wait types in part 2 of the list.
#[verifier::opaque]
pub open spec fn listed_name_2(w: WaitType) -> Seq<char> {
    match w {
        WaitType::DISABLE_VERSIONING => "DISABLE_VERSIONING"@,
        WaitType::DISKIO_SUSPEND => "DISKIO_SUSPEND"@,
        WaitType::DISPATCHER_PRIORITY_QUEUE_SEMAPHORE => "DISPATCHER_PRIORITY_QUEUE_SEMAPHORE"@,
        WaitType::DISPATCHER_QUEUE_SEMAPHORE => "DISPATCHER_QUEUE_SEMAPHORE"@,
        WaitType::DLL_LOADING_MUTEX => "DLL_LOADING_MUTEX"@,
        WaitType::DPT_ENTRY_LOCK => "DPT_ENTRY_LOCK"@,
        WaitType::DROPTEMP => "DROPTEMP"@,
        WaitType::DROP_DATABASE_TIMER_TASK => "DROP_DATABASE_TIMER_TASK"@,
        WaitType::DTC => "DTC"@,
        WaitType::DTCNEW_ENLIST => "DTCNEW_ENLIST"@,
        WaitType::DTCNEW_PREPARE => "DTCNEW_PREPARE"@,
        WaitType::DTCNEW_RECOVERY => "DTCNEW_RECOVERY"@,
        WaitType::DTCNEW_TM => "DTCNEW_TM"@,
        WaitType::DTCNEW_TRANSACTION_ENLISTMENT => "DTCNEW_TRANSACTION_ENLISTMENT"@,
        WaitType::DTCPNTSYNC => "DTCPNTSYNC"@,
        WaitType::DTC_ABORT_REQUEST => "DTC_ABORT_REQUEST"@,
        WaitType::DTC_RESOLVE => "DTC_RESOLVE"@,
        WaitType::DTC_STATE => "DTC_STATE"@,
        WaitType::DTC_TMDOWN_REQUEST => "DTC_TMDOWN_REQUEST"@,
        WaitType::DTC_WAITFOR_OUTCOME => "DTC_WAITFOR_OUTCOME"@,
        WaitType::DUMPTRIGGER => "DUMPTRIGGER"@,
        WaitType::DUMP_LOG_COORDINATOR => "DUMP_LOG_COORDINATOR"@,
        WaitType::DUMP_LOG_COORDINATOR_QUEUE => "DUMP_LOG_COORDINATOR_QUEUE"@,
        WaitType::EC => "EC"@,
        WaitType::EE_PMOLOCK => "EE_PMOLOCK"@,
        WaitType::EE_SPECPROC_MAP_INIT => "EE_SPECPROC_MAP_INIT"@,
        WaitType::ENABLE_EMPTY_VERSIONING => "ENABLE_EMPTY_VERSIONING"@,
        WaitType::ENABLE_VERSIONING => "ENABLE_VERSIONING"@,
        WaitType::ERROR_REPORTING_MANAGER => "ERROR_REPORTING_MANAGER"@,
        WaitType::EXCHANGE => "EXCHANGE"@,
        WaitType::EXECSYNC => "EXECSYNC"@,
        WaitType::EXECUTION_PIPE_EVENT_INTERNAL => "EXECUTION_PIPE_EVENT_INTERNAL"@,
        WaitType::EXTERNAL_RG_UPDATE => "EXTERNAL_RG_UPDATE"@,
        WaitType::EXTERNAL_SCRIPT_NETWORK_IO => "EXTERNAL_SCRIPT_NETWORK_IO"@,
        WaitType::EXTERNAL_SCRIPT_PREPARE_SERVICE => "EXTERNAL_SCRIPT_PREPARE_SERVICE"@,
        WaitType::EXTERNAL_SCRIPT_SHUTDOWN => "EXTERNAL_SCRIPT_SHUTDOWN"@,
        WaitType::EXTERNAL_WAIT_ON_LAUNCHER => "EXTERNAL_WAIT_ON_LAUNCHER"@,
        WaitType::FABRIC_HADR_TRANSPORT_CONNECTION => "FABRIC_HADR_TRANSPORT_CONNECTION"@,
        WaitType::FABRIC_REPLICA_CONTROLLER_LIST => "FABRIC_REPLICA_CONTROLLER_LIST"@,
        WaitType::FABRIC_REPLICA_CONTROLLER_STATE_AND_CONFIG => "FABRIC_REPLICA_CONTROLLER_STATE_AND_CONFIG"@,
        WaitType::FABRIC_REPLICA_PUBLISHER_EVENT_PUBLISH => "FABRIC_REPLICA_PUBLISHER_EVENT_PUBLISH"@,
        WaitType::FABRIC_REPLICA_PUBLISHER_SUBSCRIBER_LIST => "FABRIC_REPLICA_PUBLISHER_SUBSCRIBER_LIST"@,
        WaitType::FABRIC_WAIT_FOR_BUILD_REPLICA_EVENT_PROCESSING => "FABRIC_WAIT_FOR_BUILD_REPLICA_EVENT_PROCESSING"@,
        WaitType::FAILPOINT => "FAILPOINT"@,
        WaitType::FCB_REPLICA_READ => "FCB_REPLICA_READ"@,
        WaitType::FCB_REPLICA_WRITE => "FCB_REPLICA_WRITE"@,
        WaitType::FEATURE_SWITCHES_UPDATE => "FEATURE_SWITCHES_UPDATE"@,
        WaitType::FFT_NSO_DB_KILL_FLAG => "FFT_NSO_DB_KILL_FLAG"@,
        WaitType::FFT_NSO_DB_LIST => "FFT_NSO_DB_LIST"@,
        WaitType::FFT_NSO_FCB => "FFT_NSO_FCB"@,
        _ => seq![],
    }
}

/// `w` is one of the wait types in part 3 of the list.
pub open spec fn in_part_3(w: WaitType) -> bool {
    w is FFT_NSO_FCB_FIND
        || w is FFT_NSO_FCB_PARENT
        || w is FFT_NSO_FCB_RELEASE_CACHED_ENTRIES
        || w is FFT_NSO_FCB_STATE
        || w is FFT_NSO_FILEOBJECT
        || w is FFT_NSO_TABLE_LIST
        || w is FFT_NTFS_STORE
        || w is FFT_RECOVERY
        || w is FFT_RSFX_COMM
        || w is FFT_RSFX_WAIT_FOR_MEMORY
        || w is FFT_STARTUP_SHUTDOWN
        || w is FFT_STORE_DB
        || w is FFT_STORE_ROWSET_LIST
        || w is FFT_STORE_TABLE
        || w is FILESTREAM_CACHE
        || w is FILESTREAM_CHUNKER
        || w is FILESTREAM_CHUNKER_INIT
        || w is FILESTREAM_FCB
        || w is FILESTREAM_FILE_OBJECT
        || w is FILESTREAM_WORKITEM_QUEUE
        || w is FILETABLE_SHUTDOWN
        || w is FILE_VALIDATION_THREADS
        || w is FOREIGN_REDO
        || w is FORWARDER_TRANSITION
        || w is FSAGENT
        || w is FSA_FORCE_OWN_XACT
        || w is FSTR_CONFIG_MUTEX
        || w is FSTR_CONFIG_RWLOCK
        || w is FS_FC_RWLOCK
        || w is FS_GARBAGE_COLLECTOR_SHUTDOWN
        || w is FS_HEADER_RWLOCK
        || w is FS_LOGTRUNC_RWLOCK
        || w is FT_COMPROWSET_RWLOCK
        || w is FT_IFTSHC_MUTEX
        || w is FT_IFTSISM_MUTEX
        || w is FT_IFTS_ASYNC_WRITE_PIPE
        || w is FT_IFTS_BLOB_HASH
        || w is FT_IFTS_CATEALOG_SOURCE
        || w is FT_IFTS_CHUNK_BUFFER_CLIENT_MANAGER
        || w is FT_IFTS_CHUNK_BUFFER_PROTO_WORD_LIST
        || w is FT_IFTS_COMP_DESC_MANAGER
        || w is FT_IFTS_CONSUMER_PLUGIN
        || w is FT_IFTS_CRAWL_BATCH_LIST
        || w is FT_IFTS_CRAWL_CHILDREN
        || w is FT_IFTS_DOCID_INTERFACE_LIST
        || w is FT_IFTS_DOCID_LIST
        || w is FT_IFTS_FP_INFO_LIST
        || w is FT_IFTS_HOST_CONTROLLER
        || w is FT_IFTS_MASTER_MERGE_TASK_LIST
        || w is FT_IFTS_MEMREGPOOL
}

/// The names of the wait types in part 3 of the list.
#[verifier::opaque]
pub open spec fn listed_name_3(w: WaitType) -> Seq<char> {
    match w {
        WaitType::FFT_NSO_FCB_FIND => "FFT_NSO_FCB_FIND"@,
        WaitType::FFT_NSO_FCB_PARENT => "FFT_NSO_FCB_PARENT"@,
        WaitType::FFT_NSO_FCB_RELEASE_CACHED_ENTRIES => "FFT_NSO_FCB_RELEASE_CACHED_ENTRIES"@,
        WaitType::FFT_NSO_FCB_STATE => "FFT_NSO_FCB_STATE"@,
        WaitType::FFT_NSO_FILEOBJECT => "FFT_NSO_FILEOBJECT"@,
        WaitType::FFT_NSO_TABLE_LIST => "FFT_NSO_TABLE_LIST"@,
        WaitType::FFT_NTFS_STORE => "FFT_NTFS_STORE"@,
        WaitType::FFT_RECOVERY => "FFT_RECOVERY"@,
        WaitType::FFT_RSFX_COMM => "FFT_RSFX_COMM"@,
        WaitType::FFT_RSFX_WAIT_FOR_MEMORY => "FFT_RSFX_WAIT_FOR_MEMORY"@,
        WaitType::FFT_STARTUP_SHUTDOWN => "FFT_STARTUP_SHUTDOWN"@,
        WaitType::FFT_STORE_DB => "FFT_STORE_DB"@,
        WaitType::FFT_STORE_ROWSET_LIST => "FFT_STORE_ROWSET_LIST"@,
        WaitType::FFT_STORE_TABLE => "FFT_STORE_TABLE"@,
        WaitType::FILESTREAM_CACHE => "FILESTREAM_CACHE"@,
        WaitType::FILESTREAM_CHUNKER => "FILESTREAM_CHUNKER"@,
        WaitType::FILESTREAM_CHUNKER_INIT => "FILESTREAM_CHUNKER_INIT"@,
        WaitType::FILESTREAM_FCB => "FILESTREAM_FCB"@,
        WaitType::FILESTREAM_FILE_OBJECT => "FILESTREAM_FILE_OBJECT"@,
        WaitType::FILESTREAM_WORKITEM_QUEUE => "FILESTREAM_WORKITEM_QUEUE"@,
        WaitType::FILETABLE_SHUTDOWN => "FILETABLE_SHUTDOWN"@,
        WaitType::FILE_VALIDATION_THREADS => "FILE_VALIDATION_THREADS"@,
        WaitType::FOREIGN_REDO => "FOREIGN_REDO"@,
        WaitType::FORWARDER_TRANSITION => "FORWARDER_TRANSITION"@,
        WaitType::FSAGENT => "FSAGENT"@,
        WaitType::FSA_FORCE_OWN_XACT => "FSA_FORCE_OWN_XACT"@,
        WaitType::FSTR_CONFIG_MUTEX => "FSTR_CONFIG_MUTEX"@,
        WaitType::FSTR_CONFIG_RWLOCK => "FSTR_CONFIG_RWLOCK"@,
        WaitType::FS_FC_RWLOCK => "FS_FC_RWLOCK"@,
        WaitType::FS_GARBAGE_COLLECTOR_SHUTDOWN => "FS_GARBAGE_COLLECTOR_SHUTDOWN"@,
        WaitType::FS_HEADER_RWLOCK => "FS_HEADER_RWLOCK"@,
        WaitType::FS_LOGTRUNC_RWLOCK => "FS_LOGTRUNC_RWLOCK"@,
        WaitType::FT_COMPROWSET_RWLOCK => "FT_COMPROWSET_RWLOCK"@,
        WaitType::FT_IFTSHC_MUTEX => "FT_IFTSHC_MUTEX"@,
        WaitType::FT_IFTSISM_MUTEX => "FT_IFTSISM_MUTEX"@,
        WaitType::FT_IFTS_ASYNC_WRITE_PIPE => "FT_IFTS_ASYNC_WRITE_PIPE"@,
        WaitType::FT_IFTS_BLOB_HASH => "FT_IFTS_BLOB_HASH"@,
        WaitType::FT_IFTS_CATEALOG_SOURCE => "FT_IFTS_CATEALOG_SOURCE"@,
        WaitType::FT_IFTS_CHUNK_BUFFER_CLIENT_MANAGER => "FT_IFTS_CHUNK_BUFFER_CLIENT_MANAGER"@,
        WaitType::FT_IFTS_CHUNK_BUFFER_PROTO_WORD_LIST => "FT_IFTS_CHUNK_BUFFER_PROTO_WORD_LIST"@,
        WaitType::FT_IFTS_COMP_DESC_MANAGER => "FT_IFTS_COMP_DESC_MANAGER"@,
        WaitType::FT_IFTS_CONSUMER_PLUGIN => "FT_IFTS_CONSUMER_PLUGIN"@,
        WaitType::FT_IFTS_CRAWL_BATCH_LIST => "FT_IFTS_CRAWL_BATCH_LIST"@,
        WaitType::FT_IFTS_CRAWL_CHILDREN => "FT_IFTS_CRAWL_CHILDREN"@,
        WaitType::FT_IFTS_DOCID_INTERFACE_LIST => "FT_IFTS_DOCID_INTERFACE_LIST"@,
        WaitType::FT_IFTS_DOCID_LIST => "FT_IFTS_DOCID_LIST"@,
        WaitType::FT_IFTS_FP_INFO_LIST => "FT_IFTS_FP_INFO_LIST"@,
        WaitType::FT_IFTS_HOST_CONTROLLER => "FT_IFTS_HOST_CONTROLLER"@,
        WaitType::FT_IFTS_MASTER_MERGE_TASK_LIST => "FT_IFTS_MASTER_MERGE_TASK_LIST"@,
        WaitType::FT_IFTS_MEMREGPOOL => "FT_IFTS_MEMREGPOOL"@,
        _ => seq![],
    }
}

/// `w` is one of the wait types in part 4 of the list.
pub open spec fn in_part_4(w: WaitType) -> bool {
    w is FT_IFTS_MERGE_FRAGMENT_SYNC
        || w is FT_IFTS_NOISE_WORDS_COLLECTION_CACHE
        || w is FT_IFTS_NOISE_WORDS_RESOURCE
        || w is FT_IFTS_OCCURRENCE_BUFFER_POOL
        || w is FT_IFTS_PIPELINE
        || w is FT_IFTS_PIPELINE_LIST
        || w is FT_IFTS_PIPELINE_MANAGER
        || w is FT_IFTS_PROJECT_FD_INFO_MAP
        || w is FT_IFTS_RWLOCK
        || w is FT_IFTS_SCHEDULER
        || w is FT_IFTS_SCHEDULER_IDLE_WAIT
        || w is FT_IFTS_SHARED_MEMORY
        || w is FT_IFTS_SHUTDOWN_PIPE
        || w is FT_IFTS_SRCH_FD_MANAGER
        || w is FT_IFTS_SRCH_FD_SERVICE
        || w is FT_IFTS_STOPLIST_CACHE_MANAGER
        || w is FT_IFTS_THESAURUS
        || w is FT_IFTS_VERSION_MANAGER
        || w is FT_IFTS_WORK_QUEUE
        || w is FT_MASTER_MERGE
        || w is FT_MASTER_MERGE_COORDINATOR
        || w is FT_METADATA_MUTEX
        || w is FT_PROPERTYLIST_CACHE
        || w is FT_RESTART_CRAWL
        || w is FULLTEXT_GATHERER
        || w is GDMA_GET_RESOURCE_OWNER
        || w is GHOSTCLEANUPSYNCMGR
        || w is GHOSTCLEANUP_UPDATE_STATS
        || w is GLOBAL_QUERY_CANCEL
        || w is GLOBAL_QUERY_CLOSE
        || w is GLOBAL_QUERY_CONSUMER
        || w is GLOBAL_QUERY_PRODUCER
        || w is GLOBAL_TRAN_CREATE
        || w is GLOBAL_TRAN_UCS_SESSION
        || w is GUARDIAN
        || w is HADR_AG_MUTEX
        || w is HADR_ARCONTROLLER_NOTIFICATIONS_SUBSCRIBER_LIST
        || w is HADR_AR_CRITICAL_SECTION_ENTRY
        || w is HADR_AR_MANAGER_MUTEX
        || w is HADR_AR_UNLOAD_COMPLETED
        || w is HADR_BACKUP_BULK_LOCK
        || w is HADR_BACKUP_QUEUE
        || w is HADR_CLUSAPI_CALL
        || w is HADR_COMPRESSED_CACHE_SYNC
        || w is HADR_CONNECTIVITY_INFO
        || w is HADR_DATABASE_FLOW_CONTROL
        || w is HADR_DATABASE_VERSIONING_STATE
        || w is HADR_DATABASE_WAIT_FOR_RECOVERY
        || w is HADR_DATABASE_WAIT_FOR_RESTART
        || w is HADR_DATABASE_WAIT_FOR_TRANSITION_TO_VERSIONING
}

/// The names of the wait types in part 4 of the list.
#[verifier::opaque]
pub open spec fn listed_name_4(w: WaitType) -> Seq<char> {
    match w {
        WaitType::FT_IFTS_MERGE_FRAGMENT_SYNC => "FT_IFTS_MERGE_FRAGMENT_SYNC"@,
        WaitType::FT_IFTS_NOISE_WORDS_COLLECTION_CACHE => "FT_IFTS_NOISE_WORDS_COLLECTION_CACHE"@,
        WaitType::FT_IFTS_NOISE_WORDS_RESOURCE => "FT_IFTS_NOISE_WORDS_RESOURCE"@,
        WaitType::FT_IFTS_OCCURRENCE_BUFFER_POOL => "FT_IFTS_OCCURRENCE_BUFFER_POOL"@,
        WaitType::FT_IFTS_PIPELINE => "FT_IFTS_PIPELINE"@,
        WaitType::FT_IFTS_PIPELINE_LIST => "FT_IFTS_PIPELINE_LIST"@,
        WaitType::FT_IFTS_PIPELINE_MANAGER => "FT_IFTS_PIPELINE_MANAGER"@,
        WaitType::FT_IFTS_PROJECT_FD_INFO_MAP => "FT_IFTS_PROJECT_FD_INFO_MAP"@,
        WaitType::FT_IFTS_RWLOCK => "FT_IFTS_RWLOCK"@,
        WaitType::FT_IFTS_SCHEDULER => "FT_IFTS_SCHEDULER"@,
        WaitType::FT_IFTS_SCHEDULER_IDLE_WAIT => "FT_IFTS_SCHEDULER_IDLE_WAIT"@,
        WaitType::FT_IFTS_SHARED_MEMORY => "FT_IFTS_SHARED_MEMORY"@,
        WaitType::FT_IFTS_SHUTDOWN_PIPE => "FT_IFTS_SHUTDOWN_PIPE"@,
        WaitType::FT_IFTS_SRCH_FD_MANAGER => "FT_IFTS_SRCH_FD_MANAGER"@,
        WaitType::FT_IFTS_SRCH_FD_SERVICE => "FT_IFTS_SRCH_FD_SERVICE"@,
        WaitType::FT_IFTS_STOPLIST_CACHE_MANAGER => "FT_IFTS_STOPLIST_CACHE_MANAGER"@,
        WaitType::FT_IFTS_THESAURUS => "FT_IFTS_THESAURUS"@,
        WaitType::FT_IFTS_VERSION_MANAGER => "FT_IFTS_VERSION_MANAGER"@,
        WaitType::FT_IFTS_WORK_QUEUE => "FT_IFTS_WORK_QUEUE"@,
        WaitType::FT_MASTER_MERGE => "FT_MASTER_MERGE"@,
        WaitType::FT_MASTER_MERGE_COORDINATOR => "FT_MASTER_MERGE_COORDINATOR"@,
        WaitType::FT_METADATA_MUTEX => "FT_METADATA_MUTEX"@,
        WaitType::FT_PROPERTYLIST_CACHE => "FT_PROPERTYLIST_CACHE"@,
        WaitType::FT_RESTART_CRAWL => "FT_RESTART_CRAWL"@,
        WaitType::FULLTEXT_GATHERER => "FULLTEXT GATHERER"@,
        WaitType::GDMA_GET_RESOURCE_OWNER => "GDMA_GET_RESOURCE_OWNER"@,
        WaitType::GHOSTCLEANUPSYNCMGR => "GHOSTCLEANUPSYNCMGR"@,
        WaitType::GHOSTCLEANUP_UPDATE_STATS => "GHOSTCLEANUP_UPDATE_STATS"@,
        WaitType::GLOBAL_QUERY_CANCEL => "GLOBAL_QUERY_CANCEL"@,
        WaitType::GLOBAL_QUERY_CLOSE => "GLOBAL_QUERY_CLOSE"@,
        WaitType::GLOBAL_QUERY_CONSUMER => "GLOBAL_QUERY_CONSUMER"@,
        WaitType::GLOBAL_QUERY_PRODUCER => "GLOBAL_QUERY_PRODUCER"@,
        WaitType::GLOBAL_TRAN_CREATE => "GLOBAL_TRAN_CREATE"@,
        WaitType::GLOBAL_TRAN_UCS_SESSION => "GLOBAL_TRAN_UCS_SESSION"@,
        WaitType::GUARDIAN => "GUARDIAN"@,
        WaitType::HADR_AG_MUTEX => "HADR_AG_MUTEX"@,
        WaitType::HADR_ARCONTROLLER_NOTIFICATIONS_SUBSCRIBER_LIST => "HADR_ARCONTROLLER_NOTIFICATIONS_SUBSCRIBER_LIST"@,
        WaitType::HADR_AR_CRITICAL_SECTION_ENTRY => "HADR_AR_CRITICAL_SECTION_ENTRY"@,
        WaitType::HADR_AR_MANAGER_MUTEX => "HADR_AR_MANAGER_MUTEX"@,
        WaitType::HADR_AR_UNLOAD_COMPLETED => "HADR_AR_UNLOAD_COMPLETED"@,
        WaitType::HADR_BACKUP_BULK_LOCK => "HADR_BACKUP_BULK_LOCK"@,
        WaitType::HADR_BACKUP_QUEUE => "HADR_BACKUP_QUEUE"@,
        WaitType::HADR_CLUSAPI_CALL => "HADR_CLUSAPI_CALL"@,
        WaitType::HADR_COMPRESSED_CACHE_SYNC => "HADR_COMPRESSED_CACHE_SYNC"@,
        WaitType::HADR_CONNECTIVITY_INFO => "HADR_CONNECTIVITY_INFO"@,
        WaitType::HADR_DATABASE_FLOW_CONTROL => "HADR_DATABASE_FLOW_CONTROL"@,
        WaitType::HADR_DATABASE_VERSIONING_STATE => "HADR_DATABASE_VERSIONING_STATE"@,
        WaitType::HADR_DATABASE_WAIT_FOR_RECOVERY => "HADR_DATABASE_WAIT_FOR_RECOVERY"@,
        WaitType::HADR_DATABASE_WAIT_FOR_RESTART => "HADR_DATABASE_WAIT_FOR_RESTART"@,
        WaitType::HADR_DATABASE_WAIT_FOR_TRANSITION_TO_VERSIONING => "HADR_DATABASE_WAIT_FOR_TRANSITION_TO_VERSIONING"@,
        _ => seq![],
    }
}

/// `w` is one of the wait types in part 5 of the list.
pub open spec fn in_part_5(w: WaitType) -> bool {
    w is HADR_DBR_SUBSCRIBER
        || w is HADR_DBR_SUBSCRIBER_FILTER_LIST
        || w is HADR_DBSEEDING
        || w is HADR_DBSEEDING_LIST
        || w is HADR_DBSTATECHANGE_SYNC
        || w is HADR_DB_COMMAND
        || w is HADR_DB_OP_COMPLETION_SYNC
        || w is HADR_DB_OP_START_SYNC
        || w is HADR_FABRIC_CALLBACK
        || w is HADR_FILESTREAM_BLOCK_FLUSH
        || w is HADR_FILESTREAM_FILE_CLOSE
        || w is HADR_FILESTREAM_FILE_REQUEST
        || w is HADR_FILESTREAM_IOMGR
        || w is HADR_FILESTREAM_IOMGR_IOCOMPLETION
        || w is HADR_FILESTREAM_MANAGER
        || w is HADR_FILESTREAM_PREPROC
        || w is HADR_GROUP_COMMIT
        || w is HADR_LOGCAPTURE_SYNC
        || w is HADR_LOGCAPTURE_WAIT
        || w is HADR_LOGPROGRESS_SYNC
        || w is HADR_NOTIFICATION_DEQUEUE
        || w is HADR_NOTIFICATION_WORKER_EXCLUSIVE_ACCESS
        || w is HADR_NOTIFICATION_WORKER_STARTUP_SYNC
        || w is HADR_NOTIFICATION_WORKER_TERMINATION_SYNC
        || w is HADR_PARTNER_SYNC
        || w is HADR_READ_ALL_NETWORKS
        || w is HADR_RECOVERY_WAIT_FOR_CONNECTION
        || w is HADR_RECOVERY_WAIT_FOR_UNDO
        || w is HADR_REPLICAINFO_SYNC
        || w is HADR_SEEDING_CANCELLATION
        || w is HADR_SEEDING_FILE_LIST
        || w is HADR_SEEDING_LIMIT_BACKUPS
        || w is HADR_SEEDING_SYNC_COMPLETION
        || w is HADR_SEEDING_TIMEOUT_TASK
        || w is HADR_SEEDING_WAIT_FOR_COMPLETION
        || w is HADR_SYNCHRONIZING_THROTTLE
        || w is HADR_SYNC_COMMIT
        || w is HADR_TDS_LISTENER_SYNC
        || w is HADR_TDS_LISTENER_SYNC_PROCESSING
        || w is HADR_THROTTLE_LOG_RATE_GOVERNOR
        || w is HADR_THROTTLE_LOG_RATE_LOG_SIZE
        || w is HADR_THROTTLE_LOG_RATE_MISMATCHED_SLO
        || w is HADR_THROTTLE_LOG_RATE_SEEDING
        || w is HADR_THROTTLE_LOG_RATE_SEND_RECV_QUEUE_SIZE
        || w is HADR_TIMER_TASK
        || w is HADR_TRANSPORT_DBRLIST
        || w is HADR_TRANSPORT_FLOW_CONTROL
        || w is HADR_TRANSPORT_SESSION
        || w is HADR_WORK_POOL
        || w is HADR_WORK_QUEUE
}

/// The names of the wait types in part 5 of the list.
#[verifier::opaque]
pub open spec fn listed_name_5(w: WaitType) -> Seq<char> {
    match w {
        WaitType::HADR_DBR_SUBSCRIBER => "HADR_DBR_SUBSCRIBER"@,
        WaitType::HADR_DBR_SUBSCRIBER_FILTER_LIST => "HADR_DBR_SUBSCRIBER_FILTER_LIST"@,
        WaitType::HADR_DBSEEDING => "HADR_DBSEEDING"@,
        WaitType::HADR_DBSEEDING_LIST => "HADR_DBSEEDING_LIST"@,
        WaitType::HADR_DBSTATECHANGE_SYNC => "HADR_DBSTATECHANGE_SYNC"@,
        WaitType::HADR_DB_COMMAND => "HADR_DB_COMMAND"@,
        WaitType::HADR_DB_OP_COMPLETION_SYNC => "HADR_DB_OP_COMPLETION_SYNC"@,
        WaitType::HADR_DB_OP_START_SYNC => "HADR_DB_OP_START_SYNC"@,
        WaitType::HADR_FABRIC_CALLBACK => "HADR_FABRIC_CALLBACK"@,
        WaitType::HADR_FILESTREAM_BLOCK_FLUSH => "HADR_FILESTREAM_BLOCK_FLUSH"@,
        WaitType::HADR_FILESTREAM_FILE_CLOSE => "HADR_FILESTREAM_FILE_CLOSE"@,
        WaitType::HADR_FILESTREAM_FILE_REQUEST => "HADR_FILESTREAM_FILE_REQUEST"@,
        WaitType::HADR_FILESTREAM_IOMGR => "HADR_FILESTREAM_IOMGR"@,
        WaitType::HADR_FILESTREAM_IOMGR_IOCOMPLETION => "HADR_FILESTREAM_IOMGR_IOCOMPLETION"@,
        WaitType::HADR_FILESTREAM_MANAGER => "HADR_FILESTREAM_MANAGER"@,
        WaitType::HADR_FILESTREAM_PREPROC => "HADR_FILESTREAM_PREPROC"@,
        WaitType::HADR_GROUP_COMMIT => "HADR_GROUP_COMMIT"@,
        WaitType::HADR_LOGCAPTURE_SYNC => "HADR_LOGCAPTURE_SYNC"@,
        WaitType::HADR_LOGCAPTURE_WAIT => "HADR_LOGCAPTURE_WAIT"@,
        WaitType::HADR_LOGPROGRESS_SYNC => "HADR_LOGPROGRESS_SYNC"@,
        WaitType::HADR_NOTIFICATION_DEQUEUE => "HADR_NOTIFICATION_DEQUEUE"@,
        WaitType::HADR_NOTIFICATION_WORKER_EXCLUSIVE_ACCESS => "HADR_NOTIFICATION_WORKER_EXCLUSIVE_ACCESS"@,
        WaitType::HADR_NOTIFICATION_WORKER_STARTUP_SYNC => "HADR_NOTIFICATION_WORKER_STARTUP_SYNC"@,
        WaitType::HADR_NOTIFICATION_WORKER_TERMINATION_SYNC => "HADR_NOTIFICATION_WORKER_TERMINATION_SYNC"@,
        WaitType::HADR_PARTNER_SYNC => "HADR_PARTNER_SYNC"@,
        WaitType::HADR_READ_ALL_NETWORKS => "HADR_READ_ALL_NETWORKS"@,
        WaitType::HADR_RECOVERY_WAIT_FOR_CONNECTION => "HADR_RECOVERY_WAIT_FOR_CONNECTION"@,
        WaitType::HADR_RECOVERY_WAIT_FOR_UNDO => "HADR_RECOVERY_WAIT_FOR_UNDO"@,
        WaitType::HADR_REPLICAINFO_SYNC => "HADR_REPLICAINFO_SYNC"@,
        WaitType::HADR_SEEDING_CANCELLATION => "HADR_SEEDING_CANCELLATION"@,
        WaitType::HADR_SEEDING_FILE_LIST => "HADR_SEEDING_FILE_LIST"@,
        WaitType::HADR_SEEDING_LIMIT_BACKUPS => "HADR_SEEDING_LIMIT_BACKUPS"@,
        WaitType::HADR_SEEDING_SYNC_COMPLETION => "HADR_SEEDING_SYNC_COMPLETION"@,
        WaitType::HADR_SEEDING_TIMEOUT_TASK => "HADR_SEEDING_TIMEOUT_TASK"@,
        WaitType::HADR_SEEDING_WAIT_FOR_COMPLETION => "HADR_SEEDING_WAIT_FOR_COMPLETION"@,
        WaitType::HADR_SYNCHRONIZING_THROTTLE => "HADR_SYNCHRONIZING_THROTTLE"@,
        WaitType::HADR_SYNC_COMMIT => "HADR_SYNC_COMMIT"@,
        WaitType::HADR_TDS_LISTENER_SYNC => "HADR_TDS_LISTENER_SYNC"@,
        WaitType::HADR_TDS_LISTENER_SYNC_PROCESSING => "HADR_TDS_LISTENER_SYNC_PROCESSING"@,
        WaitType::HADR_THROTTLE_LOG_RATE_GOVERNOR => "HADR_THROTTLE_LOG_RATE_GOVERNOR"@,
        WaitType::HADR_THROTTLE_LOG_RATE_LOG_SIZE => "HADR_THROTTLE_LOG_RATE_LOG_SIZE"@,
        WaitType::HADR_THROTTLE_LOG_RATE_MISMATCHED_SLO => "HADR_THROTTLE_LOG_RATE_MISMATCHED_SLO"@,
        WaitType::HADR_THROTTLE_LOG_RATE_SEEDING => "HADR_THROTTLE_LOG_RATE_SEEDING"@,
        WaitType::HADR_THROTTLE_LOG_RATE_SEND_RECV_QUEUE_SIZE => "HADR_THROTTLE_LOG_RATE_SEND_RECV_QUEUE_SIZE"@,
        WaitType::HADR_TIMER_TASK => "HADR_TIMER_TASK"@,
        WaitType::HADR_TRANSPORT_DBRLIST => "HADR_TRANSPORT_DBRLIST"@,
        WaitType::HADR_TRANSPORT_FLOW_CONTROL => "HADR_TRANSPORT_FLOW_CONTROL"@,
        WaitType::HADR_TRANSPORT_SESSION => "HADR_TRANSPORT_SESSION"@,
        WaitType::HADR_WORK_POOL => "HADR_WORK_POOL"@,
        WaitType::HADR_WORK_QUEUE => "HADR_WORK_QUEUE"@,
        _ => seq![],
    }
}

/// `w` is one of the wait types in part 6 of the list.
pub open spec fn in_part_6(w: WaitType) -> bool {
    w is HADR_XRF_STACK_ACCESS
        || w is HCCO_CACHE
        || w is HKCS_PARALLEL_MIGRATION
        || w is HKCS_PARALLEL_RECOVERY
        || w is HK_RESTORE_FILEMAP
        || w is HTBUILD
        || w is HTBUILD_AGG
        || w is HTBUILD_JOIN
        || w is HTDELETE
        || w is HTDELETE_AGG
        || w is HTDELETE_JOIN
        || w is HTMEMO
        || w is HTREINIT
        || w is HTREPARTITION
        || w is HTTP_ENUMERATION
        || w is HTTP_START
        || w is HTTP_STORAGE_CONNECTION
        || w is IMPPROV_IOWAIT
        || w is INSTANCE_LOG_RATE_GOVERNOR
        || w is INTERNAL_TESTING
        || w is IOAFF_RANGE_QUEUE
        || w is IO_AUDIT_MUTEX
        || w is IO_COMPLETION
        || w is IO_QUEUE_LIMIT
        || w is IO_RETRY
        || w is KSOURCE_WAKEUP
        || w is KTM_ENLISTMENT
        || w is KTM_RECOVERY_MANAGER
        || w is KTM_RECOVERY_RESOLUTION
        || w is LATCH_DT
        || w is LATCH_EX
        || w is LATCH_KP
        || w is LATCH_NL
        || w is LATCH_SH
        || w is LATCH_UP
        || w is LAZYWRITER_SLEEP
        || w is LCK_M_BU
        || w is LCK_M_BU_ABORT_BLOCKERS
        || w is LCK_M_BU_LOW_PRIORITY
        || w is LCK_M_IS
        || w is LCK_M_IS_ABORT_BLOCKERS
        || w is LCK_M_IS_LOW_PRIORITY
        || w is LCK_M_IU
        || w is LCK_M_IU_ABORT_BLOCKERS
        || w is LCK_M_IU_LOW_PRIORITY
        || w is LCK_M_IX
        || w is LCK_M_IX_ABORT_BLOCKERS
        || w is LCK_M_IX_LOW_PRIORITY
        || w is LCK_M_RIn_NL
        || w is LCK_M_RIn_NL_ABORT_BLOCKERS
}

/// The names of the wait types in part 6 of the list.
#[verifier::opaque]
pub open spec fn listed_name_6(w: WaitType) -> Seq<char> {
    match w {
        WaitType::HADR_XRF_STACK_ACCESS => "HADR_XRF_STACK_ACCESS"@,
        WaitType::HCCO_CACHE => "HCCO_CACHE"@,
        WaitType::HKCS_PARALLEL_MIGRATION => "HKCS_PARALLEL_MIGRATION"@,
        WaitType::HKCS_PARALLEL_RECOVERY => "HKCS_PARALLEL_RECOVERY"@,
        WaitType::HK_RESTORE_FILEMAP => "HK_RESTORE_FILEMAP"@,
        WaitType::HTBUILD => "HTBUILD"@,
        WaitType::HTBUILD_AGG => "HTBUILD_AGG"@,
        WaitType::HTBUILD_JOIN => "HTBUILD_JOIN"@,
        WaitType::HTDELETE => "HTDELETE"@,
        WaitType::HTDELETE_AGG => "HTDELETE_AGG"@,
        WaitType::HTDELETE_JOIN => "HTDELETE_JOIN"@,
        WaitType::HTMEMO => "HTMEMO"@,
        WaitType::HTREINIT => "HTREINIT"@,
        WaitType::HTREPARTITION => "HTREPARTITION"@,
        WaitType::HTTP_ENUMERATION => "HTTP_ENUMERATION"@,
        WaitType::HTTP_START => "HTTP_START"@,
        WaitType::HTTP_STORAGE_CONNECTION => "HTTP_STORAGE_CONNECTION"@,
        WaitType::IMPPROV_IOWAIT => "IMPPROV_IOWAIT"@,
        WaitType::INSTANCE_LOG_RATE_GOVERNOR => "INSTANCE_LOG_RATE_GOVERNOR"@,
        WaitType::INTERNAL_TESTING => "INTERNAL_TESTING"@,
        WaitType::IOAFF_RANGE_QUEUE => "IOAFF_RANGE_QUEUE"@,
        WaitType::IO_AUDIT_MUTEX => "IO_AUDIT_MUTEX"@,
        WaitType::IO_COMPLETION => "IO_COMPLETION"@,
        WaitType::IO_QUEUE_LIMIT => "IO_QUEUE_LIMIT"@,
        WaitType::IO_RETRY => "IO_RETRY"@,
        WaitType::KSOURCE_WAKEUP => "KSOURCE_WAKEUP"@,
        WaitType::KTM_ENLISTMENT => "KTM_ENLISTMENT"@,
        WaitType::KTM_RECOVERY_MANAGER => "KTM_RECOVERY_MANAGER"@,
        WaitType::KTM_RECOVERY_RESOLUTION => "KTM_RECOVERY_RESOLUTION"@,
        WaitType::LATCH_DT => "LATCH_DT"@,
        WaitType::LATCH_EX => "LATCH_EX"@,
        WaitType::LATCH_KP => "LATCH_KP"@,
        WaitType::LATCH_NL => "LATCH_NL"@,
        WaitType::LATCH_SH => "LATCH_SH"@,
        WaitType::LATCH_UP => "LATCH_UP"@,
        WaitType::LAZYWRITER_SLEEP => "LAZYWRITER_SLEEP"@,
        WaitType::LCK_M_BU => "LCK_M_BU"@,
        WaitType::LCK_M_BU_ABORT_BLOCKERS => "LCK_M_BU_ABORT_BLOCKERS"@,
        WaitType::LCK_M_BU_LOW_PRIORITY => "LCK_M_BU_LOW_PRIORITY"@,
        WaitType::LCK_M_IS => "LCK_M_IS"@,
        WaitType::LCK_M_IS_ABORT_BLOCKERS => "LCK_M_IS_ABORT_BLOCKERS"@,
        WaitType::LCK_M_IS_LOW_PRIORITY => "LCK_M_IS_LOW_PRIORITY"@,
        WaitType::LCK_M_IU => "LCK_M_IU"@,
        WaitType::LCK_M_IU_ABORT_BLOCKERS => "LCK_M_IU_ABORT_BLOCKERS"@,
        WaitType::LCK_M_IU_LOW_PRIORITY => "LCK_M_IU_LOW_PRIORITY"@,
        WaitType::LCK_M_IX => "LCK_M_IX"@,
        WaitType::LCK_M_IX_ABORT_BLOCKERS => "LCK_M_IX_ABORT_BLOCKERS"@,
        WaitType::LCK_M_IX_LOW_PRIORITY => "LCK_M_IX_LOW_PRIORITY"@,
        WaitType::LCK_M_RIn_NL => "LCK_M_RIn_NL"@,
        WaitType::LCK_M_RIn_NL_ABORT_BLOCKERS => "LCK_M_RIn_NL_ABORT_BLOCKERS"@,
        _ => seq![],
    }
}

/// `w` is one of the wait types in part 7 of the list.
pub open spec fn in_part_7(w: WaitType) -> bool {
    w is LCK_M_RIn_NL_LOW_PRIORITY
        || w is LCK_M_RIn_S
        || w is LCK_M_RIn_S_ABORT_BLOCKERS
        || w is LCK_M_RIn_S_LOW_PRIORITY
        || w is LCK_M_RIn_U
        || w is LCK_M_RIn_U_ABORT_BLOCKERS
        || w is LCK_M_RIn_U_LOW_PRIORITY
        || w is LCK_M_RIn_X
        || w is LCK_M_RIn_X_ABORT_BLOCKERS
        || w is LCK_M_RIn_X_LOW_PRIORITY
        || w is LCK_M_RS_S
        || w is LCK_M_RS_S_ABORT_BLOCKERS
        || w is LCK_M_RS_S_LOW_PRIORITY
        || w is LCK_M_RS_U
        || w is LCK_M_RS_U_ABORT_BLOCKERS
        || w is LCK_M_RS_U_LOW_PRIORITY
        || w is LCK_M_RX_S
        || w is LCK_M_RX_S_ABORT_BLOCKERS
        || w is LCK_M_RX_S_LOW_PRIORITY
        || w is LCK_M_RX_U
        || w is LCK_M_RX_U_ABORT_BLOCKERS
        || w is LCK_M_RX_U_LOW_PRIORITY
        || w is LCK_M_RX_X
        || w is LCK_M_RX_X_ABORT_BLOCKERS
        || w is LCK_M_RX_X_LOW_PRIORITY
        || w is LCK_M_S
        || w is LCK_M_SCH_M
        || w is LCK_M_SCH_M_ABORT_BLOCKERS
        || w is LCK_M_SCH_M_LOW_PRIORITY
        || w is LCK_M_SCH_S
        || w is LCK_M_SCH_S_ABORT_BLOCKERS
        || w is LCK_M_SCH_S_LOW_PRIORITY
        || w is LCK_M_SIU
        || w is LCK_M_SIU_ABORT_BLOCKERS
        || w is LCK_M_SIU_LOW_PRIORITY
        || w is LCK_M_SIX
        || w is LCK_M_SIX_ABORT_BLOCKERS
        || w is LCK_M_SIX_LOW_PRIORITY
        || w is LCK_M_S_ABORT_BLOCKERS
        || w is LCK_M_S_LOW_PRIORITY
        || w is LCK_M_S_XACT
        || w is LCK_M_S_XACT_MODIFY
        || w is LCK_M_S_XACT_READ
        || w is LCK_M_U
        || w is LCK_M_UIX
        || w is LCK_M_UIX_ABORT_BLOCKERS
        || w is LCK_M_UIX_LOW_PRIORITY
        || w is LCK_M_U_ABORT_BLOCKERS
        || w is LCK_M_U_LOW_PRIORITY
        || w is LCK_M_X
}

/// The names of the wait types in part 7 of the list.
#[verifier::opaque]
pub open spec fn listed_name_7(w: WaitType) -> Seq<char> {
    match w {
        WaitType::LCK_M_RIn_NL_LOW_PRIORITY => "LCK_M_RIn_NL_LOW_PRIORITY"@,
        WaitType::LCK_M_RIn_S => "LCK_M_RIn_S"@,
        WaitType::LCK_M_RIn_S_ABORT_BLOCKERS => "LCK_M_RIn_S_ABORT_BLOCKERS"@,
        WaitType::LCK_M_RIn_S_LOW_PRIORITY => "LCK_M_RIn_S_LOW_PRIORITY"@,
        WaitType::LCK_M_RIn_U => "LCK_M_RIn_U"@,
        WaitType::LCK_M_RIn_U_ABORT_BLOCKERS => "LCK_M_RIn_U_ABORT_BLOCKERS"@,
        WaitType::LCK_M_RIn_U_LOW_PRIORITY => "LCK_M_RIn_U_LOW_PRIORITY"@,
        WaitType::LCK_M_RIn_X => "LCK_M_RIn_X"@,
        WaitType::LCK_M_RIn_X_ABORT_BLOCKERS => "LCK_M_RIn_X_ABORT_BLOCKERS"@,
        WaitType::LCK_M_RIn_X_LOW_PRIORITY => "LCK_M_RIn_X_LOW_PRIORITY"@,
        WaitType::LCK_M_RS_S => "LCK_M_RS_S"@,
        WaitType::LCK_M_RS_S_ABORT_BLOCKERS => "LCK_M_RS_S_ABORT_BLOCKERS"@,
        WaitType::LCK_M_RS_S_LOW_PRIORITY => "LCK_M_RS_S_LOW_PRIORITY"@,
        WaitType::LCK_M_RS_U => "LCK_M_RS_U"@,
        WaitType::LCK_M_RS_U_ABORT_BLOCKERS => "LCK_M_RS_U_ABORT_BLOCKERS"@,
        WaitType::LCK_M_RS_U_LOW_PRIORITY => "LCK_M_RS_U_LOW_PRIORITY"@,
        WaitType::LCK_M_RX_S => "LCK_M_RX_S"@,
        WaitType::LCK_M_RX_S_ABORT_BLOCKERS => "LCK_M_RX_S_ABORT_BLOCKERS"@,
        WaitType::LCK_M_RX_S_LOW_PRIORITY => "LCK_M_RX_S_LOW_PRIORITY"@,
        WaitType::LCK_M_RX_U => "LCK_M_RX_U"@,
        WaitType::LCK_M_RX_U_ABORT_BLOCKERS => "LCK_M_RX_U_ABORT_BLOCKERS"@,
        WaitType::LCK_M_RX_U_LOW_PRIORITY => "LCK_M_RX_U_LOW_PRIORITY"@,
        WaitType::LCK_M_RX_X => "LCK_M_RX_X"@,
        WaitType::LCK_M_RX_X_ABORT_BLOCKERS => "LCK_M_RX_X_ABORT_BLOCKERS"@,
        WaitType::LCK_M_RX_X_LOW_PRIORITY => "LCK_M_RX_X_LOW_PRIORITY"@,
        WaitType::LCK_M_S => "LCK_M_S"@,
        WaitType::LCK_M_SCH_M => "LCK_M_SCH_M"@,
        WaitType::LCK_M_SCH_M_ABORT_BLOCKERS => "LCK_M_SCH_M_ABORT_BLOCKERS"@,
        WaitType::LCK_M_SCH_M_LOW_PRIORITY => "LCK_M_SCH_M_LOW_PRIORITY"@,
        WaitType::LCK_M_SCH_S => "LCK_M_SCH_S"@,
        WaitType::LCK_M_SCH_S_ABORT_BLOCKERS => "LCK_M_SCH_S_ABORT_BLOCKERS"@,
        WaitType::LCK_M_SCH_S_LOW_PRIORITY => "LCK_M_SCH_S_LOW_PRIORITY"@,
        WaitType::LCK_M_SIU => "LCK_M_SIU"@,
        WaitType::LCK_M_SIU_ABORT_BLOCKERS => "LCK_M_SIU_ABORT_BLOCKERS"@,
        WaitType::LCK_M_SIU_LOW_PRIORITY => "LCK_M_SIU_LOW_PRIORITY"@,
        WaitType::LCK_M_SIX => "LCK_M_SIX"@,
        WaitType::LCK_M_SIX_ABORT_BLOCKERS => "LCK_M_SIX_ABORT_BLOCKERS"@,
        WaitType::LCK_M_SIX_LOW_PRIORITY => "LCK_M_SIX_LOW_PRIORITY"@,
        WaitType::LCK_M_S_ABORT_BLOCKERS => "LCK_M_S_ABORT_BLOCKERS"@,
        WaitType::LCK_M_S_LOW_PRIORITY => "LCK_M_S_LOW_PRIORITY"@,
        WaitType::LCK_M_S_XACT => "LCK_M_S_XACT"@,
        WaitType::LCK_M_S_XACT_MODIFY => "LCK_M_S_XACT_MODIFY"@,
        WaitType::LCK_M_S_XACT_READ => "LCK_M_S_XACT_READ"@,
        WaitType::LCK_M_U => "LCK_M_U"@,
        WaitType::LCK_M_UIX => "LCK_M_UIX"@,
        WaitType::LCK_M_UIX_ABORT_BLOCKERS => "LCK_M_UIX_ABORT_BLOCKERS"@,
        WaitType::LCK_M_UIX_LOW_PRIORITY => "LCK_M_UIX_LOW_PRIORITY"@,
        WaitType::LCK_M_U_ABORT_BLOCKERS => "LCK_M_U_ABORT_BLOCKERS"@,
        WaitType::LCK_M_U_LOW_PRIORITY => "LCK_M_U_LOW_PRIORITY"@,
        WaitType::LCK_M_X => "LCK_M_X"@,
        _ => seq![],
    }
}

/// `w` is one of the wait types in part 8 of the list.
pub open spec fn in_part_8(w: WaitType) -> bool {
    w is LCK_M_X_ABORT_BLOCKERS
        || w is LCK_M_X_LOW_PRIORITY
        || w is LOGBUFFER
        || w is LOGCAPTURE_LOGPOOLTRUNCPOINT
        || w is LOGGENERATION
        || w is LOGMGR
        || w is LOGMGR_FLUSH
        || w is LOGMGR_PMM_LOG
        || w is LOGMGR_QUEUE
        || w is LOGMGR_RESERVE_APPEND
        || w is LOGPOOLREFCOUNTEDOBJECT_REFDONE
        || w is LOGPOOL_CACHESIZE
        || w is LOGPOOL_CONSUMER
        || w is LOGPOOL_CONSUMERSET
        || w is LOGPOOL_FREEPOOLS
        || w is LOGPOOL_MGRSET
        || w is LOGPOOL_REPLACEMENTSET
        || w is LOG_POOL_SCAN
        || w is LOG_RATE_GOVERNOR
        || w is LOWFAIL_MEMMGR_QUEUE
        || w is MD_AGENT_YIELD
        || w is MD_LAZYCACHE_RWLOCK
        || w is MEMORY_ALLOCATION_EXT
        || w is MEMORY_GRANT_UPDATE
        || w is METADATA_LAZYCACHE_RWLOCK
        || w is MIGRATIONBUFFER
        || w is MISCELLANEOUS
        || w is MSQL_DQ
        || w is MSQL_XACT_MGR_MUTEX
        || w is MSQL_XACT_MUTEX
        || w is MSQL_XP
        || w is MSSEARCH
        || w is NETWORKSXMLMGRLOAD
        || w is NET_WAITFOR_PACKET
        || w is NODE_CACHE_MUTEX
        || w is OLEDB
        || w is ONDEMAND_TASK_QUEUE
        || w is PAGEIOLATCH_DT
        || w is PAGEIOLATCH_EX
        || w is PAGEIOLATCH_KP
        || w is PAGEIOLATCH_NL
        || w is PAGEIOLATCH_SH
        || w is PAGEIOLATCH_UP
        || w is PAGELATCH_DT
        || w is PAGELATCH_EX
        || w is PAGELATCH_KP
        || w is PAGELATCH_NL
        || w is PAGELATCH_SH
        || w is PAGELATCH_UP
        || w is PARALLEL_BACKUP_QUEUE
}

/// The names of the wait types in part 8 of the list.
#[verifier::opaque]
pub open spec fn listed_name_8(w: WaitType) -> Seq<char> {
    match w {
        WaitType::LCK_M_X_ABORT_BLOCKERS => "LCK_M_X_ABORT_BLOCKERS"@,
        WaitType::LCK_M_X_LOW_PRIORITY => "LCK_M_X_LOW_PRIORITY"@,
        WaitType::LOGBUFFER => "LOGBUFFER"@,
        WaitType::LOGCAPTURE_LOGPOOLTRUNCPOINT => "LOGCAPTURE_LOGPOOLTRUNCPOINT"@,
        WaitType::LOGGENERATION => "LOGGENERATION"@,
        WaitType::LOGMGR => "LOGMGR"@,
        WaitType::LOGMGR_FLUSH => "LOGMGR_FLUSH"@,
        WaitType::LOGMGR_PMM_LOG => "LOGMGR_PMM_LOG"@,
        WaitType::LOGMGR_QUEUE => "LOGMGR_QUEUE"@,
        WaitType::LOGMGR_RESERVE_APPEND => "LOGMGR_RESERVE_APPEND"@,
        WaitType::LOGPOOLREFCOUNTEDOBJECT_REFDONE => "LOGPOOLREFCOUNTEDOBJECT_REFDONE"@,
        WaitType::LOGPOOL_CACHESIZE => "LOGPOOL_CACHESIZE"@,
        WaitType::LOGPOOL_CONSUMER => "LOGPOOL_CONSUMER"@,
        WaitType::LOGPOOL_CONSUMERSET => "LOGPOOL_CONSUMERSET"@,
        WaitType::LOGPOOL_FREEPOOLS => "LOGPOOL_FREEPOOLS"@,
        WaitType::LOGPOOL_MGRSET => "LOGPOOL_MGRSET"@,
        WaitType::LOGPOOL_REPLACEMENTSET => "LOGPOOL_REPLACEMENTSET"@,
        WaitType::LOG_POOL_SCAN => "LOG_POOL_SCAN"@,
        WaitType::LOG_RATE_GOVERNOR => "LOG_RATE_GOVERNOR"@,
        WaitType::LOWFAIL_MEMMGR_QUEUE => "LOWFAIL_MEMMGR_QUEUE"@,
        WaitType::MD_AGENT_YIELD => "MD_AGENT_YIELD"@,
        WaitType::MD_LAZYCACHE_RWLOCK => "MD_LAZYCACHE_RWLOCK"@,
        WaitType::MEMORY_ALLOCATION_EXT => "MEMORY_ALLOCATION_EXT"@,
        WaitType::MEMORY_GRANT_UPDATE => "MEMORY_GRANT_UPDATE"@,
        WaitType::METADATA_LAZYCACHE_RWLOCK => "METADATA_LAZYCACHE_RWLOCK"@,
        WaitType::MIGRATIONBUFFER => "MIGRATIONBUFFER"@,
        WaitType::MISCELLANEOUS => "MISCELLANEOUS"@,
        WaitType::MSQL_DQ => "MSQL_DQ"@,
        WaitType::MSQL_XACT_MGR_MUTEX => "MSQL_XACT_MGR_MUTEX"@,
        WaitType::MSQL_XACT_MUTEX => "MSQL_XACT_MUTEX"@,
        WaitType::MSQL_XP => "MSQL_XP"@,
        WaitType::MSSEARCH => "MSSEARCH"@,
        WaitType::NETWORKSXMLMGRLOAD => "NETWORKSXMLMGRLOAD"@,
        WaitType::NET_WAITFOR_PACKET => "NET_WAITFOR_PACKET"@,
        WaitType::NODE_CACHE_MUTEX => "NODE_CACHE_MUTEX"@,
        WaitType::OLEDB => "OLEDB"@,
        WaitType::ONDEMAND_TASK_QUEUE => "ONDEMAND_TASK_QUEUE"@,
        WaitType::PAGEIOLATCH_DT => "PAGEIOLATCH_DT"@,
        WaitType::PAGEIOLATCH_EX => "PAGEIOLATCH_EX"@,
        WaitType::PAGEIOLATCH_KP => "PAGEIOLATCH_KP"@,
        WaitType::PAGEIOLATCH_NL => "PAGEIOLATCH_NL"@,
        WaitType::PAGEIOLATCH_SH => "PAGEIOLATCH_SH"@,
        WaitType::PAGEIOLATCH_UP => "PAGEIOLATCH_UP"@,
        WaitType::PAGELATCH_DT => "PAGELATCH_DT"@,
        WaitType::PAGELATCH_EX => "PAGELATCH_EX"@,
        WaitType::PAGELATCH_KP => "PAGELATCH_KP"@,
        WaitType::PAGELATCH_NL => "PAGELATCH_NL"@,
        WaitType::PAGELATCH_SH => "PAGELATCH_SH"@,
        WaitType::PAGELATCH_UP => "PAGELATCH_UP"@,
        WaitType::PARALLEL_BACKUP_QUEUE => "PARALLEL_BACKUP_QUEUE"@,
        _ => seq![],
    }
}

/// `w` is one of the wait types in part 9 of the list.
pub open spec fn in_part_9(w: WaitType) -> bool {
    w is PARALLEL_REDO_DRAIN_WORKER
        || w is PARALLEL_REDO_FLOW_CONTROL
        || w is PARALLEL_REDO_LOG_CACHE
        || w is PARALLEL_REDO_TRAN_LIST
        || w is PARALLEL_REDO_TRAN_TURN
        || w is PARALLEL_REDO_WORKER_SYNC
        || w is PARALLEL_REDO_WORKER_WAIT_WORK
        || w is PERFORMANCE_COUNTERS_RWLOCK
        || w is PHYSICAL_SEEDING_DMV
        || w is POOL_LOG_RATE_GOVERNOR
        || w is PREEMPTIVE_ABR
        || w is PREEMPTIVE_AUDIT_ACCESS_EVENTLOG
        || w is PREEMPTIVE_AUDIT_ACCESS_SECLOG
        || w is PREEMPTIVE_CLOSEBACKUPMEDIA
        || w is PREEMPTIVE_CLOSEBACKUPTAPE
        || w is PREEMPTIVE_CLOSEBACKUPVDIDEVICE
        || w is PREEMPTIVE_CLUSAPI_CLUSTERRESOURCECONTROL
        || w is PREEMPTIVE_COM_COCREATEINSTANCE
        || w is PREEMPTIVE_COM_COGETCLASSOBJECT
        || w is PREEMPTIVE_COM_CREATEACCESSOR
        || w is PREEMPTIVE_COM_DELETEROWS
        || w is PREEMPTIVE_COM_GETCOMMANDTEXT
        || w is PREEMPTIVE_COM_GETDATA
        || w is PREEMPTIVE_COM_GETNEXTROWS
        || w is PREEMPTIVE_COM_GETRESULT
        || w is PREEMPTIVE_COM_GETROWSBYBOOKMARK
        || w is PREEMPTIVE_COM_LBFLUSH
        || w is PREEMPTIVE_COM_LBLOCKREGION
        || w is PREEMPTIVE_COM_LBREADAT
        || w is PREEMPTIVE_COM_LBSETSIZE
        || w is PREEMPTIVE_COM_LBSTAT
        || w is PREEMPTIVE_COM_LBUNLOCKREGION
        || w is PREEMPTIVE_COM_LBWRITEAT
        || w is PREEMPTIVE_COM_QUERYINTERFACE
        || w is PREEMPTIVE_COM_RELEASE
        || w is PREEMPTIVE_COM_RELEASEACCESSOR
        || w is PREEMPTIVE_COM_RELEASEROWS
        || w is PREEMPTIVE_COM_RELEASESESSION
        || w is PREEMPTIVE_COM_RESTARTPOSITION
        || w is PREEMPTIVE_COM_SEQSTRMREAD
        || w is PREEMPTIVE_COM_SEQSTRMREADANDWRITE
        || w is PREEMPTIVE_COM_SETDATAFAILURE
        || w is PREEMPTIVE_COM_SETPARAMETERINFO
        || w is PREEMPTIVE_COM_SETPARAMETERPROPERTIES
        || w is PREEMPTIVE_COM_STRMLOCKREGION
        || w is PREEMPTIVE_COM_STRMSEEKANDREAD
        || w is PREEMPTIVE_COM_STRMSEEKANDWRITE
        || w is PREEMPTIVE_COM_STRMSETSIZE
        || w is PREEMPTIVE_COM_STRMSTAT
        || w is PREEMPTIVE_COM_STRMUNLOCKREGION
}

/// The names of the wait types in part 9 of the list.
#[verifier::opaque]
pub open spec fn listed_name_9(w: WaitType) -> Seq<char> {
    match w {
        WaitType::PARALLEL_REDO_DRAIN_WORKER => "PARALLEL_REDO_DRAIN_WORKER"@,
        WaitType::PARALLEL_REDO_FLOW_CONTROL => "PARALLEL_REDO_FLOW_CONTROL"@,
        WaitType::PARALLEL_REDO_LOG_CACHE => "PARALLEL_REDO_LOG_CACHE"@,
        WaitType::PARALLEL_REDO_TRAN_LIST => "PARALLEL_REDO_TRAN_LIST"@,
        WaitType::PARALLEL_REDO_TRAN_TURN => "PARALLEL_REDO_TRAN_TURN"@,
        WaitType::PARALLEL_REDO_WORKER_SYNC => "PARALLEL_REDO_WORKER_SYNC"@,
        WaitType::PARALLEL_REDO_WORKER_WAIT_WORK => "PARALLEL_REDO_WORKER_WAIT_WORK"@,
        WaitType::PERFORMANCE_COUNTERS_RWLOCK => "PERFORMANCE_COUNTERS_RWLOCK"@,
        WaitType::PHYSICAL_SEEDING_DMV => "PHYSICAL_SEEDING_DMV"@,
        WaitType::POOL_LOG_RATE_GOVERNOR => "POOL_LOG_RATE_GOVERNOR"@,
        WaitType::PREEMPTIVE_ABR => "PREEMPTIVE_ABR"@,
        WaitType::PREEMPTIVE_AUDIT_ACCESS_EVENTLOG => "PREEMPTIVE_AUDIT_ACCESS_EVENTLOG"@,
        WaitType::PREEMPTIVE_AUDIT_ACCESS_SECLOG => "PREEMPTIVE_AUDIT_ACCESS_SECLOG"@,
        WaitType::PREEMPTIVE_CLOSEBACKUPMEDIA => "PREEMPTIVE_CLOSEBACKUPMEDIA"@,
        WaitType::PREEMPTIVE_CLOSEBACKUPTAPE => "PREEMPTIVE_CLOSEBACKUPTAPE"@,
        WaitType::PREEMPTIVE_CLOSEBACKUPVDIDEVICE => "PREEMPTIVE_CLOSEBACKUPVDIDEVICE"@,
        WaitType::PREEMPTIVE_CLUSAPI_CLUSTERRESOURCECONTROL => "PREEMPTIVE_CLUSAPI_CLUSTERRESOURCECONTROL"@,
        WaitType::PREEMPTIVE_COM_COCREATEINSTANCE => "PREEMPTIVE_COM_COCREATEINSTANCE"@,
        WaitType::PREEMPTIVE_COM_COGETCLASSOBJECT => "PREEMPTIVE_COM_COGETCLASSOBJECT"@,
        WaitType::PREEMPTIVE_COM_CREATEACCESSOR => "PREEMPTIVE_COM_CREATEACCESSOR"@,
        WaitType::PREEMPTIVE_COM_DELETEROWS => "PREEMPTIVE_COM_DELETEROWS"@,
        WaitType::PREEMPTIVE_COM_GETCOMMANDTEXT => "PREEMPTIVE_COM_GETCOMMANDTEXT"@,
        WaitType::PREEMPTIVE_COM_GETDATA => "PREEMPTIVE_COM_GETDATA"@,
        WaitType::PREEMPTIVE_COM_GETNEXTROWS => "PREEMPTIVE_COM_GETNEXTROWS"@,
        WaitType::PREEMPTIVE_COM_GETRESULT => "PREEMPTIVE_COM_GETRESULT"@,
        WaitType::PREEMPTIVE_COM_GETROWSBYBOOKMARK => "PREEMPTIVE_COM_GETROWSBYBOOKMARK"@,
        WaitType::PREEMPTIVE_COM_LBFLUSH => "PREEMPTIVE_COM_LBFLUSH"@,
        WaitType::PREEMPTIVE_COM_LBLOCKREGION => "PREEMPTIVE_COM_LBLOCKREGION"@,
        WaitType::PREEMPTIVE_COM_LBREADAT => "PREEMPTIVE_COM_LBREADAT"@,
        WaitType::PREEMPTIVE_COM_LBSETSIZE => "PREEMPTIVE_COM_LBSETSIZE"@,
        WaitType::PREEMPTIVE_COM_LBSTAT => "PREEMPTIVE_COM_LBSTAT"@,
        WaitType::PREEMPTIVE_COM_LBUNLOCKREGION => "PREEMPTIVE_COM_LBUNLOCKREGION"@,
        WaitType::PREEMPTIVE_COM_LBWRITEAT => "PREEMPTIVE_COM_LBWRITEAT"@,
        WaitType::PREEMPTIVE_COM_QUERYINTERFACE => "PREEMPTIVE_COM_QUERYINTERFACE"@,
        WaitType::PREEMPTIVE_COM_RELEASE => "PREEMPTIVE_COM_RELEASE"@,
        WaitType::PREEMPTIVE_COM_RELEASEACCESSOR => "PREEMPTIVE_COM_RELEASEACCESSOR"@,
        WaitType::PREEMPTIVE_COM_RELEASEROWS => "PREEMPTIVE_COM_RELEASEROWS"@,
        WaitType::PREEMPTIVE_COM_RELEASESESSION => "PREEMPTIVE_COM_RELEASESESSION"@,
        WaitType::PREEMPTIVE_COM_RESTARTPOSITION => "PREEMPTIVE_COM_RESTARTPOSITION"@,
        WaitType::PREEMPTIVE_COM_SEQSTRMREAD => "PREEMPTIVE_COM_SEQSTRMREAD"@,
        WaitType::PREEMPTIVE_COM_SEQSTRMREADANDWRITE => "PREEMPTIVE_COM_SEQSTRMREADANDWRITE"@,
        WaitType::PREEMPTIVE_COM_SETDATAFAILURE => "PREEMPTIVE_COM_SETDATAFAILURE"@,
        WaitType::PREEMPTIVE_COM_SETPARAMETERINFO => "PREEMPTIVE_COM_SETPARAMETERINFO"@,
        WaitType::PREEMPTIVE_COM_SETPARAMETERPROPERTIES => "PREEMPTIVE_COM_SETPARAMETERPROPERTIES"@,
        WaitType::PREEMPTIVE_COM_STRMLOCKREGION => "PREEMPTIVE_COM_STRMLOCKREGION"@,
        WaitType::PREEMPTIVE_COM_STRMSEEKANDREAD => "PREEMPTIVE_COM_STRMSEEKANDREAD"@,
        WaitType::PREEMPTIVE_COM_STRMSEEKANDWRITE => "PREEMPTIVE_COM_STRMSEEKANDWRITE"@,
        WaitType::PREEMPTIVE_COM_STRMSETSIZE => "PREEMPTIVE_COM_STRMSETSIZE"@,
        WaitType::PREEMPTIVE_COM_STRMSTAT => "PREEMPTIVE_COM_STRMSTAT"@,
        WaitType::PREEMPTIVE_COM_STRMUNLOCKREGION => "PREEMPTIVE_COM_STRMUNLOCKREGION"@,
        _ => seq![],
    }
}

/// `w` is one of the wait types in part 10 of the list.
pub open spec fn in_part_10(w: WaitType) -> bool {
    w is PREEMPTIVE_CONSOLEWRITE
        || w is PREEMPTIVE_CREATEPARAM
        || w is PREEMPTIVE_DEBUG
        || w is PREEMPTIVE_DFSADDLINK
        || w is PREEMPTIVE_DFSLINKEXISTCHECK
        || w is PREEMPTIVE_DFSLINKHEALTHCHECK
        || w is PREEMPTIVE_DFSREMOVELINK
        || w is PREEMPTIVE_DFSREMOVEROOT
        || w is PREEMPTIVE_DFSROOTFOLDERCHECK
        || w is PREEMPTIVE_DFSROOTINIT
        || w is PREEMPTIVE_DFSROOTSHARECHECK
        || w is PREEMPTIVE_DTC_ABORT
        || w is PREEMPTIVE_DTC_ABORTREQUESTDONE
        || w is PREEMPTIVE_DTC_BEGINTRANSACTION
        || w is PREEMPTIVE_DTC_COMMITREQUESTDONE
        || w is PREEMPTIVE_DTC_ENLIST
        || w is PREEMPTIVE_DTC_PREPAREREQUESTDONE
        || w is PREEMPTIVE_FILESIZEGET
        || w is PREEMPTIVE_FSAOLEDB_ABORTTRANSACTION
        || w is PREEMPTIVE_FSAOLEDB_COMMITTRANSACTION
        || w is PREEMPTIVE_FSAOLEDB_STARTTRANSACTION
        || w is PREEMPTIVE_FSRECOVER_UNCONDITIONALUNDO
        || w is PREEMPTIVE_GETRMINFO
        || w is PREEMPTIVE_HADR_LEASE_MECHANISM
        || w is PREEMPTIVE_HTTP_EVENT_WAIT
        || w is PREEMPTIVE_HTTP_REQUEST
        || w is PREEMPTIVE_LOCKMONITOR
        || w is PREEMPTIVE_MSS_RELEASE
        || w is PREEMPTIVE_ODBCOPS
        || w is PREEMPTIVE_OLEDBOPS
        || w is PREEMPTIVE_OLEDB_ABORTORCOMMITTRAN
        || w is PREEMPTIVE_OLEDB_ABORTTRAN
        || w is PREEMPTIVE_OLEDB_GETDATASOURCE
        || w is PREEMPTIVE_OLEDB_GETLITERALINFO
        || w is PREEMPTIVE_OLEDB_GETPROPERTIES
        || w is PREEMPTIVE_OLEDB_GETPROPERTYINFO
        || w is PREEMPTIVE_OLEDB_GETSCHEMALOCK
        || w is PREEMPTIVE_OLEDB_JOINTRANSACTION
        || w is PREEMPTIVE_OLEDB_RELEASE
        || w is PREEMPTIVE_OLEDB_SETPROPERTIES
        || w is PREEMPTIVE_OLE_UNINIT
        || w is PREEMPTIVE_OS_ACCEPTSECURITYCONTEXT
        || w is PREEMPTIVE_OS_ACQUIRECREDENTIALSHANDLE
        || w is PREEMPTIVE_OS_AUTHENTICATIONOPS
        || w is PREEMPTIVE_OS_AUTHORIZATIONOPS
        || w is PREEMPTIVE_OS_AUTHZGETINFORMATIONFROMCONTEXT
        || w is PREEMPTIVE_OS_AUTHZINITIALIZECONTEXTFROMSID
        || w is PREEMPTIVE_OS_AUTHZINITIALIZERESOURCEMANAGER
        || w is PREEMPTIVE_OS_BACKUPREAD
        || w is PREEMPTIVE_OS_CLOSEHANDLE
}

/// The names of the wait types in part 10 of the list.
#[verifier::opaque]
pub open spec fn listed_name_10(w: WaitType) -> Seq<char> {
    match w {
        WaitType::PREEMPTIVE_CONSOLEWRITE => "PREEMPTIVE_CONSOLEWRITE"@,
        WaitType::PREEMPTIVE_CREATEPARAM => "PREEMPTIVE_CREATEPARAM"@,
        WaitType::PREEMPTIVE_DEBUG => "PREEMPTIVE_DEBUG"@,
        WaitType::PREEMPTIVE_DFSADDLINK => "PREEMPTIVE_DFSADDLINK"@,
        WaitType::PREEMPTIVE_DFSLINKEXISTCHECK => "PREEMPTIVE_DFSLINKEXISTCHECK"@,
        WaitType::PREEMPTIVE_DFSLINKHEALTHCHECK => "PREEMPTIVE_DFSLINKHEALTHCHECK"@,
        WaitType::PREEMPTIVE_DFSREMOVELINK => "PREEMPTIVE_DFSREMOVELINK"@,
        WaitType::PREEMPTIVE_DFSREMOVEROOT => "PREEMPTIVE_DFSREMOVEROOT"@,
        WaitType::PREEMPTIVE_DFSROOTFOLDERCHECK => "PREEMPTIVE_DFSROOTFOLDERCHECK"@,
        WaitType::PREEMPTIVE_DFSROOTINIT => "PREEMPTIVE_DFSROOTINIT"@,
        WaitType::PREEMPTIVE_DFSROOTSHARECHECK => "PREEMPTIVE_DFSROOTSHARECHECK"@,
        WaitType::PREEMPTIVE_DTC_ABORT => "PREEMPTIVE_DTC_ABORT"@,
        WaitType::PREEMPTIVE_DTC_ABORTREQUESTDONE => "PREEMPTIVE_DTC_ABORTREQUESTDONE"@,
        WaitType::PREEMPTIVE_DTC_BEGINTRANSACTION => "PREEMPTIVE_DTC_BEGINTRANSACTION"@,
        WaitType::PREEMPTIVE_DTC_COMMITREQUESTDONE => "PREEMPTIVE_DTC_COMMITREQUESTDONE"@,
        WaitType::PREEMPTIVE_DTC_ENLIST => "PREEMPTIVE_DTC_ENLIST"@,
        WaitType::PREEMPTIVE_DTC_PREPAREREQUESTDONE => "PREEMPTIVE_DTC_PREPAREREQUESTDONE"@,
        WaitType::PREEMPTIVE_FILESIZEGET => "PREEMPTIVE_FILESIZEGET"@,
        WaitType::PREEMPTIVE_FSAOLEDB_ABORTTRANSACTION => "PREEMPTIVE_FSAOLEDB_ABORTTRANSACTION"@,
        WaitType::PREEMPTIVE_FSAOLEDB_COMMITTRANSACTION => "PREEMPTIVE_FSAOLEDB_COMMITTRANSACTION"@,
        WaitType::PREEMPTIVE_FSAOLEDB_STARTTRANSACTION => "PREEMPTIVE_FSAOLEDB_STARTTRANSACTION"@,
        WaitType::PREEMPTIVE_FSRECOVER_UNCONDITIONALUNDO => "PREEMPTIVE_FSRECOVER_UNCONDITIONALUNDO"@,
        WaitType::PREEMPTIVE_GETRMINFO => "PREEMPTIVE_GETRMINFO"@,
        WaitType::PREEMPTIVE_HADR_LEASE_MECHANISM => "PREEMPTIVE_HADR_LEASE_MECHANISM"@,
        WaitType::PREEMPTIVE_HTTP_EVENT_WAIT => "PREEMPTIVE_HTTP_EVENT_WAIT"@,
        WaitType::PREEMPTIVE_HTTP_REQUEST => "PREEMPTIVE_HTTP_REQUEST"@,
        WaitType::PREEMPTIVE_LOCKMONITOR => "PREEMPTIVE_LOCKMONITOR"@,
        WaitType::PREEMPTIVE_MSS_RELEASE => "PREEMPTIVE_MSS_RELEASE"@,
        WaitType::PREEMPTIVE_ODBCOPS => "PREEMPTIVE_ODBCOPS"@,
        WaitType::PREEMPTIVE_OLEDBOPS => "PREEMPTIVE_OLEDBOPS"@,
        WaitType::PREEMPTIVE_OLEDB_ABORTORCOMMITTRAN => "PREEMPTIVE_OLEDB_ABORTORCOMMITTRAN"@,
        WaitType::PREEMPTIVE_OLEDB_ABORTTRAN => "PREEMPTIVE_OLEDB_ABORTTRAN"@,
        WaitType::PREEMPTIVE_OLEDB_GETDATASOURCE => "PREEMPTIVE_OLEDB_GETDATASOURCE"@,
        WaitType::PREEMPTIVE_OLEDB_GETLITERALINFO => "PREEMPTIVE_OLEDB_GETLITERALINFO"@,
        WaitType::PREEMPTIVE_OLEDB_GETPROPERTIES => "PREEMPTIVE_OLEDB_GETPROPERTIES"@,
        WaitType::PREEMPTIVE_OLEDB_GETPROPERTYINFO => "PREEMPTIVE_OLEDB_GETPROPERTYINFO"@,
        WaitType::PREEMPTIVE_OLEDB_GETSCHEMALOCK => "PREEMPTIVE_OLEDB_GETSCHEMALOCK"@,
        WaitType::PREEMPTIVE_OLEDB_JOINTRANSACTION => "PREEMPTIVE_OLEDB_JOINTRANSACTION"@,
        WaitType::PREEMPTIVE_OLEDB_RELEASE => "PREEMPTIVE_OLEDB_RELEASE"@,
        WaitType::PREEMPTIVE_OLEDB_SETPROPERTIES => "PREEMPTIVE_OLEDB_SETPROPERTIES"@,
        WaitType::PREEMPTIVE_OLE_UNINIT => "PREEMPTIVE_OLE_UNINIT"@,
        WaitType::PREEMPTIVE_OS_ACCEPTSECURITYCONTEXT => "PREEMPTIVE_OS_ACCEPTSECURITYCONTEXT"@,
        WaitType::PREEMPTIVE_OS_ACQUIRECREDENTIALSHANDLE => "PREEMPTIVE_OS_ACQUIRECREDENTIALSHANDLE"@,
        WaitType::PREEMPTIVE_OS_AUTHENTICATIONOPS => "PREEMPTIVE_OS_AUTHENTICATIONOPS"@,
        WaitType::PREEMPTIVE_OS_AUTHORIZATIONOPS => "PREEMPTIVE_OS_AUTHORIZATIONOPS"@,
        WaitType::PREEMPTIVE_OS_AUTHZGETINFORMATIONFROMCONTEXT => "PREEMPTIVE_OS_AUTHZGETINFORMATIONFROMCONTEXT"@,
        WaitType::PREEMPTIVE_OS_AUTHZINITIALIZECONTEXTFROMSID => "PREEMPTIVE_OS_AUTHZINITIALIZECONTEXTFROMSID"@,
        WaitType::PREEMPTIVE_OS_AUTHZINITIALIZERESOURCEMANAGER => "PREEMPTIVE_OS_AUTHZINITIALIZERESOURCEMANAGER"@,
        WaitType::PREEMPTIVE_OS_BACKUPREAD => "PREEMPTIVE_OS_BACKUPREAD"@,
        WaitType::PREEMPTIVE_OS_CLOSEHANDLE => "PREEMPTIVE_OS_CLOSEHANDLE"@,
        _ => seq![],
    }
}

/// `w` is one of the wait types in part 11 of the list.
pub open spec fn in_part_11(w: WaitType) -> bool {
    w is PREEMPTIVE_OS_CLUSTEROPS
        || w is PREEMPTIVE_OS_COMOPS
        || w is PREEMPTIVE_OS_COMPLETEAUTHTOKEN
        || w is PREEMPTIVE_OS_COPYFILE
        || w is PREEMPTIVE_OS_CREATEDIRECTORY
        || w is PREEMPTIVE_OS_CREATEFILE
        || w is PREEMPTIVE_OS_CRYPTACQUIRECONTEXT
        || w is PREEMPTIVE_OS_CRYPTIMPORTKEY
        || w is PREEMPTIVE_OS_CRYPTOPS
        || w is PREEMPTIVE_OS_DECRYPTMESSAGE
        || w is PREEMPTIVE_OS_DELETEFILE
        || w is PREEMPTIVE_OS_DELETESECURITYCONTEXT
        || w is PREEMPTIVE_OS_DEVICEIOCONTROL
        || w is PREEMPTIVE_OS_DEVICEOPS
        || w is PREEMPTIVE_OS_DIRSVC_NETWORKOPS
        || w is PREEMPTIVE_OS_DISCONNECTNAMEDPIPE
        || w is PREEMPTIVE_OS_DOMAINSERVICESOPS
        || w is PREEMPTIVE_OS_DSGETDCNAME
        || w is PREEMPTIVE_OS_DTCOPS
        || w is PREEMPTIVE_OS_ENCRYPTMESSAGE
        || w is PREEMPTIVE_OS_FILEOPS
        || w is PREEMPTIVE_OS_FINDFILE
        || w is PREEMPTIVE_OS_FLUSHFILEBUFFERS
        || w is PREEMPTIVE_OS_FORMATMESSAGE
        || w is PREEMPTIVE_OS_FREECREDENTIALSHANDLE
        || w is PREEMPTIVE_OS_FREELIBRARY
        || w is PREEMPTIVE_OS_GENERICOPS
        || w is PREEMPTIVE_OS_GETADDRINFO
        || w is PREEMPTIVE_OS_GETCOMPRESSEDFILESIZE
        || w is PREEMPTIVE_OS_GETDISKFREESPACE
        || w is PREEMPTIVE_OS_GETFILEATTRIBUTES
        || w is PREEMPTIVE_OS_GETFILESIZE
        || w is PREEMPTIVE_OS_GETFINALFILEPATHBYHANDLE
        || w is PREEMPTIVE_OS_GETLONGPATHNAME
        || w is PREEMPTIVE_OS_GETPROCADDRESS
        || w is PREEMPTIVE_OS_GETVOLUMENAMEFORVOLUMEMOUNTPOINT
        || w is PREEMPTIVE_OS_GETVOLUMEPATHNAME
        || w is PREEMPTIVE_OS_INITIALIZESECURITYCONTEXT
        || w is PREEMPTIVE_OS_LIBRARYOPS
        || w is PREEMPTIVE_OS_LOADLIBRARY
        || w is PREEMPTIVE_OS_LOGONUSER
        || w is PREEMPTIVE_OS_LOOKUPACCOUNTSID
        || w is PREEMPTIVE_OS_MESSAGEQUEUEOPS
        || w is PREEMPTIVE_OS_MOVEFILE
        || w is PREEMPTIVE_OS_NETGROUPGETUSERS
        || w is PREEMPTIVE_OS_NETLOCALGROUPGETMEMBERS
        || w is PREEMPTIVE_OS_NETUSERGETGROUPS
        || w is PREEMPTIVE_OS_NETUSERGETLOCALGROUPS
        || w is PREEMPTIVE_OS_NETUSERMODALSGET
        || w is PREEMPTIVE_OS_NETVALIDATEPASSWORDPOLICY
}

/// The names of the wait types in part 11 of the list.
#[verifier::opaque]
pub open spec fn listed_name_11(w: WaitType) -> Seq<char> {
    match w {
        WaitType::PREEMPTIVE_OS_CLUSTEROPS => "PREEMPTIVE_OS_CLUSTEROPS"@,
        WaitType::PREEMPTIVE_OS_COMOPS => "PREEMPTIVE_OS_COMOPS"@,
        WaitType::PREEMPTIVE_OS_COMPLETEAUTHTOKEN => "PREEMPTIVE_OS_COMPLETEAUTHTOKEN"@,
        WaitType::PREEMPTIVE_OS_COPYFILE => "PREEMPTIVE_OS_COPYFILE"@,
        WaitType::PREEMPTIVE_OS_CREATEDIRECTORY => "PREEMPTIVE_OS_CREATEDIRECTORY"@,
        WaitType::PREEMPTIVE_OS_CREATEFILE => "PREEMPTIVE_OS_CREATEFILE"@,
        WaitType::PREEMPTIVE_OS_CRYPTACQUIRECONTEXT => "PREEMPTIVE_OS_CRYPTACQUIRECONTEXT"@,
        WaitType::PREEMPTIVE_OS_CRYPTIMPORTKEY => "PREEMPTIVE_OS_CRYPTIMPORTKEY"@,
        WaitType::PREEMPTIVE_OS_CRYPTOPS => "PREEMPTIVE_OS_CRYPTOPS"@,
        WaitType::PREEMPTIVE_OS_DECRYPTMESSAGE => "PREEMPTIVE_OS_DECRYPTMESSAGE"@,
        WaitType::PREEMPTIVE_OS_DELETEFILE => "PREEMPTIVE_OS_DELETEFILE"@,
        WaitType::PREEMPTIVE_OS_DELETESECURITYCONTEXT => "PREEMPTIVE_OS_DELETESECURITYCONTEXT"@,
        WaitType::PREEMPTIVE_OS_DEVICEIOCONTROL => "PREEMPTIVE_OS_DEVICEIOCONTROL"@,
        WaitType::PREEMPTIVE_OS_DEVICEOPS => "PREEMPTIVE_OS_DEVICEOPS"@,
        WaitType::PREEMPTIVE_OS_DIRSVC_NETWORKOPS => "PREEMPTIVE_OS_DIRSVC_NETWORKOPS"@,
        WaitType::PREEMPTIVE_OS_DISCONNECTNAMEDPIPE => "PREEMPTIVE_OS_DISCONNECTNAMEDPIPE"@,
        WaitType::PREEMPTIVE_OS_DOMAINSERVICESOPS => "PREEMPTIVE_OS_DOMAINSERVICESOPS"@,
        WaitType::PREEMPTIVE_OS_DSGETDCNAME => "PREEMPTIVE_OS_DSGETDCNAME"@,
        WaitType::PREEMPTIVE_OS_DTCOPS => "PREEMPTIVE_OS_DTCOPS"@,
        WaitType::PREEMPTIVE_OS_ENCRYPTMESSAGE => "PREEMPTIVE_OS_ENCRYPTMESSAGE"@,
        WaitType::PREEMPTIVE_OS_FILEOPS => "PREEMPTIVE_OS_FILEOPS"@,
        WaitType::PREEMPTIVE_OS_FINDFILE => "PREEMPTIVE_OS_FINDFILE"@,
        WaitType::PREEMPTIVE_OS_FLUSHFILEBUFFERS => "PREEMPTIVE_OS_FLUSHFILEBUFFERS"@,
        WaitType::PREEMPTIVE_OS_FORMATMESSAGE => "PREEMPTIVE_OS_FORMATMESSAGE"@,
        WaitType::PREEMPTIVE_OS_FREECREDENTIALSHANDLE => "PREEMPTIVE_OS_FREECREDENTIALSHANDLE"@,
        WaitType::PREEMPTIVE_OS_FREELIBRARY => "PREEMPTIVE_OS_FREELIBRARY"@,
        WaitType::PREEMPTIVE_OS_GENERICOPS => "PREEMPTIVE_OS_GENERICOPS"@,
        WaitType::PREEMPTIVE_OS_GETADDRINFO => "PREEMPTIVE_OS_GETADDRINFO"@,
        WaitType::PREEMPTIVE_OS_GETCOMPRESSEDFILESIZE => "PREEMPTIVE_OS_GETCOMPRESSEDFILESIZE"@,
        WaitType::PREEMPTIVE_OS_GETDISKFREESPACE => "PREEMPTIVE_OS_GETDISKFREESPACE"@,
        WaitType::PREEMPTIVE_OS_GETFILEATTRIBUTES => "PREEMPTIVE_OS_GETFILEATTRIBUTES"@,
        WaitType::PREEMPTIVE_OS_GETFILESIZE => "PREEMPTIVE_OS_GETFILESIZE"@,
        WaitType::PREEMPTIVE_OS_GETFINALFILEPATHBYHANDLE => "PREEMPTIVE_OS_GETFINALFILEPATHBYHANDLE"@,
        WaitType::PREEMPTIVE_OS_GETLONGPATHNAME => "PREEMPTIVE_OS_GETLONGPATHNAME"@,
        WaitType::PREEMPTIVE_OS_GETPROCADDRESS => "PREEMPTIVE_OS_GETPROCADDRESS"@,
        WaitType::PREEMPTIVE_OS_GETVOLUMENAMEFORVOLUMEMOUNTPOINT => "PREEMPTIVE_OS_GETVOLUMENAMEFORVOLUMEMOUNTPOINT"@,
        WaitType::PREEMPTIVE_OS_GETVOLUMEPATHNAME => "PREEMPTIVE_OS_GETVOLUMEPATHNAME"@,
        WaitType::PREEMPTIVE_OS_INITIALIZESECURITYCONTEXT => "PREEMPTIVE_OS_INITIALIZESECURITYCONTEXT"@,
        WaitType::PREEMPTIVE_OS_LIBRARYOPS => "PREEMPTIVE_OS_LIBRARYOPS"@,
        WaitType::PREEMPTIVE_OS_LOADLIBRARY => "PREEMPTIVE_OS_LOADLIBRARY"@,
        WaitType::PREEMPTIVE_OS_LOGONUSER => "PREEMPTIVE_OS_LOGONUSER"@,
        WaitType::PREEMPTIVE_OS_LOOKUPACCOUNTSID => "PREEMPTIVE_OS_LOOKUPACCOUNTSID"@,
        WaitType::PREEMPTIVE_OS_MESSAGEQUEUEOPS => "PREEMPTIVE_OS_MESSAGEQUEUEOPS"@,
        WaitType::PREEMPTIVE_OS_MOVEFILE => "PREEMPTIVE_OS_MOVEFILE"@,
        WaitType::PREEMPTIVE_OS_NETGROUPGETUSERS => "PREEMPTIVE_OS_NETGROUPGETUSERS"@,
        WaitType::PREEMPTIVE_OS_NETLOCALGROUPGETMEMBERS => "PREEMPTIVE_OS_NETLOCALGROUPGETMEMBERS"@,
        WaitType::PREEMPTIVE_OS_NETUSERGETGROUPS => "PREEMPTIVE_OS_NETUSERGETGROUPS"@,
        WaitType::PREEMPTIVE_OS_NETUSERGETLOCALGROUPS => "PREEMPTIVE_OS_NETUSERGETLOCALGROUPS"@,
        WaitType::PREEMPTIVE_OS_NETUSERMODALSGET => "PREEMPTIVE_OS_NETUSERMODALSGET"@,
        WaitType::PREEMPTIVE_OS_NETVALIDATEPASSWORDPOLICY => "PREEMPTIVE_OS_NETVALIDATEPASSWORDPOLICY"@,
        _ => seq![],
    }
}

/// `w` is one of the wait types in part 12 of the list.
pub open spec fn in_part_12(w: WaitType) -> bool {
    w is PREEMPTIVE_OS_NETVALIDATEPASSWORDPOLICYFREE
        || w is PREEMPTIVE_OS_OPENDIRECTORY
        || w is PREEMPTIVE_OS_PDH_WMI_INIT
        || w is PREEMPTIVE_OS_PIPEOPS
        || w is PREEMPTIVE_OS_PROCESSOPS
        || w is PREEMPTIVE_OS_QUERYCONTEXTATTRIBUTES
        || w is PREEMPTIVE_OS_QUERYREGISTRY
        || w is PREEMPTIVE_OS_QUERYSECURITYCONTEXTTOKEN
        || w is PREEMPTIVE_OS_REMOVEDIRECTORY
        || w is PREEMPTIVE_OS_REPORTEVENT
        || w is PREEMPTIVE_OS_REVERTTOSELF
        || w is PREEMPTIVE_OS_RSFXDEVICEOPS
        || w is PREEMPTIVE_OS_SECURITYOPS
        || w is PREEMPTIVE_OS_SERVICEOPS
        || w is PREEMPTIVE_OS_SETENDOFFILE
        || w is PREEMPTIVE_OS_SETFILEPOINTER
        || w is PREEMPTIVE_OS_SETFILEVALIDDATA
        || w is PREEMPTIVE_OS_SETNAMEDSECURITYINFO
        || w is PREEMPTIVE_OS_SQLCLROPS
        || w is PREEMPTIVE_OS_SQMLAUNCH
        || w is PREEMPTIVE_OS_VERIFYSIGNATURE
        || w is PREEMPTIVE_OS_VERIFYTRUST
        || w is PREEMPTIVE_OS_VSSOPS
        || w is PREEMPTIVE_OS_WAITFORSINGLEOBJECT
        || w is PREEMPTIVE_OS_WINSOCKOPS
        || w is PREEMPTIVE_OS_WRITEFILE
        || w is PREEMPTIVE_OS_WRITEFILEGATHER
        || w is PREEMPTIVE_OS_WSASETLASTERROR
        || w is PREEMPTIVE_REENLIST
        || w is PREEMPTIVE_RESIZELOG
        || w is PREEMPTIVE_ROLLFORWARDREDO
        || w is PREEMPTIVE_ROLLFORWARDUNDO
        || w is PREEMPTIVE_SB_STOPENDPOINT
        || w is PREEMPTIVE_SERVER_STARTUP
        || w is PREEMPTIVE_SETRMINFO
        || w is PREEMPTIVE_SHAREDMEM_GETDATA
        || w is PREEMPTIVE_SNIOPEN
        || w is PREEMPTIVE_SOSHOST
        || w is PREEMPTIVE_SOSTESTING
        || w is PREEMPTIVE_SP_SERVER_DIAGNOSTICS
        || w is PREEMPTIVE_STARTRM
        || w is PREEMPTIVE_STREAMFCB_CHECKPOINT
        || w is PREEMPTIVE_STREAMFCB_RECOVER
        || w is PREEMPTIVE_STRESSDRIVER
        || w is PREEMPTIVE_TESTING
        || w is PREEMPTIVE_TRANSIMPORT
        || w is PREEMPTIVE_UNMARSHALPROPAGATIONTOKEN
        || w is PREEMPTIVE_VSS_CREATESNAPSHOT
        || w is PREEMPTIVE_VSS_CREATEVOLUMESNAPSHOT
        || w is PREEMPTIVE_XETESTING
}

/// The names of the wait types in part 12 of the list.
#[verifier::opaque]
pub open spec fn listed_name_12(w: WaitType) -> Seq<char> {
    match w {
        WaitType::PREEMPTIVE_OS_NETVALIDATEPASSWORDPOLICYFREE => "PREEMPTIVE_OS_NETVALIDATEPASSWORDPOLICYFREE"@,
        WaitType::PREEMPTIVE_OS_OPENDIRECTORY => "PREEMPTIVE_OS_OPENDIRECTORY"@,
        WaitType::PREEMPTIVE_OS_PDH_WMI_INIT => "PREEMPTIVE_OS_PDH_WMI_INIT"@,
        WaitType::PREEMPTIVE_OS_PIPEOPS => "PREEMPTIVE_OS_PIPEOPS"@,
        WaitType::PREEMPTIVE_OS_PROCESSOPS => "PREEMPTIVE_OS_PROCESSOPS"@,
        WaitType::PREEMPTIVE_OS_QUERYCONTEXTATTRIBUTES => "PREEMPTIVE_OS_QUERYCONTEXTATTRIBUTES"@,
        WaitType::PREEMPTIVE_OS_QUERYREGISTRY => "PREEMPTIVE_OS_QUERYREGISTRY"@,
        WaitType::PREEMPTIVE_OS_QUERYSECURITYCONTEXTTOKEN => "PREEMPTIVE_OS_QUERYSECURITYCONTEXTTOKEN"@,
        WaitType::PREEMPTIVE_OS_REMOVEDIRECTORY => "PREEMPTIVE_OS_REMOVEDIRECTORY"@,
        WaitType::PREEMPTIVE_OS_REPORTEVENT => "PREEMPTIVE_OS_REPORTEVENT"@,
        WaitType::PREEMPTIVE_OS_REVERTTOSELF => "PREEMPTIVE_OS_REVERTTOSELF"@,
        WaitType::PREEMPTIVE_OS_RSFXDEVICEOPS => "PREEMPTIVE_OS_RSFXDEVICEOPS"@,
        WaitType::PREEMPTIVE_OS_SECURITYOPS => "PREEMPTIVE_OS_SECURITYOPS"@,
        WaitType::PREEMPTIVE_OS_SERVICEOPS => "PREEMPTIVE_OS_SERVICEOPS"@,
        WaitType::PREEMPTIVE_OS_SETENDOFFILE => "PREEMPTIVE_OS_SETENDOFFILE"@,
        WaitType::PREEMPTIVE_OS_SETFILEPOINTER => "PREEMPTIVE_OS_SETFILEPOINTER"@,
        WaitType::PREEMPTIVE_OS_SETFILEVALIDDATA => "PREEMPTIVE_OS_SETFILEVALIDDATA"@,
        WaitType::PREEMPTIVE_OS_SETNAMEDSECURITYINFO => "PREEMPTIVE_OS_SETNAMEDSECURITYINFO"@,
        WaitType::PREEMPTIVE_OS_SQLCLROPS => "PREEMPTIVE_OS_SQLCLROPS"@,
        WaitType::PREEMPTIVE_OS_SQMLAUNCH => "PREEMPTIVE_OS_SQMLAUNCH"@,
        WaitType::PREEMPTIVE_OS_VERIFYSIGNATURE => "PREEMPTIVE_OS_VERIFYSIGNATURE"@,
        WaitType::PREEMPTIVE_OS_VERIFYTRUST => "PREEMPTIVE_OS_VERIFYTRUST"@,
        WaitType::PREEMPTIVE_OS_VSSOPS => "PREEMPTIVE_OS_VSSOPS"@,
        WaitType::PREEMPTIVE_OS_WAITFORSINGLEOBJECT => "PREEMPTIVE_OS_WAITFORSINGLEOBJECT"@,
        WaitType::PREEMPTIVE_OS_WINSOCKOPS => "PREEMPTIVE_OS_WINSOCKOPS"@,
        WaitType::PREEMPTIVE_OS_WRITEFILE => "PREEMPTIVE_OS_WRITEFILE"@,
        WaitType::PREEMPTIVE_OS_WRITEFILEGATHER => "PREEMPTIVE_OS_WRITEFILEGATHER"@,
        WaitType::PREEMPTIVE_OS_WSASETLASTERROR => "PREEMPTIVE_OS_WSASETLASTERROR"@,
        WaitType::PREEMPTIVE_REENLIST => "PREEMPTIVE_REENLIST"@,
        WaitType::PREEMPTIVE_RESIZELOG => "PREEMPTIVE_RESIZELOG"@,
        WaitType::PREEMPTIVE_ROLLFORWARDREDO => "PREEMPTIVE_ROLLFORWARDREDO"@,
        WaitType::PREEMPTIVE_ROLLFORWARDUNDO => "PREEMPTIVE_ROLLFORWARDUNDO"@,
        WaitType::PREEMPTIVE_SB_STOPENDPOINT => "PREEMPTIVE_SB_STOPENDPOINT"@,
        WaitType::PREEMPTIVE_SERVER_STARTUP => "PREEMPTIVE_SERVER_STARTUP"@,
        WaitType::PREEMPTIVE_SETRMINFO => "PREEMPTIVE_SETRMINFO"@,
        WaitType::PREEMPTIVE_SHAREDMEM_GETDATA => "PREEMPTIVE_SHAREDMEM_GETDATA"@,
        WaitType::PREEMPTIVE_SNIOPEN => "PREEMPTIVE_SNIOPEN"@,
        WaitType::PREEMPTIVE_SOSHOST => "PREEMPTIVE_SOSHOST"@,
        WaitType::PREEMPTIVE_SOSTESTING => "PREEMPTIVE_SOSTESTING"@,
        WaitType::PREEMPTIVE_SP_SERVER_DIAGNOSTICS => "PREEMPTIVE_SP_SERVER_DIAGNOSTICS"@,
        WaitType::PREEMPTIVE_STARTRM => "PREEMPTIVE_STARTRM"@,
        WaitType::PREEMPTIVE_STREAMFCB_CHECKPOINT => "PREEMPTIVE_STREAMFCB_CHECKPOINT"@,
        WaitType::PREEMPTIVE_STREAMFCB_RECOVER => "PREEMPTIVE_STREAMFCB_RECOVER"@,
        WaitType::PREEMPTIVE_STRESSDRIVER => "PREEMPTIVE_STRESSDRIVER"@,
        WaitType::PREEMPTIVE_TESTING => "PREEMPTIVE_TESTING"@,
        WaitType::PREEMPTIVE_TRANSIMPORT => "PREEMPTIVE_TRANSIMPORT"@,
        WaitType::PREEMPTIVE_UNMARSHALPROPAGATIONTOKEN => "PREEMPTIVE_UNMARSHALPROPAGATIONTOKEN"@,
        WaitType::PREEMPTIVE_VSS_CREATESNAPSHOT => "PREEMPTIVE_VSS_CREATESNAPSHOT"@,
        WaitType::PREEMPTIVE_VSS_CREATEVOLUMESNAPSHOT => "PREEMPTIVE_VSS_CREATEVOLUMESNAPSHOT"@,
        WaitType::PREEMPTIVE_XETESTING => "PREEMPTIVE_XETESTING"@,
        _ => seq![],
    }
}

/// `w` is one of the wait types in part 13 of the list.
pub open spec fn in_part_13(w: WaitType) -> bool {
    w is PREEMPTIVE_XE_CALLBACKEXECUTE
        || w is PREEMPTIVE_XE_CX_FILE_OPEN
        || w is PREEMPTIVE_XE_CX_HTTP_CALL
        || w is PREEMPTIVE_XE_DISPATCHER
        || w is PREEMPTIVE_XE_ENGINEINIT
        || w is PREEMPTIVE_XE_GETTARGETSTATE
        || w is PREEMPTIVE_XE_SESSIONCOMMIT
        || w is PREEMPTIVE_XE_TARGETFINALIZE
        || w is PREEMPTIVE_XE_TARGETINIT
        || w is PREEMPTIVE_XE_TIMERRUN
        || w is PRINT_ROLLBACK_PROGRESS
        || w is PRU_ROLLBACK_DEFERRED
        || w is PVS_CLEANUP_LOCK
        || w is PWAIT_ALL_COMPONENTS_INITIALIZED
        || w is PWAIT_COOP_SCAN
        || w is PWAIT_DIRECTLOGCONSUMER_GETNEXT
        || w is PWAIT_EVENT_SESSION_INIT_MUTEX
        || w is PWAIT_FABRIC_REPLICA_CONTROLLER_DATA_LOSS
        || w is PWAIT_HADRSIM
        || w is PWAIT_HADR_ACTION_COMPLETED
        || w is PWAIT_HADR_CHANGE_NOTIFIER_TERMINATION_SYNC
        || w is PWAIT_HADR_CLUSTER_INTEGRATION
        || w is PWAIT_HADR_FAILOVER_COMPLETED
        || w is PWAIT_HADR_JOIN
        || w is PWAIT_HADR_OFFLINE_COMPLETED
        || w is PWAIT_HADR_ONLINE_COMPLETED
        || w is PWAIT_HADR_POST_ONLINE_COMPLETED
        || w is PWAIT_HADR_SERVER_READY_CONNECTIONS
        || w is PWAIT_HADR_WORKITEM_COMPLETED
        || w is PWAIT_LOG_CONSOLIDATION_IO
        || w is PWAIT_LOG_CONSOLIDATION_POLL
        || w is PWAIT_MD_LOGIN_STATS
        || w is PWAIT_MD_RELATION_CACHE
        || w is PWAIT_MD_SERVER_CACHE
        || w is PWAIT_MD_UPGRADE_CONFIG
        || w is PWAIT_PREEMPTIVE_APP_USAGE_TIMER
        || w is PWAIT_PREEMPTIVE_AUDIT_ACCESS_WINDOWSLOG
        || w is PWAIT_QRY_BPMEMORY
        || w is PWAIT_REPLICA_ONLINE_INIT_MUTEX
        || w is PWAIT_RESOURCE_SEMAPHORE_FT_PARALLEL_QUERY_SYNC
        || w is PWAIT_SBS_FILE_OPERATION
        || w is PWAIT_XTP_FSSTORAGE_MAINTENANCE
        || w is PWAIT_XTP_HOST_STORAGE_WAIT
        || w is QDS_ASYNC_CHECK_CONSISTENCY_TASK
        || w is QDS_ASYNC_PERSIST_TASK
        || w is QDS_ASYNC_PERSIST_TASK_START
        || w is QDS_ASYNC_QUEUE
        || w is QDS_BCKG_TASK
        || w is QDS_BLOOM_FILTER
        || w is QDS_CLEANUP_STALE_QUERIES_TASK_MAIN_LOOP_SLEEP
}

/// The names of the wait types in part 13 of the list.
#[verifier::opaque]
pub open spec fn listed_name_13(w: WaitType) -> Seq<char> {
    match w {
        WaitType::PREEMPTIVE_XE_CALLBACKEXECUTE => "PREEMPTIVE_XE_CALLBACKEXECUTE"@,
        WaitType::PREEMPTIVE_XE_CX_FILE_OPEN => "PREEMPTIVE_XE_CX_FILE_OPEN"@,
        WaitType::PREEMPTIVE_XE_CX_HTTP_CALL => "PREEMPTIVE_XE_CX_HTTP_CALL"@,
        WaitType::PREEMPTIVE_XE_DISPATCHER => "PREEMPTIVE_XE_DISPATCHER"@,
        WaitType::PREEMPTIVE_XE_ENGINEINIT => "PREEMPTIVE_XE_ENGINEINIT"@,
        WaitType::PREEMPTIVE_XE_GETTARGETSTATE => "PREEMPTIVE_XE_GETTARGETSTATE"@,
        WaitType::PREEMPTIVE_XE_SESSIONCOMMIT => "PREEMPTIVE_XE_SESSIONCOMMIT"@,
        WaitType::PREEMPTIVE_XE_TARGETFINALIZE => "PREEMPTIVE_XE_TARGETFINALIZE"@,
        WaitType::PREEMPTIVE_XE_TARGETINIT => "PREEMPTIVE_XE_TARGETINIT"@,
        WaitType::PREEMPTIVE_XE_TIMERRUN => "PREEMPTIVE_XE_TIMERRUN"@,
        WaitType::PRINT_ROLLBACK_PROGRESS => "PRINT_ROLLBACK_PROGRESS"@,
        WaitType::PRU_ROLLBACK_DEFERRED => "PRU_ROLLBACK_DEFERRED"@,
        WaitType::PVS_CLEANUP_LOCK => "PVS_CLEANUP_LOCK"@,
        WaitType::PWAIT_ALL_COMPONENTS_INITIALIZED => "PWAIT_ALL_COMPONENTS_INITIALIZED"@,
        WaitType::PWAIT_COOP_SCAN => "PWAIT_COOP_SCAN"@,
        WaitType::PWAIT_DIRECTLOGCONSUMER_GETNEXT => "PWAIT_DIRECTLOGCONSUMER_GETNEXT"@,
        WaitType::PWAIT_EVENT_SESSION_INIT_MUTEX => "PWAIT_EVENT_SESSION_INIT_MUTEX"@,
        WaitType::PWAIT_FABRIC_REPLICA_CONTROLLER_DATA_LOSS => "PWAIT_FABRIC_REPLICA_CONTROLLER_DATA_LOSS"@,
        WaitType::PWAIT_HADRSIM => "PWAIT_HADRSIM"@,
        WaitType::PWAIT_HADR_ACTION_COMPLETED => "PWAIT_HADR_ACTION_COMPLETED"@,
        WaitType::PWAIT_HADR_CHANGE_NOTIFIER_TERMINATION_SYNC => "PWAIT_HADR_CHANGE_NOTIFIER_TERMINATION_SYNC"@,
        WaitType::PWAIT_HADR_CLUSTER_INTEGRATION => "PWAIT_HADR_CLUSTER_INTEGRATION"@,
        WaitType::PWAIT_HADR_FAILOVER_COMPLETED => "PWAIT_HADR_FAILOVER_COMPLETED"@,
        WaitType::PWAIT_HADR_JOIN => "PWAIT_HADR_JOIN"@,
        WaitType::PWAIT_HADR_OFFLINE_COMPLETED => "PWAIT_HADR_OFFLINE_COMPLETED"@,
        WaitType::PWAIT_HADR_ONLINE_COMPLETED => "PWAIT_HADR_ONLINE_COMPLETED"@,
        WaitType::PWAIT_HADR_POST_ONLINE_COMPLETED => "PWAIT_HADR_POST_ONLINE_COMPLETED"@,
        WaitType::PWAIT_HADR_SERVER_READY_CONNECTIONS => "PWAIT_HADR_SERVER_READY_CONNECTIONS"@,
        WaitType::PWAIT_HADR_WORKITEM_COMPLETED => "PWAIT_HADR_WORKITEM_COMPLETED"@,
        WaitType::PWAIT_LOG_CONSOLIDATION_IO => "PWAIT_LOG_CONSOLIDATION_IO"@,
        WaitType::PWAIT_LOG_CONSOLIDATION_POLL => "PWAIT_LOG_CONSOLIDATION_POLL"@,
        WaitType::PWAIT_MD_LOGIN_STATS => "PWAIT_MD_LOGIN_STATS"@,
        WaitType::PWAIT_MD_RELATION_CACHE => "PWAIT_MD_RELATION_CACHE"@,
        WaitType::PWAIT_MD_SERVER_CACHE => "PWAIT_MD_SERVER_CACHE"@,
        WaitType::PWAIT_MD_UPGRADE_CONFIG => "PWAIT_MD_UPGRADE_CONFIG"@,
        WaitType::PWAIT_PREEMPTIVE_APP_USAGE_TIMER => "PWAIT_PREEMPTIVE_APP_USAGE_TIMER"@,
        WaitType::PWAIT_PREEMPTIVE_AUDIT_ACCESS_WINDOWSLOG => "PWAIT_PREEMPTIVE_AUDIT_ACCESS_WINDOWSLOG"@,
        WaitType::PWAIT_QRY_BPMEMORY => "PWAIT_QRY_BPMEMORY"@,
        WaitType::PWAIT_REPLICA_ONLINE_INIT_MUTEX => "PWAIT_REPLICA_ONLINE_INIT_MUTEX"@,
        WaitType::PWAIT_RESOURCE_SEMAPHORE_FT_PARALLEL_QUERY_SYNC => "PWAIT_RESOURCE_SEMAPHORE_FT_PARALLEL_QUERY_SYNC"@,
        WaitType::PWAIT_SBS_FILE_OPERATION => "PWAIT_SBS_FILE_OPERATION"@,
        WaitType::PWAIT_XTP_FSSTORAGE_MAINTENANCE => "PWAIT_XTP_FSSTORAGE_MAINTENANCE"@,
        WaitType::PWAIT_XTP_HOST_STORAGE_WAIT => "PWAIT_XTP_HOST_STORAGE_WAIT"@,
        WaitType::QDS_ASYNC_CHECK_CONSISTENCY_TASK => "QDS_ASYNC_CHECK_CONSISTENCY_TASK"@,
        WaitType::QDS_ASYNC_PERSIST_TASK => "QDS_ASYNC_PERSIST_TASK"@,
        WaitType::QDS_ASYNC_PERSIST_TASK_START => "QDS_ASYNC_PERSIST_TASK_START"@,
        WaitType::QDS_ASYNC_QUEUE => "QDS_ASYNC_QUEUE"@,
        WaitType::QDS_BCKG_TASK => "QDS_BCKG_TASK"@,
        WaitType::QDS_BLOOM_FILTER => "QDS_BLOOM_FILTER"@,
        WaitType::QDS_CLEANUP_STALE_QUERIES_TASK_MAIN_LOOP_SLEEP => "QDS_CLEANUP_STALE_QUERIES_TASK_MAIN_LOOP_SLEEP"@,
        _ => seq![],
    }
}

/// `w` is one of the wait types in part 14 of the list.
pub open spec fn in_part_14(w: WaitType) -> bool {
    w is QDS_CTXS
        || w is QDS_DB_DISK
        || w is QDS_DYN_VECTOR
        || w is QDS_EXCLUSIVE_ACCESS
        || w is QDS_HOST_INIT
        || w is QDS_LOADDB
        || w is QDS_PERSIST_TASK_MAIN_LOOP_SLEEP
        || w is QDS_QDS_CAPTURE_INIT
        || w is QDS_SHUTDOWN_QUEUE
        || w is QDS_STMT
        || w is QDS_STMT_DISK
        || w is QDS_TASK_SHUTDOWN
        || w is QDS_TASK_START
        || w is QE_WARN_LIST_SYNC
        || w is QPJOB_KILL
        || w is QPJOB_WAITFOR_ABORT
        || w is QRY_MEM_GRANT_INFO_MUTEX
        || w is QRY_PARALLEL_THREAD_MUTEX
        || w is QRY_PROFILE_LIST_MUTEX
        || w is QUERY_ERRHDL_SERVICE_DONE
        || w is QUERY_EXECUTION_INDEX_SORT_EVENT_OPEN
        || w is QUERY_NOTIFICATION_MGR_MUTEX
        || w is QUERY_NOTIFICATION_SUBSCRIPTION_MUTEX
        || w is QUERY_NOTIFICATION_TABLE_MGR_MUTEX
        || w is QUERY_NOTIFICATION_UNITTEST_MUTEX
        || w is QUERY_OPTIMIZER_PRINT_MUTEX
        || w is QUERY_TASK_ENQUEUE_MUTEX
        || w is QUERY_TRACEOUT
        || w is QUERY_WAIT_ERRHDL_SERVICE
        || w is RBIO_RG_DESTAGE
        || w is RBIO_RG_LOCALDESTAGE
        || w is RBIO_RG_REPLICA
        || w is RBIO_RG_STORAGE
        || w is RBIO_WAIT_VLF
        || w is RECOVERY_MGR_LOCK
        || w is RECOVER_CHANGEDB
        || w is REDO_THREAD_PENDING_WORK
        || w is REDO_THREAD_SYNC
        || w is REMOTE_BLOCK_IO
        || w is REMOTE_DATA_ARCHIVE_MIGRATION_DMV
        || w is REMOTE_DATA_ARCHIVE_SCHEMA_DMV
        || w is REMOTE_DATA_ARCHIVE_SCHEMA_TASK_QUEUE
        || w is REPLICA_WRITES
        || w is REPL_CACHE_ACCESS
        || w is REPL_HISTORYCACHE_ACCESS
        || w is REPL_SCHEMA_ACCESS
        || w is REPL_TRANFSINFO_ACCESS
        || w is REPL_TRANHASHTABLE_ACCESS
        || w is REPL_TRANTEXTINFO_ACCESS
        || w is REQUEST_DISPENSER_PAUSE
}

/// The names of the wait types in part 14 of the list.
#[verifier::opaque]
pub open spec fn listed_name_14(w: WaitType) -> Seq<char> {
    match w {
        WaitType::QDS_CTXS => "QDS_CTXS"@,
        WaitType::QDS_DB_DISK => "QDS_DB_DISK"@,
        WaitType::QDS_DYN_VECTOR => "QDS_DYN_VECTOR"@,
        WaitType::QDS_EXCLUSIVE_ACCESS => "QDS_EXCLUSIVE_ACCESS"@,
        WaitType::QDS_HOST_INIT => "QDS_HOST_INIT"@,
        WaitType::QDS_LOADDB => "QDS_LOADDB"@,
        WaitType::QDS_PERSIST_TASK_MAIN_LOOP_SLEEP => "QDS_PERSIST_TASK_MAIN_LOOP_SLEEP"@,
        WaitType::QDS_QDS_CAPTURE_INIT => "QDS_QDS_CAPTURE_INIT"@,
        WaitType::QDS_SHUTDOWN_QUEUE => "QDS_SHUTDOWN_QUEUE"@,
        WaitType::QDS_STMT => "QDS_STMT"@,
        WaitType::QDS_STMT_DISK => "QDS_STMT_DISK"@,
        WaitType::QDS_TASK_SHUTDOWN => "QDS_TASK_SHUTDOWN"@,
        WaitType::QDS_TASK_START => "QDS_TASK_START"@,
        WaitType::QE_WARN_LIST_SYNC => "QE_WARN_LIST_SYNC"@,
        WaitType::QPJOB_KILL => "QPJOB_KILL"@,
        WaitType::QPJOB_WAITFOR_ABORT => "QPJOB_WAITFOR_ABORT"@,
        WaitType::QRY_MEM_GRANT_INFO_MUTEX => "QRY_MEM_GRANT_INFO_MUTEX"@,
        WaitType::QRY_PARALLEL_THREAD_MUTEX => "QRY_PARALLEL_THREAD_MUTEX"@,
        WaitType::QRY_PROFILE_LIST_MUTEX => "QRY_PROFILE_LIST_MUTEX"@,
        WaitType::QUERY_ERRHDL_SERVICE_DONE => "QUERY_ERRHDL_SERVICE_DONE"@,
        WaitType::QUERY_EXECUTION_INDEX_SORT_EVENT_OPEN => "QUERY_EXECUTION_INDEX_SORT_EVENT_OPEN"@,
        WaitType::QUERY_NOTIFICATION_MGR_MUTEX => "QUERY_NOTIFICATION_MGR_MUTEX"@,
        WaitType::QUERY_NOTIFICATION_SUBSCRIPTION_MUTEX => "QUERY_NOTIFICATION_SUBSCRIPTION_MUTEX"@,
        WaitType::QUERY_NOTIFICATION_TABLE_MGR_MUTEX => "QUERY_NOTIFICATION_TABLE_MGR_MUTEX"@,
        WaitType::QUERY_NOTIFICATION_UNITTEST_MUTEX => "QUERY_NOTIFICATION_UNITTEST_MUTEX"@,
        WaitType::QUERY_OPTIMIZER_PRINT_MUTEX => "QUERY_OPTIMIZER_PRINT_MUTEX"@,
        WaitType::QUERY_TASK_ENQUEUE_MUTEX => "QUERY_TASK_ENQUEUE_MUTEX"@,
        WaitType::QUERY_TRACEOUT => "QUERY_TRACEOUT"@,
        WaitType::QUERY_WAIT_ERRHDL_SERVICE => "QUERY_WAIT_ERRHDL_SERVICE"@,
        WaitType::RBIO_RG_DESTAGE => "RBIO_RG_DESTAGE"@,
        WaitType::RBIO_RG_LOCALDESTAGE => "RBIO_RG_LOCALDESTAGE"@,
        WaitType::RBIO_RG_REPLICA => "RBIO_RG_REPLICA"@,
        WaitType::RBIO_RG_STORAGE => "RBIO_RG_STORAGE"@,
        WaitType::RBIO_WAIT_VLF => "RBIO_WAIT_VLF"@,
        WaitType::RECOVERY_MGR_LOCK => "RECOVERY_MGR_LOCK"@,
        WaitType::RECOVER_CHANGEDB => "RECOVER_CHANGEDB"@,
        WaitType::REDO_THREAD_PENDING_WORK => "REDO_THREAD_PENDING_WORK"@,
        WaitType::REDO_THREAD_SYNC => "REDO_THREAD_SYNC"@,
        WaitType::REMOTE_BLOCK_IO => "REMOTE_BLOCK_IO"@,
        WaitType::REMOTE_DATA_ARCHIVE_MIGRATION_DMV => "REMOTE_DATA_ARCHIVE_MIGRATION_DMV"@,
        WaitType::REMOTE_DATA_ARCHIVE_SCHEMA_DMV => "REMOTE_DATA_ARCHIVE_SCHEMA_DMV"@,
        WaitType::REMOTE_DATA_ARCHIVE_SCHEMA_TASK_QUEUE => "REMOTE_DATA_ARCHIVE_SCHEMA_TASK_QUEUE"@,
        WaitType::REPLICA_WRITES => "REPLICA_WRITES"@,
        WaitType::REPL_CACHE_ACCESS => "REPL_CACHE_ACCESS"@,
        WaitType::REPL_HISTORYCACHE_ACCESS => "REPL_HISTORYCACHE_ACCESS"@,
        WaitType::REPL_SCHEMA_ACCESS => "REPL_SCHEMA_ACCESS"@,
        WaitType::REPL_TRANFSINFO_ACCESS => "REPL_TRANFSINFO_ACCESS"@,
        WaitType::REPL_TRANHASHTABLE_ACCESS => "REPL_TRANHASHTABLE_ACCESS"@,
        WaitType::REPL_TRANTEXTINFO_ACCESS => "REPL_TRANTEXTINFO_ACCESS"@,
        WaitType::REQUEST_DISPENSER_PAUSE => "REQUEST_DISPENSER_PAUSE"@,
        _ => seq![],
    }
}

/// `w` is one of the wait types in part 15 of the list.
pub open spec fn in_part_15(w: WaitType) -> bool {
    w is REQUEST_FOR_DEADLOCK_SEARCH
        || w is RESERVED_MEMORY_ALLOCATION_EXT
        || w is RESMGR_THROTTLED
        || w is RESOURCE_GOVERNOR_IDLE
        || w is RESOURCE_QUEUE
        || w is RESOURCE_SEMAPHORE
        || w is RESOURCE_SEMAPHORE_MUTEX
        || w is RESOURCE_SEMAPHORE_QUERY_COMPILE
        || w is RESOURCE_SEMAPHORE_SMALL_QUERY
        || w is RESTORE_FILEHANDLECACHE_ENTRYLOCK
        || w is RESTORE_FILEHANDLECACHE_LOCK
        || w is RG_RECONFIG
        || w is ROWGROUP_OP_STATS
        || w is ROWGROUP_VERSION
        || w is RTDATA_LIST
        || w is SATELLITE_CARGO
        || w is SATELLITE_SERVICE_SETUP
        || w is SATELLITE_TASK
        || w is SBS_DISPATCH
        || w is SBS_RECEIVE_TRANSPORT
        || w is SBS_TRANSPORT
        || w is SCAN_CHAR_HASH_ARRAY_INITIALIZATION
        || w is SECURITY_CNG_PROVIDER_MUTEX
        || w is SECURITY_CRYPTO_CONTEXT_MUTEX
        || w is SECURITY_DBE_STATE_MUTEX
        || w is SECURITY_KEYRING_RWLOCK
        || w is SECURITY_MUTEX
        || w is SECURITY_RULETABLE_MUTEX
        || w is SEC_DROP_TEMP_KEY
        || w is SEMPLAT_DSI_BUILD
        || w is SEQUENCE_GENERATION
        || w is SEQUENTIAL_GUID
        || w is SERVER_IDLE_CHECK
        || w is SERVER_RECONFIGURE
        || w is SESSION_WAIT_STATS_CHILDREN
        || w is SHARED_DELTASTORE_CREATION
        || w is SHUTDOWN
        || w is SLEEP_BPOOL_FLUSH
        || w is SLEEP_BUFFERPOOL_HELPLW
        || w is SLEEP_DBSTARTUP
        || w is SLEEP_DCOMSTARTUP
        || w is SLEEP_MASTERDBREADY
        || w is SLEEP_MASTERMDREADY
        || w is SLEEP_MASTERUPGRADED
        || w is SLEEP_MEMORYPOOL_ALLOCATEPAGES
        || w is SLEEP_MSDBSTARTUP
        || w is SLEEP_RETRY_VIRTUALALLOC
        || w is SLEEP_SYSTEMTASK
        || w is SLEEP_TASK
        || w is SLEEP_TEMPDBSTARTUP
}

/// The names of the wait types in part 15 of the list.
#[verifier::opaque]
pub open spec fn listed_name_15(w: WaitType) -> Seq<char> {
    match w {
        WaitType::REQUEST_FOR_DEADLOCK_SEARCH => "REQUEST_FOR_DEADLOCK_SEARCH"@,
        WaitType::RESERVED_MEMORY_ALLOCATION_EXT => "RESERVED_MEMORY_ALLOCATION_EXT"@,
        WaitType::RESMGR_THROTTLED => "RESMGR_THROTTLED"@,
        WaitType::RESOURCE_GOVERNOR_IDLE => "RESOURCE_GOVERNOR_IDLE"@,
        WaitType::RESOURCE_QUEUE => "RESOURCE_QUEUE"@,
        WaitType::RESOURCE_SEMAPHORE => "RESOURCE_SEMAPHORE"@,
        WaitType::RESOURCE_SEMAPHORE_MUTEX => "RESOURCE_SEMAPHORE_MUTEX"@,
        WaitType::RESOURCE_SEMAPHORE_QUERY_COMPILE => "RESOURCE_SEMAPHORE_QUERY_COMPILE"@,
        WaitType::RESOURCE_SEMAPHORE_SMALL_QUERY => "RESOURCE_SEMAPHORE_SMALL_QUERY"@,
        WaitType::RESTORE_FILEHANDLECACHE_ENTRYLOCK => "RESTORE_FILEHANDLECACHE_ENTRYLOCK"@,
        WaitType::RESTORE_FILEHANDLECACHE_LOCK => "RESTORE_FILEHANDLECACHE_LOCK"@,
        WaitType::RG_RECONFIG => "RG_RECONFIG"@,
        WaitType::ROWGROUP_OP_STATS => "ROWGROUP_OP_STATS"@,
        WaitType::ROWGROUP_VERSION => "ROWGROUP_VERSION"@,
        WaitType::RTDATA_LIST => "RTDATA_LIST"@,
        WaitType::SATELLITE_CARGO => "SATELLITE_CARGO"@,
        WaitType::SATELLITE_SERVICE_SETUP => "SATELLITE_SERVICE_SETUP"@,
        WaitType::SATELLITE_TASK => "SATELLITE_TASK"@,
        WaitType::SBS_DISPATCH => "SBS_DISPATCH"@,
        WaitType::SBS_RECEIVE_TRANSPORT => "SBS_RECEIVE_TRANSPORT"@,
        WaitType::SBS_TRANSPORT => "SBS_TRANSPORT"@,
        WaitType::SCAN_CHAR_HASH_ARRAY_INITIALIZATION => "SCAN_CHAR_HASH_ARRAY_INITIALIZATION"@,
        WaitType::SECURITY_CNG_PROVIDER_MUTEX => "SECURITY_CNG_PROVIDER_MUTEX"@,
        WaitType::SECURITY_CRYPTO_CONTEXT_MUTEX => "SECURITY_CRYPTO_CONTEXT_MUTEX"@,
        WaitType::SECURITY_DBE_STATE_MUTEX => "SECURITY_DBE_STATE_MUTEX"@,
        WaitType::SECURITY_KEYRING_RWLOCK => "SECURITY_KEYRING_RWLOCK"@,
        WaitType::SECURITY_MUTEX => "SECURITY_MUTEX"@,
        WaitType::SECURITY_RULETABLE_MUTEX => "SECURITY_RULETABLE_MUTEX"@,
        WaitType::SEC_DROP_TEMP_KEY => "SEC_DROP_TEMP_KEY"@,
        WaitType::SEMPLAT_DSI_BUILD => "SEMPLAT_DSI_BUILD"@,
        WaitType::SEQUENCE_GENERATION => "SEQUENCE_GENERATION"@,
        WaitType::SEQUENTIAL_GUID => "SEQUENTIAL_GUID"@,
        WaitType::SERVER_IDLE_CHECK => "SERVER_IDLE_CHECK"@,
        WaitType::SERVER_RECONFIGURE => "SERVER_RECONFIGURE"@,
        WaitType::SESSION_WAIT_STATS_CHILDREN => "SESSION_WAIT_STATS_CHILDREN"@,
        WaitType::SHARED_DELTASTORE_CREATION => "SHARED_DELTASTORE_CREATION"@,
        WaitType::SHUTDOWN => "SHUTDOWN"@,
        WaitType::SLEEP_BPOOL_FLUSH => "SLEEP_BPOOL_FLUSH"@,
        WaitType::SLEEP_BUFFERPOOL_HELPLW => "SLEEP_BUFFERPOOL_HELPLW"@,
        WaitType::SLEEP_DBSTARTUP => "SLEEP_DBSTARTUP"@,
        WaitType::SLEEP_DCOMSTARTUP => "SLEEP_DCOMSTARTUP"@,
        WaitType::SLEEP_MASTERDBREADY => "SLEEP_MASTERDBREADY"@,
        WaitType::SLEEP_MASTERMDREADY => "SLEEP_MASTERMDREADY"@,
        WaitType::SLEEP_MASTERUPGRADED => "SLEEP_MASTERUPGRADED"@,
        WaitType::SLEEP_MEMORYPOOL_ALLOCATEPAGES => "SLEEP_MEMORYPOOL_ALLOCATEPAGES"@,
        WaitType::SLEEP_MSDBSTARTUP => "SLEEP_MSDBSTARTUP"@,
        WaitType::SLEEP_RETRY_VIRTUALALLOC => "SLEEP_RETRY_VIRTUALALLOC"@,
        WaitType::SLEEP_SYSTEMTASK => "SLEEP_SYSTEMTASK"@,
        WaitType::SLEEP_TASK => "SLEEP_TASK"@,
        WaitType::SLEEP_TEMPDBSTARTUP => "SLEEP_TEMPDBSTARTUP"@,
        _ => seq![],
    }
}

/// `w` is one of the wait types in part 16 of the list.
pub open spec fn in_part_16(w: WaitType) -> bool {
    w is SLEEP_WORKSPACE_ALLOCATEPAGE
        || w is SLO_UPDATE
        || w is SMSYNC
        || w is SNI_CONN_DUP
        || w is SNI_CRITICAL_SECTION
        || w is SNI_HTTP_WAITFOR_0_DISCON
        || w is SNI_LISTENER_ACCESS
        || w is SNI_TASK_COMPLETION
        || w is SNI_WRITE_ASYNC
        || w is SOAP_READ
        || w is SOAP_WRITE
        || w is SOCKETDUPLICATEQUEUE_CLEANUP
        || w is SOSHOST_EVENT
        || w is SOSHOST_INTERNAL
        || w is SOSHOST_MUTEX
        || w is SOSHOST_RWLOCK
        || w is SOSHOST_SEMAPHORE
        || w is SOSHOST_SLEEP
        || w is SOSHOST_TRACELOCK
        || w is SOSHOST_WAITFORDONE
        || w is SOS_CALLBACK_REMOVAL
        || w is SOS_DISPATCHER_MUTEX
        || w is SOS_LOCALALLOCATORLIST
        || w is SOS_MEMORY_TOPLEVELBLOCKALLOCATOR
        || w is SOS_MEMORY_USAGE_ADJUSTMENT
        || w is SOS_OBJECT_STORE_DESTROY_MUTEX
        || w is SOS_PHYS_PAGE_CACHE
        || w is SOS_PROCESS_AFFINITY_MUTEX
        || w is SOS_RESERVEDMEMBLOCKLIST
        || w is SOS_SCHEDULER_YIELD
        || w is SOS_SMALL_PAGE_ALLOC
        || w is SOS_STACKSTORE_INIT_MUTEX
        || w is SOS_SYNC_TASK_ENQUEUE_EVENT
        || w is SOS_VIRTUALMEMORY_LOW
        || w is SOS_WORK_DISPATCHER
        || w is SPINLOCK_EXT
        || w is SP_PREEMPTIVE_SERVER_DIAGNOSTICS_SLEEP
        || w is SP_SERVER_DIAGNOSTICS_BUFFER_ACCESS
        || w is SP_SERVER_DIAGNOSTICS_INIT_MUTEX
        || w is SP_SERVER_DIAGNOSTICS_SLEEP
        || w is SQLCLR_APPDOMAIN
        || w is SQLCLR_ASSEMBLY
        || w is SQLCLR_DEADLOCK_DETECTION
        || w is SQLCLR_QUANTUM_PUNISHMENT
        || w is SQLSORT_NORMMUTEX
        || w is SQLSORT_SORTMUTEX
        || w is SQLTRACE_BUFFER_FLUSH
        || w is SQLTRACE_FILE_BUFFER
        || w is SQLTRACE_FILE_READ_IO_COMPLETION
        || w is SQLTRACE_FILE_WRITE_IO_COMPLETION
}

/// The names of the wait types in part 16 of the list.
#[verifier::opaque]
pub open spec fn listed_name_16(w: WaitType) -> Seq<char> {
    match w {
        WaitType::SLEEP_WORKSPACE_ALLOCATEPAGE => "SLEEP_WORKSPACE_ALLOCATEPAGE"@,
        WaitType::SLO_UPDATE => "SLO_UPDATE"@,
        WaitType::SMSYNC => "SMSYNC"@,
        WaitType::SNI_CONN_DUP => "SNI_CONN_DUP"@,
        WaitType::SNI_CRITICAL_SECTION => "SNI_CRITICAL_SECTION"@,
        WaitType::SNI_HTTP_WAITFOR_0_DISCON => "SNI_HTTP_WAITFOR_0_DISCON"@,
        WaitType::SNI_LISTENER_ACCESS => "SNI_LISTENER_ACCESS"@,
        WaitType::SNI_TASK_COMPLETION => "SNI_TASK_COMPLETION"@,
        WaitType::SNI_WRITE_ASYNC => "SNI_WRITE_ASYNC"@,
        WaitType::SOAP_READ => "SOAP_READ"@,
        WaitType::SOAP_WRITE => "SOAP_WRITE"@,
        WaitType::SOCKETDUPLICATEQUEUE_CLEANUP => "SOCKETDUPLICATEQUEUE_CLEANUP"@,
        WaitType::SOSHOST_EVENT => "SOSHOST_EVENT"@,
        WaitType::SOSHOST_INTERNAL => "SOSHOST_INTERNAL"@,
        WaitType::SOSHOST_MUTEX => "SOSHOST_MUTEX"@,
        WaitType::SOSHOST_RWLOCK => "SOSHOST_RWLOCK"@,
        WaitType::SOSHOST_SEMAPHORE => "SOSHOST_SEMAPHORE"@,
        WaitType::SOSHOST_SLEEP => "SOSHOST_SLEEP"@,
        WaitType::SOSHOST_TRACELOCK => "SOSHOST_TRACELOCK"@,
        WaitType::SOSHOST_WAITFORDONE => "SOSHOST_WAITFORDONE"@,
        WaitType::SOS_CALLBACK_REMOVAL => "SOS_CALLBACK_REMOVAL"@,
        WaitType::SOS_DISPATCHER_MUTEX => "SOS_DISPATCHER_MUTEX"@,
        WaitType::SOS_LOCALALLOCATORLIST => "SOS_LOCALALLOCATORLIST"@,
        WaitType::SOS_MEMORY_TOPLEVELBLOCKALLOCATOR => "SOS_MEMORY_TOPLEVELBLOCKALLOCATOR"@,
        WaitType::SOS_MEMORY_USAGE_ADJUSTMENT => "SOS_MEMORY_USAGE_ADJUSTMENT"@,
        WaitType::SOS_OBJECT_STORE_DESTROY_MUTEX => "SOS_OBJECT_STORE_DESTROY_MUTEX"@,
        WaitType::SOS_PHYS_PAGE_CACHE => "SOS_PHYS_PAGE_CACHE"@,
        WaitType::SOS_PROCESS_AFFINITY_MUTEX => "SOS_PROCESS_AFFINITY_MUTEX"@,
        WaitType::SOS_RESERVEDMEMBLOCKLIST => "SOS_RESERVEDMEMBLOCKLIST"@,
        WaitType::SOS_SCHEDULER_YIELD => "SOS_SCHEDULER_YIELD"@,
        WaitType::SOS_SMALL_PAGE_ALLOC => "SOS_SMALL_PAGE_ALLOC"@,
        WaitType::SOS_STACKSTORE_INIT_MUTEX => "SOS_STACKSTORE_INIT_MUTEX"@,
        WaitType::SOS_SYNC_TASK_ENQUEUE_EVENT => "SOS_SYNC_TASK_ENQUEUE_EVENT"@,
        WaitType::SOS_VIRTUALMEMORY_LOW => "SOS_VIRTUALMEMORY_LOW"@,
        WaitType::SOS_WORK_DISPATCHER => "SOS_WORK_DISPATCHER"@,
        WaitType::SPINLOCK_EXT => "SPINLOCK_EXT"@,
        WaitType::SP_PREEMPTIVE_SERVER_DIAGNOSTICS_SLEEP => "SP_PREEMPTIVE_SERVER_DIAGNOSTICS_SLEEP"@,
        WaitType::SP_SERVER_DIAGNOSTICS_BUFFER_ACCESS => "SP_SERVER_DIAGNOSTICS_BUFFER_ACCESS"@,
        WaitType::SP_SERVER_DIAGNOSTICS_INIT_MUTEX => "SP_SERVER_DIAGNOSTICS_INIT_MUTEX"@,
        WaitType::SP_SERVER_DIAGNOSTICS_SLEEP => "SP_SERVER_DIAGNOSTICS_SLEEP"@,
        WaitType::SQLCLR_APPDOMAIN => "SQLCLR_APPDOMAIN"@,
        WaitType::SQLCLR_ASSEMBLY => "SQLCLR_ASSEMBLY"@,
        WaitType::SQLCLR_DEADLOCK_DETECTION => "SQLCLR_DEADLOCK_DETECTION"@,
        WaitType::SQLCLR_QUANTUM_PUNISHMENT => "SQLCLR_QUANTUM_PUNISHMENT"@,
        WaitType::SQLSORT_NORMMUTEX => "SQLSORT_NORMMUTEX"@,
        WaitType::SQLSORT_SORTMUTEX => "SQLSORT_SORTMUTEX"@,
        WaitType::SQLTRACE_BUFFER_FLUSH => "SQLTRACE_BUFFER_FLUSH"@,
        WaitType::SQLTRACE_FILE_BUFFER => "SQLTRACE_FILE_BUFFER"@,
        WaitType::SQLTRACE_FILE_READ_IO_COMPLETION => "SQLTRACE_FILE_READ_IO_COMPLETION"@,
        WaitType::SQLTRACE_FILE_WRITE_IO_COMPLETION => "SQLTRACE_FILE_WRITE_IO_COMPLETION"@,
        _ => seq![],
    }
}

/// `w` is one of the wait types in part 17 of the list.
pub open spec fn in_part_17(w: WaitType) -> bool {
    w is SQLTRACE_INCREMENTAL_FLUSH_SLEEP
        || w is SQLTRACE_LOCK
        || w is SQLTRACE_PENDING_BUFFER_WRITERS
        || w is SQLTRACE_SHUTDOWN
        || w is SQLTRACE_WAIT_ENTRIES
        || w is SRVPROC_SHUTDOWN
        || w is STARTUP_DEPENDENCY_MANAGER
        || w is TDS_BANDWIDTH_STATE
        || w is TDS_INIT
        || w is TDS_PROXY_CONTAINER
        || w is TEMPOBJ
        || w is TEMPORAL_BACKGROUND_PROCEED_CLEANUP
        || w is TERMINATE_LISTENER
        || w is THREADPOOL
        || w is TIMEPRIV_TIMEPERIOD
        || w is TRACEWRITE
        || w is TRACE_EVTNOTIF
        || w is TRANSACTION_MUTEX
        || w is TRAN_MARKLATCH_DT
        || w is TRAN_MARKLATCH_EX
        || w is TRAN_MARKLATCH_KP
        || w is TRAN_MARKLATCH_NL
        || w is TRAN_MARKLATCH_SH
        || w is TRAN_MARKLATCH_UP
        || w is UCS_ENDPOINT_CHANGE
        || w is UCS_MANAGER
        || w is UCS_MEMORY_NOTIFICATION
        || w is UCS_SESSION_REGISTRATION
        || w is UCS_TRANSPORT
        || w is UCS_TRANSPORT_STREAM_CHANGE
        || w is UTIL_PAGE_ALLOC
        || w is VDI_CLIENT_COMPLETECOMMAND
        || w is VDI_CLIENT_GETCOMMAND
        || w is VDI_CLIENT_OPERATION
        || w is VDI_CLIENT_OTHER
        || w is VERSIONING_COMMITTING
        || w is VIA_ACCEPT
        || w is VIEW_DEFINITION_MUTEX
        || w is WAITFOR
        || w is WAITFOR_PER_QUEUE
        || w is WAITFOR_TASKSHUTDOWN
        || w is WAITSTAT_MUTEX
        || w is WAIT_FOR_RESULTS
        || w is WAIT_ON_SYNC_STATISTICS_REFRESH
        || w is WAIT_SCRIPTDEPLOYMENT_REQUEST
        || w is WAIT_SCRIPTDEPLOYMENT_WORKER
        || w is WAIT_XLOGREAD_SIGNAL
        || w is WAIT_XTP_ASYNC_TX_COMPLETION
        || w is WAIT_XTP_CKPT_AGENT_WAKEUP
        || w is WAIT_XTP_CKPT_CLOSE
}

/// The names of the wait types in part 17 of the list.
#[verifier::opaque]
pub open spec fn listed_name_17(w: WaitType) -> Seq<char> {
    match w {
        WaitType::SQLTRACE_INCREMENTAL_FLUSH_SLEEP => "SQLTRACE_INCREMENTAL_FLUSH_SLEEP"@,
        WaitType::SQLTRACE_LOCK => "SQLTRACE_LOCK"@,
        WaitType::SQLTRACE_PENDING_BUFFER_WRITERS => "SQLTRACE_PENDING_BUFFER_WRITERS"@,
        WaitType::SQLTRACE_SHUTDOWN => "SQLTRACE_SHUTDOWN"@,
        WaitType::SQLTRACE_WAIT_ENTRIES => "SQLTRACE_WAIT_ENTRIES"@,
        WaitType::SRVPROC_SHUTDOWN => "SRVPROC_SHUTDOWN"@,
        WaitType::STARTUP_DEPENDENCY_MANAGER => "STARTUP_DEPENDENCY_MANAGER"@,
        WaitType::TDS_BANDWIDTH_STATE => "TDS_BANDWIDTH_STATE"@,
        WaitType::TDS_INIT => "TDS_INIT"@,
        WaitType::TDS_PROXY_CONTAINER => "TDS_PROXY_CONTAINER"@,
        WaitType::TEMPOBJ => "TEMPOBJ"@,
        WaitType::TEMPORAL_BACKGROUND_PROCEED_CLEANUP => "TEMPORAL_BACKGROUND_PROCEED_CLEANUP"@,
        WaitType::TERMINATE_LISTENER => "TERMINATE_LISTENER"@,
        WaitType::THREADPOOL => "THREADPOOL"@,
        WaitType::TIMEPRIV_TIMEPERIOD => "TIMEPRIV_TIMEPERIOD"@,
        WaitType::TRACEWRITE => "TRACEWRITE"@,
        WaitType::TRACE_EVTNOTIF => "TRACE_EVTNOTIF"@,
        WaitType::TRANSACTION_MUTEX => "TRANSACTION_MUTEX"@,
        WaitType::TRAN_MARKLATCH_DT => "TRAN_MARKLATCH_DT"@,
        WaitType::TRAN_MARKLATCH_EX => "TRAN_MARKLATCH_EX"@,
        WaitType::TRAN_MARKLATCH_KP => "TRAN_MARKLATCH_KP"@,
        WaitType::TRAN_MARKLATCH_NL => "TRAN_MARKLATCH_NL"@,
        WaitType::TRAN_MARKLATCH_SH => "TRAN_MARKLATCH_SH"@,
        WaitType::TRAN_MARKLATCH_UP => "TRAN_MARKLATCH_UP"@,
        WaitType::UCS_ENDPOINT_CHANGE => "UCS_ENDPOINT_CHANGE"@,
        WaitType::UCS_MANAGER => "UCS_MANAGER"@,
        WaitType::UCS_MEMORY_NOTIFICATION => "UCS_MEMORY_NOTIFICATION"@,
        WaitType::UCS_SESSION_REGISTRATION => "UCS_SESSION_REGISTRATION"@,
        WaitType::UCS_TRANSPORT => "UCS_TRANSPORT"@,
        WaitType::UCS_TRANSPORT_STREAM_CHANGE => "UCS_TRANSPORT_STREAM_CHANGE"@,
        WaitType::UTIL_PAGE_ALLOC => "UTIL_PAGE_ALLOC"@,
        WaitType::VDI_CLIENT_COMPLETECOMMAND => "VDI_CLIENT_COMPLETECOMMAND"@,
        WaitType::VDI_CLIENT_GETCOMMAND => "VDI_CLIENT_GETCOMMAND"@,
        WaitType::VDI_CLIENT_OPERATION => "VDI_CLIENT_OPERATION"@,
        WaitType::VDI_CLIENT_OTHER => "VDI_CLIENT_OTHER"@,
        WaitType::VERSIONING_COMMITTING => "VERSIONING_COMMITTING"@,
        WaitType::VIA_ACCEPT => "VIA_ACCEPT"@,
        WaitType::VIEW_DEFINITION_MUTEX => "VIEW_DEFINITION_MUTEX"@,
        WaitType::WAITFOR => "WAITFOR"@,
        WaitType::WAITFOR_PER_QUEUE => "WAITFOR_PER_QUEUE"@,
        WaitType::WAITFOR_TASKSHUTDOWN => "WAITFOR_TASKSHUTDOWN"@,
        WaitType::WAITSTAT_MUTEX => "WAITSTAT_MUTEX"@,
        WaitType::WAIT_FOR_RESULTS => "WAIT_FOR_RESULTS"@,
        WaitType::WAIT_ON_SYNC_STATISTICS_REFRESH => "WAIT_ON_SYNC_STATISTICS_REFRESH"@,
        WaitType::WAIT_SCRIPTDEPLOYMENT_REQUEST => "WAIT_SCRIPTDEPLOYMENT_REQUEST"@,
        WaitType::WAIT_SCRIPTDEPLOYMENT_WORKER => "WAIT_SCRIPTDEPLOYMENT_WORKER"@,
        WaitType::WAIT_XLOGREAD_SIGNAL => "WAIT_XLOGREAD_SIGNAL"@,
        WaitType::WAIT_XTP_ASYNC_TX_COMPLETION => "WAIT_XTP_ASYNC_TX_COMPLETION"@,
        WaitType::WAIT_XTP_CKPT_AGENT_WAKEUP => "WAIT_XTP_CKPT_AGENT_WAKEUP"@,
        WaitType::WAIT_XTP_CKPT_CLOSE => "WAIT_XTP_CKPT_CLOSE"@,
        _ => seq![],
    }
}

/// `w` is one of the wait types in part 18 of the list.
pub open spec fn in_part_18(w: WaitType) -> bool {
    w is WAIT_XTP_CKPT_ENABLED
        || w is WAIT_XTP_CKPT_STATE_LOCK
        || w is WAIT_XTP_COMPILE_WAIT
        || w is WAIT_XTP_GUEST
        || w is WAIT_XTP_HOST_WAIT
        || w is WAIT_XTP_OFFLINE_CKPT_BEFORE_REDO
        || w is WAIT_XTP_OFFLINE_CKPT_LOG_IO
        || w is WAIT_XTP_OFFLINE_CKPT_NEW_LOG
        || w is WAIT_XTP_PROCEDURE_ENTRY
        || w is WAIT_XTP_RECOVERY
        || w is WAIT_XTP_SERIAL_RECOVERY
        || w is WAIT_XTP_SWITCH_TO_INACTIVE
        || w is WAIT_XTP_TASK_SHUTDOWN
        || w is WAIT_XTP_TRAN_DEPENDENCY
        || w is WCC
        || w is WINDOW_AGGREGATES_MULTIPASS
        || w is WINFAB_API_CALL
        || w is WINFAB_REPLICA_BUILD_OPERATION
        || w is WINFAB_REPORT_FAULT
        || w is WORKTBL_DROP
        || w is WRITELOG
        || w is WRITE_COMPLETION
        || w is XACTLOCKINFO
        || w is XACTWORKSPACE_MUTEX
        || w is XACT_OWN_TRANSACTION
        || w is XACT_RECLAIM_SESSION
        || w is XDB_CONN_DUP_HASH
        || w is XDESTSVERMGR
        || w is XDES_HISTORY
        || w is XDES_OUT_OF_ORDER_LIST
        || w is XDES_SNAPSHOT
        || w is XE_BUFFERMGR_ALLPROCESSED_EVENT
        || w is XE_BUFFERMGR_FREEBUF_EVENT
        || w is XE_CALLBACK_LIST
        || w is XE_CX_FILE_READ
        || w is XE_DISPATCHER_CONFIG_SESSION_LIST
        || w is XE_DISPATCHER_JOIN
        || w is XE_DISPATCHER_WAIT
        || w is XE_FILE_TARGET_TVF
        || w is XE_LIVE_TARGET_TVF
        || w is XE_MODULEMGR_SYNC
        || w is XE_OLS_LOCK
        || w is XE_PACKAGE_LOCK_BACKOFF
        || w is XE_SERVICES_EVENTMANUAL
        || w is XE_SERVICES_MUTEX
        || w is XE_SERVICES_RWLOCK
        || w is XE_SESSION_CREATE_SYNC
        || w is XE_SESSION_FLUSH
        || w is XE_SESSION_SYNC
        || w is XE_STM_CREATE
}

/// The names of the wait types in part 18 of the list.
#[verifier::opaque]
pub open spec fn listed_name_18(w: WaitType) -> Seq<char> {
    match w {
        WaitType::WAIT_XTP_CKPT_ENABLED => "WAIT_XTP_CKPT_ENABLED"@,
        WaitType::WAIT_XTP_CKPT_STATE_LOCK => "WAIT_XTP_CKPT_STATE_LOCK"@,
        WaitType::WAIT_XTP_COMPILE_WAIT => "WAIT_XTP_COMPILE_WAIT"@,
        WaitType::WAIT_XTP_GUEST => "WAIT_XTP_GUEST"@,
        WaitType::WAIT_XTP_HOST_WAIT => "WAIT_XTP_HOST_WAIT"@,
        WaitType::WAIT_XTP_OFFLINE_CKPT_BEFORE_REDO => "WAIT_XTP_OFFLINE_CKPT_BEFORE_REDO"@,
        WaitType::WAIT_XTP_OFFLINE_CKPT_LOG_IO => "WAIT_XTP_OFFLINE_CKPT_LOG_IO"@,
        WaitType::WAIT_XTP_OFFLINE_CKPT_NEW_LOG => "WAIT_XTP_OFFLINE_CKPT_NEW_LOG"@,
        WaitType::WAIT_XTP_PROCEDURE_ENTRY => "WAIT_XTP_PROCEDURE_ENTRY"@,
        WaitType::WAIT_XTP_RECOVERY => "WAIT_XTP_RECOVERY"@,
        WaitType::WAIT_XTP_SERIAL_RECOVERY => "WAIT_XTP_SERIAL_RECOVERY"@,
        WaitType::WAIT_XTP_SWITCH_TO_INACTIVE => "WAIT_XTP_SWITCH_TO_INACTIVE"@,
        WaitType::WAIT_XTP_TASK_SHUTDOWN => "WAIT_XTP_TASK_SHUTDOWN"@,
        WaitType::WAIT_XTP_TRAN_DEPENDENCY => "WAIT_XTP_TRAN_DEPENDENCY"@,
        WaitType::WCC => "WCC"@,
        WaitType::WINDOW_AGGREGATES_MULTIPASS => "WINDOW_AGGREGATES_MULTIPASS"@,
        WaitType::WINFAB_API_CALL => "WINFAB_API_CALL"@,
        WaitType::WINFAB_REPLICA_BUILD_OPERATION => "WINFAB_REPLICA_BUILD_OPERATION"@,
        WaitType::WINFAB_REPORT_FAULT => "WINFAB_REPORT_FAULT"@,
        WaitType::WORKTBL_DROP => "WORKTBL_DROP"@,
        WaitType::WRITELOG => "WRITELOG"@,
        WaitType::WRITE_COMPLETION => "WRITE_COMPLETION"@,
        WaitType::XACTLOCKINFO => "XACTLOCKINFO"@,
        WaitType::XACTWORKSPACE_MUTEX => "XACTWORKSPACE_MUTEX"@,
        WaitType::XACT_OWN_TRANSACTION => "XACT_OWN_TRANSACTION"@,
        WaitType::XACT_RECLAIM_SESSION => "XACT_RECLAIM_SESSION"@,
        WaitType::XDB_CONN_DUP_HASH => "XDB_CONN_DUP_HASH"@,
        WaitType::XDESTSVERMGR => "XDESTSVERMGR"@,
        WaitType::XDES_HISTORY => "XDES_HISTORY"@,
        WaitType::XDES_OUT_OF_ORDER_LIST => "XDES_OUT_OF_ORDER_LIST"@,
        WaitType::XDES_SNAPSHOT => "XDES_SNAPSHOT"@,
        WaitType::XE_BUFFERMGR_ALLPROCESSED_EVENT => "XE_BUFFERMGR_ALLPROCESSED_EVENT"@,
        WaitType::XE_BUFFERMGR_FREEBUF_EVENT => "XE_BUFFERMGR_FREEBUF_EVENT"@,
        WaitType::XE_CALLBACK_LIST => "XE_CALLBACK_LIST"@,
        WaitType::XE_CX_FILE_READ => "XE_CX_FILE_READ"@,
        WaitType::XE_DISPATCHER_CONFIG_SESSION_LIST => "XE_DISPATCHER_CONFIG_SESSION_LIST"@,
        WaitType::XE_DISPATCHER_JOIN => "XE_DISPATCHER_JOIN"@,
        WaitType::XE_DISPATCHER_WAIT => "XE_DISPATCHER_WAIT"@,
        WaitType::XE_FILE_TARGET_TVF => "XE_FILE_TARGET_TVF"@,
        WaitType::XE_LIVE_TARGET_TVF => "XE_LIVE_TARGET_TVF"@,
        WaitType::XE_MODULEMGR_SYNC => "XE_MODULEMGR_SYNC"@,
        WaitType::XE_OLS_LOCK => "XE_OLS_LOCK"@,
        WaitType::XE_PACKAGE_LOCK_BACKOFF => "XE_PACKAGE_LOCK_BACKOFF"@,
        WaitType::XE_SERVICES_EVENTMANUAL => "XE_SERVICES_EVENTMANUAL"@,
        WaitType::XE_SERVICES_MUTEX => "XE_SERVICES_MUTEX"@,
        WaitType::XE_SERVICES_RWLOCK => "XE_SERVICES_RWLOCK"@,
        WaitType::XE_SESSION_CREATE_SYNC => "XE_SESSION_CREATE_SYNC"@,
        WaitType::XE_SESSION_FLUSH => "XE_SESSION_FLUSH"@,
        WaitType::XE_SESSION_SYNC => "XE_SESSION_SYNC"@,
        WaitType::XE_STM_CREATE => "XE_STM_CREATE"@,
        _ => seq![],
    }
}

/// `w` is one of the wait types in part 19 of the list.
pub open spec fn in_part_19(w: WaitType) -> bool {
    w is XE_TIMER_EVENT
        || w is XE_TIMER_MUTEX
        || w is XE_TIMER_TASK_DONE
        || w is XIO_CREDENTIAL_MGR_RWLOCK
        || w is XIO_CREDENTIAL_RWLOCK
        || w is XIO_EDS_MGR_RWLOCK
        || w is XIO_EDS_RWLOCK
        || w is XIO_IOSTATS_BLOBLIST_RWLOCK
        || w is XIO_IOSTATS_FCBLIST_RWLOCK
        || w is XIO_LEASE_RENEW_MGR_RWLOCK
        || w is XTPPROC_CACHE_ACCESS
        || w is XTPPROC_PARTITIONED_STACK_CREATE
        || w is XTP_HOST_DB_COLLECTION
        || w is XTP_HOST_LOG_ACTIVITY
        || w is XTP_HOST_PARALLEL_RECOVERY
        || w is XTP_PREEMPTIVE_TASK
        || w is XTP_TRUNCATION_LSN
}

/// The names of the wait types in part 19 of the list.
#[verifier::opaque]
pub open spec fn listed_name_19(w: WaitType) -> Seq<char> {
    match w {
        WaitType::XE_TIMER_EVENT => "XE_TIMER_EVENT"@,
        WaitType::XE_TIMER_MUTEX => "XE_TIMER_MUTEX"@,
        WaitType::XE_TIMER_TASK_DONE => "XE_TIMER_TASK_DONE"@,
        WaitType::XIO_CREDENTIAL_MGR_RWLOCK => "XIO_CREDENTIAL_MGR_RWLOCK"@,
        WaitType::XIO_CREDENTIAL_RWLOCK => "XIO_CREDENTIAL_RWLOCK"@,
        WaitType::XIO_EDS_MGR_RWLOCK => "XIO_EDS_MGR_RWLOCK"@,
        WaitType::XIO_EDS_RWLOCK => "XIO_EDS_RWLOCK"@,
        WaitType::XIO_IOSTATS_BLOBLIST_RWLOCK => "XIO_IOSTATS_BLOBLIST_RWLOCK"@,
        WaitType::XIO_IOSTATS_FCBLIST_RWLOCK => "XIO_IOSTATS_FCBLIST_RWLOCK"@,
        WaitType::XIO_LEASE_RENEW_MGR_RWLOCK => "XIO_LEASE_RENEW_MGR_RWLOCK"@,
        WaitType::XTPPROC_CACHE_ACCESS => "XTPPROC_CACHE_ACCESS"@,
        WaitType::XTPPROC_PARTITIONED_STACK_CREATE => "XTPPROC_PARTITIONED_STACK_CREATE"@,
        WaitType::XTP_HOST_DB_COLLECTION => "XTP_HOST_DB_COLLECTION"@,
        WaitType::XTP_HOST_LOG_ACTIVITY => "XTP_HOST_LOG_ACTIVITY"@,
        WaitType::XTP_HOST_PARALLEL_RECOVERY => "XTP_HOST_PARALLEL_RECOVERY"@,
        WaitType::XTP_PREEMPTIVE_TASK => "XTP_PREEMPTIVE_TASK"@,
        WaitType::XTP_TRUNCATION_LSN => "XTP_TRUNCATION_LSN"@,
        _ => seq![],
    }
}

/// The name of a wait type as SQL Server writes it; for an unknown wait
/// type, the name it was read from.
pub open spec fn wait_type_name(w: WaitType) -> Seq<char> {
    match w {
        WaitType::Unknown(s) => s@,
        _ => if in_part_0(w) {
            listed_name_0(w)
        } else if in_part_1(w) {
            listed_name_1(w)
        } else if in_part_2(w) {
            listed_name_2(w)
        } else if in_part_3(w) {
            listed_name_3(w)
        } else if in_part_4(w) {
            listed_name_4(w)
        } else if in_part_5(w) {
            listed_name_5(w)
        } else if in_part_6(w) {
            listed_name_6(w)
        } else if in_part_7(w) {
            listed_name_7(w)
        } else if in_part_8(w) {
            listed_name_8(w)
        } else if in_part_9(w) {
            listed_name_9(w)
        } else if in_part_10(w) {
            listed_name_10(w)
        } else if in_part_11(w) {
            listed_name_11(w)
        } else if in_part_12(w) {
            listed_name_12(w)
        } else if in_part_13(w) {
            listed_name_13(w)
        } else if in_part_14(w) {
            listed_name_14(w)
        } else if in_part_15(w) {
            listed_name_15(w)
        } else if in_part_16(w) {
            listed_name_16(w)
        } else if in_part_17(w) {
            listed_name_17(w)
        } else if in_part_18(w) {
            listed_name_18(w)
        } else if in_part_19(w) {
            listed_name_19(w)
        } else {
            seq![]
        },
    }
}

impl View for WaitType {
    type V = Seq<char>;

    /// The name of the wait type.
    open spec fn view(&self) -> Seq<char> {
        wait_type_name(*self)
    }
}

/// The name of a wait type in part 0 of the list is given by that part.
#[verifier::rlimit(60)]
pub proof fn lemma_name_in_part_0(w: WaitType)
    requires
        in_part_0(w),
    ensures
        w !is Unknown,
        wait_type_name(w) == listed_name_0(w),
{
}

/// The name of a wait type in part 1 of the list is given by that part.
#[verifier::rlimit(60)]
pub proof fn lemma_name_in_part_1(w: WaitType)
    requires
        in_part_1(w),
    ensures
        w !is Unknown,
        wait_type_name(w) == listed_name_1(w),
{
}

/// The name of a wait type in part 2 of the list is given by that part.
#[verifier::rlimit(60)]
pub proof fn lemma_name_in_part_2(w: WaitType)
    requires
        in_part_2(w),
    ensures
        w !is Unknown,
        wait_type_name(w) == listed_name_2(w),
{
}

/// The name of a wait type in part 3 of the list is given by that part.
#[verifier::rlimit(60)]
pub proof fn lemma_name_in_part_3(w: WaitType)
    requires
        in_part_3(w),
    ensures
        w !is Unknown,
        wait_type_name(w) == listed_name_3(w),
{
}

/// The name of a wait type in part 4 of the list is given by that part.
#[verifier::rlimit(60)]
pub proof fn lemma_name_in_part_4(w: WaitType)
    requires
        in_part_4(w),
    ensures
        w !is Unknown,
        wait_type_name(w) == listed_name_4(w),
{
}

/// The name of a wait type in part 5 of the list is given by that part.
#[verifier::rlimit(60)]
pub proof fn lemma_name_in_part_5(w: WaitType)
    requires
        in_part_5(w),
    ensures
        w !is Unknown,
        wait_type_name(w) == listed_name_5(w),
{
}

/// The name of a wait type in part 6 of the list is given by that part.
#[verifier::rlimit(60)]
pub proof fn lemma_name_in_part_6(w: WaitType)
    requires
        in_part_6(w),
    ensures
        w !is Unknown,
        wait_type_name(w) == listed_name_6(w),
{
}

/// The name of a wait type in part 7 of the list is given by that part.
#[verifier::rlimit(60)]
pub proof fn lemma_name_in_part_7(w: WaitType)
    requires
        in_part_7(w),
    ensures
        w !is Unknown,
        wait_type_name(w) == listed_name_7(w),
{
}

/// The name of a wait type in part 8 of the list is given by that part.
#[verifier::rlimit(60)]
pub proof fn lemma_name_in_part_8(w: WaitType)
    requires
        in_part_8(w),
    ensures
        w !is Unknown,
        wait_type_name(w) == listed_name_8(w),
{
}

/// The name of a wait type in part 9 of the list is given by that part.
#[verifier::rlimit(60)]
pub proof fn lemma_name_in_part_9(w: WaitType)
    requires
        in_part_9(w),
    ensures
        w !is Unknown,
        wait_type_name(w) == listed_name_9(w),
{
}

/// The name of a wait type in part 10 of the list is given by that part.
#[verifier::rlimit(60)]
pub proof fn lemma_name_in_part_10(w: WaitType)
    requires
        in_part_10(w),
    ensures
        w !is Unknown,
        wait_type_name(w) == listed_name_10(w),
{
}

/// The name of a wait type in part 11 of the list is given by that part.
#[verifier::rlimit(60)]
pub proof fn lemma_name_in_part_11(w: WaitType)
    requires
        in_part_11(w),
    ensures
        w !is Unknown,
        wait_type_name(w) == listed_name_11(w),
{
}

/// The name of a wait type in part 12 of the list is given by that part.
#[verifier::rlimit(60)]
pub proof fn lemma_name_in_part_12(w: WaitType)
    requires
        in_part_12(w),
    ensures
        w !is Unknown,
        wait_type_name(w) == listed_name_12(w),
{
}

/// The name of a wait type in part 13 of the list is given by that part.
#[verifier::rlimit(60)]
pub proof fn lemma_name_in_part_13(w: WaitType)
    requires
        in_part_13(w),
    ensures
        w !is Unknown,
        wait_type_name(w) == listed_name_13(w),
{
}

/// The name of a wait type in part 14 of the list is given by that part.
#[verifier::rlimit(60)]
pub proof fn lemma_name_in_part_14(w: WaitType)
    requires
        in_part_14(w),
    ensures
        w !is Unknown,
        wait_type_name(w) == listed_name_14(w),
{
}

/// The name of a wait type in part 15 of the list is given by that part.
#[verifier::rlimit(60)]
pub proof fn lemma_name_in_part_15(w: WaitType)
    requires
        in_part_15(w),
    ensures
        w !is Unknown,
        wait_type_name(w) == listed_name_15(w),
{
}

/// The name of a wait type in part 16 of the list is given by that part.
#[verifier::rlimit(60)]
pub proof fn lemma_name_in_part_16(w: WaitType)
    requires
        in_part_16(w),
    ensures
        w !is Unknown,
        wait_type_name(w) == listed_name_16(w),
{
}

/// The name of a wait type in part 17 of the list is given by that part.
#[verifier::rlimit(60)]
pub proof fn lemma_name_in_part_17(w: WaitType)
    requires
        in_part_17(w),
    ensures
        w !is Unknown,
        wait_type_name(w) == listed_name_17(w),
{
}

/// The name of a wait type in part 18 of the list is given by that part.
#[verifier::rlimit(60)]
pub proof fn lemma_name_in_part_18(w: WaitType)
    requires
        in_part_18(w),
    ensures
        w !is Unknown,
        wait_type_name(w) == listed_name_18(w),
{
}

/// The name of a wait type in part 19 of the list is given by that part.
#[verifier::rlimit(60)]
pub proof fn lemma_name_in_part_19(w: WaitType)
    requires
        in_part_19(w),
    ensures
        w !is Unknown,
        wait_type_name(w) == listed_name_19(w),
{
}

/// One of the names of the wait types in part 0 of the list.
pub open spec fn listed_names_0(c: Seq<char>) -> bool {
    c == "ABR"@
        || c == "AM_INDBUILD_ALLOCATION"@
        || c == "AM_SCHEMAMGR_UNSHARED_CACHE"@
        || c == "ASSEMBLY_FILTER_HASHTABLE"@
        || c == "ASSEMBLY_LOAD"@
        || c == "ASYNC_DISKPOOL_LOCK"@
        || c == "ASYNC_IO_COMPLETION"@
        || c == "ASYNC_NETWORK_IO"@
        || c == "ASYNC_OP_COMPLETION"@
        || c == "ASYNC_OP_CONTEXT_READ"@
        || c == "ASYNC_OP_CONTEXT_WRITE"@
        || c == "ASYNC_SOCKETDUP_IO"@
        || c == "AUDIT_GROUPCACHE_LOCK"@
        || c == "AUDIT_LOGINCACHE_LOCK"@
        || c == "AUDIT_ON_DEMAND_TARGET_LOCK"@
        || c == "AUDIT_XE_SESSION_MGR"@
        || c == "BACKUP"@
        || c == "BACKUPBUFFER"@
        || c == "BACKUPIO"@
        || c == "BACKUPTHREAD"@
        || c == "BACKUP_OPERATOR"@
        || c == "BAD_PAGE_PROCESS"@
        || c == "BLOB_METADATA"@
        || c == "BMPALLOCATION"@
        || c == "BMPBUILD"@
        || c == "BMPREPARTITION"@
        || c == "BMPREPLICATION"@
        || c == "BPSORT"@
        || c == "BROKER_CONNECTION_RECEIVE_TASK"@
        || c == "BROKER_DISPATCHER"@
        || c == "BROKER_ENDPOINT_STATE_MUTEX"@
        || c == "BROKER_EVENTHANDLER"@
        || c == "BROKER_FORWARDER"@
        || c == "BROKER_INIT"@
        || c == "BROKER_MASTERSTART"@
        || c == "BROKER_RECEIVE_WAITFOR"@
        || c == "BROKER_REGISTERALLENDPOINTS"@
        || c == "BROKER_SERVICE"@
        || c == "BROKER_SHUTDOWN"@
        || c == "BROKER_START"@
        || c == "BROKER_TASK_SHUTDOWN"@
        || c == "BROKER_TASK_STOP"@
        || c == "BROKER_TASK_SUBMIT"@
        || c == "BROKER_TO_FLUSH"@
        || c == "BROKER_TRANSMISSION_OBJECT"@
        || c == "BROKER_TRANSMISSION_TABLE"@
        || c == "BROKER_TRANSMISSION_WORK"@
        || c == "BROKER_TRANSMITTER"@
        || c == "BUFFERPOOL_SCAN"@
        || c == "BUILTIN_HASHKEY_MUTEX"@
}

/// One of the names of the wait types in part 1 of the list.
pub open spec fn listed_names_1(c: Seq<char>) -> bool {
    c == "CHANGE_TRACKING_WAITFORCHANGES"@
        || c == "CHECKPOINT_QUEUE"@
        || c == "CHECK_PRINT_RECORD"@
        || c == "CHECK_SCANNER_MUTEX"@
        || c == "CHECK_TABLES_INITIALIZATION"@
        || c == "CHECK_TABLES_SINGLE_SCAN"@
        || c == "CHECK_TABLES_THREAD_BARRIER"@
        || c == "CHKPT"@
        || c == "CLEAR_DB"@
        || c == "CLRHOST_STATE_ACCESS"@
        || c == "CLR_AUTO_EVENT"@
        || c == "CLR_CRST"@
        || c == "CLR_JOIN"@
        || c == "CLR_MANUAL_EVENT"@
        || c == "CLR_MEMORY_SPY"@
        || c == "CLR_MONITOR"@
        || c == "CLR_RWLOCK_READER"@
        || c == "CLR_RWLOCK_WRITER"@
        || c == "CLR_SEMAPHORE"@
        || c == "CLR_TASK_START"@
        || c == "CMEMPARTITIONED"@
        || c == "CMEMTHREAD"@
        || c == "COLUMNSTORE_BUILD_THROTTLE"@
        || c == "COLUMNSTORE_COLUMNDATASET_SESSION_LIST"@
        || c == "COMMIT_TABLE"@
        || c == "CONNECTION_ENDPOINT_LOCK"@
        || c == "COUNTRECOVERYMGR"@
        || c == "CREATE_DATINISERVICE"@
        || c == "CXCONSUMER"@
        || c == "CXPACKET"@
        || c == "CXROWSET_SYNC"@
        || c == "CXSYNC_CONSUMER"@
        || c == "CXSYNC_PORT"@
        || c == "DAC_INIT"@
        || c == "DBCC_SCALE_OUT_EXPR_CACHE"@
        || c == "DBMIRRORING_CMD"@
        || c == "DBMIRROR_DBM_EVENT"@
        || c == "DBMIRROR_DBM_MUTEX"@
        || c == "DBMIRROR_EVENTS_QUEUE"@
        || c == "DBMIRROR_SEND"@
        || c == "DBMIRROR_WORKER_QUEUE"@
        || c == "DBSEEDING_FLOWCONTROL"@
        || c == "DBSEEDING_OPERATION"@
        || c == "DEADLOCK_ENUM_MUTEX"@
        || c == "DEADLOCK_TASK_SEARCH"@
        || c == "DEBUG"@
        || c == "DIRECTLOGCONSUMER_LIST"@
        || c == "DIRTY_PAGE_POLL"@
        || c == "DIRTY_PAGE_SYNC"@
        || c == "DIRTY_PAGE_TABLE_LOCK"@
}

/// One of the names of the wait types in part 2 of the list.
pub open spec fn listed_names_2(c: Seq<char>) -> bool {
    c == "DISABLE_VERSIONING"@
        || c == "DISKIO_SUSPEND"@
        || c == "DISPATCHER_PRIORITY_QUEUE_SEMAPHORE"@
        || c == "DISPATCHER_QUEUE_SEMAPHORE"@
        || c == "DLL_LOADING_MUTEX"@
        || c == "DPT_ENTRY_LOCK"@
        || c == "DROPTEMP"@
        || c == "DROP_DATABASE_TIMER_TASK"@
        || c == "DTC"@
        || c == "DTCNEW_ENLIST"@
        || c == "DTCNEW_PREPARE"@
        || c == "DTCNEW_RECOVERY"@
        || c == "DTCNEW_TM"@
        || c == "DTCNEW_TRANSACTION_ENLISTMENT"@
        || c == "DTCPNTSYNC"@
        || c == "DTC_ABORT_REQUEST"@
        || c == "DTC_RESOLVE"@
        || c == "DTC_STATE"@
        || c == "DTC_TMDOWN_REQUEST"@
        || c == "DTC_WAITFOR_OUTCOME"@
        || c == "DUMPTRIGGER"@
        || c == "DUMP_LOG_COORDINATOR"@
        || c == "DUMP_LOG_COORDINATOR_QUEUE"@
        || c == "EC"@
        || c == "EE_PMOLOCK"@
        || c == "EE_SPECPROC_MAP_INIT"@
        || c == "ENABLE_EMPTY_VERSIONING"@
        || c == "ENABLE_VERSIONING"@
        || c == "ERROR_REPORTING_MANAGER"@
        || c == "EXCHANGE"@
        || c == "EXECSYNC"@
        || c == "EXECUTION_PIPE_EVENT_INTERNAL"@
        || c == "EXTERNAL_RG_UPDATE"@
        || c == "EXTERNAL_SCRIPT_NETWORK_IO"@
        || c == "EXTERNAL_SCRIPT_PREPARE_SERVICE"@
        || c == "EXTERNAL_SCRIPT_SHUTDOWN"@
        || c == "EXTERNAL_WAIT_ON_LAUNCHER"@
        || c == "FABRIC_HADR_TRANSPORT_CONNECTION"@
        || c == "FABRIC_REPLICA_CONTROLLER_LIST"@
        || c == "FABRIC_REPLICA_CONTROLLER_STATE_AND_CONFIG"@
        || c == "FABRIC_REPLICA_PUBLISHER_EVENT_PUBLISH"@
        || c == "FABRIC_REPLICA_PUBLISHER_SUBSCRIBER_LIST"@
        || c == "FABRIC_WAIT_FOR_BUILD_REPLICA_EVENT_PROCESSING"@
        || c == "FAILPOINT"@
        || c == "FCB_REPLICA_READ"@
        || c == "FCB_REPLICA_WRITE"@
        || c == "FEATURE_SWITCHES_UPDATE"@
        || c == "FFT_NSO_DB_KILL_FLAG"@
        || c == "FFT_NSO_DB_LIST"@
        || c == "FFT_NSO_FCB"@
}

/// One of the names of the wait types in part 3 of the list.
pub open spec fn listed_names_3(c: Seq<char>) -> bool {
    c == "FFT_NSO_FCB_FIND"@
        || c == "FFT_NSO_FCB_PARENT"@
        || c == "FFT_NSO_FCB_RELEASE_CACHED_ENTRIES"@
        || c == "FFT_NSO_FCB_STATE"@
        || c == "FFT_NSO_FILEOBJECT"@
        || c == "FFT_NSO_TABLE_LIST"@
        || c == "FFT_NTFS_STORE"@
        || c == "FFT_RECOVERY"@
        || c == "FFT_RSFX_COMM"@
        || c == "FFT_RSFX_WAIT_FOR_MEMORY"@
        || c == "FFT_STARTUP_SHUTDOWN"@
        || c == "FFT_STORE_DB"@
        || c == "FFT_STORE_ROWSET_LIST"@
        || c == "FFT_STORE_TABLE"@
        || c == "FILESTREAM_CACHE"@
        || c == "FILESTREAM_CHUNKER"@
        || c == "FILESTREAM_CHUNKER_INIT"@
        || c == "FILESTREAM_FCB"@
        || c == "FILESTREAM_FILE_OBJECT"@
        || c == "FILESTREAM_WORKITEM_QUEUE"@
        || c == "FILETABLE_SHUTDOWN"@
        || c == "FILE_VALIDATION_THREADS"@
        || c == "FOREIGN_REDO"@
        || c == "FORWARDER_TRANSITION"@
        || c == "FSAGENT"@
        || c == "FSA_FORCE_OWN_XACT"@
        || c == "FSTR_CONFIG_MUTEX"@
        || c == "FSTR_CONFIG_RWLOCK"@
        || c == "FS_FC_RWLOCK"@
        || c == "FS_GARBAGE_COLLECTOR_SHUTDOWN"@
        || c == "FS_HEADER_RWLOCK"@
        || c == "FS_LOGTRUNC_RWLOCK"@
        || c == "FT_COMPROWSET_RWLOCK"@
        || c == "FT_IFTSHC_MUTEX"@
        || c == "FT_IFTSISM_MUTEX"@
        || c == "FT_IFTS_ASYNC_WRITE_PIPE"@
        || c == "FT_IFTS_BLOB_HASH"@
        || c == "FT_IFTS_CATEALOG_SOURCE"@
        || c == "FT_IFTS_CHUNK_BUFFER_CLIENT_MANAGER"@
        || c == "FT_IFTS_CHUNK_BUFFER_PROTO_WORD_LIST"@
        || c == "FT_IFTS_COMP_DESC_MANAGER"@
        || c == "FT_IFTS_CONSUMER_PLUGIN"@
        || c == "FT_IFTS_CRAWL_BATCH_LIST"@
        || c == "FT_IFTS_CRAWL_CHILDREN"@
        || c == "FT_IFTS_DOCID_INTERFACE_LIST"@
        || c == "FT_IFTS_DOCID_LIST"@
        || c == "FT_IFTS_FP_INFO_LIST"@
        || c == "FT_IFTS_HOST_CONTROLLER"@
        || c == "FT_IFTS_MASTER_MERGE_TASK_LIST"@
        || c == "FT_IFTS_MEMREGPOOL"@
}

/// One of the names of the wait types in part 4 of the list.
pub open spec fn listed_names_4(c: Seq<char>) -> bool {
    c == "FT_IFTS_MERGE_FRAGMENT_SYNC"@
        || c == "FT_IFTS_NOISE_WORDS_COLLECTION_CACHE"@
        || c == "FT_IFTS_NOISE_WORDS_RESOURCE"@
        || c == "FT_IFTS_OCCURRENCE_BUFFER_POOL"@
        || c == "FT_IFTS_PIPELINE"@
        || c == "FT_IFTS_PIPELINE_LIST"@
        || c == "FT_IFTS_PIPELINE_MANAGER"@
        || c == "FT_IFTS_PROJECT_FD_INFO_MAP"@
        || c == "FT_IFTS_RWLOCK"@
        || c == "FT_IFTS_SCHEDULER"@
        || c == "FT_IFTS_SCHEDULER_IDLE_WAIT"@
        || c == "FT_IFTS_SHARED_MEMORY"@
        || c == "FT_IFTS_SHUTDOWN_PIPE"@
        || c == "FT_IFTS_SRCH_FD_MANAGER"@
        || c == "FT_IFTS_SRCH_FD_SERVICE"@
        || c == "FT_IFTS_STOPLIST_CACHE_MANAGER"@
        || c == "FT_IFTS_THESAURUS"@
        || c == "FT_IFTS_VERSION_MANAGER"@
        || c == "FT_IFTS_WORK_QUEUE"@
        || c == "FT_MASTER_MERGE"@
        || c == "FT_MASTER_MERGE_COORDINATOR"@
        || c == "FT_METADATA_MUTEX"@
        || c == "FT_PROPERTYLIST_CACHE"@
        || c == "FT_RESTART_CRAWL"@
        || c == "FULLTEXT GATHERER"@
        || c == "GDMA_GET_RESOURCE_OWNER"@
        || c == "GHOSTCLEANUPSYNCMGR"@
        || c == "GHOSTCLEANUP_UPDATE_STATS"@
        || c == "GLOBAL_QUERY_CANCEL"@
        || c == "GLOBAL_QUERY_CLOSE"@
        || c == "GLOBAL_QUERY_CONSUMER"@
        || c == "GLOBAL_QUERY_PRODUCER"@
        || c == "GLOBAL_TRAN_CREATE"@
        || c == "GLOBAL_TRAN_UCS_SESSION"@
        || c == "GUARDIAN"@
        || c == "HADR_AG_MUTEX"@
        || c == "HADR_ARCONTROLLER_NOTIFICATIONS_SUBSCRIBER_LIST"@
        || c == "HADR_AR_CRITICAL_SECTION_ENTRY"@
        || c == "HADR_AR_MANAGER_MUTEX"@
        || c == "HADR_AR_UNLOAD_COMPLETED"@
        || c == "HADR_BACKUP_BULK_LOCK"@
        || c == "HADR_BACKUP_QUEUE"@
        || c == "HADR_CLUSAPI_CALL"@
        || c == "HADR_COMPRESSED_CACHE_SYNC"@
        || c == "HADR_CONNECTIVITY_INFO"@
        || c == "HADR_DATABASE_FLOW_CONTROL"@
        || c == "HADR_DATABASE_VERSIONING_STATE"@
        || c == "HADR_DATABASE_WAIT_FOR_RECOVERY"@
        || c == "HADR_DATABASE_WAIT_FOR_RESTART"@
        || c == "HADR_DATABASE_WAIT_FOR_TRANSITION_TO_VERSIONING"@
}

/// One of the names of the wait types in part 5 of the list.
pub open spec fn listed_names_5(c: Seq<char>) -> bool {
    c == "HADR_DBR_SUBSCRIBER"@
        || c == "HADR_DBR_SUBSCRIBER_FILTER_LIST"@
        || c == "HADR_DBSEEDING"@
        || c == "HADR_DBSEEDING_LIST"@
        || c == "HADR_DBSTATECHANGE_SYNC"@
        || c == "HADR_DB_COMMAND"@
        || c == "HADR_DB_OP_COMPLETION_SYNC"@
        || c == "HADR_DB_OP_START_SYNC"@
        || c == "HADR_FABRIC_CALLBACK"@
        || c == "HADR_FILESTREAM_BLOCK_FLUSH"@
        || c == "HADR_FILESTREAM_FILE_CLOSE"@
        || c == "HADR_FILESTREAM_FILE_REQUEST"@
        || c == "HADR_FILESTREAM_IOMGR"@
        || c == "HADR_FILESTREAM_IOMGR_IOCOMPLETION"@
        || c == "HADR_FILESTREAM_MANAGER"@
        || c == "HADR_FILESTREAM_PREPROC"@
        || c == "HADR_GROUP_COMMIT"@
        || c == "HADR_LOGCAPTURE_SYNC"@
        || c == "HADR_LOGCAPTURE_WAIT"@
        || c == "HADR_LOGPROGRESS_SYNC"@
        || c == "HADR_NOTIFICATION_DEQUEUE"@
        || c == "HADR_NOTIFICATION_WORKER_EXCLUSIVE_ACCESS"@
        || c == "HADR_NOTIFICATION_WORKER_STARTUP_SYNC"@
        || c == "HADR_NOTIFICATION_WORKER_TERMINATION_SYNC"@
        || c == "HADR_PARTNER_SYNC"@
        || c == "HADR_READ_ALL_NETWORKS"@
        || c == "HADR_RECOVERY_WAIT_FOR_CONNECTION"@
        || c == "HADR_RECOVERY_WAIT_FOR_UNDO"@
        || c == "HADR_REPLICAINFO_SYNC"@
        || c == "HADR_SEEDING_CANCELLATION"@
        || c == "HADR_SEEDING_FILE_LIST"@
        || c == "HADR_SEEDING_LIMIT_BACKUPS"@
        || c == "HADR_SEEDING_SYNC_COMPLETION"@
        || c == "HADR_SEEDING_TIMEOUT_TASK"@
        || c == "HADR_SEEDING_WAIT_FOR_COMPLETION"@
        || c == "HADR_SYNCHRONIZING_THROTTLE"@
        || c == "HADR_SYNC_COMMIT"@
        || c == "HADR_TDS_LISTENER_SYNC"@
        || c == "HADR_TDS_LISTENER_SYNC_PROCESSING"@
        || c == "HADR_THROTTLE_LOG_RATE_GOVERNOR"@
        || c == "HADR_THROTTLE_LOG_RATE_LOG_SIZE"@
        || c == "HADR_THROTTLE_LOG_RATE_MISMATCHED_SLO"@
        || c == "HADR_THROTTLE_LOG_RATE_SEEDING"@
        || c == "HADR_THROTTLE_LOG_RATE_SEND_RECV_QUEUE_SIZE"@
        || c == "HADR_TIMER_TASK"@
        || c == "HADR_TRANSPORT_DBRLIST"@
        || c == "HADR_TRANSPORT_FLOW_CONTROL"@
        || c == "HADR_TRANSPORT_SESSION"@
        || c == "HADR_WORK_POOL"@
        || c == "HADR_WORK_QUEUE"@
}

/// One of the names of the wait types in part 6 of the list.
pub open spec fn listed_names_6(c: Seq<char>) -> bool {
    c == "HADR_XRF_STACK_ACCESS"@
        || c == "HCCO_CACHE"@
        || c == "HKCS_PARALLEL_MIGRATION"@
        || c == "HKCS_PARALLEL_RECOVERY"@
        || c == "HK_RESTORE_FILEMAP"@
        || c == "HTBUILD"@
        || c == "HTBUILD_AGG"@
        || c == "HTBUILD_JOIN"@
        || c == "HTDELETE"@
        || c == "HTDELETE_AGG"@
        || c == "HTDELETE_JOIN"@
        || c == "HTMEMO"@
        || c == "HTREINIT"@
        || c == "HTREPARTITION"@
        || c == "HTTP_ENUMERATION"@
        || c == "HTTP_START"@
        || c == "HTTP_STORAGE_CONNECTION"@
        || c == "IMPPROV_IOWAIT"@
        || c == "INSTANCE_LOG_RATE_GOVERNOR"@
        || c == "INTERNAL_TESTING"@
        || c == "IOAFF_RANGE_QUEUE"@
        || c == "IO_AUDIT_MUTEX"@
        || c == "IO_COMPLETION"@
        || c == "IO_QUEUE_LIMIT"@
        || c == "IO_RETRY"@
        || c == "KSOURCE_WAKEUP"@
        || c == "KTM_ENLISTMENT"@
        || c == "KTM_RECOVERY_MANAGER"@
        || c == "KTM_RECOVERY_RESOLUTION"@
        || c == "LATCH_DT"@
        || c == "LATCH_EX"@
        || c == "LATCH_KP"@
        || c == "LATCH_NL"@
        || c == "LATCH_SH"@
        || c == "LATCH_UP"@
        || c == "LAZYWRITER_SLEEP"@
        || c == "LCK_M_BU"@
        || c == "LCK_M_BU_ABORT_BLOCKERS"@
        || c == "LCK_M_BU_LOW_PRIORITY"@
        || c == "LCK_M_IS"@
        || c == "LCK_M_IS_ABORT_BLOCKERS"@
        || c == "LCK_M_IS_LOW_PRIORITY"@
        || c == "LCK_M_IU"@
        || c == "LCK_M_IU_ABORT_BLOCKERS"@
        || c == "LCK_M_IU_LOW_PRIORITY"@
        || c == "LCK_M_IX"@
        || c == "LCK_M_IX_ABORT_BLOCKERS"@
        || c == "LCK_M_IX_LOW_PRIORITY"@
        || c == "LCK_M_RIn_NL"@
        || c == "LCK_M_RIn_NL_ABORT_BLOCKERS"@
}

/// One of the names of the wait types in part 7 of the list.
pub open spec fn listed_names_7(c: Seq<char>) -> bool {
    c == "LCK_M_RIn_NL_LOW_PRIORITY"@
        || c == "LCK_M_RIn_S"@
        || c == "LCK_M_RIn_S_ABORT_BLOCKERS"@
        || c == "LCK_M_RIn_S_LOW_PRIORITY"@
        || c == "LCK_M_RIn_U"@
        || c == "LCK_M_RIn_U_ABORT_BLOCKERS"@
        || c == "LCK_M_RIn_U_LOW_PRIORITY"@
        || c == "LCK_M_RIn_X"@
        || c == "LCK_M_RIn_X_ABORT_BLOCKERS"@
        || c == "LCK_M_RIn_X_LOW_PRIORITY"@
        || c == "LCK_M_RS_S"@
        || c == "LCK_M_RS_S_ABORT_BLOCKERS"@
        || c == "LCK_M_RS_S_LOW_PRIORITY"@
        || c == "LCK_M_RS_U"@
        || c == "LCK_M_RS_U_ABORT_BLOCKERS"@
        || c == "LCK_M_RS_U_LOW_PRIORITY"@
        || c == "LCK_M_RX_S"@
        || c == "LCK_M_RX_S_ABORT_BLOCKERS"@
        || c == "LCK_M_RX_S_LOW_PRIORITY"@
        || c == "LCK_M_RX_U"@
        || c == "LCK_M_RX_U_ABORT_BLOCKERS"@
        || c == "LCK_M_RX_U_LOW_PRIORITY"@
        || c == "LCK_M_RX_X"@
        || c == "LCK_M_RX_X_ABORT_BLOCKERS"@
        || c == "LCK_M_RX_X_LOW_PRIORITY"@
        || c == "LCK_M_S"@
        || c == "LCK_M_SCH_M"@
        || c == "LCK_M_SCH_M_ABORT_BLOCKERS"@
        || c == "LCK_M_SCH_M_LOW_PRIORITY"@
        || c == "LCK_M_SCH_S"@
        || c == "LCK_M_SCH_S_ABORT_BLOCKERS"@
        || c == "LCK_M_SCH_S_LOW_PRIORITY"@
        || c == "LCK_M_SIU"@
        || c == "LCK_M_SIU_ABORT_BLOCKERS"@
        || c == "LCK_M_SIU_LOW_PRIORITY"@
        || c == "LCK_M_SIX"@
        || c == "LCK_M_SIX_ABORT_BLOCKERS"@
        || c == "LCK_M_SIX_LOW_PRIORITY"@
        || c == "LCK_M_S_ABORT_BLOCKERS"@
        || c == "LCK_M_S_LOW_PRIORITY"@
        || c == "LCK_M_S_XACT"@
        || c == "LCK_M_S_XACT_MODIFY"@
        || c == "LCK_M_S_XACT_READ"@
        || c == "LCK_M_U"@
        || c == "LCK_M_UIX"@
        || c == "LCK_M_UIX_ABORT_BLOCKERS"@
        || c == "LCK_M_UIX_LOW_PRIORITY"@
        || c == "LCK_M_U_ABORT_BLOCKERS"@
        || c == "LCK_M_U_LOW_PRIORITY"@
        || c == "LCK_M_X"@
}

/// One of the names of the wait types in part 8 of the list.
pub open spec fn listed_names_8(c: Seq<char>) -> bool {
    c == "LCK_M_X_ABORT_BLOCKERS"@
        || c == "LCK_M_X_LOW_PRIORITY"@
        || c == "LOGBUFFER"@
        || c == "LOGCAPTURE_LOGPOOLTRUNCPOINT"@
        || c == "LOGGENERATION"@
        || c == "LOGMGR"@
        || c == "LOGMGR_FLUSH"@
        || c == "LOGMGR_PMM_LOG"@
        || c == "LOGMGR_QUEUE"@
        || c == "LOGMGR_RESERVE_APPEND"@
        || c == "LOGPOOLREFCOUNTEDOBJECT_REFDONE"@
        || c == "LOGPOOL_CACHESIZE"@
        || c == "LOGPOOL_CONSUMER"@
        || c == "LOGPOOL_CONSUMERSET"@
        || c == "LOGPOOL_FREEPOOLS"@
        || c == "LOGPOOL_MGRSET"@
        || c == "LOGPOOL_REPLACEMENTSET"@
        || c == "LOG_POOL_SCAN"@
        || c == "LOG_RATE_GOVERNOR"@
        || c == "LOWFAIL_MEMMGR_QUEUE"@
        || c == "MD_AGENT_YIELD"@
        || c == "MD_LAZYCACHE_RWLOCK"@
        || c == "MEMORY_ALLOCATION_EXT"@
        || c == "MEMORY_GRANT_UPDATE"@
        || c == "METADATA_LAZYCACHE_RWLOCK"@
        || c == "MIGRATIONBUFFER"@
        || c == "MISCELLANEOUS"@
        || c == "MSQL_DQ"@
        || c == "MSQL_XACT_MGR_MUTEX"@
        || c == "MSQL_XACT_MUTEX"@
        || c == "MSQL_XP"@
        || c == "MSSEARCH"@
        || c == "NETWORKSXMLMGRLOAD"@
        || c == "NET_WAITFOR_PACKET"@
        || c == "NODE_CACHE_MUTEX"@
        || c == "OLEDB"@
        || c == "ONDEMAND_TASK_QUEUE"@
        || c == "PAGEIOLATCH_DT"@
        || c == "PAGEIOLATCH_EX"@
        || c == "PAGEIOLATCH_KP"@
        || c == "PAGEIOLATCH_NL"@
        || c == "PAGEIOLATCH_SH"@
        || c == "PAGEIOLATCH_UP"@
        || c == "PAGELATCH_DT"@
        || c == "PAGELATCH_EX"@
        || c == "PAGELATCH_KP"@
        || c == "PAGELATCH_NL"@
        || c == "PAGELATCH_SH"@
        || c == "PAGELATCH_UP"@
        || c == "PARALLEL_BACKUP_QUEUE"@
}

/// One of the names of the wait types in part 9 of the list.
pub open spec fn listed_names_9(c: Seq<char>) -> bool {
    c == "PARALLEL_REDO_DRAIN_WORKER"@
        || c == "PARALLEL_REDO_FLOW_CONTROL"@
        || c == "PARALLEL_REDO_LOG_CACHE"@
        || c == "PARALLEL_REDO_TRAN_LIST"@
        || c == "PARALLEL_REDO_TRAN_TURN"@
        || c == "PARALLEL_REDO_WORKER_SYNC"@
        || c == "PARALLEL_REDO_WORKER_WAIT_WORK"@
        || c == "PERFORMANCE_COUNTERS_RWLOCK"@
        || c == "PHYSICAL_SEEDING_DMV"@
        || c == "POOL_LOG_RATE_GOVERNOR"@
        || c == "PREEMPTIVE_ABR"@
        || c == "PREEMPTIVE_AUDIT_ACCESS_EVENTLOG"@
        || c == "PREEMPTIVE_AUDIT_ACCESS_SECLOG"@
        || c == "PREEMPTIVE_CLOSEBACKUPMEDIA"@
        || c == "PREEMPTIVE_CLOSEBACKUPTAPE"@
        || c == "PREEMPTIVE_CLOSEBACKUPVDIDEVICE"@
        || c == "PREEMPTIVE_CLUSAPI_CLUSTERRESOURCECONTROL"@
        || c == "PREEMPTIVE_COM_COCREATEINSTANCE"@
        || c == "PREEMPTIVE_COM_COGETCLASSOBJECT"@
        || c == "PREEMPTIVE_COM_CREATEACCESSOR"@
        || c == "PREEMPTIVE_COM_DELETEROWS"@
        || c == "PREEMPTIVE_COM_GETCOMMANDTEXT"@
        || c == "PREEMPTIVE_COM_GETDATA"@
        || c == "PREEMPTIVE_COM_GETNEXTROWS"@
        || c == "PREEMPTIVE_COM_GETRESULT"@
        || c == "PREEMPTIVE_COM_GETROWSBYBOOKMARK"@
        || c == "PREEMPTIVE_COM_LBFLUSH"@
        || c == "PREEMPTIVE_COM_LBLOCKREGION"@
        || c == "PREEMPTIVE_COM_LBREADAT"@
        || c == "PREEMPTIVE_COM_LBSETSIZE"@
        || c == "PREEMPTIVE_COM_LBSTAT"@
        || c == "PREEMPTIVE_COM_LBUNLOCKREGION"@
        || c == "PREEMPTIVE_COM_LBWRITEAT"@
        || c == "PREEMPTIVE_COM_QUERYINTERFACE"@
        || c == "PREEMPTIVE_COM_RELEASE"@
        || c == "PREEMPTIVE_COM_RELEASEACCESSOR"@
        || c == "PREEMPTIVE_COM_RELEASEROWS"@
        || c == "PREEMPTIVE_COM_RELEASESESSION"@
        || c == "PREEMPTIVE_COM_RESTARTPOSITION"@
        || c == "PREEMPTIVE_COM_SEQSTRMREAD"@
        || c == "PREEMPTIVE_COM_SEQSTRMREADANDWRITE"@
        || c == "PREEMPTIVE_COM_SETDATAFAILURE"@
        || c == "PREEMPTIVE_COM_SETPARAMETERINFO"@
        || c == "PREEMPTIVE_COM_SETPARAMETERPROPERTIES"@
        || c == "PREEMPTIVE_COM_STRMLOCKREGION"@
        || c == "PREEMPTIVE_COM_STRMSEEKANDREAD"@
        || c == "PREEMPTIVE_COM_STRMSEEKANDWRITE"@
        || c == "PREEMPTIVE_COM_STRMSETSIZE"@
        || c == "PREEMPTIVE_COM_STRMSTAT"@
        || c == "PREEMPTIVE_COM_STRMUNLOCKREGION"@
}

/// One of the names of the wait types in part 10 of the list.
pub open spec fn listed_names_10(c: Seq<char>) -> bool {
    c == "PREEMPTIVE_CONSOLEWRITE"@
        || c == "PREEMPTIVE_CREATEPARAM"@
        || c == "PREEMPTIVE_DEBUG"@
        || c == "PREEMPTIVE_DFSADDLINK"@
        || c == "PREEMPTIVE_DFSLINKEXISTCHECK"@
        || c == "PREEMPTIVE_DFSLINKHEALTHCHECK"@
        || c == "PREEMPTIVE_DFSREMOVELINK"@
        || c == "PREEMPTIVE_DFSREMOVEROOT"@
        || c == "PREEMPTIVE_DFSROOTFOLDERCHECK"@
        || c == "PREEMPTIVE_DFSROOTINIT"@
        || c == "PREEMPTIVE_DFSROOTSHARECHECK"@
        || c == "PREEMPTIVE_DTC_ABORT"@
        || c == "PREEMPTIVE_DTC_ABORTREQUESTDONE"@
        || c == "PREEMPTIVE_DTC_BEGINTRANSACTION"@
        || c == "PREEMPTIVE_DTC_COMMITREQUESTDONE"@
        || c == "PREEMPTIVE_DTC_ENLIST"@
        || c == "PREEMPTIVE_DTC_PREPAREREQUESTDONE"@
        || c == "PREEMPTIVE_FILESIZEGET"@
        || c == "PREEMPTIVE_FSAOLEDB_ABORTTRANSACTION"@
        || c == "PREEMPTIVE_FSAOLEDB_COMMITTRANSACTION"@
        || c == "PREEMPTIVE_FSAOLEDB_STARTTRANSACTION"@
        || c == "PREEMPTIVE_FSRECOVER_UNCONDITIONALUNDO"@
        || c == "PREEMPTIVE_GETRMINFO"@
        || c == "PREEMPTIVE_HADR_LEASE_MECHANISM"@
        || c == "PREEMPTIVE_HTTP_EVENT_WAIT"@
        || c == "PREEMPTIVE_HTTP_REQUEST"@
        || c == "PREEMPTIVE_LOCKMONITOR"@
        || c == "PREEMPTIVE_MSS_RELEASE"@
        || c == "PREEMPTIVE_ODBCOPS"@
        || c == "PREEMPTIVE_OLEDBOPS"@
        || c == "PREEMPTIVE_OLEDB_ABORTORCOMMITTRAN"@
        || c == "PREEMPTIVE_OLEDB_ABORTTRAN"@
        || c == "PREEMPTIVE_OLEDB_GETDATASOURCE"@
        || c == "PREEMPTIVE_OLEDB_GETLITERALINFO"@
        || c == "PREEMPTIVE_OLEDB_GETPROPERTIES"@
        || c == "PREEMPTIVE_OLEDB_GETPROPERTYINFO"@
        || c == "PREEMPTIVE_OLEDB_GETSCHEMALOCK"@
        || c == "PREEMPTIVE_OLEDB_JOINTRANSACTION"@
        || c == "PREEMPTIVE_OLEDB_RELEASE"@
        || c == "PREEMPTIVE_OLEDB_SETPROPERTIES"@
        || c == "PREEMPTIVE_OLE_UNINIT"@
        || c == "PREEMPTIVE_OS_ACCEPTSECURITYCONTEXT"@
        || c == "PREEMPTIVE_OS_ACQUIRECREDENTIALSHANDLE"@
        || c == "PREEMPTIVE_OS_AUTHENTICATIONOPS"@
        || c == "PREEMPTIVE_OS_AUTHORIZATIONOPS"@
        || c == "PREEMPTIVE_OS_AUTHZGETINFORMATIONFROMCONTEXT"@
        || c == "PREEMPTIVE_OS_AUTHZINITIALIZECONTEXTFROMSID"@
        || c == "PREEMPTIVE_OS_AUTHZINITIALIZERESOURCEMANAGER"@
        || c == "PREEMPTIVE_OS_BACKUPREAD"@
        || c == "PREEMPTIVE_OS_CLOSEHANDLE"@
}

/// One of the names of the wait types in part 11 of the list.
pub open spec fn listed_names_11(c: Seq<char>) -> bool {
    c == "PREEMPTIVE_OS_CLUSTEROPS"@
        || c == "PREEMPTIVE_OS_COMOPS"@
        || c == "PREEMPTIVE_OS_COMPLETEAUTHTOKEN"@
        || c == "PREEMPTIVE_OS_COPYFILE"@
        || c == "PREEMPTIVE_OS_CREATEDIRECTORY"@
        || c == "PREEMPTIVE_OS_CREATEFILE"@
        || c == "PREEMPTIVE_OS_CRYPTACQUIRECONTEXT"@
        || c == "PREEMPTIVE_OS_CRYPTIMPORTKEY"@
        || c == "PREEMPTIVE_OS_CRYPTOPS"@
        || c == "PREEMPTIVE_OS_DECRYPTMESSAGE"@
        || c == "PREEMPTIVE_OS_DELETEFILE"@
        || c == "PREEMPTIVE_OS_DELETESECURITYCONTEXT"@
        || c == "PREEMPTIVE_OS_DEVICEIOCONTROL"@
        || c == "PREEMPTIVE_OS_DEVICEOPS"@
        || c == "PREEMPTIVE_OS_DIRSVC_NETWORKOPS"@
        || c == "PREEMPTIVE_OS_DISCONNECTNAMEDPIPE"@
        || c == "PREEMPTIVE_OS_DOMAINSERVICESOPS"@
        || c == "PREEMPTIVE_OS_DSGETDCNAME"@
        || c == "PREEMPTIVE_OS_DTCOPS"@
        || c == "PREEMPTIVE_OS_ENCRYPTMESSAGE"@
        || c == "PREEMPTIVE_OS_FILEOPS"@
        || c == "PREEMPTIVE_OS_FINDFILE"@
        || c == "PREEMPTIVE_OS_FLUSHFILEBUFFERS"@
        || c == "PREEMPTIVE_OS_FORMATMESSAGE"@
        || c == "PREEMPTIVE_OS_FREECREDENTIALSHANDLE"@
        || c == "PREEMPTIVE_OS_FREELIBRARY"@
        || c == "PREEMPTIVE_OS_GENERICOPS"@
        || c == "PREEMPTIVE_OS_GETADDRINFO"@
        || c == "PREEMPTIVE_OS_GETCOMPRESSEDFILESIZE"@
        || c == "PREEMPTIVE_OS_GETDISKFREESPACE"@
        || c == "PREEMPTIVE_OS_GETFILEATTRIBUTES"@
        || c == "PREEMPTIVE_OS_GETFILESIZE"@
        || c == "PREEMPTIVE_OS_GETFINALFILEPATHBYHANDLE"@
        || c == "PREEMPTIVE_OS_GETLONGPATHNAME"@
        || c == "PREEMPTIVE_OS_GETPROCADDRESS"@
        || c == "PREEMPTIVE_OS_GETVOLUMENAMEFORVOLUMEMOUNTPOINT"@
        || c == "PREEMPTIVE_OS_GETVOLUMEPATHNAME"@
        || c == "PREEMPTIVE_OS_INITIALIZESECURITYCONTEXT"@
        || c == "PREEMPTIVE_OS_LIBRARYOPS"@
        || c == "PREEMPTIVE_OS_LOADLIBRARY"@
        || c == "PREEMPTIVE_OS_LOGONUSER"@
        || c == "PREEMPTIVE_OS_LOOKUPACCOUNTSID"@
        || c == "PREEMPTIVE_OS_MESSAGEQUEUEOPS"@
        || c == "PREEMPTIVE_OS_MOVEFILE"@
        || c == "PREEMPTIVE_OS_NETGROUPGETUSERS"@
        || c == "PREEMPTIVE_OS_NETLOCALGROUPGETMEMBERS"@
        || c == "PREEMPTIVE_OS_NETUSERGETGROUPS"@
        || c == "PREEMPTIVE_OS_NETUSERGETLOCALGROUPS"@
        || c == "PREEMPTIVE_OS_NETUSERMODALSGET"@
        || c == "PREEMPTIVE_OS_NETVALIDATEPASSWORDPOLICY"@
}

/// One of the names of the wait types in part 12 of the list.
pub open spec fn listed_names_12(c: Seq<char>) -> bool {
    c == "PREEMPTIVE_OS_NETVALIDATEPASSWORDPOLICYFREE"@
        || c == "PREEMPTIVE_OS_OPENDIRECTORY"@
        || c == "PREEMPTIVE_OS_PDH_WMI_INIT"@
        || c == "PREEMPTIVE_OS_PIPEOPS"@
        || c == "PREEMPTIVE_OS_PROCESSOPS"@
        || c == "PREEMPTIVE_OS_QUERYCONTEXTATTRIBUTES"@
        || c == "PREEMPTIVE_OS_QUERYREGISTRY"@
        || c == "PREEMPTIVE_OS_QUERYSECURITYCONTEXTTOKEN"@
        || c == "PREEMPTIVE_OS_REMOVEDIRECTORY"@
        || c == "PREEMPTIVE_OS_REPORTEVENT"@
        || c == "PREEMPTIVE_OS_REVERTTOSELF"@
        || c == "PREEMPTIVE_OS_RSFXDEVICEOPS"@
        || c == "PREEMPTIVE_OS_SECURITYOPS"@
        || c == "PREEMPTIVE_OS_SERVICEOPS"@
        || c == "PREEMPTIVE_OS_SETENDOFFILE"@
        || c == "PREEMPTIVE_OS_SETFILEPOINTER"@
        || c == "PREEMPTIVE_OS_SETFILEVALIDDATA"@
        || c == "PREEMPTIVE_OS_SETNAMEDSECURITYINFO"@
        || c == "PREEMPTIVE_OS_SQLCLROPS"@
        || c == "PREEMPTIVE_OS_SQMLAUNCH"@
        || c == "PREEMPTIVE_OS_VERIFYSIGNATURE"@
        || c == "PREEMPTIVE_OS_VERIFYTRUST"@
        || c == "PREEMPTIVE_OS_VSSOPS"@
        || c == "PREEMPTIVE_OS_WAITFORSINGLEOBJECT"@
        || c == "PREEMPTIVE_OS_WINSOCKOPS"@
        || c == "PREEMPTIVE_OS_WRITEFILE"@
        || c == "PREEMPTIVE_OS_WRITEFILEGATHER"@
        || c == "PREEMPTIVE_OS_WSASETLASTERROR"@
        || c == "PREEMPTIVE_REENLIST"@
        || c == "PREEMPTIVE_RESIZELOG"@
        || c == "PREEMPTIVE_ROLLFORWARDREDO"@
        || c == "PREEMPTIVE_ROLLFORWARDUNDO"@
        || c == "PREEMPTIVE_SB_STOPENDPOINT"@
        || c == "PREEMPTIVE_SERVER_STARTUP"@
        || c == "PREEMPTIVE_SETRMINFO"@
        || c == "PREEMPTIVE_SHAREDMEM_GETDATA"@
        || c == "PREEMPTIVE_SNIOPEN"@
        || c == "PREEMPTIVE_SOSHOST"@
        || c == "PREEMPTIVE_SOSTESTING"@
        || c == "PREEMPTIVE_SP_SERVER_DIAGNOSTICS"@
        || c == "PREEMPTIVE_STARTRM"@
        || c == "PREEMPTIVE_STREAMFCB_CHECKPOINT"@
        || c == "PREEMPTIVE_STREAMFCB_RECOVER"@
        || c == "PREEMPTIVE_STRESSDRIVER"@
        || c == "PREEMPTIVE_TESTING"@
        || c == "PREEMPTIVE_TRANSIMPORT"@
        || c == "PREEMPTIVE_UNMARSHALPROPAGATIONTOKEN"@
        || c == "PREEMPTIVE_VSS_CREATESNAPSHOT"@
        || c == "PREEMPTIVE_VSS_CREATEVOLUMESNAPSHOT"@
        || c == "PREEMPTIVE_XETESTING"@
}

/// One of the names of the wait types in part 13 of the list.
pub open spec fn listed_names_13(c: Seq<char>) -> bool {
    c == "PREEMPTIVE_XE_CALLBACKEXECUTE"@
        || c == "PREEMPTIVE_XE_CX_FILE_OPEN"@
        || c == "PREEMPTIVE_XE_CX_HTTP_CALL"@
        || c == "PREEMPTIVE_XE_DISPATCHER"@
        || c == "PREEMPTIVE_XE_ENGINEINIT"@
        || c == "PREEMPTIVE_XE_GETTARGETSTATE"@
        || c == "PREEMPTIVE_XE_SESSIONCOMMIT"@
        || c == "PREEMPTIVE_XE_TARGETFINALIZE"@
        || c == "PREEMPTIVE_XE_TARGETINIT"@
        || c == "PREEMPTIVE_XE_TIMERRUN"@
        || c == "PRINT_ROLLBACK_PROGRESS"@
        || c == "PRU_ROLLBACK_DEFERRED"@
        || c == "PVS_CLEANUP_LOCK"@
        || c == "PWAIT_ALL_COMPONENTS_INITIALIZED"@
        || c == "PWAIT_COOP_SCAN"@
        || c == "PWAIT_DIRECTLOGCONSUMER_GETNEXT"@
        || c == "PWAIT_EVENT_SESSION_INIT_MUTEX"@
        || c == "PWAIT_FABRIC_REPLICA_CONTROLLER_DATA_LOSS"@
        || c == "PWAIT_HADRSIM"@
        || c == "PWAIT_HADR_ACTION_COMPLETED"@
        || c == "PWAIT_HADR_CHANGE_NOTIFIER_TERMINATION_SYNC"@
        || c == "PWAIT_HADR_CLUSTER_INTEGRATION"@
        || c == "PWAIT_HADR_FAILOVER_COMPLETED"@
        || c == "PWAIT_HADR_JOIN"@
        || c == "PWAIT_HADR_OFFLINE_COMPLETED"@
        || c == "PWAIT_HADR_ONLINE_COMPLETED"@
        || c == "PWAIT_HADR_POST_ONLINE_COMPLETED"@
        || c == "PWAIT_HADR_SERVER_READY_CONNECTIONS"@
        || c == "PWAIT_HADR_WORKITEM_COMPLETED"@
        || c == "PWAIT_LOG_CONSOLIDATION_IO"@
        || c == "PWAIT_LOG_CONSOLIDATION_POLL"@
        || c == "PWAIT_MD_LOGIN_STATS"@
        || c == "PWAIT_MD_RELATION_CACHE"@
        || c == "PWAIT_MD_SERVER_CACHE"@
        || c == "PWAIT_MD_UPGRADE_CONFIG"@
        || c == "PWAIT_PREEMPTIVE_APP_USAGE_TIMER"@
        || c == "PWAIT_PREEMPTIVE_AUDIT_ACCESS_WINDOWSLOG"@
        || c == "PWAIT_QRY_BPMEMORY"@
        || c == "PWAIT_REPLICA_ONLINE_INIT_MUTEX"@
        || c == "PWAIT_RESOURCE_SEMAPHORE_FT_PARALLEL_QUERY_SYNC"@
        || c == "PWAIT_SBS_FILE_OPERATION"@
        || c == "PWAIT_XTP_FSSTORAGE_MAINTENANCE"@
        || c == "PWAIT_XTP_HOST_STORAGE_WAIT"@
        || c == "QDS_ASYNC_CHECK_CONSISTENCY_TASK"@
        || c == "QDS_ASYNC_PERSIST_TASK"@
        || c == "QDS_ASYNC_PERSIST_TASK_START"@
        || c == "QDS_ASYNC_QUEUE"@
        || c == "QDS_BCKG_TASK"@
        || c == "QDS_BLOOM_FILTER"@
        || c == "QDS_CLEANUP_STALE_QUERIES_TASK_MAIN_LOOP_SLEEP"@
}

/// One of the names of the wait types in part 14 of the list.
pub open spec fn listed_names_14(c: Seq<char>) -> bool {
    c == "QDS_CTXS"@
        || c == "QDS_DB_DISK"@
        || c == "QDS_DYN_VECTOR"@
        || c == "QDS_EXCLUSIVE_ACCESS"@
        || c == "QDS_HOST_INIT"@
        || c == "QDS_LOADDB"@
        || c == "QDS_PERSIST_TASK_MAIN_LOOP_SLEEP"@
        || c == "QDS_QDS_CAPTURE_INIT"@
        || c == "QDS_SHUTDOWN_QUEUE"@
        || c == "QDS_STMT"@
        || c == "QDS_STMT_DISK"@
        || c == "QDS_TASK_SHUTDOWN"@
        || c == "QDS_TASK_START"@
        || c == "QE_WARN_LIST_SYNC"@
        || c == "QPJOB_KILL"@
        || c == "QPJOB_WAITFOR_ABORT"@
        || c == "QRY_MEM_GRANT_INFO_MUTEX"@
        || c == "QRY_PARALLEL_THREAD_MUTEX"@
        || c == "QRY_PROFILE_LIST_MUTEX"@
        || c == "QUERY_ERRHDL_SERVICE_DONE"@
        || c == "QUERY_EXECUTION_INDEX_SORT_EVENT_OPEN"@
        || c == "QUERY_NOTIFICATION_MGR_MUTEX"@
        || c == "QUERY_NOTIFICATION_SUBSCRIPTION_MUTEX"@
        || c == "QUERY_NOTIFICATION_TABLE_MGR_MUTEX"@
        || c == "QUERY_NOTIFICATION_UNITTEST_MUTEX"@
        || c == "QUERY_OPTIMIZER_PRINT_MUTEX"@
        || c == "QUERY_TASK_ENQUEUE_MUTEX"@
        || c == "QUERY_TRACEOUT"@
        || c == "QUERY_WAIT_ERRHDL_SERVICE"@
        || c == "RBIO_RG_DESTAGE"@
        || c == "RBIO_RG_LOCALDESTAGE"@
        || c == "RBIO_RG_REPLICA"@
        || c == "RBIO_RG_STORAGE"@
        || c == "RBIO_WAIT_VLF"@
        || c == "RECOVERY_MGR_LOCK"@
        || c == "RECOVER_CHANGEDB"@
        || c == "REDO_THREAD_PENDING_WORK"@
        || c == "REDO_THREAD_SYNC"@
        || c == "REMOTE_BLOCK_IO"@
        || c == "REMOTE_DATA_ARCHIVE_MIGRATION_DMV"@
        || c == "REMOTE_DATA_ARCHIVE_SCHEMA_DMV"@
        || c == "REMOTE_DATA_ARCHIVE_SCHEMA_TASK_QUEUE"@
        || c == "REPLICA_WRITES"@
        || c == "REPL_CACHE_ACCESS"@
        || c == "REPL_HISTORYCACHE_ACCESS"@
        || c == "REPL_SCHEMA_ACCESS"@
        || c == "REPL_TRANFSINFO_ACCESS"@
        || c == "REPL_TRANHASHTABLE_ACCESS"@
        || c == "REPL_TRANTEXTINFO_ACCESS"@
        || c == "REQUEST_DISPENSER_PAUSE"@
}

/// One of the names of the wait types in part 15 of the list.
pub open spec fn listed_names_15(c: Seq<char>) -> bool {
    c == "REQUEST_FOR_DEADLOCK_SEARCH"@
        || c == "RESERVED_MEMORY_ALLOCATION_EXT"@
        || c == "RESMGR_THROTTLED"@
        || c == "RESOURCE_GOVERNOR_IDLE"@
        || c == "RESOURCE_QUEUE"@
        || c == "RESOURCE_SEMAPHORE"@
        || c == "RESOURCE_SEMAPHORE_MUTEX"@
        || c == "RESOURCE_SEMAPHORE_QUERY_COMPILE"@
        || c == "RESOURCE_SEMAPHORE_SMALL_QUERY"@
        || c == "RESTORE_FILEHANDLECACHE_ENTRYLOCK"@
        || c == "RESTORE_FILEHANDLECACHE_LOCK"@
        || c == "RG_RECONFIG"@
        || c == "ROWGROUP_OP_STATS"@
        || c == "ROWGROUP_VERSION"@
        || c == "RTDATA_LIST"@
        || c == "SATELLITE_CARGO"@
        || c == "SATELLITE_SERVICE_SETUP"@
        || c == "SATELLITE_TASK"@
        || c == "SBS_DISPATCH"@
        || c == "SBS_RECEIVE_TRANSPORT"@
        || c == "SBS_TRANSPORT"@
        || c == "SCAN_CHAR_HASH_ARRAY_INITIALIZATION"@
        || c == "SECURITY_CNG_PROVIDER_MUTEX"@
        || c == "SECURITY_CRYPTO_CONTEXT_MUTEX"@
        || c == "SECURITY_DBE_STATE_MUTEX"@
        || c == "SECURITY_KEYRING_RWLOCK"@
        || c == "SECURITY_MUTEX"@
        || c == "SECURITY_RULETABLE_MUTEX"@
        || c == "SEC_DROP_TEMP_KEY"@
        || c == "SEMPLAT_DSI_BUILD"@
        || c == "SEQUENCE_GENERATION"@
        || c == "SEQUENTIAL_GUID"@
        || c == "SERVER_IDLE_CHECK"@
        || c == "SERVER_RECONFIGURE"@
        || c == "SESSION_WAIT_STATS_CHILDREN"@
        || c == "SHARED_DELTASTORE_CREATION"@
        || c == "SHUTDOWN"@
        || c == "SLEEP_BPOOL_FLUSH"@
        || c == "SLEEP_BUFFERPOOL_HELPLW"@
        || c == "SLEEP_DBSTARTUP"@
        || c == "SLEEP_DCOMSTARTUP"@
        || c == "SLEEP_MASTERDBREADY"@
        || c == "SLEEP_MASTERMDREADY"@
        || c == "SLEEP_MASTERUPGRADED"@
        || c == "SLEEP_MEMORYPOOL_ALLOCATEPAGES"@
        || c == "SLEEP_MSDBSTARTUP"@
        || c == "SLEEP_RETRY_VIRTUALALLOC"@
        || c == "SLEEP_SYSTEMTASK"@
        || c == "SLEEP_TASK"@
        || c == "SLEEP_TEMPDBSTARTUP"@
}

/// One of the names of the wait types in part 16 of the list.
pub open spec fn listed_names_16(c: Seq<char>) -> bool {
    c == "SLEEP_WORKSPACE_ALLOCATEPAGE"@
        || c == "SLO_UPDATE"@
        || c == "SMSYNC"@
        || c == "SNI_CONN_DUP"@
        || c == "SNI_CRITICAL_SECTION"@
        || c == "SNI_HTTP_WAITFOR_0_DISCON"@
        || c == "SNI_LISTENER_ACCESS"@
        || c == "SNI_TASK_COMPLETION"@
        || c == "SNI_WRITE_ASYNC"@
        || c == "SOAP_READ"@
        || c == "SOAP_WRITE"@
        || c == "SOCKETDUPLICATEQUEUE_CLEANUP"@
        || c == "SOSHOST_EVENT"@
        || c == "SOSHOST_INTERNAL"@
        || c == "SOSHOST_MUTEX"@
        || c == "SOSHOST_RWLOCK"@
        || c == "SOSHOST_SEMAPHORE"@
        || c == "SOSHOST_SLEEP"@
        || c == "SOSHOST_TRACELOCK"@
        || c == "SOSHOST_WAITFORDONE"@
        || c == "SOS_CALLBACK_REMOVAL"@
        || c == "SOS_DISPATCHER_MUTEX"@
        || c == "SOS_LOCALALLOCATORLIST"@
        || c == "SOS_MEMORY_TOPLEVELBLOCKALLOCATOR"@
        || c == "SOS_MEMORY_USAGE_ADJUSTMENT"@
        || c == "SOS_OBJECT_STORE_DESTROY_MUTEX"@
        || c == "SOS_PHYS_PAGE_CACHE"@
        || c == "SOS_PROCESS_AFFINITY_MUTEX"@
        || c == "SOS_RESERVEDMEMBLOCKLIST"@
        || c == "SOS_SCHEDULER_YIELD"@
        || c == "SOS_SMALL_PAGE_ALLOC"@
        || c == "SOS_STACKSTORE_INIT_MUTEX"@
        || c == "SOS_SYNC_TASK_ENQUEUE_EVENT"@
        || c == "SOS_VIRTUALMEMORY_LOW"@
        || c == "SOS_WORK_DISPATCHER"@
        || c == "SPINLOCK_EXT"@
        || c == "SP_PREEMPTIVE_SERVER_DIAGNOSTICS_SLEEP"@
        || c == "SP_SERVER_DIAGNOSTICS_BUFFER_ACCESS"@
        || c == "SP_SERVER_DIAGNOSTICS_INIT_MUTEX"@
        || c == "SP_SERVER_DIAGNOSTICS_SLEEP"@
        || c == "SQLCLR_APPDOMAIN"@
        || c == "SQLCLR_ASSEMBLY"@
        || c == "SQLCLR_DEADLOCK_DETECTION"@
        || c == "SQLCLR_QUANTUM_PUNISHMENT"@
        || c == "SQLSORT_NORMMUTEX"@
        || c == "SQLSORT_SORTMUTEX"@
        || c == "SQLTRACE_BUFFER_FLUSH"@
        || c == "SQLTRACE_FILE_BUFFER"@
        || c == "SQLTRACE_FILE_READ_IO_COMPLETION"@
        || c == "SQLTRACE_FILE_WRITE_IO_COMPLETION"@
}

/// One of the names of the wait types in part 17 of the list.
pub open spec fn listed_names_17(c: Seq<char>) -> bool {
    c == "SQLTRACE_INCREMENTAL_FLUSH_SLEEP"@
        || c == "SQLTRACE_LOCK"@
        || c == "SQLTRACE_PENDING_BUFFER_WRITERS"@
        || c == "SQLTRACE_SHUTDOWN"@
        || c == "SQLTRACE_WAIT_ENTRIES"@
        || c == "SRVPROC_SHUTDOWN"@
        || c == "STARTUP_DEPENDENCY_MANAGER"@
        || c == "TDS_BANDWIDTH_STATE"@
        || c == "TDS_INIT"@
        || c == "TDS_PROXY_CONTAINER"@
        || c == "TEMPOBJ"@
        || c == "TEMPORAL_BACKGROUND_PROCEED_CLEANUP"@
        || c == "TERMINATE_LISTENER"@
        || c == "THREADPOOL"@
        || c == "TIMEPRIV_TIMEPERIOD"@
        || c == "TRACEWRITE"@
        || c == "TRACE_EVTNOTIF"@
        || c == "TRANSACTION_MUTEX"@
        || c == "TRAN_MARKLATCH_DT"@
        || c == "TRAN_MARKLATCH_EX"@
        || c == "TRAN_MARKLATCH_KP"@
        || c == "TRAN_MARKLATCH_NL"@
        || c == "TRAN_MARKLATCH_SH"@
        || c == "TRAN_MARKLATCH_UP"@
        || c == "UCS_ENDPOINT_CHANGE"@
        || c == "UCS_MANAGER"@
        || c == "UCS_MEMORY_NOTIFICATION"@
        || c == "UCS_SESSION_REGISTRATION"@
        || c == "UCS_TRANSPORT"@
        || c == "UCS_TRANSPORT_STREAM_CHANGE"@
        || c == "UTIL_PAGE_ALLOC"@
        || c == "VDI_CLIENT_COMPLETECOMMAND"@
        || c == "VDI_CLIENT_GETCOMMAND"@
        || c == "VDI_CLIENT_OPERATION"@
        || c == "VDI_CLIENT_OTHER"@
        || c == "VERSIONING_COMMITTING"@
        || c == "VIA_ACCEPT"@
        || c == "VIEW_DEFINITION_MUTEX"@
        || c == "WAITFOR"@
        || c == "WAITFOR_PER_QUEUE"@
        || c == "WAITFOR_TASKSHUTDOWN"@
        || c == "WAITSTAT_MUTEX"@
        || c == "WAIT_FOR_RESULTS"@
        || c == "WAIT_ON_SYNC_STATISTICS_REFRESH"@
        || c == "WAIT_SCRIPTDEPLOYMENT_REQUEST"@
        || c == "WAIT_SCRIPTDEPLOYMENT_WORKER"@
        || c == "WAIT_XLOGREAD_SIGNAL"@
        || c == "WAIT_XTP_ASYNC_TX_COMPLETION"@
        || c == "WAIT_XTP_CKPT_AGENT_WAKEUP"@
        || c == "WAIT_XTP_CKPT_CLOSE"@
}

/// One of the names of the wait types in part 18 of the list.
pub open spec fn listed_names_18(c: Seq<char>) -> bool {
    c == "WAIT_XTP_CKPT_ENABLED"@
        || c == "WAIT_XTP_CKPT_STATE_LOCK"@
        || c == "WAIT_XTP_COMPILE_WAIT"@
        || c == "WAIT_XTP_GUEST"@
        || c == "WAIT_XTP_HOST_WAIT"@
        || c == "WAIT_XTP_OFFLINE_CKPT_BEFORE_REDO"@
        || c == "WAIT_XTP_OFFLINE_CKPT_LOG_IO"@
        || c == "WAIT_XTP_OFFLINE_CKPT_NEW_LOG"@
        || c == "WAIT_XTP_PROCEDURE_ENTRY"@
        || c == "WAIT_XTP_RECOVERY"@
        || c == "WAIT_XTP_SERIAL_RECOVERY"@
        || c == "WAIT_XTP_SWITCH_TO_INACTIVE"@
        || c == "WAIT_XTP_TASK_SHUTDOWN"@
        || c == "WAIT_XTP_TRAN_DEPENDENCY"@
        || c == "WCC"@
        || c == "WINDOW_AGGREGATES_MULTIPASS"@
        || c == "WINFAB_API_CALL"@
        || c == "WINFAB_REPLICA_BUILD_OPERATION"@
        || c == "WINFAB_REPORT_FAULT"@
        || c == "WORKTBL_DROP"@
        || c == "WRITELOG"@
        || c == "WRITE_COMPLETION"@
        || c == "XACTLOCKINFO"@
        || c == "XACTWORKSPACE_MUTEX"@
        || c == "XACT_OWN_TRANSACTION"@
        || c == "XACT_RECLAIM_SESSION"@
        || c == "XDB_CONN_DUP_HASH"@
        || c == "XDESTSVERMGR"@
        || c == "XDES_HISTORY"@
        || c == "XDES_OUT_OF_ORDER_LIST"@
        || c == "XDES_SNAPSHOT"@
        || c == "XE_BUFFERMGR_ALLPROCESSED_EVENT"@
        || c == "XE_BUFFERMGR_FREEBUF_EVENT"@
        || c == "XE_CALLBACK_LIST"@
        || c == "XE_CX_FILE_READ"@
        || c == "XE_DISPATCHER_CONFIG_SESSION_LIST"@
        || c == "XE_DISPATCHER_JOIN"@
        || c == "XE_DISPATCHER_WAIT"@
        || c == "XE_FILE_TARGET_TVF"@
        || c == "XE_LIVE_TARGET_TVF"@
        || c == "XE_MODULEMGR_SYNC"@
        || c == "XE_OLS_LOCK"@
        || c == "XE_PACKAGE_LOCK_BACKOFF"@
        || c == "XE_SERVICES_EVENTMANUAL"@
        || c == "XE_SERVICES_MUTEX"@
        || c == "XE_SERVICES_RWLOCK"@
        || c == "XE_SESSION_CREATE_SYNC"@
        || c == "XE_SESSION_FLUSH"@
        || c == "XE_SESSION_SYNC"@
        || c == "XE_STM_CREATE"@
}

/// One of the names of the wait types in part 19 of the list.
pub open spec fn listed_names_19(c: Seq<char>) -> bool {
    c == "XE_TIMER_EVENT"@
        || c == "XE_TIMER_MUTEX"@
        || c == "XE_TIMER_TASK_DONE"@
        || c == "XIO_CREDENTIAL_MGR_RWLOCK"@
        || c == "XIO_CREDENTIAL_RWLOCK"@
        || c == "XIO_EDS_MGR_RWLOCK"@
        || c == "XIO_EDS_RWLOCK"@
        || c == "XIO_IOSTATS_BLOBLIST_RWLOCK"@
        || c == "XIO_IOSTATS_FCBLIST_RWLOCK"@
        || c == "XIO_LEASE_RENEW_MGR_RWLOCK"@
        || c == "XTPPROC_CACHE_ACCESS"@
        || c == "XTPPROC_PARTITIONED_STACK_CREATE"@
        || c == "XTP_HOST_DB_COLLECTION"@
        || c == "XTP_HOST_LOG_ACTIVITY"@
        || c == "XTP_HOST_PARALLEL_RECOVERY"@
        || c == "XTP_PREEMPTIVE_TASK"@
        || c == "XTP_TRUNCATION_LSN"@
}

/// `c` is the name of one of the listed wait types.
pub open spec fn is_listed_wait_type(c: Seq<char>) -> bool {
    listed_names_0(c)
        || listed_names_1(c)
        || listed_names_2(c)
        || listed_names_3(c)
        || listed_names_4(c)
        || listed_names_5(c)
        || listed_names_6(c)
        || listed_names_7(c)
        || listed_names_8(c)
        || listed_names_9(c)
        || listed_names_10(c)
        || listed_names_11(c)
        || listed_names_12(c)
        || listed_names_13(c)
        || listed_names_14(c)
        || listed_names_15(c)
        || listed_names_16(c)
        || listed_names_17(c)
        || listed_names_18(c)
        || listed_names_19(c)
}

} // verus!
