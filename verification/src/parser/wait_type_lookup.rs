//! Looking up the names of the wait types in the later parts of the list.
use crate::parser::wait_type::WaitType;
use crate::parser::wait_type::is_listed_wait_type;
use crate::parser::wait_type::in_part_0;
use crate::parser::wait_type::in_part_1;
use crate::parser::wait_type::in_part_2;
use crate::parser::wait_type::in_part_3;
use crate::parser::wait_type::in_part_4;
use crate::parser::wait_type::in_part_5;
use crate::parser::wait_type::in_part_6;
use crate::parser::wait_type::in_part_7;
use crate::parser::wait_type::in_part_8;
use crate::parser::wait_type::in_part_9;
use crate::parser::wait_type::in_part_10;
use crate::parser::wait_type::in_part_11;
use crate::parser::wait_type::in_part_12;
use crate::parser::wait_type::in_part_13;
use crate::parser::wait_type::in_part_14;
use crate::parser::wait_type::in_part_15;
use crate::parser::wait_type::in_part_16;
use crate::parser::wait_type::in_part_17;
use crate::parser::wait_type::in_part_18;
use crate::parser::wait_type::in_part_19;
use crate::parser::wait_type::listed_name_0;
use crate::parser::wait_type::listed_name_1;
use crate::parser::wait_type::listed_name_2;
use crate::parser::wait_type::listed_name_3;
use crate::parser::wait_type::listed_name_4;
use crate::parser::wait_type::listed_name_5;
use crate::parser::wait_type::listed_name_6;
use crate::parser::wait_type::listed_name_7;
use crate::parser::wait_type::listed_name_8;
use crate::parser::wait_type::listed_name_9;
use crate::parser::wait_type::listed_name_10;
use crate::parser::wait_type::listed_name_11;
use crate::parser::wait_type::listed_name_12;
use crate::parser::wait_type::listed_name_13;
use crate::parser::wait_type::listed_name_14;
use crate::parser::wait_type::listed_name_15;
use crate::parser::wait_type::listed_name_16;
use crate::parser::wait_type::listed_name_17;
use crate::parser::wait_type::listed_name_18;
use crate::parser::wait_type::listed_name_19;
use crate::parser::wait_type::listed_names_0;
use crate::parser::wait_type::listed_names_1;
use crate::parser::wait_type::listed_names_2;
use crate::parser::wait_type::listed_names_3;
use crate::parser::wait_type::listed_names_4;
use crate::parser::wait_type::listed_names_5;
use crate::parser::wait_type::listed_names_6;
use crate::parser::wait_type::listed_names_7;
use crate::parser::wait_type::listed_names_8;
use crate::parser::wait_type::listed_names_9;
use crate::parser::wait_type::listed_names_10;
use crate::parser::wait_type::listed_names_11;
use crate::parser::wait_type::listed_names_12;
use crate::parser::wait_type::listed_names_13;
use crate::parser::wait_type::listed_names_14;
use crate::parser::wait_type::listed_names_15;
use crate::parser::wait_type::listed_names_16;
use crate::parser::wait_type::listed_names_17;
use crate::parser::wait_type::listed_names_18;
use crate::parser::wait_type::listed_names_19;
use crate::parser::wait_type::lemma_name_in_part_0;
use crate::parser::wait_type::lemma_name_in_part_1;
use crate::parser::wait_type::lemma_name_in_part_2;
use crate::parser::wait_type::lemma_name_in_part_3;
use crate::parser::wait_type::lemma_name_in_part_4;
use crate::parser::wait_type::lemma_name_in_part_5;
use crate::parser::wait_type::lemma_name_in_part_6;
use crate::parser::wait_type::lemma_name_in_part_7;
use crate::parser::wait_type::lemma_name_in_part_8;
use crate::parser::wait_type::lemma_name_in_part_9;
use crate::parser::wait_type::lemma_name_in_part_10;
use crate::parser::wait_type::lemma_name_in_part_11;
use crate::parser::wait_type::lemma_name_in_part_12;
use crate::parser::wait_type::lemma_name_in_part_13;
use crate::parser::wait_type::lemma_name_in_part_14;
use crate::parser::wait_type::lemma_name_in_part_15;
use crate::parser::wait_type::lemma_name_in_part_16;
use crate::parser::wait_type::lemma_name_in_part_17;
use crate::parser::wait_type::lemma_name_in_part_18;
use crate::parser::wait_type::lemma_name_in_part_19;
use crate::text::str_eq;
use vstd::prelude::*;

verus! {

#[verifier::rlimit(40)]
pub(crate) fn parse_listed_10(s: &str) -> (r: Option<WaitType>)
    ensures
        r is Some <==> listed_names_10(s@),
        r matches Some(w) ==> in_part_10(w) && listed_name_10(w) == s@,
{
    proof {
        reveal(listed_name_10);
    }
    if str_eq(s, "PREEMPTIVE_CONSOLEWRITE") {
        return Some(WaitType::PREEMPTIVE_CONSOLEWRITE);
    } else if str_eq(s, "PREEMPTIVE_CREATEPARAM") {
        return Some(WaitType::PREEMPTIVE_CREATEPARAM);
    } else if str_eq(s, "PREEMPTIVE_DEBUG") {
        return Some(WaitType::PREEMPTIVE_DEBUG);
    } else if str_eq(s, "PREEMPTIVE_DFSADDLINK") {
        return Some(WaitType::PREEMPTIVE_DFSADDLINK);
    } else if str_eq(s, "PREEMPTIVE_DFSLINKEXISTCHECK") {
        return Some(WaitType::PREEMPTIVE_DFSLINKEXISTCHECK);
    } else if str_eq(s, "PREEMPTIVE_DFSLINKHEALTHCHECK") {
        return Some(WaitType::PREEMPTIVE_DFSLINKHEALTHCHECK);
    } else if str_eq(s, "PREEMPTIVE_DFSREMOVELINK") {
        return Some(WaitType::PREEMPTIVE_DFSREMOVELINK);
    } else if str_eq(s, "PREEMPTIVE_DFSREMOVEROOT") {
        return Some(WaitType::PREEMPTIVE_DFSREMOVEROOT);
    } else if str_eq(s, "PREEMPTIVE_DFSROOTFOLDERCHECK") {
        return Some(WaitType::PREEMPTIVE_DFSROOTFOLDERCHECK);
    } else if str_eq(s, "PREEMPTIVE_DFSROOTINIT") {
        return Some(WaitType::PREEMPTIVE_DFSROOTINIT);
    } else if str_eq(s, "PREEMPTIVE_DFSROOTSHARECHECK") {
        return Some(WaitType::PREEMPTIVE_DFSROOTSHARECHECK);
    } else if str_eq(s, "PREEMPTIVE_DTC_ABORT") {
        return Some(WaitType::PREEMPTIVE_DTC_ABORT);
    } else if str_eq(s, "PREEMPTIVE_DTC_ABORTREQUESTDONE") {
        return Some(WaitType::PREEMPTIVE_DTC_ABORTREQUESTDONE);
    } else if str_eq(s, "PREEMPTIVE_DTC_BEGINTRANSACTION") {
        return Some(WaitType::PREEMPTIVE_DTC_BEGINTRANSACTION);
    } else if str_eq(s, "PREEMPTIVE_DTC_COMMITREQUESTDONE") {
        return Some(WaitType::PREEMPTIVE_DTC_COMMITREQUESTDONE);
    } else if str_eq(s, "PREEMPTIVE_DTC_ENLIST") {
        return Some(WaitType::PREEMPTIVE_DTC_ENLIST);
    } else if str_eq(s, "PREEMPTIVE_DTC_PREPAREREQUESTDONE") {
        return Some(WaitType::PREEMPTIVE_DTC_PREPAREREQUESTDONE);
    } else if str_eq(s, "PREEMPTIVE_FILESIZEGET") {
        return Some(WaitType::PREEMPTIVE_FILESIZEGET);
    } else if str_eq(s, "PREEMPTIVE_FSAOLEDB_ABORTTRANSACTION") {
        return Some(WaitType::PREEMPTIVE_FSAOLEDB_ABORTTRANSACTION);
    } else if str_eq(s, "PREEMPTIVE_FSAOLEDB_COMMITTRANSACTION") {
        return Some(WaitType::PREEMPTIVE_FSAOLEDB_COMMITTRANSACTION);
    } else if str_eq(s, "PREEMPTIVE_FSAOLEDB_STARTTRANSACTION") {
        return Some(WaitType::PREEMPTIVE_FSAOLEDB_STARTTRANSACTION);
    } else if str_eq(s, "PREEMPTIVE_FSRECOVER_UNCONDITIONALUNDO") {
        return Some(WaitType::PREEMPTIVE_FSRECOVER_UNCONDITIONALUNDO);
    } else if str_eq(s, "PREEMPTIVE_GETRMINFO") {
        return Some(WaitType::PREEMPTIVE_GETRMINFO);
    } else if str_eq(s, "PREEMPTIVE_HADR_LEASE_MECHANISM") {
        return Some(WaitType::PREEMPTIVE_HADR_LEASE_MECHANISM);
    } else if str_eq(s, "PREEMPTIVE_HTTP_EVENT_WAIT") {
        return Some(WaitType::PREEMPTIVE_HTTP_EVENT_WAIT);
    } else if str_eq(s, "PREEMPTIVE_HTTP_REQUEST") {
        return Some(WaitType::PREEMPTIVE_HTTP_REQUEST);
    } else if str_eq(s, "PREEMPTIVE_LOCKMONITOR") {
        return Some(WaitType::PREEMPTIVE_LOCKMONITOR);
    } else if str_eq(s, "PREEMPTIVE_MSS_RELEASE") {
        return Some(WaitType::PREEMPTIVE_MSS_RELEASE);
    } else if str_eq(s, "PREEMPTIVE_ODBCOPS") {
        return Some(WaitType::PREEMPTIVE_ODBCOPS);
    } else if str_eq(s, "PREEMPTIVE_OLEDBOPS") {
        return Some(WaitType::PREEMPTIVE_OLEDBOPS);
    } else if str_eq(s, "PREEMPTIVE_OLEDB_ABORTORCOMMITTRAN") {
        return Some(WaitType::PREEMPTIVE_OLEDB_ABORTORCOMMITTRAN);
    } else if str_eq(s, "PREEMPTIVE_OLEDB_ABORTTRAN") {
        return Some(WaitType::PREEMPTIVE_OLEDB_ABORTTRAN);
    } else if str_eq(s, "PREEMPTIVE_OLEDB_GETDATASOURCE") {
        return Some(WaitType::PREEMPTIVE_OLEDB_GETDATASOURCE);
    } else if str_eq(s, "PREEMPTIVE_OLEDB_GETLITERALINFO") {
        return Some(WaitType::PREEMPTIVE_OLEDB_GETLITERALINFO);
    } else if str_eq(s, "PREEMPTIVE_OLEDB_GETPROPERTIES") {
        return Some(WaitType::PREEMPTIVE_OLEDB_GETPROPERTIES);
    } else if str_eq(s, "PREEMPTIVE_OLEDB_GETPROPERTYINFO") {
        return Some(WaitType::PREEMPTIVE_OLEDB_GETPROPERTYINFO);
    } else if str_eq(s, "PREEMPTIVE_OLEDB_GETSCHEMALOCK") {
        return Some(WaitType::PREEMPTIVE_OLEDB_GETSCHEMALOCK);
    } else if str_eq(s, "PREEMPTIVE_OLEDB_JOINTRANSACTION") {
        return Some(WaitType::PREEMPTIVE_OLEDB_JOINTRANSACTION);
    } else if str_eq(s, "PREEMPTIVE_OLEDB_RELEASE") {
        return Some(WaitType::PREEMPTIVE_OLEDB_RELEASE);
    } else if str_eq(s, "PREEMPTIVE_OLEDB_SETPROPERTIES") {
        return Some(WaitType::PREEMPTIVE_OLEDB_SETPROPERTIES);
    } else if str_eq(s, "PREEMPTIVE_OLE_UNINIT") {
        return Some(WaitType::PREEMPTIVE_OLE_UNINIT);
    } else if str_eq(s, "PREEMPTIVE_OS_ACCEPTSECURITYCONTEXT") {
        return Some(WaitType::PREEMPTIVE_OS_ACCEPTSECURITYCONTEXT);
    } else if str_eq(s, "PREEMPTIVE_OS_ACQUIRECREDENTIALSHANDLE") {
        return Some(WaitType::PREEMPTIVE_OS_ACQUIRECREDENTIALSHANDLE);
    } else if str_eq(s, "PREEMPTIVE_OS_AUTHENTICATIONOPS") {
        return Some(WaitType::PREEMPTIVE_OS_AUTHENTICATIONOPS);
    } else if str_eq(s, "PREEMPTIVE_OS_AUTHORIZATIONOPS") {
        return Some(WaitType::PREEMPTIVE_OS_AUTHORIZATIONOPS);
    } else if str_eq(s, "PREEMPTIVE_OS_AUTHZGETINFORMATIONFROMCONTEXT") {
        return Some(WaitType::PREEMPTIVE_OS_AUTHZGETINFORMATIONFROMCONTEXT);
    } else if str_eq(s, "PREEMPTIVE_OS_AUTHZINITIALIZECONTEXTFROMSID") {
        return Some(WaitType::PREEMPTIVE_OS_AUTHZINITIALIZECONTEXTFROMSID);
    } else if str_eq(s, "PREEMPTIVE_OS_AUTHZINITIALIZERESOURCEMANAGER") {
        return Some(WaitType::PREEMPTIVE_OS_AUTHZINITIALIZERESOURCEMANAGER);
    } else if str_eq(s, "PREEMPTIVE_OS_BACKUPREAD") {
        return Some(WaitType::PREEMPTIVE_OS_BACKUPREAD);
    } else if str_eq(s, "PREEMPTIVE_OS_CLOSEHANDLE") {
        return Some(WaitType::PREEMPTIVE_OS_CLOSEHANDLE);
    }
    None
}

#[verifier::rlimit(40)]
pub(crate) fn parse_listed_11(s: &str) -> (r: Option<WaitType>)
    ensures
        r is Some <==> listed_names_11(s@),
        r matches Some(w) ==> in_part_11(w) && listed_name_11(w) == s@,
{
    proof {
        reveal(listed_name_11);
    }
    if str_eq(s, "PREEMPTIVE_OS_CLUSTEROPS") {
        return Some(WaitType::PREEMPTIVE_OS_CLUSTEROPS);
    } else if str_eq(s, "PREEMPTIVE_OS_COMOPS") {
        return Some(WaitType::PREEMPTIVE_OS_COMOPS);
    } else if str_eq(s, "PREEMPTIVE_OS_COMPLETEAUTHTOKEN") {
        return Some(WaitType::PREEMPTIVE_OS_COMPLETEAUTHTOKEN);
    } else if str_eq(s, "PREEMPTIVE_OS_COPYFILE") {
        return Some(WaitType::PREEMPTIVE_OS_COPYFILE);
    } else if str_eq(s, "PREEMPTIVE_OS_CREATEDIRECTORY") {
        return Some(WaitType::PREEMPTIVE_OS_CREATEDIRECTORY);
    } else if str_eq(s, "PREEMPTIVE_OS_CREATEFILE") {
        return Some(WaitType::PREEMPTIVE_OS_CREATEFILE);
    } else if str_eq(s, "PREEMPTIVE_OS_CRYPTACQUIRECONTEXT") {
        return Some(WaitType::PREEMPTIVE_OS_CRYPTACQUIRECONTEXT);
    } else if str_eq(s, "PREEMPTIVE_OS_CRYPTIMPORTKEY") {
        return Some(WaitType::PREEMPTIVE_OS_CRYPTIMPORTKEY);
    } else if str_eq(s, "PREEMPTIVE_OS_CRYPTOPS") {
        return Some(WaitType::PREEMPTIVE_OS_CRYPTOPS);
    } else if str_eq(s, "PREEMPTIVE_OS_DECRYPTMESSAGE") {
        return Some(WaitType::PREEMPTIVE_OS_DECRYPTMESSAGE);
    } else if str_eq(s, "PREEMPTIVE_OS_DELETEFILE") {
        return Some(WaitType::PREEMPTIVE_OS_DELETEFILE);
    } else if str_eq(s, "PREEMPTIVE_OS_DELETESECURITYCONTEXT") {
        return Some(WaitType::PREEMPTIVE_OS_DELETESECURITYCONTEXT);
    } else if str_eq(s, "PREEMPTIVE_OS_DEVICEIOCONTROL") {
        return Some(WaitType::PREEMPTIVE_OS_DEVICEIOCONTROL);
    } else if str_eq(s, "PREEMPTIVE_OS_DEVICEOPS") {
        return Some(WaitType::PREEMPTIVE_OS_DEVICEOPS);
    } else if str_eq(s, "PREEMPTIVE_OS_DIRSVC_NETWORKOPS") {
        return Some(WaitType::PREEMPTIVE_OS_DIRSVC_NETWORKOPS);
    } else if str_eq(s, "PREEMPTIVE_OS_DISCONNECTNAMEDPIPE") {
        return Some(WaitType::PREEMPTIVE_OS_DISCONNECTNAMEDPIPE);
    } else if str_eq(s, "PREEMPTIVE_OS_DOMAINSERVICESOPS") {
        return Some(WaitType::PREEMPTIVE_OS_DOMAINSERVICESOPS);
    } else if str_eq(s, "PREEMPTIVE_OS_DSGETDCNAME") {
        return Some(WaitType::PREEMPTIVE_OS_DSGETDCNAME);
    } else if str_eq(s, "PREEMPTIVE_OS_DTCOPS") {
        return Some(WaitType::PREEMPTIVE_OS_DTCOPS);
    } else if str_eq(s, "PREEMPTIVE_OS_ENCRYPTMESSAGE") {
        return Some(WaitType::PREEMPTIVE_OS_ENCRYPTMESSAGE);
    } else if str_eq(s, "PREEMPTIVE_OS_FILEOPS") {
        return Some(WaitType::PREEMPTIVE_OS_FILEOPS);
    } else if str_eq(s, "PREEMPTIVE_OS_FINDFILE") {
        return Some(WaitType::PREEMPTIVE_OS_FINDFILE);
    } else if str_eq(s, "PREEMPTIVE_OS_FLUSHFILEBUFFERS") {
        return Some(WaitType::PREEMPTIVE_OS_FLUSHFILEBUFFERS);
    } else if str_eq(s, "PREEMPTIVE_OS_FORMATMESSAGE") {
        return Some(WaitType::PREEMPTIVE_OS_FORMATMESSAGE);
    } else if str_eq(s, "PREEMPTIVE_OS_FREECREDENTIALSHANDLE") {
        return Some(WaitType::PREEMPTIVE_OS_FREECREDENTIALSHANDLE);
    } else if str_eq(s, "PREEMPTIVE_OS_FREELIBRARY") {
        return Some(WaitType::PREEMPTIVE_OS_FREELIBRARY);
    } else if str_eq(s, "PREEMPTIVE_OS_GENERICOPS") {
        return Some(WaitType::PREEMPTIVE_OS_GENERICOPS);
    } else if str_eq(s, "PREEMPTIVE_OS_GETADDRINFO") {
        return Some(WaitType::PREEMPTIVE_OS_GETADDRINFO);
    } else if str_eq(s, "PREEMPTIVE_OS_GETCOMPRESSEDFILESIZE") {
        return Some(WaitType::PREEMPTIVE_OS_GETCOMPRESSEDFILESIZE);
    } else if str_eq(s, "PREEMPTIVE_OS_GETDISKFREESPACE") {
        return Some(WaitType::PREEMPTIVE_OS_GETDISKFREESPACE);
    } else if str_eq(s, "PREEMPTIVE_OS_GETFILEATTRIBUTES") {
        return Some(WaitType::PREEMPTIVE_OS_GETFILEATTRIBUTES);
    } else if str_eq(s, "PREEMPTIVE_OS_GETFILESIZE") {
        return Some(WaitType::PREEMPTIVE_OS_GETFILESIZE);
    } else if str_eq(s, "PREEMPTIVE_OS_GETFINALFILEPATHBYHANDLE") {
        return Some(WaitType::PREEMPTIVE_OS_GETFINALFILEPATHBYHANDLE);
    } else if str_eq(s, "PREEMPTIVE_OS_GETLONGPATHNAME") {
        return Some(WaitType::PREEMPTIVE_OS_GETLONGPATHNAME);
    } else if str_eq(s, "PREEMPTIVE_OS_GETPROCADDRESS") {
        return Some(WaitType::PREEMPTIVE_OS_GETPROCADDRESS);
    } else if str_eq(s, "PREEMPTIVE_OS_GETVOLUMENAMEFORVOLUMEMOUNTPOINT") {
        return Some(WaitType::PREEMPTIVE_OS_GETVOLUMENAMEFORVOLUMEMOUNTPOINT);
    } else if str_eq(s, "PREEMPTIVE_OS_GETVOLUMEPATHNAME") {
        return Some(WaitType::PREEMPTIVE_OS_GETVOLUMEPATHNAME);
    } else if str_eq(s, "PREEMPTIVE_OS_INITIALIZESECURITYCONTEXT") {
        return Some(WaitType::PREEMPTIVE_OS_INITIALIZESECURITYCONTEXT);
    } else if str_eq(s, "PREEMPTIVE_OS_LIBRARYOPS") {
        return Some(WaitType::PREEMPTIVE_OS_LIBRARYOPS);
    } else if str_eq(s, "PREEMPTIVE_OS_LOADLIBRARY") {
        return Some(WaitType::PREEMPTIVE_OS_LOADLIBRARY);
    } else if str_eq(s, "PREEMPTIVE_OS_LOGONUSER") {
        return Some(WaitType::PREEMPTIVE_OS_LOGONUSER);
    } else if str_eq(s, "PREEMPTIVE_OS_LOOKUPACCOUNTSID") {
        return Some(WaitType::PREEMPTIVE_OS_LOOKUPACCOUNTSID);
    } else if str_eq(s, "PREEMPTIVE_OS_MESSAGEQUEUEOPS") {
        return Some(WaitType::PREEMPTIVE_OS_MESSAGEQUEUEOPS);
    } else if str_eq(s, "PREEMPTIVE_OS_MOVEFILE") {
        return Some(WaitType::PREEMPTIVE_OS_MOVEFILE);
    } else if str_eq(s, "PREEMPTIVE_OS_NETGROUPGETUSERS") {
        return Some(WaitType::PREEMPTIVE_OS_NETGROUPGETUSERS);
    } else if str_eq(s, "PREEMPTIVE_OS_NETLOCALGROUPGETMEMBERS") {
        return Some(WaitType::PREEMPTIVE_OS_NETLOCALGROUPGETMEMBERS);
    } else if str_eq(s, "PREEMPTIVE_OS_NETUSERGETGROUPS") {
        return Some(WaitType::PREEMPTIVE_OS_NETUSERGETGROUPS);
    } else if str_eq(s, "PREEMPTIVE_OS_NETUSERGETLOCALGROUPS") {
        return Some(WaitType::PREEMPTIVE_OS_NETUSERGETLOCALGROUPS);
    } else if str_eq(s, "PREEMPTIVE_OS_NETUSERMODALSGET") {
        return Some(WaitType::PREEMPTIVE_OS_NETUSERMODALSGET);
    } else if str_eq(s, "PREEMPTIVE_OS_NETVALIDATEPASSWORDPOLICY") {
        return Some(WaitType::PREEMPTIVE_OS_NETVALIDATEPASSWORDPOLICY);
    }
    None
}

#[verifier::rlimit(40)]
pub(crate) fn parse_listed_12(s: &str) -> (r: Option<WaitType>)
    ensures
        r is Some <==> listed_names_12(s@),
        r matches Some(w) ==> in_part_12(w) && listed_name_12(w) == s@,
{
    proof {
        reveal(listed_name_12);
    }
    if str_eq(s, "PREEMPTIVE_OS_NETVALIDATEPASSWORDPOLICYFREE") {
        return Some(WaitType::PREEMPTIVE_OS_NETVALIDATEPASSWORDPOLICYFREE);
    } else if str_eq(s, "PREEMPTIVE_OS_OPENDIRECTORY") {
        return Some(WaitType::PREEMPTIVE_OS_OPENDIRECTORY);
    } else if str_eq(s, "PREEMPTIVE_OS_PDH_WMI_INIT") {
        return Some(WaitType::PREEMPTIVE_OS_PDH_WMI_INIT);
    } else if str_eq(s, "PREEMPTIVE_OS_PIPEOPS") {
        return Some(WaitType::PREEMPTIVE_OS_PIPEOPS);
    } else if str_eq(s, "PREEMPTIVE_OS_PROCESSOPS") {
        return Some(WaitType::PREEMPTIVE_OS_PROCESSOPS);
    } else if str_eq(s, "PREEMPTIVE_OS_QUERYCONTEXTATTRIBUTES") {
        return Some(WaitType::PREEMPTIVE_OS_QUERYCONTEXTATTRIBUTES);
    } else if str_eq(s, "PREEMPTIVE_OS_QUERYREGISTRY") {
        return Some(WaitType::PREEMPTIVE_OS_QUERYREGISTRY);
    } else if str_eq(s, "PREEMPTIVE_OS_QUERYSECURITYCONTEXTTOKEN") {
        return Some(WaitType::PREEMPTIVE_OS_QUERYSECURITYCONTEXTTOKEN);
    } else if str_eq(s, "PREEMPTIVE_OS_REMOVEDIRECTORY") {
        return Some(WaitType::PREEMPTIVE_OS_REMOVEDIRECTORY);
    } else if str_eq(s, "PREEMPTIVE_OS_REPORTEVENT") {
        return Some(WaitType::PREEMPTIVE_OS_REPORTEVENT);
    } else if str_eq(s, "PREEMPTIVE_OS_REVERTTOSELF") {
        return Some(WaitType::PREEMPTIVE_OS_REVERTTOSELF);
    } else if str_eq(s, "PREEMPTIVE_OS_RSFXDEVICEOPS") {
        return Some(WaitType::PREEMPTIVE_OS_RSFXDEVICEOPS);
    } else if str_eq(s, "PREEMPTIVE_OS_SECURITYOPS") {
        return Some(WaitType::PREEMPTIVE_OS_SECURITYOPS);
    } else if str_eq(s, "PREEMPTIVE_OS_SERVICEOPS") {
        return Some(WaitType::PREEMPTIVE_OS_SERVICEOPS);
    } else if str_eq(s, "PREEMPTIVE_OS_SETENDOFFILE") {
        return Some(WaitType::PREEMPTIVE_OS_SETENDOFFILE);
    } else if str_eq(s, "PREEMPTIVE_OS_SETFILEPOINTER") {
        return Some(WaitType::PREEMPTIVE_OS_SETFILEPOINTER);
    } else if str_eq(s, "PREEMPTIVE_OS_SETFILEVALIDDATA") {
        return Some(WaitType::PREEMPTIVE_OS_SETFILEVALIDDATA);
    } else if str_eq(s, "PREEMPTIVE_OS_SETNAMEDSECURITYINFO") {
        return Some(WaitType::PREEMPTIVE_OS_SETNAMEDSECURITYINFO);
    } else if str_eq(s, "PREEMPTIVE_OS_SQLCLROPS") {
        return Some(WaitType::PREEMPTIVE_OS_SQLCLROPS);
    } else if str_eq(s, "PREEMPTIVE_OS_SQMLAUNCH") {
        return Some(WaitType::PREEMPTIVE_OS_SQMLAUNCH);
    } else if str_eq(s, "PREEMPTIVE_OS_VERIFYSIGNATURE") {
        return Some(WaitType::PREEMPTIVE_OS_VERIFYSIGNATURE);
    } else if str_eq(s, "PREEMPTIVE_OS_VERIFYTRUST") {
        return Some(WaitType::PREEMPTIVE_OS_VERIFYTRUST);
    } else if str_eq(s, "PREEMPTIVE_OS_VSSOPS") {
        return Some(WaitType::PREEMPTIVE_OS_VSSOPS);
    } else if str_eq(s, "PREEMPTIVE_OS_WAITFORSINGLEOBJECT") {
        return Some(WaitType::PREEMPTIVE_OS_WAITFORSINGLEOBJECT);
    } else if str_eq(s, "PREEMPTIVE_OS_WINSOCKOPS") {
        return Some(WaitType::PREEMPTIVE_OS_WINSOCKOPS);
    } else if str_eq(s, "PREEMPTIVE_OS_WRITEFILE") {
        return Some(WaitType::PREEMPTIVE_OS_WRITEFILE);
    } else if str_eq(s, "PREEMPTIVE_OS_WRITEFILEGATHER") {
        return Some(WaitType::PREEMPTIVE_OS_WRITEFILEGATHER);
    } else if str_eq(s, "PREEMPTIVE_OS_WSASETLASTERROR") {
        return Some(WaitType::PREEMPTIVE_OS_WSASETLASTERROR);
    } else if str_eq(s, "PREEMPTIVE_REENLIST") {
        return Some(WaitType::PREEMPTIVE_REENLIST);
    } else if str_eq(s, "PREEMPTIVE_RESIZELOG") {
        return Some(WaitType::PREEMPTIVE_RESIZELOG);
    } else if str_eq(s, "PREEMPTIVE_ROLLFORWARDREDO") {
        return Some(WaitType::PREEMPTIVE_ROLLFORWARDREDO);
    } else if str_eq(s, "PREEMPTIVE_ROLLFORWARDUNDO") {
        return Some(WaitType::PREEMPTIVE_ROLLFORWARDUNDO);
    } else if str_eq(s, "PREEMPTIVE_SB_STOPENDPOINT") {
        return Some(WaitType::PREEMPTIVE_SB_STOPENDPOINT);
    } else if str_eq(s, "PREEMPTIVE_SERVER_STARTUP") {
        return Some(WaitType::PREEMPTIVE_SERVER_STARTUP);
    } else if str_eq(s, "PREEMPTIVE_SETRMINFO") {
        return Some(WaitType::PREEMPTIVE_SETRMINFO);
    } else if str_eq(s, "PREEMPTIVE_SHAREDMEM_GETDATA") {
        return Some(WaitType::PREEMPTIVE_SHAREDMEM_GETDATA);
    } else if str_eq(s, "PREEMPTIVE_SNIOPEN") {
        return Some(WaitType::PREEMPTIVE_SNIOPEN);
    } else if str_eq(s, "PREEMPTIVE_SOSHOST") {
        return Some(WaitType::PREEMPTIVE_SOSHOST);
    } else if str_eq(s, "PREEMPTIVE_SOSTESTING") {
        return Some(WaitType::PREEMPTIVE_SOSTESTING);
    } else if str_eq(s, "PREEMPTIVE_SP_SERVER_DIAGNOSTICS") {
        return Some(WaitType::PREEMPTIVE_SP_SERVER_DIAGNOSTICS);
    } else if str_eq(s, "PREEMPTIVE_STARTRM") {
        return Some(WaitType::PREEMPTIVE_STARTRM);
    } else if str_eq(s, "PREEMPTIVE_STREAMFCB_CHECKPOINT") {
        return Some(WaitType::PREEMPTIVE_STREAMFCB_CHECKPOINT);
    } else if str_eq(s, "PREEMPTIVE_STREAMFCB_RECOVER") {
        return Some(WaitType::PREEMPTIVE_STREAMFCB_RECOVER);
    } else if str_eq(s, "PREEMPTIVE_STRESSDRIVER") {
        return Some(WaitType::PREEMPTIVE_STRESSDRIVER);
    } else if str_eq(s, "PREEMPTIVE_TESTING") {
        return Some(WaitType::PREEMPTIVE_TESTING);
    } else if str_eq(s, "PREEMPTIVE_TRANSIMPORT") {
        return Some(WaitType::PREEMPTIVE_TRANSIMPORT);
    } else if str_eq(s, "PREEMPTIVE_UNMARSHALPROPAGATIONTOKEN") {
        return Some(WaitType::PREEMPTIVE_UNMARSHALPROPAGATIONTOKEN);
    } else if str_eq(s, "PREEMPTIVE_VSS_CREATESNAPSHOT") {
        return Some(WaitType::PREEMPTIVE_VSS_CREATESNAPSHOT);
    } else if str_eq(s, "PREEMPTIVE_VSS_CREATEVOLUMESNAPSHOT") {
        return Some(WaitType::PREEMPTIVE_VSS_CREATEVOLUMESNAPSHOT);
    } else if str_eq(s, "PREEMPTIVE_XETESTING") {
        return Some(WaitType::PREEMPTIVE_XETESTING);
    }
    None
}

#[verifier::rlimit(40)]
pub(crate) fn parse_listed_13(s: &str) -> (r: Option<WaitType>)
    ensures
        r is Some <==> listed_names_13(s@),
        r matches Some(w) ==> in_part_13(w) && listed_name_13(w) == s@,
{
    proof {
        reveal(listed_name_13);
    }
    if str_eq(s, "PREEMPTIVE_XE_CALLBACKEXECUTE") {
        return Some(WaitType::PREEMPTIVE_XE_CALLBACKEXECUTE);
    } else if str_eq(s, "PREEMPTIVE_XE_CX_FILE_OPEN") {
        return Some(WaitType::PREEMPTIVE_XE_CX_FILE_OPEN);
    } else if str_eq(s, "PREEMPTIVE_XE_CX_HTTP_CALL") {
        return Some(WaitType::PREEMPTIVE_XE_CX_HTTP_CALL);
    } else if str_eq(s, "PREEMPTIVE_XE_DISPATCHER") {
        return Some(WaitType::PREEMPTIVE_XE_DISPATCHER);
    } else if str_eq(s, "PREEMPTIVE_XE_ENGINEINIT") {
        return Some(WaitType::PREEMPTIVE_XE_ENGINEINIT);
    } else if str_eq(s, "PREEMPTIVE_XE_GETTARGETSTATE") {
        return Some(WaitType::PREEMPTIVE_XE_GETTARGETSTATE);
    } else if str_eq(s, "PREEMPTIVE_XE_SESSIONCOMMIT") {
        return Some(WaitType::PREEMPTIVE_XE_SESSIONCOMMIT);
    } else if str_eq(s, "PREEMPTIVE_XE_TARGETFINALIZE") {
        return Some(WaitType::PREEMPTIVE_XE_TARGETFINALIZE);
    } else if str_eq(s, "PREEMPTIVE_XE_TARGETINIT") {
        return Some(WaitType::PREEMPTIVE_XE_TARGETINIT);
    } else if str_eq(s, "PREEMPTIVE_XE_TIMERRUN") {
        return Some(WaitType::PREEMPTIVE_XE_TIMERRUN);
    } else if str_eq(s, "PRINT_ROLLBACK_PROGRESS") {
        return Some(WaitType::PRINT_ROLLBACK_PROGRESS);
    } else if str_eq(s, "PRU_ROLLBACK_DEFERRED") {
        return Some(WaitType::PRU_ROLLBACK_DEFERRED);
    } else if str_eq(s, "PVS_CLEANUP_LOCK") {
        return Some(WaitType::PVS_CLEANUP_LOCK);
    } else if str_eq(s, "PWAIT_ALL_COMPONENTS_INITIALIZED") {
        return Some(WaitType::PWAIT_ALL_COMPONENTS_INITIALIZED);
    } else if str_eq(s, "PWAIT_COOP_SCAN") {
        return Some(WaitType::PWAIT_COOP_SCAN);
    } else if str_eq(s, "PWAIT_DIRECTLOGCONSUMER_GETNEXT") {
        return Some(WaitType::PWAIT_DIRECTLOGCONSUMER_GETNEXT);
    } else if str_eq(s, "PWAIT_EVENT_SESSION_INIT_MUTEX") {
        return Some(WaitType::PWAIT_EVENT_SESSION_INIT_MUTEX);
    } else if str_eq(s, "PWAIT_FABRIC_REPLICA_CONTROLLER_DATA_LOSS") {
        return Some(WaitType::PWAIT_FABRIC_REPLICA_CONTROLLER_DATA_LOSS);
    } else if str_eq(s, "PWAIT_HADRSIM") {
        return Some(WaitType::PWAIT_HADRSIM);
    } else if str_eq(s, "PWAIT_HADR_ACTION_COMPLETED") {
        return Some(WaitType::PWAIT_HADR_ACTION_COMPLETED);
    } else if str_eq(s, "PWAIT_HADR_CHANGE_NOTIFIER_TERMINATION_SYNC") {
        return Some(WaitType::PWAIT_HADR_CHANGE_NOTIFIER_TERMINATION_SYNC);
    } else if str_eq(s, "PWAIT_HADR_CLUSTER_INTEGRATION") {
        return Some(WaitType::PWAIT_HADR_CLUSTER_INTEGRATION);
    } else if str_eq(s, "PWAIT_HADR_FAILOVER_COMPLETED") {
        return Some(WaitType::PWAIT_HADR_FAILOVER_COMPLETED);
    } else if str_eq(s, "PWAIT_HADR_JOIN") {
        return Some(WaitType::PWAIT_HADR_JOIN);
    } else if str_eq(s, "PWAIT_HADR_OFFLINE_COMPLETED") {
        return Some(WaitType::PWAIT_HADR_OFFLINE_COMPLETED);
    } else if str_eq(s, "PWAIT_HADR_ONLINE_COMPLETED") {
        return Some(WaitType::PWAIT_HADR_ONLINE_COMPLETED);
    } else if str_eq(s, "PWAIT_HADR_POST_ONLINE_COMPLETED") {
        return Some(WaitType::PWAIT_HADR_POST_ONLINE_COMPLETED);
    } else if str_eq(s, "PWAIT_HADR_SERVER_READY_CONNECTIONS") {
        return Some(WaitType::PWAIT_HADR_SERVER_READY_CONNECTIONS);
    } else if str_eq(s, "PWAIT_HADR_WORKITEM_COMPLETED") {
        return Some(WaitType::PWAIT_HADR_WORKITEM_COMPLETED);
    } else if str_eq(s, "PWAIT_LOG_CONSOLIDATION_IO") {
        return Some(WaitType::PWAIT_LOG_CONSOLIDATION_IO);
    } else if str_eq(s, "PWAIT_LOG_CONSOLIDATION_POLL") {
        return Some(WaitType::PWAIT_LOG_CONSOLIDATION_POLL);
    } else if str_eq(s, "PWAIT_MD_LOGIN_STATS") {
        return Some(WaitType::PWAIT_MD_LOGIN_STATS);
    } else if str_eq(s, "PWAIT_MD_RELATION_CACHE") {
        return Some(WaitType::PWAIT_MD_RELATION_CACHE);
    } else if str_eq(s, "PWAIT_MD_SERVER_CACHE") {
        return Some(WaitType::PWAIT_MD_SERVER_CACHE);
    } else if str_eq(s, "PWAIT_MD_UPGRADE_CONFIG") {
        return Some(WaitType::PWAIT_MD_UPGRADE_CONFIG);
    } else if str_eq(s, "PWAIT_PREEMPTIVE_APP_USAGE_TIMER") {
        return Some(WaitType::PWAIT_PREEMPTIVE_APP_USAGE_TIMER);
    } else if str_eq(s, "PWAIT_PREEMPTIVE_AUDIT_ACCESS_WINDOWSLOG") {
        return Some(WaitType::PWAIT_PREEMPTIVE_AUDIT_ACCESS_WINDOWSLOG);
    } else if str_eq(s, "PWAIT_QRY_BPMEMORY") {
        return Some(WaitType::PWAIT_QRY_BPMEMORY);
    } else if str_eq(s, "PWAIT_REPLICA_ONLINE_INIT_MUTEX") {
        return Some(WaitType::PWAIT_REPLICA_ONLINE_INIT_MUTEX);
    } else if str_eq(s, "PWAIT_RESOURCE_SEMAPHORE_FT_PARALLEL_QUERY_SYNC") {
        return Some(WaitType::PWAIT_RESOURCE_SEMAPHORE_FT_PARALLEL_QUERY_SYNC);
    } else if str_eq(s, "PWAIT_SBS_FILE_OPERATION") {
        return Some(WaitType::PWAIT_SBS_FILE_OPERATION);
    } else if str_eq(s, "PWAIT_XTP_FSSTORAGE_MAINTENANCE") {
        return Some(WaitType::PWAIT_XTP_FSSTORAGE_MAINTENANCE);
    } else if str_eq(s, "PWAIT_XTP_HOST_STORAGE_WAIT") {
        return Some(WaitType::PWAIT_XTP_HOST_STORAGE_WAIT);
    } else if str_eq(s, "QDS_ASYNC_CHECK_CONSISTENCY_TASK") {
        return Some(WaitType::QDS_ASYNC_CHECK_CONSISTENCY_TASK);
    } else if str_eq(s, "QDS_ASYNC_PERSIST_TASK") {
        return Some(WaitType::QDS_ASYNC_PERSIST_TASK);
    } else if str_eq(s, "QDS_ASYNC_PERSIST_TASK_START") {
        return Some(WaitType::QDS_ASYNC_PERSIST_TASK_START);
    } else if str_eq(s, "QDS_ASYNC_QUEUE") {
        return Some(WaitType::QDS_ASYNC_QUEUE);
    } else if str_eq(s, "QDS_BCKG_TASK") {
        return Some(WaitType::QDS_BCKG_TASK);
    } else if str_eq(s, "QDS_BLOOM_FILTER") {
        return Some(WaitType::QDS_BLOOM_FILTER);
    } else if str_eq(s, "QDS_CLEANUP_STALE_QUERIES_TASK_MAIN_LOOP_SLEEP") {
        return Some(WaitType::QDS_CLEANUP_STALE_QUERIES_TASK_MAIN_LOOP_SLEEP);
    }
    None
}

#[verifier::rlimit(40)]
pub(crate) fn parse_listed_14(s: &str) -> (r: Option<WaitType>)
    ensures
        r is Some <==> listed_names_14(s@),
        r matches Some(w) ==> in_part_14(w) && listed_name_14(w) == s@,
{
    proof {
        reveal(listed_name_14);
    }
    if str_eq(s, "QDS_CTXS") {
        return Some(WaitType::QDS_CTXS);
    } else if str_eq(s, "QDS_DB_DISK") {
        return Some(WaitType::QDS_DB_DISK);
    } else if str_eq(s, "QDS_DYN_VECTOR") {
        return Some(WaitType::QDS_DYN_VECTOR);
    } else if str_eq(s, "QDS_EXCLUSIVE_ACCESS") {
        return Some(WaitType::QDS_EXCLUSIVE_ACCESS);
    } else if str_eq(s, "QDS_HOST_INIT") {
        return Some(WaitType::QDS_HOST_INIT);
    } else if str_eq(s, "QDS_LOADDB") {
        return Some(WaitType::QDS_LOADDB);
    } else if str_eq(s, "QDS_PERSIST_TASK_MAIN_LOOP_SLEEP") {
        return Some(WaitType::QDS_PERSIST_TASK_MAIN_LOOP_SLEEP);
    } else if str_eq(s, "QDS_QDS_CAPTURE_INIT") {
        return Some(WaitType::QDS_QDS_CAPTURE_INIT);
    } else if str_eq(s, "QDS_SHUTDOWN_QUEUE") {
        return Some(WaitType::QDS_SHUTDOWN_QUEUE);
    } else if str_eq(s, "QDS_STMT") {
        return Some(WaitType::QDS_STMT);
    } else if str_eq(s, "QDS_STMT_DISK") {
        return Some(WaitType::QDS_STMT_DISK);
    } else if str_eq(s, "QDS_TASK_SHUTDOWN") {
        return Some(WaitType::QDS_TASK_SHUTDOWN);
    } else if str_eq(s, "QDS_TASK_START") {
        return Some(WaitType::QDS_TASK_START);
    } else if str_eq(s, "QE_WARN_LIST_SYNC") {
        return Some(WaitType::QE_WARN_LIST_SYNC);
    } else if str_eq(s, "QPJOB_KILL") {
        return Some(WaitType::QPJOB_KILL);
    } else if str_eq(s, "QPJOB_WAITFOR_ABORT") {
        return Some(WaitType::QPJOB_WAITFOR_ABORT);
    } else if str_eq(s, "QRY_MEM_GRANT_INFO_MUTEX") {
        return Some(WaitType::QRY_MEM_GRANT_INFO_MUTEX);
    } else if str_eq(s, "QRY_PARALLEL_THREAD_MUTEX") {
        return Some(WaitType::QRY_PARALLEL_THREAD_MUTEX);
    } else if str_eq(s, "QRY_PROFILE_LIST_MUTEX") {
        return Some(WaitType::QRY_PROFILE_LIST_MUTEX);
    } else if str_eq(s, "QUERY_ERRHDL_SERVICE_DONE") {
        return Some(WaitType::QUERY_ERRHDL_SERVICE_DONE);
    } else if str_eq(s, "QUERY_EXECUTION_INDEX_SORT_EVENT_OPEN") {
        return Some(WaitType::QUERY_EXECUTION_INDEX_SORT_EVENT_OPEN);
    } else if str_eq(s, "QUERY_NOTIFICATION_MGR_MUTEX") {
        return Some(WaitType::QUERY_NOTIFICATION_MGR_MUTEX);
    } else if str_eq(s, "QUERY_NOTIFICATION_SUBSCRIPTION_MUTEX") {
        return Some(WaitType::QUERY_NOTIFICATION_SUBSCRIPTION_MUTEX);
    } else if str_eq(s, "QUERY_NOTIFICATION_TABLE_MGR_MUTEX") {
        return Some(WaitType::QUERY_NOTIFICATION_TABLE_MGR_MUTEX);
    } else if str_eq(s, "QUERY_NOTIFICATION_UNITTEST_MUTEX") {
        return Some(WaitType::QUERY_NOTIFICATION_UNITTEST_MUTEX);
    } else if str_eq(s, "QUERY_OPTIMIZER_PRINT_MUTEX") {
        return Some(WaitType::QUERY_OPTIMIZER_PRINT_MUTEX);
    } else if str_eq(s, "QUERY_TASK_ENQUEUE_MUTEX") {
        return Some(WaitType::QUERY_TASK_ENQUEUE_MUTEX);
    } else if str_eq(s, "QUERY_TRACEOUT") {
        return Some(WaitType::QUERY_TRACEOUT);
    } else if str_eq(s, "QUERY_WAIT_ERRHDL_SERVICE") {
        return Some(WaitType::QUERY_WAIT_ERRHDL_SERVICE);
    } else if str_eq(s, "RBIO_RG_DESTAGE") {
        return Some(WaitType::RBIO_RG_DESTAGE);
    } else if str_eq(s, "RBIO_RG_LOCALDESTAGE") {
        return Some(WaitType::RBIO_RG_LOCALDESTAGE);
    } else if str_eq(s, "RBIO_RG_REPLICA") {
        return Some(WaitType::RBIO_RG_REPLICA);
    } else if str_eq(s, "RBIO_RG_STORAGE") {
        return Some(WaitType::RBIO_RG_STORAGE);
    } else if str_eq(s, "RBIO_WAIT_VLF") {
        return Some(WaitType::RBIO_WAIT_VLF);
    } else if str_eq(s, "RECOVERY_MGR_LOCK") {
        return Some(WaitType::RECOVERY_MGR_LOCK);
    } else if str_eq(s, "RECOVER_CHANGEDB") {
        return Some(WaitType::RECOVER_CHANGEDB);
    } else if str_eq(s, "REDO_THREAD_PENDING_WORK") {
        return Some(WaitType::REDO_THREAD_PENDING_WORK);
    } else if str_eq(s, "REDO_THREAD_SYNC") {
        return Some(WaitType::REDO_THREAD_SYNC);
    } else if str_eq(s, "REMOTE_BLOCK_IO") {
        return Some(WaitType::REMOTE_BLOCK_IO);
    } else if str_eq(s, "REMOTE_DATA_ARCHIVE_MIGRATION_DMV") {
        return Some(WaitType::REMOTE_DATA_ARCHIVE_MIGRATION_DMV);
    } else if str_eq(s, "REMOTE_DATA_ARCHIVE_SCHEMA_DMV") {
        return Some(WaitType::REMOTE_DATA_ARCHIVE_SCHEMA_DMV);
    } else if str_eq(s, "REMOTE_DATA_ARCHIVE_SCHEMA_TASK_QUEUE") {
        return Some(WaitType::REMOTE_DATA_ARCHIVE_SCHEMA_TASK_QUEUE);
    } else if str_eq(s, "REPLICA_WRITES") {
        return Some(WaitType::REPLICA_WRITES);
    } else if str_eq(s, "REPL_CACHE_ACCESS") {
        return Some(WaitType::REPL_CACHE_ACCESS);
    } else if str_eq(s, "REPL_HISTORYCACHE_ACCESS") {
        return Some(WaitType::REPL_HISTORYCACHE_ACCESS);
    } else if str_eq(s, "REPL_SCHEMA_ACCESS") {
        return Some(WaitType::REPL_SCHEMA_ACCESS);
    } else if str_eq(s, "REPL_TRANFSINFO_ACCESS") {
        return Some(WaitType::REPL_TRANFSINFO_ACCESS);
    } else if str_eq(s, "REPL_TRANHASHTABLE_ACCESS") {
        return Some(WaitType::REPL_TRANHASHTABLE_ACCESS);
    } else if str_eq(s, "REPL_TRANTEXTINFO_ACCESS") {
        return Some(WaitType::REPL_TRANTEXTINFO_ACCESS);
    } else if str_eq(s, "REQUEST_DISPENSER_PAUSE") {
        return Some(WaitType::REQUEST_DISPENSER_PAUSE);
    }
    None
}

#[verifier::rlimit(40)]
pub(crate) fn parse_listed_15(s: &str) -> (r: Option<WaitType>)
    ensures
        r is Some <==> listed_names_15(s@),
        r matches Some(w) ==> in_part_15(w) && listed_name_15(w) == s@,
{
    proof {
        reveal(listed_name_15);
    }
    if str_eq(s, "REQUEST_FOR_DEADLOCK_SEARCH") {
        return Some(WaitType::REQUEST_FOR_DEADLOCK_SEARCH);
    } else if str_eq(s, "RESERVED_MEMORY_ALLOCATION_EXT") {
        return Some(WaitType::RESERVED_MEMORY_ALLOCATION_EXT);
    } else if str_eq(s, "RESMGR_THROTTLED") {
        return Some(WaitType::RESMGR_THROTTLED);
    } else if str_eq(s, "RESOURCE_GOVERNOR_IDLE") {
        return Some(WaitType::RESOURCE_GOVERNOR_IDLE);
    } else if str_eq(s, "RESOURCE_QUEUE") {
        return Some(WaitType::RESOURCE_QUEUE);
    } else if str_eq(s, "RESOURCE_SEMAPHORE") {
        return Some(WaitType::RESOURCE_SEMAPHORE);
    } else if str_eq(s, "RESOURCE_SEMAPHORE_MUTEX") {
        return Some(WaitType::RESOURCE_SEMAPHORE_MUTEX);
    } else if str_eq(s, "RESOURCE_SEMAPHORE_QUERY_COMPILE") {
        return Some(WaitType::RESOURCE_SEMAPHORE_QUERY_COMPILE);
    } else if str_eq(s, "RESOURCE_SEMAPHORE_SMALL_QUERY") {
        return Some(WaitType::RESOURCE_SEMAPHORE_SMALL_QUERY);
    } else if str_eq(s, "RESTORE_FILEHANDLECACHE_ENTRYLOCK") {
        return Some(WaitType::RESTORE_FILEHANDLECACHE_ENTRYLOCK);
    } else if str_eq(s, "RESTORE_FILEHANDLECACHE_LOCK") {
        return Some(WaitType::RESTORE_FILEHANDLECACHE_LOCK);
    } else if str_eq(s, "RG_RECONFIG") {
        return Some(WaitType::RG_RECONFIG);
    } else if str_eq(s, "ROWGROUP_OP_STATS") {
        return Some(WaitType::ROWGROUP_OP_STATS);
    } else if str_eq(s, "ROWGROUP_VERSION") {
        return Some(WaitType::ROWGROUP_VERSION);
    } else if str_eq(s, "RTDATA_LIST") {
        return Some(WaitType::RTDATA_LIST);
    } else if str_eq(s, "SATELLITE_CARGO") {
        return Some(WaitType::SATELLITE_CARGO);
    } else if str_eq(s, "SATELLITE_SERVICE_SETUP") {
        return Some(WaitType::SATELLITE_SERVICE_SETUP);
    } else if str_eq(s, "SATELLITE_TASK") {
        return Some(WaitType::SATELLITE_TASK);
    } else if str_eq(s, "SBS_DISPATCH") {
        return Some(WaitType::SBS_DISPATCH);
    } else if str_eq(s, "SBS_RECEIVE_TRANSPORT") {
        return Some(WaitType::SBS_RECEIVE_TRANSPORT);
    } else if str_eq(s, "SBS_TRANSPORT") {
        return Some(WaitType::SBS_TRANSPORT);
    } else if str_eq(s, "SCAN_CHAR_HASH_ARRAY_INITIALIZATION") {
        return Some(WaitType::SCAN_CHAR_HASH_ARRAY_INITIALIZATION);
    } else if str_eq(s, "SECURITY_CNG_PROVIDER_MUTEX") {
        return Some(WaitType::SECURITY_CNG_PROVIDER_MUTEX);
    } else if str_eq(s, "SECURITY_CRYPTO_CONTEXT_MUTEX") {
        return Some(WaitType::SECURITY_CRYPTO_CONTEXT_MUTEX);
    } else if str_eq(s, "SECURITY_DBE_STATE_MUTEX") {
        return Some(WaitType::SECURITY_DBE_STATE_MUTEX);
    } else if str_eq(s, "SECURITY_KEYRING_RWLOCK") {
        return Some(WaitType::SECURITY_KEYRING_RWLOCK);
    } else if str_eq(s, "SECURITY_MUTEX") {
        return Some(WaitType::SECURITY_MUTEX);
    } else if str_eq(s, "SECURITY_RULETABLE_MUTEX") {
        return Some(WaitType::SECURITY_RULETABLE_MUTEX);
    } else if str_eq(s, "SEC_DROP_TEMP_KEY") {
        return Some(WaitType::SEC_DROP_TEMP_KEY);
    } else if str_eq(s, "SEMPLAT_DSI_BUILD") {
        return Some(WaitType::SEMPLAT_DSI_BUILD);
    } else if str_eq(s, "SEQUENCE_GENERATION") {
        return Some(WaitType::SEQUENCE_GENERATION);
    } else if str_eq(s, "SEQUENTIAL_GUID") {
        return Some(WaitType::SEQUENTIAL_GUID);
    } else if str_eq(s, "SERVER_IDLE_CHECK") {
        return Some(WaitType::SERVER_IDLE_CHECK);
    } else if str_eq(s, "SERVER_RECONFIGURE") {
        return Some(WaitType::SERVER_RECONFIGURE);
    } else if str_eq(s, "SESSION_WAIT_STATS_CHILDREN") {
        return Some(WaitType::SESSION_WAIT_STATS_CHILDREN);
    } else if str_eq(s, "SHARED_DELTASTORE_CREATION") {
        return Some(WaitType::SHARED_DELTASTORE_CREATION);
    } else if str_eq(s, "SHUTDOWN") {
        return Some(WaitType::SHUTDOWN);
    } else if str_eq(s, "SLEEP_BPOOL_FLUSH") {
        return Some(WaitType::SLEEP_BPOOL_FLUSH);
    } else if str_eq(s, "SLEEP_BUFFERPOOL_HELPLW") {
        return Some(WaitType::SLEEP_BUFFERPOOL_HELPLW);
    } else if str_eq(s, "SLEEP_DBSTARTUP") {
        return Some(WaitType::SLEEP_DBSTARTUP);
    } else if str_eq(s, "SLEEP_DCOMSTARTUP") {
        return Some(WaitType::SLEEP_DCOMSTARTUP);
    } else if str_eq(s, "SLEEP_MASTERDBREADY") {
        return Some(WaitType::SLEEP_MASTERDBREADY);
    } else if str_eq(s, "SLEEP_MASTERMDREADY") {
        return Some(WaitType::SLEEP_MASTERMDREADY);
    } else if str_eq(s, "SLEEP_MASTERUPGRADED") {
        return Some(WaitType::SLEEP_MASTERUPGRADED);
    } else if str_eq(s, "SLEEP_MEMORYPOOL_ALLOCATEPAGES") {
        return Some(WaitType::SLEEP_MEMORYPOOL_ALLOCATEPAGES);
    } else if str_eq(s, "SLEEP_MSDBSTARTUP") {
        return Some(WaitType::SLEEP_MSDBSTARTUP);
    } else if str_eq(s, "SLEEP_RETRY_VIRTUALALLOC") {
        return Some(WaitType::SLEEP_RETRY_VIRTUALALLOC);
    } else if str_eq(s, "SLEEP_SYSTEMTASK") {
        return Some(WaitType::SLEEP_SYSTEMTASK);
    } else if str_eq(s, "SLEEP_TASK") {
        return Some(WaitType::SLEEP_TASK);
    } else if str_eq(s, "SLEEP_TEMPDBSTARTUP") {
        return Some(WaitType::SLEEP_TEMPDBSTARTUP);
    }
    None
}

#[verifier::rlimit(40)]
pub(crate) fn parse_listed_16(s: &str) -> (r: Option<WaitType>)
    ensures
        r is Some <==> listed_names_16(s@),
        r matches Some(w) ==> in_part_16(w) && listed_name_16(w) == s@,
{
    proof {
        reveal(listed_name_16);
    }
    if str_eq(s, "SLEEP_WORKSPACE_ALLOCATEPAGE") {
        return Some(WaitType::SLEEP_WORKSPACE_ALLOCATEPAGE);
    } else if str_eq(s, "SLO_UPDATE") {
        return Some(WaitType::SLO_UPDATE);
    } else if str_eq(s, "SMSYNC") {
        return Some(WaitType::SMSYNC);
    } else if str_eq(s, "SNI_CONN_DUP") {
        return Some(WaitType::SNI_CONN_DUP);
    } else if str_eq(s, "SNI_CRITICAL_SECTION") {
        return Some(WaitType::SNI_CRITICAL_SECTION);
    } else if str_eq(s, "SNI_HTTP_WAITFOR_0_DISCON") {
        return Some(WaitType::SNI_HTTP_WAITFOR_0_DISCON);
    } else if str_eq(s, "SNI_LISTENER_ACCESS") {
        return Some(WaitType::SNI_LISTENER_ACCESS);
    } else if str_eq(s, "SNI_TASK_COMPLETION") {
        return Some(WaitType::SNI_TASK_COMPLETION);
    } else if str_eq(s, "SNI_WRITE_ASYNC") {
        return Some(WaitType::SNI_WRITE_ASYNC);
    } else if str_eq(s, "SOAP_READ") {
        return Some(WaitType::SOAP_READ);
    } else if str_eq(s, "SOAP_WRITE") {
        return Some(WaitType::SOAP_WRITE);
    } else if str_eq(s, "SOCKETDUPLICATEQUEUE_CLEANUP") {
        return Some(WaitType::SOCKETDUPLICATEQUEUE_CLEANUP);
    } else if str_eq(s, "SOSHOST_EVENT") {
        return Some(WaitType::SOSHOST_EVENT);
    } else if str_eq(s, "SOSHOST_INTERNAL") {
        return Some(WaitType::SOSHOST_INTERNAL);
    } else if str_eq(s, "SOSHOST_MUTEX") {
        return Some(WaitType::SOSHOST_MUTEX);
    } else if str_eq(s, "SOSHOST_RWLOCK") {
        return Some(WaitType::SOSHOST_RWLOCK);
    } else if str_eq(s, "SOSHOST_SEMAPHORE") {
        return Some(WaitType::SOSHOST_SEMAPHORE);
    } else if str_eq(s, "SOSHOST_SLEEP") {
        return Some(WaitType::SOSHOST_SLEEP);
    } else if str_eq(s, "SOSHOST_TRACELOCK") {
        return Some(WaitType::SOSHOST_TRACELOCK);
    } else if str_eq(s, "SOSHOST_WAITFORDONE") {
        return Some(WaitType::SOSHOST_WAITFORDONE);
    } else if str_eq(s, "SOS_CALLBACK_REMOVAL") {
        return Some(WaitType::SOS_CALLBACK_REMOVAL);
    } else if str_eq(s, "SOS_DISPATCHER_MUTEX") {
        return Some(WaitType::SOS_DISPATCHER_MUTEX);
    } else if str_eq(s, "SOS_LOCALALLOCATORLIST") {
        return Some(WaitType::SOS_LOCALALLOCATORLIST);
    } else if str_eq(s, "SOS_MEMORY_TOPLEVELBLOCKALLOCATOR") {
        return Some(WaitType::SOS_MEMORY_TOPLEVELBLOCKALLOCATOR);
    } else if str_eq(s, "SOS_MEMORY_USAGE_ADJUSTMENT") {
        return Some(WaitType::SOS_MEMORY_USAGE_ADJUSTMENT);
    } else if str_eq(s, "SOS_OBJECT_STORE_DESTROY_MUTEX") {
        return Some(WaitType::SOS_OBJECT_STORE_DESTROY_MUTEX);
    } else if str_eq(s, "SOS_PHYS_PAGE_CACHE") {
        return Some(WaitType::SOS_PHYS_PAGE_CACHE);
    } else if str_eq(s, "SOS_PROCESS_AFFINITY_MUTEX") {
        return Some(WaitType::SOS_PROCESS_AFFINITY_MUTEX);
    } else if str_eq(s, "SOS_RESERVEDMEMBLOCKLIST") {
        return Some(WaitType::SOS_RESERVEDMEMBLOCKLIST);
    } else if str_eq(s, "SOS_SCHEDULER_YIELD") {
        return Some(WaitType::SOS_SCHEDULER_YIELD);
    } else if str_eq(s, "SOS_SMALL_PAGE_ALLOC") {
        return Some(WaitType::SOS_SMALL_PAGE_ALLOC);
    } else if str_eq(s, "SOS_STACKSTORE_INIT_MUTEX") {
        return Some(WaitType::SOS_STACKSTORE_INIT_MUTEX);
    } else if str_eq(s, "SOS_SYNC_TASK_ENQUEUE_EVENT") {
        return Some(WaitType::SOS_SYNC_TASK_ENQUEUE_EVENT);
    } else if str_eq(s, "SOS_VIRTUALMEMORY_LOW") {
        return Some(WaitType::SOS_VIRTUALMEMORY_LOW);
    } else if str_eq(s, "SOS_WORK_DISPATCHER") {
        return Some(WaitType::SOS_WORK_DISPATCHER);
    } else if str_eq(s, "SPINLOCK_EXT") {
        return Some(WaitType::SPINLOCK_EXT);
    } else if str_eq(s, "SP_PREEMPTIVE_SERVER_DIAGNOSTICS_SLEEP") {
        return Some(WaitType::SP_PREEMPTIVE_SERVER_DIAGNOSTICS_SLEEP);
    } else if str_eq(s, "SP_SERVER_DIAGNOSTICS_BUFFER_ACCESS") {
        return Some(WaitType::SP_SERVER_DIAGNOSTICS_BUFFER_ACCESS);
    } else if str_eq(s, "SP_SERVER_DIAGNOSTICS_INIT_MUTEX") {
        return Some(WaitType::SP_SERVER_DIAGNOSTICS_INIT_MUTEX);
    } else if str_eq(s, "SP_SERVER_DIAGNOSTICS_SLEEP") {
        return Some(WaitType::SP_SERVER_DIAGNOSTICS_SLEEP);
    } else if str_eq(s, "SQLCLR_APPDOMAIN") {
        return Some(WaitType::SQLCLR_APPDOMAIN);
    } else if str_eq(s, "SQLCLR_ASSEMBLY") {
        return Some(WaitType::SQLCLR_ASSEMBLY);
    } else if str_eq(s, "SQLCLR_DEADLOCK_DETECTION") {
        return Some(WaitType::SQLCLR_DEADLOCK_DETECTION);
    } else if str_eq(s, "SQLCLR_QUANTUM_PUNISHMENT") {
        return Some(WaitType::SQLCLR_QUANTUM_PUNISHMENT);
    } else if str_eq(s, "SQLSORT_NORMMUTEX") {
        return Some(WaitType::SQLSORT_NORMMUTEX);
    } else if str_eq(s, "SQLSORT_SORTMUTEX") {
        return Some(WaitType::SQLSORT_SORTMUTEX);
    } else if str_eq(s, "SQLTRACE_BUFFER_FLUSH") {
        return Some(WaitType::SQLTRACE_BUFFER_FLUSH);
    } else if str_eq(s, "SQLTRACE_FILE_BUFFER") {
        return Some(WaitType::SQLTRACE_FILE_BUFFER);
    } else if str_eq(s, "SQLTRACE_FILE_READ_IO_COMPLETION") {
        return Some(WaitType::SQLTRACE_FILE_READ_IO_COMPLETION);
    } else if str_eq(s, "SQLTRACE_FILE_WRITE_IO_COMPLETION") {
        return Some(WaitType::SQLTRACE_FILE_WRITE_IO_COMPLETION);
    }
    None
}

#[verifier::rlimit(40)]
pub(crate) fn parse_listed_17(s: &str) -> (r: Option<WaitType>)
    ensures
        r is Some <==> listed_names_17(s@),
        r matches Some(w) ==> in_part_17(w) && listed_name_17(w) == s@,
{
    proof {
        reveal(listed_name_17);
    }
    if str_eq(s, "SQLTRACE_INCREMENTAL_FLUSH_SLEEP") {
        return Some(WaitType::SQLTRACE_INCREMENTAL_FLUSH_SLEEP);
    } else if str_eq(s, "SQLTRACE_LOCK") {
        return Some(WaitType::SQLTRACE_LOCK);
    } else if str_eq(s, "SQLTRACE_PENDING_BUFFER_WRITERS") {
        return Some(WaitType::SQLTRACE_PENDING_BUFFER_WRITERS);
    } else if str_eq(s, "SQLTRACE_SHUTDOWN") {
        return Some(WaitType::SQLTRACE_SHUTDOWN);
    } else if str_eq(s, "SQLTRACE_WAIT_ENTRIES") {
        return Some(WaitType::SQLTRACE_WAIT_ENTRIES);
    } else if str_eq(s, "SRVPROC_SHUTDOWN") {
        return Some(WaitType::SRVPROC_SHUTDOWN);
    } else if str_eq(s, "STARTUP_DEPENDENCY_MANAGER") {
        return Some(WaitType::STARTUP_DEPENDENCY_MANAGER);
    } else if str_eq(s, "TDS_BANDWIDTH_STATE") {
        return Some(WaitType::TDS_BANDWIDTH_STATE);
    } else if str_eq(s, "TDS_INIT") {
        return Some(WaitType::TDS_INIT);
    } else if str_eq(s, "TDS_PROXY_CONTAINER") {
        return Some(WaitType::TDS_PROXY_CONTAINER);
    } else if str_eq(s, "TEMPOBJ") {
        return Some(WaitType::TEMPOBJ);
    } else if str_eq(s, "TEMPORAL_BACKGROUND_PROCEED_CLEANUP") {
        return Some(WaitType::TEMPORAL_BACKGROUND_PROCEED_CLEANUP);
    } else if str_eq(s, "TERMINATE_LISTENER") {
        return Some(WaitType::TERMINATE_LISTENER);
    } else if str_eq(s, "THREADPOOL") {
        return Some(WaitType::THREADPOOL);
    } else if str_eq(s, "TIMEPRIV_TIMEPERIOD") {
        return Some(WaitType::TIMEPRIV_TIMEPERIOD);
    } else if str_eq(s, "TRACEWRITE") {
        return Some(WaitType::TRACEWRITE);
    } else if str_eq(s, "TRACE_EVTNOTIF") {
        return Some(WaitType::TRACE_EVTNOTIF);
    } else if str_eq(s, "TRANSACTION_MUTEX") {
        return Some(WaitType::TRANSACTION_MUTEX);
    } else if str_eq(s, "TRAN_MARKLATCH_DT") {
        return Some(WaitType::TRAN_MARKLATCH_DT);
    } else if str_eq(s, "TRAN_MARKLATCH_EX") {
        return Some(WaitType::TRAN_MARKLATCH_EX);
    } else if str_eq(s, "TRAN_MARKLATCH_KP") {
        return Some(WaitType::TRAN_MARKLATCH_KP);
    } else if str_eq(s, "TRAN_MARKLATCH_NL") {
        return Some(WaitType::TRAN_MARKLATCH_NL);
    } else if str_eq(s, "TRAN_MARKLATCH_SH") {
        return Some(WaitType::TRAN_MARKLATCH_SH);
    } else if str_eq(s, "TRAN_MARKLATCH_UP") {
        return Some(WaitType::TRAN_MARKLATCH_UP);
    } else if str_eq(s, "UCS_ENDPOINT_CHANGE") {
        return Some(WaitType::UCS_ENDPOINT_CHANGE);
    } else if str_eq(s, "UCS_MANAGER") {
        return Some(WaitType::UCS_MANAGER);
    } else if str_eq(s, "UCS_MEMORY_NOTIFICATION") {
        return Some(WaitType::UCS_MEMORY_NOTIFICATION);
    } else if str_eq(s, "UCS_SESSION_REGISTRATION") {
        return Some(WaitType::UCS_SESSION_REGISTRATION);
    } else if str_eq(s, "UCS_TRANSPORT") {
        return Some(WaitType::UCS_TRANSPORT);
    } else if str_eq(s, "UCS_TRANSPORT_STREAM_CHANGE") {
        return Some(WaitType::UCS_TRANSPORT_STREAM_CHANGE);
    } else if str_eq(s, "UTIL_PAGE_ALLOC") {
        return Some(WaitType::UTIL_PAGE_ALLOC);
    } else if str_eq(s, "VDI_CLIENT_COMPLETECOMMAND") {
        return Some(WaitType::VDI_CLIENT_COMPLETECOMMAND);
    } else if str_eq(s, "VDI_CLIENT_GETCOMMAND") {
        return Some(WaitType::VDI_CLIENT_GETCOMMAND);
    } else if str_eq(s, "VDI_CLIENT_OPERATION") {
        return Some(WaitType::VDI_CLIENT_OPERATION);
    } else if str_eq(s, "VDI_CLIENT_OTHER") {
        return Some(WaitType::VDI_CLIENT_OTHER);
    } else if str_eq(s, "VERSIONING_COMMITTING") {
        return Some(WaitType::VERSIONING_COMMITTING);
    } else if str_eq(s, "VIA_ACCEPT") {
        return Some(WaitType::VIA_ACCEPT);
    } else if str_eq(s, "VIEW_DEFINITION_MUTEX") {
        return Some(WaitType::VIEW_DEFINITION_MUTEX);
    } else if str_eq(s, "WAITFOR") {
        return Some(WaitType::WAITFOR);
    } else if str_eq(s, "WAITFOR_PER_QUEUE") {
        return Some(WaitType::WAITFOR_PER_QUEUE);
    } else if str_eq(s, "WAITFOR_TASKSHUTDOWN") {
        return Some(WaitType::WAITFOR_TASKSHUTDOWN);
    } else if str_eq(s, "WAITSTAT_MUTEX") {
        return Some(WaitType::WAITSTAT_MUTEX);
    } else if str_eq(s, "WAIT_FOR_RESULTS") {
        return Some(WaitType::WAIT_FOR_RESULTS);
    } else if str_eq(s, "WAIT_ON_SYNC_STATISTICS_REFRESH") {
        return Some(WaitType::WAIT_ON_SYNC_STATISTICS_REFRESH);
    } else if str_eq(s, "WAIT_SCRIPTDEPLOYMENT_REQUEST") {
        return Some(WaitType::WAIT_SCRIPTDEPLOYMENT_REQUEST);
    } else if str_eq(s, "WAIT_SCRIPTDEPLOYMENT_WORKER") {
        return Some(WaitType::WAIT_SCRIPTDEPLOYMENT_WORKER);
    } else if str_eq(s, "WAIT_XLOGREAD_SIGNAL") {
        return Some(WaitType::WAIT_XLOGREAD_SIGNAL);
    } else if str_eq(s, "WAIT_XTP_ASYNC_TX_COMPLETION") {
        return Some(WaitType::WAIT_XTP_ASYNC_TX_COMPLETION);
    } else if str_eq(s, "WAIT_XTP_CKPT_AGENT_WAKEUP") {
        return Some(WaitType::WAIT_XTP_CKPT_AGENT_WAKEUP);
    } else if str_eq(s, "WAIT_XTP_CKPT_CLOSE") {
        return Some(WaitType::WAIT_XTP_CKPT_CLOSE);
    }
    None
}

#[verifier::rlimit(40)]
pub(crate) fn parse_listed_18(s: &str) -> (r: Option<WaitType>)
    ensures
        r is Some <==> listed_names_18(s@),
        r matches Some(w) ==> in_part_18(w) && listed_name_18(w) == s@,
{
    proof {
        reveal(listed_name_18);
    }
    if str_eq(s, "WAIT_XTP_CKPT_ENABLED") {
        return Some(WaitType::WAIT_XTP_CKPT_ENABLED);
    } else if str_eq(s, "WAIT_XTP_CKPT_STATE_LOCK") {
        return Some(WaitType::WAIT_XTP_CKPT_STATE_LOCK);
    } else if str_eq(s, "WAIT_XTP_COMPILE_WAIT") {
        return Some(WaitType::WAIT_XTP_COMPILE_WAIT);
    } else if str_eq(s, "WAIT_XTP_GUEST") {
        return Some(WaitType::WAIT_XTP_GUEST);
    } else if str_eq(s, "WAIT_XTP_HOST_WAIT") {
        return Some(WaitType::WAIT_XTP_HOST_WAIT);
    } else if str_eq(s, "WAIT_XTP_OFFLINE_CKPT_BEFORE_REDO") {
        return Some(WaitType::WAIT_XTP_OFFLINE_CKPT_BEFORE_REDO);
    } else if str_eq(s, "WAIT_XTP_OFFLINE_CKPT_LOG_IO") {
        return Some(WaitType::WAIT_XTP_OFFLINE_CKPT_LOG_IO);
    } else if str_eq(s, "WAIT_XTP_OFFLINE_CKPT_NEW_LOG") {
        return Some(WaitType::WAIT_XTP_OFFLINE_CKPT_NEW_LOG);
    } else if str_eq(s, "WAIT_XTP_PROCEDURE_ENTRY") {
        return Some(WaitType::WAIT_XTP_PROCEDURE_ENTRY);
    } else if str_eq(s, "WAIT_XTP_RECOVERY") {
        return Some(WaitType::WAIT_XTP_RECOVERY);
    } else if str_eq(s, "WAIT_XTP_SERIAL_RECOVERY") {
        return Some(WaitType::WAIT_XTP_SERIAL_RECOVERY);
    } else if str_eq(s, "WAIT_XTP_SWITCH_TO_INACTIVE") {
        return Some(WaitType::WAIT_XTP_SWITCH_TO_INACTIVE);
    } else if str_eq(s, "WAIT_XTP_TASK_SHUTDOWN") {
        return Some(WaitType::WAIT_XTP_TASK_SHUTDOWN);
    } else if str_eq(s, "WAIT_XTP_TRAN_DEPENDENCY") {
        return Some(WaitType::WAIT_XTP_TRAN_DEPENDENCY);
    } else if str_eq(s, "WCC") {
        return Some(WaitType::WCC);
    } else if str_eq(s, "WINDOW_AGGREGATES_MULTIPASS") {
        return Some(WaitType::WINDOW_AGGREGATES_MULTIPASS);
    } else if str_eq(s, "WINFAB_API_CALL") {
        return Some(WaitType::WINFAB_API_CALL);
    } else if str_eq(s, "WINFAB_REPLICA_BUILD_OPERATION") {
        return Some(WaitType::WINFAB_REPLICA_BUILD_OPERATION);
    } else if str_eq(s, "WINFAB_REPORT_FAULT") {
        return Some(WaitType::WINFAB_REPORT_FAULT);
    } else if str_eq(s, "WORKTBL_DROP") {
        return Some(WaitType::WORKTBL_DROP);
    } else if str_eq(s, "WRITELOG") {
        return Some(WaitType::WRITELOG);
    } else if str_eq(s, "WRITE_COMPLETION") {
        return Some(WaitType::WRITE_COMPLETION);
    } else if str_eq(s, "XACTLOCKINFO") {
        return Some(WaitType::XACTLOCKINFO);
    } else if str_eq(s, "XACTWORKSPACE_MUTEX") {
        return Some(WaitType::XACTWORKSPACE_MUTEX);
    } else if str_eq(s, "XACT_OWN_TRANSACTION") {
        return Some(WaitType::XACT_OWN_TRANSACTION);
    } else if str_eq(s, "XACT_RECLAIM_SESSION") {
        return Some(WaitType::XACT_RECLAIM_SESSION);
    } else if str_eq(s, "XDB_CONN_DUP_HASH") {
        return Some(WaitType::XDB_CONN_DUP_HASH);
    } else if str_eq(s, "XDESTSVERMGR") {
        return Some(WaitType::XDESTSVERMGR);
    } else if str_eq(s, "XDES_HISTORY") {
        return Some(WaitType::XDES_HISTORY);
    } else if str_eq(s, "XDES_OUT_OF_ORDER_LIST") {
        return Some(WaitType::XDES_OUT_OF_ORDER_LIST);
    } else if str_eq(s, "XDES_SNAPSHOT") {
        return Some(WaitType::XDES_SNAPSHOT);
    } else if str_eq(s, "XE_BUFFERMGR_ALLPROCESSED_EVENT") {
        return Some(WaitType::XE_BUFFERMGR_ALLPROCESSED_EVENT);
    } else if str_eq(s, "XE_BUFFERMGR_FREEBUF_EVENT") {
        return Some(WaitType::XE_BUFFERMGR_FREEBUF_EVENT);
    } else if str_eq(s, "XE_CALLBACK_LIST") {
        return Some(WaitType::XE_CALLBACK_LIST);
    } else if str_eq(s, "XE_CX_FILE_READ") {
        return Some(WaitType::XE_CX_FILE_READ);
    } else if str_eq(s, "XE_DISPATCHER_CONFIG_SESSION_LIST") {
        return Some(WaitType::XE_DISPATCHER_CONFIG_SESSION_LIST);
    } else if str_eq(s, "XE_DISPATCHER_JOIN") {
        return Some(WaitType::XE_DISPATCHER_JOIN);
    } else if str_eq(s, "XE_DISPATCHER_WAIT") {
        return Some(WaitType::XE_DISPATCHER_WAIT);
    } else if str_eq(s, "XE_FILE_TARGET_TVF") {
        return Some(WaitType::XE_FILE_TARGET_TVF);
    } else if str_eq(s, "XE_LIVE_TARGET_TVF") {
        return Some(WaitType::XE_LIVE_TARGET_TVF);
    } else if str_eq(s, "XE_MODULEMGR_SYNC") {
        return Some(WaitType::XE_MODULEMGR_SYNC);
    } else if str_eq(s, "XE_OLS_LOCK") {
        return Some(WaitType::XE_OLS_LOCK);
    } else if str_eq(s, "XE_PACKAGE_LOCK_BACKOFF") {
        return Some(WaitType::XE_PACKAGE_LOCK_BACKOFF);
    } else if str_eq(s, "XE_SERVICES_EVENTMANUAL") {
        return Some(WaitType::XE_SERVICES_EVENTMANUAL);
    } else if str_eq(s, "XE_SERVICES_MUTEX") {
        return Some(WaitType::XE_SERVICES_MUTEX);
    } else if str_eq(s, "XE_SERVICES_RWLOCK") {
        return Some(WaitType::XE_SERVICES_RWLOCK);
    } else if str_eq(s, "XE_SESSION_CREATE_SYNC") {
        return Some(WaitType::XE_SESSION_CREATE_SYNC);
    } else if str_eq(s, "XE_SESSION_FLUSH") {
        return Some(WaitType::XE_SESSION_FLUSH);
    } else if str_eq(s, "XE_SESSION_SYNC") {
        return Some(WaitType::XE_SESSION_SYNC);
    } else if str_eq(s, "XE_STM_CREATE") {
        return Some(WaitType::XE_STM_CREATE);
    }
    None
}

#[verifier::rlimit(40)]
pub(crate) fn parse_listed_19(s: &str) -> (r: Option<WaitType>)
    ensures
        r is Some <==> listed_names_19(s@),
        r matches Some(w) ==> in_part_19(w) && listed_name_19(w) == s@,
{
    proof {
        reveal(listed_name_19);
    }
    if str_eq(s, "XE_TIMER_EVENT") {
        return Some(WaitType::XE_TIMER_EVENT);
    } else if str_eq(s, "XE_TIMER_MUTEX") {
        return Some(WaitType::XE_TIMER_MUTEX);
    } else if str_eq(s, "XE_TIMER_TASK_DONE") {
        return Some(WaitType::XE_TIMER_TASK_DONE);
    } else if str_eq(s, "XIO_CREDENTIAL_MGR_RWLOCK") {
        return Some(WaitType::XIO_CREDENTIAL_MGR_RWLOCK);
    } else if str_eq(s, "XIO_CREDENTIAL_RWLOCK") {
        return Some(WaitType::XIO_CREDENTIAL_RWLOCK);
    } else if str_eq(s, "XIO_EDS_MGR_RWLOCK") {
        return Some(WaitType::XIO_EDS_MGR_RWLOCK);
    } else if str_eq(s, "XIO_EDS_RWLOCK") {
        return Some(WaitType::XIO_EDS_RWLOCK);
    } else if str_eq(s, "XIO_IOSTATS_BLOBLIST_RWLOCK") {
        return Some(WaitType::XIO_IOSTATS_BLOBLIST_RWLOCK);
    } else if str_eq(s, "XIO_IOSTATS_FCBLIST_RWLOCK") {
        return Some(WaitType::XIO_IOSTATS_FCBLIST_RWLOCK);
    } else if str_eq(s, "XIO_LEASE_RENEW_MGR_RWLOCK") {
        return Some(WaitType::XIO_LEASE_RENEW_MGR_RWLOCK);
    } else if str_eq(s, "XTPPROC_CACHE_ACCESS") {
        return Some(WaitType::XTPPROC_CACHE_ACCESS);
    } else if str_eq(s, "XTPPROC_PARTITIONED_STACK_CREATE") {
        return Some(WaitType::XTPPROC_PARTITIONED_STACK_CREATE);
    } else if str_eq(s, "XTP_HOST_DB_COLLECTION") {
        return Some(WaitType::XTP_HOST_DB_COLLECTION);
    } else if str_eq(s, "XTP_HOST_LOG_ACTIVITY") {
        return Some(WaitType::XTP_HOST_LOG_ACTIVITY);
    } else if str_eq(s, "XTP_HOST_PARALLEL_RECOVERY") {
        return Some(WaitType::XTP_HOST_PARALLEL_RECOVERY);
    } else if str_eq(s, "XTP_PREEMPTIVE_TASK") {
        return Some(WaitType::XTP_PREEMPTIVE_TASK);
    } else if str_eq(s, "XTP_TRUNCATION_LSN") {
        return Some(WaitType::XTP_TRUNCATION_LSN);
    }
    None
}

} // verus!
