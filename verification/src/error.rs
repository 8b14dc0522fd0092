//! The result codes of the two device libraries and the error of a conduit.

use vstd::prelude::*;
use vstd::std_specs::convert::FromSpecImpl;
use vstd::string::{to_string_from_display_ensures, StringExecFns};

verus! {

/// A result code of the synchronization transport. Every transport call
/// returns one; `SYNCERR_NONE` is success.
#[derive(Debug, Clone, Copy, PartialEq, Eq, Structural)]
#[non_exhaustive]
#[allow(non_camel_case_types)]
pub enum SyncManagerError {
    /// Success
    SYNCERR_NONE,
    /// An unknown error occurred (no mapping between local and remote error codes)
    SYNCERR_UNKNOWN,
    /// Not used
    SYNCERR_MORE,
    /// The requested database, record or resource was not found
    SYNCERR_NOT_FOUND,
    /// An attempt to open a database failed
    SYNCERR_FILE_NOT_OPEN,
    /// Not used
    SYNCERR_FILE_OPEN,
    /// The requested record is in use by someone else and will remain so
    SYNCERR_RECORD_BUSY,
    /// The requested record has been deleted or archived
    SYNCERR_RECORD_DELETED,
    /// The caller has no write access, or the database is in ROM
    SYNCERR_READ_ONLY,
    /// Communications have not been initialized
    SYNCERR_COMM_NOT_INIT,
    /// A database of the same name already exists on the remote
    SYNCERR_FILE_ALREADY_EXIST,
    /// The requested database is open by someone else
    SYNCERR_FILE_ALREADY_OPEN,
    /// An operation was requested on a database when none was open
    SYNCERR_NO_FILES_OPEN,
    /// The operation is not supported on this kind of database
    SYNCERR_BAD_OPERATION,
    /// An invalid argument was passed to the remote
    SYNCERR_REMOTE_BAD_ARG,
    /// Internal link error: a protocol implementation error
    SYNCERR_BAD_ARG_WRAPPER,
    /// Internal link error: a protocol implementation error
    SYNCERR_ARG_MISSING,
    /// The buffer passed is too small for the reply data
    SYNCERR_LOCAL_BUFF_TOO_SMALL,
    /// The remote has too little memory to receive or complete the request
    SYNCERR_REMOTE_MEM,
    /// The remote data store has too little room to complete the request
    SYNCERR_REMOTE_NO_SPACE,
    /// A remote system error of unknown cause
    SYNCERR_REMOTE_SYS,
    /// A local memory allocation error
    SYNCERR_LOCAL_MEM,
    /// An invalid or oversized argument to a local function
    SYNCERR_BAD_ARG,
    /// A data limit was exceeded on the remote
    SYNCERR_LIMIT_EXCEEDED,
    /// The remote does not support this request
    SYNCERR_UNKNOWN_REQUEST,
    /// Too many databases are open
    SYNCERR_TOO_MANY_OPEN_FILES,
    /// The remote asked to cancel the synchronization
    SYNCERR_REMOTE_CANCEL_SYNC,
    /// The connection is lost
    SYNCERR_LOST_CONNECTION,
    /// The desktop asked to cancel the synchronization
    SYNCERR_LOCAL_CANCEL_SYNC,
}

impl SyncManagerError {
    /// The number that the transport returns for this code.
    pub open spec fn spec_code(self) -> int {
        match self {
            SyncManagerError::SYNCERR_NONE => 0x0000,
            SyncManagerError::SYNCERR_UNKNOWN => 0x4001,
            SyncManagerError::SYNCERR_MORE => 0x4002,
            SyncManagerError::SYNCERR_NOT_FOUND => 0x4003,
            SyncManagerError::SYNCERR_FILE_NOT_OPEN => 0x4004,
            SyncManagerError::SYNCERR_FILE_OPEN => 0x4005,
            SyncManagerError::SYNCERR_RECORD_BUSY => 0x4006,
            SyncManagerError::SYNCERR_RECORD_DELETED => 0x4007,
            SyncManagerError::SYNCERR_READ_ONLY => 0x4009,
            SyncManagerError::SYNCERR_COMM_NOT_INIT => 0x400A,
            SyncManagerError::SYNCERR_FILE_ALREADY_EXIST => 0x400B,
            SyncManagerError::SYNCERR_FILE_ALREADY_OPEN => 0x400C,
            SyncManagerError::SYNCERR_NO_FILES_OPEN => 0x400D,
            SyncManagerError::SYNCERR_BAD_OPERATION => 0x400E,
            SyncManagerError::SYNCERR_REMOTE_BAD_ARG => 0x400F,
            SyncManagerError::SYNCERR_BAD_ARG_WRAPPER => 0x4010,
            SyncManagerError::SYNCERR_ARG_MISSING => 0x4011,
            SyncManagerError::SYNCERR_LOCAL_BUFF_TOO_SMALL => 0x4012,
            SyncManagerError::SYNCERR_REMOTE_MEM => 0x4013,
            SyncManagerError::SYNCERR_REMOTE_NO_SPACE => 0x4014,
            SyncManagerError::SYNCERR_REMOTE_SYS => 0x4015,
            SyncManagerError::SYNCERR_LOCAL_MEM => 0x4016,
            SyncManagerError::SYNCERR_BAD_ARG => 0x4017,
            SyncManagerError::SYNCERR_LIMIT_EXCEEDED => 0x4018,
            SyncManagerError::SYNCERR_UNKNOWN_REQUEST => 0x4019,
            SyncManagerError::SYNCERR_TOO_MANY_OPEN_FILES => 0x1000_4403,
            SyncManagerError::SYNCERR_REMOTE_CANCEL_SYNC => 0x1000_4405,
            SyncManagerError::SYNCERR_LOST_CONNECTION => 0x1000_6410,
            SyncManagerError::SYNCERR_LOCAL_CANCEL_SYNC => 0x1000_4411,
        }
    }

    /// The code that a number of the transport stands for, if it is one of
    /// the documented set.
    pub open spec fn spec_from_code(code: int) -> Option<SyncManagerError> {
        if code == 0x0000 {
            Some(SyncManagerError::SYNCERR_NONE)
        } else if code == 0x4001 {
            Some(SyncManagerError::SYNCERR_UNKNOWN)
        } else if code == 0x4002 {
            Some(SyncManagerError::SYNCERR_MORE)
        } else if code == 0x4003 {
            Some(SyncManagerError::SYNCERR_NOT_FOUND)
        } else if code == 0x4004 {
            Some(SyncManagerError::SYNCERR_FILE_NOT_OPEN)
        } else if code == 0x4005 {
            Some(SyncManagerError::SYNCERR_FILE_OPEN)
        } else if code == 0x4006 {
            Some(SyncManagerError::SYNCERR_RECORD_BUSY)
        } else if code == 0x4007 {
            Some(SyncManagerError::SYNCERR_RECORD_DELETED)
        } else if code == 0x4009 {
            Some(SyncManagerError::SYNCERR_READ_ONLY)
        } else if code == 0x400A {
            Some(SyncManagerError::SYNCERR_COMM_NOT_INIT)
        } else if code == 0x400B {
            Some(SyncManagerError::SYNCERR_FILE_ALREADY_EXIST)
        } else if code == 0x400C {
            Some(SyncManagerError::SYNCERR_FILE_ALREADY_OPEN)
        } else if code == 0x400D {
            Some(SyncManagerError::SYNCERR_NO_FILES_OPEN)
        } else if code == 0x400E {
            Some(SyncManagerError::SYNCERR_BAD_OPERATION)
        } else if code == 0x400F {
            Some(SyncManagerError::SYNCERR_REMOTE_BAD_ARG)
        } else if code == 0x4010 {
            Some(SyncManagerError::SYNCERR_BAD_ARG_WRAPPER)
        } else if code == 0x4011 {
            Some(SyncManagerError::SYNCERR_ARG_MISSING)
        } else if code == 0x4012 {
            Some(SyncManagerError::SYNCERR_LOCAL_BUFF_TOO_SMALL)
        } else if code == 0x4013 {
            Some(SyncManagerError::SYNCERR_REMOTE_MEM)
        } else if code == 0x4014 {
            Some(SyncManagerError::SYNCERR_REMOTE_NO_SPACE)
        } else if code == 0x4015 {
            Some(SyncManagerError::SYNCERR_REMOTE_SYS)
        } else if code == 0x4016 {
            Some(SyncManagerError::SYNCERR_LOCAL_MEM)
        } else if code == 0x4017 {
            Some(SyncManagerError::SYNCERR_BAD_ARG)
        } else if code == 0x4018 {
            Some(SyncManagerError::SYNCERR_LIMIT_EXCEEDED)
        } else if code == 0x4019 {
            Some(SyncManagerError::SYNCERR_UNKNOWN_REQUEST)
        } else if code == 0x1000_4403 {
            Some(SyncManagerError::SYNCERR_TOO_MANY_OPEN_FILES)
        } else if code == 0x1000_4405 {
            Some(SyncManagerError::SYNCERR_REMOTE_CANCEL_SYNC)
        } else if code == 0x1000_6410 {
            Some(SyncManagerError::SYNCERR_LOST_CONNECTION)
        } else if code == 0x1000_4411 {
            Some(SyncManagerError::SYNCERR_LOCAL_CANCEL_SYNC)
        } else {
            None
        }
    }

    /// The name under which the code is reported.
    pub open spec fn spec_name(self) -> Seq<char> {
        match self {
            SyncManagerError::SYNCERR_NONE => "SYNCERR_NONE"@,
            SyncManagerError::SYNCERR_UNKNOWN => "SYNCERR_UNKNOWN"@,
            SyncManagerError::SYNCERR_MORE => "SYNCERR_MORE"@,
            SyncManagerError::SYNCERR_NOT_FOUND => "SYNCERR_NOT_FOUND"@,
            SyncManagerError::SYNCERR_FILE_NOT_OPEN => "SYNCERR_FILE_NOT_OPEN"@,
            SyncManagerError::SYNCERR_FILE_OPEN => "SYNCERR_FILE_OPEN"@,
            SyncManagerError::SYNCERR_RECORD_BUSY => "SYNCERR_RECORD_BUSY"@,
            SyncManagerError::SYNCERR_RECORD_DELETED => "SYNCERR_RECORD_DELETED"@,
            SyncManagerError::SYNCERR_READ_ONLY => "SYNCERR_READ_ONLY"@,
            SyncManagerError::SYNCERR_COMM_NOT_INIT => "SYNCERR_COMM_NOT_INIT"@,
            SyncManagerError::SYNCERR_FILE_ALREADY_EXIST => "SYNCERR_FILE_ALREADY_EXIST"@,
            SyncManagerError::SYNCERR_FILE_ALREADY_OPEN => "SYNCERR_FILE_ALREADY_OPEN"@,
            SyncManagerError::SYNCERR_NO_FILES_OPEN => "SYNCERR_NO_FILES_OPEN"@,
            SyncManagerError::SYNCERR_BAD_OPERATION => "SYNCERR_BAD_OPERATION"@,
            SyncManagerError::SYNCERR_REMOTE_BAD_ARG => "SYNCERR_REMOTE_BAD_ARG"@,
            SyncManagerError::SYNCERR_BAD_ARG_WRAPPER => "SYNCERR_BAD_ARG_WRAPPER"@,
            SyncManagerError::SYNCERR_ARG_MISSING => "SYNCERR_ARG_MISSING"@,
            SyncManagerError::SYNCERR_LOCAL_BUFF_TOO_SMALL => "SYNCERR_LOCAL_BUFF_TOO_SMALL"@,
            SyncManagerError::SYNCERR_REMOTE_MEM => "SYNCERR_REMOTE_MEM"@,
            SyncManagerError::SYNCERR_REMOTE_NO_SPACE => "SYNCERR_REMOTE_NO_SPACE"@,
            SyncManagerError::SYNCERR_REMOTE_SYS => "SYNCERR_REMOTE_SYS"@,
            SyncManagerError::SYNCERR_LOCAL_MEM => "SYNCERR_LOCAL_MEM"@,
            SyncManagerError::SYNCERR_BAD_ARG => "SYNCERR_BAD_ARG"@,
            SyncManagerError::SYNCERR_LIMIT_EXCEEDED => "SYNCERR_LIMIT_EXCEEDED"@,
            SyncManagerError::SYNCERR_UNKNOWN_REQUEST => "SYNCERR_UNKNOWN_REQUEST"@,
            SyncManagerError::SYNCERR_TOO_MANY_OPEN_FILES => "SYNCERR_TOO_MANY_OPEN_FILES"@,
            SyncManagerError::SYNCERR_REMOTE_CANCEL_SYNC => "SYNCERR_REMOTE_CANCEL_SYNC"@,
            SyncManagerError::SYNCERR_LOST_CONNECTION => "SYNCERR_LOST_CONNECTION"@,
            SyncManagerError::SYNCERR_LOCAL_CANCEL_SYNC => "SYNCERR_LOCAL_CANCEL_SYNC"@,
        }
    }

    /// The number that the transport returns for this code.
    pub fn code(&self) -> (code: i32)
        ensures
            code == self.spec_code(),
    {
        match self {
            SyncManagerError::SYNCERR_NONE => 0x0000,
            SyncManagerError::SYNCERR_UNKNOWN => 0x4001,
            SyncManagerError::SYNCERR_MORE => 0x4002,
            SyncManagerError::SYNCERR_NOT_FOUND => 0x4003,
            SyncManagerError::SYNCERR_FILE_NOT_OPEN => 0x4004,
            SyncManagerError::SYNCERR_FILE_OPEN => 0x4005,
            SyncManagerError::SYNCERR_RECORD_BUSY => 0x4006,
            SyncManagerError::SYNCERR_RECORD_DELETED => 0x4007,
            SyncManagerError::SYNCERR_READ_ONLY => 0x4009,
            SyncManagerError::SYNCERR_COMM_NOT_INIT => 0x400A,
            SyncManagerError::SYNCERR_FILE_ALREADY_EXIST => 0x400B,
            SyncManagerError::SYNCERR_FILE_ALREADY_OPEN => 0x400C,
            SyncManagerError::SYNCERR_NO_FILES_OPEN => 0x400D,
            SyncManagerError::SYNCERR_BAD_OPERATION => 0x400E,
            SyncManagerError::SYNCERR_REMOTE_BAD_ARG => 0x400F,
            SyncManagerError::SYNCERR_BAD_ARG_WRAPPER => 0x4010,
            SyncManagerError::SYNCERR_ARG_MISSING => 0x4011,
            SyncManagerError::SYNCERR_LOCAL_BUFF_TOO_SMALL => 0x4012,
            SyncManagerError::SYNCERR_REMOTE_MEM => 0x4013,
            SyncManagerError::SYNCERR_REMOTE_NO_SPACE => 0x4014,
            SyncManagerError::SYNCERR_REMOTE_SYS => 0x4015,
            SyncManagerError::SYNCERR_LOCAL_MEM => 0x4016,
            SyncManagerError::SYNCERR_BAD_ARG => 0x4017,
            SyncManagerError::SYNCERR_LIMIT_EXCEEDED => 0x4018,
            SyncManagerError::SYNCERR_UNKNOWN_REQUEST => 0x4019,
            SyncManagerError::SYNCERR_TOO_MANY_OPEN_FILES => 0x1000_4403,
            SyncManagerError::SYNCERR_REMOTE_CANCEL_SYNC => 0x1000_4405,
            SyncManagerError::SYNCERR_LOST_CONNECTION => 0x1000_6410,
            SyncManagerError::SYNCERR_LOCAL_CANCEL_SYNC => 0x1000_4411,
        }
    }

    /// Reads a number returned by the transport. Numbers outside the
    /// documented set give `None`.
    pub fn from_code(code: i32) -> (found: Option<SyncManagerError>)
        ensures
            found == Self::spec_from_code(code as int),
    {
        if code == 0x0000 {
            Some(SyncManagerError::SYNCERR_NONE)
        } else if code == 0x4001 {
            Some(SyncManagerError::SYNCERR_UNKNOWN)
        } else if code == 0x4002 {
            Some(SyncManagerError::SYNCERR_MORE)
        } else if code == 0x4003 {
            Some(SyncManagerError::SYNCERR_NOT_FOUND)
        } else if code == 0x4004 {
            Some(SyncManagerError::SYNCERR_FILE_NOT_OPEN)
        } else if code == 0x4005 {
            Some(SyncManagerError::SYNCERR_FILE_OPEN)
        } else if code == 0x4006 {
            Some(SyncManagerError::SYNCERR_RECORD_BUSY)
        } else if code == 0x4007 {
            Some(SyncManagerError::SYNCERR_RECORD_DELETED)
        } else if code == 0x4009 {
            Some(SyncManagerError::SYNCERR_READ_ONLY)
        } else if code == 0x400A {
            Some(SyncManagerError::SYNCERR_COMM_NOT_INIT)
        } else if code == 0x400B {
            Some(SyncManagerError::SYNCERR_FILE_ALREADY_EXIST)
        } else if code == 0x400C {
            Some(SyncManagerError::SYNCERR_FILE_ALREADY_OPEN)
        } else if code == 0x400D {
            Some(SyncManagerError::SYNCERR_NO_FILES_OPEN)
        } else if code == 0x400E {
            Some(SyncManagerError::SYNCERR_BAD_OPERATION)
        } else if code == 0x400F {
            Some(SyncManagerError::SYNCERR_REMOTE_BAD_ARG)
        } else if code == 0x4010 {
            Some(SyncManagerError::SYNCERR_BAD_ARG_WRAPPER)
        } else if code == 0x4011 {
            Some(SyncManagerError::SYNCERR_ARG_MISSING)
        } else if code == 0x4012 {
            Some(SyncManagerError::SYNCERR_LOCAL_BUFF_TOO_SMALL)
        } else if code == 0x4013 {
            Some(SyncManagerError::SYNCERR_REMOTE_MEM)
        } else if code == 0x4014 {
            Some(SyncManagerError::SYNCERR_REMOTE_NO_SPACE)
        } else if code == 0x4015 {
            Some(SyncManagerError::SYNCERR_REMOTE_SYS)
        } else if code == 0x4016 {
            Some(SyncManagerError::SYNCERR_LOCAL_MEM)
        } else if code == 0x4017 {
            Some(SyncManagerError::SYNCERR_BAD_ARG)
        } else if code == 0x4018 {
            Some(SyncManagerError::SYNCERR_LIMIT_EXCEEDED)
        } else if code == 0x4019 {
            Some(SyncManagerError::SYNCERR_UNKNOWN_REQUEST)
        } else if code == 0x1000_4403 {
            Some(SyncManagerError::SYNCERR_TOO_MANY_OPEN_FILES)
        } else if code == 0x1000_4405 {
            Some(SyncManagerError::SYNCERR_REMOTE_CANCEL_SYNC)
        } else if code == 0x1000_6410 {
            Some(SyncManagerError::SYNCERR_LOST_CONNECTION)
        } else if code == 0x1000_4411 {
            Some(SyncManagerError::SYNCERR_LOCAL_CANCEL_SYNC)
        } else {
            None
        }
    }

    /// The name of the code, as it is written into logs.
    pub fn to_string(&self) -> (text: String)
        ensures
            text@ == self.spec_name(),
    {
        match self {
            SyncManagerError::SYNCERR_NONE => "SYNCERR_NONE".to_string(),
            SyncManagerError::SYNCERR_UNKNOWN => "SYNCERR_UNKNOWN".to_string(),
            SyncManagerError::SYNCERR_MORE => "SYNCERR_MORE".to_string(),
            SyncManagerError::SYNCERR_NOT_FOUND => "SYNCERR_NOT_FOUND".to_string(),
            SyncManagerError::SYNCERR_FILE_NOT_OPEN => "SYNCERR_FILE_NOT_OPEN".to_string(),
            SyncManagerError::SYNCERR_FILE_OPEN => "SYNCERR_FILE_OPEN".to_string(),
            SyncManagerError::SYNCERR_RECORD_BUSY => "SYNCERR_RECORD_BUSY".to_string(),
            SyncManagerError::SYNCERR_RECORD_DELETED => "SYNCERR_RECORD_DELETED".to_string(),
            SyncManagerError::SYNCERR_READ_ONLY => "SYNCERR_READ_ONLY".to_string(),
            SyncManagerError::SYNCERR_COMM_NOT_INIT => "SYNCERR_COMM_NOT_INIT".to_string(),
            SyncManagerError::SYNCERR_FILE_ALREADY_EXIST => "SYNCERR_FILE_ALREADY_EXIST".to_string(),
            SyncManagerError::SYNCERR_FILE_ALREADY_OPEN => "SYNCERR_FILE_ALREADY_OPEN".to_string(),
            SyncManagerError::SYNCERR_NO_FILES_OPEN => "SYNCERR_NO_FILES_OPEN".to_string(),
            SyncManagerError::SYNCERR_BAD_OPERATION => "SYNCERR_BAD_OPERATION".to_string(),
            SyncManagerError::SYNCERR_REMOTE_BAD_ARG => "SYNCERR_REMOTE_BAD_ARG".to_string(),
            SyncManagerError::SYNCERR_BAD_ARG_WRAPPER => "SYNCERR_BAD_ARG_WRAPPER".to_string(),
            SyncManagerError::SYNCERR_ARG_MISSING => "SYNCERR_ARG_MISSING".to_string(),
            SyncManagerError::SYNCERR_LOCAL_BUFF_TOO_SMALL => "SYNCERR_LOCAL_BUFF_TOO_SMALL".to_string(),
            SyncManagerError::SYNCERR_REMOTE_MEM => "SYNCERR_REMOTE_MEM".to_string(),
            SyncManagerError::SYNCERR_REMOTE_NO_SPACE => "SYNCERR_REMOTE_NO_SPACE".to_string(),
            SyncManagerError::SYNCERR_REMOTE_SYS => "SYNCERR_REMOTE_SYS".to_string(),
            SyncManagerError::SYNCERR_LOCAL_MEM => "SYNCERR_LOCAL_MEM".to_string(),
            SyncManagerError::SYNCERR_BAD_ARG => "SYNCERR_BAD_ARG".to_string(),
            SyncManagerError::SYNCERR_LIMIT_EXCEEDED => "SYNCERR_LIMIT_EXCEEDED".to_string(),
            SyncManagerError::SYNCERR_UNKNOWN_REQUEST => "SYNCERR_UNKNOWN_REQUEST".to_string(),
            SyncManagerError::SYNCERR_TOO_MANY_OPEN_FILES => "SYNCERR_TOO_MANY_OPEN_FILES".to_string(),
            SyncManagerError::SYNCERR_REMOTE_CANCEL_SYNC => "SYNCERR_REMOTE_CANCEL_SYNC".to_string(),
            SyncManagerError::SYNCERR_LOST_CONNECTION => "SYNCERR_LOST_CONNECTION".to_string(),
            SyncManagerError::SYNCERR_LOCAL_CANCEL_SYNC => "SYNCERR_LOCAL_CANCEL_SYNC".to_string(),
        }
    }

    /// Whether the code reports success.
    pub open spec fn spec_is_ok(self) -> bool {
        self == SyncManagerError::SYNCERR_NONE
    }

    /// Turns a code into a result: success for `SYNCERR_NONE`, and the code
    /// itself, wrapped as the conduit's error, for every other.
    pub fn into_result(self) -> (result: Result<(), ConduitError>)
        ensures
            result == self.spec_into_result(),
    {
        if self == SyncManagerError::SYNCERR_NONE {
            Ok(())
        } else {
            Err(ConduitError::Sync(self))
        }
    }

    /// See [`SyncManagerError::into_result`].
    pub open spec fn spec_into_result(self) -> Result<(), ConduitError> {
        if self == SyncManagerError::SYNCERR_NONE {
            Ok(())
        } else {
            Err(ConduitError::Sync(self))
        }
    }
}

/// A code and its number determine each other: reading the number of a code
/// gives the code back, and a number that reads as a code is that code's
/// number.
pub proof fn lemma_sync_code_round_trips(error: SyncManagerError, code: int)
    ensures
        SyncManagerError::spec_from_code(error.spec_code()) == Some(error),
        SyncManagerError::spec_from_code(code) == Some(error) ==> error.spec_code() == code,
{
}

/// A result code of the conduit registration manager; `ERR_NONE` is
/// success, every other code is negative.
#[derive(Debug, Clone, Copy, PartialEq, Eq, Structural)]
#[non_exhaustive]
#[allow(non_camel_case_types)]
pub enum ConduitRegistrationError {
    ERR_NONE,
    ERR_INDEX_OUT_OF_RANGE,
    ERR_UNABLE_TO_DELETE,
    ERR_NO_CONDUIT,
    ERR_NO_MEMORY,
    ERR_CREATORID_ALREADY_IN_USE,
    ERR_REGISTRY_ACCESS,
    ERR_UNABLE_TO_CREATE_CONDUIT,
    ERR_UNABLE_TO_SET_CONDUIT_VALUE,
    ERR_INVALID_HANDLE,
    ERR_BUFFER_TOO_SMALL,
    ERR_VALUE_NOT_FOUND,
    ERR_INVALID_CREATOR_ID,
    ERR_INVALID_POINTER,
    ERR_UNABLE_TO_INSTALL_OLD,
    ERR_INVALID_CONDUIT_TYPE,
    ERR_INVALID_COM_PORT_TYPE,
    ERR_NO_LONGER_SUPPORTED,
}

impl ConduitRegistrationError {
    /// The number that the registration manager returns for this code.
    pub open spec fn spec_code(self) -> int {
        match self {
            ConduitRegistrationError::ERR_NONE => 0,
            ConduitRegistrationError::ERR_INDEX_OUT_OF_RANGE => -1001,
            ConduitRegistrationError::ERR_UNABLE_TO_DELETE => -1002,
            ConduitRegistrationError::ERR_NO_CONDUIT => -1003,
            ConduitRegistrationError::ERR_NO_MEMORY => -1004,
            ConduitRegistrationError::ERR_CREATORID_ALREADY_IN_USE => -1005,
            ConduitRegistrationError::ERR_REGISTRY_ACCESS => -1006,
            ConduitRegistrationError::ERR_UNABLE_TO_CREATE_CONDUIT => -1007,
            ConduitRegistrationError::ERR_UNABLE_TO_SET_CONDUIT_VALUE => -1008,
            ConduitRegistrationError::ERR_INVALID_HANDLE => -1009,
            ConduitRegistrationError::ERR_BUFFER_TOO_SMALL => -1010,
            ConduitRegistrationError::ERR_VALUE_NOT_FOUND => -1011,
            ConduitRegistrationError::ERR_INVALID_CREATOR_ID => -1012,
            ConduitRegistrationError::ERR_INVALID_POINTER => -1013,
            ConduitRegistrationError::ERR_UNABLE_TO_INSTALL_OLD => -1014,
            ConduitRegistrationError::ERR_INVALID_CONDUIT_TYPE => -1015,
            ConduitRegistrationError::ERR_INVALID_COM_PORT_TYPE => -1016,
            ConduitRegistrationError::ERR_NO_LONGER_SUPPORTED => -1017,
        }
    }

    /// The code that a number of the registration manager stands for, if it
    /// is one of the documented set.
    pub open spec fn spec_from_code(code: int) -> Option<ConduitRegistrationError> {
        if code == 0 {
            Some(ConduitRegistrationError::ERR_NONE)
        } else if code == -1001 {
            Some(ConduitRegistrationError::ERR_INDEX_OUT_OF_RANGE)
        } else if code == -1002 {
            Some(ConduitRegistrationError::ERR_UNABLE_TO_DELETE)
        } else if code == -1003 {
            Some(ConduitRegistrationError::ERR_NO_CONDUIT)
        } else if code == -1004 {
            Some(ConduitRegistrationError::ERR_NO_MEMORY)
        } else if code == -1005 {
            Some(ConduitRegistrationError::ERR_CREATORID_ALREADY_IN_USE)
        } else if code == -1006 {
            Some(ConduitRegistrationError::ERR_REGISTRY_ACCESS)
        } else if code == -1007 {
            Some(ConduitRegistrationError::ERR_UNABLE_TO_CREATE_CONDUIT)
        } else if code == -1008 {
            Some(ConduitRegistrationError::ERR_UNABLE_TO_SET_CONDUIT_VALUE)
        } else if code == -1009 {
            Some(ConduitRegistrationError::ERR_INVALID_HANDLE)
        } else if code == -1010 {
            Some(ConduitRegistrationError::ERR_BUFFER_TOO_SMALL)
        } else if code == -1011 {
            Some(ConduitRegistrationError::ERR_VALUE_NOT_FOUND)
        } else if code == -1012 {
            Some(ConduitRegistrationError::ERR_INVALID_CREATOR_ID)
        } else if code == -1013 {
            Some(ConduitRegistrationError::ERR_INVALID_POINTER)
        } else if code == -1014 {
            Some(ConduitRegistrationError::ERR_UNABLE_TO_INSTALL_OLD)
        } else if code == -1015 {
            Some(ConduitRegistrationError::ERR_INVALID_CONDUIT_TYPE)
        } else if code == -1016 {
            Some(ConduitRegistrationError::ERR_INVALID_COM_PORT_TYPE)
        } else if code == -1017 {
            Some(ConduitRegistrationError::ERR_NO_LONGER_SUPPORTED)
        } else {
            None
        }
    }

    /// The text under which the code is reported: a sentence for success,
    /// the code's name for every error.
    pub open spec fn spec_name(self) -> Seq<char> {
        match self {
            ConduitRegistrationError::ERR_NONE => "No errors detected"@,
            ConduitRegistrationError::ERR_INDEX_OUT_OF_RANGE => "ERR_INDEX_OUT_OF_RANGE"@,
            ConduitRegistrationError::ERR_UNABLE_TO_DELETE => "ERR_UNABLE_TO_DELETE"@,
            ConduitRegistrationError::ERR_NO_CONDUIT => "ERR_NO_CONDUIT"@,
            ConduitRegistrationError::ERR_NO_MEMORY => "ERR_NO_MEMORY"@,
            ConduitRegistrationError::ERR_CREATORID_ALREADY_IN_USE => "ERR_CREATORID_ALREADY_IN_USE"@,
            ConduitRegistrationError::ERR_REGISTRY_ACCESS => "ERR_REGISTRY_ACCESS"@,
            ConduitRegistrationError::ERR_UNABLE_TO_CREATE_CONDUIT => "ERR_UNABLE_TO_CREATE_CONDUIT"@,
            ConduitRegistrationError::ERR_UNABLE_TO_SET_CONDUIT_VALUE => "ERR_UNABLE_TO_SET_CONDUIT_VALUE"@,
            ConduitRegistrationError::ERR_INVALID_HANDLE => "ERR_INVALID_HANDLE"@,
            ConduitRegistrationError::ERR_BUFFER_TOO_SMALL => "ERR_BUFFER_TOO_SMALL"@,
            ConduitRegistrationError::ERR_VALUE_NOT_FOUND => "ERR_VALUE_NOT_FOUND"@,
            ConduitRegistrationError::ERR_INVALID_CREATOR_ID => "ERR_INVALID_CREATOR_ID"@,
            ConduitRegistrationError::ERR_INVALID_POINTER => "ERR_INVALID_POINTER"@,
            ConduitRegistrationError::ERR_UNABLE_TO_INSTALL_OLD => "ERR_UNABLE_TO_INSTALL_OLD"@,
            ConduitRegistrationError::ERR_INVALID_CONDUIT_TYPE => "ERR_INVALID_CONDUIT_TYPE"@,
            ConduitRegistrationError::ERR_INVALID_COM_PORT_TYPE => "ERR_INVALID_COM_PORT_TYPE"@,
            ConduitRegistrationError::ERR_NO_LONGER_SUPPORTED => "ERR_NO_LONGER_SUPPORTED"@,
        }
    }

    /// The number that the registration manager returns for this code.
    pub fn code(&self) -> (code: i32)
        ensures
            code == self.spec_code(),
    {
        match self {
            ConduitRegistrationError::ERR_NONE => 0,
            ConduitRegistrationError::ERR_INDEX_OUT_OF_RANGE => -1001,
            ConduitRegistrationError::ERR_UNABLE_TO_DELETE => -1002,
            ConduitRegistrationError::ERR_NO_CONDUIT => -1003,
            ConduitRegistrationError::ERR_NO_MEMORY => -1004,
            ConduitRegistrationError::ERR_CREATORID_ALREADY_IN_USE => -1005,
            ConduitRegistrationError::ERR_REGISTRY_ACCESS => -1006,
            ConduitRegistrationError::ERR_UNABLE_TO_CREATE_CONDUIT => -1007,
            ConduitRegistrationError::ERR_UNABLE_TO_SET_CONDUIT_VALUE => -1008,
            ConduitRegistrationError::ERR_INVALID_HANDLE => -1009,
            ConduitRegistrationError::ERR_BUFFER_TOO_SMALL => -1010,
            ConduitRegistrationError::ERR_VALUE_NOT_FOUND => -1011,
            ConduitRegistrationError::ERR_INVALID_CREATOR_ID => -1012,
            ConduitRegistrationError::ERR_INVALID_POINTER => -1013,
            ConduitRegistrationError::ERR_UNABLE_TO_INSTALL_OLD => -1014,
            ConduitRegistrationError::ERR_INVALID_CONDUIT_TYPE => -1015,
            ConduitRegistrationError::ERR_INVALID_COM_PORT_TYPE => -1016,
            ConduitRegistrationError::ERR_NO_LONGER_SUPPORTED => -1017,
        }
    }

    /// Reads a number returned by the registration manager. Numbers outside
    /// the documented set give `None`.
    pub fn from_code(code: i32) -> (found: Option<ConduitRegistrationError>)
        ensures
            found == Self::spec_from_code(code as int),
    {
        if code == 0 {
            Some(ConduitRegistrationError::ERR_NONE)
        } else if code == -1001 {
            Some(ConduitRegistrationError::ERR_INDEX_OUT_OF_RANGE)
        } else if code == -1002 {
            Some(ConduitRegistrationError::ERR_UNABLE_TO_DELETE)
        } else if code == -1003 {
            Some(ConduitRegistrationError::ERR_NO_CONDUIT)
        } else if code == -1004 {
            Some(ConduitRegistrationError::ERR_NO_MEMORY)
        } else if code == -1005 {
            Some(ConduitRegistrationError::ERR_CREATORID_ALREADY_IN_USE)
        } else if code == -1006 {
            Some(ConduitRegistrationError::ERR_REGISTRY_ACCESS)
        } else if code == -1007 {
            Some(ConduitRegistrationError::ERR_UNABLE_TO_CREATE_CONDUIT)
        } else if code == -1008 {
            Some(ConduitRegistrationError::ERR_UNABLE_TO_SET_CONDUIT_VALUE)
        } else if code == -1009 {
            Some(ConduitRegistrationError::ERR_INVALID_HANDLE)
        } else if code == -1010 {
            Some(ConduitRegistrationError::ERR_BUFFER_TOO_SMALL)
        } else if code == -1011 {
            Some(ConduitRegistrationError::ERR_VALUE_NOT_FOUND)
        } else if code == -1012 {
            Some(ConduitRegistrationError::ERR_INVALID_CREATOR_ID)
        } else if code == -1013 {
            Some(ConduitRegistrationError::ERR_INVALID_POINTER)
        } else if code == -1014 {
            Some(ConduitRegistrationError::ERR_UNABLE_TO_INSTALL_OLD)
        } else if code == -1015 {
            Some(ConduitRegistrationError::ERR_INVALID_CONDUIT_TYPE)
        } else if code == -1016 {
            Some(ConduitRegistrationError::ERR_INVALID_COM_PORT_TYPE)
        } else if code == -1017 {
            Some(ConduitRegistrationError::ERR_NO_LONGER_SUPPORTED)
        } else {
            None
        }
    }

    /// The text of the code, as it is shown to the user.
    pub fn to_string(&self) -> (text: String)
        ensures
            text@ == self.spec_name(),
    {
        match self {
            ConduitRegistrationError::ERR_NONE => "No errors detected".to_string(),
            ConduitRegistrationError::ERR_INDEX_OUT_OF_RANGE => "ERR_INDEX_OUT_OF_RANGE".to_string(),
            ConduitRegistrationError::ERR_UNABLE_TO_DELETE => "ERR_UNABLE_TO_DELETE".to_string(),
            ConduitRegistrationError::ERR_NO_CONDUIT => "ERR_NO_CONDUIT".to_string(),
            ConduitRegistrationError::ERR_NO_MEMORY => "ERR_NO_MEMORY".to_string(),
            ConduitRegistrationError::ERR_CREATORID_ALREADY_IN_USE => "ERR_CREATORID_ALREADY_IN_USE".to_string(),
            ConduitRegistrationError::ERR_REGISTRY_ACCESS => "ERR_REGISTRY_ACCESS".to_string(),
            ConduitRegistrationError::ERR_UNABLE_TO_CREATE_CONDUIT => "ERR_UNABLE_TO_CREATE_CONDUIT".to_string(),
            ConduitRegistrationError::ERR_UNABLE_TO_SET_CONDUIT_VALUE => "ERR_UNABLE_TO_SET_CONDUIT_VALUE".to_string(),
            ConduitRegistrationError::ERR_INVALID_HANDLE => "ERR_INVALID_HANDLE".to_string(),
            ConduitRegistrationError::ERR_BUFFER_TOO_SMALL => "ERR_BUFFER_TOO_SMALL".to_string(),
            ConduitRegistrationError::ERR_VALUE_NOT_FOUND => "ERR_VALUE_NOT_FOUND".to_string(),
            ConduitRegistrationError::ERR_INVALID_CREATOR_ID => "ERR_INVALID_CREATOR_ID".to_string(),
            ConduitRegistrationError::ERR_INVALID_POINTER => "ERR_INVALID_POINTER".to_string(),
            ConduitRegistrationError::ERR_UNABLE_TO_INSTALL_OLD => "ERR_UNABLE_TO_INSTALL_OLD".to_string(),
            ConduitRegistrationError::ERR_INVALID_CONDUIT_TYPE => "ERR_INVALID_CONDUIT_TYPE".to_string(),
            ConduitRegistrationError::ERR_INVALID_COM_PORT_TYPE => "ERR_INVALID_COM_PORT_TYPE".to_string(),
            ConduitRegistrationError::ERR_NO_LONGER_SUPPORTED => "ERR_NO_LONGER_SUPPORTED".to_string(),
        }
    }

    /// Turns a code into a result: success for `ERR_NONE`, and the code
    /// itself, wrapped as the conduit's error, for every other.
    pub fn into_result(self) -> (result: Result<(), ConduitError>)
        ensures
            result == self.spec_into_result(),
    {
        if self == ConduitRegistrationError::ERR_NONE {
            Ok(())
        } else {
            Err(ConduitError::Registration(self))
        }
    }

    /// See [`ConduitRegistrationError::into_result`].
    pub open spec fn spec_into_result(self) -> Result<(), ConduitError> {
        if self == ConduitRegistrationError::ERR_NONE {
            Ok(())
        } else {
            Err(ConduitError::Registration(self))
        }
    }
}

/// A code and its number determine each other, and every error code is a
/// negative number.
pub proof fn lemma_registration_code_round_trips(error: ConduitRegistrationError, code: int)
    ensures
        ConduitRegistrationError::spec_from_code(error.spec_code()) == Some(error),
        ConduitRegistrationError::spec_from_code(code) == Some(error) ==> error.spec_code()
            == code,
        error != ConduitRegistrationError::ERR_NONE ==> error.spec_code() < 0,
{
}

/// `dlopen2::Error`, the error of the library that loads the device
/// libraries. Nothing is known of a value of it.
#[verifier::external_type_specification]
#[verifier::external_body]
pub struct ExLoadError(dlopen2::Error);

/// `std::io::Error`, the error of local input and output. Nothing is known
/// of a value of it.
#[verifier::external_type_specification]
#[verifier::external_body]
pub struct ExIoError(std::io::Error);

/// Why a conduit could not be built, installed or run.
#[derive(Debug)]
pub enum ConduitError {
    /// An identity holds a byte or a character that it may not hold, or a
    /// name that is to be text is none.
    NonAsciiErr,
    /// The registration manager refused a call.
    Registration(ConduitRegistrationError),
    /// The transport refused a call.
    Sync(SyncManagerError),
    /// A device library could not be found or loaded.
    DlOpen2(dlopen2::Error),
    /// A local file could not be read or written.
    Io(std::io::Error),
    /// A preference payload could not be converted to or from raw bytes.
    PreferenceSerde,
    /// A sink refused the records of a drained database; the text is the
    /// sink's own message.
    Sink(String),
}

impl From<ConduitRegistrationError> for ConduitError {
    fn from(value: ConduitRegistrationError) -> (error: Self) {
        ConduitError::Registration(value)
    }
}

impl FromSpecImpl<ConduitRegistrationError> for ConduitError {
    open spec fn obeys_from_spec() -> bool {
        true
    }

    open spec fn from_spec(value: ConduitRegistrationError) -> Self {
        ConduitError::Registration(value)
    }
}

impl From<SyncManagerError> for ConduitError {
    fn from(value: SyncManagerError) -> (error: Self) {
        ConduitError::Sync(value)
    }
}

impl FromSpecImpl<SyncManagerError> for ConduitError {
    open spec fn obeys_from_spec() -> bool {
        true
    }

    open spec fn from_spec(value: SyncManagerError) -> Self {
        ConduitError::Sync(value)
    }
}

impl From<std::io::Error> for ConduitError {
    fn from(value: std::io::Error) -> (error: Self) {
        ConduitError::Io(value)
    }
}

impl FromSpecImpl<std::io::Error> for ConduitError {
    open spec fn obeys_from_spec() -> bool {
        true
    }

    open spec fn from_spec(value: std::io::Error) -> Self {
        ConduitError::Io(value)
    }
}

impl From<dlopen2::Error> for ConduitError {
    fn from(value: dlopen2::Error) -> (error: Self) {
        ConduitError::DlOpen2(value)
    }
}

impl FromSpecImpl<dlopen2::Error> for ConduitError {
    open spec fn obeys_from_spec() -> bool {
        true
    }

    open spec fn from_spec(value: dlopen2::Error) -> Self {
        ConduitError::DlOpen2(value)
    }
}

impl ConduitError {
    /// The line that opens every description of an error.
    pub open spec fn spec_headline() -> Seq<char> {
        "Conduit Error Encountered\n"@
    }

    /// Whether the error arose in this library or in one of the two device
    /// libraries, so that its description is known in full.
    pub open spec fn spec_is_native(self) -> bool {
        !(self is DlOpen2) && !(self is Io)
    }

    /// What follows the headline in the description of a native error.
    pub open spec fn spec_detail(self) -> Seq<char>
        recommends
            self.spec_is_native(),
    {
        match self {
            ConduitError::NonAsciiErr => "Non-ascii characters are not supported"@,
            ConduitError::Registration(inner) => inner.spec_name(),
            ConduitError::Sync(inner) => inner.spec_name(),
            ConduitError::PreferenceSerde => "Preferences could not be converted"@,
            ConduitError::Sink(message) => message@,
            _ => Seq::empty(),
        }
    }

    /// The description of a native error: the headline, then the detail.
    pub open spec fn spec_text(self) -> Seq<char>
        recommends
            self.spec_is_native(),
    {
        Self::spec_headline() + self.spec_detail()
    }

    /// Whether `text` describes the error: the headline, followed by the
    /// detail of a native error, or by whatever the loader or the local
    /// system says of its own error.
    pub open spec fn spec_described_by(self, text: Seq<char>) -> bool {
        match self {
            ConduitError::DlOpen2(inner) => exists|shown: String|
                to_string_from_display_ensures::<dlopen2::Error>(&inner, shown) && text
                    == Self::spec_headline() + #[trigger] shown@,
            ConduitError::Io(inner) => exists|shown: String|
                to_string_from_display_ensures::<std::io::Error>(&inner, shown) && text
                    == Self::spec_headline() + #[trigger] shown@,
            _ => text == self.spec_text(),
        }
    }

    /// Describes the error for a reader: a headline, a line break, and what
    /// went wrong.
    pub fn to_string(&self) -> (text: String)
        ensures
            self.spec_described_by(text@),
    {
        let mut text = "Conduit Error Encountered\n".to_string();
        match self {
            ConduitError::NonAsciiErr => {
                text.append("Non-ascii characters are not supported");
            },
            ConduitError::Registration(inner) => {
                let shown = inner.to_string();
                text.append(shown.as_str());
            },
            ConduitError::Sync(inner) => {
                let shown = inner.to_string();
                text.append(shown.as_str());
            },
            ConduitError::DlOpen2(inner) => {
                let shown = inner.to_string();
                text.append(shown.as_str());
            },
            ConduitError::Io(inner) => {
                let shown = inner.to_string();
                text.append(shown.as_str());
            },
            ConduitError::PreferenceSerde => {
                text.append("Preferences could not be converted");
            },
            ConduitError::Sink(message) => {
                text.append(message.as_str());
            },
        }
        text
    }
}

} // verus!
