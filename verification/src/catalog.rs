//! The catalog of DOS error codes: the status that a failed service of
//! interrupt 21h leaves in `AX`.
//!
//! The number is what DOS and its callers agree on; the name is this
//! library's. Each code is a constant, to match against, and a variant of
//! `DosError`, to carry around. The codes run from 1 to 90 with gaps: 14, 40
//! to 49, 79 and 81 name nothing.

use vstd::prelude::*;

verus! {

/// Function number invalid.
pub const DOS_ERR_FUNC_NUM_INVALID: u8 = 1;

/// File not found.
pub const DOS_ERR_FILE_NOT_FOUND: u8 = 2;

/// Path not found.
pub const DOS_ERR_PATH_NOT_FOUND: u8 = 3;

/// Too many open files.
pub const DOS_ERR_TOO_MANY_OPEN_FILES: u8 = 4;

/// Access denied.
pub const DOS_ERR_ACCESS_DENIED: u8 = 5;

/// Invalid handle.
pub const DOS_ERR_INVALID_HANDLE: u8 = 6;

/// Memory control block destroyed.
pub const DOS_ERR_MCB_DESTROYED: u8 = 7;

/// Insufficient memory.
pub const DOS_ERR_INSUFFICIENT_MEMORY: u8 = 8;

/// Memory block address invalid.
pub const DOS_ERR_MBA_INVALID: u8 = 9;

/// Environment invalid.
pub const DOS_ERR_ENVIRONMENT_INVALID: u8 = 10;

/// Format invalid.
pub const DOS_ERR_FORMAT_INVALID: u8 = 11;

/// Access code invalid.
pub const DOS_ERR_ACCESS_CODE_INVALID: u8 = 12;

/// Data invalid.
pub const DOS_ERR_DATA_INVALID: u8 = 13;

/// Invalid drive.
pub const DOS_ERR_INVALID_DRIVE: u8 = 15;

/// Attempted to remove the current directory.
pub const DOS_ERR_ATTEMPT_RM_CUR_DIR: u8 = 16;

/// Not the same device.
pub const DOS_ERR_NOT_SAME_DEV: u8 = 17;

/// No more files.
pub const DOS_ERR_NO_MORE_TILES: u8 = 18;

/// Disk write-protected.
pub const DOS_ERR_DISK_WRITE_PROTECTED: u8 = 19;

/// Unknown unit.
pub const DOS_ERR_UNKNOWN_UNIT: u8 = 20;

/// Drive not ready.
pub const DOS_ERR_DRIVE_NOT_READY: u8 = 21;

/// Unknown command.
pub const DOS_ERR_UNKNOWN_CMD: u8 = 22;

/// Data error (CRC).
pub const DOS_ERR_DATA_ERROR: u8 = 23;

/// Bad request structure length.
pub const DOS_ERR_BAD_STRUCT_LEN: u8 = 24;

/// Seek error.
pub const DOS_ERR_SEEK_ERROR: u8 = 25;

/// Unknown media type.
pub const DOS_ERR_UNKNOWN_MEDIA_TYPE: u8 = 26;

/// Sector not found.
pub const DOS_ERR_SECTOR_NOT_FOUND: u8 = 27;

/// Printer out of paper.
pub const DOS_ERR_PRINTER_NO_PAPER: u8 = 28;

/// Write fault.
pub const DOS_ERR_WRITE_FAULT: u8 = 29;

/// Read fault.
pub const DOS_ERR_READ_FAULT: u8 = 30;

/// General failure.
pub const DOS_ERR_GENERAL_FAILURE: u8 = 31;

/// Sharing violation.
pub const DOS_ERR_SHARING_VIOLATION: u8 = 32;

/// Lock violation.
pub const DOS_ERR_LOCK_VIOLATION: u8 = 33;

/// Disk change invalid.
pub const DOS_ERR_DISK_CHANGE_INVALID: u8 = 34;

/// FCB unavailable.
pub const DOS_ERR_FCB_UNAVAILABLE: u8 = 35;

/// Sharing buffer overflow.
pub const DOS_ERR_SHARING_BUFFER_INVALID: u8 = 36;

/// Code page mismatch.
pub const DOS_ERR_CODE_PAGE_MISMATCH: u8 = 37;

/// Out of input.
pub const DOS_ERR_OUT_OF_INPUT: u8 = 38;

/// Insufficient disk space.
pub const DOS_ERR_INSUFFICIENT_DISK_SPACE: u8 = 39;

/// Network request not supported.
pub const DOS_ERR_NET_REQUEST_NOT_SUPPORTED: u8 = 50;

/// Remote computer not listening.
pub const DOS_ERR_NET_COMPUTER_NOT_LISTENING: u8 = 51;

/// Duplicate name on network.
pub const DOS_ERR_NET_DUPLICATE_NAME: u8 = 52;

/// Network name not found.
pub const DOS_ERR_NET_NAME_NOT_FOUND_53: u8 = 53;

/// Network busy.
pub const DOS_ERR_NET_BUSY: u8 = 54;

/// Network device no longer exists.
pub const DOS_ERR_NET_DEV_NO_LONGER_EXISTS: u8 = 55;

/// Network BIOS command limit exceeded.
pub const DOS_ERR_NET_BIOS_CMD_LIMIT_EXCEEDED: u8 = 56;

/// Network adapter hardware error.
pub const DOS_ERR_NET_ADAPTER_HARDWARE_ERROR: u8 = 57;

/// Incorrect response from network.
pub const DOS_ERR_NET_INCORRECT_RESPONSE: u8 = 58;

/// Unexpected network error.
pub const DOS_ERR_NET_UNEXPECTED_ERROR: u8 = 59;

/// Incompatible remote adapter.
pub const DOS_ERR_NET_INCOMPATIBLE_ADAPTER: u8 = 60;

/// Print queue full.
pub const DOS_ERR_PRINT_QUEUE_FULL: u8 = 61;

/// Queue not full.
pub const DOS_ERR_QUEUE_NOT_FULL: u8 = 62;

/// Not enough space to print file.
pub const DOS_ERR_NO_SPACE_TO_PRINT_FILE: u8 = 63;

/// Network name was deleted.
pub const DOS_ERR_NET_NAME_WAS_DELETED: u8 = 64;

/// Network access denied.
pub const DOS_ERR_NET_ACCESS_DENIED: u8 = 65;

/// Network device type incorrect.
pub const DOS_ERR_NET_DEV_TYPE_INCORRECT: u8 = 66;

/// Network name not found.
pub const DOS_ERR_NET_NAME_NOT_FOUND_67: u8 = 67;

/// Network name limit exceeded.
pub const DOS_ERR_NET_NAME_LIMIT_EXCEEDED: u8 = 68;

/// Network BIOS session limit exceeded.
pub const DOS_ERR_NET_BIOS_SESSION_LIMIT_EXCEEDED: u8 = 69;

/// Temporarily paused.
pub const DOS_ERR_TEMPORARILY_PAUSED: u8 = 70;

/// Network request not accepted.
pub const DOS_ERR_NET_REQUEST_NOT_ACCEPTED: u8 = 71;

/// Network print or disk redirection paused.
pub const DOS_ERR_NET_REDIRECTION_PAUSED: u8 = 72;

/// Invalid network version.
pub const DOS_ERR_NET_INVALID_VERSION: u8 = 73;

/// Account expired.
pub const DOS_ERR_ACCOUNT_EXPIRED: u8 = 74;

/// Password expired.
pub const DOS_ERR_PASSWORD_EXPIRED: u8 = 75;

/// Login attempt invalid at this time.
pub const DOS_ERR_LOGIN_ATTEMPTED_INVALID: u8 = 76;

/// Disk limit exceeded on network node.
pub const DOS_ERR_NET_DISK_LIMIT_EXCEED: u8 = 77;

/// Not logged in to network node.
pub const DOS_ERR_NET_NOT_LOGGED: u8 = 78;

/// File exists.
pub const DOS_ERR_FILE_EXISTS: u8 = 80;

/// Cannot make directory.
pub const DOS_ERR_CANNOT_MAKE_DIR: u8 = 82;

/// Fail on interrupt 24h.
pub const DOS_ERR_FAIL_ON_INT_24H: u8 = 83;

/// Too many redirections.
pub const DOS_ERR_TOO_MANY_REDIRECTIONS: u8 = 84;

/// Duplicate redirection.
pub const DOS_ERR_DUPLICATE_REDIRECTION: u8 = 85;

/// Invalid password.
pub const DOS_ERR_INVALID_PASSWORD: u8 = 86;

/// Invalid parameter.
pub const DOS_ERR_INVALID_PARAMETER: u8 = 87;

/// Network write fault.
pub const DOS_ERR_NET_WRITE_FAULT: u8 = 88;

/// Function not supported on network.
pub const DOS_ERR_NET_FUNC_NOT_SUPPORTED: u8 = 89;

/// Required system component not installed.
pub const DOS_ERR_SYS_COMPONENT_NOT_INSTALLED: u8 = 90;

/// The names of the catalog, one for each code.
#[derive(Debug, Clone, Copy, PartialEq, Eq)]
pub enum DosError {
    FuncNumInvalid,
    FileNotFound,
    PathNotFound,
    TooManyOpenFiles,
    AccessDenied,
    InvalidHandle,
    McbDestroyed,
    InsufficientMemory,
    MbaInvalid,
    EnvironmentInvalid,
    FormatInvalid,
    AccessCodeInvalid,
    DataInvalid,
    InvalidDrive,
    AttemptRmCurDir,
    NotSameDev,
    NoMoreTiles,
    DiskWriteProtected,
    UnknownUnit,
    DriveNotReady,
    UnknownCmd,
    DataError,
    BadStructLen,
    SeekError,
    UnknownMediaType,
    SectorNotFound,
    PrinterNoPaper,
    WriteFault,
    ReadFault,
    GeneralFailure,
    SharingViolation,
    LockViolation,
    DiskChangeInvalid,
    FcbUnavailable,
    SharingBufferInvalid,
    CodePageMismatch,
    OutOfInput,
    InsufficientDiskSpace,
    NetRequestNotSupported,
    NetComputerNotListening,
    NetDuplicateName,
    NetNameNotFound53,
    NetBusy,
    NetDevNoLongerExists,
    NetBiosCmdLimitExceeded,
    NetAdapterHardwareError,
    NetIncorrectResponse,
    NetUnexpectedError,
    NetIncompatibleAdapter,
    PrintQueueFull,
    QueueNotFull,
    NoSpaceToPrintFile,
    NetNameWasDeleted,
    NetAccessDenied,
    NetDevTypeIncorrect,
    NetNameNotFound67,
    NetNameLimitExceeded,
    NetBiosSessionLimitExceeded,
    TemporarilyPaused,
    NetRequestNotAccepted,
    NetRedirectionPaused,
    NetInvalidVersion,
    AccountExpired,
    PasswordExpired,
    LoginAttemptedInvalid,
    NetDiskLimitExceed,
    NetNotLogged,
    FileExists,
    CannotMakeDir,
    FailOnInt24h,
    TooManyRedirections,
    DuplicateRedirection,
    InvalidPassword,
    InvalidParameter,
    NetWriteFault,
    NetFuncNotSupported,
    SysComponentNotInstalled,
}

/// Whether the catalog has a name for `code`.
pub open spec fn assigned(code: u8) -> bool {
    ||| 1 <= code <= 13
    ||| 15 <= code <= 39
    ||| 50 <= code <= 78
    ||| code == 80
    ||| 82 <= code <= 90
}

/// The name that stands for `code`, if the catalog has one.
pub open spec fn name_of(code: u8) -> Option<DosError> {
    match code {
        1 => Some(DosError::FuncNumInvalid),
        2 => Some(DosError::FileNotFound),
        3 => Some(DosError::PathNotFound),
        4 => Some(DosError::TooManyOpenFiles),
        5 => Some(DosError::AccessDenied),
        6 => Some(DosError::InvalidHandle),
        7 => Some(DosError::McbDestroyed),
        8 => Some(DosError::InsufficientMemory),
        9 => Some(DosError::MbaInvalid),
        10 => Some(DosError::EnvironmentInvalid),
        11 => Some(DosError::FormatInvalid),
        12 => Some(DosError::AccessCodeInvalid),
        13 => Some(DosError::DataInvalid),
        15 => Some(DosError::InvalidDrive),
        16 => Some(DosError::AttemptRmCurDir),
        17 => Some(DosError::NotSameDev),
        18 => Some(DosError::NoMoreTiles),
        19 => Some(DosError::DiskWriteProtected),
        20 => Some(DosError::UnknownUnit),
        21 => Some(DosError::DriveNotReady),
        22 => Some(DosError::UnknownCmd),
        23 => Some(DosError::DataError),
        24 => Some(DosError::BadStructLen),
        25 => Some(DosError::SeekError),
        26 => Some(DosError::UnknownMediaType),
        27 => Some(DosError::SectorNotFound),
        28 => Some(DosError::PrinterNoPaper),
        29 => Some(DosError::WriteFault),
        30 => Some(DosError::ReadFault),
        31 => Some(DosError::GeneralFailure),
        32 => Some(DosError::SharingViolation),
        33 => Some(DosError::LockViolation),
        34 => Some(DosError::DiskChangeInvalid),
        35 => Some(DosError::FcbUnavailable),
        36 => Some(DosError::SharingBufferInvalid),
        37 => Some(DosError::CodePageMismatch),
        38 => Some(DosError::OutOfInput),
        39 => Some(DosError::InsufficientDiskSpace),
        50 => Some(DosError::NetRequestNotSupported),
        51 => Some(DosError::NetComputerNotListening),
        52 => Some(DosError::NetDuplicateName),
        53 => Some(DosError::NetNameNotFound53),
        54 => Some(DosError::NetBusy),
        55 => Some(DosError::NetDevNoLongerExists),
        56 => Some(DosError::NetBiosCmdLimitExceeded),
        57 => Some(DosError::NetAdapterHardwareError),
        58 => Some(DosError::NetIncorrectResponse),
        59 => Some(DosError::NetUnexpectedError),
        60 => Some(DosError::NetIncompatibleAdapter),
        61 => Some(DosError::PrintQueueFull),
        62 => Some(DosError::QueueNotFull),
        63 => Some(DosError::NoSpaceToPrintFile),
        64 => Some(DosError::NetNameWasDeleted),
        65 => Some(DosError::NetAccessDenied),
        66 => Some(DosError::NetDevTypeIncorrect),
        67 => Some(DosError::NetNameNotFound67),
        68 => Some(DosError::NetNameLimitExceeded),
        69 => Some(DosError::NetBiosSessionLimitExceeded),
        70 => Some(DosError::TemporarilyPaused),
        71 => Some(DosError::NetRequestNotAccepted),
        72 => Some(DosError::NetRedirectionPaused),
        73 => Some(DosError::NetInvalidVersion),
        74 => Some(DosError::AccountExpired),
        75 => Some(DosError::PasswordExpired),
        76 => Some(DosError::LoginAttemptedInvalid),
        77 => Some(DosError::NetDiskLimitExceed),
        78 => Some(DosError::NetNotLogged),
        80 => Some(DosError::FileExists),
        82 => Some(DosError::CannotMakeDir),
        83 => Some(DosError::FailOnInt24h),
        84 => Some(DosError::TooManyRedirections),
        85 => Some(DosError::DuplicateRedirection),
        86 => Some(DosError::InvalidPassword),
        87 => Some(DosError::InvalidParameter),
        88 => Some(DosError::NetWriteFault),
        89 => Some(DosError::NetFuncNotSupported),
        90 => Some(DosError::SysComponentNotInstalled),
        _ => None,
    }
}

impl DosError {
    /// The number that this name stands for.
    pub open spec fn spec_code(self) -> u8 {
        match self {
            DosError::FuncNumInvalid => DOS_ERR_FUNC_NUM_INVALID,
            DosError::FileNotFound => DOS_ERR_FILE_NOT_FOUND,
            DosError::PathNotFound => DOS_ERR_PATH_NOT_FOUND,
            DosError::TooManyOpenFiles => DOS_ERR_TOO_MANY_OPEN_FILES,
            DosError::AccessDenied => DOS_ERR_ACCESS_DENIED,
            DosError::InvalidHandle => DOS_ERR_INVALID_HANDLE,
            DosError::McbDestroyed => DOS_ERR_MCB_DESTROYED,
            DosError::InsufficientMemory => DOS_ERR_INSUFFICIENT_MEMORY,
            DosError::MbaInvalid => DOS_ERR_MBA_INVALID,
            DosError::EnvironmentInvalid => DOS_ERR_ENVIRONMENT_INVALID,
            DosError::FormatInvalid => DOS_ERR_FORMAT_INVALID,
            DosError::AccessCodeInvalid => DOS_ERR_ACCESS_CODE_INVALID,
            DosError::DataInvalid => DOS_ERR_DATA_INVALID,
            DosError::InvalidDrive => DOS_ERR_INVALID_DRIVE,
            DosError::AttemptRmCurDir => DOS_ERR_ATTEMPT_RM_CUR_DIR,
            DosError::NotSameDev => DOS_ERR_NOT_SAME_DEV,
            DosError::NoMoreTiles => DOS_ERR_NO_MORE_TILES,
            DosError::DiskWriteProtected => DOS_ERR_DISK_WRITE_PROTECTED,
            DosError::UnknownUnit => DOS_ERR_UNKNOWN_UNIT,
            DosError::DriveNotReady => DOS_ERR_DRIVE_NOT_READY,
            DosError::UnknownCmd => DOS_ERR_UNKNOWN_CMD,
            DosError::DataError => DOS_ERR_DATA_ERROR,
            DosError::BadStructLen => DOS_ERR_BAD_STRUCT_LEN,
            DosError::SeekError => DOS_ERR_SEEK_ERROR,
            DosError::UnknownMediaType => DOS_ERR_UNKNOWN_MEDIA_TYPE,
            DosError::SectorNotFound => DOS_ERR_SECTOR_NOT_FOUND,
            DosError::PrinterNoPaper => DOS_ERR_PRINTER_NO_PAPER,
            DosError::WriteFault => DOS_ERR_WRITE_FAULT,
            DosError::ReadFault => DOS_ERR_READ_FAULT,
            DosError::GeneralFailure => DOS_ERR_GENERAL_FAILURE,
            DosError::SharingViolation => DOS_ERR_SHARING_VIOLATION,
            DosError::LockViolation => DOS_ERR_LOCK_VIOLATION,
            DosError::DiskChangeInvalid => DOS_ERR_DISK_CHANGE_INVALID,
            DosError::FcbUnavailable => DOS_ERR_FCB_UNAVAILABLE,
            DosError::SharingBufferInvalid => DOS_ERR_SHARING_BUFFER_INVALID,
            DosError::CodePageMismatch => DOS_ERR_CODE_PAGE_MISMATCH,
            DosError::OutOfInput => DOS_ERR_OUT_OF_INPUT,
            DosError::InsufficientDiskSpace => DOS_ERR_INSUFFICIENT_DISK_SPACE,
            DosError::NetRequestNotSupported => DOS_ERR_NET_REQUEST_NOT_SUPPORTED,
            DosError::NetComputerNotListening => DOS_ERR_NET_COMPUTER_NOT_LISTENING,
            DosError::NetDuplicateName => DOS_ERR_NET_DUPLICATE_NAME,
            DosError::NetNameNotFound53 => DOS_ERR_NET_NAME_NOT_FOUND_53,
            DosError::NetBusy => DOS_ERR_NET_BUSY,
            DosError::NetDevNoLongerExists => DOS_ERR_NET_DEV_NO_LONGER_EXISTS,
            DosError::NetBiosCmdLimitExceeded => DOS_ERR_NET_BIOS_CMD_LIMIT_EXCEEDED,
            DosError::NetAdapterHardwareError => DOS_ERR_NET_ADAPTER_HARDWARE_ERROR,
            DosError::NetIncorrectResponse => DOS_ERR_NET_INCORRECT_RESPONSE,
            DosError::NetUnexpectedError => DOS_ERR_NET_UNEXPECTED_ERROR,
            DosError::NetIncompatibleAdapter => DOS_ERR_NET_INCOMPATIBLE_ADAPTER,
            DosError::PrintQueueFull => DOS_ERR_PRINT_QUEUE_FULL,
            DosError::QueueNotFull => DOS_ERR_QUEUE_NOT_FULL,
            DosError::NoSpaceToPrintFile => DOS_ERR_NO_SPACE_TO_PRINT_FILE,
            DosError::NetNameWasDeleted => DOS_ERR_NET_NAME_WAS_DELETED,
            DosError::NetAccessDenied => DOS_ERR_NET_ACCESS_DENIED,
            DosError::NetDevTypeIncorrect => DOS_ERR_NET_DEV_TYPE_INCORRECT,
            DosError::NetNameNotFound67 => DOS_ERR_NET_NAME_NOT_FOUND_67,
            DosError::NetNameLimitExceeded => DOS_ERR_NET_NAME_LIMIT_EXCEEDED,
            DosError::NetBiosSessionLimitExceeded => DOS_ERR_NET_BIOS_SESSION_LIMIT_EXCEEDED,
            DosError::TemporarilyPaused => DOS_ERR_TEMPORARILY_PAUSED,
            DosError::NetRequestNotAccepted => DOS_ERR_NET_REQUEST_NOT_ACCEPTED,
            DosError::NetRedirectionPaused => DOS_ERR_NET_REDIRECTION_PAUSED,
            DosError::NetInvalidVersion => DOS_ERR_NET_INVALID_VERSION,
            DosError::AccountExpired => DOS_ERR_ACCOUNT_EXPIRED,
            DosError::PasswordExpired => DOS_ERR_PASSWORD_EXPIRED,
            DosError::LoginAttemptedInvalid => DOS_ERR_LOGIN_ATTEMPTED_INVALID,
            DosError::NetDiskLimitExceed => DOS_ERR_NET_DISK_LIMIT_EXCEED,
            DosError::NetNotLogged => DOS_ERR_NET_NOT_LOGGED,
            DosError::FileExists => DOS_ERR_FILE_EXISTS,
            DosError::CannotMakeDir => DOS_ERR_CANNOT_MAKE_DIR,
            DosError::FailOnInt24h => DOS_ERR_FAIL_ON_INT_24H,
            DosError::TooManyRedirections => DOS_ERR_TOO_MANY_REDIRECTIONS,
            DosError::DuplicateRedirection => DOS_ERR_DUPLICATE_REDIRECTION,
            DosError::InvalidPassword => DOS_ERR_INVALID_PASSWORD,
            DosError::InvalidParameter => DOS_ERR_INVALID_PARAMETER,
            DosError::NetWriteFault => DOS_ERR_NET_WRITE_FAULT,
            DosError::NetFuncNotSupported => DOS_ERR_NET_FUNC_NOT_SUPPORTED,
            DosError::SysComponentNotInstalled => DOS_ERR_SYS_COMPONENT_NOT_INSTALLED,
        }
    }

    /// The number that this name stands for.
    #[verifier::when_used_as_spec(spec_code)]
    pub fn code(self) -> (r: u8)
        ensures
            r == self.spec_code(),
            assigned(r),
    {
        match self {
            DosError::FuncNumInvalid => DOS_ERR_FUNC_NUM_INVALID,
            DosError::FileNotFound => DOS_ERR_FILE_NOT_FOUND,
            DosError::PathNotFound => DOS_ERR_PATH_NOT_FOUND,
            DosError::TooManyOpenFiles => DOS_ERR_TOO_MANY_OPEN_FILES,
            DosError::AccessDenied => DOS_ERR_ACCESS_DENIED,
            DosError::InvalidHandle => DOS_ERR_INVALID_HANDLE,
            DosError::McbDestroyed => DOS_ERR_MCB_DESTROYED,
            DosError::InsufficientMemory => DOS_ERR_INSUFFICIENT_MEMORY,
            DosError::MbaInvalid => DOS_ERR_MBA_INVALID,
            DosError::EnvironmentInvalid => DOS_ERR_ENVIRONMENT_INVALID,
            DosError::FormatInvalid => DOS_ERR_FORMAT_INVALID,
            DosError::AccessCodeInvalid => DOS_ERR_ACCESS_CODE_INVALID,
            DosError::DataInvalid => DOS_ERR_DATA_INVALID,
            DosError::InvalidDrive => DOS_ERR_INVALID_DRIVE,
            DosError::AttemptRmCurDir => DOS_ERR_ATTEMPT_RM_CUR_DIR,
            DosError::NotSameDev => DOS_ERR_NOT_SAME_DEV,
            DosError::NoMoreTiles => DOS_ERR_NO_MORE_TILES,
            DosError::DiskWriteProtected => DOS_ERR_DISK_WRITE_PROTECTED,
            DosError::UnknownUnit => DOS_ERR_UNKNOWN_UNIT,
            DosError::DriveNotReady => DOS_ERR_DRIVE_NOT_READY,
            DosError::UnknownCmd => DOS_ERR_UNKNOWN_CMD,
            DosError::DataError => DOS_ERR_DATA_ERROR,
            DosError::BadStructLen => DOS_ERR_BAD_STRUCT_LEN,
            DosError::SeekError => DOS_ERR_SEEK_ERROR,
            DosError::UnknownMediaType => DOS_ERR_UNKNOWN_MEDIA_TYPE,
            DosError::SectorNotFound => DOS_ERR_SECTOR_NOT_FOUND,
            DosError::PrinterNoPaper => DOS_ERR_PRINTER_NO_PAPER,
            DosError::WriteFault => DOS_ERR_WRITE_FAULT,
            DosError::ReadFault => DOS_ERR_READ_FAULT,
            DosError::GeneralFailure => DOS_ERR_GENERAL_FAILURE,
            DosError::SharingViolation => DOS_ERR_SHARING_VIOLATION,
            DosError::LockViolation => DOS_ERR_LOCK_VIOLATION,
            DosError::DiskChangeInvalid => DOS_ERR_DISK_CHANGE_INVALID,
            DosError::FcbUnavailable => DOS_ERR_FCB_UNAVAILABLE,
            DosError::SharingBufferInvalid => DOS_ERR_SHARING_BUFFER_INVALID,
            DosError::CodePageMismatch => DOS_ERR_CODE_PAGE_MISMATCH,
            DosError::OutOfInput => DOS_ERR_OUT_OF_INPUT,
            DosError::InsufficientDiskSpace => DOS_ERR_INSUFFICIENT_DISK_SPACE,
            DosError::NetRequestNotSupported => DOS_ERR_NET_REQUEST_NOT_SUPPORTED,
            DosError::NetComputerNotListening => DOS_ERR_NET_COMPUTER_NOT_LISTENING,
            DosError::NetDuplicateName => DOS_ERR_NET_DUPLICATE_NAME,
            DosError::NetNameNotFound53 => DOS_ERR_NET_NAME_NOT_FOUND_53,
            DosError::NetBusy => DOS_ERR_NET_BUSY,
            DosError::NetDevNoLongerExists => DOS_ERR_NET_DEV_NO_LONGER_EXISTS,
            DosError::NetBiosCmdLimitExceeded => DOS_ERR_NET_BIOS_CMD_LIMIT_EXCEEDED,
            DosError::NetAdapterHardwareError => DOS_ERR_NET_ADAPTER_HARDWARE_ERROR,
            DosError::NetIncorrectResponse => DOS_ERR_NET_INCORRECT_RESPONSE,
            DosError::NetUnexpectedError => DOS_ERR_NET_UNEXPECTED_ERROR,
            DosError::NetIncompatibleAdapter => DOS_ERR_NET_INCOMPATIBLE_ADAPTER,
            DosError::PrintQueueFull => DOS_ERR_PRINT_QUEUE_FULL,
            DosError::QueueNotFull => DOS_ERR_QUEUE_NOT_FULL,
            DosError::NoSpaceToPrintFile => DOS_ERR_NO_SPACE_TO_PRINT_FILE,
            DosError::NetNameWasDeleted => DOS_ERR_NET_NAME_WAS_DELETED,
            DosError::NetAccessDenied => DOS_ERR_NET_ACCESS_DENIED,
            DosError::NetDevTypeIncorrect => DOS_ERR_NET_DEV_TYPE_INCORRECT,
            DosError::NetNameNotFound67 => DOS_ERR_NET_NAME_NOT_FOUND_67,
            DosError::NetNameLimitExceeded => DOS_ERR_NET_NAME_LIMIT_EXCEEDED,
            DosError::NetBiosSessionLimitExceeded => DOS_ERR_NET_BIOS_SESSION_LIMIT_EXCEEDED,
            DosError::TemporarilyPaused => DOS_ERR_TEMPORARILY_PAUSED,
            DosError::NetRequestNotAccepted => DOS_ERR_NET_REQUEST_NOT_ACCEPTED,
            DosError::NetRedirectionPaused => DOS_ERR_NET_REDIRECTION_PAUSED,
            DosError::NetInvalidVersion => DOS_ERR_NET_INVALID_VERSION,
            DosError::AccountExpired => DOS_ERR_ACCOUNT_EXPIRED,
            DosError::PasswordExpired => DOS_ERR_PASSWORD_EXPIRED,
            DosError::LoginAttemptedInvalid => DOS_ERR_LOGIN_ATTEMPTED_INVALID,
            DosError::NetDiskLimitExceed => DOS_ERR_NET_DISK_LIMIT_EXCEED,
            DosError::NetNotLogged => DOS_ERR_NET_NOT_LOGGED,
            DosError::FileExists => DOS_ERR_FILE_EXISTS,
            DosError::CannotMakeDir => DOS_ERR_CANNOT_MAKE_DIR,
            DosError::FailOnInt24h => DOS_ERR_FAIL_ON_INT_24H,
            DosError::TooManyRedirections => DOS_ERR_TOO_MANY_REDIRECTIONS,
            DosError::DuplicateRedirection => DOS_ERR_DUPLICATE_REDIRECTION,
            DosError::InvalidPassword => DOS_ERR_INVALID_PASSWORD,
            DosError::InvalidParameter => DOS_ERR_INVALID_PARAMETER,
            DosError::NetWriteFault => DOS_ERR_NET_WRITE_FAULT,
            DosError::NetFuncNotSupported => DOS_ERR_NET_FUNC_NOT_SUPPORTED,
            DosError::SysComponentNotInstalled => DOS_ERR_SYS_COMPONENT_NOT_INSTALLED,
        }
    }

    /// The name of `code`: `Some` for each of the codes that the catalog
    /// assigns, `None` for every other number.
    pub fn from_code(code: u8) -> (r: Option<DosError>)
        ensures
            r == name_of(code),
            r is Some <==> assigned(code),
            r matches Some(e) ==> e.code() == code,
    {
        match code {
            1 => Some(DosError::FuncNumInvalid),
            2 => Some(DosError::FileNotFound),
            3 => Some(DosError::PathNotFound),
            4 => Some(DosError::TooManyOpenFiles),
            5 => Some(DosError::AccessDenied),
            6 => Some(DosError::InvalidHandle),
            7 => Some(DosError::McbDestroyed),
            8 => Some(DosError::InsufficientMemory),
            9 => Some(DosError::MbaInvalid),
            10 => Some(DosError::EnvironmentInvalid),
            11 => Some(DosError::FormatInvalid),
            12 => Some(DosError::AccessCodeInvalid),
            13 => Some(DosError::DataInvalid),
            15 => Some(DosError::InvalidDrive),
            16 => Some(DosError::AttemptRmCurDir),
            17 => Some(DosError::NotSameDev),
            18 => Some(DosError::NoMoreTiles),
            19 => Some(DosError::DiskWriteProtected),
            20 => Some(DosError::UnknownUnit),
            21 => Some(DosError::DriveNotReady),
            22 => Some(DosError::UnknownCmd),
            23 => Some(DosError::DataError),
            24 => Some(DosError::BadStructLen),
            25 => Some(DosError::SeekError),
            26 => Some(DosError::UnknownMediaType),
            27 => Some(DosError::SectorNotFound),
            28 => Some(DosError::PrinterNoPaper),
            29 => Some(DosError::WriteFault),
            30 => Some(DosError::ReadFault),
            31 => Some(DosError::GeneralFailure),
            32 => Some(DosError::SharingViolation),
            33 => Some(DosError::LockViolation),
            34 => Some(DosError::DiskChangeInvalid),
            35 => Some(DosError::FcbUnavailable),
            36 => Some(DosError::SharingBufferInvalid),
            37 => Some(DosError::CodePageMismatch),
            38 => Some(DosError::OutOfInput),
            39 => Some(DosError::InsufficientDiskSpace),
            50 => Some(DosError::NetRequestNotSupported),
            51 => Some(DosError::NetComputerNotListening),
            52 => Some(DosError::NetDuplicateName),
            53 => Some(DosError::NetNameNotFound53),
            54 => Some(DosError::NetBusy),
            55 => Some(DosError::NetDevNoLongerExists),
            56 => Some(DosError::NetBiosCmdLimitExceeded),
            57 => Some(DosError::NetAdapterHardwareError),
            58 => Some(DosError::NetIncorrectResponse),
            59 => Some(DosError::NetUnexpectedError),
            60 => Some(DosError::NetIncompatibleAdapter),
            61 => Some(DosError::PrintQueueFull),
            62 => Some(DosError::QueueNotFull),
            63 => Some(DosError::NoSpaceToPrintFile),
            64 => Some(DosError::NetNameWasDeleted),
            65 => Some(DosError::NetAccessDenied),
            66 => Some(DosError::NetDevTypeIncorrect),
            67 => Some(DosError::NetNameNotFound67),
            68 => Some(DosError::NetNameLimitExceeded),
            69 => Some(DosError::NetBiosSessionLimitExceeded),
            70 => Some(DosError::TemporarilyPaused),
            71 => Some(DosError::NetRequestNotAccepted),
            72 => Some(DosError::NetRedirectionPaused),
            73 => Some(DosError::NetInvalidVersion),
            74 => Some(DosError::AccountExpired),
            75 => Some(DosError::PasswordExpired),
            76 => Some(DosError::LoginAttemptedInvalid),
            77 => Some(DosError::NetDiskLimitExceed),
            78 => Some(DosError::NetNotLogged),
            80 => Some(DosError::FileExists),
            82 => Some(DosError::CannotMakeDir),
            83 => Some(DosError::FailOnInt24h),
            84 => Some(DosError::TooManyRedirections),
            85 => Some(DosError::DuplicateRedirection),
            86 => Some(DosError::InvalidPassword),
            87 => Some(DosError::InvalidParameter),
            88 => Some(DosError::NetWriteFault),
            89 => Some(DosError::NetFuncNotSupported),
            90 => Some(DosError::SysComponentNotInstalled),
            _ => None,
        }
    }

    /// The name of the status that a failed DOS service left in `AX`: `Some`
    /// where the status is a code that the catalog assigns.
    pub fn from_ax(ax_err: u16) -> (r: Option<DosError>)
        ensures
            ax_err <= 0xFF ==> r == name_of(ax_err as u8),
            ax_err > 0xFF ==> r is None,
            r matches Some(e) ==> e.code() == ax_err,
    {
        if ax_err <= 0xFF {
            DosError::from_code(ax_err as u8)
        } else {
            None
        }
    }
}

/// The two directions of the catalog are each other's inverse: a number has
/// a name exactly when that name has the number.
pub proof fn lemma_name_of_inverts_code(code: u8, e: DosError)
    ensures
        name_of(code) == Some(e) <==> e.code() == code,
{
}

/// From a name to its number and back gives the same name.
pub proof fn lemma_name_code_name(e: DosError)
    ensures
        name_of(e.code()) == Some(e),
{
}

/// From a number to its name and back gives the same number, for each
/// number that has a name; the numbers that have one are those that the
/// catalog assigns, all of them between 1 and 90.
pub proof fn lemma_code_name_code(code: u8)
    ensures
        name_of(code) is Some <==> assigned(code),
        name_of(code) matches Some(e) ==> e.code() == code,
        assigned(code) ==> 1 <= code <= 90,
{
}

/// No two names stand for the same number.
pub proof fn lemma_names_distinct_by_code(a: DosError, b: DosError)
    requires
        a != b,
    ensures
        a.code() != b.code(),
{
}

} // verus!
