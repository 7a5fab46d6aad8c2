//! Typed calls into the BIOS, DOS and DPMI software interrupts.
//!
//! A service is called by loading registers, raising a software interrupt
//! and reading registers and flags back. This library holds everything
//! about such a call but the interrupt instruction itself: which registers a
//! service is called with, and what the registers and flags that come back
//! stand for. The instruction is the caller's to supply, as a function from
//! an interrupt number and the loaded `Registers` to the `Captured` state;
//! each service raises it exactly once.
//!
//! Addresses are 32-bit linear addresses; `p32` makes one from a host
//! address where the host's addresses are 32 bits wide.

pub mod catalog;
pub mod dos;
pub mod dpmi;
pub mod errors;
pub mod registers;
pub mod video;

pub use crate::catalog::{
    DosError, DOS_ERR_FUNC_NUM_INVALID, DOS_ERR_FILE_NOT_FOUND, DOS_ERR_PATH_NOT_FOUND,
    DOS_ERR_TOO_MANY_OPEN_FILES, DOS_ERR_ACCESS_DENIED, DOS_ERR_INVALID_HANDLE,
    DOS_ERR_MCB_DESTROYED, DOS_ERR_INSUFFICIENT_MEMORY, DOS_ERR_MBA_INVALID,
    DOS_ERR_ENVIRONMENT_INVALID, DOS_ERR_FORMAT_INVALID, DOS_ERR_ACCESS_CODE_INVALID,
    DOS_ERR_DATA_INVALID, DOS_ERR_INVALID_DRIVE, DOS_ERR_ATTEMPT_RM_CUR_DIR,
    DOS_ERR_NOT_SAME_DEV, DOS_ERR_NO_MORE_TILES, DOS_ERR_DISK_WRITE_PROTECTED,
    DOS_ERR_UNKNOWN_UNIT, DOS_ERR_DRIVE_NOT_READY, DOS_ERR_UNKNOWN_CMD, DOS_ERR_DATA_ERROR,
    DOS_ERR_BAD_STRUCT_LEN, DOS_ERR_SEEK_ERROR, DOS_ERR_UNKNOWN_MEDIA_TYPE,
    DOS_ERR_SECTOR_NOT_FOUND, DOS_ERR_PRINTER_NO_PAPER, DOS_ERR_WRITE_FAULT,
    DOS_ERR_READ_FAULT, DOS_ERR_GENERAL_FAILURE, DOS_ERR_SHARING_VIOLATION,
    DOS_ERR_LOCK_VIOLATION, DOS_ERR_DISK_CHANGE_INVALID, DOS_ERR_FCB_UNAVAILABLE,
    DOS_ERR_SHARING_BUFFER_INVALID, DOS_ERR_CODE_PAGE_MISMATCH, DOS_ERR_OUT_OF_INPUT,
    DOS_ERR_INSUFFICIENT_DISK_SPACE, DOS_ERR_NET_REQUEST_NOT_SUPPORTED,
    DOS_ERR_NET_COMPUTER_NOT_LISTENING, DOS_ERR_NET_DUPLICATE_NAME,
    DOS_ERR_NET_NAME_NOT_FOUND_53, DOS_ERR_NET_BUSY, DOS_ERR_NET_DEV_NO_LONGER_EXISTS,
    DOS_ERR_NET_BIOS_CMD_LIMIT_EXCEEDED, DOS_ERR_NET_ADAPTER_HARDWARE_ERROR,
    DOS_ERR_NET_INCORRECT_RESPONSE, DOS_ERR_NET_UNEXPECTED_ERROR,
    DOS_ERR_NET_INCOMPATIBLE_ADAPTER, DOS_ERR_PRINT_QUEUE_FULL, DOS_ERR_QUEUE_NOT_FULL,
    DOS_ERR_NO_SPACE_TO_PRINT_FILE, DOS_ERR_NET_NAME_WAS_DELETED, DOS_ERR_NET_ACCESS_DENIED,
    DOS_ERR_NET_DEV_TYPE_INCORRECT, DOS_ERR_NET_NAME_NOT_FOUND_67,
    DOS_ERR_NET_NAME_LIMIT_EXCEEDED, DOS_ERR_NET_BIOS_SESSION_LIMIT_EXCEEDED,
    DOS_ERR_TEMPORARILY_PAUSED, DOS_ERR_NET_REQUEST_NOT_ACCEPTED,
    DOS_ERR_NET_REDIRECTION_PAUSED, DOS_ERR_NET_INVALID_VERSION, DOS_ERR_ACCOUNT_EXPIRED,
    DOS_ERR_PASSWORD_EXPIRED, DOS_ERR_LOGIN_ATTEMPTED_INVALID, DOS_ERR_NET_DISK_LIMIT_EXCEED,
    DOS_ERR_NET_NOT_LOGGED, DOS_ERR_FILE_EXISTS, DOS_ERR_CANNOT_MAKE_DIR,
    DOS_ERR_FAIL_ON_INT_24H, DOS_ERR_TOO_MANY_REDIRECTIONS, DOS_ERR_DUPLICATE_REDIRECTION,
    DOS_ERR_INVALID_PASSWORD, DOS_ERR_INVALID_PARAMETER, DOS_ERR_NET_WRITE_FAULT,
    DOS_ERR_NET_FUNC_NOT_SUPPORTED, DOS_ERR_SYS_COMPONENT_NOT_INSTALLED,
};
pub use crate::dos::{
    int_21h_ah_02h_out_ch, int_21h_ah_06h_dl_FFh_inkey, int_21h_ah_09h_out_str,
    int_21h_ah_25h_set_int, int_21h_ah_30h_dos_ver, int_21h_ah_35h_get_int,
    int_21h_ah_3Dh_open, int_21h_ah_3Fh_read, int_21h_ah_40h_write, int_21h_ah_48h_alloc,
    int_21h_ah_4Ch_exit, int_21h_ah_62h_psp_addr, int_21h_ax_6601h_code_page, AlChar, AlLastCh,
    AxHandle, AxRead, AxSegment, AxWritten, BxSegment, CodePage, DosVer, IntHandler,
};
pub use crate::dpmi::{
    int_31h_ax_0006h_segment_addr, int_31h_ax_0100h_rm_alloc, int_31h_ax_0101h_rm_free,
    CxDxAddr, RmAlloc,
};
pub use crate::errors::{AlErr, AllocErr, AxErr};
pub use crate::registers::{
    p32, try_p32, Captured, Registers, CF, INT_DOS, INT_DPMI, INT_VIDEO, ZF,
};
pub use crate::video::{int_10h_ah_00h_set_video_mode, int_10h_ah_0Fh_video_mode, VideoMode};
