use pc_ints::DosError;
use pc_ints::{
    DOS_ERR_ACCESS_CODE_INVALID, DOS_ERR_ACCESS_DENIED, DOS_ERR_ACCOUNT_EXPIRED,
    DOS_ERR_ATTEMPT_RM_CUR_DIR, DOS_ERR_BAD_STRUCT_LEN, DOS_ERR_CANNOT_MAKE_DIR,
    DOS_ERR_CODE_PAGE_MISMATCH, DOS_ERR_DATA_ERROR, DOS_ERR_DATA_INVALID,
    DOS_ERR_DISK_CHANGE_INVALID, DOS_ERR_DISK_WRITE_PROTECTED, DOS_ERR_DRIVE_NOT_READY,
    DOS_ERR_DUPLICATE_REDIRECTION, DOS_ERR_ENVIRONMENT_INVALID, DOS_ERR_FAIL_ON_INT_24H,
    DOS_ERR_FCB_UNAVAILABLE, DOS_ERR_FILE_EXISTS, DOS_ERR_FILE_NOT_FOUND,
    DOS_ERR_FORMAT_INVALID, DOS_ERR_FUNC_NUM_INVALID, DOS_ERR_GENERAL_FAILURE,
    DOS_ERR_INSUFFICIENT_DISK_SPACE, DOS_ERR_INSUFFICIENT_MEMORY, DOS_ERR_INVALID_DRIVE,
    DOS_ERR_INVALID_HANDLE, DOS_ERR_INVALID_PARAMETER, DOS_ERR_INVALID_PASSWORD,
    DOS_ERR_LOCK_VIOLATION, DOS_ERR_LOGIN_ATTEMPTED_INVALID, DOS_ERR_MBA_INVALID,
    DOS_ERR_MCB_DESTROYED, DOS_ERR_NET_ACCESS_DENIED, DOS_ERR_NET_ADAPTER_HARDWARE_ERROR,
    DOS_ERR_NET_BIOS_CMD_LIMIT_EXCEEDED, DOS_ERR_NET_BIOS_SESSION_LIMIT_EXCEEDED,
    DOS_ERR_NET_BUSY, DOS_ERR_NET_COMPUTER_NOT_LISTENING, DOS_ERR_NET_DEV_NO_LONGER_EXISTS,
    DOS_ERR_NET_DEV_TYPE_INCORRECT, DOS_ERR_NET_DISK_LIMIT_EXCEED, DOS_ERR_NET_DUPLICATE_NAME,
    DOS_ERR_NET_FUNC_NOT_SUPPORTED, DOS_ERR_NET_INCOMPATIBLE_ADAPTER,
    DOS_ERR_NET_INCORRECT_RESPONSE, DOS_ERR_NET_INVALID_VERSION, DOS_ERR_NET_NAME_LIMIT_EXCEEDED,
    DOS_ERR_NET_NAME_NOT_FOUND_53, DOS_ERR_NET_NAME_NOT_FOUND_67, DOS_ERR_NET_NAME_WAS_DELETED,
    DOS_ERR_NET_NOT_LOGGED, DOS_ERR_NET_REDIRECTION_PAUSED, DOS_ERR_NET_REQUEST_NOT_ACCEPTED,
    DOS_ERR_NET_REQUEST_NOT_SUPPORTED, DOS_ERR_NET_UNEXPECTED_ERROR, DOS_ERR_NET_WRITE_FAULT,
    DOS_ERR_NOT_SAME_DEV, DOS_ERR_NO_MORE_TILES, DOS_ERR_NO_SPACE_TO_PRINT_FILE,
    DOS_ERR_OUT_OF_INPUT, DOS_ERR_PASSWORD_EXPIRED, DOS_ERR_PATH_NOT_FOUND,
    DOS_ERR_PRINTER_NO_PAPER, DOS_ERR_PRINT_QUEUE_FULL, DOS_ERR_QUEUE_NOT_FULL,
    DOS_ERR_READ_FAULT, DOS_ERR_SECTOR_NOT_FOUND, DOS_ERR_SEEK_ERROR,
    DOS_ERR_SHARING_BUFFER_INVALID, DOS_ERR_SHARING_VIOLATION,
    DOS_ERR_SYS_COMPONENT_NOT_INSTALLED, DOS_ERR_TEMPORARILY_PAUSED,
    DOS_ERR_TOO_MANY_OPEN_FILES, DOS_ERR_TOO_MANY_REDIRECTIONS, DOS_ERR_UNKNOWN_CMD,
    DOS_ERR_UNKNOWN_MEDIA_TYPE, DOS_ERR_UNKNOWN_UNIT, DOS_ERR_WRITE_FAULT,
};

fn has_name(code: u8) -> bool {
    (1..=13).contains(&code)
        || (15..=39).contains(&code)
        || (50..=78).contains(&code)
        || code == 80
        || (82..=90).contains(&code)
}

#[test]
fn file_not_found_is_two() {
    assert_eq!(DOS_ERR_FILE_NOT_FOUND, 2);
}

#[test]
fn codes_one_to_thirteen() {
    assert_eq!(DOS_ERR_FUNC_NUM_INVALID, 1);
    assert_eq!(DOS_ERR_FILE_NOT_FOUND, 2);
    assert_eq!(DOS_ERR_PATH_NOT_FOUND, 3);
    assert_eq!(DOS_ERR_TOO_MANY_OPEN_FILES, 4);
    assert_eq!(DOS_ERR_ACCESS_DENIED, 5);
    assert_eq!(DOS_ERR_INVALID_HANDLE, 6);
    assert_eq!(DOS_ERR_MCB_DESTROYED, 7);
    assert_eq!(DOS_ERR_INSUFFICIENT_MEMORY, 8);
    assert_eq!(DOS_ERR_MBA_INVALID, 9);
    assert_eq!(DOS_ERR_ENVIRONMENT_INVALID, 10);
    assert_eq!(DOS_ERR_FORMAT_INVALID, 11);
    assert_eq!(DOS_ERR_ACCESS_CODE_INVALID, 12);
    assert_eq!(DOS_ERR_DATA_INVALID, 13);
}

#[test]
fn codes_fifteen_to_thirty_nine() {
    assert_eq!(DOS_ERR_INVALID_DRIVE, 15);
    assert_eq!(DOS_ERR_ATTEMPT_RM_CUR_DIR, 16);
    assert_eq!(DOS_ERR_NOT_SAME_DEV, 17);
    assert_eq!(DOS_ERR_NO_MORE_TILES, 18);
    assert_eq!(DOS_ERR_DISK_WRITE_PROTECTED, 19);
    assert_eq!(DOS_ERR_UNKNOWN_UNIT, 20);
    assert_eq!(DOS_ERR_DRIVE_NOT_READY, 21);
    assert_eq!(DOS_ERR_UNKNOWN_CMD, 22);
    assert_eq!(DOS_ERR_DATA_ERROR, 23);
    assert_eq!(DOS_ERR_BAD_STRUCT_LEN, 24);
    assert_eq!(DOS_ERR_SEEK_ERROR, 25);
    assert_eq!(DOS_ERR_UNKNOWN_MEDIA_TYPE, 26);
    assert_eq!(DOS_ERR_SECTOR_NOT_FOUND, 27);
    assert_eq!(DOS_ERR_PRINTER_NO_PAPER, 28);
    assert_eq!(DOS_ERR_WRITE_FAULT, 29);
    assert_eq!(DOS_ERR_READ_FAULT, 30);
    assert_eq!(DOS_ERR_GENERAL_FAILURE, 31);
    assert_eq!(DOS_ERR_SHARING_VIOLATION, 32);
    assert_eq!(DOS_ERR_LOCK_VIOLATION, 33);
    assert_eq!(DOS_ERR_DISK_CHANGE_INVALID, 34);
    assert_eq!(DOS_ERR_FCB_UNAVAILABLE, 35);
    assert_eq!(DOS_ERR_SHARING_BUFFER_INVALID, 36);
    assert_eq!(DOS_ERR_CODE_PAGE_MISMATCH, 37);
    assert_eq!(DOS_ERR_OUT_OF_INPUT, 38);
    assert_eq!(DOS_ERR_INSUFFICIENT_DISK_SPACE, 39);
}

#[test]
fn codes_fifty_to_seventy_eight() {
    assert_eq!(DOS_ERR_NET_REQUEST_NOT_SUPPORTED, 50);
    assert_eq!(DOS_ERR_NET_COMPUTER_NOT_LISTENING, 51);
    assert_eq!(DOS_ERR_NET_DUPLICATE_NAME, 52);
    assert_eq!(DOS_ERR_NET_NAME_NOT_FOUND_53, 53);
    assert_eq!(DOS_ERR_NET_BUSY, 54);
    assert_eq!(DOS_ERR_NET_DEV_NO_LONGER_EXISTS, 55);
    assert_eq!(DOS_ERR_NET_BIOS_CMD_LIMIT_EXCEEDED, 56);
    assert_eq!(DOS_ERR_NET_ADAPTER_HARDWARE_ERROR, 57);
    assert_eq!(DOS_ERR_NET_INCORRECT_RESPONSE, 58);
    assert_eq!(DOS_ERR_NET_UNEXPECTED_ERROR, 59);
    assert_eq!(DOS_ERR_NET_INCOMPATIBLE_ADAPTER, 60);
    assert_eq!(DOS_ERR_PRINT_QUEUE_FULL, 61);
    assert_eq!(DOS_ERR_QUEUE_NOT_FULL, 62);
    assert_eq!(DOS_ERR_NO_SPACE_TO_PRINT_FILE, 63);
    assert_eq!(DOS_ERR_NET_NAME_WAS_DELETED, 64);
    assert_eq!(DOS_ERR_NET_ACCESS_DENIED, 65);
    assert_eq!(DOS_ERR_NET_DEV_TYPE_INCORRECT, 66);
    assert_eq!(DOS_ERR_NET_NAME_NOT_FOUND_67, 67);
    assert_eq!(DOS_ERR_NET_NAME_LIMIT_EXCEEDED, 68);
    assert_eq!(DOS_ERR_NET_BIOS_SESSION_LIMIT_EXCEEDED, 69);
    assert_eq!(DOS_ERR_TEMPORARILY_PAUSED, 70);
    assert_eq!(DOS_ERR_NET_REQUEST_NOT_ACCEPTED, 71);
    assert_eq!(DOS_ERR_NET_REDIRECTION_PAUSED, 72);
    assert_eq!(DOS_ERR_NET_INVALID_VERSION, 73);
    assert_eq!(DOS_ERR_ACCOUNT_EXPIRED, 74);
    assert_eq!(DOS_ERR_PASSWORD_EXPIRED, 75);
    assert_eq!(DOS_ERR_LOGIN_ATTEMPTED_INVALID, 76);
    assert_eq!(DOS_ERR_NET_DISK_LIMIT_EXCEED, 77);
    assert_eq!(DOS_ERR_NET_NOT_LOGGED, 78);
}

#[test]
fn codes_eighty_to_ninety() {
    assert_eq!(DOS_ERR_FILE_EXISTS, 80);
    assert_eq!(DOS_ERR_CANNOT_MAKE_DIR, 82);
    assert_eq!(DOS_ERR_FAIL_ON_INT_24H, 83);
    assert_eq!(DOS_ERR_TOO_MANY_REDIRECTIONS, 84);
    assert_eq!(DOS_ERR_DUPLICATE_REDIRECTION, 85);
    assert_eq!(DOS_ERR_INVALID_PASSWORD, 86);
    assert_eq!(DOS_ERR_INVALID_PARAMETER, 87);
    assert_eq!(DOS_ERR_NET_WRITE_FAULT, 88);
    assert_eq!(DOS_ERR_NET_FUNC_NOT_SUPPORTED, 89);
    assert_eq!(DOS_ERR_SYS_COMPONENT_NOT_INSTALLED, 90);
}

#[test]
fn names_carry_the_numbers_of_the_constants() {
    assert_eq!(DosError::FuncNumInvalid.code(), DOS_ERR_FUNC_NUM_INVALID);
    assert_eq!(DosError::FileNotFound.code(), DOS_ERR_FILE_NOT_FOUND);
    assert_eq!(DosError::FileNotFound.code(), 2);
    assert_eq!(DosError::DataInvalid.code(), 13);
    assert_eq!(DosError::InvalidDrive.code(), 15);
    assert_eq!(DosError::InsufficientDiskSpace.code(), 39);
    assert_eq!(DosError::NetRequestNotSupported.code(), 50);
    assert_eq!(DosError::NetNameNotFound53.code(), 53);
    assert_eq!(DosError::NetNameNotFound67.code(), 67);
    assert_eq!(DosError::NetNotLogged.code(), 78);
    assert_eq!(DosError::FileExists.code(), 80);
    assert_eq!(DosError::CannotMakeDir.code(), 82);
    assert_eq!(DosError::FailOnInt24h.code(), 83);
    assert_eq!(DosError::SysComponentNotInstalled.code(), 90);
}

#[test]
fn numbers_find_their_names() {
    assert_eq!(DosError::from_code(1), Some(DosError::FuncNumInvalid));
    assert_eq!(DosError::from_code(2), Some(DosError::FileNotFound));
    assert_eq!(DosError::from_code(5), Some(DosError::AccessDenied));
    assert_eq!(DosError::from_code(8), Some(DosError::InsufficientMemory));
    assert_eq!(DosError::from_code(18), Some(DosError::NoMoreTiles));
    assert_eq!(DosError::from_code(53), Some(DosError::NetNameNotFound53));
    assert_eq!(DosError::from_code(67), Some(DosError::NetNameNotFound67));
    assert_eq!(DosError::from_code(80), Some(DosError::FileExists));
    assert_eq!(DosError::from_code(90), Some(DosError::SysComponentNotInstalled));
}

#[test]
fn unassigned_numbers_have_no_name() {
    assert_eq!(DosError::from_code(0), None);
    assert_eq!(DosError::from_code(14), None);
    let mut code: u8 = 40;
    while code <= 49 {
        assert_eq!(DosError::from_code(code), None);
        code += 1;
    }
    assert_eq!(DosError::from_code(79), None);
    assert_eq!(DosError::from_code(81), None);
    assert_eq!(DosError::from_code(91), None);
    assert_eq!(DosError::from_code(255), None);
}

#[test]
fn number_to_name_to_number_is_the_identity() {
    let mut named: u32 = 0;
    let mut code: u16 = 0;
    while code <= 255 {
        let c: u8 = code as u8;
        match DosError::from_code(c) {
            Some(e) => {
                assert!(has_name(c));
                assert_eq!(e.code(), c);
                named += 1;
            }
            None => assert!(!has_name(c)),
        }
        code += 1;
    }
    assert_eq!(named, 77);
}

#[test]
fn name_to_number_to_name_is_the_identity() {
    let mut code: u16 = 0;
    while code <= 255 {
        if let Some(e) = DosError::from_code(code as u8) {
            assert_eq!(DosError::from_code(e.code()), Some(e));
        }
        code += 1;
    }
}

#[test]
fn no_two_names_share_a_number() {
    let mut names: Vec<DosError> = Vec::new();
    let mut code: u16 = 0;
    while code <= 255 {
        if let Some(e) = DosError::from_code(code as u8) {
            names.push(e);
        }
        code += 1;
    }
    for (i, a) in names.iter().enumerate() {
        for (j, b) in names.iter().enumerate() {
            assert_eq!(a == b, i == j);
            assert_eq!(a.code() == b.code(), i == j);
        }
    }
}

#[test]
fn a_status_in_ax_finds_its_name() {
    assert_eq!(DosError::from_ax(0x0002), Some(DosError::FileNotFound));
    assert_eq!(DosError::from_ax(0x0008), Some(DosError::InsufficientMemory));
    assert_eq!(DosError::from_ax(0x005A), Some(DosError::SysComponentNotInstalled));
}

#[test]
fn a_status_outside_the_catalog_has_no_name() {
    assert_eq!(DosError::from_ax(0), None);
    assert_eq!(DosError::from_ax(14), None);
    assert_eq!(DosError::from_ax(0x00FF), None);
    assert_eq!(DosError::from_ax(0x0100), None);
    assert_eq!(DosError::from_ax(0x0102), None);
    assert_eq!(DosError::from_ax(0x8022), None);
    assert_eq!(DosError::from_ax(0xFFFF), None);
}

#[test]
fn a_status_in_ax_agrees_with_its_low_byte_only_below_256() {
    let mut x: u32 = 0;
    while x <= 0xFFFF {
        let ax: u16 = x as u16;
        let expected = if ax <= 0xFF { DosError::from_code(ax as u8) } else { None };
        assert_eq!(DosError::from_ax(ax), expected);
        x += 1;
    }
}
