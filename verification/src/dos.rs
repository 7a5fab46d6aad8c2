//! The DOS services of interrupt 21h.
//!
//! Each service comes in parts. A spec function `*_regs` gives the registers
//! that the service is called with, and a spec function `*_result` gives the
//! value that a captured register state stands for; `marshal_*` and
//! `unmarshal_*` compute the two. The function that carries the name of the
//! interrupt raises it once, through the primitive `raw` that it is handed,
//! and decodes what came back.

use vstd::prelude::*;
use crate::errors::{AllocErr, AxErr};
use crate::registers::{
    carry, carry_flipped, carry_set, high_byte, lemma_flip_changes_flag, low_byte, low_word,
    pack_bytes, spec_high_byte, spec_low_byte, spec_low_word, spec_pack_bytes, zero,
    zero_flipped, zero_set, Captured, Registers, INT_DOS,
};

verus! {

// ---------------------------------------------------------------------------
// Function 4Ch: terminate
// ---------------------------------------------------------------------------

/// Registers of function 4Ch, terminate: the exit code goes into `AL`.
pub open spec fn exit_regs(al_exit_code: u8) -> Registers {
    Registers { ax: pack_bytes(0x4C, al_exit_code), ebx: 0, ecx: 0, edx: 0 }
}

/// Whether control can get past a termination request made through `raw`:
/// only where `raw` itself can come back from it.
pub open spec fn exit_returns<F: FnOnce(u8, Registers) -> Captured>(
    raw: F,
    al_exit_code: u8,
) -> bool {
    exists|c: Captured| raw.ensures((INT_DOS, exit_regs(al_exit_code)), c)
}

/// Computes `exit_regs`.
#[inline]
pub fn marshal_exit(al_exit_code: u8) -> (r: Registers)
    ensures
        r == exit_regs(al_exit_code),
        high_byte(r.ax) == 0x4C,
        low_byte(r.ax) == al_exit_code,
{
    Registers { ax: pack_bytes(0x4C, al_exit_code), ebx: 0, ecx: 0, edx: 0 }
}

/// Interrupt 21h, function 4Ch: ends the process with `al_exit_code`.
///
/// Raises the interrupt once, through `raw`, with exactly the registers of
/// `exit_regs`. DOS does not come back from this request; control gets past
/// the call only where `raw` itself returned.
#[inline]
#[allow(non_snake_case)]
pub fn int_21h_ah_4Ch_exit<F: FnOnce(u8, Registers) -> Captured>(raw: F, al_exit_code: u8)
    requires
        raw.requires((INT_DOS, exit_regs(al_exit_code))),
    ensures
        exit_returns(raw, al_exit_code),
{
    let _ = raw(INT_DOS, marshal_exit(al_exit_code));
}

// ---------------------------------------------------------------------------
// Function 30h: get DOS version
// ---------------------------------------------------------------------------

/// The DOS version: the minor number from `AH`, the major number from `AL`.
#[derive(Debug, Clone)]
pub struct DosVer {
    pub ah_minor: u8,
    pub al_major: u8,
}

/// Registers of function 30h, get DOS version.
pub open spec fn dos_ver_regs() -> Registers {
    Registers { ax: 0x3000, ebx: 0, ecx: 0, edx: 0 }
}

/// What function 30h returned.
pub open spec fn dos_ver_result(c: Captured) -> DosVer {
    DosVer { ah_minor: high_byte(c.ax), al_major: low_byte(c.ax) }
}

/// Computes `dos_ver_regs`.
#[inline]
pub fn marshal_dos_ver() -> (r: Registers)
    ensures
        r == dos_ver_regs(),
{
    Registers { ax: 0x3000, ebx: 0, ecx: 0, edx: 0 }
}

/// Computes `dos_ver_result`.
#[inline]
pub fn unmarshal_dos_ver(c: Captured) -> (r: DosVer)
    ensures
        r == dos_ver_result(c),
        pack_bytes(r.ah_minor, r.al_major) == c.ax,
{
    DosVer { ah_minor: high_byte(c.ax), al_major: low_byte(c.ax) }
}

/// Interrupt 21h, function 30h: the version of DOS.
///
/// Raises the interrupt once, through `raw`, with exactly the registers of
/// `dos_ver_regs`, and decodes whatever state came back.
#[inline]
pub fn int_21h_ah_30h_dos_ver<F: FnOnce(u8, Registers) -> Captured>(raw: F) -> (r: DosVer)
    requires
        raw.requires((INT_DOS, dos_ver_regs())),
    ensures
        exists|c: Captured| raw.ensures((INT_DOS, dos_ver_regs()), c) && r == dos_ver_result(c),
{
    let c = raw(INT_DOS, marshal_dos_ver());
    unmarshal_dos_ver(c)
}

// ---------------------------------------------------------------------------
// Function 6601h: get global code page
// ---------------------------------------------------------------------------

/// The code pages in use: the active one from `BX`, the system default from
/// `DX`.
#[derive(Debug, Clone)]
pub struct CodePage {
    pub bx_active: u16,
    pub dx_default: u16,
}

/// Registers of function 6601h, get global code page.
pub open spec fn code_page_regs() -> Registers {
    Registers { ax: 0x6601, ebx: 0, ecx: 0, edx: 0 }
}

/// What function 6601h returned: with carry clear the two code pages; with
/// carry set the status from `AX`.
pub open spec fn code_page_result(c: Captured) -> Result<CodePage, AxErr> {
    if carry_set(c.flags) {
        Err(AxErr { ax_err: c.ax })
    } else {
        Ok(CodePage { bx_active: low_word(c.ebx), dx_default: c.dx })
    }
}

/// Computes `code_page_regs`.
#[inline]
pub fn marshal_code_page() -> (r: Registers)
    ensures
        r == code_page_regs(),
{
    Registers { ax: 0x6601, ebx: 0, ecx: 0, edx: 0 }
}

/// Computes `code_page_result`.
#[inline]
pub fn unmarshal_code_page(c: Captured) -> (r: Result<CodePage, AxErr>)
    ensures
        r == code_page_result(c),
        r is Err <==> carry_set(c.flags),
{
    if carry(c.flags) {
        Err(AxErr { ax_err: c.ax })
    } else {
        Ok(CodePage { bx_active: low_word(c.ebx), dx_default: c.dx })
    }
}

/// Interrupt 21h, function 6601h: the active and the default code page.
///
/// Raises the interrupt once, through `raw`, with exactly the registers of
/// `code_page_regs`, and decodes whatever state came back.
#[inline]
pub fn int_21h_ax_6601h_code_page<F: FnOnce(u8, Registers) -> Captured>(
    raw: F,
) -> (r: Result<CodePage, AxErr>)
    requires
        raw.requires((INT_DOS, code_page_regs())),
    ensures
        exists|c: Captured|
            raw.ensures((INT_DOS, code_page_regs()), c) && r == code_page_result(c),
{
    let c = raw(INT_DOS, marshal_code_page());
    unmarshal_code_page(c)
}

// ---------------------------------------------------------------------------
// Function 02h: write character to standard output
// ---------------------------------------------------------------------------

/// The last character written, from `AL`.
#[derive(Debug, Clone)]
pub struct AlLastCh {
    pub al_last_ch: u8,
}

/// Registers of function 02h, write character: the character goes into `DL`.
pub open spec fn out_ch_regs(dl_ch: u8) -> Registers {
    Registers { ax: 0x0200, ebx: 0, ecx: 0, edx: dl_ch as u32 }
}

/// What function 02h returned.
pub open spec fn out_ch_result(c: Captured) -> AlLastCh {
    AlLastCh { al_last_ch: low_byte(c.ax) }
}

/// Computes `out_ch_regs`.
#[inline]
pub fn marshal_out_ch(dl_ch: u8) -> (r: Registers)
    ensures
        r == out_ch_regs(dl_ch),
{
    Registers { ax: 0x0200, ebx: 0, ecx: 0, edx: dl_ch as u32 }
}

/// Computes `out_ch_result`.
#[inline]
pub fn unmarshal_out_ch(c: Captured) -> (r: AlLastCh)
    ensures
        r == out_ch_result(c),
{
    AlLastCh { al_last_ch: low_byte(c.ax) }
}

/// Interrupt 21h, function 02h: writes the character `dl_ch` to standard
/// output.
///
/// Raises the interrupt once, through `raw`, with exactly the registers of
/// `out_ch_regs`, and decodes whatever state came back.
#[inline]
pub fn int_21h_ah_02h_out_ch<F: FnOnce(u8, Registers) -> Captured>(
    raw: F,
    dl_ch: u8,
) -> (r: AlLastCh)
    requires
        raw.requires((INT_DOS, out_ch_regs(dl_ch))),
    ensures
        exists|c: Captured|
            raw.ensures((INT_DOS, out_ch_regs(dl_ch)), c) && r == out_ch_result(c),
{
    let c = raw(INT_DOS, marshal_out_ch(dl_ch));
    unmarshal_out_ch(c)
}

// ---------------------------------------------------------------------------
// Function 09h: write string to standard output
// ---------------------------------------------------------------------------

/// Registers of function 09h, write string: the linear address of the
/// string goes into `EDX`. The string ends at the first `$`, which the
/// service looks for; nothing here reads the string.
pub open spec fn out_str_regs(dx_str_24h: u32) -> Registers {
    Registers { ax: 0x0900, ebx: 0, ecx: 0, edx: dx_str_24h }
}

/// Computes `out_str_regs`.
#[inline]
pub fn marshal_out_str(dx_str_24h: u32) -> (r: Registers)
    ensures
        r == out_str_regs(dx_str_24h),
{
    Registers { ax: 0x0900, ebx: 0, ecx: 0, edx: dx_str_24h }
}

/// Interrupt 21h, function 09h: writes to standard output the string at the
/// linear address `dx_str_24h`, up to its first `$`.
///
/// Raises the interrupt once, through `raw`, with exactly the registers of
/// `out_str_regs`; the service reports nothing back.
#[inline]
pub fn int_21h_ah_09h_out_str<F: FnOnce(u8, Registers) -> Captured>(raw: F, dx_str_24h: u32)
    requires
        raw.requires((INT_DOS, out_str_regs(dx_str_24h))),
    ensures
        exists|c: Captured| raw.ensures((INT_DOS, out_str_regs(dx_str_24h)), c),
{
    let _ = raw(INT_DOS, marshal_out_str(dx_str_24h));
}

// ---------------------------------------------------------------------------
// Function 3Dh: open file
// ---------------------------------------------------------------------------

/// The handle of an opened file, from `AX`.
#[derive(Debug, Clone)]
pub struct AxHandle {
    pub ax_handle: u16,
}

/// Registers of function 3Dh, open file: the access mode goes into `AL`, the
/// linear address of the zero-terminated path into `EDX`.
pub open spec fn open_regs(dx_path_z: u32, al_mode: u8) -> Registers {
    Registers { ax: pack_bytes(0x3D, al_mode), ebx: 0, ecx: 0, edx: dx_path_z }
}

/// What function 3Dh returned: with carry clear the handle from `AX`; with
/// carry set the status from `AX`.
pub open spec fn open_result(c: Captured) -> Result<AxHandle, AxErr> {
    if carry_set(c.flags) {
        Err(AxErr { ax_err: c.ax })
    } else {
        Ok(AxHandle { ax_handle: c.ax })
    }
}

/// Computes `open_regs`.
#[inline]
pub fn marshal_open(dx_path_z: u32, al_mode: u8) -> (r: Registers)
    ensures
        r == open_regs(dx_path_z, al_mode),
        high_byte(r.ax) == 0x3D,
        low_byte(r.ax) == al_mode,
{
    Registers { ax: pack_bytes(0x3D, al_mode), ebx: 0, ecx: 0, edx: dx_path_z }
}

/// Computes `open_result`.
#[inline]
pub fn unmarshal_open(c: Captured) -> (r: Result<AxHandle, AxErr>)
    ensures
        r == open_result(c),
        r is Err <==> carry_set(c.flags),
{
    if carry(c.flags) {
        Err(AxErr { ax_err: c.ax })
    } else {
        Ok(AxHandle { ax_handle: c.ax })
    }
}

/// Interrupt 21h, function 3Dh: opens the file whose zero-terminated path
/// lies at the linear address `dx_path_z`, with access mode `al_mode`.
///
/// Raises the interrupt once, through `raw`, with exactly the registers of
/// `open_regs`, and decodes whatever state came back.
#[inline]
#[allow(non_snake_case)]
pub fn int_21h_ah_3Dh_open<F: FnOnce(u8, Registers) -> Captured>(
    raw: F,
    dx_path_z: u32,
    al_mode: u8,
) -> (r: Result<AxHandle, AxErr>)
    requires
        raw.requires((INT_DOS, open_regs(dx_path_z, al_mode))),
    ensures
        exists|c: Captured|
            raw.ensures((INT_DOS, open_regs(dx_path_z, al_mode)), c) && r == open_result(c),
{
    let c = raw(INT_DOS, marshal_open(dx_path_z, al_mode));
    unmarshal_open(c)
}

// ---------------------------------------------------------------------------
// Function 3Fh: read from file
// ---------------------------------------------------------------------------

/// The number of bytes read, from `AX`.
#[derive(Debug, Clone)]
pub struct AxRead {
    pub ax_read: u16,
}

/// Registers of function 3Fh, read from file: the handle goes into `BX`,
/// the length of the buffer into `ECX`, its linear address into `EDX`.
pub open spec fn read_regs(bx_handle: u16, edx_buf: u32, cx_len: usize) -> Registers {
    Registers { ax: 0x3F00, ebx: bx_handle as u32, ecx: cx_len as u32, edx: edx_buf }
}

/// What function 3Fh returned: with carry clear the number of bytes read,
/// from `AX`; with carry set the status from `AX`.
pub open spec fn read_result(c: Captured) -> Result<AxRead, AxErr> {
    if carry_set(c.flags) {
        Err(AxErr { ax_err: c.ax })
    } else {
        Ok(AxRead { ax_read: c.ax })
    }
}

/// Computes `read_regs`, for a length that fits into `CX`.
#[inline]
pub fn marshal_read(bx_handle: u16, edx_buf: u32, cx_len: usize) -> (r: Registers)
    requires
        cx_len <= 0xFFFF,
    ensures
        r == read_regs(bx_handle, edx_buf, cx_len),
        r.ecx == cx_len,
{
    Registers { ax: 0x3F00, ebx: bx_handle as u32, ecx: cx_len as u32, edx: edx_buf }
}

/// Computes `read_result`.
#[inline]
pub fn unmarshal_read(c: Captured) -> (r: Result<AxRead, AxErr>)
    ensures
        r == read_result(c),
        r is Err <==> carry_set(c.flags),
{
    if carry(c.flags) {
        Err(AxErr { ax_err: c.ax })
    } else {
        Ok(AxRead { ax_read: c.ax })
    }
}

/// Interrupt 21h, function 3Fh: reads from the file `bx_handle` into the
/// `cx_len` bytes at the linear address `edx_buf`.
///
/// Raises the interrupt once, through `raw`, with exactly the registers of
/// `read_regs`, whatever the length: an empty buffer is no reason to skip
/// the call. A buffer longer than 65535 bytes cannot be asked for.
#[inline]
#[allow(non_snake_case)]
pub fn int_21h_ah_3Fh_read<F: FnOnce(u8, Registers) -> Captured>(
    raw: F,
    bx_handle: u16,
    edx_buf: u32,
    cx_len: usize,
) -> (r: Result<AxRead, AxErr>)
    requires
        cx_len <= 0xFFFF,
        raw.requires((INT_DOS, read_regs(bx_handle, edx_buf, cx_len))),
    ensures
        exists|c: Captured|
            raw.ensures((INT_DOS, read_regs(bx_handle, edx_buf, cx_len)), c) && r
                == read_result(c),
{
    let c = raw(INT_DOS, marshal_read(bx_handle, edx_buf, cx_len));
    unmarshal_read(c)
}

// ---------------------------------------------------------------------------
// Function 40h: write to file
// ---------------------------------------------------------------------------

/// The number of bytes written, from `AX`.
#[derive(Debug, Clone)]
pub struct AxWritten {
    pub ax_written: u16,
}

/// Registers of function 40h, write to file: the handle goes into `BX`, the
/// length of the buffer into `ECX`, its linear address into `EDX`.
pub open spec fn write_regs(bx_handle: u16, edx_buf: u32, cx_len: usize) -> Registers {
    Registers { ax: 0x4000, ebx: bx_handle as u32, ecx: cx_len as u32, edx: edx_buf }
}

/// What function 40h returned: with carry clear the number of bytes
/// written, from `AX`; with carry set the status from `AX`.
pub open spec fn write_result(c: Captured) -> Result<AxWritten, AxErr> {
    if carry_set(c.flags) {
        Err(AxErr { ax_err: c.ax })
    } else {
        Ok(AxWritten { ax_written: c.ax })
    }
}

/// Computes `write_regs`, for a length that fits into `CX`.
#[inline]
pub fn marshal_write(bx_handle: u16, edx_buf: u32, cx_len: usize) -> (r: Registers)
    requires
        cx_len <= 0xFFFF,
    ensures
        r == write_regs(bx_handle, edx_buf, cx_len),
        r.ecx == cx_len,
{
    Registers { ax: 0x4000, ebx: bx_handle as u32, ecx: cx_len as u32, edx: edx_buf }
}

/// Computes `write_result`.
#[inline]
pub fn unmarshal_write(c: Captured) -> (r: Result<AxWritten, AxErr>)
    ensures
        r == write_result(c),
        r is Err <==> carry_set(c.flags),
{
    if carry(c.flags) {
        Err(AxErr { ax_err: c.ax })
    } else {
        Ok(AxWritten { ax_written: c.ax })
    }
}

/// Interrupt 21h, function 40h: writes to the file `bx_handle` the `cx_len`
/// bytes at the linear address `edx_buf`.
///
/// Raises the interrupt once, through `raw`, with exactly the registers of
/// `write_regs`, and decodes whatever state came back. A buffer longer than
/// 65535 bytes cannot be asked for.
#[inline]
pub fn int_21h_ah_40h_write<F: FnOnce(u8, Registers) -> Captured>(
    raw: F,
    bx_handle: u16,
    edx_buf: u32,
    cx_len: usize,
) -> (r: Result<AxWritten, AxErr>)
    requires
        cx_len <= 0xFFFF,
        raw.requires((INT_DOS, write_regs(bx_handle, edx_buf, cx_len))),
    ensures
        exists|c: Captured|
            raw.ensures((INT_DOS, write_regs(bx_handle, edx_buf, cx_len)), c) && r
                == write_result(c),
{
    let c = raw(INT_DOS, marshal_write(bx_handle, edx_buf, cx_len));
    unmarshal_write(c)
}

// ---------------------------------------------------------------------------
// Function 48h: allocate memory
// ---------------------------------------------------------------------------

/// The segment of an allocated block, from `AX`.
#[derive(Debug, Clone)]
pub struct AxSegment {
    pub ax_segment: u16,
}

/// Registers of function 48h, allocate memory: the size in paragraphs goes
/// into `BX`.
pub open spec fn alloc_regs(bx_paragraphs: u16) -> Registers {
    Registers { ax: 0x4800, ebx: bx_paragraphs as u32, ecx: 0, edx: 0 }
}

/// What function 48h returned: with carry clear the segment from `AX`; with
/// carry set the status from `AX` and the largest available size from `BX`.
pub open spec fn alloc_result(c: Captured) -> Result<AxSegment, AllocErr> {
    if carry_set(c.flags) {
        Err(AllocErr { ax_err: c.ax, bx_available_paragraphs: low_word(c.ebx) })
    } else {
        Ok(AxSegment { ax_segment: c.ax })
    }
}

/// Computes `alloc_regs`.
#[inline]
pub fn marshal_alloc(bx_paragraphs: u16) -> (r: Registers)
    ensures
        r == alloc_regs(bx_paragraphs),
{
    Registers { ax: 0x4800, ebx: bx_paragraphs as u32, ecx: 0, edx: 0 }
}

/// Computes `alloc_result`.
#[inline]
pub fn unmarshal_alloc(c: Captured) -> (r: Result<AxSegment, AllocErr>)
    ensures
        r == alloc_result(c),
        r is Err <==> carry_set(c.flags),
{
    if carry(c.flags) {
        Err(AllocErr { ax_err: c.ax, bx_available_paragraphs: low_word(c.ebx) })
    } else {
        Ok(AxSegment { ax_segment: c.ax })
    }
}

/// Interrupt 21h, function 48h: allocates `bx_paragraphs` paragraphs of
/// memory.
///
/// Raises the interrupt once, through `raw`, with exactly the registers of
/// `alloc_regs`, and decodes whatever state came back.
#[inline]
pub fn int_21h_ah_48h_alloc<F: FnOnce(u8, Registers) -> Captured>(
    raw: F,
    bx_paragraphs: u16,
) -> (r: Result<AxSegment, AllocErr>)
    requires
        raw.requires((INT_DOS, alloc_regs(bx_paragraphs))),
    ensures
        exists|c: Captured|
            raw.ensures((INT_DOS, alloc_regs(bx_paragraphs)), c) && r == alloc_result(c),
{
    let c = raw(INT_DOS, marshal_alloc(bx_paragraphs));
    unmarshal_alloc(c)
}

// ---------------------------------------------------------------------------
// Function 62h: get PSP address
// ---------------------------------------------------------------------------

/// The segment of the program segment prefix, from `BX`.
#[derive(Debug, Clone)]
pub struct BxSegment {
    pub bx_segment: u16,
}

/// Registers of function 62h, get PSP address.
pub open spec fn psp_addr_regs() -> Registers {
    Registers { ax: 0x6200, ebx: 0, ecx: 0, edx: 0 }
}

/// What function 62h returned.
pub open spec fn psp_addr_result(c: Captured) -> BxSegment {
    BxSegment { bx_segment: low_word(c.ebx) }
}

/// Computes `psp_addr_regs`.
#[inline]
pub fn marshal_psp_addr() -> (r: Registers)
    ensures
        r == psp_addr_regs(),
{
    Registers { ax: 0x6200, ebx: 0, ecx: 0, edx: 0 }
}

/// Computes `psp_addr_result`.
#[inline]
pub fn unmarshal_psp_addr(c: Captured) -> (r: BxSegment)
    ensures
        r == psp_addr_result(c),
{
    BxSegment { bx_segment: low_word(c.ebx) }
}

/// Interrupt 21h, function 62h: the segment of the program segment prefix.
///
/// Raises the interrupt once, through `raw`, with exactly the registers of
/// `psp_addr_regs`, and decodes whatever state came back.
#[inline]
pub fn int_21h_ah_62h_psp_addr<F: FnOnce(u8, Registers) -> Captured>(raw: F) -> (r: BxSegment)
    requires
        raw.requires((INT_DOS, psp_addr_regs())),
    ensures
        exists|c: Captured|
            raw.ensures((INT_DOS, psp_addr_regs()), c) && r == psp_addr_result(c),
{
    let c = raw(INT_DOS, marshal_psp_addr());
    unmarshal_psp_addr(c)
}

// ---------------------------------------------------------------------------
// Function 06h, DL = FFh: direct console input
// ---------------------------------------------------------------------------

/// The character that was waiting, from `AL`.
#[derive(Debug, Clone)]
pub struct AlChar {
    pub al_char: u8,
}

/// Registers of function 06h with `DL` = FFh, direct console input.
pub open spec fn inkey_regs() -> Registers {
    Registers { ax: 0x0600, ebx: 0, ecx: 0, edx: 0x00FF }
}

/// What function 06h returned: with the zero flag clear the character from
/// `AL`; with the zero flag set nothing was waiting, which is no failure.
pub open spec fn inkey_result(c: Captured) -> Option<AlChar> {
    if zero_set(c.flags) {
        None
    } else {
        Some(AlChar { al_char: low_byte(c.ax) })
    }
}

/// Computes `inkey_regs`.
#[inline]
pub fn marshal_inkey() -> (r: Registers)
    ensures
        r == inkey_regs(),
{
    Registers { ax: 0x0600, ebx: 0, ecx: 0, edx: 0x00FF }
}

/// Computes `inkey_result`.
#[inline]
pub fn unmarshal_inkey(c: Captured) -> (r: Option<AlChar>)
    ensures
        r == inkey_result(c),
        r is None <==> zero_set(c.flags),
{
    if zero(c.flags) {
        None
    } else {
        Some(AlChar { al_char: low_byte(c.ax) })
    }
}

/// Interrupt 21h, function 06h with `DL` = FFh: the character that is
/// waiting at the console, if one is.
///
/// Raises the interrupt once, through `raw`, with exactly the registers of
/// `inkey_regs`. The answer is read from the zero flag, not the carry flag:
/// `None` says that nothing was waiting, not that the call failed.
#[inline]
#[allow(non_snake_case)]
pub fn int_21h_ah_06h_dl_FFh_inkey<F: FnOnce(u8, Registers) -> Captured>(
    raw: F,
) -> (r: Option<AlChar>)
    requires
        raw.requires((INT_DOS, inkey_regs())),
    ensures
        exists|c: Captured| raw.ensures((INT_DOS, inkey_regs()), c) && r == inkey_result(c),
{
    let c = raw(INT_DOS, marshal_inkey());
    unmarshal_inkey(c)
}

// ---------------------------------------------------------------------------
// Functions 35h and 25h: get and set interrupt vector
// ---------------------------------------------------------------------------

/// The address of an interrupt handler, from `EBX`.
pub struct IntHandler {
    pub ebx_int_handler: u32,
}

/// Registers of function 35h, get interrupt vector: the vector's number
/// goes into `AL`.
pub open spec fn get_int_regs(al_int_vec: u8) -> Registers {
    Registers { ax: pack_bytes(0x35, al_int_vec), ebx: 0, ecx: 0, edx: 0 }
}

/// What function 35h returned.
pub open spec fn get_int_result(c: Captured) -> IntHandler {
    IntHandler { ebx_int_handler: c.ebx }
}

/// Computes `get_int_regs`.
#[inline]
pub fn marshal_get_int(al_int_vec: u8) -> (r: Registers)
    ensures
        r == get_int_regs(al_int_vec),
        high_byte(r.ax) == 0x35,
        low_byte(r.ax) == al_int_vec,
{
    Registers { ax: pack_bytes(0x35, al_int_vec), ebx: 0, ecx: 0, edx: 0 }
}

/// Computes `get_int_result`.
#[inline]
pub fn unmarshal_get_int(c: Captured) -> (r: IntHandler)
    ensures
        r == get_int_result(c),
{
    IntHandler { ebx_int_handler: c.ebx }
}

/// Interrupt 21h, function 35h: the address of the handler of interrupt
/// `al_int_vec`.
///
/// Raises the interrupt once, through `raw`, with exactly the registers of
/// `get_int_regs`, and decodes whatever state came back.
#[inline]
pub fn int_21h_ah_35h_get_int<F: FnOnce(u8, Registers) -> Captured>(
    raw: F,
    al_int_vec: u8,
) -> (r: IntHandler)
    requires
        raw.requires((INT_DOS, get_int_regs(al_int_vec))),
    ensures
        exists|c: Captured|
            raw.ensures((INT_DOS, get_int_regs(al_int_vec)), c) && r == get_int_result(c),
{
    let c = raw(INT_DOS, marshal_get_int(al_int_vec));
    unmarshal_get_int(c)
}

/// Registers of function 25h, set interrupt vector: the vector's number
/// goes into `AL`, the linear address of the handler into `EDX`.
pub open spec fn set_int_regs(al_int_vec: u8, edx_int_handler: u32) -> Registers {
    Registers { ax: pack_bytes(0x25, al_int_vec), ebx: 0, ecx: 0, edx: edx_int_handler }
}

/// Computes `set_int_regs`.
#[inline]
pub fn marshal_set_int(al_int_vec: u8, edx_int_handler: u32) -> (r: Registers)
    ensures
        r == set_int_regs(al_int_vec, edx_int_handler),
        high_byte(r.ax) == 0x25,
        low_byte(r.ax) == al_int_vec,
{
    Registers { ax: pack_bytes(0x25, al_int_vec), ebx: 0, ecx: 0, edx: edx_int_handler }
}

/// Interrupt 21h, function 25h: makes the code at the linear address
/// `edx_int_handler` the handler of interrupt `al_int_vec`, for the rest of
/// the process's life or until the vector is set again.
///
/// Raises the interrupt once, through `raw`, with exactly the registers of
/// `set_int_regs`; the service reports nothing back, and no record of the
/// earlier handler is kept here.
#[inline]
pub fn int_21h_ah_25h_set_int<F: FnOnce(u8, Registers) -> Captured>(
    raw: F,
    al_int_vec: u8,
    edx_int_handler: u32,
)
    requires
        raw.requires((INT_DOS, set_int_regs(al_int_vec, edx_int_handler))),
    ensures
        exists|c: Captured| raw.ensures((INT_DOS, set_int_regs(al_int_vec, edx_int_handler)), c),
{
    let _ = raw(INT_DOS, marshal_set_int(al_int_vec, edx_int_handler));
}

// ---------------------------------------------------------------------------
// What holds of all of them
// ---------------------------------------------------------------------------

/// The services that merge an argument into the function code keep both
/// apart: the high byte of `AX` is the function code and the low byte is the
/// argument, for every value of the argument.
pub proof fn lemma_function_code_and_argument(al: u8, edx: u32)
    ensures
        high_byte(exit_regs(al).ax) == 0x4C && low_byte(exit_regs(al).ax) == al,
        high_byte(open_regs(edx, al).ax) == 0x3D && low_byte(open_regs(edx, al).ax) == al,
        high_byte(get_int_regs(al).ax) == 0x35 && low_byte(get_int_regs(al).ax) == al,
        high_byte(set_int_regs(al, edx).ax) == 0x25 && low_byte(set_int_regs(al, edx).ax) == al,
{
}

/// The services that report failure do so through the carry flag and
/// through nothing else: each fails exactly when carry came back set, the
/// same registers with the carry bit flipped decode to the other variant,
/// and the zero flag changes nothing.
pub proof fn lemma_dos_carry_decides(c: Captured)
    ensures
        code_page_result(c) is Err <==> carry_set(c.flags),
        open_result(c) is Err <==> carry_set(c.flags),
        read_result(c) is Err <==> carry_set(c.flags),
        write_result(c) is Err <==> carry_set(c.flags),
        alloc_result(c) is Err <==> carry_set(c.flags),
        code_page_result(carry_flipped(c)) is Err <==> code_page_result(c) is Ok,
        open_result(carry_flipped(c)) is Err <==> open_result(c) is Ok,
        read_result(carry_flipped(c)) is Err <==> read_result(c) is Ok,
        write_result(carry_flipped(c)) is Err <==> write_result(c) is Ok,
        alloc_result(carry_flipped(c)) is Err <==> alloc_result(c) is Ok,
        code_page_result(zero_flipped(c)) == code_page_result(c),
        open_result(zero_flipped(c)) == open_result(c),
        read_result(zero_flipped(c)) == read_result(c),
        write_result(zero_flipped(c)) == write_result(c),
        alloc_result(zero_flipped(c)) == alloc_result(c),
{
    lemma_flip_changes_flag(c.flags);
}

/// The console poll answers through the zero flag and through nothing else:
/// it is `None` exactly when the zero flag came back set, the same
/// registers with the zero bit flipped decode to the other variant, and the
/// carry flag changes nothing.
pub proof fn lemma_inkey_zero_decides(c: Captured)
    ensures
        inkey_result(c) is None <==> zero_set(c.flags),
        inkey_result(zero_flipped(c)) is None <==> inkey_result(c) is Some,
        inkey_result(carry_flipped(c)) == inkey_result(c),
{
    lemma_flip_changes_flag(c.flags);
}

/// Through a primitive that never comes back from function 4Ch, nothing
/// comes back from a termination request, whatever the exit code.
pub proof fn lemma_exit_does_not_return<F: FnOnce(u8, Registers) -> Captured>(raw: F)
    requires
        forall|al: u8, c: Captured| !#[trigger] raw.ensures((INT_DOS, exit_regs(al)), c),
    ensures
        forall|al: u8| !#[trigger] exit_returns(raw, al),
{
}

} // verus!
