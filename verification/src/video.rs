//! The BIOS video services of interrupt 10h.
//!
//! The parts of each service are those of the DOS services: `*_regs` and
//! `*_result` say what goes in and what comes out, `marshal_*` and
//! `unmarshal_*` compute them, and the function that carries the name of the
//! interrupt raises it once through the primitive `raw`.

use vstd::prelude::*;
use crate::errors::AlErr;
use crate::registers::{
    carry_flipped, high_byte, low_byte, low_word, pack_bytes, spec_high_byte, spec_low_byte,
    spec_low_word, spec_pack_bytes, zero_flipped, Captured, Registers, INT_VIDEO,
};

verus! {

// ---------------------------------------------------------------------------
// Function 00h: set video mode
// ---------------------------------------------------------------------------

/// Registers of function 00h, set video mode: the mode goes into `AL`.
pub open spec fn set_video_mode_regs(al_mode: u8) -> Registers {
    Registers { ax: pack_bytes(0x00, al_mode), ebx: 0, ecx: 0, edx: 0 }
}

/// What function 00h returned. This service sets no flag: zero in `AL` is
/// success, and anything else in `AL` is the status of a failure.
pub open spec fn set_video_mode_result(c: Captured) -> Result<(), AlErr> {
    if low_byte(c.ax) == 0 {
        Ok(())
    } else {
        Err(AlErr { al_err: low_byte(c.ax) })
    }
}

/// Computes `set_video_mode_regs`.
#[inline]
pub fn marshal_set_video_mode(al_mode: u8) -> (r: Registers)
    ensures
        r == set_video_mode_regs(al_mode),
        high_byte(r.ax) == 0x00,
        low_byte(r.ax) == al_mode,
{
    Registers { ax: pack_bytes(0x00, al_mode), ebx: 0, ecx: 0, edx: 0 }
}

/// Computes `set_video_mode_result`.
#[inline]
pub fn unmarshal_set_video_mode(c: Captured) -> (r: Result<(), AlErr>)
    ensures
        r == set_video_mode_result(c),
        r is Err <==> low_byte(c.ax) != 0,
        r matches Err(e) ==> e.wf(),
{
    match AlErr::new(low_byte(c.ax)) {
        Some(e) => Err(e),
        None => Ok(()),
    }
}

/// Interrupt 10h, function 00h: switches to video mode `al_mode`.
///
/// Raises the interrupt once, through `raw`, with exactly the registers of
/// `set_video_mode_regs`, and decodes whatever state came back.
#[inline]
pub fn int_10h_ah_00h_set_video_mode<F: FnOnce(u8, Registers) -> Captured>(
    raw: F,
    al_mode: u8,
) -> (r: Result<(), AlErr>)
    requires
        raw.requires((INT_VIDEO, set_video_mode_regs(al_mode))),
    ensures
        exists|c: Captured|
            raw.ensures((INT_VIDEO, set_video_mode_regs(al_mode)), c) && r
                == set_video_mode_result(c),
        r matches Err(e) ==> e.wf(),
{
    let c = raw(INT_VIDEO, marshal_set_video_mode(al_mode));
    unmarshal_set_video_mode(c)
}

// ---------------------------------------------------------------------------
// Function 0Fh: get video mode
// ---------------------------------------------------------------------------

/// The video state: the mode from `AL`, the number of character columns from
/// `AH`, the active display page from `BH`.
#[derive(Debug, Clone)]
pub struct VideoMode {
    pub al_mode: u8,
    pub ah_cols: u8,
    pub bh_active_page: u8,
}

/// Registers of function 0Fh, get video mode.
pub open spec fn video_mode_regs() -> Registers {
    Registers { ax: 0x0F00, ebx: 0, ecx: 0, edx: 0 }
}

/// What function 0Fh returned.
pub open spec fn video_mode_result(c: Captured) -> VideoMode {
    VideoMode {
        al_mode: low_byte(c.ax),
        ah_cols: high_byte(c.ax),
        bh_active_page: high_byte(low_word(c.ebx)),
    }
}

/// Computes `video_mode_regs`.
#[inline]
pub fn marshal_video_mode() -> (r: Registers)
    ensures
        r == video_mode_regs(),
{
    Registers { ax: 0x0F00, ebx: 0, ecx: 0, edx: 0 }
}

/// Computes `video_mode_result`.
#[inline]
pub fn unmarshal_video_mode(c: Captured) -> (r: VideoMode)
    ensures
        r == video_mode_result(c),
        pack_bytes(r.ah_cols, r.al_mode) == c.ax,
{
    VideoMode {
        al_mode: low_byte(c.ax),
        ah_cols: high_byte(c.ax),
        bh_active_page: high_byte(low_word(c.ebx)),
    }
}

/// Interrupt 10h, function 0Fh: the current video mode.
///
/// Raises the interrupt once, through `raw`, with exactly the registers of
/// `video_mode_regs`, and decodes whatever state came back.
#[inline]
#[allow(non_snake_case)]
pub fn int_10h_ah_0Fh_video_mode<F: FnOnce(u8, Registers) -> Captured>(raw: F) -> (r: VideoMode)
    requires
        raw.requires((INT_VIDEO, video_mode_regs())),
    ensures
        exists|c: Captured|
            raw.ensures((INT_VIDEO, video_mode_regs()), c) && r == video_mode_result(c),
{
    let c = raw(INT_VIDEO, marshal_video_mode());
    unmarshal_video_mode(c)
}

// ---------------------------------------------------------------------------
// What holds of them
// ---------------------------------------------------------------------------

/// Setting the video mode fails exactly when `AL` came back nonzero, the
/// status of the failure is that byte, and neither flag changes anything.
pub proof fn lemma_set_video_mode_al_decides(c: Captured)
    ensures
        set_video_mode_result(c) is Err <==> low_byte(c.ax) != 0,
        set_video_mode_result(c) matches Err(e) ==> e.wf() && e.al_err == low_byte(c.ax),
        set_video_mode_result(carry_flipped(c)) == set_video_mode_result(c),
        set_video_mode_result(zero_flipped(c)) == set_video_mode_result(c),
{
}

} // verus!
