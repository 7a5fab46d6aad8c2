//! The DPMI services of interrupt 31h.
//!
//! The parts of each service are those of the DOS services: `*_regs` and
//! `*_result` say what goes in and what comes out, `marshal_*` and
//! `unmarshal_*` compute them, and the function that carries the name of the
//! interrupt raises it once through the primitive `raw`.

use vstd::prelude::*;
use crate::errors::{AllocErr, AxErr};
use crate::registers::{
    carry, carry_flipped, carry_set, high_word, lemma_flip_changes_flag, low_word, pack_words,
    spec_high_word, spec_low_word, spec_pack_words, zero_flipped, Captured, Registers, INT_DPMI,
};

verus! {

// ---------------------------------------------------------------------------
// Function 0006h: get segment base address
// ---------------------------------------------------------------------------

/// The 32-bit linear base address of a segment: `CX` is its high half and
/// `DX` its low half.
#[derive(Debug, Clone)]
pub struct CxDxAddr {
    pub cx_dx_addr: u32,
}

/// Registers of function 0006h, get segment base address: the selector goes
/// into `BX`.
pub open spec fn segment_addr_regs(bx_selector: u16) -> Registers {
    Registers { ax: 0x0006, ebx: bx_selector as u32, ecx: 0, edx: 0 }
}

/// What function 0006h returned: with carry clear the base address, `CX` its
/// high half and `DX` its low half; with carry set the status from `AX`.
pub open spec fn segment_addr_result(c: Captured) -> Result<CxDxAddr, AxErr> {
    if carry_set(c.flags) {
        Err(AxErr { ax_err: c.ax })
    } else {
        Ok(CxDxAddr { cx_dx_addr: pack_words(c.cx, c.dx) })
    }
}

/// Computes `segment_addr_regs`.
#[inline]
pub fn marshal_segment_addr(bx_selector: u16) -> (r: Registers)
    ensures
        r == segment_addr_regs(bx_selector),
{
    Registers { ax: 0x0006, ebx: bx_selector as u32, ecx: 0, edx: 0 }
}

/// Computes `segment_addr_result`.
#[inline]
pub fn unmarshal_segment_addr(c: Captured) -> (r: Result<CxDxAddr, AxErr>)
    ensures
        r == segment_addr_result(c),
        r is Err <==> carry_set(c.flags),
        r matches Ok(a) ==> high_word(a.cx_dx_addr) == c.cx && low_word(a.cx_dx_addr) == c.dx,
{
    if carry(c.flags) {
        Err(AxErr { ax_err: c.ax })
    } else {
        Ok(CxDxAddr { cx_dx_addr: pack_words(c.cx, c.dx) })
    }
}

/// Interrupt 31h, function 0006h: the linear base address of the segment
/// that `bx_selector` names.
///
/// Raises the interrupt once, through `raw`, with exactly the registers of
/// `segment_addr_regs`, and decodes whatever state came back.
#[inline]
pub fn int_31h_ax_0006h_segment_addr<F: FnOnce(u8, Registers) -> Captured>(
    raw: F,
    bx_selector: u16,
) -> (r: Result<CxDxAddr, AxErr>)
    requires
        raw.requires((INT_DPMI, segment_addr_regs(bx_selector))),
    ensures
        exists|c: Captured|
            raw.ensures((INT_DPMI, segment_addr_regs(bx_selector)), c) && r
                == segment_addr_result(c),
{
    let c = raw(INT_DPMI, marshal_segment_addr(bx_selector));
    unmarshal_segment_addr(c)
}

// ---------------------------------------------------------------------------
// Function 0100h: allocate DOS memory
// ---------------------------------------------------------------------------

/// A block of DOS memory: its real-mode segment from `AX` and the selector
/// for it from `DX`.
#[derive(Debug, Clone)]
pub struct RmAlloc {
    pub ax_segment: u16,
    pub dx_selector: u16,
}

/// Registers of function 0100h, allocate DOS memory: the size in paragraphs
/// goes into `BX`.
pub open spec fn rm_alloc_regs(bx_paragraphs: u16) -> Registers {
    Registers { ax: 0x0100, ebx: bx_paragraphs as u32, ecx: 0, edx: 0 }
}

/// What function 0100h returned: with carry clear the segment from `AX` and
/// the selector from `DX`; with carry set the status from `AX` and the
/// largest available size from `BX`.
pub open spec fn rm_alloc_result(c: Captured) -> Result<RmAlloc, AllocErr> {
    if carry_set(c.flags) {
        Err(AllocErr { ax_err: c.ax, bx_available_paragraphs: low_word(c.ebx) })
    } else {
        Ok(RmAlloc { ax_segment: c.ax, dx_selector: c.dx })
    }
}

/// Computes `rm_alloc_regs`.
#[inline]
pub fn marshal_rm_alloc(bx_paragraphs: u16) -> (r: Registers)
    ensures
        r == rm_alloc_regs(bx_paragraphs),
{
    Registers { ax: 0x0100, ebx: bx_paragraphs as u32, ecx: 0, edx: 0 }
}

/// Computes `rm_alloc_result`.
#[inline]
pub fn unmarshal_rm_alloc(c: Captured) -> (r: Result<RmAlloc, AllocErr>)
    ensures
        r == rm_alloc_result(c),
        r is Err <==> carry_set(c.flags),
{
    if carry(c.flags) {
        Err(AllocErr { ax_err: c.ax, bx_available_paragraphs: low_word(c.ebx) })
    } else {
        Ok(RmAlloc { ax_segment: c.ax, dx_selector: c.dx })
    }
}

/// Interrupt 31h, function 0100h: allocates `bx_paragraphs` paragraphs of
/// DOS memory.
///
/// Raises the interrupt once, through `raw`, with exactly the registers of
/// `rm_alloc_regs`, and decodes whatever state came back.
#[inline]
pub fn int_31h_ax_0100h_rm_alloc<F: FnOnce(u8, Registers) -> Captured>(
    raw: F,
    bx_paragraphs: u16,
) -> (r: Result<RmAlloc, AllocErr>)
    requires
        raw.requires((INT_DPMI, rm_alloc_regs(bx_paragraphs))),
    ensures
        exists|c: Captured|
            raw.ensures((INT_DPMI, rm_alloc_regs(bx_paragraphs)), c) && r == rm_alloc_result(c),
{
    let c = raw(INT_DPMI, marshal_rm_alloc(bx_paragraphs));
    unmarshal_rm_alloc(c)
}

// ---------------------------------------------------------------------------
// Function 0101h: free DOS memory
// ---------------------------------------------------------------------------

/// Registers of function 0101h, free DOS memory: the selector goes into
/// `DX`.
pub open spec fn rm_free_regs(dx_selector: u16) -> Registers {
    Registers { ax: 0x0101, ebx: 0, ecx: 0, edx: dx_selector as u32 }
}

/// What function 0101h returned: with carry set the status from `AX`.
pub open spec fn rm_free_result(c: Captured) -> Result<(), AxErr> {
    if carry_set(c.flags) {
        Err(AxErr { ax_err: c.ax })
    } else {
        Ok(())
    }
}

/// Computes `rm_free_regs`.
#[inline]
pub fn marshal_rm_free(dx_selector: u16) -> (r: Registers)
    ensures
        r == rm_free_regs(dx_selector),
{
    Registers { ax: 0x0101, ebx: 0, ecx: 0, edx: dx_selector as u32 }
}

/// Computes `rm_free_result`.
#[inline]
pub fn unmarshal_rm_free(c: Captured) -> (r: Result<(), AxErr>)
    ensures
        r == rm_free_result(c),
        r is Err <==> carry_set(c.flags),
{
    if carry(c.flags) {
        Err(AxErr { ax_err: c.ax })
    } else {
        Ok(())
    }
}

/// Interrupt 31h, function 0101h: frees the block of DOS memory that
/// `dx_selector` names.
///
/// Raises the interrupt once, through `raw`, with exactly the registers of
/// `rm_free_regs`, and decodes whatever state came back.
#[inline]
pub fn int_31h_ax_0101h_rm_free<F: FnOnce(u8, Registers) -> Captured>(
    raw: F,
    dx_selector: u16,
) -> (r: Result<(), AxErr>)
    requires
        raw.requires((INT_DPMI, rm_free_regs(dx_selector))),
    ensures
        exists|c: Captured|
            raw.ensures((INT_DPMI, rm_free_regs(dx_selector)), c) && r == rm_free_result(c),
{
    let c = raw(INT_DPMI, marshal_rm_free(dx_selector));
    unmarshal_rm_free(c)
}

// ---------------------------------------------------------------------------
// What holds of all of them
// ---------------------------------------------------------------------------

/// Every DPMI service fails exactly when the carry flag came back set, and
/// on nothing else: the same registers with the carry bit flipped decode to
/// the other variant, and the zero flag changes nothing.
pub proof fn lemma_dpmi_carry_decides(c: Captured)
    ensures
        segment_addr_result(c) is Err <==> carry_set(c.flags),
        rm_alloc_result(c) is Err <==> carry_set(c.flags),
        rm_free_result(c) is Err <==> carry_set(c.flags),
        segment_addr_result(carry_flipped(c)) is Err <==> segment_addr_result(c) is Ok,
        rm_alloc_result(carry_flipped(c)) is Err <==> rm_alloc_result(c) is Ok,
        rm_free_result(carry_flipped(c)) is Err <==> rm_free_result(c) is Ok,
        segment_addr_result(zero_flipped(c)) == segment_addr_result(c),
        rm_alloc_result(zero_flipped(c)) == rm_alloc_result(c),
        rm_free_result(zero_flipped(c)) == rm_free_result(c),
{
    lemma_flip_changes_flag(c.flags);
}

/// The base address that function 0006h reports splits back into the `CX`
/// and `DX` it was read from.
pub proof fn lemma_segment_addr_halves(c: Captured)
    requires
        !carry_set(c.flags),
    ensures
        segment_addr_result(c) is Ok,
        high_word(segment_addr_result(c)->Ok_0.cx_dx_addr) == c.cx,
        low_word(segment_addr_result(c)->Ok_0.cx_dx_addr) == c.dx,
{
}

/// Every 32-bit address is the one that function 0006h reports when `CX`
/// and `DX` hold its two halves, up to and including the addresses whose
/// high half is all ones.
pub proof fn lemma_segment_addr_whole(c: Captured, addr: u32)
    requires
        !carry_set(c.flags),
        c.cx == high_word(addr),
        c.dx == low_word(addr),
    ensures
        segment_addr_result(c) == Ok::<CxDxAddr, AxErr>(CxDxAddr { cx_dx_addr: addr }),
{
}

} // verus!
