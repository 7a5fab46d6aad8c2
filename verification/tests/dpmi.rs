use pc_ints::dpmi::{
    marshal_rm_alloc, marshal_rm_free, marshal_segment_addr, unmarshal_rm_alloc,
    unmarshal_rm_free, unmarshal_segment_addr,
};
use pc_ints::{
    int_31h_ax_0006h_segment_addr, int_31h_ax_0100h_rm_alloc, int_31h_ax_0101h_rm_free,
    Captured, Registers,
};

const CARRY: u16 = 0x0100;
const ZERO: u16 = 0x4000;

fn state(flags: u16, ax: u16, ebx: u32, cx: u16, dx: u16) -> Captured {
    Captured { flags, ax, ebx, cx, dx }
}

fn regs(ax: u16, ebx: u32, ecx: u32, edx: u32) -> Registers {
    Registers { ax, ebx, ecx, edx }
}

#[test]
fn segment_addr_loads_the_selector_into_bx() {
    assert_eq!(marshal_segment_addr(0x00A7), regs(0x0006, 0x00A7, 0, 0));
    assert_eq!(marshal_segment_addr(0xFFFF), regs(0x0006, 0xFFFF, 0, 0));
    assert_eq!(marshal_segment_addr(0), regs(0x0006, 0, 0, 0));
}

#[test]
fn segment_addr_joins_cx_and_dx() {
    let r = unmarshal_segment_addr(state(0, 0x0006, 0, 0x0012, 0x3456));
    assert_eq!(r.unwrap().cx_dx_addr, 0x0012_3456);
    let r = unmarshal_segment_addr(state(0, 0, 0, 0, 0));
    assert_eq!(r.unwrap().cx_dx_addr, 0);
    let r = unmarshal_segment_addr(state(ZERO, 0, 0xFFFF_FFFF, 0, 0xFFFF));
    assert_eq!(r.unwrap().cx_dx_addr, 0x0000_FFFF);
}

#[test]
fn segment_addr_with_all_ones_in_the_high_half() {
    let r = unmarshal_segment_addr(state(0, 0, 0, 0xFFFF, 0x1234));
    assert_eq!(r.unwrap().cx_dx_addr, 0xFFFF_1234);
    let r = unmarshal_segment_addr(state(0, 0, 0, 0xFFFF, 0));
    assert_eq!(r.unwrap().cx_dx_addr, 0xFFFF_0000);
    let r = unmarshal_segment_addr(state(0, 0, 0, 0xFFFF, 0xFFFF));
    assert_eq!(r.unwrap().cx_dx_addr, 0xFFFF_FFFF);
}

#[test]
fn segment_addr_splits_back_into_cx_and_dx() {
    let pairs: [(u16, u16); 6] =
        [(0, 0), (0, 1), (1, 0), (0x8000, 0x8000), (0xFFFF, 0xFFFE), (0xFFFF, 0xFFFF)];
    for (cx, dx) in pairs {
        let addr: u32 = unmarshal_segment_addr(state(0, 0, 0, cx, dx)).unwrap().cx_dx_addr;
        assert_eq!((addr >> 16) as u16, cx);
        assert_eq!(addr as u16, dx);
        assert_eq!(addr, ((cx as u32) << 16) | (dx as u32));
    }
}

#[test]
fn segment_addr_fails_with_carry_set() {
    let r = unmarshal_segment_addr(state(CARRY, 0x8022, 0, 0x0012, 0x3456));
    assert_eq!(r.unwrap_err().ax_err, 0x8022);
}

#[test]
fn segment_addr_raises_interrupt_31h_once() {
    let mut seen: Vec<(u8, Registers)> = Vec::new();
    let r = int_31h_ax_0006h_segment_addr(
        |n, r| {
            seen.push((n, r));
            state(0, 0x0006, 0x00A7, 0x0011, 0x0000)
        },
        0x00A7,
    );
    assert_eq!(seen, vec![(0x31, regs(0x0006, 0x00A7, 0, 0))]);
    assert_eq!(r.unwrap().cx_dx_addr, 0x0011_0000);
}

#[test]
fn segment_addr_reports_the_failure_of_the_call() {
    let r = int_31h_ax_0006h_segment_addr(|_, _| state(CARRY, 0x8022, 0, 0, 0), 0x00A7);
    assert_eq!(r.unwrap_err().ax_err, 0x8022);
}

#[test]
fn rm_alloc_loads_the_size_into_bx() {
    assert_eq!(marshal_rm_alloc(0x0020), regs(0x0100, 0x0020, 0, 0));
    assert_eq!(marshal_rm_alloc(0xFFFF), regs(0x0100, 0xFFFF, 0, 0));
    assert_eq!(marshal_rm_alloc(0), regs(0x0100, 0, 0, 0));
}

#[test]
fn rm_alloc_succeeds_with_carry_clear() {
    let r = unmarshal_rm_alloc(state(0, 0x1A00, 0x0020, 0, 0x00BF));
    let block = r.unwrap();
    assert_eq!(block.ax_segment, 0x1A00);
    assert_eq!(block.dx_selector, 0x00BF);
}

#[test]
fn rm_alloc_fails_with_carry_set_and_tells_what_is_left() {
    let r = unmarshal_rm_alloc(state(CARRY, 0x0008, 0x0300, 0, 0x00BF));
    let e = r.unwrap_err();
    assert_eq!(e.ax_err, 8);
    assert_eq!(e.bx_available_paragraphs, 0x0300);
    let r = unmarshal_rm_alloc(state(CARRY | ZERO, 0x0007, 0xFFFF_0001, 0, 0));
    let e = r.unwrap_err();
    assert_eq!(e.ax_err, 7);
    assert_eq!(e.bx_available_paragraphs, 1);
}

#[test]
fn rm_alloc_raises_interrupt_31h_once() {
    let mut seen: Vec<(u8, Registers)> = Vec::new();
    let r = int_31h_ax_0100h_rm_alloc(
        |n, r| {
            seen.push((n, r));
            state(0, 0x2000, 0x0040, 0, 0x0107)
        },
        0x0040,
    );
    assert_eq!(seen, vec![(0x31, regs(0x0100, 0x0040, 0, 0))]);
    let block = r.unwrap();
    assert_eq!(block.ax_segment, 0x2000);
    assert_eq!(block.dx_selector, 0x0107);
}

#[test]
fn rm_alloc_reports_the_failure_of_the_call() {
    let r = int_31h_ax_0100h_rm_alloc(|_, _| state(CARRY, 8, 0x0010, 0, 0), 0xFFFF);
    let e = r.unwrap_err();
    assert_eq!(e.ax_err, 8);
    assert_eq!(e.bx_available_paragraphs, 0x0010);
}

#[test]
fn rm_free_loads_the_selector_into_dx() {
    assert_eq!(marshal_rm_free(0x0107), regs(0x0101, 0, 0, 0x0107));
    assert_eq!(marshal_rm_free(0xFFFF), regs(0x0101, 0, 0, 0xFFFF));
    assert_eq!(marshal_rm_free(0), regs(0x0101, 0, 0, 0));
}

#[test]
fn rm_free_succeeds_with_carry_clear() {
    assert!(unmarshal_rm_free(state(0, 0x0101, 0, 0, 0)).is_ok());
    assert!(unmarshal_rm_free(state(ZERO | 0x00FF, 0x0009, 0, 0, 0)).is_ok());
}

#[test]
fn rm_free_fails_with_carry_set() {
    let r = unmarshal_rm_free(state(CARRY, 0x0009, 0, 0, 0));
    assert_eq!(r.unwrap_err().ax_err, 9);
}

#[test]
fn rm_free_raises_interrupt_31h_once() {
    let mut seen: Vec<(u8, Registers)> = Vec::new();
    let r = int_31h_ax_0101h_rm_free(
        |n, r| {
            seen.push((n, r));
            state(0, 0x0101, 0, 0, 0x0107)
        },
        0x0107,
    );
    assert_eq!(seen, vec![(0x31, regs(0x0101, 0, 0, 0x0107))]);
    assert!(r.is_ok());
}

#[test]
fn rm_free_reports_the_failure_of_the_call() {
    let r = int_31h_ax_0101h_rm_free(|_, _| state(CARRY, 0x8022, 0, 0, 0), 0x0107);
    assert_eq!(r.unwrap_err().ax_err, 0x8022);
}

#[test]
fn carry_alone_tells_a_failed_dpmi_call_from_a_good_one() {
    let mut x: u32 = 0;
    while x <= 0xFFFF {
        let flags: u16 = x as u16;
        let failed: bool = (flags & 0x0100) != 0;
        let c = state(flags, 0x0102, 0x0304_0506, 0x0708, 0x090A);
        assert_eq!(unmarshal_segment_addr(c).is_err(), failed);
        assert_eq!(unmarshal_rm_alloc(c).is_err(), failed);
        assert_eq!(unmarshal_rm_free(c).is_err(), failed);
        x += 1;
    }
}
