use n64_boot::n64header::entrypoint::{add_signed_imm, analyze_to_double_nop, parse_to_double_nop};
use n64_boot::n64header::Endian;

const BOOT_CODE: [u32; 15] = [
    0x3C088004, 0x2508E940, 0x24095D50, 0x2129FFF8, 0xAD000000, 0xAD000004, 0x1520FFFC, 0x21080008,
    0x3C0A8002, 0x3C1D8004, 0x254A5CC0, 0x01400008, 0x27BDF330, 0x00000000, 0x00000000,
];

#[test]
fn example_boot_code() {
    let info = analyze_to_double_nop(&BOOT_CODE.to_vec());
    assert_eq!(info.jump_addr, 0x80025CC0);
    assert_eq!(info.bss_size, 0x5D50);
    assert_eq!(info.bss_start, 0x8003E940);
    assert_eq!(info.initial_sp, 0x8003F330);
    assert_eq!(info.words_read, 14);
}

#[test]
fn example_boot_code_in_every_order() {
    let good: Vec<u8> = BOOT_CODE.iter().flat_map(|w| w.to_be_bytes()).collect();
    let bad: Vec<u8> = BOOT_CODE.iter().flat_map(|w| w.to_le_bytes()).collect();
    let ugly: Vec<u8> = good.chunks(2).flat_map(|h| [h[1], h[0]]).collect();
    let expected = (0x80025CC0, 0x8003E940, 0x5D50, 0x8003F330);
    assert_eq!(parse_to_double_nop(&good, &Endian::Good), expected);
    assert_eq!(parse_to_double_nop(&bad, &Endian::Bad), expected);
    assert_eq!(parse_to_double_nop(&ugly, &Endian::Ugly), expected);
}

#[test]
fn negative_trapping_adds_move_bss_start_down() {
    let code = vec![
        0x3C088004, // lui t0, 0x8004
        0x24090100, // addiu t1, zero, 0x100
        0x2129FFFC, // addi t1, t1, -4
        0xAD000000, // sw zero, 0(t0)
        0x1520FFFD, // bnez t1
        0x2108FFFC, // addi t0, t0, -4
        0, 0,
    ];
    let info = analyze_to_double_nop(&code);
    assert_eq!(info.bss_size, 0x100);
    assert_eq!(info.bss_start, 0x80040000 - 0x100);
}

#[test]
fn ori_uses_unsigned_immediate() {
    let code = vec![0x3C1D8000, 0x37BDF000, 0, 0];
    assert_eq!(analyze_to_double_nop(&code).initial_sp, 0x8000F000);
}

#[test]
fn zero_register_is_never_written() {
    let code = vec![0x3C008004, 0x24000010, 0x00000008, 0, 0];
    assert_eq!(analyze_to_double_nop(&code).jump_addr, 0);
}

#[test]
fn undecodable_word_stops_the_run() {
    let code = vec![0x3C1D8004, 0xFC000000, 0x3C1D9000];
    let info = analyze_to_double_nop(&code);
    assert_eq!(info.initial_sp, 0x80040000);
    assert_eq!(info.words_read, 1);
}

#[test]
fn unwritten_registers_read_zero() {
    let info = analyze_to_double_nop(&vec![]);
    assert_eq!((info.jump_addr, info.bss_start, info.bss_size, info.initial_sp), (0, 0, 0, 0));
    assert_eq!(info.words_read, 0);
}

#[test]
fn signed_addition_wraps() {
    assert_eq!(add_signed_imm(0x80040000, -0x16C0), 0x8003E940);
    assert_eq!(add_signed_imm(5, -6), 0xFFFFFFFF);
    assert_eq!(add_signed_imm(0xFFFFFFFF, 1), 0);
    assert_eq!(add_signed_imm(0x10, 0x20), 0x30);
}

use n64_boot::n64header::entrypoint::{analyze_to_delay_slot, parse, parse_report, LowerAddrOp};

#[test]
fn example_boot_code_to_delay_slot() {
    let r = analyze_to_delay_slot(&BOOT_CODE.to_vec(), 0x80000400);
    assert_eq!(r.jump_addr, 0x80025CC0);
    assert_eq!(r.bss_start, 0x8003E940);
    assert_eq!(r.bss_size, 0x5D50);
    assert_eq!(r.initial_sp, 0x8003F330);
    assert_eq!(r.sp_op, LowerAddrOp::Addiu);
    assert_eq!(r.bss_start_op, LowerAddrOp::Addiu);
    assert_eq!(r.bss_size_op, LowerAddrOp::Addiu);
    assert!(!r.jal_found);
    assert_eq!(r.delay_slot_used, Some(true));
    assert_eq!(r.words_read, 13);
    assert_eq!(r.length, 0x30);
}

#[test]
fn example_boot_code_to_delay_slot_from_bytes() {
    let bad: Vec<u8> = BOOT_CODE.iter().flat_map(|w| w.to_le_bytes()).collect();
    let r = parse_report(&bad, 0x80000400, &Endian::Bad);
    assert_eq!((r.jump_addr, r.initial_sp), (0x80025CC0, 0x8003F330));
}

#[test]
fn size_fallback_end_address() {
    let code = vec![
        0x3C088004, // lui t0, 0x8004
        0x25081000, // addiu t0, t0, 0x1000
        0x3C098005, // lui t1, 0x8005
        0xAD000000, // sw zero, 0(t0)
        0x3C0A8000, // lui t2, 0x8000
        0x254A0400, // addiu t2, t2, 0x400
        0x01400008, // jr t2
        0x00000000, // nop
        0x3C1D8000, // lui sp, 0x8000 (after the delay slot: not run)
    ];
    let r = analyze_to_delay_slot(&code, 0x80000400);
    assert_eq!(r.bss_start, 0x80041000);
    assert_eq!(r.bss_size, 0xF000);
    assert_eq!(r.bss_size_op, LowerAddrOp::Untouched);
    assert_eq!(r.jump_addr, 0x80000400);
    assert_eq!(r.initial_sp, 0);
    assert_eq!(r.delay_slot_used, Some(false));
    assert_eq!(r.words_read, 8);
}

#[test]
fn size_fallback_small_value() {
    let code = vec![
        0x3C088004, // lui t0, 0x8004
        0xAD000000, // sw zero, 0(t0)
        0x240B0040, // addiu t3, zero, 0x40
        0x3C0A8000, // lui t2, 0x8000
        0x01400008, // jr t2
        0x00000000, // nop
    ];
    let r = analyze_to_delay_slot(&code, 0x80000400);
    assert_eq!(r.bss_size, 0x40);
    assert_eq!(r.bss_size_op, LowerAddrOp::Addiu);
}

#[test]
fn jal_target_uses_current_region() {
    let code = vec![0x3C1D8004, 0x0C000100, 0x00000000];
    let r = analyze_to_delay_slot(&code, 0x80000400);
    assert_eq!(r.jump_addr, 0x80000400);
    assert!(r.jal_found);
    assert_eq!(r.delay_slot_used, Some(false));
    assert_eq!(r.initial_sp, 0x80040000);
}

#[test]
fn second_low_half_patch_is_skipped() {
    let code = vec![
        0x3C088000, // lui t0, 0x8000
        0x35081234, // ori t0, t0, 0x1234
        0x25080010, // addiu t0, t0, 0x10 (skipped)
        0xAD000000, // sw zero, 0(t0)
    ];
    let r = analyze_to_delay_slot(&code, 0);
    assert_eq!(r.bss_start, 0x80001234);
    assert_eq!(r.bss_start_op, LowerAddrOp::Ori);
    assert_eq!(r.delay_slot_used, None);
    assert_eq!(r.words_read, 4);
}

#[test]
fn undecodable_word_ends_before_delay_slot() {
    let r = analyze_to_delay_slot(&vec![0x3C1D8004, 0xFC000000, 0x01400008, 0], 0);
    assert_eq!(r.delay_slot_used, None);
    assert_eq!(r.words_read, 1);
    assert_eq!(r.initial_sp, 0x80040000);
}

fn be_bytes(words: &[u32]) -> Vec<u8> {
    words.iter().flat_map(|w| w.to_be_bytes()).collect()
}

#[test]
fn parse_example_boot_code() {
    let r = parse(&be_bytes(&BOOT_CODE), 0x80000400, &Endian::Good);
    assert_eq!(r, (0x80025CC0, 0x8003E940, 0x5D50, 0x8003F330));
}

#[test]
fn parse_skips_second_low_half_patch() {
    let code = [0x3C0A8002, 0x254A0010, 0x254A0020, 0x01400008, 0];
    let r = parse(&be_bytes(&code), 0x80000400, &Endian::Good);
    assert_eq!(r.0, 0x80020010);
}

#[test]
fn parse_stops_after_delay_slot() {
    let long = [0x3C0A8002, 0x01400008, 0, 0x3C0A8003];
    let short = [0x3C0A8002, 0x01400008, 0];
    let a = parse(&be_bytes(&long), 0x80000400, &Endian::Good);
    let b = parse(&be_bytes(&short), 0x80000400, &Endian::Good);
    assert_eq!(a, b);
    assert_eq!(a.0, 0x80020000);
}

#[test]
fn parse_bss_grows_down_on_negative_trapping_adds() {
    let code = [
        0x3C088004, // lui t0, 0x8004
        0x24090100, // addiu t1, zero, 0x100
        0x2108FFFC, // addi t0, t0, -4
        0xAD000000, // sw zero, 0(t0)
        0x2129FFFC, // addi t1, t1, -4
        0x1520FFFC, // bnez t1
        0x3C0A8000, // lui t2, 0x8000
        0x01400008, // jr t2
        0x00000000, // nop
    ];
    let r = parse_report(&be_bytes(&code), 0x80000400, &Endian::Good);
    assert_eq!(r.bss_size, 0x100);
    assert_eq!(r.bss_start, 0x80040000 - 0x100);
    assert_eq!(r.length, 0x20);
}

#[test]
fn no_jump_reached_gives_zero_length() {
    let r = analyze_to_delay_slot(&vec![0x3C1D8004, 0x27BDF330], 0);
    assert_eq!(r.length, 0);
    assert_eq!(r.words_read, 2);
}
