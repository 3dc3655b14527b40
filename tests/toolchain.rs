use n64_boot::n64header::Endian;
use n64_boot::toolchain::{
    classifier_window, guess_compiler, guess_gcc_or_ido, scan_words, text_end, CompilerGuess,
};

#[test]
fn too_little_evidence() {
    assert_eq!(guess_compiler(0, 0), CompilerGuess::Undetermined);
    assert_eq!(guess_compiler(99, 0), CompilerGuess::Undetermined);
    assert_eq!(guess_compiler(50, 49), CompilerGuess::Undetermined);
}

#[test]
fn more_branches_means_ido() {
    assert_eq!(guess_compiler(51, 49), CompilerGuess::Ido);
    assert_eq!(guess_compiler(100, 0), CompilerGuess::Ido);
}

#[test]
fn at_least_as_many_jumps_means_gcc() {
    assert_eq!(guess_compiler(50, 50), CompilerGuess::Gcc);
    assert_eq!(guess_compiler(0, 100), CompilerGuess::Gcc);
}

#[test]
fn counts_only_inside_functions() {
    let code = vec![
        0x11000005, // beqz t0 (before any function: not counted)
        0xFC000000, // not code
        0x1000FFFF, // b (unconditional: not counted)
        0x08000400, // j
        0x11000005, // beqz t0
        0x15090003, // bne t0, t1
        0x08000400, // j
        0x03E00008, // jr ra (the return itself is not counted)
        0x00000000, // nop
        0x08000400, // j (after the last return: not counted)
    ];
    let stats = scan_words(&code);
    assert_eq!(stats.branch_count, 2);
    assert_eq!(stats.jump_count, 2);
    assert_eq!(stats.last_return, Some(7));
    assert_eq!(stats.guess, CompilerGuess::Undetermined);
}

#[test]
fn no_return_no_counts() {
    let stats = scan_words(&vec![0x11000005, 0x08000400]);
    assert_eq!((stats.branch_count, stats.jump_count, stats.last_return), (0, 0, None));
}

#[test]
fn many_branches_guess_ido() {
    let mut code = vec![0x11000005u32; 120];
    code.push(0x03E00008);
    let stats = scan_words(&code);
    assert_eq!(stats.branch_count, 120);
    assert_eq!(stats.jump_count, 0);
    assert_eq!(stats.guess, CompilerGuess::Ido);
}

#[test]
fn many_jumps_guess_gcc_from_bytes() {
    let mut code = vec![0x08000400u32; 120];
    code.push(0x03E00008);
    let bytes: Vec<u8> = code.iter().flat_map(|w| w.to_le_bytes()).collect();
    let stats = guess_gcc_or_ido(&bytes, &Endian::Bad);
    assert_eq!(stats.jump_count, 120);
    assert_eq!(stats.guess, CompilerGuess::Gcc);
}

#[test]
fn window_up_to_bss() {
    assert_eq!(classifier_window(0x80001400, 0x80000400), 0x1000);
    assert_eq!(classifier_window(0x80000400, 0x80000400), 0x100000);
    assert_eq!(classifier_window(0x80000000, 0x80000400), 0x100000);
}

#[test]
fn text_end_offsets() {
    assert_eq!(text_end(0), Some(0x1004));
    assert_eq!(text_end(7), Some(0x1020));
    assert_eq!(text_end(usize::MAX / 4), None);
}

#[test]
fn calls_are_not_jumps() {
    let stats = scan_words(&vec![0x0C000000, 0x03E00008]);
    assert_eq!(stats.jump_count, 0);
    assert_eq!(stats.branch_count, 0);
}
