use vstd::prelude::*;

use crate::mips::{decode, disassemble_word, MipsGpr, MipsInstruction};
use crate::n64header::{read_words, words_of, Endian};

verus! {

/// The fewest branches and jumps together on which a guess is made.
pub const MIN_EVIDENCE: usize = 100;

/// Which toolchain most likely built some boot code.
#[derive(Clone, Copy, Debug, PartialEq, Eq, Structural)]
pub enum CompilerGuess {
    /// More branches than jumps.
    Ido,
    /// At least as many jumps as branches.
    Gcc,
    /// Too few branches and jumps to tell.
    Undetermined,
}

/// The guess for the given counts.
pub open spec fn guess_of(branches: int, jumps: int) -> CompilerGuess {
    if branches + jumps < MIN_EVIDENCE {
        CompilerGuess::Undetermined
    } else if branches > jumps {
        CompilerGuess::Ido
    } else {
        CompilerGuess::Gcc
    }
}

/// What a scan of boot code has seen so far.
pub ghost struct ScanState {
    /// Whether the scan is inside what looks like a function.
    pub in_function: bool,
    pub branches: int,
    pub jumps: int,
    /// The word index of the first return met, that is the last in the code.
    pub last_return: Option<int>,
}

pub open spec fn initial_scan() -> ScanState {
    ScanState { in_function: false, branches: 0, jumps: 0, last_return: None }
}

/// The instruction a word stands for, decoded or not.
pub open spec fn decoded(w: u32) -> MipsInstruction {
    match decode(w) {
        Ok(i) => i,
        Err(i) => i,
    }
}

/// The conditional branches: those that compare one or two registers.
pub open spec fn is_conditional_branch(i: MipsInstruction) -> bool {
    match i {
        MipsInstruction::beq { .. } | MipsInstruction::bne { .. } | MipsInstruction::beqz { .. }
        | MipsInstruction::bnez { .. } => true,
        _ => false,
    }
}

/// The plain unconditional jump to a fixed address: not a call, and not a
/// jump through a register.
pub open spec fn is_direct_jump(i: MipsInstruction) -> bool {
    i is j
}

fn conditional_branch(i: &MipsInstruction) -> (r: bool)
    ensures
        r == is_conditional_branch(*i),
{
    match i {
        MipsInstruction::beq { .. } | MipsInstruction::bne { .. } | MipsInstruction::beqz { .. }
        | MipsInstruction::bnez { .. } => true,
        _ => false,
    }
}

fn direct_jump(i: &MipsInstruction) -> (r: bool)
    ensures
        r == is_direct_jump(*i),
{
    match i {
        MipsInstruction::j { .. } => true,
        _ => false,
    }
}

/// Whether a word is a return: a jump through the return-address register.
pub open spec fn is_return(w: u32) -> bool {
    decode(w) == Ok::<MipsInstruction, MipsInstruction>(MipsInstruction::jr { rSrc: MipsGpr::ra })
}

/// Whether a word does not decode to an instruction.
pub open spec fn is_not_code(w: u32) -> bool {
    match decode(w) {
        Ok(MipsInstruction::unknown { .. }) => true,
        Ok(_) => false,
        Err(_) => true,
    }
}

/// The scan after word `w` at index `idx`: a return enters a function, a
/// word that does not decode leaves it, and inside a function each
/// conditional branch and each plain jump to a fixed address is counted.
pub open spec fn scan_step(s: ScanState, w: u32, idx: int) -> ScanState {
    let inside = if is_return(w) {
        true
    } else if is_not_code(w) {
        false
    } else {
        s.in_function
    };
    ScanState {
        in_function: inside,
        branches: if inside && is_conditional_branch(decoded(w)) {
            s.branches + 1
        } else {
            s.branches
        },
        jumps: if inside && is_direct_jump(decoded(w)) {
            s.jumps + 1
        } else {
            s.jumps
        },
        last_return: if is_return(w) && s.last_return is None {
            Some(idx)
        } else {
            s.last_return
        },
    }
}

/// The scan of the first `k` words, taken from the last to the first.
pub open spec fn scan_back(words: Seq<u32>, k: int, s: ScanState) -> ScanState
    decreases k,
{
    if k <= 0 {
        s
    } else {
        scan_back(words, k - 1, scan_step(s, words[k - 1], k - 1))
    }
}

/// The counts and the guess from a scan of boot code.
#[derive(Clone, Copy, Debug, PartialEq, Eq, Structural)]
pub struct BootCodeStats {
    /// The word index of the last return in the code, if there is one.
    pub last_return: Option<usize>,
    pub branch_count: usize,
    pub jump_count: usize,
    pub guess: CompilerGuess,
}

/// Guesses the toolchain from the counts of branches and jumps.
pub fn guess_compiler(branches: usize, jumps: usize) -> (r: CompilerGuess)
    ensures
        r == guess_of(branches as int, jumps as int),
        branches + jumps < MIN_EVIDENCE ==> r == CompilerGuess::Undetermined,
{
    if branches < MIN_EVIDENCE && jumps < MIN_EVIDENCE - branches {
        CompilerGuess::Undetermined
    } else if branches > jumps {
        CompilerGuess::Ido
    } else {
        CompilerGuess::Gcc
    }
}

/// Scans boot code from its last word to its first, counting the conditional
/// branches and the plain jumps to fixed addresses inside functions, and guesses
/// the toolchain from them.
pub fn scan_words(words: &Vec<u32>) -> (r: BootCodeStats)
    ensures
        ({
            let s = scan_back(words@, words@.len() as int, initial_scan());
            &&& r.branch_count == s.branches
            &&& r.jump_count == s.jumps
            &&& r.guess == guess_of(s.branches, s.jumps)
            &&& r.last_return == match s.last_return {
                Some(i) => Some(i as usize),
                None => None,
            }
        }),
{
    let n = words.len();
    let mut k: usize = n;
    let mut in_function = false;
    let mut branches: usize = 0;
    let mut jumps: usize = 0;
    let mut last_return: Option<usize> = None;
    while k > 0
        invariant
            n == words@.len(),
            k <= n,
            branches <= n - k,
            jumps <= n - k,
            last_return matches Some(i) ==> i < n,
            scan_back(words@, n as int, initial_scan()) == scan_back(
                words@,
                k as int,
                ScanState {
                    in_function,
                    branches: branches as int,
                    jumps: jumps as int,
                    last_return: match last_return {
                        Some(i) => Some(i as int),
                        None => None,
                    },
                },
            ),
        decreases k,
    {
        let idx = k - 1;
        let w = words[idx];
        let d = disassemble_word(w);
        let instr = match d {
            Ok(i) => i,
            Err(i) => i,
        };
        let ret = match d {
            Ok(MipsInstruction::jr { rSrc: MipsGpr::ra }) => true,
            _ => false,
        };
        let not_code = match d {
            Ok(MipsInstruction::unknown { .. }) => true,
            Ok(_) => false,
            Err(_) => true,
        };
        if ret {
            in_function = true;
            if last_return.is_none() {
                last_return = Some(idx);
            }
        } else if not_code {
            in_function = false;
        }
        if in_function && conditional_branch(&instr) {
            branches = branches + 1;
        }
        if in_function && direct_jump(&instr) {
            jumps = jumps + 1;
        }
        k = idx;
    }
    BootCodeStats {
        last_return,
        branch_count: branches,
        jump_count: jumps,
        guess: guess_compiler(branches, jumps),
    }
}

/// Reads the boot code in `data`, stored in order `endian`, and scans it.
pub fn guess_gcc_or_ido(data: &[u8], endian: &Endian) -> (r: BootCodeStats)
    ensures
        ({
            let s = scan_back(
                words_of(data@, *endian),
                words_of(data@, *endian).len() as int,
                initial_scan(),
            );
            &&& r.branch_count == s.branches
            &&& r.jump_count == s.jumps
            &&& r.guess == guess_of(s.branches, s.jumps)
            &&& r.last_return == match s.last_return {
                Some(i) => Some(i as usize),
                None => None,
            }
        }),
{
    let words = read_words(data, endian);
    scan_words(&words)
}

/// The bytes of boot segment to scan: from the entrypoint up to the BSS
/// start where the BSS lies above the entrypoint, else a whole megabyte.
pub fn classifier_window(bss_start: u32, entrypoint: u32) -> (r: usize)
    ensures
        r == if bss_start > entrypoint {
            (bss_start - entrypoint) as usize
        } else {
            0x10_0000usize
        },
{
    if bss_start > entrypoint {
        (bss_start - entrypoint) as usize
    } else {
        0x10_0000
    }
}

/// The file offset just past the last return of a segment scanned from file
/// offset 0x1000, where the word index `last_return` gives one that fits.
pub fn text_end(last_return: usize) -> (r: Option<usize>)
    ensures
        0x1000 + 4 * (last_return + 1) <= usize::MAX ==> r == Some(
            (0x1000 + 4 * (last_return + 1)) as usize,
        ),
        0x1000 + 4 * (last_return + 1) > usize::MAX ==> r is None,
{
    if last_return <= (usize::MAX - 0x1004) / 4 {
        assert(0x1000 + 4 * (last_return + 1) <= usize::MAX) by (nonlinear_arith)
            requires
                last_return <= (usize::MAX - 0x1004) / 4,
        ;
        Some(0x1000 + 4 * (last_return + 1))
    } else {
        assert(0x1000 + 4 * (last_return + 1) > usize::MAX) by (nonlinear_arith)
            requires
                last_return > (usize::MAX - 0x1004) / 4,
        ;
        None
    }
}

} // verus!
