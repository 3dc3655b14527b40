use vstd::prelude::*;

use crate::mips::{decode, disassemble_word, gpr_at, gpr_index, instr_is_jump, MipsGpr, MipsInstruction};
use crate::n64header::{read_words, words_of, Endian};

verus! {

/// The register file and the registers that the boot code was seen to use,
/// as the analysis knows them after some prefix of the code.
pub ghost struct Tracker {
    /// The value of each register, by register number.
    pub regs: Seq<u32>,
    /// The register of the last jump-register.
    pub jump_reg: MipsGpr,
    /// The first register compared by the last not-equal branch.
    pub size_reg: MipsGpr,
    /// The base register of the last store-word.
    pub ptr_reg: MipsGpr,
    /// Trapping adds of a positive immediate less those of a negative one.
    pub balance: int,
}

/// All registers zero, nothing seen.
pub open spec fn initial_tracker() -> Tracker {
    Tracker {
        regs: Seq::new(32, |i: int| 0u32),
        jump_reg: MipsGpr::zero,
        size_reg: MipsGpr::zero,
        ptr_reg: MipsGpr::zero,
        balance: 0,
    }
}

/// The value of a 16-bit immediate read as two's complement.
pub open spec fn signed_imm(imm: u32) -> int {
    if imm >= 0x8000 {
        imm - 0x1_0000
    } else {
        imm as int
    }
}

/// `u + s` modulo 2^32.
pub open spec fn add_signed(u: u32, s: int) -> u32 {
    if u + s > u32::MAX {
        (u + s - 0x1_0000_0000) as u32
    } else if u + s < 0 {
        (u + s + 0x1_0000_0000) as u32
    } else {
        (u + s) as u32
    }
}

/// Whether the immediates that the analysis reads hold 16 bits, as they do in
/// every decoded instruction.
pub open spec fn imm_fits(i: MipsInstruction) -> bool {
    match i {
        MipsInstruction::lui { imm, .. } => imm < 0x1_0000,
        MipsInstruction::addiu { imm, .. } => imm < 0x1_0000,
        MipsInstruction::ori { imm, .. } => imm < 0x1_0000,
        MipsInstruction::addi { imm, .. } => imm < 0x1_0000,
        _ => true,
    }
}

proof fn lemma_decoded_imm_fits(w: u32)
    ensures
        decode(w) is Ok ==> imm_fits(decode(w)->Ok_0),
{
    crate::mips::lemma_fields_in_range(w);
}

/// `a - b` modulo 2^32.
pub open spec fn sub_mod(a: u32, b: u32) -> u32 {
    if a >= b {
        (a - b) as u32
    } else {
        (a + 0x1_0000_0000 - b) as u32
    }
}

/// The register file after writing `v` to `r`; the zero register keeps zero.
pub open spec fn write_reg(regs: Seq<u32>, r: MipsGpr, v: u32) -> Seq<u32> {
    if r == MipsGpr::zero {
        regs
    } else {
        regs.update(gpr_index(r), v)
    }
}

/// The effect of one instruction on what the analysis knows.
pub open spec fn track_step(t: Tracker, i: MipsInstruction) -> Tracker {
    match i {
        MipsInstruction::lui { rDest, imm } => Tracker {
            regs: write_reg(t.regs, rDest, (imm * 0x1_0000) as u32),
            ..t
        },
        MipsInstruction::addiu { rSrc, rDest, imm } => Tracker {
            regs: write_reg(t.regs, rDest, add_signed(t.regs[gpr_index(rSrc)], signed_imm(imm))),
            ..t
        },
        MipsInstruction::ori { rSrc, rDest, imm } => Tracker {
            regs: write_reg(t.regs, rDest, t.regs[gpr_index(rSrc)] | imm),
            ..t
        },
        MipsInstruction::addi { imm, .. } => Tracker {
            balance: if imm >= 0x8000 {
                t.balance - 1
            } else {
                t.balance + 1
            },
            ..t
        },
        MipsInstruction::sw { rBase, .. } => Tracker { ptr_reg: rBase, ..t },
        MipsInstruction::bne { rCmpL, .. } => Tracker { size_reg: rCmpL, ..t },
        MipsInstruction::bnez { rCmp, .. } => Tracker { size_reg: rCmp, ..t },
        MipsInstruction::jr { rSrc } => Tracker { jump_reg: rSrc, ..t },
        _ => t,
    }
}

/// Whether the analysis stops at word `k` without interpreting it: the
/// second of two zero words in a row, or a word that does not decode.
pub open spec fn halts_at(words: Seq<u32>, k: int) -> bool {
    (words[k] == 0 && k > 0 && words[k - 1] == 0) || match decode(words[k]) {
        Ok(MipsInstruction::unknown { .. }) => true,
        Ok(_) => false,
        Err(_) => true,
    }
}

/// What the analysis knows once it has gone on from word `k` in state `t`.
pub open spec fn track_from(words: Seq<u32>, k: int, t: Tracker) -> Tracker
    decreases words.len() - k,
{
    if k < 0 || k >= words.len() || halts_at(words, k) {
        t
    } else {
        track_from(words, k + 1, track_step(t, decode(words[k])->Ok_0))
    }
}

/// The number of words that the analysis interprets from word `k` on.
pub open spec fn run_length(words: Seq<u32>, k: int) -> int
    decreases words.len() - k,
{
    if k < 0 || k >= words.len() || halts_at(words, k) {
        0
    } else {
        1 + run_length(words, k + 1)
    }
}

/// The facts recovered from boot code.
#[derive(Clone, Copy, Debug, PartialEq, Eq, Structural)]
pub struct EntrypointInfo {
    /// Where the boot code finally jumps.
    pub jump_addr: u32,
    pub bss_start: u32,
    pub bss_size: u32,
    /// The stack pointer that the boot code sets up.
    pub initial_sp: u32,
    /// How many words of code were interpreted.
    pub words_read: usize,
}

/// The jump target, BSS start, BSS size and stack pointer that a final state
/// gives: the BSS starts at its base register, less its size where the
/// trapping adds were on the whole negative.
pub open spec fn facts_of(t: Tracker) -> (u32, u32, u32, u32) {
    let size = t.regs[gpr_index(t.size_reg)];
    let base = t.regs[gpr_index(t.ptr_reg)];
    (
        t.regs[gpr_index(t.jump_reg)],
        if t.balance < 0 {
            sub_mod(base, size)
        } else {
            base
        },
        size,
        t.regs[gpr_index(MipsGpr::sp)],
    )
}

struct RegisterTracker {
    regs: [u32; 32],
    jump_reg: MipsGpr,
    size_reg: MipsGpr,
    ptr_reg: MipsGpr,
    balance: i128,
}

impl RegisterTracker {
    spec fn view(&self) -> Tracker {
        Tracker {
            regs: self.regs@,
            jump_reg: self.jump_reg,
            size_reg: self.size_reg,
            ptr_reg: self.ptr_reg,
            balance: self.balance as int,
        }
    }

    spec fn wf(&self) -> bool {
        self.regs@[0] == 0
    }

    fn new() -> (r: RegisterTracker)
        ensures
            r.view() == initial_tracker(),
            r.wf(),
    {
        let r = RegisterTracker {
            regs: [0u32; 32],
            jump_reg: MipsGpr::zero,
            size_reg: MipsGpr::zero,
            ptr_reg: MipsGpr::zero,
            balance: 0,
        };
        assert(r.regs@ =~= Seq::new(32, |i: int| 0u32));
        r
    }

    fn get(&self, r: MipsGpr) -> (v: u32)
        ensures
            v == self.regs@[gpr_index(r)],
    {
        self.regs[r.index()]
    }

    fn set(&mut self, r: MipsGpr, v: u32)
        requires
            old(self).wf(),
        ensures
            final(self).wf(),
            final(self).view() == (Tracker {
                regs: write_reg(old(self).view().regs, r, v),
                ..old(self).view()
            }),
    {
        if r != MipsGpr::zero {
            self.regs[r.index()] = v;
        }
    }

    fn step(&mut self, instr: &MipsInstruction)
        requires
            old(self).wf(),
            imm_fits(*instr),
            -0x1_0000_0000_0000_0000 < old(self).balance < 0x1_0000_0000_0000_0000,
        ensures
            final(self).wf(),
            final(self).view() == track_step(old(self).view(), *instr),
            -1 <= final(self).balance - old(self).balance <= 1,
    {
        match *instr {
            MipsInstruction::lui { rDest, imm } => {
                self.set(rDest, imm * 0x1_0000);
            },
            MipsInstruction::addiu { rSrc, rDest, imm } => {
                let delta: i32 = if imm >= 0x8000 {
                    imm as i32 - 0x1_0000
                } else {
                    imm as i32
                };
                let v = add_signed_imm(self.get(rSrc), delta);
                self.set(rDest, v);
            },
            MipsInstruction::ori { rSrc, rDest, imm } => {
                let v = self.get(rSrc) | imm;
                self.set(rDest, v);
            },
            MipsInstruction::addi { imm, .. } => {
                if imm >= 0x8000 {
                    self.balance = self.balance - 1;
                } else {
                    self.balance = self.balance + 1;
                }
            },
            MipsInstruction::sw { rBase, .. } => {
                self.ptr_reg = rBase;
            },
            MipsInstruction::bne { rCmpL, .. } => {
                self.size_reg = rCmpL;
            },
            MipsInstruction::bnez { rCmp, .. } => {
                self.size_reg = rCmp;
            },
            MipsInstruction::jr { rSrc } => {
                self.jump_reg = rSrc;
            },
            _ => {},
        }
    }
}

/// `u + s` modulo 2^32.
pub fn add_signed_imm(u: u32, s: i32) -> (r: u32)
    ensures
        r == add_signed(u, s as int),
{
    u.wrapping_add_signed(s)
}

/// Interprets boot code in program order and reads back what it set up.
///
/// The run stops before the second of two zero words in a row, before a
/// word that does not decode, or at the end of the code. Registers start at
/// zero, so a register that the code names but never writes reads back as
/// zero.
pub fn analyze_to_double_nop(words: &Vec<u32>) -> (r: EntrypointInfo)
    ensures
        (r.jump_addr, r.bss_start, r.bss_size, r.initial_sp) == facts_of(
            track_from(words@, 0, initial_tracker()),
        ),
        r.words_read == run_length(words@, 0),
{
    let n = words.len();
    let mut t = RegisterTracker::new();
    let mut k: usize = 0;
    let mut done = false;
    while !done && k < n
        invariant
            n == words@.len(),
            k <= n,
            t.wf(),
            -(k as int) <= t.balance <= k,
            track_from(words@, 0, initial_tracker()) == track_from(words@, k as int, t.view()),
            run_length(words@, 0) == k + run_length(words@, k as int),
            done ==> k < n && halts_at(words@, k as int),
        decreases n - k + if done {
            0int
        } else {
            1
        },
    {
        let w = words[k];
        let again = w == 0 && k > 0 && words[k - 1] == 0;
        let d = disassemble_word(w);
        if again {
            done = true;
        } else {
            match d {
                Ok(MipsInstruction::unknown { .. }) => {
                    done = true;
                },
                Err(_) => {
                    done = true;
                },
                Ok(instr) => {
                    proof {
                        lemma_decoded_imm_fits(w);
                    }
                    t.step(&instr);
                    k = k + 1;
                },
            }
        }
    }
    let size = t.get(t.size_reg);
    let base = t.get(t.ptr_reg);
    let bss_start = if t.balance < 0 {
        base.wrapping_sub(size)
    } else {
        base
    };
    EntrypointInfo {
        jump_addr: t.get(t.jump_reg),
        bss_start,
        bss_size: size,
        initial_sp: t.get(MipsGpr::sp),
        words_read: k,
    }
}

/// Analyses the boot code in `data`, stored in order `endian`, up to the
/// second of two zero words in a row: the jump target, the BSS start, the BSS
/// size and the initial stack pointer.
pub fn parse_to_double_nop(data: &[u8], endian: &Endian) -> (r: (u32, u32, u32, u32))
    ensures
        r == facts_of(track_from(words_of(data@, *endian), 0, initial_tracker())),
{
    let words = read_words(data, endian);
    let info = analyze_to_double_nop(&words);
    (info.jump_addr, info.bss_start, info.bss_size, info.initial_sp)
}

// The delay-slot-aware analysis

/// Which operation last set the low half of a register.
#[derive(Clone, Copy, Debug, PartialEq, Eq, Structural)]
pub enum LowerAddrOp {
    Untouched,
    Addiu,
    Ori,
}

/// What the delay-slot-aware analysis knows after some prefix of the code.
pub ghost struct SlotTracker {
    pub regs: Seq<u32>,
    /// The operation that last set the low half of each register.
    pub ops: Seq<LowerAddrOp>,
    pub jump_reg: MipsGpr,
    /// The target of a register of the last negative trapping add.
    pub size_reg: MipsGpr,
    pub ptr_reg: MipsGpr,
    /// The target of the last jump-and-link or jump-register, when it was taken.
    pub jump_addr: Option<u32>,
    pub jal_found: bool,
    /// The address of the next instruction.
    pub pc: u32,
    /// Trapping adds of a positive immediate less those of a negative one.
    pub balance: int,
}

pub open spec fn initial_slot_tracker(address: u32) -> SlotTracker {
    SlotTracker {
        regs: Seq::new(32, |i: int| 0u32),
        ops: Seq::new(32, |i: int| LowerAddrOp::Untouched),
        jump_reg: MipsGpr::zero,
        size_reg: MipsGpr::zero,
        ptr_reg: MipsGpr::zero,
        jump_addr: None,
        jal_found: false,
        pc: address,
        balance: 0,
    }
}

/// Sets the low half of `r` by `op`, unless `r` is the zero register.
pub open spec fn patch_reg(t: SlotTracker, r: MipsGpr, v: u32, op: LowerAddrOp) -> SlotTracker {
    if r == MipsGpr::zero {
        t
    } else {
        SlotTracker {
            regs: t.regs.update(gpr_index(r), v),
            ops: t.ops.update(gpr_index(r), op),
            ..t
        }
    }
}

/// The effect of one instruction. An add or OR into a register whose low half
/// is already nonzero is skipped: the constant is complete.
pub open spec fn slot_step_effect(t: SlotTracker, i: MipsInstruction) -> SlotTracker {
    match i {
        MipsInstruction::lui { rDest, imm } => SlotTracker {
            regs: write_reg(t.regs, rDest, (imm * 0x1_0000) as u32),
            ..t
        },
        MipsInstruction::addiu { rSrc, rDest, imm } => if t.regs[gpr_index(rDest)] % 0x1_0000
            == 0 {
            patch_reg(
                t,
                rDest,
                add_signed(t.regs[gpr_index(rSrc)], signed_imm(imm)),
                LowerAddrOp::Addiu,
            )
        } else {
            t
        },
        MipsInstruction::ori { rSrc, rDest, imm } => if t.regs[gpr_index(rDest)] % 0x1_0000 == 0 {
            patch_reg(t, rDest, t.regs[gpr_index(rSrc)] | imm, LowerAddrOp::Ori)
        } else {
            t
        },
        MipsInstruction::addi { rDest, imm, .. } => if imm >= 0x8000 {
            SlotTracker { size_reg: rDest, balance: t.balance - 1, ..t }
        } else {
            SlotTracker { balance: t.balance + 1, ..t }
        },
        MipsInstruction::sw { rBase, .. } => SlotTracker { ptr_reg: rBase, ..t },
        MipsInstruction::jal { addr } => SlotTracker {
            jump_addr: Some((t.pc & 0xF000_0000u32) | addr),
            jal_found: true,
            ..t
        },
        MipsInstruction::jr { rSrc } => SlotTracker {
            jump_reg: rSrc,
            jump_addr: Some(t.regs[gpr_index(rSrc)]),
            ..t
        },
        _ => t,
    }
}

/// One instruction, then on to the next address.
pub open spec fn slot_step(t: SlotTracker, i: MipsInstruction) -> SlotTracker {
    let u = slot_step_effect(t, i);
    SlotTracker { pc: add_signed(u.pc, 4), ..u }
}

/// Whether a word does not decode to an instruction.
pub open spec fn undecodable(w: u32) -> bool {
    match decode(w) {
        Ok(MipsInstruction::unknown { .. }) => true,
        Ok(_) => false,
        Err(_) => true,
    }
}

/// Whether a word decodes to a jump.
pub open spec fn is_jump_word(w: u32) -> bool {
    match decode(w) {
        Ok(i) => instr_is_jump(i),
        Err(_) => false,
    }
}

/// The run from word `k` in state `t`: the final state, the number of words
/// interpreted, and for the delay slot of the first jump whether it holds a
/// real instruction (`None` where the code ends, or stops decoding, first).
pub open spec fn slot_run(words: Seq<u32>, k: int, t: SlotTracker) -> (SlotTracker, int, Option<bool>)
    decreases words.len() - k,
{
    if k < 0 || k >= words.len() || undecodable(words[k]) {
        (t, k, None)
    } else if k > 0 && is_jump_word(words[k - 1]) {
        (slot_step(t, decode(words[k])->Ok_0), k + 1, Some(words[k] != 0))
    } else {
        slot_run(words, k + 1, slot_step(t, decode(words[k])->Ok_0))
    }
}

/// The register taken for the BSS size when no negative trapping add named
/// one: the first register from `i` on, other than the jump register, the
/// stack pointer and the BSS pointer, that holds a nonzero value. A value
/// below the BSS start is the size itself, in that register; any other is
/// the end of the BSS, and the size is its distance from the start.
pub open spec fn size_fallback(t: SlotTracker, start: u32, i: int) -> (MipsGpr, u32)
    decreases 32 - i,
{
    if i < 0 || i >= 32 {
        (MipsGpr::zero, 0)
    } else {
        let r = gpr_at(i);
        let v = t.regs[i];
        if r != t.jump_reg && r != MipsGpr::sp && r != t.ptr_reg && v != 0 {
            if v < start {
                (r, v)
            } else {
                (MipsGpr::zero, (v - start) as u32)
            }
        } else {
            size_fallback(t, start, i + 1)
        }
    }
}

/// The BSS size register and BSS size of a final state.
pub open spec fn slot_size(t: SlotTracker) -> (MipsGpr, u32) {
    if t.size_reg == MipsGpr::zero {
        size_fallback(t, t.regs[gpr_index(t.ptr_reg)], 0)
    } else {
        (t.size_reg, t.regs[gpr_index(t.size_reg)])
    }
}

/// The facts that the delay-slot-aware analysis recovers, with where the
/// low halves of the values came from.
#[derive(Clone, Copy, Debug, PartialEq, Eq, Structural)]
pub struct BootReport {
    pub jump_addr: u32,
    pub bss_start: u32,
    pub bss_size: u32,
    pub initial_sp: u32,
    pub sp_op: LowerAddrOp,
    pub bss_start_op: LowerAddrOp,
    pub bss_size_op: LowerAddrOp,
    /// Whether the final jump was a jump-and-link.
    pub jal_found: bool,
    /// Whether the delay slot of the final jump holds a real instruction;
    /// `None` where the code ends, or stops decoding, before it.
    pub delay_slot_used: Option<bool>,
    /// How many words were interpreted, the delay slot included.
    pub words_read: usize,
    /// The bytes of code up to the delay slot of the final jump; zero where
    /// no jump was reached.
    pub length: usize,
}

/// The report that a run gives. The BSS starts at its base register, less
/// its size where the trapping adds were on the whole negative.
pub open spec fn report_of(run: (SlotTracker, int, Option<bool>)) -> BootReport {
    let t = run.0;
    let size = slot_size(t);
    BootReport {
        jump_addr: match t.jump_addr {
            Some(a) => a,
            None => t.regs[gpr_index(t.jump_reg)],
        },
        bss_start: if t.balance < 0 {
            sub_mod(t.regs[gpr_index(t.ptr_reg)], size.1)
        } else {
            t.regs[gpr_index(t.ptr_reg)]
        },
        bss_size: size.1,
        initial_sp: t.regs[gpr_index(MipsGpr::sp)],
        sp_op: t.ops[gpr_index(MipsGpr::sp)],
        bss_start_op: t.ops[gpr_index(t.ptr_reg)],
        bss_size_op: t.ops[gpr_index(size.0)],
        jal_found: t.jal_found,
        delay_slot_used: run.2,
        words_read: run.1 as usize,
        length: if run.2 is Some {
            (4 * (run.1 - 1)) as usize
        } else {
            0
        },
    }
}

struct SlotRegisters {
    regs: [u32; 32],
    ops: [LowerAddrOp; 32],
    jump_reg: MipsGpr,
    size_reg: MipsGpr,
    ptr_reg: MipsGpr,
    jump_addr: Option<u32>,
    jal_found: bool,
    pc: u32,
    balance: i128,
}

impl SlotRegisters {
    spec fn view(&self) -> SlotTracker {
        SlotTracker {
            regs: self.regs@,
            ops: self.ops@,
            jump_reg: self.jump_reg,
            size_reg: self.size_reg,
            ptr_reg: self.ptr_reg,
            jump_addr: self.jump_addr,
            jal_found: self.jal_found,
            pc: self.pc,
            balance: self.balance as int,
        }
    }

    spec fn wf(&self) -> bool {
        &&& self.regs@[0] == 0
        &&& self.ops@[0] == LowerAddrOp::Untouched
    }

    fn new(address: u32) -> (r: SlotRegisters)
        ensures
            r.view() == initial_slot_tracker(address),
            r.wf(),
    {
        let r = SlotRegisters {
            regs: [0u32; 32],
            ops: [LowerAddrOp::Untouched; 32],
            jump_reg: MipsGpr::zero,
            size_reg: MipsGpr::zero,
            ptr_reg: MipsGpr::zero,
            jump_addr: None,
            jal_found: false,
            pc: address,
            balance: 0,
        };
        assert(r.regs@ =~= Seq::new(32, |i: int| 0u32));
        assert(r.ops@ =~= Seq::new(32, |i: int| LowerAddrOp::Untouched));
        r
    }

    fn get(&self, r: MipsGpr) -> (v: u32)
        ensures
            v == self.regs@[gpr_index(r)],
    {
        self.regs[r.index()]
    }

    fn get_op(&self, r: MipsGpr) -> (v: LowerAddrOp)
        ensures
            v == self.ops@[gpr_index(r)],
    {
        self.ops[r.index()]
    }

    fn patch(&mut self, r: MipsGpr, v: u32, op: LowerAddrOp)
        requires
            old(self).wf(),
        ensures
            final(self).wf(),
            final(self).view() == patch_reg(old(self).view(), r, v, op),
    {
        if r != MipsGpr::zero {
            self.regs[r.index()] = v;
            self.ops[r.index()] = op;
        }
    }

    fn step(&mut self, instr: &MipsInstruction)
        requires
            old(self).wf(),
            imm_fits(*instr),
            -0x1_0000_0000_0000_0000 < old(self).balance < 0x1_0000_0000_0000_0000,
        ensures
            final(self).wf(),
            final(self).view() == slot_step(old(self).view(), *instr),
            -1 <= final(self).balance - old(self).balance <= 1,
    {
        match *instr {
            MipsInstruction::lui { rDest, imm } => {
                if rDest != MipsGpr::zero {
                    self.regs[rDest.index()] = imm * 0x1_0000;
                }
            },
            MipsInstruction::addiu { rSrc, rDest, imm } => {
                if self.get(rDest) % 0x1_0000 == 0 {
                    let delta: i32 = if imm >= 0x8000 {
                        imm as i32 - 0x1_0000
                    } else {
                        imm as i32
                    };
                    let v = add_signed_imm(self.get(rSrc), delta);
                    self.patch(rDest, v, LowerAddrOp::Addiu);
                }
            },
            MipsInstruction::ori { rSrc, rDest, imm } => {
                if self.get(rDest) % 0x1_0000 == 0 {
                    let v = self.get(rSrc) | imm;
                    self.patch(rDest, v, LowerAddrOp::Ori);
                }
            },
            MipsInstruction::addi { rDest, imm, .. } => {
                if imm >= 0x8000 {
                    self.size_reg = rDest;
                    self.balance = self.balance - 1;
                } else {
                    self.balance = self.balance + 1;
                }
            },
            MipsInstruction::sw { rBase, .. } => {
                self.ptr_reg = rBase;
            },
            MipsInstruction::jal { addr } => {
                self.jump_addr = Some((self.pc & 0xF000_0000) | addr);
                self.jal_found = true;
            },
            MipsInstruction::jr { rSrc } => {
                self.jump_reg = rSrc;
                self.jump_addr = Some(self.get(rSrc));
            },
            _ => {},
        }
        self.pc = add_signed_imm(self.pc, 4);
    }

    /// The BSS size register and size, by the fallback where needed.
    fn size(&self) -> (r: (MipsGpr, u32))
        ensures
            r == slot_size(self.view()),
    {
        if self.size_reg != MipsGpr::zero {
            return (self.size_reg, self.get(self.size_reg));
        }
        let start = self.get(self.ptr_reg);
        let mut i: u32 = 0;
        while i < 32
            invariant
                i <= 32,
                self.size_reg == MipsGpr::zero,
                start == self.regs@[gpr_index(self.ptr_reg)],
                slot_size(self.view()) == size_fallback(self.view(), start, i as int),
            decreases 32 - i,
        {
            let r = MipsGpr::from_index(i);
            let v = self.regs[i as usize];
            proof {
                crate::mips::lemma_gpr_at_round_trip(i as int);
            }
            if r != self.jump_reg && r != MipsGpr::sp && r != self.ptr_reg && v != 0 {
                if v < start {
                    return (r, v);
                } else {
                    return (MipsGpr::zero, v - start);
                }
            }
            i = i + 1;
        }
        (MipsGpr::zero, 0)
    }
}

/// Interprets boot code from `address` on until the instruction after the
/// first jump, its delay slot, has run, and reads back what it set up.
///
/// The run also ends at the end of the code, or before a word that does not
/// decode.
pub fn analyze_to_delay_slot(words: &Vec<u32>, address: u32) -> (r: BootReport)
    requires
        words@.len() <= usize::MAX / 4,
    ensures
        r == report_of(slot_run(words@, 0, initial_slot_tracker(address))),
{
    let n = words.len();
    let mut t = SlotRegisters::new(address);
    let mut k: usize = 0;
    let mut slot: Option<bool> = None;
    let mut done = false;
    while !done && k < n
        invariant
            n == words@.len(),
            n <= usize::MAX / 4,
            k <= n,
            t.wf(),
            -(k as int) <= t.balance <= k,
            !done ==> slot is None,
            done && slot is Some ==> k > 0,
            !done ==> slot_run(words@, 0, initial_slot_tracker(address)) == slot_run(
                words@,
                k as int,
                t.view(),
            ),
            done ==> slot_run(words@, 0, initial_slot_tracker(address)) == (
                t.view(),
                k as int,
                slot,
            ),
        decreases n - k + if done {
            0int
        } else {
            1
        },
    {
        let w = words[k];
        let d = disassemble_word(w);
        match d {
            Ok(MipsInstruction::unknown { .. }) => {
                done = true;
            },
            Err(_) => {
                done = true;
            },
            Ok(instr) => {
                let after_jump = if k > 0 {
                    match disassemble_word(words[k - 1]) {
                        Ok(p) => p.is_jump(),
                        Err(_) => false,
                    }
                } else {
                    false
                };
                proof {
                    lemma_decoded_imm_fits(w);
                }
                t.step(&instr);
                k = k + 1;
                if after_jump {
                    slot = Some(w != 0);
                    done = true;
                }
            },
        }
    }
    let (size_reg, bss_size) = t.size();
    let base = t.get(t.ptr_reg);
    let bss_start = if t.balance < 0 {
        base.wrapping_sub(bss_size)
    } else {
        base
    };
    let length: usize = if slot.is_some() {
        4 * (k - 1)
    } else {
        0
    };
    BootReport {
        jump_addr: match t.jump_addr {
            Some(a) => a,
            None => t.get(t.jump_reg),
        },
        bss_start,
        bss_size,
        initial_sp: t.get(MipsGpr::sp),
        sp_op: t.get_op(MipsGpr::sp),
        bss_start_op: t.get_op(t.ptr_reg),
        bss_size_op: t.get_op(size_reg),
        jal_found: t.jal_found,
        delay_slot_used: slot,
        words_read: k,
        length,
    }
}

/// Reads the boot code in `data`, stored in order `endian` and loaded at
/// `address`, and analyses it up to the delay slot of its first jump.
pub fn parse_report(data: &[u8], address: u32, endian: &Endian) -> (r: BootReport)
    ensures
        r == report_of(slot_run(words_of(data@, *endian), 0, initial_slot_tracker(address))),
{
    let len = data.len();
    let words = read_words(data, endian);
    assert(words@.len() == len / 4);
    analyze_to_delay_slot(&words, address)
}

/// Analyses the boot code in `data`, stored in order `endian` and loaded at
/// `address`, up to the delay slot of its first jump: the jump target, the
/// BSS start, the BSS size and the initial stack pointer.
pub fn parse(data: &[u8], address: u32, endian: &Endian) -> (r: (u32, u32, u32, u32))
    ensures
        ({
            let rep = report_of(
                slot_run(words_of(data@, *endian), 0, initial_slot_tracker(address)),
            );
            r == (rep.jump_addr, rep.bss_start, rep.bss_size, rep.initial_sp)
        }),
{
    let rep = parse_report(data, address, endian);
    (rep.jump_addr, rep.bss_start, rep.bss_size, rep.initial_sp)
}

} // verus!
