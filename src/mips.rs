use vstd::prelude::*;

verus! {

/// The calling convention a binary was built for.
#[allow(non_camel_case_types)]
pub enum MipsABI {
    o32,
    n32,
    n64,
}

/// Settings of the listing layer: the analysis itself reads none of them.
pub struct MipsConfig {
    pub abi: MipsABI,
    pub instruction_print_width: usize,
}

impl Default for MipsConfig {
    fn default() -> (r: MipsConfig)
        ensures
            r.abi is o32,
            r.instruction_print_width == 10,
    {
        MipsConfig { abi: MipsABI::o32, instruction_print_width: 10 }
    }
}

// Registers

/// The general-purpose registers, in encoding order.
#[allow(non_camel_case_types)]
#[derive(Clone, Copy, Debug, PartialEq, Eq, Structural, Hash)]
pub enum MipsGpr {
    zero,
    at,
    v0,
    v1,
    a0,
    a1,
    a2,
    a3,
    t0,
    t1,
    t2,
    t3,
    t4,
    t5,
    t6,
    t7,
    s0,
    s1,
    s2,
    s3,
    s4,
    s5,
    s6,
    s7,
    t8,
    t9,
    k0,
    k1,
    gp,
    sp,
    fp,
    ra,
}

/// The 5-bit register number that encodes `r`.
pub open spec fn gpr_index(r: MipsGpr) -> int {
    match r {
        MipsGpr::zero => 0,
        MipsGpr::at => 1,
        MipsGpr::v0 => 2,
        MipsGpr::v1 => 3,
        MipsGpr::a0 => 4,
        MipsGpr::a1 => 5,
        MipsGpr::a2 => 6,
        MipsGpr::a3 => 7,
        MipsGpr::t0 => 8,
        MipsGpr::t1 => 9,
        MipsGpr::t2 => 10,
        MipsGpr::t3 => 11,
        MipsGpr::t4 => 12,
        MipsGpr::t5 => 13,
        MipsGpr::t6 => 14,
        MipsGpr::t7 => 15,
        MipsGpr::s0 => 16,
        MipsGpr::s1 => 17,
        MipsGpr::s2 => 18,
        MipsGpr::s3 => 19,
        MipsGpr::s4 => 20,
        MipsGpr::s5 => 21,
        MipsGpr::s6 => 22,
        MipsGpr::s7 => 23,
        MipsGpr::t8 => 24,
        MipsGpr::t9 => 25,
        MipsGpr::k0 => 26,
        MipsGpr::k1 => 27,
        MipsGpr::gp => 28,
        MipsGpr::sp => 29,
        MipsGpr::fp => 30,
        MipsGpr::ra => 31,
    }
}

/// The register encoded by the 5-bit number `i`.
pub open spec fn gpr_at(i: int) -> MipsGpr {
    if i == 0 {
        MipsGpr::zero
    } else if i == 1 {
        MipsGpr::at
    } else if i == 2 {
        MipsGpr::v0
    } else if i == 3 {
        MipsGpr::v1
    } else if i == 4 {
        MipsGpr::a0
    } else if i == 5 {
        MipsGpr::a1
    } else if i == 6 {
        MipsGpr::a2
    } else if i == 7 {
        MipsGpr::a3
    } else if i == 8 {
        MipsGpr::t0
    } else if i == 9 {
        MipsGpr::t1
    } else if i == 10 {
        MipsGpr::t2
    } else if i == 11 {
        MipsGpr::t3
    } else if i == 12 {
        MipsGpr::t4
    } else if i == 13 {
        MipsGpr::t5
    } else if i == 14 {
        MipsGpr::t6
    } else if i == 15 {
        MipsGpr::t7
    } else if i == 16 {
        MipsGpr::s0
    } else if i == 17 {
        MipsGpr::s1
    } else if i == 18 {
        MipsGpr::s2
    } else if i == 19 {
        MipsGpr::s3
    } else if i == 20 {
        MipsGpr::s4
    } else if i == 21 {
        MipsGpr::s5
    } else if i == 22 {
        MipsGpr::s6
    } else if i == 23 {
        MipsGpr::s7
    } else if i == 24 {
        MipsGpr::t8
    } else if i == 25 {
        MipsGpr::t9
    } else if i == 26 {
        MipsGpr::k0
    } else if i == 27 {
        MipsGpr::k1
    } else if i == 28 {
        MipsGpr::gp
    } else if i == 29 {
        MipsGpr::sp
    } else if i == 30 {
        MipsGpr::fp
    } else {
        MipsGpr::ra
    }
}

/// The conventional assembler name of a register.
pub open spec fn gpr_name(r: MipsGpr) -> Seq<char> {
    match r {
        MipsGpr::zero => "zero"@,
        MipsGpr::at => "at"@,
        MipsGpr::v0 => "v0"@,
        MipsGpr::v1 => "v1"@,
        MipsGpr::a0 => "a0"@,
        MipsGpr::a1 => "a1"@,
        MipsGpr::a2 => "a2"@,
        MipsGpr::a3 => "a3"@,
        MipsGpr::t0 => "t0"@,
        MipsGpr::t1 => "t1"@,
        MipsGpr::t2 => "t2"@,
        MipsGpr::t3 => "t3"@,
        MipsGpr::t4 => "t4"@,
        MipsGpr::t5 => "t5"@,
        MipsGpr::t6 => "t6"@,
        MipsGpr::t7 => "t7"@,
        MipsGpr::s0 => "s0"@,
        MipsGpr::s1 => "s1"@,
        MipsGpr::s2 => "s2"@,
        MipsGpr::s3 => "s3"@,
        MipsGpr::s4 => "s4"@,
        MipsGpr::s5 => "s5"@,
        MipsGpr::s6 => "s6"@,
        MipsGpr::s7 => "s7"@,
        MipsGpr::t8 => "t8"@,
        MipsGpr::t9 => "t9"@,
        MipsGpr::k0 => "k0"@,
        MipsGpr::k1 => "k1"@,
        MipsGpr::gp => "gp"@,
        MipsGpr::sp => "sp"@,
        MipsGpr::fp => "fp"@,
        MipsGpr::ra => "ra"@,
    }
}

/// Whether the o32 convention lets a called function overwrite the register.
pub open spec fn gpr_clobbered(r: MipsGpr) -> bool {
    match r {
        MipsGpr::zero => false,
        MipsGpr::s0 => false,
        MipsGpr::s1 => false,
        MipsGpr::s2 => false,
        MipsGpr::s3 => false,
        MipsGpr::s4 => false,
        MipsGpr::s5 => false,
        MipsGpr::s6 => false,
        MipsGpr::s7 => false,
        MipsGpr::k0 => false,
        MipsGpr::k1 => false,
        MipsGpr::gp => false,
        MipsGpr::ra => false,
        _ => true,
    }
}

pub proof fn lemma_gpr_at_round_trip(i: int)
    requires
        0 <= i < 32,
    ensures
        gpr_index(gpr_at(i)) == i,
{
}

struct RegisterInfo {
    name: &'static str,
    clobbered_by_func: bool,
}

impl RegisterInfo {
    fn new(name: &'static str, clobbered_by_func: bool) -> (r: RegisterInfo)
        ensures
            r.name == name,
            r.clobbered_by_func == clobbered_by_func,
    {
        RegisterInfo { name, clobbered_by_func }
    }
}

impl MipsGpr {
    fn register_info(self) -> (r: RegisterInfo)
        ensures
            r.name@ == gpr_name(self),
            r.clobbered_by_func == gpr_clobbered(self),
    {
        match self {
            MipsGpr::zero => RegisterInfo::new("zero", false),
            MipsGpr::at => RegisterInfo::new("at", true),
            MipsGpr::v0 => RegisterInfo::new("v0", true),
            MipsGpr::v1 => RegisterInfo::new("v1", true),
            MipsGpr::a0 => RegisterInfo::new("a0", true),
            MipsGpr::a1 => RegisterInfo::new("a1", true),
            MipsGpr::a2 => RegisterInfo::new("a2", true),
            MipsGpr::a3 => RegisterInfo::new("a3", true),
            MipsGpr::t0 => RegisterInfo::new("t0", true),
            MipsGpr::t1 => RegisterInfo::new("t1", true),
            MipsGpr::t2 => RegisterInfo::new("t2", true),
            MipsGpr::t3 => RegisterInfo::new("t3", true),
            MipsGpr::t4 => RegisterInfo::new("t4", true),
            MipsGpr::t5 => RegisterInfo::new("t5", true),
            MipsGpr::t6 => RegisterInfo::new("t6", true),
            MipsGpr::t7 => RegisterInfo::new("t7", true),
            MipsGpr::s0 => RegisterInfo::new("s0", false),
            MipsGpr::s1 => RegisterInfo::new("s1", false),
            MipsGpr::s2 => RegisterInfo::new("s2", false),
            MipsGpr::s3 => RegisterInfo::new("s3", false),
            MipsGpr::s4 => RegisterInfo::new("s4", false),
            MipsGpr::s5 => RegisterInfo::new("s5", false),
            MipsGpr::s6 => RegisterInfo::new("s6", false),
            MipsGpr::s7 => RegisterInfo::new("s7", false),
            MipsGpr::t8 => RegisterInfo::new("t8", true),
            MipsGpr::t9 => RegisterInfo::new("t9", true),
            MipsGpr::k0 => RegisterInfo::new("k0", false),
            MipsGpr::k1 => RegisterInfo::new("k1", false),
            MipsGpr::gp => RegisterInfo::new("gp", false),
            MipsGpr::sp => RegisterInfo::new("sp", true),
            MipsGpr::fp => RegisterInfo::new("fp", true),
            MipsGpr::ra => RegisterInfo::new("ra", false),
        }
    }

    pub fn name(self) -> (r: &'static str)
        ensures
            r@ == gpr_name(self),
    {
        self.register_info().name
    }

    pub fn clobbered_by_func(self) -> (r: bool)
        ensures
            r == gpr_clobbered(self),
    {
        self.register_info().clobbered_by_func
    }

    /// The register's 5-bit number.
    pub fn index(self) -> (r: usize)
        ensures
            r == gpr_index(self),
    {
        match self {
            MipsGpr::zero => 0,
            MipsGpr::at => 1,
            MipsGpr::v0 => 2,
            MipsGpr::v1 => 3,
            MipsGpr::a0 => 4,
            MipsGpr::a1 => 5,
            MipsGpr::a2 => 6,
            MipsGpr::a3 => 7,
            MipsGpr::t0 => 8,
            MipsGpr::t1 => 9,
            MipsGpr::t2 => 10,
            MipsGpr::t3 => 11,
            MipsGpr::t4 => 12,
            MipsGpr::t5 => 13,
            MipsGpr::t6 => 14,
            MipsGpr::t7 => 15,
            MipsGpr::s0 => 16,
            MipsGpr::s1 => 17,
            MipsGpr::s2 => 18,
            MipsGpr::s3 => 19,
            MipsGpr::s4 => 20,
            MipsGpr::s5 => 21,
            MipsGpr::s6 => 22,
            MipsGpr::s7 => 23,
            MipsGpr::t8 => 24,
            MipsGpr::t9 => 25,
            MipsGpr::k0 => 26,
            MipsGpr::k1 => 27,
            MipsGpr::gp => 28,
            MipsGpr::sp => 29,
            MipsGpr::fp => 30,
            MipsGpr::ra => 31,
        }
    }

    /// The register whose number is `i`.
    pub fn from_index(i: u32) -> (r: MipsGpr)
        requires
            i < 32,
        ensures
            r == gpr_at(i as int),
    {
        if i == 0 {
            MipsGpr::zero
        } else if i == 1 {
            MipsGpr::at
        } else if i == 2 {
            MipsGpr::v0
        } else if i == 3 {
            MipsGpr::v1
        } else if i == 4 {
            MipsGpr::a0
        } else if i == 5 {
            MipsGpr::a1
        } else if i == 6 {
            MipsGpr::a2
        } else if i == 7 {
            MipsGpr::a3
        } else if i == 8 {
            MipsGpr::t0
        } else if i == 9 {
            MipsGpr::t1
        } else if i == 10 {
            MipsGpr::t2
        } else if i == 11 {
            MipsGpr::t3
        } else if i == 12 {
            MipsGpr::t4
        } else if i == 13 {
            MipsGpr::t5
        } else if i == 14 {
            MipsGpr::t6
        } else if i == 15 {
            MipsGpr::t7
        } else if i == 16 {
            MipsGpr::s0
        } else if i == 17 {
            MipsGpr::s1
        } else if i == 18 {
            MipsGpr::s2
        } else if i == 19 {
            MipsGpr::s3
        } else if i == 20 {
            MipsGpr::s4
        } else if i == 21 {
            MipsGpr::s5
        } else if i == 22 {
            MipsGpr::s6
        } else if i == 23 {
            MipsGpr::s7
        } else if i == 24 {
            MipsGpr::t8
        } else if i == 25 {
            MipsGpr::t9
        } else if i == 26 {
            MipsGpr::k0
        } else if i == 27 {
            MipsGpr::k1
        } else if i == 28 {
            MipsGpr::gp
        } else if i == 29 {
            MipsGpr::sp
        } else if i == 30 {
            MipsGpr::fp
        } else {
            MipsGpr::ra
        }
    }
}

// Binary to instruction

enum MipsInstructionFormat {
    Special,
    Regimm,
    J,
    I,
}

/// The primary opcodes that the decoder knows.
#[allow(non_camel_case_types)]
#[derive(Clone, Copy, Debug, PartialEq, Eq, Structural)]
pub enum MipsCPUOp {
    special,
    regimm,
    j,
    jal,
    beq,
    bne,
    addi,
    addiu,
    ori,
    lui,
    sw,
}

/// The 6-bit value of an opcode.
pub open spec fn op_value(op: MipsCPUOp) -> u32 {
    match op {
        MipsCPUOp::special => 0b000_000,
        MipsCPUOp::regimm => 0b000_001,
        MipsCPUOp::j => 0b000_010,
        MipsCPUOp::jal => 0b000_011,
        MipsCPUOp::beq => 0b000_100,
        MipsCPUOp::bne => 0b000_101,
        MipsCPUOp::addi => 0b001_000,
        MipsCPUOp::addiu => 0b001_001,
        MipsCPUOp::ori => 0b001_101,
        MipsCPUOp::lui => 0b001_111,
        MipsCPUOp::sw => 0b101_011,
    }
}

/// The primary opcodes.
pub const OP_SPECIAL: u32 = 0b000_000;
pub const OP_J: u32 = 0b000_010;
pub const OP_JAL: u32 = 0b000_011;
pub const OP_BEQ: u32 = 0b000_100;
pub const OP_BNE: u32 = 0b000_101;
pub const OP_ADDI: u32 = 0b001_000;
pub const OP_ADDIU: u32 = 0b001_001;
pub const OP_ORI: u32 = 0b001_101;
pub const OP_LUI: u32 = 0b001_111;
pub const OP_SW: u32 = 0b101_011;

/// The function code of "jump register" in the register format.
pub const FUNC_JR: u32 = 0b001_000;

impl MipsCPUOp {
    /// The opcode whose value is `opcode`, if the decoder knows it.
    pub fn from_opcode(opcode: u32) -> (r: Option<MipsCPUOp>)
        ensures
            r matches Some(op) ==> op_value(op) == opcode,
            r is None ==> opcode != OP_SPECIAL && opcode != 0b000_001 && opcode != OP_J && opcode
                != OP_JAL && opcode != OP_BEQ && opcode != OP_BNE && opcode != OP_ADDI && opcode
                != OP_ADDIU && opcode != OP_ORI && opcode != OP_LUI && opcode != OP_SW,
    {
        if opcode == 0b000_000 {
            Some(MipsCPUOp::special)
        } else if opcode == 0b000_001 {
            Some(MipsCPUOp::regimm)
        } else if opcode == 0b000_010 {
            Some(MipsCPUOp::j)
        } else if opcode == 0b000_011 {
            Some(MipsCPUOp::jal)
        } else if opcode == 0b000_100 {
            Some(MipsCPUOp::beq)
        } else if opcode == 0b000_101 {
            Some(MipsCPUOp::bne)
        } else if opcode == 0b001_000 {
            Some(MipsCPUOp::addi)
        } else if opcode == 0b001_001 {
            Some(MipsCPUOp::addiu)
        } else if opcode == 0b001_101 {
            Some(MipsCPUOp::ori)
        } else if opcode == 0b001_111 {
            Some(MipsCPUOp::lui)
        } else if opcode == 0b101_011 {
            Some(MipsCPUOp::sw)
        } else {
            None
        }
    }

    fn instruction_format(&self) -> (r: MipsInstructionFormat)
        ensures
            r is Special <==> *self == MipsCPUOp::special,
            r is Regimm <==> *self == MipsCPUOp::regimm,
            r is J <==> (*self == MipsCPUOp::j || *self == MipsCPUOp::jal),
    {
        match self {
            MipsCPUOp::special => MipsInstructionFormat::Special,
            MipsCPUOp::regimm => MipsInstructionFormat::Regimm,
            MipsCPUOp::j => MipsInstructionFormat::J,
            MipsCPUOp::jal => MipsInstructionFormat::J,
            MipsCPUOp::beq => MipsInstructionFormat::I,
            MipsCPUOp::bne => MipsInstructionFormat::I,
            MipsCPUOp::addi => MipsInstructionFormat::I,
            MipsCPUOp::addiu => MipsInstructionFormat::I,
            MipsCPUOp::ori => MipsInstructionFormat::I,
            MipsCPUOp::lui => MipsInstructionFormat::I,
            MipsCPUOp::sw => MipsInstructionFormat::I,
        }
    }
}

// Instruction information

/// A decoded instruction. Immediates and offsets are held as the raw 16-bit
/// field; jump addresses as the 26-bit field shifted left by two.
#[allow(non_camel_case_types, non_snake_case)]
#[derive(Clone, Copy, Debug, PartialEq, Eq, Structural, Hash)]
pub enum MipsInstruction {
    j { addr: u32 },
    jal { addr: u32 },
    beq { rCmpL: MipsGpr, rCmpR: MipsGpr, offset: u32 },
    bne { rCmpL: MipsGpr, rCmpR: MipsGpr, offset: u32 },
    addi { rSrc: MipsGpr, rDest: MipsGpr, imm: u32 },
    addiu { rSrc: MipsGpr, rDest: MipsGpr, imm: u32 },
    ori { rSrc: MipsGpr, rDest: MipsGpr, imm: u32 },
    lui { rDest: MipsGpr, imm: u32 },
    sw { rBase: MipsGpr, rSrc: MipsGpr, offset: u32 },
    jr { rSrc: MipsGpr },
    // Pseudo-instructions
    b { offset: u32 },
    beqz { rCmp: MipsGpr, offset: u32 },
    bnez { rCmp: MipsGpr, offset: u32 },
    nop,
    // Words that do not decode
    unknown { opcode: u32, word: u32 },
    invalid { opcode: u32, word: u32 },
}

/// The mnemonic shown for an instruction.
pub open spec fn instr_name(i: MipsInstruction) -> Seq<char> {
    match i {
        MipsInstruction::j { .. } => "j"@,
        MipsInstruction::jal { .. } => "jal"@,
        MipsInstruction::beq { .. } => "beq"@,
        MipsInstruction::bne { .. } => "bne"@,
        MipsInstruction::addi { .. } => "addi"@,
        MipsInstruction::addiu { .. } => "addiu"@,
        MipsInstruction::ori { .. } => "ori"@,
        MipsInstruction::lui { .. } => "lui"@,
        MipsInstruction::sw { .. } => "sw"@,
        MipsInstruction::jr { .. } => "jr"@,
        MipsInstruction::b { .. } => "b"@,
        MipsInstruction::beqz { .. } => "beqz"@,
        MipsInstruction::bnez { .. } => "bnez"@,
        MipsInstruction::nop => "nop"@,
        MipsInstruction::unknown { .. } => "unknown"@,
        MipsInstruction::invalid { .. } => "invalid instruction"@,
    }
}

/// The conditional and unconditional branches, real and pseudo.
pub open spec fn instr_is_branch(i: MipsInstruction) -> bool {
    match i {
        MipsInstruction::beq { .. } | MipsInstruction::bne { .. } | MipsInstruction::b { .. }
        | MipsInstruction::beqz { .. } | MipsInstruction::bnez { .. } => true,
        _ => false,
    }
}

/// The jumps: to a fixed address, with link, and through a register.
pub open spec fn instr_is_jump(i: MipsInstruction) -> bool {
    match i {
        MipsInstruction::j { .. } | MipsInstruction::jal { .. } | MipsInstruction::jr { .. } => true,
        _ => false,
    }
}

struct MipsInstructionInfo {
    name: &'static str,
    is_branch: bool,
    is_jump: bool,
}

impl MipsInstructionInfo {
    fn new(name: &'static str, is_branch: bool, is_jump: bool) -> (r: Self)
        ensures
            r.name == name,
            r.is_branch == is_branch,
            r.is_jump == is_jump,
    {
        MipsInstructionInfo { name, is_branch, is_jump }
    }
}

impl MipsInstruction {
    fn instruction_info(&self) -> (r: MipsInstructionInfo)
        ensures
            r.name@ == instr_name(*self),
            r.is_branch == instr_is_branch(*self),
            r.is_jump == instr_is_jump(*self),
    {
        let info = MipsInstructionInfo::new;
        match self {
            MipsInstruction::j { .. } => info("j", false, true),
            MipsInstruction::jal { .. } => info("jal", false, true),
            MipsInstruction::beq { .. } => info("beq", true, false),
            MipsInstruction::bne { .. } => info("bne", true, false),
            MipsInstruction::addi { .. } => info("addi", false, false),
            MipsInstruction::addiu { .. } => info("addiu", false, false),
            MipsInstruction::ori { .. } => info("ori", false, false),
            MipsInstruction::lui { .. } => info("lui", false, false),
            MipsInstruction::sw { .. } => info("sw", false, false),
            MipsInstruction::jr { .. } => info("jr", false, true),
            MipsInstruction::b { .. } => info("b", true, false),
            MipsInstruction::beqz { .. } => info("beqz", true, false),
            MipsInstruction::bnez { .. } => info("bnez", true, false),
            MipsInstruction::nop => info("nop", false, false),
            MipsInstruction::unknown { .. } => info("unknown", false, false),
            MipsInstruction::invalid { .. } => info("invalid instruction", false, false),
        }
    }

    pub fn name(&self) -> (r: &'static str)
        ensures
            r@ == instr_name(*self),
    {
        self.instruction_info().name
    }

    pub fn is_branch(&self) -> (r: bool)
        ensures
            r == instr_is_branch(*self),
    {
        self.instruction_info().is_branch
    }

    pub fn is_jump(&self) -> (r: bool)
        ensures
            r == instr_is_jump(*self),
    {
        self.instruction_info().is_jump
    }

    /// Whether the next instruction runs before this one takes effect.
    pub fn has_delay_slot(&self) -> (r: bool)
        ensures
            r == (instr_is_branch(*self) || instr_is_jump(*self)),
    {
        self.is_branch() || self.is_jump()
    }
}

// Disassembly

/// Bits 31..26: the primary opcode.
pub open spec fn opcode_of(w: u32) -> u32 {
    w >> 26u32
}

/// Bits 25..21: the first register field.
pub open spec fn rs_of(w: u32) -> u32 {
    (w >> 21u32) & 0x1Fu32
}

/// Bits 20..16: the second register field.
pub open spec fn rt_of(w: u32) -> u32 {
    (w >> 16u32) & 0x1Fu32
}

/// Bits 15..11: the third register field.
pub open spec fn rd_of(w: u32) -> u32 {
    (w >> 11u32) & 0x1Fu32
}

/// Bits 5..0: the function code of the register format.
pub open spec fn funct_of(w: u32) -> u32 {
    w & 0x3Fu32
}

/// Bits 15..0: the immediate.
pub open spec fn imm_of(w: u32) -> u32 {
    w & 0xFFFFu32
}

/// Bits 25..0 as a byte address.
pub open spec fn target_of(w: u32) -> u32 {
    (w & 0x3FF_FFFFu32) << 2u32
}

/// What a word decodes to: `Ok` with an instruction, a pseudo-instruction or
/// `unknown` for an opcode or function code outside the supported set, `Err`
/// with `invalid` where a field that must be zero is not.
pub open spec fn decode(w: u32) -> Result<MipsInstruction, MipsInstruction> {
    let op = opcode_of(w);
    let rs = gpr_at(rs_of(w) as int);
    let rt = gpr_at(rt_of(w) as int);
    let imm = imm_of(w);
    if w == 0 {
        Ok(MipsInstruction::nop)
    } else if op == OP_SPECIAL {
        if funct_of(w) != FUNC_JR {
            Ok(MipsInstruction::unknown { opcode: op, word: w })
        } else if rt_of(w) == 0 && rd_of(w) == 0 {
            Ok(MipsInstruction::jr { rSrc: rs })
        } else {
            Err(MipsInstruction::invalid { opcode: op, word: w })
        }
    } else if op == OP_J {
        Ok(MipsInstruction::j { addr: target_of(w) })
    } else if op == OP_JAL {
        Ok(MipsInstruction::jal { addr: target_of(w) })
    } else if op == OP_BEQ {
        if rt_of(w) != 0 {
            Ok(MipsInstruction::beq { rCmpL: rs, rCmpR: rt, offset: imm })
        } else if rs_of(w) != 0 {
            Ok(MipsInstruction::beqz { rCmp: rs, offset: imm })
        } else {
            Ok(MipsInstruction::b { offset: imm })
        }
    } else if op == OP_BNE {
        if rt_of(w) != 0 {
            Ok(MipsInstruction::bne { rCmpL: rs, rCmpR: rt, offset: imm })
        } else {
            Ok(MipsInstruction::bnez { rCmp: rs, offset: imm })
        }
    } else if op == OP_ADDI {
        Ok(MipsInstruction::addi { rSrc: rs, rDest: rt, imm })
    } else if op == OP_ADDIU {
        Ok(MipsInstruction::addiu { rSrc: rs, rDest: rt, imm })
    } else if op == OP_ORI {
        Ok(MipsInstruction::ori { rSrc: rs, rDest: rt, imm })
    } else if op == OP_LUI {
        if rs_of(w) == 0 {
            Ok(MipsInstruction::lui { rDest: rt, imm })
        } else {
            Err(MipsInstruction::invalid { opcode: op, word: w })
        }
    } else if op == OP_SW {
        Ok(MipsInstruction::sw { rBase: rs, rSrc: rt, offset: imm })
    } else {
        Ok(MipsInstruction::unknown { opcode: op, word: w })
    }
}

pub proof fn lemma_fields_in_range(w: u32)
    ensures
        opcode_of(w) < 64,
        rs_of(w) < 32,
        rt_of(w) < 32,
        rd_of(w) < 32,
        funct_of(w) < 64,
        imm_of(w) < 0x1_0000,
        w == 0 ==> opcode_of(w) == 0,
{
    assert(opcode_of(w) < 64 && rs_of(w) < 32 && rt_of(w) < 32 && rd_of(w) < 32 && funct_of(w)
        < 64 && imm_of(w) < 0x1_0000 && (w == 0 ==> opcode_of(w) == 0)) by (bit_vector);
}

/// Decodes one word in canonical (big-endian) order.
pub fn disassemble_word(word: u32) -> (r: Result<MipsInstruction, MipsInstruction>)
    ensures
        r == decode(word),
        word == 0 ==> r == Ok::<MipsInstruction, MipsInstruction>(MipsInstruction::nop),
{
    proof {
        lemma_fields_in_range(word);
    }
    let opcode: u32 = word >> 26;
    let opname = MipsCPUOp::from_opcode(opcode);
    let opname = match opname {
        Some(op) => op,
        None => {
            return Ok(MipsInstruction::unknown { opcode, word });
        },
    };
    let opform = opname.instruction_format();

    if word == 0 {
        return Ok(MipsInstruction::nop);
    }
    match opform {
        MipsInstructionFormat::Special => {
            let funccode: u32 = word & 0x3F;
            let rs_idx: u32 = (word >> 21) & 0x1F;
            let rt_idx: u32 = (word >> 16) & 0x1F;
            let rd_idx: u32 = (word >> 11) & 0x1F;
            if funccode != FUNC_JR {
                return Ok(MipsInstruction::unknown { opcode, word });
            }
            if rt_idx == 0 && rd_idx == 0 {
                Ok(MipsInstruction::jr { rSrc: MipsGpr::from_index(rs_idx) })
            } else {
                Err(MipsInstruction::invalid { opcode, word })
            }
        },
        MipsInstructionFormat::I => {
            let rs_idx: u32 = (word >> 21) & 0x1F;
            let rt_idx: u32 = (word >> 16) & 0x1F;
            let rs = MipsGpr::from_index(rs_idx);
            let rt = MipsGpr::from_index(rt_idx);
            let imm: u32 = word & 0xFFFF;
            match opname {
                MipsCPUOp::addi => Ok(MipsInstruction::addi { rSrc: rs, rDest: rt, imm }),
                MipsCPUOp::addiu => Ok(MipsInstruction::addiu { rSrc: rs, rDest: rt, imm }),
                MipsCPUOp::ori => Ok(MipsInstruction::ori { rSrc: rs, rDest: rt, imm }),
                MipsCPUOp::sw => Ok(MipsInstruction::sw { rBase: rs, rSrc: rt, offset: imm }),
                MipsCPUOp::lui => {
                    if rs_idx == 0 {
                        Ok(MipsInstruction::lui { rDest: rt, imm })
                    } else {
                        Err(MipsInstruction::invalid { opcode, word })
                    }
                },
                MipsCPUOp::beq => {
                    if rt_idx == 0 {
                        if rs_idx == 0 {
                            Ok(MipsInstruction::b { offset: imm })
                        } else {
                            Ok(MipsInstruction::beqz { rCmp: rs, offset: imm })
                        }
                    } else {
                        Ok(MipsInstruction::beq { rCmpL: rs, rCmpR: rt, offset: imm })
                    }
                },
                MipsCPUOp::bne => {
                    if rt_idx == 0 {
                        Ok(MipsInstruction::bnez { rCmp: rs, offset: imm })
                    } else {
                        Ok(MipsInstruction::bne { rCmpL: rs, rCmpR: rt, offset: imm })
                    }
                },
                _ => Ok(MipsInstruction::unknown { opcode, word }),
            }
        },
        MipsInstructionFormat::J => {
            let addr: u32 = (word & 0x3FF_FFFF) << 2;
            match opname {
                MipsCPUOp::j => Ok(MipsInstruction::j { addr }),
                _ => Ok(MipsInstruction::jal { addr }),
            }
        },
        MipsInstructionFormat::Regimm => Ok(MipsInstruction::unknown { opcode, word }),
    }
}

/// The word of the immediate format with the given fields.
pub open spec fn encode_immediate(op: u32, rs: u32, rt: u32, imm: u32) -> u32 {
    (op << 26u32) | (rs << 21u32) | (rt << 16u32) | imm
}

/// The word of the jump format with the given opcode and 26-bit field.
pub open spec fn encode_jump(op: u32, target: u32) -> u32 {
    (op << 26u32) | target
}

/// The word of the register format with the given fields.
pub open spec fn encode_register(rs: u32, rt: u32, rd: u32, funct: u32) -> u32 {
    (rs << 21u32) | (rt << 16u32) | (rd << 11u32) | funct
}

proof fn lemma_immediate_fields(op: u32, rs: u32, rt: u32, imm: u32)
    requires
        0 < op < 64,
        rs < 32,
        rt < 32,
        imm < 0x1_0000,
    ensures
        opcode_of(encode_immediate(op, rs, rt, imm)) == op,
        rs_of(encode_immediate(op, rs, rt, imm)) == rs,
        rt_of(encode_immediate(op, rs, rt, imm)) == rt,
        imm_of(encode_immediate(op, rs, rt, imm)) == imm,
        encode_immediate(op, rs, rt, imm) != 0,
{
    assert(opcode_of(encode_immediate(op, rs, rt, imm)) == op && rs_of(
        encode_immediate(op, rs, rt, imm),
    ) == rs && rt_of(encode_immediate(op, rs, rt, imm)) == rt && imm_of(
        encode_immediate(op, rs, rt, imm),
    ) == imm && encode_immediate(op, rs, rt, imm) != 0) by (bit_vector)
        requires
            0 < op < 64,
            rs < 32,
            rt < 32,
            imm < 0x1_0000,
    ;
}

proof fn lemma_register_fields(rs: u32, rt: u32, rd: u32, funct: u32)
    requires
        rs < 32,
        rt < 32,
        rd < 32,
        0 < funct < 64,
    ensures
        opcode_of(encode_register(rs, rt, rd, funct)) == 0,
        rs_of(encode_register(rs, rt, rd, funct)) == rs,
        rt_of(encode_register(rs, rt, rd, funct)) == rt,
        rd_of(encode_register(rs, rt, rd, funct)) == rd,
        funct_of(encode_register(rs, rt, rd, funct)) == funct,
        encode_register(rs, rt, rd, funct) != 0,
{
    assert(opcode_of(encode_register(rs, rt, rd, funct)) == 0 && rs_of(
        encode_register(rs, rt, rd, funct),
    ) == rs && rt_of(encode_register(rs, rt, rd, funct)) == rt && rd_of(
        encode_register(rs, rt, rd, funct),
    ) == rd && funct_of(encode_register(rs, rt, rd, funct)) == funct && encode_register(
        rs,
        rt,
        rd,
        funct,
    ) != 0) by (bit_vector)
        requires
            rs < 32,
            rt < 32,
            rd < 32,
            0 < funct < 64,
    ;
}

/// A word built from an opcode of the immediate format and known fields
/// decodes to that instruction with exactly those fields.
pub proof fn lemma_decode_immediate_round_trip(op: u32, rs: u32, rt: u32, imm: u32)
    requires
        rs < 32,
        rt < 32,
        imm < 0x1_0000,
    ensures
        op == OP_ADDI ==> decode(encode_immediate(op, rs, rt, imm)) == Ok::<
            MipsInstruction,
            MipsInstruction,
        >(MipsInstruction::addi { rSrc: gpr_at(rs as int), rDest: gpr_at(rt as int), imm }),
        op == OP_ADDIU ==> decode(encode_immediate(op, rs, rt, imm)) == Ok::<
            MipsInstruction,
            MipsInstruction,
        >(MipsInstruction::addiu { rSrc: gpr_at(rs as int), rDest: gpr_at(rt as int), imm }),
        op == OP_ORI ==> decode(encode_immediate(op, rs, rt, imm)) == Ok::<
            MipsInstruction,
            MipsInstruction,
        >(MipsInstruction::ori { rSrc: gpr_at(rs as int), rDest: gpr_at(rt as int), imm }),
        op == OP_SW ==> decode(encode_immediate(op, rs, rt, imm)) == Ok::<
            MipsInstruction,
            MipsInstruction,
        >(MipsInstruction::sw { rBase: gpr_at(rs as int), rSrc: gpr_at(rt as int), offset: imm }),
        op == OP_LUI && rs == 0 ==> decode(encode_immediate(op, rs, rt, imm)) == Ok::<
            MipsInstruction,
            MipsInstruction,
        >(MipsInstruction::lui { rDest: gpr_at(rt as int), imm }),
        op == OP_BEQ && rt != 0 ==> decode(encode_immediate(op, rs, rt, imm)) == Ok::<
            MipsInstruction,
            MipsInstruction,
        >(
            MipsInstruction::beq {
                rCmpL: gpr_at(rs as int),
                rCmpR: gpr_at(rt as int),
                offset: imm,
            },
        ),
        op == OP_BNE && rt != 0 ==> decode(encode_immediate(op, rs, rt, imm)) == Ok::<
            MipsInstruction,
            MipsInstruction,
        >(
            MipsInstruction::bne {
                rCmpL: gpr_at(rs as int),
                rCmpR: gpr_at(rt as int),
                offset: imm,
            },
        ),
{
    if 0 < op < 64 {
        lemma_immediate_fields(op, rs, rt, imm);
    }
}

/// A jump word decodes to its jump with the 26-bit field scaled to bytes.
pub proof fn lemma_decode_jump_round_trip(op: u32, target: u32)
    requires
        op == OP_J || op == OP_JAL,
        target < 0x400_0000,
    ensures
        op == OP_J ==> decode(encode_jump(op, target)) == Ok::<MipsInstruction, MipsInstruction>(
            MipsInstruction::j { addr: (target * 4) as u32 },
        ),
        op == OP_JAL ==> decode(encode_jump(op, target)) == Ok::<MipsInstruction, MipsInstruction>(
            MipsInstruction::jal { addr: (target * 4) as u32 },
        ),
{
    assert(opcode_of(encode_jump(op, target)) == op && target_of(encode_jump(op, target)) == (
    target * 4) as u32 && encode_jump(op, target) != 0) by (bit_vector)
        requires
            op == 2 || op == 3,
            target < 0x400_0000,
    ;
}

/// A jump-register word whose other register fields are zero decodes to it.
pub proof fn lemma_decode_jr_round_trip(rs: u32)
    requires
        rs < 32,
    ensures
        decode(encode_register(rs, 0, 0, FUNC_JR)) == Ok::<MipsInstruction, MipsInstruction>(
            MipsInstruction::jr { rSrc: gpr_at(rs as int) },
        ),
{
    lemma_register_fields(rs, 0, 0, FUNC_JR);
}

/// A two-register branch whose second register is the zero register comes out
/// as its one-register pseudo-form, and as the unconditional branch where both
/// registers of an equal-branch are zero.
pub proof fn lemma_branch_canonical(rs: u32, offset: u32)
    requires
        rs < 32,
        offset < 0x1_0000,
    ensures
        decode(encode_immediate(OP_BNE, rs, 0, offset)) == Ok::<MipsInstruction, MipsInstruction>(
            MipsInstruction::bnez { rCmp: gpr_at(rs as int), offset },
        ),
        rs != 0 ==> decode(encode_immediate(OP_BEQ, rs, 0, offset)) == Ok::<
            MipsInstruction,
            MipsInstruction,
        >(MipsInstruction::beqz { rCmp: gpr_at(rs as int), offset }),
        rs == 0 ==> decode(encode_immediate(OP_BEQ, rs, 0, offset)) == Ok::<
            MipsInstruction,
            MipsInstruction,
        >(MipsInstruction::b { offset }),
{
    lemma_immediate_fields(OP_BNE, rs, 0, offset);
    lemma_immediate_fields(OP_BEQ, rs, 0, offset);
}

/// A jump-register word with a nonzero second or third register field, and a
/// load-upper-immediate word with a nonzero first register field, decode to
/// the `invalid` error, carrying opcode and word.
pub proof fn lemma_invalid_encodings(rs: u32, rt: u32, rd: u32, imm: u32)
    requires
        rs < 32,
        rt < 32,
        rd < 32,
        imm < 0x1_0000,
    ensures
        rt != 0 || rd != 0 ==> decode(encode_register(rs, rt, rd, FUNC_JR)) == Err::<
            MipsInstruction,
            MipsInstruction,
        >(MipsInstruction::invalid { opcode: 0, word: encode_register(rs, rt, rd, FUNC_JR) }),
        rs != 0 ==> decode(encode_immediate(OP_LUI, rs, rt, imm)) == Err::<
            MipsInstruction,
            MipsInstruction,
        >(MipsInstruction::invalid { opcode: OP_LUI, word: encode_immediate(OP_LUI, rs, rt, imm) }),
{
    lemma_register_fields(rs, rt, rd, FUNC_JR);
    lemma_immediate_fields(OP_LUI, rs, rt, imm);
}

} // verus!
