use n64_boot::mips::{disassemble_word, MipsCPUOp, MipsConfig, MipsGpr, MipsInstruction};

fn ok(word: u32) -> MipsInstruction {
    match disassemble_word(word) {
        Ok(i) => i,
        Err(i) => panic!("{:08X} did not decode: {:?}", word, i),
    }
}

#[test]
fn lui_fields_round_trip() {
    assert_eq!(ok(0x3C088004), MipsInstruction::lui { rDest: MipsGpr::t0, imm: 0x8004 });
}

#[test]
fn addiu_fields_round_trip() {
    assert_eq!(
        ok(0x2508E940),
        MipsInstruction::addiu { rSrc: MipsGpr::t0, rDest: MipsGpr::t0, imm: 0xE940 }
    );
    assert_eq!(
        ok(0x24095D50),
        MipsInstruction::addiu { rSrc: MipsGpr::zero, rDest: MipsGpr::t1, imm: 0x5D50 }
    );
}

#[test]
fn addi_fields_round_trip() {
    assert_eq!(
        ok(0x2129FFF8),
        MipsInstruction::addi { rSrc: MipsGpr::t1, rDest: MipsGpr::t1, imm: 0xFFF8 }
    );
}

#[test]
fn ori_fields_round_trip() {
    assert_eq!(
        ok(0x35AB1234),
        MipsInstruction::ori { rSrc: MipsGpr::t5, rDest: MipsGpr::t3, imm: 0x1234 }
    );
}

#[test]
fn sw_fields_round_trip() {
    assert_eq!(
        ok(0xAD000004),
        MipsInstruction::sw { rBase: MipsGpr::t0, rSrc: MipsGpr::zero, offset: 4 }
    );
}

#[test]
fn two_register_branches_round_trip() {
    assert_eq!(
        ok(0x1109FFFE),
        MipsInstruction::beq { rCmpL: MipsGpr::t0, rCmpR: MipsGpr::t1, offset: 0xFFFE }
    );
    assert_eq!(
        ok(0x15090003),
        MipsInstruction::bne { rCmpL: MipsGpr::t0, rCmpR: MipsGpr::t1, offset: 3 }
    );
}

#[test]
fn jumps_round_trip() {
    assert_eq!(ok(0x08000401), MipsInstruction::j { addr: 0x1004 });
    assert_eq!(ok(0x0C000001), MipsInstruction::jal { addr: 4 });
    assert_eq!(ok(0x0BFFFFFF), MipsInstruction::j { addr: 0x0FFF_FFFC });
}

#[test]
fn jr_round_trip() {
    assert_eq!(ok(0x01400008), MipsInstruction::jr { rSrc: MipsGpr::t2 });
    assert_eq!(ok(0x03E00008), MipsInstruction::jr { rSrc: MipsGpr::ra });
}

#[test]
fn bne_against_zero_is_bnez() {
    assert_eq!(ok(0x1520FFFC), MipsInstruction::bnez { rCmp: MipsGpr::t1, offset: 0xFFFC });
}

#[test]
fn beq_against_zero_is_beqz() {
    assert_eq!(ok(0x11000005), MipsInstruction::beqz { rCmp: MipsGpr::t0, offset: 5 });
}

#[test]
fn beq_zero_zero_is_b() {
    assert_eq!(ok(0x1000FFFF), MipsInstruction::b { offset: 0xFFFF });
}

#[test]
fn jr_with_rd_set_is_invalid() {
    let word = 0x01400808;
    assert_eq!(disassemble_word(word), Err(MipsInstruction::invalid { opcode: 0, word }));
}

#[test]
fn jr_with_rt_set_is_invalid() {
    let word = 0x01490008;
    assert_eq!(disassemble_word(word), Err(MipsInstruction::invalid { opcode: 0, word }));
}

#[test]
fn lui_with_rs_set_is_invalid() {
    let word = 0x3C288004;
    assert_eq!(disassemble_word(word), Err(MipsInstruction::invalid { opcode: 0b001_111, word }));
}

#[test]
fn zero_word_is_nop() {
    assert_eq!(disassemble_word(0), Ok(MipsInstruction::nop));
}

#[test]
fn unsupported_opcode_is_unknown() {
    let word = 0xFC000001;
    assert_eq!(disassemble_word(word), Ok(MipsInstruction::unknown { opcode: 0x3F, word }));
    let word = 0x04010002;
    assert_eq!(disassemble_word(word), Ok(MipsInstruction::unknown { opcode: 1, word }));
}

#[test]
fn unsupported_function_is_unknown() {
    let word = 0x01095020;
    assert_eq!(disassemble_word(word), Ok(MipsInstruction::unknown { opcode: 0, word }));
    let word = 0x01400028;
    assert_eq!(disassemble_word(word), Ok(MipsInstruction::unknown { opcode: 0, word }));
}

#[test]
fn instruction_metadata() {
    let jr = MipsInstruction::jr { rSrc: MipsGpr::ra };
    assert_eq!(jr.name(), "jr");
    assert!(jr.is_jump() && !jr.is_branch() && jr.has_delay_slot());
    let bnez = MipsInstruction::bnez { rCmp: MipsGpr::t1, offset: 4 };
    assert_eq!(bnez.name(), "bnez");
    assert!(bnez.is_branch() && !bnez.is_jump() && bnez.has_delay_slot());
    let beq = MipsInstruction::beq { rCmpL: MipsGpr::t0, rCmpR: MipsGpr::t1, offset: 0 };
    assert_eq!(beq.name(), "beq");
    let beqz = MipsInstruction::beqz { rCmp: MipsGpr::t1, offset: 4 };
    assert_eq!(beqz.name(), "beqz");
    let lui = MipsInstruction::lui { rDest: MipsGpr::t0, imm: 1 };
    assert_eq!(lui.name(), "lui");
    assert!(!lui.has_delay_slot());
    assert_eq!(MipsInstruction::nop.name(), "nop");
    assert_eq!(MipsInstruction::invalid { opcode: 0, word: 8 }.name(), "invalid instruction");
    assert_eq!(MipsInstruction::j { addr: 0 }.name(), "j");
    assert!(MipsInstruction::jal { addr: 0 }.is_jump());
    assert!(MipsInstruction::b { offset: 0 }.is_branch());
}

#[test]
fn register_names_and_numbers() {
    assert_eq!(MipsGpr::zero.name(), "zero");
    assert_eq!(MipsGpr::sp.name(), "sp");
    assert_eq!(MipsGpr::ra.name(), "ra");
    assert_eq!(MipsGpr::sp.index(), 29);
    assert_eq!(MipsGpr::from_index(9), MipsGpr::t1);
    for i in 0..32u32 {
        assert_eq!(MipsGpr::from_index(i).index(), i as usize);
    }
}

#[test]
fn register_clobbering() {
    assert!(!MipsGpr::zero.clobbered_by_func());
    assert!(MipsGpr::t0.clobbered_by_func());
    assert!(!MipsGpr::s0.clobbered_by_func());
    assert!(!MipsGpr::ra.clobbered_by_func());
    assert!(MipsGpr::sp.clobbered_by_func());
}

#[test]
fn opcode_table() {
    assert_eq!(MipsCPUOp::from_opcode(0b001_111), Some(MipsCPUOp::lui));
    assert_eq!(MipsCPUOp::from_opcode(0b101_011), Some(MipsCPUOp::sw));
    assert_eq!(MipsCPUOp::from_opcode(0b111_111), None);
}

#[test]
fn default_config() {
    let c = MipsConfig::default();
    assert_eq!(c.instruction_print_width, 10);
}
