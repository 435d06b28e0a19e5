use riscv_simulator::decoder::privileged::PrivilegedDecoder;
use riscv_simulator::decoder::rv32i::Rv32iDecoder;
use riscv_simulator::decoder::rv64i::Rv64iDecoder;
use riscv_simulator::decoder::zicsr::ZicsrDecoder;
use riscv_simulator::decoder::Decoder;
use riscv_simulator::bitops::extend_sign;
use riscv_simulator::instruction::privileged::PrivilegedOpcodeR;
use riscv_simulator::instruction::rv32i::{
    Rv32iOpcodeB, Rv32iOpcodeI, Rv32iOpcodeJ, Rv32iOpcodeR, Rv32iOpcodeS, Rv32iOpcodeU,
};
use riscv_simulator::instruction::rv64i::Rv64iOpcodeI;
use riscv_simulator::instruction::zicsr::ZicsrOpcodeI;
use riscv_simulator::instruction::Instruction;
use riscv_simulator::simulator::{dispatch, Decoded};

fn branch_word(funct3: u32, rs1: u32, rs2: u32, displacement: i64) -> u32 {
    let d = displacement as u32;
    (((d >> 12) & 1) << 31)
        | (((d >> 5) & 0x3f) << 25)
        | (rs2 << 20)
        | (rs1 << 15)
        | (funct3 << 12)
        | (((d >> 1) & 0xf) << 8)
        | (((d >> 11) & 1) << 7)
        | 0b1100011
}

fn jump_word(rd: u32, displacement: i64) -> u32 {
    let d = displacement as u32;
    (((d >> 20) & 1) << 31)
        | (((d >> 1) & 0x3ff) << 21)
        | (((d >> 11) & 1) << 20)
        | (((d >> 12) & 0xff) << 12)
        | (rd << 7)
        | 0b1101111
}

#[test]
fn decodes_add_immediate() {
    assert_eq!(
        Rv32iDecoder::decode(0x0050_0093),
        Some(Instruction::TypeI { opcode: Rv32iOpcodeI::Addi, rd: 1, funct3: 0, rs1: 0, imm: 5 })
    );
}

#[test]
fn an_immediate_keeps_its_raw_bits() {
    // addi x1, x2, -1
    assert_eq!(
        Rv32iDecoder::decode(0xfff1_0093),
        Some(Instruction::TypeI {
            opcode: Rv32iOpcodeI::Addi,
            rd: 1,
            funct3: 0,
            rs1: 2,
            imm: 0xfff
        })
    );
}

#[test]
fn decodes_shift_left() {
    // slli x5, x6, 63
    assert_eq!(
        Rv32iDecoder::decode(0x03f3_1293),
        Some(Instruction::TypeI { opcode: Rv32iOpcodeI::Slli, rd: 5, funct3: 1, rs1: 6, imm: 63 })
    );
}

#[test]
fn decodes_add() {
    // add x3, x1, x2
    assert_eq!(
        Rv32iDecoder::decode(0x0020_81b3),
        Some(Instruction::TypeR {
            opcode: Rv32iOpcodeR::Add,
            rd: 3,
            funct3: 0,
            rs1: 1,
            rs2: 2,
            funct7: 0
        })
    );
}

#[test]
fn a_register_operation_with_another_funct7_is_not_claimed() {
    // sub x3, x1, x2
    assert_eq!(Rv32iDecoder::decode(0x4020_81b3), None);
    // sll x3, x1, x2
    assert_eq!(Rv32iDecoder::decode(0x0020_91b3), None);
}

#[test]
fn decodes_store_word() {
    // sw x1, 0(x2)
    assert_eq!(
        Rv32iDecoder::decode(0x0011_2023),
        Some(Instruction::TypeS { opcode: Rv32iOpcodeS::Sw, funct3: 2, rs1: 2, rs2: 1, imm: 0 })
    );
    // sw x31, -4(x30)
    assert_eq!(
        Rv32iDecoder::decode(0xfff_f2e23),
        Some(Instruction::TypeS {
            opcode: Rv32iOpcodeS::Sw,
            funct3: 2,
            rs1: 30,
            rs2: 31,
            imm: 0xffc
        })
    );
    // sb x1, 0(x2)
    assert_eq!(Rv32iDecoder::decode(0x0011_0023), None);
}

#[test]
fn decodes_upper_immediates() {
    // lui x5, 0x12345
    assert_eq!(
        Rv32iDecoder::decode(0x1234_52b7),
        Some(Instruction::TypeU { opcode: Rv32iOpcodeU::Lui, rd: 5, imm: 0x12345 })
    );
    // auipc x2, 0xfffff
    assert_eq!(
        Rv32iDecoder::decode(0xffff_f117),
        Some(Instruction::TypeU { opcode: Rv32iOpcodeU::Auipc, rd: 2, imm: 0xfffff })
    );
}

#[test]
fn decodes_branches() {
    assert_eq!(
        Rv32iDecoder::decode(0xfe00_0ce3),
        Some(Instruction::TypeB {
            opcode: Rv32iOpcodeB::Beq,
            funct3: 0,
            rs1: 0,
            rs2: 0,
            imm: 0x1ff8
        })
    );
    assert_eq!(
        Rv32iDecoder::decode(branch_word(1, 3, 4, 16)),
        Some(Instruction::TypeB { opcode: Rv32iOpcodeB::Bne, funct3: 1, rs1: 3, rs2: 4, imm: 16 })
    );
    assert_eq!(
        Rv32iDecoder::decode(branch_word(5, 31, 30, 2)),
        Some(Instruction::TypeB { opcode: Rv32iOpcodeB::Bge, funct3: 5, rs1: 31, rs2: 30, imm: 2 })
    );
    // blt
    assert_eq!(Rv32iDecoder::decode(branch_word(4, 1, 2, 8)), None);
}

#[test]
fn branch_displacements_are_recovered() {
    let mut d: i64 = -4096;
    while d < 4096 {
        match Rv32iDecoder::decode(branch_word(0, 1, 2, d)) {
            Some(Instruction::TypeB { opcode, funct3, rs1, rs2, imm }) => {
                assert_eq!(opcode, Rv32iOpcodeB::Beq);
                assert_eq!((funct3, rs1, rs2), (0, 1, 2));
                assert!(imm < 0x2000);
                assert_eq!(extend_sign(imm, 13) as i64, d);
            }
            other => panic!("{:?}", other),
        }
        d += 2;
    }
}

#[test]
fn decodes_jump() {
    // jal x1, 8
    assert_eq!(
        Rv32iDecoder::decode(0x0080_00ef),
        Some(Instruction::TypeJ { opcode: Rv32iOpcodeJ::Jal, rd: 1, imm: 8 })
    );
    // jal x0, -4
    assert_eq!(
        Rv32iDecoder::decode(0xffdf_f06f),
        Some(Instruction::TypeJ { opcode: Rv32iOpcodeJ::Jal, rd: 0, imm: 0x1f_fffc })
    );
}

#[test]
fn jump_displacements_are_recovered() {
    let mut d: i64 = -0x10_0000;
    while d < 0x10_0000 {
        match Rv32iDecoder::decode(jump_word(7, d)) {
            Some(Instruction::TypeJ { opcode, rd, imm }) => {
                assert_eq!(opcode, Rv32iOpcodeJ::Jal);
                assert_eq!(rd, 7);
                assert!(imm < 0x20_0000);
                assert_eq!(extend_sign(imm, 21) as i64, d);
            }
            other => panic!("{:?}", other),
        }
        d += 2;
    }
}

#[test]
fn decodes_fence() {
    assert_eq!(
        Rv32iDecoder::decode(0x0ff0_000f),
        Some(Instruction::TypeI {
            opcode: Rv32iOpcodeI::Fence,
            rd: 0,
            funct3: 0,
            rs1: 0,
            imm: 0xff
        })
    );
    // fence.i
    assert_eq!(Rv32iDecoder::decode(0x0000_100f), None);
}

#[test]
fn decodes_environment_call() {
    assert_eq!(
        Rv32iDecoder::decode(0x0000_0073),
        Some(Instruction::TypeI { opcode: Rv32iOpcodeI::Ecall, rd: 0, funct3: 0, rs1: 0, imm: 0 })
    );
    // ebreak: the immediate is not zero
    assert_eq!(Rv32iDecoder::decode(0x0010_0073), None);
}

#[test]
fn decodes_add_immediate_word() {
    // addiw x1, x1, 1
    assert_eq!(
        Rv64iDecoder::decode(0x0010_809b),
        Some(Instruction::TypeI { opcode: Rv64iOpcodeI::Addiw, rd: 1, funct3: 0, rs1: 1, imm: 1 })
    );
    // slliw x1, x1, 1
    assert_eq!(Rv64iDecoder::decode(0x0010_909b), None);
    assert_eq!(Rv64iDecoder::decode(0x0050_0093), None);
}

#[test]
fn decodes_register_accesses() {
    // csrrw x1, mstatus, x2
    assert_eq!(
        ZicsrDecoder::decode(0x3001_10f3),
        Some(Instruction::TypeI {
            opcode: ZicsrOpcodeI::Csrrw,
            rd: 1,
            funct3: 1,
            rs1: 2,
            imm: 0x300
        })
    );
    // csrrs x3, mcause, x0
    assert_eq!(
        ZicsrDecoder::decode(0x3420_21f3),
        Some(Instruction::TypeI {
            opcode: ZicsrOpcodeI::Csrrs,
            rd: 3,
            funct3: 2,
            rs1: 0,
            imm: 0x342
        })
    );
    // csrrwi x0, mtvec, 31
    assert_eq!(
        ZicsrDecoder::decode(0x305f_d073),
        Some(Instruction::TypeI {
            opcode: ZicsrOpcodeI::Csrrwi,
            rd: 0,
            funct3: 5,
            rs1: 31,
            imm: 0x305
        })
    );
    // csrrc x1, mstatus, x2
    assert_eq!(ZicsrDecoder::decode(0x3001_30f3), None);
    assert_eq!(ZicsrDecoder::decode(0x0000_0073), None);
}

#[test]
fn decodes_machine_return() {
    assert_eq!(
        PrivilegedDecoder::decode(0x3020_0073),
        Some(Instruction::TypeR {
            opcode: PrivilegedOpcodeR::Mret,
            rd: 0,
            funct3: 0,
            rs1: 0,
            rs2: 2,
            funct7: 0b0011000
        })
    );
    // sret
    assert_eq!(PrivilegedDecoder::decode(0x1020_0073), None);
    // wfi
    assert_eq!(PrivilegedDecoder::decode(0x1050_0073), None);
    assert_eq!(PrivilegedDecoder::decode(0x0000_0073), None);
}

#[test]
fn no_module_claims_the_zero_word() {
    assert_eq!(PrivilegedDecoder::decode(0), None);
    assert_eq!(Rv32iDecoder::decode(0), None);
    assert_eq!(Rv64iDecoder::decode(0), None);
    assert_eq!(ZicsrDecoder::decode(0), None);
    assert_eq!(dispatch(0), None);
    assert_eq!(dispatch(0xffff_ffff), None);
}

#[test]
fn dispatch_names_the_module() {
    assert!(matches!(dispatch(0x3020_0073), Some(Decoded::Privileged(_))));
    assert!(matches!(dispatch(0x0000_0073), Some(Decoded::Rv32i(_))));
    assert!(matches!(dispatch(0x0050_0093), Some(Decoded::Rv32i(_))));
    assert!(matches!(dispatch(0x0010_809b), Some(Decoded::Rv64i(_))));
    assert!(matches!(dispatch(0x3001_10f3), Some(Decoded::Zicsr(_))));
}

#[test]
fn at_most_one_module_claims_a_word() {
    let mut word: u32 = 0x73;
    let mut n = 0;
    while n < 200_000 {
        let claims = PrivilegedDecoder::decode(word).is_some() as u32
            + Rv32iDecoder::decode(word).is_some() as u32
            + Rv64iDecoder::decode(word).is_some() as u32
            + ZicsrDecoder::decode(word).is_some() as u32;
        assert!(claims <= 1);
        word = word.wrapping_mul(1_664_525).wrapping_add(1_013_904_223);
        if n % 2 == 0 {
            word = (word & !0x7f) | 0x73;
        }
        n += 1;
    }
}

#[test]
fn shape_decoders_extract_the_fields() {
    let word: u32 = 0b1010101_11011_10110_101_01101_0000000;
    assert_eq!(
        Rv32iDecoder::decode_r(Some(Rv32iOpcodeR::Add), word),
        Some(Instruction::TypeR {
            opcode: Rv32iOpcodeR::Add,
            rd: 0b01101,
            funct3: 0b101,
            rs1: 0b10110,
            rs2: 0b11011,
            funct7: 0b1010101
        })
    );
    assert_eq!(
        Rv32iDecoder::decode_i(Some(Rv32iOpcodeI::Addi), word),
        Some(Instruction::TypeI {
            opcode: Rv32iOpcodeI::Addi,
            rd: 0b01101,
            funct3: 0b101,
            rs1: 0b10110,
            imm: 0b1010101_11011
        })
    );
    assert_eq!(
        Rv32iDecoder::decode_s(Some(Rv32iOpcodeS::Sw), word),
        Some(Instruction::TypeS {
            opcode: Rv32iOpcodeS::Sw,
            funct3: 0b101,
            rs1: 0b10110,
            rs2: 0b11011,
            imm: 0b1010101_01101
        })
    );
    assert_eq!(
        Rv32iDecoder::decode_b(Some(Rv32iOpcodeB::Beq), word),
        Some(Instruction::TypeB {
            opcode: Rv32iOpcodeB::Beq,
            funct3: 0b101,
            rs1: 0b10110,
            rs2: 0b11011,
            imm: 0b1_1_010101_0110_0
        })
    );
    assert_eq!(
        Rv32iDecoder::decode_u(Some(Rv32iOpcodeU::Lui), word),
        Some(Instruction::TypeU {
            opcode: Rv32iOpcodeU::Lui,
            rd: 0b01101,
            imm: 0b1010101_11011_10110_101
        })
    );
    assert_eq!(
        Rv32iDecoder::decode_j(Some(Rv32iOpcodeJ::Jal), word),
        Some(Instruction::TypeJ {
            opcode: Rv32iOpcodeJ::Jal,
            rd: 0b01101,
            imm: 0b1_10110101_1_0101011101_0
        })
    );
}

#[test]
fn shape_decoders_pass_on_a_missing_opcode() {
    assert_eq!(Rv32iDecoder::decode_r(None, 0x0020_81b3), None);
    assert_eq!(Rv32iDecoder::decode_i(None, 0x0050_0093), None);
    assert_eq!(Rv32iDecoder::decode_s(None, 0x0011_2023), None);
    assert_eq!(Rv32iDecoder::decode_b(None, 0xfe00_0ce3), None);
    assert_eq!(Rv32iDecoder::decode_u(None, 0x1234_52b7), None);
    assert_eq!(Rv32iDecoder::decode_j(None, 0x0080_00ef), None);
}
