use riscv_simulator::cause::{Cause, Exception, ExceptionReturn};
use riscv_simulator::csr::{ControlAndStatusRegister, MCAUSE, MSTATUS, MTVEC};
use riscv_simulator::executor::privileged::PrivilegedExecutor;
use riscv_simulator::executor::rv32i::Rv32iExecutor;
use riscv_simulator::executor::rv64i::Rv64iExecutor;
use riscv_simulator::executor::zicsr::ZicsrExecutor;
use riscv_simulator::executor::Executor;
use riscv_simulator::instruction::privileged::{PrivilegedOpcodeI, PrivilegedOpcodeR};
use riscv_simulator::instruction::rv32i::{
    Rv32iOpcodeB, Rv32iOpcodeI, Rv32iOpcodeJ, Rv32iOpcodeR, Rv32iOpcodeS, Rv32iOpcodeU,
};
use riscv_simulator::instruction::rv64i::{Rv64iOpcodeI, Rv64iOpcodeU};
use riscv_simulator::instruction::zicsr::{ZicsrOpcodeI, ZicsrOpcodeJ};
use riscv_simulator::instruction::Instruction;
use riscv_simulator::memory::Memory;
use riscv_simulator::mode::PrivilegeMode;
use riscv_simulator::pc::ProgramCounter;
use riscv_simulator::x::IntegerRegister;

struct Parts {
    prv: PrivilegeMode,
    pc: ProgramCounter,
    x: IntegerRegister,
    csr: ControlAndStatusRegister,
    memory: Memory,
}

fn parts() -> Parts {
    Parts {
        prv: PrivilegeMode::Machine,
        pc: ProgramCounter::default(),
        x: IntegerRegister::default(),
        csr: ControlAndStatusRegister::default(),
        memory: Memory::default(),
    }
}

fn rv32i(
    p: &mut Parts,
    instruction: Instruction<
        Rv32iOpcodeR,
        Rv32iOpcodeI,
        Rv32iOpcodeS,
        Rv32iOpcodeB,
        Rv32iOpcodeU,
        Rv32iOpcodeJ,
    >,
) -> Result<(), Cause> {
    assert!(Rv32iExecutor::accepts(&instruction, &p.prv, &p.pc, &p.x, &p.csr, &p.memory));
    Rv32iExecutor::execute(instruction, &p.prv, &mut p.pc, &mut p.x, &mut p.csr, &mut p.memory)
}

fn branch(opcode: Rv32iOpcodeB, a: u64, b: u64, imm: u64) -> u64 {
    let mut p = parts();
    p.x.write(1, a);
    p.x.write(2, b);
    let instruction = Instruction::TypeB { opcode, funct3: 0, rs1: 1, rs2: 2, imm };
    assert_eq!(rv32i(&mut p, instruction), Ok(()));
    p.pc.read()
}

#[test]
fn add_wraps() {
    let mut p = parts();
    p.x.write(1, 0xffff_ffff_ffff_ffff);
    p.x.write(2, 3);
    let add = Instruction::TypeR {
        opcode: Rv32iOpcodeR::Add,
        rd: 3,
        funct3: 0,
        rs1: 1,
        rs2: 2,
        funct7: 0,
    };
    assert_eq!(rv32i(&mut p, add), Ok(()));
    assert_eq!(p.x.read(3), 2);
    assert_eq!(p.pc.read(), 0x8000_0000);
}

#[test]
fn add_to_register_zero_is_discarded() {
    let mut p = parts();
    p.x.write(1, 4);
    let add = Instruction::TypeR {
        opcode: Rv32iOpcodeR::Add,
        rd: 0,
        funct3: 0,
        rs1: 1,
        rs2: 1,
        funct7: 0,
    };
    assert_eq!(rv32i(&mut p, add), Ok(()));
    assert_eq!(p.x.read(0), 0);
}

#[test]
fn add_immediate_sign_extends() {
    let mut p = parts();
    p.x.write(2, 10);
    let addi =
        Instruction::TypeI { opcode: Rv32iOpcodeI::Addi, rd: 1, funct3: 0, rs1: 2, imm: 0xfff };
    assert_eq!(rv32i(&mut p, addi), Ok(()));
    assert_eq!(p.x.read(1), 9);
    let addi =
        Instruction::TypeI { opcode: Rv32iOpcodeI::Addi, rd: 1, funct3: 0, rs1: 0, imm: 0x800 };
    assert_eq!(rv32i(&mut p, addi), Ok(()));
    assert_eq!(p.x.read(1), 0xffff_ffff_ffff_f800);
}

#[test]
fn shift_left_uses_six_bits_of_the_immediate() {
    let mut p = parts();
    p.x.write(1, 3);
    let slli =
        Instruction::TypeI { opcode: Rv32iOpcodeI::Slli, rd: 2, funct3: 1, rs1: 1, imm: 4 };
    assert_eq!(rv32i(&mut p, slli), Ok(()));
    assert_eq!(p.x.read(2), 48);
    let slli =
        Instruction::TypeI { opcode: Rv32iOpcodeI::Slli, rd: 2, funct3: 1, rs1: 1, imm: 63 };
    assert_eq!(rv32i(&mut p, slli), Ok(()));
    assert_eq!(p.x.read(2), 0x8000_0000_0000_0000);
    let slli =
        Instruction::TypeI { opcode: Rv32iOpcodeI::Slli, rd: 2, funct3: 1, rs1: 1, imm: 0x41 };
    assert_eq!(rv32i(&mut p, slli), Ok(()));
    assert_eq!(p.x.read(2), 6);
}

#[test]
fn fence_does_nothing() {
    let mut p = parts();
    p.x.write(1, 3);
    let fence =
        Instruction::TypeI { opcode: Rv32iOpcodeI::Fence, rd: 1, funct3: 0, rs1: 1, imm: 0xff };
    assert_eq!(rv32i(&mut p, fence), Ok(()));
    assert_eq!(p.x.read(1), 3);
    assert_eq!(p.pc.read(), 0x8000_0000);
}

#[test]
fn environment_call_names_the_privilege_level() {
    let levels = [
        (PrivilegeMode::User, Exception::EnvironmentCallFromUserMode),
        (PrivilegeMode::Supervisor, Exception::EnvironmentCallFromSupervisorMode),
        (PrivilegeMode::Machine, Exception::EnvironmentCallFromMachineMode),
    ];
    for (level, exception) in levels {
        let mut p = parts();
        p.prv = level;
        let ecall = Instruction::TypeI {
            opcode: Rv32iOpcodeI::Ecall,
            rd: 0,
            funct3: 0,
            rs1: 0,
            imm: 0,
        };
        assert_eq!(rv32i(&mut p, ecall), Err(Cause::Exception(exception)));
        assert_eq!(p.pc.read(), 0x8000_0000);
        assert_eq!(p.csr.read(MCAUSE), 0);
    }
}

#[test]
fn store_word_keeps_the_low_half() {
    let mut p = parts();
    p.x.write(1, 0x1122_3344_5566_7788);
    p.x.write(2, 0x8000_1004);
    let sw = Instruction::TypeS { opcode: Rv32iOpcodeS::Sw, funct3: 2, rs1: 2, rs2: 1, imm: 0xffc };
    assert_eq!(rv32i(&mut p, sw), Ok(()));
    assert_eq!(p.memory.load(0x8000_1000), 0x5566_7788);
    assert_eq!(p.memory.load(0x8000_1004), 0);
}

#[test]
fn a_store_outside_memory_is_not_accepted() {
    let mut p = parts();
    p.x.write(2, 0x8010_0000);
    let sw = Instruction::TypeS { opcode: Rv32iOpcodeS::Sw, funct3: 2, rs1: 2, rs2: 1, imm: 0 };
    assert!(!Rv32iExecutor::accepts(&sw, &p.prv, &p.pc, &p.x, &p.csr, &p.memory));
    let sw = Instruction::TypeS { opcode: Rv32iOpcodeS::Sw, funct3: 2, rs1: 2, rs2: 1, imm: 0xffc };
    assert!(Rv32iExecutor::accepts(&sw, &p.prv, &p.pc, &p.x, &p.csr, &p.memory));
    let sw = Instruction::TypeS { opcode: Rv32iOpcodeS::Sw, funct3: 2, rs1: 0, rs2: 1, imm: 0 };
    assert!(!Rv32iExecutor::accepts(&sw, &p.prv, &p.pc, &p.x, &p.csr, &p.memory));
}

#[test]
fn a_register_index_of_32_is_not_accepted() {
    let p = parts();
    let add = Instruction::TypeR {
        opcode: Rv32iOpcodeR::Add,
        rd: 32,
        funct3: 0,
        rs1: 1,
        rs2: 2,
        funct7: 0,
    };
    assert!(!Rv32iExecutor::accepts(&add, &p.prv, &p.pc, &p.x, &p.csr, &p.memory));
    let addiw =
        Instruction::TypeI { opcode: Rv64iOpcodeI::Addiw, rd: 1, funct3: 0, rs1: 32, imm: 0 };
    assert!(!Rv64iExecutor::accepts(&addiw, &p.prv, &p.pc, &p.x, &p.csr, &p.memory));
    let csrrw =
        Instruction::TypeI { opcode: ZicsrOpcodeI::Csrrw, rd: 40, funct3: 1, rs1: 1, imm: 0x300 };
    assert!(!ZicsrExecutor::accepts(&csrrw, &p.prv, &p.pc, &p.x, &p.csr, &p.memory));
}

#[test]
fn branch_if_equal() {
    assert_eq!(branch(Rv32iOpcodeB::Beq, 7, 7, 16), 0x8000_0010);
    assert_eq!(branch(Rv32iOpcodeB::Beq, 7, 8, 16), 0x8000_0000);
    assert_eq!(branch(Rv32iOpcodeB::Beq, 7, 7, 0x1ff8), 0x7fff_fff8);
}

#[test]
fn branch_if_not_equal() {
    assert_eq!(branch(Rv32iOpcodeB::Bne, 7, 8, 0xffe), 0x8000_0ffe);
    assert_eq!(branch(Rv32iOpcodeB::Bne, 7, 7, 0xffe), 0x8000_0000);
    assert_eq!(branch(Rv32iOpcodeB::Bne, 0, 1, 0x1000), 0x7fff_f000);
}

#[test]
fn branch_if_greater_or_equal_compares_signed() {
    assert_eq!(branch(Rv32iOpcodeB::Bge, 8, 7, 8), 0x8000_0008);
    assert_eq!(branch(Rv32iOpcodeB::Bge, 7, 7, 8), 0x8000_0008);
    assert_eq!(branch(Rv32iOpcodeB::Bge, 7, 8, 8), 0x8000_0000);
    // -1 is less than 1
    assert_eq!(branch(Rv32iOpcodeB::Bge, 0xffff_ffff_ffff_ffff, 1, 8), 0x8000_0000);
    assert_eq!(branch(Rv32iOpcodeB::Bge, 1, 0xffff_ffff_ffff_ffff, 8), 0x8000_0008);
    assert_eq!(branch(Rv32iOpcodeB::Bge, 0x8000_0000_0000_0000, 0x7fff_ffff_ffff_ffff, 8), 0x8000_0000);
}

#[test]
fn load_upper_immediate() {
    let mut p = parts();
    let lui = Instruction::TypeU { opcode: Rv32iOpcodeU::Lui, rd: 5, imm: 0x12345 };
    assert_eq!(rv32i(&mut p, lui), Ok(()));
    assert_eq!(p.x.read(5), 0x1234_5000);
    let lui = Instruction::TypeU { opcode: Rv32iOpcodeU::Lui, rd: 5, imm: 0x80000 };
    assert_eq!(rv32i(&mut p, lui), Ok(()));
    assert_eq!(p.x.read(5), 0xffff_ffff_8000_0000);
}

#[test]
fn add_upper_immediate_to_pc() {
    let mut p = parts();
    let auipc = Instruction::TypeU { opcode: Rv32iOpcodeU::Auipc, rd: 2, imm: 1 };
    assert_eq!(rv32i(&mut p, auipc), Ok(()));
    assert_eq!(p.x.read(2), 0x8000_1000);
    assert_eq!(p.pc.read(), 0x8000_0000);
    let auipc = Instruction::TypeU { opcode: Rv32iOpcodeU::Auipc, rd: 2, imm: 0xfffff };
    assert_eq!(rv32i(&mut p, auipc), Ok(()));
    assert_eq!(p.x.read(2), 0x7fff_f000);
    let auipc = Instruction::TypeU { opcode: Rv32iOpcodeU::Auipc, rd: 2, imm: 0x80000 };
    assert_eq!(rv32i(&mut p, auipc), Ok(()));
    assert_eq!(p.x.read(2), 0);
}

#[test]
fn jump_and_link() {
    let mut p = parts();
    let jal = Instruction::TypeJ { opcode: Rv32iOpcodeJ::Jal, rd: 1, imm: 0x1f_fffc };
    assert_eq!(rv32i(&mut p, jal), Ok(()));
    assert_eq!(p.x.read(1), 0x8000_0004);
    assert_eq!(p.pc.read(), 0x7fff_fffc);
    let jal = Instruction::TypeJ { opcode: Rv32iOpcodeJ::Jal, rd: 0, imm: 0x0f_fffe };
    assert_eq!(rv32i(&mut p, jal), Ok(()));
    assert_eq!(p.x.read(0), 0);
    assert_eq!(p.pc.read(), 0x800f_fffa);
}

#[test]
fn add_immediate_word_truncates_and_sign_extends() {
    let mut p = parts();
    p.x.write(1, 0x7fff_ffff);
    let addiw =
        Instruction::TypeI { opcode: Rv64iOpcodeI::Addiw, rd: 2, funct3: 0, rs1: 1, imm: 1 };
    assert!(Rv64iExecutor::accepts(&addiw, &p.prv, &p.pc, &p.x, &p.csr, &p.memory));
    assert_eq!(
        Rv64iExecutor::execute(addiw, &p.prv, &mut p.pc, &mut p.x, &mut p.csr, &mut p.memory),
        Ok(())
    );
    assert_eq!(p.x.read(2), 0xffff_ffff_8000_0000);
    p.x.write(1, 0x1_0000_0005);
    let addiw =
        Instruction::TypeI { opcode: Rv64iOpcodeI::Addiw, rd: 2, funct3: 0, rs1: 1, imm: 0xfff };
    assert_eq!(
        Rv64iExecutor::execute(addiw, &p.prv, &mut p.pc, &mut p.x, &mut p.csr, &mut p.memory),
        Ok(())
    );
    assert_eq!(p.x.read(2), 4);
}

#[test]
fn register_swap() {
    let mut p = parts();
    p.csr.csrrw(MSTATUS, 0x88);
    p.x.write(2, 0x1800);
    let csrrw =
        Instruction::TypeI { opcode: ZicsrOpcodeI::Csrrw, rd: 1, funct3: 1, rs1: 2, imm: 0x300 };
    assert!(ZicsrExecutor::accepts(&csrrw, &p.prv, &p.pc, &p.x, &p.csr, &p.memory));
    assert_eq!(
        ZicsrExecutor::execute(csrrw, &p.prv, &mut p.pc, &mut p.x, &mut p.csr, &mut p.memory),
        Ok(())
    );
    assert_eq!(p.x.read(1), 0x88);
    assert_eq!(p.csr.read(MSTATUS), 0x1800);
}

#[test]
fn register_set() {
    let mut p = parts();
    p.csr.csrrw(MSTATUS, 0x88);
    p.x.write(2, 0x1808);
    let csrrs =
        Instruction::TypeI { opcode: ZicsrOpcodeI::Csrrs, rd: 2, funct3: 2, rs1: 2, imm: 0x300 };
    assert_eq!(
        ZicsrExecutor::execute(csrrs, &p.prv, &mut p.pc, &mut p.x, &mut p.csr, &mut p.memory),
        Ok(())
    );
    assert_eq!(p.x.read(2), 0x88);
    assert_eq!(p.csr.read(MSTATUS), 0x1888);
}

#[test]
fn register_swap_with_the_register_number() {
    let mut p = parts();
    p.csr.csrrw(MTVEC, 0x8000_0100);
    p.x.write(31, 0xffff);
    let csrrwi =
        Instruction::TypeI { opcode: ZicsrOpcodeI::Csrrwi, rd: 1, funct3: 5, rs1: 31, imm: 0x305 };
    assert_eq!(
        ZicsrExecutor::execute(csrrwi, &p.prv, &mut p.pc, &mut p.x, &mut p.csr, &mut p.memory),
        Ok(())
    );
    assert_eq!(p.x.read(1), 0x8000_0100);
    assert_eq!(p.csr.read(MTVEC), 31);
}

#[test]
fn the_register_address_is_cut_to_12_bits() {
    let mut p = parts();
    p.x.write(2, 9);
    let csrrw = Instruction::TypeI {
        opcode: ZicsrOpcodeI::Csrrw,
        rd: 1,
        funct3: 1,
        rs1: 2,
        imm: 0xf_f305,
    };
    assert!(ZicsrExecutor::accepts(&csrrw, &p.prv, &p.pc, &p.x, &p.csr, &p.memory));
    assert_eq!(
        ZicsrExecutor::execute(csrrw, &p.prv, &mut p.pc, &mut p.x, &mut p.csr, &mut p.memory),
        Ok(())
    );
    assert_eq!(p.csr.read(MTVEC), 9);
}

#[test]
fn an_undeclared_register_is_not_accepted() {
    let p = parts();
    let csrrw =
        Instruction::TypeI { opcode: ZicsrOpcodeI::Csrrw, rd: 1, funct3: 1, rs1: 2, imm: 0x301 };
    assert!(!ZicsrExecutor::accepts(&csrrw, &p.prv, &p.pc, &p.x, &p.csr, &p.memory));
}

#[test]
fn machine_return_at_machine_level() {
    let mut p = parts();
    let mret = Instruction::TypeR {
        opcode: PrivilegedOpcodeR::Mret,
        rd: 0,
        funct3: 0,
        rs1: 0,
        rs2: 2,
        funct7: 0b0011000,
    };
    assert!(PrivilegedExecutor::accepts(&mret, &p.prv, &p.pc, &p.x, &p.csr, &p.memory));
    assert_eq!(
        PrivilegedExecutor::execute(mret, &p.prv, &mut p.pc, &mut p.x, &mut p.csr, &mut p.memory),
        Err(Cause::ExceptionReturn(ExceptionReturn::Machine))
    );
    assert_eq!(p.pc.read(), 0x8000_0000);
}

#[test]
fn machine_return_below_machine_level_is_illegal() {
    for level in [PrivilegeMode::User, PrivilegeMode::Supervisor] {
        let mut p = parts();
        p.prv = level;
        let mret = Instruction::TypeR {
            opcode: PrivilegedOpcodeR::Mret,
            rd: 0,
            funct3: 0,
            rs1: 0,
            rs2: 2,
            funct7: 0b0011000,
        };
        assert_eq!(
            PrivilegedExecutor::execute(
                mret,
                &p.prv,
                &mut p.pc,
                &mut p.x,
                &mut p.csr,
                &mut p.memory
            ),
            Err(Cause::Exception(Exception::IllegalInstruction))
        );
    }
}

#[test]
fn an_instruction_of_another_shape_does_nothing() {
    let mut p = parts();
    p.x.write(1, 3);
    let other = Instruction::TypeI {
        opcode: PrivilegedOpcodeI::Unassigned,
        rd: 1,
        funct3: 0,
        rs1: 1,
        imm: 1,
    };
    assert_eq!(
        PrivilegedExecutor::execute(other, &p.prv, &mut p.pc, &mut p.x, &mut p.csr, &mut p.memory),
        Ok(())
    );
    let other = Instruction::TypeU { opcode: Rv64iOpcodeU::Unassigned, rd: 1, imm: 1 };
    assert_eq!(
        Rv64iExecutor::execute(other, &p.prv, &mut p.pc, &mut p.x, &mut p.csr, &mut p.memory),
        Ok(())
    );
    let other = Instruction::TypeJ { opcode: ZicsrOpcodeJ::Unassigned, rd: 1, imm: 8 };
    assert_eq!(
        ZicsrExecutor::execute(other, &p.prv, &mut p.pc, &mut p.x, &mut p.csr, &mut p.memory),
        Ok(())
    );
    assert_eq!(p.x.read(1), 3);
    assert_eq!(p.pc.read(), 0x8000_0000);
}
