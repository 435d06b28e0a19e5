//! The trap controller: which privilege level handles a trap, what entering
//! and leaving a handler do to the control and status registers, and where
//! execution goes on.

use vstd::prelude::*;
use crate::cause::{Cause, Exception};
use crate::csr::{
    is_declared, is_file, ControlAndStatusRegister, StatusField, MCAUSE, MEDELEG, MEPC, MIDELEG, MSTATUS,
    MTVAL, MTVEC, SCAUSE, SEDELEG, SEPC, SIDELEG, SSTATUS, STVAL, STVEC, UCAUSE, UEPC, USTATUS,
    UTVAL, UTVEC,
};
use crate::mode::PrivilegeMode;

verus! {

/// Whether bit `code` of a delegation register is set.
pub open spec fn delegates(register: u64, code: u64) -> bool {
    (register >> code) & 1 == 1
}

/// The address of the machine-level delegation register that is consulted
/// for `cause`.
pub open spec fn machine_delegation(cause: Cause) -> u64 {
    if cause is Interrupt {
        MIDELEG
    } else {
        MEDELEG
    }
}

/// The address of the supervisor-level delegation register that is
/// consulted for `cause`.
pub open spec fn supervisor_delegation(cause: Cause) -> u64 {
    if cause is Interrupt {
        SIDELEG
    } else {
        SEDELEG
    }
}

/// The privilege level that handles `cause`: machine, unless the machine
/// level delegates the cause's code; then supervisor, unless the supervisor
/// level delegates it too; then user.
pub open spec fn delegated_mode(csr: Map<u64, u64>, cause: Cause) -> PrivilegeMode {
    if !delegates(csr[machine_delegation(cause)], cause.code()) {
        PrivilegeMode::Machine
    } else if !delegates(csr[supervisor_delegation(cause)], cause.code()) {
        PrivilegeMode::Supervisor
    } else {
        PrivilegeMode::User
    }
}

/// The one of three values that belongs to a privilege level.
pub open spec fn selected<T>(mode: PrivilegeMode, m: T, s: T, u: T) -> T {
    match mode {
        PrivilegeMode::Machine => m,
        PrivilegeMode::Supervisor => s,
        PrivilegeMode::User => u,
    }
}

/// The address of a level's status register.
pub open spec fn status_address(mode: PrivilegeMode) -> u64 {
    selected(mode, MSTATUS, SSTATUS, USTATUS)
}

/// The address of a level's cause register.
pub open spec fn cause_address(mode: PrivilegeMode) -> u64 {
    selected(mode, MCAUSE, SCAUSE, UCAUSE)
}

/// The address of a level's exception program counter.
pub open spec fn epc_address(mode: PrivilegeMode) -> u64 {
    selected(mode, MEPC, SEPC, UEPC)
}

/// The address of a level's trap value register.
pub open spec fn tval_address(mode: PrivilegeMode) -> u64 {
    selected(mode, MTVAL, STVAL, UTVAL)
}

/// The address of a level's trap-vector base address register.
pub open spec fn tvec_address(mode: PrivilegeMode) -> u64 {
    selected(mode, MTVEC, STVEC, UTVEC)
}

/// A level's interrupt-enable bit.
pub open spec fn ie_field(mode: PrivilegeMode) -> StatusField {
    selected(mode, StatusField::Mie, StatusField::Sie, StatusField::Uie)
}

/// A level's previous interrupt-enable bit.
pub open spec fn pie_field(mode: PrivilegeMode) -> StatusField {
    selected(mode, StatusField::Mpie, StatusField::Spie, StatusField::Upie)
}

/// A level's previous-privilege field; the user level has none.
pub open spec fn pp_field(mode: PrivilegeMode) -> Option<StatusField> {
    match mode {
        PrivilegeMode::Machine => Some(StatusField::Mpp),
        PrivilegeMode::Supervisor => Some(StatusField::Spp),
        PrivilegeMode::User => None,
    }
}

/// What a field of the status register value `status` holds.
pub open spec fn field_value(status: u64, field: StatusField) -> u64 {
    (status >> field.lsb()) & field.low_bits()
}

/// The status register value `status` after an update of a field: the
/// field's bits are cleared, then the bits of `value`, shifted to the
/// field's position, are turned on.
pub open spec fn with_field(status: u64, field: StatusField, value: u64) -> u64 {
    (status & !field.mask()) | (value << field.lsb())
}

/// The trap value of a trap: the faulting instruction word for an illegal
/// instruction, zero for every other cause.
pub open spec fn trap_value(cause: Cause, faulting_instruction: u32) -> u64 {
    if cause == Cause::Exception(Exception::IllegalInstruction) {
        faulting_instruction as u64
    } else {
        0
    }
}

pub fn delegated_privilege_mode(csr: &mut ControlAndStatusRegister, cause: &Cause) -> (mode:
    PrivilegeMode)
    requires
        cause.is_trap(),
    ensures
        mode == delegated_mode(old(csr)@, *cause),
        final(csr)@ == old(csr)@,
{
    let m_addr: u64 = if cause.is_interrupt() {
        MIDELEG
    } else {
        MEDELEG
    };
    let s_addr: u64 = if cause.is_interrupt() {
        SIDELEG
    } else {
        SEDELEG
    };
    let code: u64 = cause.exception_code();
    if ((peek(csr, m_addr) >> code) & 1) == 0 {
        proof {
            lemma_low_bit(old(csr)@[m_addr] >> code);
        }
        PrivilegeMode::Machine
    } else if ((peek(csr, s_addr) >> code) & 1) == 0 {
        proof {
            lemma_low_bit(old(csr)@[m_addr] >> code);
            lemma_low_bit(old(csr)@[s_addr] >> code);
        }
        PrivilegeMode::Supervisor
    } else {
        proof {
            lemma_low_bit(old(csr)@[m_addr] >> code);
            lemma_low_bit(old(csr)@[s_addr] >> code);
        }
        PrivilegeMode::User
    }
}

/// Reads a register by an atomic set of no bits, which leaves the file as
/// it was.
fn peek(csr: &mut ControlAndStatusRegister, address: u64) -> (value: u64)
    requires
        is_declared(address),
    ensures
        value == old(csr)@[address],
        final(csr)@ == old(csr)@,
{
    proof {
        csr.lemma_addresses();
    }
    let value: u64 = csr.csrrs(address, 0);
    assert(value | 0 == value) by (bit_vector);
    assert(csr@ =~= old(csr)@);
    value
}

proof fn lemma_low_bit(value: u64)
    by (bit_vector)
    ensures
        value & 1 == 0 || value & 1 == 1,
{
}

pub fn select_address(
    privilege_mode: &PrivilegeMode,
    m_address: u64,
    s_address: u64,
    u_address: u64,
) -> (address: u64)
    ensures
        address == selected(*privilege_mode, m_address, s_address, u_address),
{
    match privilege_mode {
        PrivilegeMode::Machine => m_address,
        PrivilegeMode::Supervisor => s_address,
        PrivilegeMode::User => u_address,
    }
}

pub fn select_status_field(
    privilege_mode: &PrivilegeMode,
    m_field: StatusField,
    s_field: StatusField,
    u_field: StatusField,
) -> (field: StatusField)
    ensures
        field == selected(*privilege_mode, m_field, s_field, u_field),
{
    match privilege_mode {
        PrivilegeMode::Machine => m_field,
        PrivilegeMode::Supervisor => s_field,
        PrivilegeMode::User => u_field,
    }
}

pub fn read_status_field(
    csr: &mut ControlAndStatusRegister,
    address: u64,
    field: &StatusField,
) -> (value: u64)
    requires
        is_declared(address),
    ensures
        value == field_value(old(csr)@[address], *field),
        final(csr)@ == old(csr)@,
{
    let status: u64 = peek(csr, address);
    (status >> field.start()) & field.unshifted_mask()
}

pub fn update_status_field(
    csr: &mut ControlAndStatusRegister,
    address: u64,
    field: &StatusField,
    value: u64,
)
    requires
        is_declared(address),
    ensures
        final(csr)@ == old(csr)@.insert(address, with_field(old(csr)@[address], *field, value)),
{
    let mask: u64 = field.unshifted_mask() << field.start();
    let shifted_value: u64 = value << field.start();
    csr.csrrc(address, mask);
    csr.csrrs(address, shifted_value);
    assert(csr@ =~= old(csr)@.insert(address, with_field(old(csr)@[address], *field, value)));
}

pub fn select_tval(cause: &Cause, faulting_instruction: u32) -> (tval: u64)
    ensures
        tval == trap_value(*cause, faulting_instruction),
{
    match cause {
        Cause::Exception(exception) => match exception {
            Exception::IllegalInstruction => faulting_instruction as u64,
            _ => 0,
        },
        _ => 0,
    }
}

/// The status register of the level `target` after it has taken a trap from
/// the level `current`: the previous-privilege field, where the level has
/// one, holds `current`; the previous interrupt-enable bit holds what the
/// interrupt-enable bit held; the interrupt-enable bit is clear.
pub open spec fn trapped_status(status: u64, target: PrivilegeMode, current: PrivilegeMode) -> u64 {
    let noted = match pp_field(target) {
        Some(field) => with_field(status, field, current.encoding()),
        None => status,
    };
    let saved = with_field(noted, pie_field(target), field_value(noted, ie_field(target)));
    with_field(saved, ie_field(target), 0)
}

/// The register file after a trap: the cause, exception program counter,
/// trap value and status registers of the level that handles the trap are
/// replaced, and no other.
pub open spec fn after_trap(
    csr: Map<u64, u64>,
    cause: Cause,
    pc_address: u64,
    instruction: u32,
    current: PrivilegeMode,
) -> Map<u64, u64> {
    let target = delegated_mode(csr, cause);
    csr.insert(cause_address(target), cause.primitive()).insert(
        epc_address(target),
        pc_address,
    ).insert(tval_address(target), trap_value(cause, instruction)).insert(
        status_address(target),
        trapped_status(csr[status_address(target)], target, current),
    )
}

/// Enters the handler of a trap: records the cause, the faulting address and
/// the trap value at the level that handles it, saves the privilege level
/// and the interrupt-enable bit in that level's status register, and
/// answers that level with its trap-vector base address.
pub fn handle_trap(
    cause: &Cause,
    pc_address: u64,
    instruction: u32,
    current_privilege_mode: PrivilegeMode,
    csr: &mut ControlAndStatusRegister,
) -> (next: (PrivilegeMode, u64))
    requires
        cause.is_trap(),
    ensures
        next.0 == delegated_mode(old(csr)@, *cause),
        next.1 == old(csr)@[tvec_address(next.0)],
        final(csr)@ == after_trap(
            old(csr)@,
            *cause,
            pc_address,
            instruction,
            current_privilege_mode,
        ),
{
    proof {
        csr.lemma_addresses();
    }
    let next_privilege_mode = delegated_privilege_mode(csr, cause);
    let cause_address: u64 = select_address(&next_privilege_mode, MCAUSE, SCAUSE, UCAUSE);
    csr.csrrw(cause_address, cause.to_primitive());

    let epc_address: u64 = select_address(&next_privilege_mode, MEPC, SEPC, UEPC);
    csr.csrrw(epc_address, pc_address);

    let tval_address: u64 = select_address(&next_privilege_mode, MTVAL, STVAL, UTVAL);
    let tval: u64 = select_tval(cause, instruction);
    csr.csrrw(tval_address, tval);

    let status_address: u64 = select_address(&next_privilege_mode, MSTATUS, SSTATUS, USTATUS);
    match next_privilege_mode {
        PrivilegeMode::Machine => update_status_field(
            csr,
            status_address,
            &StatusField::Mpp,
            current_privilege_mode.to_primitive(),
        ),
        PrivilegeMode::Supervisor => update_status_field(
            csr,
            status_address,
            &StatusField::Spp,
            current_privilege_mode.to_primitive(),
        ),
        PrivilegeMode::User => {},
    }

    let ie_field = select_status_field(
        &next_privilege_mode,
        StatusField::Mie,
        StatusField::Sie,
        StatusField::Uie,
    );
    let ie: u64 = read_status_field(csr, status_address, &ie_field);
    let pie_field = select_status_field(
        &next_privilege_mode,
        StatusField::Mpie,
        StatusField::Spie,
        StatusField::Upie,
    );
    update_status_field(csr, status_address, &pie_field, ie);

    update_status_field(csr, status_address, &ie_field, 0);

    let tvec_address: u64 = select_address(&next_privilege_mode, MTVEC, STVEC, UTVEC);
    let tvec: u64 = peek(csr, tvec_address);
    assert(csr@ =~= after_trap(
        old(csr)@,
        *cause,
        pc_address,
        instruction,
        current_privilege_mode,
    ));
    (next_privilege_mode, tvec)
}

/// The status register of the level `current` after a return from its
/// handler: the interrupt-enable bit holds what the previous
/// interrupt-enable bit held; the previous interrupt-enable bit is set; the
/// previous-privilege field, where the level has one, holds zero.
pub open spec fn returned_status(status: u64, current: PrivilegeMode) -> u64 {
    let restored = with_field(status, ie_field(current), field_value(status, pie_field(current)));
    let armed = with_field(restored, pie_field(current), 1);
    match pp_field(current) {
        Some(field) => with_field(armed, field, 0),
        None => armed,
    }
}

/// The privilege level that a return from the handler of the level
/// `current` goes back to: the one held in the previous-privilege field of
/// its status register, and the user level where there is no such field.
pub open spec fn previous_privilege(status: u64, current: PrivilegeMode) -> PrivilegeMode {
    match pp_field(current) {
        Some(field) => PrivilegeMode::of_encoding(field_value(status, field)),
        None => PrivilegeMode::User,
    }
}

/// Whether a return from the handler of the level `current` has a level to
/// go back to: the previous-privilege field holds the encoding of one.
pub open spec fn can_return(csr: Map<u64, u64>, current: PrivilegeMode) -> bool {
    match pp_field(current) {
        Some(field) => PrivilegeMode::is_encoding(
            field_value(csr[status_address(current)], field),
        ),
        None => true,
    }
}

/// Tests whether a return from the handler of the level `current` has a
/// level to go back to.
pub fn returns_to_a_level(current: PrivilegeMode, csr: &ControlAndStatusRegister) -> (yes: bool)
    ensures
        yes == can_return(csr@, current),
{
    let field: StatusField = match current {
        PrivilegeMode::Machine => StatusField::Mpp,
        PrivilegeMode::Supervisor => StatusField::Spp,
        PrivilegeMode::User => {
            return true;
        },
    };
    let address: u64 = select_address(&current, MSTATUS, SSTATUS, USTATUS);
    let held: u64 = (csr.read(address) >> field.start()) & field.unshifted_mask();
    held == 0 || held == 1 || held == 3
}

/// The updates of the interrupt-enable bits on a return leave the
/// previous-privilege field as it was.
proof fn lemma_return_keeps_previous_privilege(status: u64, current: PrivilegeMode)
    ensures
        pp_field(current) matches Some(field) ==> field_value(
            with_field(
                with_field(status, ie_field(current), field_value(status, pie_field(current))),
                pie_field(current),
                1,
            ),
            field,
        ) == field_value(status, field),
{
    match current {
        PrivilegeMode::Machine => {
            assert((((((status & !(0b1u64 << 3u32)) | (((status >> 7u32) & 0b1u64) << 3u32)) & !(
            0b1u64 << 7u32)) | (1u64 << 7u32)) >> 11u32) & 0b11u64 == (status >> 11u32) & 0b11u64)
                by (bit_vector);
        },
        PrivilegeMode::Supervisor => {
            assert((((((status & !(0b1u64 << 1u32)) | (((status >> 5u32) & 0b1u64) << 1u32)) & !(
            0b1u64 << 5u32)) | (1u64 << 5u32)) >> 8u32) & 0b1u64 == (status >> 8u32) & 0b1u64)
                by (bit_vector);
        },
        PrivilegeMode::User => {},
    }
}

/// Leaves the handler of the level `current_privilege_mode`: restores the
/// interrupt-enable bit, resets the saved state in that level's status
/// register, and answers the saved privilege level with the level's
/// exception program counter.
pub fn handle_exception_return(
    current_privilege_mode: PrivilegeMode,
    csr: &mut ControlAndStatusRegister,
) -> (next: (PrivilegeMode, u64))
    requires
        can_return(old(csr)@, current_privilege_mode),
    ensures
        next.0 == previous_privilege(
            old(csr)@[status_address(current_privilege_mode)],
            current_privilege_mode,
        ),
        next.1 == old(csr)@[epc_address(current_privilege_mode)],
        final(csr)@ == old(csr)@.insert(
            status_address(current_privilege_mode),
            returned_status(
                old(csr)@[status_address(current_privilege_mode)],
                current_privilege_mode,
            ),
        ),
{
    proof {
        csr.lemma_addresses();
        lemma_return_keeps_previous_privilege(
            csr@[status_address(current_privilege_mode)],
            current_privilege_mode,
        );
    }
    let status_address: u64 = select_address(&current_privilege_mode, MSTATUS, SSTATUS, USTATUS);

    let pie_field = select_status_field(
        &current_privilege_mode,
        StatusField::Mpie,
        StatusField::Spie,
        StatusField::Upie,
    );
    let ie_field = select_status_field(
        &current_privilege_mode,
        StatusField::Mie,
        StatusField::Sie,
        StatusField::Uie,
    );
    let pie: u64 = read_status_field(csr, status_address, &pie_field);
    update_status_field(csr, status_address, &ie_field, pie);

    update_status_field(csr, status_address, &pie_field, 1);

    let pp = match current_privilege_mode {
        PrivilegeMode::Machine => PrivilegeMode::from_primitive(
            read_status_field(csr, status_address, &StatusField::Mpp),
        ),
        PrivilegeMode::Supervisor => PrivilegeMode::from_primitive(
            read_status_field(csr, status_address, &StatusField::Spp),
        ),
        PrivilegeMode::User => PrivilegeMode::User,
    };

    match current_privilege_mode {
        PrivilegeMode::Machine => update_status_field(csr, status_address, &StatusField::Mpp, 0),
        PrivilegeMode::Supervisor => update_status_field(
            csr,
            status_address,
            &StatusField::Spp,
            0,
        ),
        PrivilegeMode::User => {},
    };

    let epc_address: u64 = select_address(&current_privilege_mode, MEPC, SEPC, UEPC);
    let epc: u64 = peek(csr, epc_address);
    assert(csr@ =~= old(csr)@.insert(
        status_address,
        returned_status(old(csr)@[status_address], current_privilege_mode),
    ));
    (pp, epc)
}

/// The privilege level and the address at which execution goes on after
/// `cause` was raised at the level `current`.
pub open spec fn redirection(
    csr: Map<u64, u64>,
    cause: Cause,
    current: PrivilegeMode,
) -> (PrivilegeMode, u64) {
    if cause is ExceptionReturn {
        (previous_privilege(csr[status_address(current)], current), csr[epc_address(current)])
    } else {
        (delegated_mode(csr, cause), csr[tvec_address(delegated_mode(csr, cause))])
    }
}

/// The register file after `cause` was handled.
pub open spec fn after_cause(
    csr: Map<u64, u64>,
    cause: Cause,
    pc_address: u64,
    instruction: u32,
    current: PrivilegeMode,
) -> Map<u64, u64> {
    if cause is ExceptionReturn {
        csr.insert(
            status_address(current),
            returned_status(csr[status_address(current)], current),
        )
    } else {
        after_trap(csr, cause, pc_address, instruction, current)
    }
}

/// Handles what an executor reported in place of success: a request to
/// return leaves the handler of the current level, anything else enters the
/// handler of the level that the cause is delegated to. Answers the
/// privilege level and the address at which execution goes on.
pub fn handle_cause(
    cause: &Cause,
    pc_address: u64,
    instruction: u32,
    current_privilege_mode: PrivilegeMode,
    csr: &mut ControlAndStatusRegister,
) -> (next: (PrivilegeMode, u64))
    requires
        *cause is ExceptionReturn ==> can_return(old(csr)@, current_privilege_mode),
    ensures
        next == redirection(old(csr)@, *cause, current_privilege_mode),
        final(csr)@ == after_cause(
            old(csr)@,
            *cause,
            pc_address,
            instruction,
            current_privilege_mode,
        ),
{
    match cause {
        Cause::ExceptionReturn(_) => handle_exception_return(current_privilege_mode, csr),
        _ => handle_trap(cause, pc_address, instruction, current_privilege_mode, csr),
    }
}

/// Delegation routing: where the machine level delegates illegal
/// instructions and the supervisor level does not, an illegal instruction
/// raised at the user level is handled at the supervisor level; the
/// supervisor cause register then holds 2, and execution goes on at the
/// address in the supervisor trap-vector base address register.
pub proof fn lemma_delegated_illegal_instruction(
    csr: Map<u64, u64>,
    pc_address: u64,
    instruction: u32,
)
    requires
        is_file(csr),
        delegates(csr[MEDELEG], 2),
        !delegates(csr[SEDELEG], 2),
    ensures
        ({
            let cause = Cause::Exception(Exception::IllegalInstruction);
            let after = after_cause(csr, cause, pc_address, instruction, PrivilegeMode::User);
            &&& redirection(csr, cause, PrivilegeMode::User) == (PrivilegeMode::Supervisor, csr[STVEC])
            &&& after[SCAUSE] == 2
            &&& after[SEPC] == pc_address
            &&& after[STVAL] == instruction
            &&& after[STVEC] == csr[STVEC]
        }),
{
}

} // verus!
