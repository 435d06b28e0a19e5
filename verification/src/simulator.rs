//! The fetch, decode and execute loop. The simulator owns the architectural
//! state and changes it once for each instruction.

use vstd::prelude::*;
use crate::cause::Cause;
use crate::csr::{is_declared, zeroed_file, ControlAndStatusRegister};
use crate::decoder::privileged::{PrivilegedDecoder, PrivilegedInstruction};
use crate::decoder::rv32i::{Rv32iDecoder, Rv32iInstruction};
use crate::decoder::rv64i::{Rv64iDecoder, Rv64iInstruction};
use crate::decoder::zicsr::{ZicsrDecoder, ZicsrInstruction};
use crate::decoder::{lemma_fields_in_range, Decoder};
use crate::executor::privileged::PrivilegedExecutor;
use crate::executor::rv32i::{store_address, Rv32iExecutor};
use crate::executor::rv64i::Rv64iExecutor;
use crate::executor::zicsr::{csr_address, ZicsrExecutor};
use crate::instruction::Instruction;
use crate::executor::Executor;
use crate::memory::{
    with_image, word_at, word_in_range, Memory, MEMORY_BASE_ADDRESS, MEMORY_SIZE,
};
use crate::mode::PrivilegeMode;
use crate::pc::{ProgramCounter, INSTRUCTION_WIDTH};
use crate::state::{state_of, State};
use crate::trap_handler::{
    after_cause, can_return, handle_cause, redirection, returns_to_a_level,
};
use crate::x::{IntegerRegister, REGISTER_COUNT};

verus! {

/// A condition that stops the simulator. None of them is a fault of the
/// simulated program that a trap handler could see.
#[derive(Copy, Clone, Debug, PartialEq, Eq, Structural)]
pub enum Halt {
    /// The program counter is not the address of a word of memory.
    FetchOutOfRange,
    /// No instruction-set module claims the word at the program counter.
    UndecodableInstruction,
    /// A store addresses a word that is not in memory.
    StoreOutOfRange,
    /// An instruction addresses a control and status register that the file
    /// does not have.
    UndeclaredCsr,
    /// A return from a trap finds no privilege level in the
    /// previous-privilege field.
    NoLevelToReturnTo,
}

/// An instruction together with the module that decoded it.
#[derive(Debug, PartialEq, Eq)]
pub enum Decoded {
    Privileged(PrivilegedInstruction),
    Rv32i(Rv32iInstruction),
    Rv64i(Rv64iInstruction),
    Zicsr(ZicsrInstruction),
}

/// The instruction that `word` encodes, by the first module that claims it
/// in the order privileged, base integer, 64-bit extension, control and
/// status registers.
pub open spec fn dispatched(word: u32) -> Option<Decoded> {
    if let Some(instruction) = PrivilegedDecoder::decoded(word) {
        Some(Decoded::Privileged(instruction))
    } else if let Some(instruction) = Rv32iDecoder::decoded(word) {
        Some(Decoded::Rv32i(instruction))
    } else if let Some(instruction) = Rv64iDecoder::decoded(word) {
        Some(Decoded::Rv64i(instruction))
    } else if let Some(instruction) = ZicsrDecoder::decoded(word) {
        Some(Decoded::Zicsr(instruction))
    } else {
        None
    }
}

/// Offers `word` to each decoder in turn.
pub fn dispatch(word: u32) -> (decoded: Option<Decoded>)
    ensures
        decoded == dispatched(word),
{
    if let Some(instruction) = PrivilegedDecoder::decode(word) {
        Some(Decoded::Privileged(instruction))
    } else if let Some(instruction) = Rv32iDecoder::decode(word) {
        Some(Decoded::Rv32i(instruction))
    } else if let Some(instruction) = Rv64iDecoder::decode(word) {
        Some(Decoded::Rv64i(instruction))
    } else if let Some(instruction) = ZicsrDecoder::decode(word) {
        Some(Decoded::Zicsr(instruction))
    } else {
        None
    }
}

/// The modules claim disjoint sets of words: no word is an instruction of
/// two of them, so the order in which the decoders are tried decides
/// nothing.
pub proof fn lemma_decoders_are_exclusive(word: u32)
    ensures
        PrivilegedDecoder::decoded(word) is Some ==> Rv32iDecoder::decoded(word) is None
            && Rv64iDecoder::decoded(word) is None && ZicsrDecoder::decoded(word) is None,
        Rv32iDecoder::decoded(word) is Some ==> Rv64iDecoder::decoded(word) is None
            && ZicsrDecoder::decoded(word) is None,
        Rv64iDecoder::decoded(word) is Some ==> ZicsrDecoder::decoded(word) is None,
{
    assert(((word >> 25u32) & 0b1111111u32 == 0b0011000u32) ==> word >> 20u32 != 0u32)
        by (bit_vector);
}

/// The word at the program counter, where that is a word of memory.
pub open spec fn fetched(state: State) -> Option<u32> {
    if word_in_range(state.pc) {
        Some(word_at(state.memory, state.pc - MEMORY_BASE_ADDRESS))
    } else {
        None
    }
}

/// What executing the instruction that `word` encodes does in `state`: the
/// state that it leaves together with what the executor reports, or the
/// condition that keeps it from being executed.
pub open spec fn executed(state: State, word: u32) -> Result<(State, Result<(), Cause>), Halt> {
    match dispatched(word) {
        None => Err(Halt::UndecodableInstruction),
        Some(Decoded::Privileged(instruction)) => Ok(
            (
                PrivilegedExecutor::effect(instruction, state),
                PrivilegedExecutor::outcome(instruction, state),
            ),
        ),
        Some(Decoded::Rv32i(instruction)) => if Rv32iExecutor::admits(instruction, state) {
            Ok(
                (
                    Rv32iExecutor::effect(instruction, state),
                    Rv32iExecutor::outcome(instruction, state),
                ),
            )
        } else {
            Err(Halt::StoreOutOfRange)
        },
        Some(Decoded::Rv64i(instruction)) => Ok(
            (Rv64iExecutor::effect(instruction, state), Rv64iExecutor::outcome(instruction, state)),
        ),
        Some(Decoded::Zicsr(instruction)) => if ZicsrExecutor::admits(instruction, state) {
            Ok(
                (
                    ZicsrExecutor::effect(instruction, state),
                    ZicsrExecutor::outcome(instruction, state),
                ),
            )
        } else {
            Err(Halt::UndeclaredCsr)
        },
    }
}

/// What follows the execution of the instruction `word`, fetched at
/// `address`, that left `state` and reported `outcome`. After success the
/// program counter moves on by one instruction, unless the instruction has
/// moved it. Otherwise the trap controller decides the privilege level and
/// the program counter.
pub open spec fn retired(state: State, address: u64, word: u32, outcome: Result<(), Cause>) -> Result<
    State,
    Halt,
> {
    match outcome {
        Err(cause) => if cause is ExceptionReturn && !can_return(state.csr, state.prv) {
            Err(Halt::NoLevelToReturnTo)
        } else {
            Ok(
                State {
                    prv: redirection(state.csr, cause, state.prv).0,
                    pc: redirection(state.csr, cause, state.prv).1,
                    csr: after_cause(state.csr, cause, state.pc, word, state.prv),
                    ..state
                },
            )
        },
        Ok(()) => if state.pc == address {
            Ok(State { pc: state.pc.wrapping_add(INSTRUCTION_WIDTH), ..state })
        } else {
            Ok(state)
        },
    }
}

/// The state after one cycle from `state`, or the condition that stops the
/// simulator there.
pub open spec fn stepped(state: State) -> Result<State, Halt> {
    match fetched(state) {
        None => Err(Halt::FetchOutOfRange),
        Some(word) => match executed(state, word) {
            Err(halt) => Err(halt),
            Ok((after, outcome)) => retired(after, state.pc, word, outcome),
        },
    }
}

/// The architectural state of one core.
pub struct Simulator {
    pub prv: PrivilegeMode,
    pub pc: ProgramCounter,
    pub x: IntegerRegister,
    pub csr: ControlAndStatusRegister,
    pub memory: Memory,
}

impl View for Simulator {
    type V = State;

    open spec fn view(&self) -> State {
        state_of(self.prv, self.pc@, self.x@, self.csr@, self.memory@)
    }
}

impl Simulator {
    /// Copies a binary image into memory, byte for byte, from the base
    /// address on.
    pub fn load(&mut self, image: &[u8])
        requires
            image@.len() <= MEMORY_SIZE,
        ensures
            final(self)@ == (State {
                memory: with_image(old(self)@.memory, image@),
                ..old(self)@
            }),
    {
        self.memory.load_image(image);
    }

    /// Reads the word at the program counter.
    pub fn fetch(&self) -> (word: Option<u32>)
        ensures
            word == fetched(self@),
    {
        let address: u64 = self.pc.read();
        if self.memory.contains_word(address) {
            Some(self.memory.load(address))
        } else {
            None
        }
    }

    /// Decodes `word` and executes the instruction.
    pub fn execute(&mut self, word: u32) -> (outcome: Result<Result<(), Cause>, Halt>)
        ensures
            match executed(old(self)@, word) {
                Ok((after, reported)) => outcome == Ok::<Result<(), Cause>, Halt>(reported)
                    && final(self)@ == after,
                Err(halt) => outcome == Err::<Result<(), Cause>, Halt>(halt) && final(self)@
                    == old(self)@,
            },
    {
        let prv = self.prv;
        match dispatch(word) {
            None => Err(Halt::UndecodableInstruction),
            Some(Decoded::Privileged(instruction)) => Ok(
                PrivilegedExecutor::execute(
                    instruction,
                    &prv,
                    &mut self.pc,
                    &mut self.x,
                    &mut self.csr,
                    &mut self.memory,
                ),
            ),
            Some(Decoded::Rv32i(instruction)) => {
                if Rv32iExecutor::accepts(
                    &instruction,
                    &prv,
                    &self.pc,
                    &self.x,
                    &self.csr,
                    &self.memory,
                ) {
                    Ok(
                        Rv32iExecutor::execute(
                            instruction,
                            &prv,
                            &mut self.pc,
                            &mut self.x,
                            &mut self.csr,
                            &mut self.memory,
                        ),
                    )
                } else {
                    Err(Halt::StoreOutOfRange)
                }
            },
            Some(Decoded::Rv64i(instruction)) => {
                proof {
                    lemma_fields_in_range(word);
                }
                Ok(
                    Rv64iExecutor::execute(
                        instruction,
                        &prv,
                        &mut self.pc,
                        &mut self.x,
                        &mut self.csr,
                        &mut self.memory,
                    ),
                )
            },
            Some(Decoded::Zicsr(instruction)) => {
                if ZicsrExecutor::accepts(
                    &instruction,
                    &prv,
                    &self.pc,
                    &self.x,
                    &self.csr,
                    &self.memory,
                ) {
                    Ok(
                        ZicsrExecutor::execute(
                            instruction,
                            &prv,
                            &mut self.pc,
                            &mut self.x,
                            &mut self.csr,
                            &mut self.memory,
                        ),
                    )
                } else {
                    Err(Halt::UndeclaredCsr)
                }
            },
        }
    }

    /// Finishes the cycle of the instruction `word`, fetched at `address`,
    /// whose execution reported `outcome`.
    pub fn retire(&mut self, address: u64, word: u32, outcome: Result<(), Cause>) -> (done: Result<
        (),
        Halt,
    >)
        ensures
            match retired(old(self)@, address, word, outcome) {
                Ok(after) => done == Ok::<(), Halt>(()) && final(self)@ == after,
                Err(halt) => done == Err::<(), Halt>(halt) && *final(self) == *old(self),
            },
    {
        match outcome {
            Err(cause) => {
                let returns: bool = match cause {
                    Cause::ExceptionReturn(_) => true,
                    _ => false,
                };
                if returns && !returns_to_a_level(self.prv, &self.csr) {
                    return Err(Halt::NoLevelToReturnTo);
                }
                let (prv, pc) = handle_cause(
                    &cause,
                    self.pc.read(),
                    word,
                    self.prv,
                    &mut self.csr,
                );
                self.prv = prv;
                self.pc.jump(pc);
            },
            Ok(()) => {
                if self.pc.read() == address {
                    self.pc.increment();
                }
            },
        }
        Ok(())
    }

    /// Runs one cycle: fetches the word at the program counter, executes
    /// the instruction that it encodes, and finishes the cycle. Where the
    /// simulator stops instead, the state is left as it was.
    pub fn step(&mut self) -> (done: Result<(), Halt>)
        ensures
            match stepped(old(self)@) {
                Ok(after) => done == Ok::<(), Halt>(()) && final(self)@ == after,
                Err(halt) => done == Err::<(), Halt>(halt) && final(self)@ == old(self)@,
            },
    {
        let address: u64 = self.pc.read();
        let word: u32 = match self.fetch() {
            Some(word) => word,
            None => {
                return Err(Halt::FetchOutOfRange);
            },
        };
        let outcome: Result<(), Cause> = match self.execute(word) {
            Ok(outcome) => outcome,
            Err(halt) => {
                return Err(halt);
            },
        };
        proof {
            lemma_return_leaves_state(old(self)@, word);
        }
        self.retire(address, word, outcome)
    }
}

/// The conditions that stop the simulator at an instruction are what their
/// names say: it stops at a store of the base integer module exactly where
/// the word that the store addresses is not in memory, and at a register
/// access exactly where the file has no register at the address.
pub proof fn lemma_halts_name_their_reason(state: State, word: u32)
    ensures
        executed(state, word) == Err::<(State, Result<(), Cause>), Halt>(Halt::StoreOutOfRange)
            <==> (dispatched(word) matches Some(
            Decoded::Rv32i(Instruction::TypeS { rs1, imm, .. }),
        ) && !word_in_range(store_address(state.x, rs1, imm))),
        executed(state, word) == Err::<(State, Result<(), Cause>), Halt>(Halt::UndeclaredCsr)
            <==> (dispatched(word) matches Some(
            Decoded::Zicsr(Instruction::TypeI { imm, .. }),
        ) && !is_declared(csr_address(imm))),
        executed(state, word) == Err::<(State, Result<(), Cause>), Halt>(
            Halt::UndecodableInstruction,
        ) <==> dispatched(word) is None,
{
    lemma_fields_in_range(word);
}

/// Only the privileged module asks for a return from a trap, and its
/// instructions leave the state as it was.
pub proof fn lemma_return_leaves_state(state: State, word: u32)
    ensures
        executed(state, word) matches Ok((after, Err(Cause::ExceptionReturn(_)))) ==> after
            == state,
{
}

/// The state after reset: machine level, the program counter at the base
/// address, and zero in every register and every byte of memory.
pub open spec fn reset_state() -> State {
    State {
        prv: PrivilegeMode::Machine,
        pc: MEMORY_BASE_ADDRESS,
        x: Seq::new(REGISTER_COUNT as nat, |i: int| 0u64),
        csr: zeroed_file(),
        memory: Seq::new(MEMORY_SIZE as nat, |i: int| 0u8),
    }
}

impl Default for Simulator {
    fn default() -> (simulator: Self)
        ensures
            simulator@ == reset_state(),
    {
        Simulator {
            prv: PrivilegeMode::default(),
            pc: ProgramCounter::default(),
            x: IntegerRegister::default(),
            csr: ControlAndStatusRegister::default(),
            memory: Memory::default(),
        }
    }
}

/// The state after `n` cycles from `state`, where none of them stops the
/// simulator.
pub open spec fn after_cycles(state: State, n: nat) -> State
    decreases n,
{
    if n == 0 {
        state
    } else {
        match stepped(after_cycles(state, (n - 1) as nat)) {
            Ok(after) => after,
            Err(_) => after_cycles(state, (n - 1) as nat),
        }
    }
}

/// Whether the first `n` cycles from `state` all run to their end.
pub open spec fn runs_for(state: State, n: nat) -> bool {
    forall|i: nat| i < n ==> (#[trigger] stepped(after_cycles(state, i))) is Ok
}

/// The state in which a run asks its terminator in the cycle that starts
/// from `state`: the one that the executed instruction has left, before the
/// cycle is finished. There is none where the simulator stops before.
pub open spec fn shown(state: State) -> Option<State> {
    match fetched(state) {
        None => None,
        Some(word) => match executed(state, word) {
            Err(_) => None,
            Ok((after, _)) => Some(after),
        },
    }
}

/// Whether `asked` holds the simulators that a run from `start` has shown
/// to `terminator` in its first cycles, one for each cycle, and
/// `terminator` gave no result for any of them.
pub open spec fn declined<F: Fn(&Simulator) -> Option<u64>>(
    terminator: F,
    start: State,
    asked: Seq<Simulator>,
) -> bool {
    forall|i: int|
        0 <= i < asked.len() ==> {
            &&& shown(after_cycles(start, i as nat)) == Some((#[trigger] asked[i])@)
            &&& call_ensures(terminator, (&asked[i],), None::<u64>)
        }
}

/// Whether a run from `start` that may take `cycle_limit` cycles can end
/// with the simulator `end` and the result `result`, after it has shown the
/// simulators `asked` to `terminator`, one in each of as many whole cycles,
/// without getting a result. It ends in one of four ways: the limit is
/// reached; the simulator stops before `terminator` is asked; it stops after
/// `terminator` gave no result for `end`; or `terminator` gives `result`
/// for `end`. Only the last way gives a result other than 0.
pub open spec fn run_ends<F: Fn(&Simulator) -> Option<u64>>(
    terminator: F,
    start: State,
    cycle_limit: u64,
    asked: Seq<Simulator>,
    end: Simulator,
    result: u64,
) -> bool {
    let reached = after_cycles(start, asked.len());
    &&& asked.len() <= cycle_limit
    &&& runs_for(start, asked.len())
    &&& declined(terminator, start, asked)
    &&& {
        ||| {
            &&& result == 0
            &&& end@ == reached
            &&& asked.len() == cycle_limit
        }
        ||| {
            &&& result == 0
            &&& end@ == reached
            &&& shown(reached) is None
        }
        ||| {
            &&& result == 0
            &&& end@ == reached
            &&& shown(reached) == Some(reached)
            &&& stepped(reached) is Err
            &&& call_ensures(terminator, (&end,), None::<u64>)
        }
        ||| {
            &&& shown(reached) == Some(end@)
            &&& call_ensures(terminator, (&end,), Some(result))
        }
    }
}

impl Simulator {
    /// Runs cycles until the simulator stops, `terminator` gives a result,
    /// or `cycle_limit` cycles have run. `terminator` is asked once in each
    /// cycle, after the instruction was executed and before the cycle is
    /// finished; its result ends the run at once and is returned. A run
    /// that ends otherwise returns 0.
    pub fn run<F: Fn(&Simulator) -> Option<u64>>(&mut self, terminator: F, cycle_limit: u64) -> (result:
        u64)
        requires
            forall|simulator: Simulator| call_requires(terminator, (&simulator,)),
        ensures
            exists|asked: Seq<Simulator>| #[trigger]
                run_ends(terminator, old(self)@, cycle_limit, asked, *final(self), result),
    {
        let mut cycles: u64 = 0;
        let ghost mut asked: Seq<Simulator> = Seq::empty();
        while cycles < cycle_limit
            invariant
                cycles <= cycle_limit,
                asked.len() == cycles,
                self@ == after_cycles(old(self)@, cycles as nat),
                runs_for(old(self)@, cycles as nat),
                declined(terminator, old(self)@, asked),
                forall|simulator: Simulator| call_requires(terminator, (&simulator,)),
            decreases cycle_limit - cycles,
        {
            let ghost reached = self@;
            let address: u64 = self.pc.read();
            let word: u32 = match self.fetch() {
                Some(word) => word,
                None => {
                    assert(run_ends(terminator, old(self)@, cycle_limit, asked, *self, 0));
                    return 0;
                },
            };
            let outcome: Result<(), Cause> = match self.execute(word) {
                Ok(outcome) => outcome,
                Err(_) => {
                    assert(run_ends(terminator, old(self)@, cycle_limit, asked, *self, 0));
                    return 0;
                },
            };
            if let Some(result) = terminator(&*self) {
                assert(run_ends(terminator, old(self)@, cycle_limit, asked, *self, result));
                return result;
            }
            let ghost seen = *self;
            proof {
                lemma_return_leaves_state(reached, word);
            }
            match self.retire(address, word, outcome) {
                Ok(()) => {},
                Err(_) => {
                    assert(run_ends(terminator, old(self)@, cycle_limit, asked, *self, 0));
                    return 0;
                },
            }
            proof {
                let longer = asked.push(seen);
                assert(stepped(reached) == Ok::<State, Halt>(self@));
                assert(self@ == after_cycles(old(self)@, (cycles + 1) as nat));
                assert(runs_for(old(self)@, (cycles + 1) as nat)) by {
                    assert forall|i: nat| i < cycles + 1 implies (#[trigger] stepped(
                        after_cycles(old(self)@, i),
                    )) is Ok by {
                        if i < cycles {
                        } else {
                            assert(i == cycles);
                        }
                    }
                }
                assert(declined(terminator, old(self)@, longer)) by {
                    assert forall|i: int| 0 <= i < longer.len() implies {
                        &&& shown(after_cycles(old(self)@, i as nat)) == Some(
                            (#[trigger] longer[i])@,
                        )
                        &&& call_ensures(terminator, (&longer[i],), None::<u64>)
                    } by {
                        if i < asked.len() {
                            assert(longer[i] == asked[i]);
                        } else {
                            assert(longer[i] == seen);
                        }
                    }
                }
                asked = longer;
            }
            cycles += 1;
        }
        assert(run_ends(terminator, old(self)@, cycle_limit, asked, *self, 0));
        0
    }
}

} // verus!
