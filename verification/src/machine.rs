//! The mathematical model of the machine: what one instruction does to the
//! registers, the memory, the program counter and the trace, and what a run is.

use crate::ast::{Instruction, Register};
use crate::program::fitted;
use crate::text::{decimal, signed_decimal};
use vstd::prelude::*;

verus! {

/// The number of slots of the instruction memory.
pub const MEMORY_SIZE: usize = 1024;

/// The number of registers.
pub const REGISTER_COUNT: usize = 16;

/// The signed 64-bit value that is congruent to `x` modulo 2^64.
pub open spec fn wrap(x: int) -> i64 {
    let r = x % 0x1_0000_0000_0000_0000;
    if r > i64::MAX {
        (r - 0x1_0000_0000_0000_0000) as i64
    } else {
        r as i64
    }
}

/// The quotient of `a` by `b`, rounded toward zero.
pub open spec fn quotient(a: int, b: int) -> int
    recommends
        b != 0,
{
    if a >= 0 && b > 0 {
        a / b
    } else if a < 0 && b < 0 {
        (-a) / (-b)
    } else if a < 0 {
        -((-a) / b)
    } else {
        -(a / (-b))
    }
}

/// The memory address that a register's value stands for: the value read as
/// an unsigned machine word.
pub open spec fn address(v: i64) -> usize {
    v as usize
}

/// The counter `pc` moved by the offset `v`, in machine-word arithmetic.
pub open spec fn displaced(pc: usize, v: i64) -> usize {
    let sum = pc + address(v);
    if sum > usize::MAX {
        (sum - usize::MAX - 1) as usize
    } else {
        sum as usize
    }
}

/// The line that reports a program counter outside the memory.
pub open spec fn counter_fault(pc: usize) -> Seq<char> {
    "Error: program counter "@ + decimal(pc as nat)
        + " out of bounds. To stop execution, use a `halt` instruction."@
}

/// The line that reports an access (`action` says which) to an address outside the memory.
pub open spec fn address_fault(action: Seq<char>, addr: usize) -> Seq<char> {
    "Error: "@ + action + " address "@ + decimal(addr as nat) + " out of bounds."@
}

/// The line that reports a division by zero by the instruction `instr` at address `pc`.
pub open spec fn division_fault(instr: Instruction, pc: usize) -> Seq<char> {
    "Error: division by zero in `"@ + instr.disassembly() + "` at address "@ + decimal(pc as nat)
        + "."@
}

/// The line that stands for a run that emitted nothing.
pub open spec fn no_output() -> Seq<char> {
    "<no output>"@
}

/// One register with its value, as `PrintRegisters` writes it.
pub open spec fn register_entry(registers: Seq<i64>, i: int) -> Seq<char> {
    "r"@ + decimal(i as nat) + ": "@ + signed_decimal(registers[i] as int)
}

/// The first `n` registers with their values, in ascending order, separated by `, `.
pub open spec fn register_list(registers: Seq<i64>, n: nat) -> Seq<char>
    decreases n,
{
    if n == 0 {
        Seq::empty()
    } else if n == 1 {
        register_entry(registers, 0)
    } else {
        register_list(registers, (n - 1) as nat) + ", "@ + register_entry(registers, n - 1)
    }
}

/// The line that lists all sixteen registers.
pub open spec fn register_dump(registers: Seq<i64>) -> Seq<char> {
    register_list(registers, 16)
}

/// What executing one instruction leaves the machine in.
#[derive(Clone, Copy, Debug, PartialEq, Eq, Structural)]
pub enum Outcome {
    /// The instruction was executed and the run goes on.
    Running,
    /// The instruction was `Halt`.
    HaltedNormally,
    /// The instruction could not be executed; the trace's last line says why.
    HaltedOnError,
}

/// The state of the machine.
pub struct Machine {
    /// The values of the sixteen registers.
    pub registers: Seq<i64>,
    /// The instruction memory; code and data share it.
    pub program: Seq<Instruction>,
    /// The address of the instruction to execute next.
    pub pc: usize,
    /// The lines emitted so far.
    pub output: Seq<Seq<char>>,
}

impl Machine {
    /// Sixteen registers and 1024 slots of memory.
    pub open spec fn wf(self) -> bool {
        &&& self.registers.len() == 16
        &&& self.program.len() == 1024
    }

    /// Well-formed, with no instruction in the memory that names a register the
    /// machine does not have.
    pub open spec fn valid(self) -> bool {
        &&& self.wf()
        &&& forall|i: int| 0 <= i < 1024 ==> (#[trigger] self.program[i]).valid()
    }

    /// The machine before its first step: `input` at the start of the memory,
    /// `Nop` in every slot behind it, all registers and the counter zero, and an
    /// empty trace.
    pub open spec fn initial(input: Seq<Instruction>) -> Machine {
        Machine {
            registers: Seq::new(16, |i: int| 0i64),
            program: fitted(input, 1024),
            pc: 0,
            output: Seq::empty(),
        }
    }

    /// The value of register `r`.
    pub open spec fn reg(self, r: Register) -> i64 {
        self.registers[r.index() as int]
    }

    /// The machine with `v` in register `r`.
    pub open spec fn with_reg(self, r: Register, v: i64) -> Machine {
        Machine { registers: self.registers.update(r.index() as int, v), ..self }
    }

    /// The machine with `v` in the link register, `r15`.
    pub open spec fn with_link(self, v: i64) -> Machine {
        Machine { registers: self.registers.update(15, v), ..self }
    }

    /// The machine with its counter at `target`.
    pub open spec fn jump(self, target: usize) -> Machine {
        Machine { pc: target, ..self }
    }

    /// The machine with its counter at the following slot.
    pub open spec fn advance(self) -> Machine {
        self.jump((self.pc + 1) as usize)
    }

    /// The machine with `line` appended to its trace.
    pub open spec fn emit(self, line: Seq<char>) -> Machine {
        Machine { output: self.output.push(line), ..self }
    }

    /// The machine with `instr` in the slot at `addr`.
    pub open spec fn store(self, addr: usize, instr: Instruction) -> Machine {
        Machine { program: self.program.update(addr as int, instr), ..self }
    }

    /// The instruction at the counter.
    pub open spec fn current(self) -> Instruction {
        self.program[self.pc as int]
    }

    /// The instruction in the slot before the counter; before slot 0 comes the last slot.
    pub open spec fn previous(self) -> Instruction {
        if self.pc == 0 {
            self.program[1023]
        } else {
            self.program[self.pc - 1]
        }
    }

    /// The line that the next step reports, where the instruction at the counter
    /// cannot be executed: the counter is outside the memory, a division is by
    /// zero, or a `Copy` or `Write` names an address outside the memory.
    pub open spec fn fault(self) -> Option<Seq<char>> {
        if self.pc >= 1024 {
            Some(counter_fault(self.pc))
        } else {
            match self.current() {
                Instruction::Div(_, _, src2) => if self.reg(src2) == 0 {
                    Some(division_fault(self.current(), self.pc))
                } else {
                    None
                },
                Instruction::Copy(dest, src) => if address(self.reg(src)) >= 1024 {
                    Some(address_fault("copy from"@, address(self.reg(src))))
                } else if address(self.reg(dest)) >= 1024 {
                    Some(address_fault("copy to"@, address(self.reg(dest))))
                } else {
                    None
                },
                Instruction::Write(dst, _) => if address(self.reg(dst)) >= 1024 {
                    Some(address_fault("write to"@, address(self.reg(dst))))
                } else {
                    None
                },
                _ => None,
            }
        }
    }

    /// What the next step leaves the machine in.
    pub open spec fn outcome(self) -> Outcome {
        if self.fault() is Some {
            Outcome::HaltedOnError
        } else if self.current() is Halt {
            Outcome::HaltedNormally
        } else {
            Outcome::Running
        }
    }

    /// The machine after the instruction at the counter, where that instruction
    /// can be executed.
    pub open spec fn execute(self) -> Machine {
        match self.current() {
            Instruction::Nop => self.advance(),
            Instruction::Mov(reg, val) => self.with_reg(reg, val).advance(),
            Instruction::Add(dest, src1, src2) => self.with_reg(
                dest,
                wrap(self.reg(src1) + self.reg(src2)),
            ).advance(),
            Instruction::Sub(dest, src1, src2) => self.with_reg(
                dest,
                wrap(self.reg(src1) - self.reg(src2)),
            ).advance(),
            Instruction::Mul(dest, src1, src2) => self.with_reg(
                dest,
                wrap(self.reg(src1) * self.reg(src2)),
            ).advance(),
            Instruction::Div(dest, src1, src2) => self.with_reg(
                dest,
                wrap(quotient(self.reg(src1) as int, self.reg(src2) as int)),
            ).advance(),
            Instruction::Print => self.emit(self.previous().disassembly()).advance(),
            Instruction::Printr => self.emit(self.previous().disassembly()).emit(
                register_dump(self.registers),
            ).advance(),
            Instruction::Copy(dest, src) => self.store(
                address(self.reg(dest)),
                self.program[address(self.reg(src)) as int],
            ).advance(),
            Instruction::Beq(reg1, reg2, reg3) => if self.reg(reg1) == self.reg(reg2) {
                self.jump(address(self.reg(reg3)))
            } else {
                self.advance()
            },
            Instruction::Bne(reg1, reg2, reg3) => if self.reg(reg1) != self.reg(reg2) {
                self.jump(address(self.reg(reg3)))
            } else {
                self.advance()
            },
            Instruction::J(reg) => self.jump(address(self.reg(reg))).with_link(
                (self.pc + 1) as i64,
            ),
            Instruction::Rj(reg) => self.jump(displaced(self.pc, self.reg(reg))),
            Instruction::Halt => self,
            Instruction::Write(dst, instr) => self.store(address(self.reg(dst)), *instr).advance(),
        }
    }

    /// The machine after one step: the fault's line appended to the trace where
    /// there is a fault, the instruction's effect otherwise.
    pub open spec fn next(self) -> Machine {
        match self.fault() {
            Some(line) => self.emit(line),
            None => self.execute(),
        }
    }

    /// What at most `steps` steps leave the machine in: `Running` where none of
    /// them stops it, else the outcome of the step that does.
    pub open spec fn outcome_after(self, steps: nat) -> Outcome
        decreases steps,
    {
        if steps == 0 {
            Outcome::Running
        } else if self.outcome() != Outcome::Running {
            self.outcome()
        } else {
            self.next().outcome_after((steps - 1) as nat)
        }
    }

    /// The machine after at most `steps` steps, the last of them the one that
    /// stops it, where one does.
    pub open spec fn after(self, steps: nat) -> Machine
        decreases steps,
    {
        if steps == 0 {
            self
        } else if self.outcome() != Outcome::Running {
            self.next()
        } else {
            self.next().after((steps - 1) as nat)
        }
    }

    /// Whether the machine stops within `steps` steps.
    pub open spec fn halts_within(self, steps: nat) -> bool {
        self.outcome_after(steps) != Outcome::Running
    }

    /// Whether the machine ever stops.
    pub open spec fn halts(self) -> bool {
        exists|steps: nat| self.halts_within(steps)
    }

    /// The machine with the line that stands for no output, where its trace is empty.
    pub open spec fn concluded(self) -> Machine {
        if self.output.len() == 0 {
            self.emit(no_output())
        } else {
            self
        }
    }
}

/// A machine that has stopped within `fewer` steps is in the same state, with
/// the same outcome, after any greater number of steps.
pub proof fn lemma_stopped_stays(m: Machine, fewer: nat, more: nat)
    requires
        m.halts_within(fewer),
        fewer <= more,
    ensures
        m.after(more) == m.after(fewer),
        m.outcome_after(more) == m.outcome_after(fewer),
    decreases fewer,
{
    if m.outcome() == Outcome::Running {
        lemma_stopped_stays(m.next(), (fewer - 1) as nat, (more - 1) as nat);
    }
}

/// Where a run stops does not depend on how many steps it was given, as long
/// as they were enough.
pub proof fn lemma_stop_is_unique(m: Machine, a: nat, b: nat)
    requires
        m.halts_within(a),
        m.halts_within(b),
    ensures
        m.after(a) == m.after(b),
        m.outcome_after(a) == m.outcome_after(b),
{
    if a <= b {
        lemma_stopped_stays(m, a, b);
    } else {
        lemma_stopped_stays(m, b, a);
    }
}

/// A machine that has stopped stays stopped: the step that stopped it would
/// stop it again, in the same way.
pub proof fn lemma_stopped_machine_stays_stopped(m: Machine)
    requires
        m.outcome() != Outcome::Running,
    ensures
        m.next().outcome() == m.outcome(),
        m.next().concluded().outcome() == m.outcome(),
{
}

/// A run that stops ends in a machine that has stopped, with a trace that is
/// not empty.
pub proof fn lemma_run_ends_stopped(m: Machine, steps: nat)
    requires
        m.halts_within(steps),
    ensures
        m.after(steps).concluded().outcome() == m.outcome_after(steps),
        m.after(steps).concluded().output.len() > 0,
    decreases steps,
{
    if m.outcome() != Outcome::Running {
        lemma_stopped_machine_stays_stopped(m);
    } else {
        lemma_run_ends_stopped(m.next(), (steps - 1) as nat);
    }
}

} // verus!
