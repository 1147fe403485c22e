//! What holds of every machine: consequences of the model in [`crate::machine`],
//! each proved from its definitions.

use crate::ast::{Instruction, Register};
use crate::machine::{
    address, address_fault, counter_fault, division_fault, lemma_stop_is_unique, quotient,
    register_dump, register_entry, register_list, wrap, Machine, Outcome,
};
use vstd::prelude::*;

verus! {

/// Wrapping keeps a value that fits in 64 bits, and otherwise changes it by a
/// multiple of 2^64 to one that does.
pub proof fn lemma_wrap_is_modular(x: int)
    ensures
        i64::MIN <= x <= i64::MAX ==> wrap(x) == x,
        (wrap(x) - x) % 0x1_0000_0000_0000_0000 == 0,
{
}

/// `Add`, `Sub` and `Mul` never stop the machine, whatever the registers hold:
/// the destination gets the result wrapped to 64 bits, the counter moves on,
/// and the memory and the trace stay as they were.
pub proof fn lemma_arithmetic_wraps(m: Machine, dest: Register, src1: Register, src2: Register)
    requires
        m.wf(),
        m.pc < 1024,
        dest.valid(),
        m.current() == Instruction::Add(dest, src1, src2) || m.current() == Instruction::Sub(
            dest,
            src1,
            src2,
        ) || m.current() == Instruction::Mul(dest, src1, src2),
    ensures
        m.outcome() == Outcome::Running,
        m.current() is Add ==> m.next().reg(dest) == wrap(m.reg(src1) + m.reg(src2)),
        m.current() is Sub ==> m.next().reg(dest) == wrap(m.reg(src1) - m.reg(src2)),
        m.current() is Mul ==> m.next().reg(dest) == wrap(m.reg(src1) * m.reg(src2)),
        m.next().registers == m.registers.update(
            dest.index() as int,
            m.next().reg(dest),
        ),
        m.next().pc == m.pc + 1,
        m.next().program == m.program,
        m.next().output == m.output,
{
}

/// A register that an instruction writes holds the written value afterwards, and
/// every other register holds what it held.
pub proof fn lemma_with_reg_reads_back(m: Machine, written: Register, v: i64, read: Register)
    requires
        m.wf(),
        written.valid(),
        read.valid(),
    ensures
        m.with_reg(written, v).wf(),
        m.with_reg(written, v).reg(read) == if read.index() == written.index() {
            v
        } else {
            m.reg(read)
        },
{
}

/// A division by zero stops the machine with an error: the trace gets the line
/// that names the division, and nothing else changes. Any other division goes
/// on, with the quotient rounded toward zero and wrapped to 64 bits.
pub proof fn lemma_division(m: Machine, dest: Register, src1: Register, src2: Register)
    requires
        m.pc < 1024,
        m.current() == Instruction::Div(dest, src1, src2),
    ensures
        m.reg(src2) == 0 ==> m.outcome() == Outcome::HaltedOnError && m.next() == m.emit(
            division_fault(m.current(), m.pc),
        ),
        m.reg(src2) != 0 ==> m.outcome() == Outcome::Running && m.next() == m.with_reg(
            dest,
            wrap(quotient(m.reg(src1) as int, m.reg(src2) as int)),
        ).advance() && m.next().output == m.output,
{
}

/// A register value from 0 to the largest machine word is its own address, so
/// it is inside the memory exactly if it is less than 1024.
pub proof fn lemma_address_of_word(v: i64)
    requires
        0 <= v <= usize::MAX,
    ensures
        address(v) == v,
        address(v) < 1024 <==> v < 1024,
{
}

/// `Copy` from or to an address outside the memory stops the machine with an
/// error that names the address, the source first; nothing else changes.
/// With both addresses inside, the source slot's instruction is also in the
/// destination slot afterwards, the trace is as it was, and the run goes on.
pub proof fn lemma_copy_checks_addresses(m: Machine, dest: Register, src: Register)
    requires
        m.wf(),
        m.pc < 1024,
        m.current() == Instruction::Copy(dest, src),
    ensures
        ({
            let from = address(m.reg(src));
            let to = address(m.reg(dest));
            &&& from >= 1024 ==> m.outcome() == Outcome::HaltedOnError && m.next() == m.emit(
                address_fault("copy from"@, from),
            )
            &&& from < 1024 && to >= 1024 ==> m.outcome() == Outcome::HaltedOnError && m.next()
                == m.emit(address_fault("copy to"@, to))
            &&& from < 1024 && to < 1024 ==> m.outcome() == Outcome::Running && m.next()
                == m.store(to, m.program[from as int]).advance() && m.next().output == m.output
                && m.next().program[to as int] == m.program[from as int]
        }),
{
}

/// `Write` to an address outside the memory stops the machine with an error
/// that names the address; nothing else changes. With the address inside, the
/// embedded instruction is in that slot afterwards, the trace is as it was, and
/// the run goes on.
pub proof fn lemma_write_checks_address(m: Machine, dst: Register, instr: Instruction)
    requires
        m.wf(),
        m.pc < 1024,
        m.current() == Instruction::Write(dst, Box::new(instr)),
    ensures
        ({
            let to = address(m.reg(dst));
            &&& to >= 1024 ==> m.outcome() == Outcome::HaltedOnError && m.next() == m.emit(
                address_fault("write to"@, to),
            )
            &&& to < 1024 ==> m.outcome() == Outcome::Running && m.next() == m.store(
                to,
                instr,
            ).advance() && m.next().output == m.output && m.next().program[to as int] == instr
        }),
{
}

/// `Print` in slot `k` emits the text of the instruction that slot `k - 1`
/// holds when `Print` is executed; in slot 0 it emits that of slot 1023.
pub proof fn lemma_print_shows_previous_slot(m: Machine)
    requires
        m.pc < 1024,
        m.current() == Instruction::Print,
    ensures
        m.outcome() == Outcome::Running,
        m.pc > 0 ==> m.next().output == m.output.push(m.program[m.pc - 1].disassembly()),
        m.pc == 0 ==> m.next().output == m.output.push(m.program[1023].disassembly()),
        m.next().pc == m.pc + 1,
        m.next().registers == m.registers,
        m.next().program == m.program,
{
}

/// `Printr` emits the same line as `Print`, and behind it the line that lists
/// the registers.
pub proof fn lemma_printr_lists_registers(m: Machine)
    requires
        m.pc < 1024,
        m.current() == Instruction::Printr,
    ensures
        m.outcome() == Outcome::Running,
        m.next().output == m.output.push(m.previous().disassembly()).push(
            register_dump(m.registers),
        ),
        m.next().pc == m.pc + 1,
        m.next().registers == m.registers,
        m.next().program == m.program,
{
}

/// The line that lists the registers names all sixteen in ascending order,
/// each as `r<i>: <value>`, with `, ` between two of them and nothing behind
/// the last.
pub proof fn lemma_register_dump_format(r: Seq<i64>)
    ensures
        register_dump(r) == register_entry(r, 0) + ", "@ + register_entry(r, 1) + ", "@
            + register_entry(r, 2) + ", "@ + register_entry(r, 3) + ", "@ + register_entry(r, 4)
            + ", "@ + register_entry(r, 5) + ", "@ + register_entry(r, 6) + ", "@ + register_entry(
            r,
            7,
        ) + ", "@ + register_entry(r, 8) + ", "@ + register_entry(r, 9) + ", "@ + register_entry(
            r,
            10,
        ) + ", "@ + register_entry(r, 11) + ", "@ + register_entry(r, 12) + ", "@
            + register_entry(r, 13) + ", "@ + register_entry(r, 14) + ", "@ + register_entry(
            r,
            15,
        ),
{
    reveal_with_fuel(register_list, 17);
}

/// `J` through a register sets the counter to the address that the register
/// held, and `r15` to the address of the slot behind the jump.
pub proof fn lemma_jump_links(m: Machine, reg: Register)
    requires
        m.wf(),
        m.pc < 1024,
        m.current() == Instruction::J(reg),
    ensures
        m.outcome() == Outcome::Running,
        m.next().pc == address(m.reg(reg)),
        0 <= m.reg(reg) <= usize::MAX ==> m.next().pc == m.reg(reg),
        m.next().registers == m.registers.update(15, (m.pc + 1) as i64),
        m.next().registers[15] == m.pc + 1,
        m.next().program == m.program,
        m.next().output == m.output,
{
}

/// A negative register value down to -1024 stands for the address that lies
/// as far below the end of the address space.
pub proof fn lemma_address_of_small_negative(v: i64)
    requires
        -1024 <= v < 0,
    ensures
        address(v) == usize::MAX + 1 + v,
{
    assert((0x1_0000_0000u64 as usize == 0 && v as usize == 0x1_0000_0000 + v) || (
    0x1_0000_0000u64 as usize != 0 && v as usize == 0x1_0000_0000_0000_0000 + v)) by (bit_vector)
        requires
            -1024 <= v < 0,
    ;
}

/// `Rj` moves the counter by the offset in the register: forward by a value
/// that is not negative, and back by a negative one, as far as slot 0.
pub proof fn lemma_relative_jump(m: Machine, reg: Register)
    requires
        m.pc < 1024,
        m.current() == Instruction::Rj(reg),
        -m.pc <= m.reg(reg),
        m.pc + m.reg(reg) <= usize::MAX,
    ensures
        m.outcome() == Outcome::Running,
        m.next().pc == m.pc + m.reg(reg),
        m.next().registers == m.registers,
        m.next().program == m.program,
        m.next().output == m.output,
{
    let v: i64 = m.reg(reg);
    if v < 0 {
        lemma_address_of_small_negative(v);
    }
}

/// A branch jumps to the address in its third register exactly if its
/// condition holds, and moves on to the next slot otherwise. The target is not
/// checked at the branch.
pub proof fn lemma_branch(m: Machine, reg1: Register, reg2: Register, reg3: Register)
    requires
        m.pc < 1024,
    ensures
        m.current() == Instruction::Beq(reg1, reg2, reg3) ==> m.outcome() == Outcome::Running
            && m.next() == if m.reg(reg1) == m.reg(reg2) {
            m.jump(address(m.reg(reg3)))
        } else {
            m.advance()
        },
        m.current() == Instruction::Bne(reg1, reg2, reg3) ==> m.outcome() == Outcome::Running
            && m.next() == if m.reg(reg1) != m.reg(reg2) {
            m.jump(address(m.reg(reg3)))
        } else {
            m.advance()
        },
{
}

/// The memory has no halt behind its last slot: a counter outside the memory
/// stops the machine with an error that names the counter.
pub proof fn lemma_counter_outside_memory(m: Machine)
    requires
        m.pc >= 1024,
    ensures
        m.outcome() == Outcome::HaltedOnError,
        m.next() == m.emit(counter_fault(m.pc)),
{
}

/// `Halt` stops the machine and changes nothing.
pub proof fn lemma_halt_stops(m: Machine)
    requires
        m.pc < 1024,
        m.current() == Instruction::Halt,
    ensures
        m.outcome() == Outcome::HaltedNormally,
        m.next() == m,
{
}

/// A step of a valid machine leaves it valid: whatever a program copies or
/// writes into the memory, the memory holds only instructions on registers
/// that the machine has.
pub proof fn lemma_step_keeps_valid(m: Machine)
    requires
        m.valid(),
    ensures
        m.next().valid(),
{
}

/// The machine before its first step is valid where its program is.
pub proof fn lemma_initial_is_valid(input: Seq<Instruction>)
    requires
        input.len() <= 1024,
        forall|i: int| 0 <= i < input.len() ==> (#[trigger] input[i]).valid(),
    ensures
        Machine::initial(input).valid(),
{
}

/// A counter that stands in front of nothing but `Nop`s runs off the end of
/// the memory: the run passes every slot that is left, changes neither
/// registers nor memory, and stops with the error that names counter 1024.
pub proof fn lemma_nops_run_off_the_end(m: Machine)
    requires
        m.wf(),
        m.pc <= 1024,
        forall|i: int| m.pc <= i < 1024 ==> m.program[i] == Instruction::Nop,
    ensures
        m.outcome_after((1025 - m.pc) as nat) == Outcome::HaltedOnError,
        m.after((1025 - m.pc) as nat) == m.jump(1024).emit(counter_fault(1024)),
    decreases 1024 - m.pc,
{
    if m.pc < 1024 {
        lemma_nops_run_off_the_end(m.next());
    }
}

/// A program of one `Mov` and nothing else never meets a `Halt`: it loads
/// its register, passes the 1023 `Nop`s behind it, and stops at counter 1024
/// with the error that names that counter as the only line of the trace.
pub proof fn lemma_program_without_halt_faults(reg: Register, val: i64)
    requires
        reg.valid(),
    ensures
        ({
            let start = Machine::initial(seq![Instruction::Mov(reg, val)]);
            &&& start.halts_within(1025)
            &&& start.outcome_after(1025) == Outcome::HaltedOnError
            &&& start.after(1025).pc == 1024
            &&& start.after(1025).registers == start.registers.update(reg.index() as int, val)
            &&& start.after(1025).program == start.program
            &&& start.after(1025).concluded().output == seq![counter_fault(1024)]
        }),
{
    let start = Machine::initial(seq![Instruction::Mov(reg, val)]);
    lemma_nops_run_off_the_end(start.next());
}

/// Only `Mov`, `Add`, `Sub`, `Mul`, `Div` and `J` write a register.
pub proof fn lemma_registers_change_only_by_writes(m: Machine)
    requires
        !(m.pc < 1024 && (m.current() is Mov || m.current() is Add || m.current() is Sub
            || m.current() is Mul || m.current() is Div || m.current() is J)),
    ensures
        m.next().registers == m.registers,
{
}

/// Only `Copy` and `Write` change the memory, and each only the slot that it names.
pub proof fn lemma_memory_changes_only_by_stores(m: Machine, slot: int)
    requires
        m.wf(),
        0 <= slot < 1024,
    ensures
        !(m.pc < 1024 && (m.current() is Copy || m.current() is Write)) ==> m.next().program
            == m.program,
        m.pc < 1024 && m.current() is Copy && slot != address(m.reg(m.current()->Copy_0))
            ==> m.next().program[slot] == m.program[slot],
        m.pc < 1024 && m.current() is Write && slot != address(m.reg(m.current()->Write_0))
            ==> m.next().program[slot] == m.program[slot],
{
}

/// The trace only grows: a step keeps every line that was emitted before it.
pub proof fn lemma_step_extends_trace(m: Machine)
    ensures
        m.output.is_prefix_of(m.next().output),
        m.next().output.len() <= m.output.len() + 2,
{
}

/// The trace only grows: what a run has emitted stays, in its order, whatever
/// the run does afterwards.
pub proof fn lemma_run_extends_trace(m: Machine, steps: nat)
    ensures
        m.output.is_prefix_of(m.after(steps).output),
        m.output.is_prefix_of(m.after(steps).concluded().output),
    decreases steps,
{
    if steps > 0 {
        lemma_step_extends_trace(m);
        if m.outcome() == Outcome::Running {
            lemma_run_extends_trace(m.next(), (steps - 1) as nat);
        }
    }
}

/// Two runs of the same program end in the same state, with the same trace,
/// however many steps each was given to stop in.
pub proof fn lemma_same_program_same_trace(
    first: Seq<Instruction>,
    second: Seq<Instruction>,
    a: nat,
    b: nat,
)
    requires
        first == second,
        Machine::initial(first).halts_within(a),
        Machine::initial(second).halts_within(b),
    ensures
        Machine::initial(first).after(a).concluded() == Machine::initial(second).after(
            b,
        ).concluded(),
        Machine::initial(first).after(a).concluded().output == Machine::initial(second).after(
            b,
        ).concluded().output,
{
    lemma_stop_is_unique(Machine::initial(first), a, b);
}

} // verus!
