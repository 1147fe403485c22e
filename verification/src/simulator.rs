//! The engine: a register file, an instruction memory, a program counter and a trace.

use crate::ast::Instruction;
use crate::machine::{
    address_fault, counter_fault, division_fault, lemma_run_ends_stopped, lemma_stop_is_unique,
    quotient, register_dump, register_list, wrap, Machine, Outcome, MEMORY_SIZE, REGISTER_COUNT,
};
use crate::text::{push_decimal, push_signed};
use vstd::prelude::*;
use vstd::string::*;

verus! {

/// The machine as it runs.
pub struct Simulator {
    /// The register file.
    pub registers: [i64; 16],
    /// The instruction memory.
    pub program: [Instruction; 1024],
    /// The program counter.
    pub pc: usize,
    /// The trace.
    pub output: Vec<String>,
}

/// The lines that a trace holds.
pub open spec fn lines(output: Seq<String>) -> Seq<Seq<char>> {
    output.map_values(|line: String| line@)
}

impl View for Simulator {
    type V = Machine;

    open spec fn view(&self) -> Machine {
        Machine {
            registers: self.registers@,
            program: self.program@,
            pc: self.pc,
            output: lines(self.output@),
        }
    }
}

/// Every engine is a well-formed machine.
pub proof fn lemma_view_wf(s: Simulator)
    ensures
        s@.wf(),
{
}

/// `TryFrom<Vec<T>>` for arrays, from the standard library: a vector of exactly
/// 1024 instructions becomes the array of the same instructions in the same
/// order; a vector of any other length comes back unchanged as the error.
#[verifier::external_body]
fn into_memory(slots: Vec<Instruction>) -> (memory: Result<[Instruction; 1024], Vec<Instruction>>)
    ensures
        memory is Ok <==> slots@.len() == 1024,
        memory is Ok ==> memory->Ok_0@ == slots@,
        memory is Err ==> memory->Err_0@ == slots@,
{
    slots.try_into()
}

fn counter_fault_line(pc: usize) -> (line: String)
    ensures
        line@ == counter_fault(pc),
{
    let mut line = String::from_str("Error: program counter ");
    push_decimal(&mut line, pc as u64);
    line.append(" out of bounds. To stop execution, use a `halt` instruction.");
    line
}

fn address_fault_line(action: &str, addr: usize) -> (line: String)
    ensures
        line@ == address_fault(action@, addr),
{
    let mut line = String::from_str("Error: ");
    line.append(action);
    line.append(" address ");
    push_decimal(&mut line, addr as u64);
    line.append(" out of bounds.");
    line
}

fn division_fault_line(instr: &Instruction, pc: usize) -> (line: String)
    ensures
        line@ == division_fault(*instr, pc),
{
    let mut line = String::from_str("Error: division by zero in `");
    instr.write_to(&mut line);
    line.append("` at address ");
    push_decimal(&mut line, pc as u64);
    line.append(".");
    line
}

fn register_dump_line(registers: &[i64; 16]) -> (line: String)
    ensures
        line@ == register_dump(registers@),
{
    let mut line = String::new();
    let mut i: usize = 0;
    while i < REGISTER_COUNT
        invariant
            i <= 16,
            line@ == register_list(registers@, i as nat),
        decreases 16 - i,
    {
        if i > 0 {
            line.append(", ");
        }
        line.append("r");
        push_decimal(&mut line, i as u64);
        line.append(": ");
        push_signed(&mut line, registers[i]);
        i += 1;
    }
    line
}

/// The quotient of `a` by `b`, rounded toward zero and wrapped to 64 bits.
fn wrapping_quotient(a: i64, b: i64) -> (q: i64)
    requires
        b != 0,
    ensures
        q == wrap(quotient(a as int, b as int)),
{
    match a.checked_div(b) {
        Some(q) => q,
        None => i64::MIN,
    }
}


impl Simulator {
    /// A machine with `input` at the start of its memory and `Nop` in every
    /// other slot, before its first step. The memory has room for 1024
    /// instructions.
    ///
    /// A caller that Verus has not seen, and that passes more, is stopped here
    /// by a panic.
    pub fn new(input: &[Instruction]) -> (s: Simulator)
        requires
            input@.len() <= 1024,
        ensures
            s@ == Machine::initial(input@),
            s@.wf(),
    {
        if input.len() > MEMORY_SIZE {
            return vstd::pervasive::unreached();
        }
        let mut slots: Vec<Instruction> = Vec::new();
        let mut i: usize = 0;
        while i < MEMORY_SIZE
            invariant
                i <= 1024,
                slots@.len() == i,
                forall|j: int| 0 <= j < i ==> slots@[j] == Machine::initial(input@).program[j],
            decreases 1024 - i,
        {
            if i < input.len() {
                slots.push(input[i].clone());
            } else {
                slots.push(Instruction::Nop);
            }
            i += 1;
        }
        match into_memory(slots) {
            Ok(program) => {
                let s = Simulator { registers: [0; 16], program, pc: 0, output: Vec::new() };
                assert(s@.registers =~= Machine::initial(input@).registers);
                assert(s@.program =~= Machine::initial(input@).program);
                assert(s@.output =~= Machine::initial(input@).output);
                s
            },
            Err(_) => vstd::pervasive::unreached(),
        }
    }
    fn emit(&mut self, line: String)
        ensures
            final(self)@ == old(self)@.emit(line@),
    {
        self.output.push(line);
        assert(self@.output =~= old(self)@.output.push(line@));
    }

    fn previous_text(&self) -> (line: String)
        requires
            self.pc < 1024,
        ensures
            line@ == self@.previous().disassembly(),
    {
        let slot: usize = if self.pc == 0 {
            MEMORY_SIZE - 1
        } else {
            self.pc - 1
        };
        self.program[slot].to_string()
    }

    /// Executes the instruction at the counter, or reports why it cannot be
    /// executed, and says whether the run goes on.
    pub fn step(&mut self) -> (outcome: Outcome)
        ensures
            final(self)@ == old(self)@.next(),
            outcome == old(self)@.outcome(),
    {
        if self.pc >= MEMORY_SIZE {
            self.emit(counter_fault_line(self.pc));
            return Outcome::HaltedOnError;
        }
        let instr = self.program[self.pc].clone();
        match instr {
            Instruction::Nop => {
                self.pc += 1;
            },
            Instruction::Mov(reg, val) => {
                self.registers[reg.get() as usize] = val;
                self.pc += 1;
            },
            Instruction::Add(dest, src1, src2) => {
                let a: i64 = self.registers[src1.get() as usize];
                let b: i64 = self.registers[src2.get() as usize];
                self.registers[dest.get() as usize] = a.wrapping_add(b);
                self.pc += 1;
            },
            Instruction::Sub(dest, src1, src2) => {
                let a: i64 = self.registers[src1.get() as usize];
                let b: i64 = self.registers[src2.get() as usize];
                self.registers[dest.get() as usize] = a.wrapping_sub(b);
                self.pc += 1;
            },
            Instruction::Mul(dest, src1, src2) => {
                let a: i64 = self.registers[src1.get() as usize];
                let b: i64 = self.registers[src2.get() as usize];
                self.registers[dest.get() as usize] = a.wrapping_mul(b);
                self.pc += 1;
            },
            Instruction::Div(dest, src1, src2) => {
                let a: i64 = self.registers[src1.get() as usize];
                let b: i64 = self.registers[src2.get() as usize];
                if b == 0 {
                    self.emit(division_fault_line(&instr, self.pc));
                    return Outcome::HaltedOnError;
                }
                self.registers[dest.get() as usize] = wrapping_quotient(a, b);
                self.pc += 1;
            },
            Instruction::Print => {
                let line = self.previous_text();
                self.emit(line);
                self.pc += 1;
            },
            Instruction::Printr => {
                let line = self.previous_text();
                self.emit(line);
                let dump = register_dump_line(&self.registers);
                self.emit(dump);
                self.pc += 1;
            },
            Instruction::Copy(dest, src) => {
                let src_addr: usize = #[verifier::truncate]
                (self.registers[src.get() as usize] as usize);
                if src_addr >= MEMORY_SIZE {
                    self.emit(address_fault_line("copy from", src_addr));
                    return Outcome::HaltedOnError;
                }
                let dest_addr: usize = #[verifier::truncate]
                (self.registers[dest.get() as usize] as usize);
                if dest_addr >= MEMORY_SIZE {
                    self.emit(address_fault_line("copy to", dest_addr));
                    return Outcome::HaltedOnError;
                }
                self.program[dest_addr] = self.program[src_addr].clone();
                self.pc += 1;
            },
            Instruction::Beq(reg1, reg2, reg3) => {
                if self.registers[reg1.get() as usize] == self.registers[reg2.get() as usize] {
                    self.pc = #[verifier::truncate]
                    (self.registers[reg3.get() as usize] as usize);
                } else {
                    self.pc += 1;
                }
            },
            Instruction::Bne(reg1, reg2, reg3) => {
                if self.registers[reg1.get() as usize] != self.registers[reg2.get() as usize] {
                    self.pc = #[verifier::truncate]
                    (self.registers[reg3.get() as usize] as usize);
                } else {
                    self.pc += 1;
                }
            },
            Instruction::J(reg) => {
                let link: i64 = self.pc as i64 + 1;
                self.pc = #[verifier::truncate]
                (self.registers[reg.get() as usize] as usize);
                self.registers[15] = link;
            },
            Instruction::Rj(reg) => {
                let offset: usize = #[verifier::truncate]
                (self.registers[reg.get() as usize] as usize);
                self.pc = self.pc.wrapping_add(offset);
            },
            Instruction::Write(dst, instr) => {
                let dest_addr: usize = #[verifier::truncate]
                (self.registers[dst.get() as usize] as usize);
                if dest_addr >= MEMORY_SIZE {
                    self.emit(address_fault_line("write to", dest_addr));
                    return Outcome::HaltedOnError;
                }
                self.program[dest_addr] = *instr;
                self.pc += 1;
            },
            Instruction::Halt => {
                return Outcome::HaltedNormally;
            },
        }
        Outcome::Running
    }

    fn conclude(&mut self)
        ensures
            final(self)@ == old(self)@.concluded(),
    {
        if self.output.len() == 0 {
            self.emit(String::from_str("<no output>"));
        }
    }

    /// Runs the machine until it stops: on `Halt`, or on an instruction that
    /// cannot be executed. A trace that is still empty then gets the line that
    /// stands for no output.
    ///
    /// The machine must be one that stops: a program that loops forever has no
    /// final state to return with.
    pub fn run(&mut self)
        requires
            old(self)@.halts(),
        ensures
            forall|steps: nat|
                old(self)@.halts_within(steps) ==> final(self)@ == old(self)@.after(
                    steps,
                ).concluded(),
            final(self)@.outcome() != Outcome::Running,
            final(self)@.output.len() > 0,
    {
        let ghost start = self@;
        let ghost total: nat = choose|steps: nat| start.halts_within(steps);
        let ghost mut fuel: nat = total;
        loop
            invariant_except_break
                self@.halts_within(fuel),
                self@.after(fuel) == start.after(total),
            ensures
                self@ == start.after(total),
            decreases fuel,
        {
            let outcome = self.step();
            if outcome != Outcome::Running {
                break ;
            }
            proof {
                fuel = (fuel - 1) as nat;
            }
        }
        proof {
            assert forall|steps: nat| start.halts_within(steps) implies start.after(steps)
                == start.after(total) by {
                lemma_stop_is_unique(start, steps, total);
            }
            lemma_run_ends_stopped(start, total);
        }
        self.conclude();
    }

    /// Runs the machine for at most `max_steps` steps and says how that ended.
    ///
    /// Where one of these steps stops the machine, the run is over: the result
    /// is that step's outcome, and an empty trace gets the line that stands for
    /// no output. Otherwise the result is `Running` and the machine can be run
    /// further from where it is.
    pub fn run_bounded(&mut self, max_steps: u64) -> (outcome: Outcome)
        ensures
            outcome == old(self)@.outcome_after(max_steps as nat),
            final(self)@ == if outcome == Outcome::Running {
                old(self)@.after(max_steps as nat)
            } else {
                old(self)@.after(max_steps as nat).concluded()
            },
    {
        let ghost start = self@;
        let mut remaining: u64 = max_steps;
        while remaining > 0
            invariant
                start == old(self)@,
                self@.after(remaining as nat) == start.after(max_steps as nat),
                self@.outcome_after(remaining as nat) == start.outcome_after(max_steps as nat),
            decreases remaining,
        {
            let outcome = self.step();
            if outcome != Outcome::Running {
                self.conclude();
                return outcome;
            }
            remaining -= 1;
        }
        Outcome::Running
    }
}

} // verus!
