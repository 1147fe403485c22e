//! The instruction set and its textual form.

use crate::text::{decimal, push_decimal, push_signed, signed_decimal};
use vstd::prelude::*;
use vstd::std_specs::iter::IteratorSpec;
use vstd::string::*;

verus! {

/// One of the sixteen registers, `r0` to `r15`.
///
/// Every register that executable code holds has an index of at most 15.
#[derive(Clone, Copy, Debug)]
pub struct Register(u8);

impl Register {
    #[verifier::type_invariant]
    spec fn in_range(self) -> bool {
        self.0 <= 15
    }

    /// The number of the register.
    pub closed spec fn index(self) -> nat {
        self.0 as nat
    }

    /// Whether the register is one of the sixteen that the machine has.
    pub open spec fn valid(self) -> bool {
        self.index() <= 15
    }

    /// The register's name: `r` and its number.
    pub open spec fn text(self) -> Seq<char> {
        "r"@ + decimal(self.index())
    }

    /// The register with number `reg`, which must be one of 0 to 15.
    ///
    /// A caller that Verus has not seen, and that passes a greater number,
    /// is stopped here by a panic.
    pub fn new(reg: u8) -> (r: Register)
        requires
            reg <= 15,
        ensures
            r.index() == reg,
            r.valid(),
    {
        if reg > 15 {
            vstd::pervasive::unreached()
        } else {
            Register(reg)
        }
    }

    /// The register with number `reg`, or `None` where the machine has no such register.
    pub fn checked(reg: u8) -> (r: Option<Register>)
        ensures
            reg <= 15 ==> r is Some && r->0.index() == reg && r->0.valid(),
            reg > 15 ==> r is None,
    {
        if reg > 15 {
            None
        } else {
            Some(Register(reg))
        }
    }

    /// The number of the register.
    pub fn get(&self) -> (n: u8)
        ensures
            n == self.index(),
            n <= 15,
            self.valid(),
    {
        proof {
            use_type_invariant(self);
        }
        self.0
    }

    /// Appends the register's name to `out`.
    pub fn write_to(&self, out: &mut String)
        ensures
            final(out)@ == old(out)@ + self.text(),
    {
        out.append("r");
        push_decimal(out, self.0 as u64);
    }

    /// The register's name.
    pub fn to_string(&self) -> (s: String)
        ensures
            s@ == self.text(),
    {
        let mut s = String::new();
        self.write_to(&mut s);
        s
    }
}

/// A register is its number: two registers with the same number are the same.
pub proof fn lemma_register_is_its_index(a: Register, b: Register)
    ensures
        a.index() == b.index() <==> a == b,
{
}

/// One operation of the machine, with its operands.
#[derive(Debug)]
pub enum Instruction {
    /// Does nothing.
    Nop,
    /// Loads the immediate into the register.
    Mov(Register, i64),
    /// Stores the sum of the second and third register in the first.
    Add(Register, Register, Register),
    /// Stores the difference of the second and third register in the first.
    Sub(Register, Register, Register),
    /// Stores the product of the second and third register in the first.
    Mul(Register, Register, Register),
    /// Stores the quotient of the second and third register in the first.
    Div(Register, Register, Register),
    /// Emits the text of the instruction in the slot before this one.
    Print,
    /// As `Print`, followed by a line that lists all registers.
    Printr,
    /// Copies the slot whose address the second register holds to the slot whose
    /// address the first register holds.
    Copy(Register, Register),
    /// Where the first two registers are equal, jumps to the address in the third.
    Beq(Register, Register, Register),
    /// Where the first two registers differ, jumps to the address in the third.
    Bne(Register, Register, Register),
    /// Jumps to the address in the register and links the return address in `r15`.
    J(Register),
    /// Jumps by the signed offset in the register.
    Rj(Register),
    /// Stops the run.
    Halt,
    /// Stores the embedded instruction in the slot whose address the register holds.
    Write(Register, Box<Instruction>),
}

impl Clone for Instruction {
    fn clone(&self) -> (res: Self)
        ensures
            res == *self,
        decreases self,
    {
        match self {
            Instruction::Nop => Instruction::Nop,
            Instruction::Mov(reg, val) => Instruction::Mov(*reg, *val),
            Instruction::Add(dest, src1, src2) => Instruction::Add(*dest, *src1, *src2),
            Instruction::Sub(dest, src1, src2) => Instruction::Sub(*dest, *src1, *src2),
            Instruction::Mul(dest, src1, src2) => Instruction::Mul(*dest, *src1, *src2),
            Instruction::Div(dest, src1, src2) => Instruction::Div(*dest, *src1, *src2),
            Instruction::Print => Instruction::Print,
            Instruction::Printr => Instruction::Printr,
            Instruction::Copy(dest, src) => Instruction::Copy(*dest, *src),
            Instruction::Beq(reg1, reg2, reg3) => Instruction::Beq(*reg1, *reg2, *reg3),
            Instruction::Bne(reg1, reg2, reg3) => Instruction::Bne(*reg1, *reg2, *reg3),
            Instruction::J(reg) => Instruction::J(*reg),
            Instruction::Rj(reg) => Instruction::Rj(*reg),
            Instruction::Halt => Instruction::Halt,
            Instruction::Write(dst, instr) => Instruction::Write(
                *dst,
                Box::new((**instr).clone()),
            ),
        }
    }
}

/// A mnemonic followed by one register.
pub open spec fn one_register(name: Seq<char>, a: Register) -> Seq<char> {
    name + " "@ + a.text()
}

/// A mnemonic followed by two registers.
pub open spec fn two_registers(name: Seq<char>, a: Register, b: Register) -> Seq<char> {
    name + " "@ + a.text() + ", "@ + b.text()
}

/// A mnemonic followed by three registers.
pub open spec fn three_registers(name: Seq<char>, a: Register, b: Register, c: Register) -> Seq<
    char,
> {
    name + " "@ + a.text() + ", "@ + b.text() + ", "@ + c.text()
}

fn write_one(out: &mut String, name: &str, a: &Register)
    ensures
        final(out)@ == old(out)@ + one_register(name@, *a),
{
    out.append(name);
    out.append(" ");
    a.write_to(out);
}

fn write_two(out: &mut String, name: &str, a: &Register, b: &Register)
    ensures
        final(out)@ == old(out)@ + two_registers(name@, *a, *b),
{
    out.append(name);
    out.append(" ");
    a.write_to(out);
    out.append(", ");
    b.write_to(out);
}

fn write_three(out: &mut String, name: &str, a: &Register, b: &Register, c: &Register)
    ensures
        final(out)@ == old(out)@ + three_registers(name@, *a, *b, *c),
{
    out.append(name);
    out.append(" ");
    a.write_to(out);
    out.append(", ");
    b.write_to(out);
    out.append(", ");
    c.write_to(out);
}

impl Instruction {
    /// Whether every register that the instruction names, and every one that an
    /// embedded instruction names, is one of the sixteen.
    pub open spec fn valid(self) -> bool
        decreases self,
    {
        match self {
            Instruction::Nop | Instruction::Print | Instruction::Printr | Instruction::Halt => true,
            Instruction::Mov(reg, _) | Instruction::J(reg) | Instruction::Rj(reg) => reg.valid(),
            Instruction::Copy(dest, src) => dest.valid() && src.valid(),
            Instruction::Add(a, b, c)
            | Instruction::Sub(a, b, c)
            | Instruction::Mul(a, b, c)
            | Instruction::Div(a, b, c)
            | Instruction::Beq(a, b, c)
            | Instruction::Bne(a, b, c) => a.valid() && b.valid() && c.valid(),
            Instruction::Write(dst, instr) => dst.valid() && instr.valid(),
        }
    }

    /// The instruction as assembly text.
    pub open spec fn disassembly(self) -> Seq<char>
        decreases self,
    {
        match self {
            Instruction::Nop => "nop"@,
            Instruction::Mov(reg, val) => "mov"@ + " "@ + reg.text() + ", "@ + signed_decimal(
                val as int,
            ),
            Instruction::Add(dest, src1, src2) => three_registers("add"@, dest, src1, src2),
            Instruction::Sub(dest, src1, src2) => three_registers("sub"@, dest, src1, src2),
            Instruction::Mul(dest, src1, src2) => three_registers("mul"@, dest, src1, src2),
            Instruction::Div(dest, src1, src2) => three_registers("div"@, dest, src1, src2),
            Instruction::Print => "print"@,
            Instruction::Printr => "printr"@,
            Instruction::Copy(dest, src) => two_registers("copy"@, dest, src),
            Instruction::Beq(reg1, reg2, reg3) => three_registers("beq"@, reg1, reg2, reg3),
            Instruction::Bne(reg1, reg2, reg3) => three_registers("bne"@, reg1, reg2, reg3),
            Instruction::J(reg) => one_register("j"@, reg),
            Instruction::Rj(reg) => one_register("rj"@, reg),
            Instruction::Halt => "halt"@,
            Instruction::Write(dst, instr) => one_register("write"@, dst) + ", ["@
                + instr.disassembly() + "]"@,
        }
    }

    /// Appends the instruction's assembly text to `out`.
    pub fn write_to(&self, out: &mut String)
        ensures
            final(out)@ == old(out)@ + self.disassembly(),
        decreases self,
    {
        match self {
            Instruction::Nop => out.append("nop"),
            Instruction::Mov(reg, val) => {
                out.append("mov");
                out.append(" ");
                reg.write_to(out);
                out.append(", ");
                push_signed(out, *val);
            },
            Instruction::Add(dest, src1, src2) => write_three(out, "add", dest, src1, src2),
            Instruction::Sub(dest, src1, src2) => write_three(out, "sub", dest, src1, src2),
            Instruction::Mul(dest, src1, src2) => write_three(out, "mul", dest, src1, src2),
            Instruction::Div(dest, src1, src2) => write_three(out, "div", dest, src1, src2),
            Instruction::Print => out.append("print"),
            Instruction::Printr => out.append("printr"),
            Instruction::Copy(dest, src) => write_two(out, "copy", dest, src),
            Instruction::Beq(reg1, reg2, reg3) => write_three(out, "beq", reg1, reg2, reg3),
            Instruction::Bne(reg1, reg2, reg3) => write_three(out, "bne", reg1, reg2, reg3),
            Instruction::J(reg) => write_one(out, "j", reg),
            Instruction::Rj(reg) => write_one(out, "rj", reg),
            Instruction::Halt => out.append("halt"),
            Instruction::Write(dst, instr) => {
                write_one(out, "write", dst);
                out.append(", [");
                instr.write_to(out);
                out.append("]");
            },
        }
    }

    /// The instruction as assembly text.
    pub fn to_string(&self) -> (s: String)
        ensures
            s@ == self.disassembly(),
    {
        let mut s = String::new();
        self.write_to(&mut s);
        s
    }
}

/// One element of a program's source: an instruction, or a comment.
pub enum ProgramElement {
    /// An instruction.
    Instruction(Instruction),
    /// A comment, with its text.
    Comment(String),
}

/// The instructions among `program`, in their order.
pub open spec fn instructions_of(program: Seq<ProgramElement>) -> Seq<Instruction>
    decreases program.len(),
{
    if program.len() == 0 {
        Seq::empty()
    } else {
        match program.last() {
            ProgramElement::Instruction(instr) => instructions_of(program.drop_last()).push(instr),
            ProgramElement::Comment(_) => instructions_of(program.drop_last()),
        }
    }
}

/// The instructions of `program`, in their order, without the comments.
pub fn strip_comments(program: Vec<ProgramElement>) -> (instructions: Vec<Instruction>)
    ensures
        instructions@ == instructions_of(program@),
{
    let mut instructions: Vec<Instruction> = Vec::new();
    let mut i: usize = 0;
    while i < program.len()
        invariant
            i <= program@.len(),
            instructions@ == instructions_of(program@.take(i as int)),
        decreases program@.len() - i,
    {
        assert(program@.take(i + 1).drop_last() =~= program@.take(i as int));
        match &program[i] {
            ProgramElement::Instruction(instr) => instructions.push(instr.clone()),
            ProgramElement::Comment(_) => {},
        }
        i += 1;
    }
    assert(program@.take(i as int) =~= program@);
    instructions
}

/// A position in a text: a line and a column, both counted from zero.
pub struct LineCol(pub usize, pub usize);

/// The number of line breaks in `text`.
pub open spec fn line_breaks(text: Seq<char>) -> nat
    decreases text.len(),
{
    if text.len() == 0 {
        0
    } else if text.last() == '\n' {
        line_breaks(text.drop_last()) + 1
    } else {
        line_breaks(text.drop_last())
    }
}

/// The number of characters of `text` behind its last line break.
pub open spec fn last_line_len(text: Seq<char>) -> nat
    decreases text.len(),
{
    if text.len() == 0 || text.last() == '\n' {
        0
    } else {
        last_line_len(text.drop_last()) + 1
    }
}

/// The part of `code` before the character at `pos`; all of it where `pos` is behind its end.
pub open spec fn before(code: Seq<char>, pos: usize) -> Seq<char> {
    if pos <= code.len() {
        code.take(pos as int)
    } else {
        code
    }
}

proof fn lemma_counts_bounded(text: Seq<char>)
    ensures
        line_breaks(text) <= text.len(),
        last_line_len(text) <= text.len(),
    decreases text.len(),
{
    if text.len() > 0 {
        lemma_counts_bounded(text.drop_last());
    }
}

/// The line and column of the character at `pos` in `code`, or of the end of
/// `code` where `pos` is behind it.
pub fn get_line_col(code: &str, pos: usize) -> (at: LineCol)
    ensures
        at.0 == line_breaks(before(code@, pos)),
        at.1 == last_line_len(before(code@, pos)),
{
    let mut line: usize = 0;
    let mut col: usize = 0;
    let mut i: usize = 0;
    let mut chars = code.chars();
    loop
        invariant
            i <= pos,
            i <= code@.len(),
            chars.remaining() == code@.skip(i as int),
            line == line_breaks(code@.take(i as int)),
            col == last_line_len(code@.take(i as int)),
        ensures
            i == pos || i == code@.len(),
        decreases code@.len() - i,
    {
        if i == pos {
            break ;
        }
        match chars.next() {
            None => {
                break ;
            },
            Some(c) => {
                proof {
                    assert(code@.take(i + 1).drop_last() =~= code@.take(i as int));
                    lemma_counts_bounded(code@.take(i as int));
                }
                if c == '\n' {
                    line += 1;
                    col = 0;
                } else {
                    col += 1;
                }
                i += 1;
            },
        }
    }
    LineCol(line, col)
}

impl LineCol {
    /// The position as text: the line, a colon, and the column.
    pub open spec fn text(self) -> Seq<char> {
        decimal(self.0 as nat) + ":"@ + decimal(self.1 as nat)
    }

    /// The position as text.
    pub fn to_string(&self) -> (s: String)
        ensures
            s@ == self.text(),
    {
        let mut s = String::new();
        push_decimal(&mut s, self.0 as u64);
        s.append(":");
        push_decimal(&mut s, self.1 as u64);
        s
    }
}

} // verus!
