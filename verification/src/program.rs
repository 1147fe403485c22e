//! Fitting a program to the part of the memory that is set aside for it.

use crate::ast::Instruction;
use crate::text::{decimal, push_decimal};
use vstd::prelude::*;
use vstd::string::*;

verus! {

/// `program` cut or filled up with `Nop` to exactly `len` instructions.
pub open spec fn fitted(program: Seq<Instruction>, len: nat) -> Seq<Instruction> {
    Seq::new(
        len,
        |i: int|
            if i < program.len() {
                program[i]
            } else {
                Instruction::Nop
            },
    )
}

/// The line that warns that the last `dropped` instructions of the code called
/// `code_name` were cut off.
pub open spec fn truncation_warning(code_name: Seq<char>, dropped: nat) -> Seq<char> {
    "WARN: "@ + code_name + " code is too long. "@ + decimal(dropped) + " instructions truncated."@
}

/// Cuts `program` or fills it up with `Nop` to exactly `len` instructions, and
/// warns where instructions were cut off.
pub fn fit_program(program: Vec<Instruction>, len: usize, code_name: &str) -> (out: (
    Vec<Instruction>,
    Option<String>,
))
    ensures
        out.0@ == fitted(program@, len as nat),
        program@.len() <= len ==> out.1 is None,
        program@.len() > len ==> out.1 is Some && out.1->0@ == truncation_warning(
            code_name@,
            (program@.len() - len) as nat,
        ),
{
    let mut program = program;
    let len_msg = if program.len() > len {
        let mut line = String::from_str("WARN: ");
        line.append(code_name);
        line.append(" code is too long. ");
        push_decimal(&mut line, (program.len() - len) as u64);
        line.append(" instructions truncated.");
        Some(line)
    } else {
        None
    };
    program.resize(len, Instruction::Nop);
    (program, len_msg)
}

} // verus!
