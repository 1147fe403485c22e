use register_machine::ast::{Instruction, Register};
use register_machine::machine::Outcome;
use register_machine::simulator::Simulator;

fn r(n: u8) -> Register {
    Register::new(n)
}

fn texts(sim: &Simulator, from: usize, to: usize) -> Vec<String> {
    (from..to).map(|i| sim.program[i].to_string()).collect()
}

#[test]
fn new_pads_with_nop_and_starts_from_zero() {
    let sim = Simulator::new(&[Instruction::Mov(r(2), 7), Instruction::Halt]);
    assert_eq!(sim.registers, [0i64; 16]);
    assert_eq!(sim.pc, 0);
    assert!(sim.output.is_empty());
    assert_eq!(sim.program.len(), 1024);
    assert_eq!(texts(&sim, 0, 3), vec!["mov r2, 7", "halt", "nop"]);
    assert!(sim.program[2..].iter().all(|i| matches!(i, Instruction::Nop)));
}

#[test]
fn new_of_nothing_is_all_nop() {
    let sim = Simulator::new(&[]);
    assert!(sim.program.iter().all(|i| matches!(i, Instruction::Nop)));
}

#[test]
fn new_keeps_a_full_memory_in_order() {
    let input: Vec<Instruction> = (0..1024).map(|i| Instruction::Mov(r(0), i)).collect();
    let sim = Simulator::new(&input);
    for i in 0..1024 {
        assert_eq!(sim.program[i].to_string(), format!("mov r0, {}", i));
    }
}

#[test]
fn halt_alone_leaves_the_sentinel() {
    let mut sim = Simulator::new(&[Instruction::Halt]);
    sim.run();
    assert_eq!(sim.output, vec!["<no output>".to_string()]);
    assert_eq!(sim.pc, 0);
}

#[test]
fn sentinel_is_not_added_to_a_trace_with_lines() {
    let mut sim = Simulator::new(&[Instruction::Nop, Instruction::Print, Instruction::Halt]);
    sim.run();
    assert_eq!(sim.output, vec!["nop".to_string()]);
}

#[test]
fn mov_loads_any_immediate() {
    let mut sim = Simulator::new(&[
        Instruction::Mov(r(0), i64::MAX),
        Instruction::Mov(r(15), i64::MIN),
        Instruction::Mov(r(7), -1),
        Instruction::Halt,
    ]);
    sim.run();
    assert_eq!(sim.registers[0], i64::MAX);
    assert_eq!(sim.registers[15], i64::MIN);
    assert_eq!(sim.registers[7], -1);
    assert_eq!(sim.pc, 3);
}

#[test]
fn add_wraps_from_max_to_min() {
    let mut sim = Simulator::new(&[
        Instruction::Mov(r(1), i64::MAX),
        Instruction::Mov(r(2), 1),
        Instruction::Add(r(0), r(1), r(2)),
        Instruction::Halt,
    ]);
    assert_eq!(sim.run_bounded(10), Outcome::HaltedNormally);
    assert_eq!(sim.registers[0], i64::MIN);
    assert_eq!(sim.output, vec!["<no output>".to_string()]);
}

#[test]
fn sub_wraps_from_min_to_max() {
    let mut sim = Simulator::new(&[
        Instruction::Mov(r(1), i64::MIN),
        Instruction::Mov(r(2), 1),
        Instruction::Sub(r(0), r(1), r(2)),
        Instruction::Halt,
    ]);
    sim.run();
    assert_eq!(sim.registers[0], i64::MAX);
}

#[test]
fn mul_wraps_modulo_two_to_the_64() {
    let mut sim = Simulator::new(&[
        Instruction::Mov(r(1), i64::MAX),
        Instruction::Mov(r(2), 2),
        Instruction::Mul(r(0), r(1), r(2)),
        Instruction::Mov(r(3), 0x1_0000_0001),
        Instruction::Mul(r(4), r(3), r(3)),
        Instruction::Mov(r(5), -3),
        Instruction::Mul(r(6), r(5), r(2)),
        Instruction::Halt,
    ]);
    sim.run();
    assert_eq!(sim.registers[0], -2);
    assert_eq!(sim.registers[4], 0x2_0000_0001);
    assert_eq!(sim.registers[6], -6);
}

#[test]
fn arithmetic_in_range_is_exact() {
    let mut sim = Simulator::new(&[
        Instruction::Mov(r(1), 20),
        Instruction::Mov(r(2), -6),
        Instruction::Add(r(3), r(1), r(2)),
        Instruction::Sub(r(4), r(1), r(2)),
        Instruction::Mul(r(5), r(1), r(2)),
        Instruction::Div(r(6), r(1), r(2)),
        Instruction::Halt,
    ]);
    sim.run();
    assert_eq!(&sim.registers[3..7], &[14, 26, -120, -3]);
}

#[test]
fn div_rounds_toward_zero() {
    let mut sim = Simulator::new(&[
        Instruction::Mov(r(1), -7),
        Instruction::Mov(r(2), 2),
        Instruction::Mov(r(3), 7),
        Instruction::Mov(r(4), -2),
        Instruction::Div(r(5), r(1), r(2)),
        Instruction::Div(r(6), r(3), r(4)),
        Instruction::Div(r(7), r(1), r(4)),
        Instruction::Div(r(8), r(3), r(2)),
        Instruction::Div(r(9), r(0), r(2)),
        Instruction::Halt,
    ]);
    sim.run();
    assert_eq!(&sim.registers[5..10], &[-3, -3, 3, 3, 0]);
}

#[test]
fn div_of_min_by_minus_one_wraps() {
    let mut sim = Simulator::new(&[
        Instruction::Mov(r(1), i64::MIN),
        Instruction::Mov(r(2), -1),
        Instruction::Div(r(0), r(1), r(2)),
        Instruction::Halt,
    ]);
    assert_eq!(sim.run_bounded(10), Outcome::HaltedNormally);
    assert_eq!(sim.registers[0], i64::MIN);
}

#[test]
fn div_by_zero_halts_with_an_error_line() {
    let mut sim = Simulator::new(&[
        Instruction::Mov(r(1), 9),
        Instruction::Print,
        Instruction::Div(r(0), r(1), r(2)),
        Instruction::Mov(r(3), 1),
        Instruction::Halt,
    ]);
    assert_eq!(sim.run_bounded(10), Outcome::HaltedOnError);
    assert_eq!(
        sim.output,
        vec![
            "mov r1, 9".to_string(),
            "Error: division by zero in `div r0, r1, r2` at address 2.".to_string(),
        ]
    );
    assert_eq!(sim.pc, 2);
    assert_eq!(sim.registers[0], 0);
    assert_eq!(sim.registers[3], 0);
}

#[test]
fn div_by_zero_through_run_returns() {
    let mut sim = Simulator::new(&[Instruction::Div(r(0), r(0), r(0))]);
    sim.run();
    assert_eq!(
        sim.output,
        vec!["Error: division by zero in `div r0, r0, r0` at address 0.".to_string()]
    );
}

#[test]
fn print_echoes_previous_slot() {
    let mut sim = Simulator::new(&[
        Instruction::Mov(r(1), -42),
        Instruction::Print,
        Instruction::Halt,
    ]);
    assert_eq!(sim.run_bounded(100), Outcome::HaltedNormally);
    assert_eq!(sim.output, vec!["mov r1, -42".to_string()]);
    assert_eq!(sim.registers[1], -42);
    assert_eq!(sim.pc, 2);
}

#[test]
fn print_shows_the_slot_as_rewritten() {
    // Slot 3 is rewritten twice before the print in slot 4 is reached.
    let mut sim = Simulator::new(&[
        Instruction::Mov(r(0), 3),
        Instruction::Write(r(0), Box::new(Instruction::Mov(r(9), 1))),
        Instruction::Copy(r(0), r(1)),
        Instruction::Halt,
        Instruction::Print,
        Instruction::Halt,
    ]);
    sim.run();
    assert_eq!(sim.output, vec!["mov r0, 3".to_string()]);
    assert_eq!(sim.registers[0], 3);
    assert_eq!(sim.pc, 5);
}

#[test]
fn print_in_slot_zero_shows_the_last_slot() {
    let mut sim = Simulator::new(&[
        Instruction::Print,
        Instruction::Bne(r(5), r(6), r(7)),
        Instruction::Mov(r(0), 1023),
        Instruction::Write(r(0), Box::new(Instruction::Mov(r(3), 7))),
        Instruction::Mov(r(5), 1),
        Instruction::Mov(r(7), 8),
        Instruction::J(r(1)),
        Instruction::Nop,
        Instruction::Halt,
    ]);
    sim.run();
    assert_eq!(sim.output, vec!["nop".to_string(), "mov r3, 7".to_string()]);
    assert_eq!(sim.pc, 8);
    assert_eq!(sim.program[1023].to_string(), "mov r3, 7");
}

#[test]
fn printr_lists_all_registers() {
    let mut sim = Simulator::new(&[
        Instruction::Mov(r(0), 5),
        Instruction::Mov(r(1), -3),
        Instruction::Mov(r(15), i64::MIN),
        Instruction::Mov(r(14), i64::MAX),
        Instruction::Printr,
        Instruction::Halt,
    ]);
    sim.run();
    assert_eq!(
        sim.output,
        vec![
            "mov r14, 9223372036854775807".to_string(),
            "r0: 5, r1: -3, r2: 0, r3: 0, r4: 0, r5: 0, r6: 0, r7: 0, r8: 0, r9: 0, r10: 0, \
             r11: 0, r12: 0, r13: 0, r14: 9223372036854775807, r15: -9223372036854775808"
                .to_string(),
        ]
    );
}

#[test]
fn printr_in_slot_zero_shows_the_last_slot() {
    let mut sim = Simulator::new(&[Instruction::Printr, Instruction::Halt]);
    sim.run();
    assert_eq!(sim.output.len(), 2);
    assert_eq!(sim.output[0], "nop");
    assert_eq!(
        sim.output[1],
        "r0: 0, r1: 0, r2: 0, r3: 0, r4: 0, r5: 0, r6: 0, r7: 0, r8: 0, r9: 0, r10: 0, r11: 0, \
         r12: 0, r13: 0, r14: 0, r15: 0"
    );
}

#[test]
fn copy_moves_a_whole_instruction() {
    let mut sim = Simulator::new(&[
        Instruction::Mov(r(1), 6),
        Instruction::Mov(r(2), 5),
        Instruction::Copy(r(1), r(2)),
        Instruction::Halt,
        Instruction::Nop,
        Instruction::Write(
            r(3),
            Box::new(Instruction::Write(r(4), Box::new(Instruction::Halt))),
        ),
    ]);
    assert_eq!(sim.run_bounded(10), Outcome::HaltedNormally);
    assert_eq!(sim.program[6].to_string(), "write r3, [write r4, [halt]]");
    assert_eq!(sim.program[5].to_string(), "write r3, [write r4, [halt]]");
    assert_eq!(sim.output, vec!["<no output>".to_string()]);
    assert_eq!(sim.pc, 3);
}

#[test]
fn copy_to_the_last_slot_succeeds() {
    let mut sim = Simulator::new(&[
        Instruction::Mov(r(1), 1023),
        Instruction::Copy(r(1), r(0)),
        Instruction::Halt,
    ]);
    assert_eq!(sim.run_bounded(10), Outcome::HaltedNormally);
    assert_eq!(sim.program[1023].to_string(), "mov r1, 1023");
}

#[test]
fn copy_from_out_of_bounds_halts() {
    let mut sim = Simulator::new(&[
        Instruction::Mov(r(2), 1024),
        Instruction::Mov(r(1), 5000),
        Instruction::Copy(r(1), r(2)),
        Instruction::Halt,
    ]);
    assert_eq!(sim.run_bounded(10), Outcome::HaltedOnError);
    assert_eq!(
        sim.output,
        vec!["Error: copy from address 1024 out of bounds.".to_string()]
    );
    assert_eq!(sim.pc, 2);
}

#[test]
fn copy_to_out_of_bounds_halts() {
    let mut sim = Simulator::new(&[
        Instruction::Mov(r(1), 123456789),
        Instruction::Copy(r(1), r(2)),
        Instruction::Halt,
    ]);
    sim.run();
    assert_eq!(
        sim.output,
        vec!["Error: copy to address 123456789 out of bounds.".to_string()]
    );
    assert!(sim.program[2..].iter().skip(1).all(|i| matches!(i, Instruction::Nop)));
}

#[test]
fn write_out_of_bounds_halts() {
    let mut sim = Simulator::new(&[
        Instruction::Mov(r(1), 1024),
        Instruction::Write(r(1), Box::new(Instruction::Halt)),
        Instruction::Halt,
    ]);
    assert_eq!(sim.run_bounded(10), Outcome::HaltedOnError);
    assert_eq!(
        sim.output,
        vec!["Error: write to address 1024 out of bounds.".to_string()]
    );
    assert_eq!(sim.pc, 1);
}

#[test]
fn negative_address_is_out_of_bounds() {
    let mut sim = Simulator::new(&[
        Instruction::Mov(r(1), -1),
        Instruction::Write(r(1), Box::new(Instruction::Halt)),
        Instruction::Halt,
    ]);
    assert_eq!(sim.run_bounded(10), Outcome::HaltedOnError);
    assert_eq!(
        sim.output,
        vec![format!("Error: write to address {} out of bounds.", usize::MAX)]
    );
}

#[test]
fn write_then_jump_stops_at_the_written_halt() {
    let mut sim = Simulator::new(&[
        Instruction::Mov(r(0), 10),
        Instruction::Write(r(0), Box::new(Instruction::Halt)),
        Instruction::J(r(0)),
    ]);
    sim.run();
    assert_eq!(sim.pc, 10);
    assert_eq!(sim.registers[15], 3);
    assert_eq!(sim.program[10].to_string(), "halt");
    assert_eq!(sim.output, vec!["<no output>".to_string()]);
}

#[test]
fn without_the_write_the_jump_runs_off_the_end() {
    let mut sim = Simulator::new(&[Instruction::Mov(r(0), 10), Instruction::Nop, Instruction::J(r(0))]);
    assert_eq!(sim.run_bounded(5000), Outcome::HaltedOnError);
    assert_eq!(sim.pc, 1024);
}

#[test]
fn write_can_deposit_a_write() {
    let mut sim = Simulator::new(&[
        Instruction::Mov(r(0), 3),
        Instruction::Mov(r(1), 4),
        Instruction::Write(
            r(0),
            Box::new(Instruction::Write(r(1), Box::new(Instruction::Halt))),
        ),
    ]);
    assert_eq!(sim.run_bounded(10), Outcome::HaltedNormally);
    assert_eq!(sim.pc, 4);
    assert_eq!(texts(&sim, 3, 5), vec!["write r1, [halt]", "halt"]);
}

#[test]
fn no_halt_runs_off_the_end() {
    let mut program = vec![Instruction::Mov(r(0), 5)];
    for _ in 0..1023 {
        program.push(Instruction::Nop);
    }
    let mut sim = Simulator::new(&program);
    sim.run();
    assert_eq!(
        sim.output,
        vec![
            "Error: program counter 1024 out of bounds. To stop execution, use a `halt` instruction."
                .to_string()
        ]
    );
    assert_eq!(sim.registers[0], 5);
    assert_eq!(sim.pc, 1024);
}

#[test]
fn jump_sets_counter_and_link() {
    let mut sim = Simulator::new(&[
        Instruction::Mov(r(1), 3),
        Instruction::J(r(1)),
        Instruction::Mov(r(2), 99),
        Instruction::Halt,
    ]);
    assert_eq!(sim.step(), Outcome::Running);
    assert_eq!(sim.step(), Outcome::Running);
    assert_eq!(sim.pc, 3);
    assert_eq!(sim.registers[15], 2);
    assert_eq!(sim.step(), Outcome::HaltedNormally);
    assert_eq!(sim.registers[2], 0);
}

#[test]
fn jump_through_the_link_register_uses_its_old_value() {
    let mut sim = Simulator::new(&[
        Instruction::Mov(r(15), 2),
        Instruction::J(r(15)),
        Instruction::Halt,
    ]);
    sim.run();
    assert_eq!(sim.pc, 2);
    assert_eq!(sim.registers[15], 2);
}

#[test]
fn call_and_return_through_the_link() {
    let mut sim = Simulator::new(&[
        Instruction::Mov(r(1), 4),
        Instruction::J(r(1)),
        Instruction::Print,
        Instruction::Halt,
        Instruction::Mov(r(2), 8),
        Instruction::Beq(r(0), r(0), r(15)),
    ]);
    sim.run();
    assert_eq!(sim.output, vec!["j r1".to_string()]);
    assert_eq!(sim.registers[2], 8);
    assert_eq!(sim.registers[15], 2);
    assert_eq!(sim.pc, 3);
}

#[test]
fn jump_out_of_bounds_is_caught_at_the_next_fetch() {
    let mut sim = Simulator::new(&[Instruction::Mov(r(1), 2000), Instruction::J(r(1))]);
    assert_eq!(sim.step(), Outcome::Running);
    assert_eq!(sim.step(), Outcome::Running);
    assert_eq!(sim.pc, 2000);
    assert!(sim.output.is_empty());
    assert_eq!(sim.step(), Outcome::HaltedOnError);
    assert_eq!(
        sim.output,
        vec![
            "Error: program counter 2000 out of bounds. To stop execution, use a `halt` instruction."
                .to_string()
        ]
    );
    assert_eq!(sim.pc, 2000);
    assert_eq!(sim.registers[15], 2);
}

#[test]
fn branches_compare_by_value() {
    let mut sim = Simulator::new(&[
        Instruction::Mov(r(1), 7),
        Instruction::Mov(r(2), 7),
        Instruction::Mov(r(3), 6),
        Instruction::Bne(r(1), r(2), r(3)),
        Instruction::Beq(r(1), r(2), r(3)),
        Instruction::Mov(r(4), 1),
        Instruction::Beq(r(1), r(3), r(0)),
        Instruction::Mov(r(8), 9),
        Instruction::Bne(r(1), r(3), r(8)),
        Instruction::Halt,
    ]);
    let mut seen = vec![];
    loop {
        seen.push(sim.pc);
        if sim.step() != Outcome::Running {
            break;
        }
    }
    assert_eq!(seen, vec![0, 1, 2, 3, 4, 6, 7, 8, 9]);
    assert_eq!(sim.registers[4], 0);
}

#[test]
fn branch_target_is_not_checked_at_the_branch() {
    let mut sim = Simulator::new(&[
        Instruction::Mov(r(3), -5),
        Instruction::Beq(r(0), r(0), r(3)),
        Instruction::Halt,
    ]);
    assert_eq!(sim.step(), Outcome::Running);
    assert_eq!(sim.step(), Outcome::Running);
    assert_eq!(sim.pc, (-5i64) as usize);
    assert_eq!(sim.step(), Outcome::HaltedOnError);
    assert_eq!(
        sim.output,
        vec![format!(
            "Error: program counter {} out of bounds. To stop execution, use a `halt` instruction.",
            (-5i64) as usize
        )]
    );
}

#[test]
fn relative_jump_goes_forward_and_back() {
    // Counts r0 up to 3 with a backward jump, then leaves the loop forward.
    let mut sim = Simulator::new(&[
        Instruction::Mov(r(1), 1),
        Instruction::Mov(r(2), 3),
        Instruction::Mov(r(3), -2),
        Instruction::Mov(r(4), 2),
        Instruction::Mov(r(5), 8),
        Instruction::Add(r(0), r(0), r(1)),
        Instruction::Beq(r(0), r(2), r(5)),
        Instruction::Rj(r(3)),
        Instruction::Rj(r(4)),
        Instruction::Mov(r(9), 1),
        Instruction::Halt,
    ]);
    assert_eq!(sim.run_bounded(1000), Outcome::HaltedNormally);
    assert_eq!(sim.registers[0], 3);
    assert_eq!(sim.registers[9], 0);
    assert_eq!(sim.registers[15], 0);
    assert_eq!(sim.pc, 10);
}

#[test]
fn relative_jump_below_zero_is_out_of_bounds() {
    let mut sim = Simulator::new(&[
        Instruction::Mov(r(3), -2),
        Instruction::Rj(r(3)),
        Instruction::Halt,
    ]);
    assert_eq!(sim.run_bounded(10), Outcome::HaltedOnError);
    assert_eq!(sim.pc, usize::MAX);
    assert_eq!(sim.output.len(), 1);
}

#[test]
fn relative_jump_by_zero_never_moves() {
    let mut sim = Simulator::new(&[Instruction::Nop, Instruction::Rj(r(0)), Instruction::Halt]);
    assert_eq!(sim.run_bounded(500), Outcome::Running);
    assert_eq!(sim.pc, 1);
    assert!(sim.output.is_empty());
}

#[test]
fn bounded_run_can_be_resumed() {
    let program = [
        Instruction::Mov(r(1), 1),
        Instruction::Print,
        Instruction::Add(r(0), r(0), r(1)),
        Instruction::Print,
        Instruction::Halt,
    ];
    let mut whole = Simulator::new(&program);
    whole.run();
    let mut parts = Simulator::new(&program);
    assert_eq!(parts.run_bounded(0), Outcome::Running);
    assert_eq!(parts.pc, 0);
    assert_eq!(parts.run_bounded(2), Outcome::Running);
    assert_eq!(parts.pc, 2);
    assert_eq!(parts.output, vec!["mov r1, 1".to_string()]);
    assert_eq!(parts.run_bounded(2), Outcome::Running);
    assert_eq!(parts.pc, 4);
    assert_eq!(parts.run_bounded(1), Outcome::HaltedNormally);
    assert_eq!(parts.output, whole.output);
    assert_eq!(parts.registers, whole.registers);
    assert_eq!(parts.pc, whole.pc);
    assert_eq!(
        whole.output,
        vec!["mov r1, 1".to_string(), "add r0, r0, r1".to_string()]
    );
}

#[test]
fn bounded_run_that_does_not_stop_adds_no_sentinel() {
    let mut sim = Simulator::new(&[Instruction::Nop, Instruction::Nop, Instruction::Halt]);
    assert_eq!(sim.run_bounded(2), Outcome::Running);
    assert!(sim.output.is_empty());
    assert_eq!(sim.run_bounded(1), Outcome::HaltedNormally);
    assert_eq!(sim.output, vec!["<no output>".to_string()]);
}

#[test]
fn a_stopped_machine_stays_stopped() {
    let mut sim = Simulator::new(&[Instruction::Print, Instruction::Halt]);
    sim.run();
    let (pc, registers, output) = (sim.pc, sim.registers, sim.output.clone());
    sim.run();
    assert_eq!(sim.step(), Outcome::HaltedNormally);
    assert_eq!((sim.pc, sim.registers, sim.output.clone()), (pc, registers, output));
}

#[test]
fn a_fault_is_reported_again_when_stepped_again() {
    let mut sim = Simulator::new(&[Instruction::Div(r(0), r(0), r(0))]);
    assert_eq!(sim.step(), Outcome::HaltedOnError);
    assert_eq!(sim.step(), Outcome::HaltedOnError);
    assert_eq!(sim.output.len(), 2);
    assert_eq!(sim.output[0], sim.output[1]);
    assert_eq!(sim.pc, 0);
}

#[test]
fn two_runs_of_one_program_agree() {
    let program = [
        Instruction::Mov(r(1), 3),
        Instruction::Mov(r(2), 1),
        Instruction::Mov(r(3), 4),
        Instruction::Mov(r(4), 8),
        Instruction::Printr,
        Instruction::Sub(r(1), r(1), r(2)),
        Instruction::Bne(r(1), r(0), r(3)),
        Instruction::Write(r(4), Box::new(Instruction::Div(r(5), r(5), r(1)))),
        Instruction::Nop,
    ];
    let mut first = Simulator::new(&program);
    let mut second = Simulator::new(&program);
    first.run();
    let mut fresh_registers = Simulator::new(&[]);
    fresh_registers.run();
    second.run();
    assert_eq!(first.output, second.output);
    assert_eq!(first.registers, second.registers);
    assert_eq!(first.pc, second.pc);
    assert_eq!(first.output.len(), 7);
    assert_eq!(
        first.output[6],
        "Error: division by zero in `div r5, r5, r1` at address 8."
    );
}
