//! Behavioural tests: the generated Hack code is assembled and run on a
//! small Hack machine model (two registers, 32K words of RAM, 16-bit
//! two's-complement arithmetic), and the final memory state is checked
//! against the stack-machine meaning of the VM program.

use vm_translator::hack;
use vm_translator::hack::CompMnemonic;
use vm_translator::hack::DestMnemonic;
use vm_translator::hack::JumpMnemonic;
use vm_translator::to_assembler::translate;
use vm_translator::vm;

enum Instr {
    Imm(i16),
    Compute(hack::CCommand),
}

fn predefined(sym: &str) -> Option<i16> {
    match sym {
        "SP" => Some(0),
        "LCL" => Some(1),
        "ARG" => Some(2),
        "THIS" => Some(3),
        "THAT" => Some(4),
        "SCREEN" => Some(16384),
        "KBD" => Some(24576),
        _ => {
            if let Some(rest) = sym.strip_prefix('R') {
                if let Ok(n) = rest.parse::<i16>() {
                    if (0..=15).contains(&n) && rest == n.to_string() {
                        return Some(n);
                    }
                }
            }
            None
        },
    }
}

/// Two passes: place labels, then resolve symbols (variables from 16 up).
fn assemble(cmds: &[hack::Command]) -> Vec<Instr> {
    let mut label_addr: Vec<(String, i16)> = Vec::new();
    let mut pc: i16 = 0;
    for cmd in cmds {
        match cmd {
            hack::Command::L(sym) => label_addr.push((sym.get().to_string(), pc)),
            _ => pc += 1,
        }
    }
    let mut vars: Vec<(String, i16)> = Vec::new();
    let mut next_var: i16 = 16;
    let mut out = Vec::new();
    for cmd in cmds {
        match cmd {
            hack::Command::L(_) => {},
            hack::Command::C(c) => out.push(Instr::Compute(*c)),
            hack::Command::A(hack::ACommand::Address(n)) => out.push(Instr::Imm(*n as i16)),
            hack::Command::A(hack::ACommand::Symbol(sym)) => {
                let name = sym.get();
                let value = if let Some(v) = predefined(name) {
                    v
                } else if let Some((_, v)) = label_addr.iter().find(|(l, _)| l == name) {
                    *v
                } else if let Some((_, v)) = vars.iter().find(|(l, _)| l == name) {
                    *v
                } else {
                    let v = next_var;
                    vars.push((name.to_string(), v));
                    next_var += 1;
                    v
                };
                out.push(Instr::Imm(value));
            },
        }
    }
    out
}

fn eval_comp(comp: CompMnemonic, a: i16, d: i16, m: i16) -> i16 {
    match comp {
        CompMnemonic::Zero => 0,
        CompMnemonic::One => 1,
        CompMnemonic::MinusOne => -1,
        CompMnemonic::D => d,
        CompMnemonic::A => a,
        CompMnemonic::M => m,
        CompMnemonic::NegateD => !d,
        CompMnemonic::NegateA => !a,
        CompMnemonic::NegateM => !m,
        CompMnemonic::MinusD => d.wrapping_neg(),
        CompMnemonic::MinusA => a.wrapping_neg(),
        CompMnemonic::MinusM => m.wrapping_neg(),
        CompMnemonic::DPlusOne => d.wrapping_add(1),
        CompMnemonic::APlusOne => a.wrapping_add(1),
        CompMnemonic::MPlusOne => m.wrapping_add(1),
        CompMnemonic::DMinusOne => d.wrapping_sub(1),
        CompMnemonic::AMinusOne => a.wrapping_sub(1),
        CompMnemonic::MMinusOne => m.wrapping_sub(1),
        CompMnemonic::DPlusA => d.wrapping_add(a),
        CompMnemonic::DPlusM => d.wrapping_add(m),
        CompMnemonic::DMinusA => d.wrapping_sub(a),
        CompMnemonic::DMinusM => d.wrapping_sub(m),
        CompMnemonic::AMinusD => a.wrapping_sub(d),
        CompMnemonic::MMinusD => m.wrapping_sub(d),
        CompMnemonic::DAndA => d & a,
        CompMnemonic::DAndM => d & m,
        CompMnemonic::DOrA => d | a,
        CompMnemonic::DOrM => d | m,
    }
}

fn jump_taken(jump: JumpMnemonic, value: i16) -> bool {
    match jump {
        JumpMnemonic::JGT => value > 0,
        JumpMnemonic::JEQ => value == 0,
        JumpMnemonic::JGE => value >= 0,
        JumpMnemonic::JLT => value < 0,
        JumpMnemonic::JNE => value != 0,
        JumpMnemonic::JLE => value <= 0,
        JumpMnemonic::JMP => true,
    }
}

fn dest_flags(dest: DestMnemonic) -> (bool, bool, bool) {
    match dest {
        DestMnemonic::M => (false, false, true),
        DestMnemonic::D => (false, true, false),
        DestMnemonic::MD => (false, true, true),
        DestMnemonic::A => (true, false, false),
        DestMnemonic::AM => (true, false, true),
        DestMnemonic::AD => (true, true, false),
        DestMnemonic::AMD => (true, true, true),
    }
}

/// Run from instruction 0 with `SP = 256` and the given extra initial RAM
/// cells, until the program counter leaves the program or the step budget
/// is spent. Returns the RAM.
fn run(cmds: &[hack::Command], steps: usize, init: &[(usize, i16)]) -> Vec<i16> {
    let instrs = assemble(cmds);
    let mut ram = vec![0i16; 32768];
    ram[0] = 256;
    for (addr, value) in init {
        ram[*addr] = *value;
    }
    let mut a: i16 = 0;
    let mut d: i16 = 0;
    let mut pc: usize = 0;
    for _ in 0..steps {
        if pc >= instrs.len() {
            break;
        }
        match &instrs[pc] {
            Instr::Imm(v) => {
                a = *v;
                pc += 1;
            },
            Instr::Compute(c) => {
                let addr = (a as u16 as usize) % 32768;
                let value = eval_comp(c.comp, a, d, ram[addr]);
                if let Some(dest) = c.dest {
                    let (wa, wd, wm) = dest_flags(dest);
                    if wm {
                        ram[addr] = value;
                    }
                    if wd {
                        d = value;
                    }
                    if wa {
                        a = value;
                    }
                }
                let mut jumped = false;
                if let Some(j) = c.jump {
                    if jump_taken(j, value) {
                        pc = a as u16 as usize;
                        jumped = true;
                    }
                }
                if !jumped {
                    pc += 1;
                }
            },
        }
    }
    ram
}

fn push_const(value: u16) -> vm::Command {
    vm::Command::MemoryAccess(vm::MemoryAccessCommand {
        access_type: vm::AccessType::Push,
        segment: vm::Segment::Constant,
        index: vm::Index::new(value),
    })
}

fn access(access_type: vm::AccessType, segment: vm::Segment, index: u16) -> vm::Command {
    vm::Command::MemoryAccess(vm::MemoryAccessCommand {
        access_type,
        segment,
        index: vm::Index::new(index),
    })
}

fn arith(op: vm::ArithmeticCommand) -> vm::Command {
    vm::Command::Arithmetic(op)
}

fn run_unit(cmds: Vec<vm::Command>, steps: usize) -> Vec<i16> {
    let out = translate(cmds, "Foo").unwrap();
    run(&out, steps, &[])
}

#[test]
fn add_after_two_pushes_nets_one_slot() {
    let ram = run_unit(
        vec![push_const(3), push_const(4), arith(vm::ArithmeticCommand::Add)],
        1000,
    );
    assert_eq!(ram[0], 257);
    assert_eq!(ram[256], 7);
}

#[test]
fn sub_and_neg_compute_signed_results() {
    let ram = run_unit(
        vec![
            push_const(4),
            push_const(10),
            arith(vm::ArithmeticCommand::Sub),
            arith(vm::ArithmeticCommand::Neg),
        ],
        1000,
    );
    assert_eq!(ram[0], 257);
    assert_eq!(ram[256], 6);
}

#[test]
fn comparisons_leave_minus_one_or_zero() {
    let ram = run_unit(
        vec![push_const(5), push_const(5), arith(vm::ArithmeticCommand::Eq)],
        1000,
    );
    assert_eq!(ram[256], -1);
    let ram = run_unit(
        vec![push_const(5), push_const(4), arith(vm::ArithmeticCommand::Eq)],
        1000,
    );
    assert_eq!(ram[256], 0);
    let ram = run_unit(
        vec![push_const(3), push_const(5), arith(vm::ArithmeticCommand::Lt)],
        1000,
    );
    assert_eq!(ram[256], -1);
    let ram = run_unit(
        vec![push_const(3), push_const(5), arith(vm::ArithmeticCommand::Gt)],
        1000,
    );
    assert_eq!(ram[256], 0);
}

#[test]
fn logical_operators_work_bitwise() {
    let ram = run_unit(
        vec![push_const(12), push_const(10), arith(vm::ArithmeticCommand::And)],
        1000,
    );
    assert_eq!(ram[256], 8);
    let ram = run_unit(
        vec![push_const(12), push_const(10), arith(vm::ArithmeticCommand::Or)],
        1000,
    );
    assert_eq!(ram[256], 14);
    let ram = run_unit(vec![push_const(0), arith(vm::ArithmeticCommand::Not)], 1000);
    assert_eq!(ram[256], -1);
}

#[test]
fn segment_stores_land_in_the_right_cells() {
    let ram = run_unit(
        vec![push_const(42), access(vm::AccessType::Pop, vm::Segment::Static, 3)],
        1000,
    );
    assert_eq!(ram[16], 42, "first static symbol is allocated at 16");
    assert_eq!(ram[0], 256);

    let ram = run_unit(
        vec![push_const(9), access(vm::AccessType::Pop, vm::Segment::Pointer, 0)],
        1000,
    );
    assert_eq!(ram[3], 9, "pointer 0 is THIS");

    let ram = run_unit(
        vec![push_const(8), access(vm::AccessType::Pop, vm::Segment::Temp, 2)],
        1000,
    );
    assert_eq!(ram[7], 8, "temp 2 is R7");
}

#[test]
fn push_pops_round_trip_through_a_base_segment() {
    let program = vec![
        push_const(77),
        access(vm::AccessType::Pop, vm::Segment::Local, 2),
        access(vm::AccessType::Push, vm::Segment::Local, 2),
    ];
    let out = translate(program, "Foo").unwrap();
    let ram = run(&out, 1000, &[(1, 300)]);
    assert_eq!(ram[302], 77);
    assert_eq!(ram[256], 77);
    assert_eq!(ram[0], 257);
}

#[test]
fn if_goto_pops_and_branches_on_nonzero() {
    let taken = run_unit(
        vec![
            vm::Command::Function { name: vm::Label::new("Foo.main"), local_variable_count: 0 },
            push_const(1),
            vm::Command::IfGoto(vm::Label::new("END")),
            push_const(99),
            vm::Command::Label(vm::Label::new("END")),
        ],
        1000,
    );
    assert_eq!(taken[0], 256, "the branch skipped the push");
    let fallthrough = run_unit(
        vec![
            vm::Command::Function { name: vm::Label::new("Foo.main"), local_variable_count: 0 },
            push_const(0),
            vm::Command::IfGoto(vm::Label::new("END")),
            push_const(99),
            vm::Command::Label(vm::Label::new("END")),
        ],
        1000,
    );
    assert_eq!(fallthrough[0], 257);
    assert_eq!(fallthrough[256], 99);
}

#[test]
fn call_and_return_restore_the_caller_frame() {
    let program = vec![
        vm::Command::Function { name: vm::Label::new("Foo.main"), local_variable_count: 0 },
        vm::Command::Call { name: vm::Label::new("Foo.seven"), args_count: 0 },
        vm::Command::Label(vm::Label::new("HALT")),
        vm::Command::Goto(vm::Label::new("HALT")),
        vm::Command::Function { name: vm::Label::new("Foo.seven"), local_variable_count: 1 },
        push_const(3),
        push_const(4),
        arith(vm::ArithmeticCommand::Add),
        vm::Command::Return,
    ];
    let ram = run_unit(program, 10000);
    assert_eq!(ram[256], 7, "the return value replaces the argument slot");
    assert_eq!(ram[0], 257, "SP points just above the return value");
}
