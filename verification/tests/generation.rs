//! Structural tests of the code generator: exact instruction sequences,
//! generated label names, rejection of invalid accesses, determinism, and
//! label uniqueness over whole translation units.

use vm_translator::hack;
use vm_translator::to_assembler::TranslateError;
use vm_translator::to_assembler::function_call::construct_bootstrap;
use vm_translator::to_assembler::translate;
use vm_translator::vm;

fn push(segment: vm::Segment, index: u16) -> vm::Command {
    vm::Command::MemoryAccess(vm::MemoryAccessCommand {
        access_type: vm::AccessType::Push,
        segment,
        index: vm::Index::new(index),
    })
}

fn pop(segment: vm::Segment, index: u16) -> vm::Command {
    vm::Command::MemoryAccess(vm::MemoryAccessCommand {
        access_type: vm::AccessType::Pop,
        segment,
        index: vm::Index::new(index),
    })
}

fn function(name: &str, locals: u16) -> vm::Command {
    vm::Command::Function { name: vm::Label::new(name), local_variable_count: locals }
}

fn call(name: &str, args: u16) -> vm::Command {
    vm::Command::Call { name: vm::Label::new(name), args_count: args }
}

fn c(dest: Option<hack::DestMnemonic>, comp: hack::CompMnemonic, jump: Option<hack::JumpMnemonic>) -> hack::Command {
    hack::Command::C(hack::CCommand { dest, comp, jump })
}

fn at_sym(name: &str) -> hack::Command {
    hack::Command::A(hack::ACommand::Symbol(hack::Symbol::new(name)))
}

fn symbols_declared(cmds: &[hack::Command]) -> Vec<String> {
    let mut out = Vec::new();
    for cmd in cmds {
        if let hack::Command::L(sym) = cmd {
            out.push(sym.get().to_string());
        }
    }
    out
}

fn symbols_referenced(cmds: &[hack::Command]) -> Vec<String> {
    let mut out = Vec::new();
    for cmd in cmds {
        if let hack::Command::A(hack::ACommand::Symbol(sym)) = cmd {
            out.push(sym.get().to_string());
        }
    }
    out
}

#[test]
fn push_constant_seven_exact_sequence() {
    let out = translate(vec![push(vm::Segment::Constant, 7)], "Foo").unwrap();
    let expected = vec![
        hack::Command::A(hack::ACommand::Address(7)),
        c(Some(hack::DestMnemonic::D), hack::CompMnemonic::A, None),
        at_sym("SP"),
        c(Some(hack::DestMnemonic::A), hack::CompMnemonic::M, None),
        c(Some(hack::DestMnemonic::M), hack::CompMnemonic::D, None),
        at_sym("SP"),
        c(Some(hack::DestMnemonic::M), hack::CompMnemonic::MPlusOne, None),
    ];
    assert_eq!(out, expected);
}

#[test]
fn eq_labels_use_module_function_and_counter() {
    let out = translate(
        vec![
            function("Foo.bar", 0),
            push(vm::Segment::Constant, 1),
            push(vm::Segment::Constant, 2),
            vm::Command::Arithmetic(vm::ArithmeticCommand::Eq),
            push(vm::Segment::Constant, 3),
            push(vm::Segment::Constant, 4),
            vm::Command::Arithmetic(vm::ArithmeticCommand::Eq),
        ],
        "Foo",
    )
    .unwrap();
    let declared = symbols_declared(&out);
    assert!(declared.contains(&"RETURN_TRUE_Foo.Foo.bar.0".to_string()));
    assert!(declared.contains(&"RETURN_FALSE_Foo.Foo.bar.0".to_string()));
    assert!(declared.contains(&"RETURN_TRUE_Foo.Foo.bar.1".to_string()));
    assert!(declared.contains(&"RETURN_FALSE_Foo.Foo.bar.1".to_string()));
    let referenced = symbols_referenced(&out);
    assert!(referenced.contains(&"RETURN_TRUE_Foo.Foo.bar.0".to_string()));
    assert!(referenced.contains(&"RETURN_FALSE_Foo.Foo.bar.1".to_string()));
}

#[test]
fn pop_static_three_names_module_symbol() {
    let out = translate(vec![pop(vm::Segment::Static, 3)], "Foo").unwrap();
    assert!(symbols_referenced(&out).contains(&"Foo.3".to_string()));
}

#[test]
fn push_pointer_reads_this_and_that() {
    let this = translate(vec![push(vm::Segment::Pointer, 0)], "Foo").unwrap();
    assert!(symbols_referenced(&this).contains(&"THIS".to_string()));
    assert!(!symbols_referenced(&this).contains(&"THAT".to_string()));
    let that = translate(vec![push(vm::Segment::Pointer, 1)], "Foo").unwrap();
    assert!(symbols_referenced(&that).contains(&"THAT".to_string()));
    let bad = translate(vec![push(vm::Segment::Pointer, 2)], "Foo");
    assert_eq!(bad, Err(TranslateError::PointerIndexOutOfRange));
}

#[test]
fn call_return_site_label_is_declared_at_the_call() {
    let out = translate(
        vec![
            function("Foo.main", 0),
            call("Bar.baz", 2),
            function("Bar.baz", 1),
            vm::Command::Return,
        ],
        "Foo",
    )
    .unwrap();
    let referenced = symbols_referenced(&out);
    let declared = symbols_declared(&out);
    let ret_sites: Vec<&String> = referenced.iter().filter(|s| s.contains("$ret.")).collect();
    assert_eq!(ret_sites.len(), 1);
    assert_eq!(ret_sites[0], "Foo.main$ret.0");
    assert!(declared.contains(ret_sites[0]));
    assert!(referenced.contains(&"Bar.baz".to_string()));
    assert!(declared.contains(&"Bar.baz".to_string()));
}

#[test]
fn generated_labels_are_all_distinct() {
    let out = translate(
        vec![
            function("Foo.main", 2),
            vm::Command::Label(vm::Label::new("START")),
            push(vm::Segment::Constant, 1),
            push(vm::Segment::Constant, 2),
            vm::Command::Arithmetic(vm::ArithmeticCommand::Lt),
            vm::Command::Arithmetic(vm::ArithmeticCommand::Not),
            push(vm::Segment::Constant, 3),
            vm::Command::Arithmetic(vm::ArithmeticCommand::Gt),
            call("Foo.helper", 0),
            call("Foo.helper", 0),
            vm::Command::IfGoto(vm::Label::new("START")),
            function("Foo.helper", 0),
            push(vm::Segment::Constant, 4),
            push(vm::Segment::Constant, 4),
            vm::Command::Arithmetic(vm::ArithmeticCommand::Eq),
            vm::Command::Return,
        ],
        "Foo",
    )
    .unwrap();
    let declared = symbols_declared(&out);
    for i in 0..declared.len() {
        for j in (i + 1)..declared.len() {
            assert_ne!(declared[i], declared[j], "duplicate label {}", declared[i]);
        }
    }
}

#[test]
fn every_referenced_symbol_resolves() {
    let cmds = vec![
        function("Foo.main", 1),
        push(vm::Segment::Constant, 21),
        pop(vm::Segment::Static, 0),
        push(vm::Segment::Static, 0),
        push(vm::Segment::Local, 0),
        vm::Command::Arithmetic(vm::ArithmeticCommand::Add),
        vm::Command::Label(vm::Label::new("AGAIN")),
        push(vm::Segment::Constant, 1),
        vm::Command::Arithmetic(vm::ArithmeticCommand::Sub),
        push(vm::Segment::Temp, 4),
        vm::Command::Arithmetic(vm::ArithmeticCommand::Eq),
        vm::Command::IfGoto(vm::Label::new("AGAIN")),
        vm::Command::Goto(vm::Label::new("AGAIN")),
        call("Foo.main", 0),
        vm::Command::Return,
    ];
    let out = translate(cmds, "Foo").unwrap();
    let declared = symbols_declared(&out);
    let predefined = [
        "SP", "LCL", "ARG", "THIS", "THAT", "SCREEN", "KBD", "R0", "R1", "R2", "R3", "R4", "R5",
        "R6", "R7", "R8", "R9", "R10", "R11", "R12", "R13", "R14", "R15",
    ];
    for sym in symbols_referenced(&out) {
        let resolved = predefined.contains(&sym.as_str())
            || sym.starts_with("Foo.") && sym[4..].chars().all(|ch| ch.is_ascii_digit())
            || declared.contains(&sym);
        assert!(resolved, "unresolved symbol {}", sym);
    }
}

#[test]
fn rejections_name_the_offending_command() {
    assert_eq!(
        translate(vec![pop(vm::Segment::Constant, 0)], "Foo"),
        Err(TranslateError::PopConstant)
    );
    assert_eq!(
        translate(vec![pop(vm::Segment::Pointer, 2)], "Foo"),
        Err(TranslateError::PointerIndexOutOfRange)
    );
    assert_eq!(
        translate(vec![push(vm::Segment::Temp, 8)], "Foo"),
        Err(TranslateError::TempIndexOutOfRange)
    );
    assert_eq!(
        translate(vec![push(vm::Segment::Constant, 32768)], "Foo"),
        Err(TranslateError::ConstantOutOfRange)
    );
    assert_eq!(
        translate(vec![pop(vm::Segment::Local, 40000)], "Foo"),
        Err(TranslateError::ConstantOutOfRange)
    );
    assert_eq!(
        translate(vec![call("Bar.baz", 32763)], "Foo"),
        Err(TranslateError::ArgsCountOutOfRange)
    );
    assert_eq!(
        translate(vec![vm::Command::Return], "Foo"),
        Err(TranslateError::ReturnOutsideFunction)
    );
    assert_eq!(
        translate(vec![vm::Command::Label(vm::Label::new("X"))], "Foo"),
        Err(TranslateError::LabelOutsideFunction)
    );
    assert_eq!(
        translate(vec![vm::Command::Goto(vm::Label::new("X"))], "Foo"),
        Err(TranslateError::LabelOutsideFunction)
    );
    assert_eq!(
        translate(vec![vm::Command::IfGoto(vm::Label::new("X"))], "Foo"),
        Err(TranslateError::LabelOutsideFunction)
    );
}

#[test]
fn nothing_is_emitted_for_a_rejected_unit() {
    let result = translate(
        vec![push(vm::Segment::Constant, 1), pop(vm::Segment::Constant, 0)],
        "Foo",
    );
    assert!(result.is_err());
}

#[test]
fn generation_is_deterministic() {
    let make = || {
        vec![
            function("Foo.main", 1),
            push(vm::Segment::Constant, 3),
            push(vm::Segment::Argument, 1),
            vm::Command::Arithmetic(vm::ArithmeticCommand::Gt),
            call("Foo.main", 1),
            vm::Command::Return,
        ]
    };
    let a = translate(make(), "Foo").unwrap();
    let b = translate(make(), "Foo").unwrap();
    assert_eq!(a, b);
}

#[test]
fn bootstrap_sets_sp_and_calls_sys_init() {
    let mut cmds = Vec::new();
    for block in construct_bootstrap() {
        for cmd in block.into_commands() {
            cmds.push(cmd);
        }
    }
    assert_eq!(cmds[0], hack::Command::A(hack::ACommand::Address(256)));
    assert!(symbols_referenced(&cmds).contains(&"Sys.init".to_string()));
    let declared = symbols_declared(&cmds);
    assert_eq!(declared.len(), 1);
    assert!(declared[0].contains("$ret."));
}

#[test]
fn pop_goes_through_scratch_register_r13() {
    let out = translate(vec![pop(vm::Segment::Argument, 2)], "Foo").unwrap();
    let referenced = symbols_referenced(&out);
    assert!(referenced.contains(&"R13".to_string()));
    assert!(referenced.contains(&"ARG".to_string()));
}

#[test]
fn unary_operators_leave_sp_writes_alone() {
    let out = translate(
        vec![push(vm::Segment::Constant, 7), vm::Command::Arithmetic(vm::ArithmeticCommand::Neg)],
        "Foo",
    )
    .unwrap();
    let tail = &out[7..];
    let writes_sp = tail.windows(2).any(|w| {
        w[0] == at_sym("SP")
            && matches!(
                &w[1],
                hack::Command::C(hack::CCommand { dest: Some(hack::DestMnemonic::M), .. })
            )
    });
    assert!(!writes_sp, "a unary operator must not move SP");
}
