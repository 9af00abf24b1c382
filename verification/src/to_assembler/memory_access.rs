//! Lowering of `push` and `pop` for the eight memory segments. A push ends
//! by writing D at `RAM[SP]` and incrementing `SP`; a pop computes the
//! target address into D, stashes it in `R13`, decrements `SP`, reads the
//! popped word and writes it through `R13`.

use crate::assembler_code::AssemblerCodeBlock;
use crate::assembler_code::view_of_blocks;
use crate::hack;
use crate::hack::CommandV;
use crate::hack::CompMnemonic;
use crate::hack::DestMnemonic;
use crate::hack::a_address_v;
use crate::hack::a_symbol_v;
use crate::hack::c_command_v;
use crate::labels;
use crate::to_assembler::TranslateError;
use crate::vm;
use vstd::prelude::*;

verus! {

/// Commands writing D to `RAM[SP]` and incrementing `SP`.
pub open spec fn push_d_seq() -> Seq<CommandV> {
    seq![
        a_symbol_v("SP"@),
        c_command_v(Some(DestMnemonic::A), CompMnemonic::M, None),
        c_command_v(Some(DestMnemonic::M), CompMnemonic::D, None),
        a_symbol_v("SP"@),
        c_command_v(Some(DestMnemonic::M), CompMnemonic::MPlusOne, None),
    ]
}

/// Commands that, with the target address in D, park it in `R13`, pop the
/// stack into D and write D through `R13`.
pub open spec fn pop_via_r13_seq() -> Seq<CommandV> {
    seq![
        a_symbol_v("R13"@),
        c_command_v(Some(DestMnemonic::M), CompMnemonic::D, None),
        a_symbol_v("SP"@),
        c_command_v(Some(DestMnemonic::AM), CompMnemonic::MMinusOne, None),
        c_command_v(Some(DestMnemonic::D), CompMnemonic::M, None),
        a_symbol_v("R13"@),
        c_command_v(Some(DestMnemonic::A), CompMnemonic::M, None),
        c_command_v(Some(DestMnemonic::M), CompMnemonic::D, None),
    ]
}

/// The base-pointer symbol of an indirect segment.
pub open spec fn base_symbol(segment: vm::Segment) -> Seq<char> {
    match segment {
        vm::Segment::Argument => "ARG"@,
        vm::Segment::Local => "LCL"@,
        vm::Segment::This => "THIS"@,
        _ => "THAT"@,
    }
}

/// Whether a segment is addressed through a base pointer.
pub open spec fn is_indirect(segment: vm::Segment) -> bool {
    match segment {
        vm::Segment::Argument | vm::Segment::Local | vm::Segment::This | vm::Segment::That => true,
        _ => false,
    }
}

/// The pointer-segment symbol: `THIS` for index 0, `THAT` for index 1.
pub open spec fn pointer_symbol(index: u16) -> Seq<char> {
    if index == 0 {
        "THIS"@
    } else {
        "THAT"@
    }
}

/// Why a memory access is rejected, if it is.
pub open spec fn memory_access_err(
    access_type: vm::AccessType,
    segment: vm::Segment,
    index: u16,
) -> Option<TranslateError> {
    match segment {
        vm::Segment::Constant => match access_type {
            vm::AccessType::Pop => Some(TranslateError::PopConstant),
            vm::AccessType::Push => if index >= 32768 {
                Some(TranslateError::ConstantOutOfRange)
            } else {
                None
            },
        },
        vm::Segment::Pointer => if index > 1 {
            Some(TranslateError::PointerIndexOutOfRange)
        } else {
            None
        },
        vm::Segment::Temp => if index > 7 {
            Some(TranslateError::TempIndexOutOfRange)
        } else {
            None
        },
        vm::Segment::Static => None,
        _ => if index >= 32768 {
            Some(TranslateError::ConstantOutOfRange)
        } else {
            None
        },
    }
}

/// Commands leaving the source word of a push in D, by segment.
pub open spec fn push_source_seq(
    segment: vm::Segment,
    index: u16,
    module: Seq<char>,
) -> Seq<CommandV> {
    match segment {
        vm::Segment::Constant => seq![
            a_address_v(index),
            c_command_v(Some(DestMnemonic::D), CompMnemonic::A, None),
        ],
        vm::Segment::Static => seq![
            a_symbol_v(labels::static_symbol(module, index as nat)),
            c_command_v(Some(DestMnemonic::D), CompMnemonic::M, None),
        ],
        vm::Segment::Pointer => seq![
            a_symbol_v(pointer_symbol(index)),
            c_command_v(Some(DestMnemonic::D), CompMnemonic::M, None),
        ],
        vm::Segment::Temp => seq![
            a_address_v((5 + index) as u16),
            c_command_v(Some(DestMnemonic::D), CompMnemonic::M, None),
        ],
        _ => seq![
            a_symbol_v(base_symbol(segment)),
            c_command_v(Some(DestMnemonic::D), CompMnemonic::M, None),
            a_address_v(index),
            c_command_v(Some(DestMnemonic::A), CompMnemonic::DPlusA, None),
            c_command_v(Some(DestMnemonic::D), CompMnemonic::M, None),
        ],
    }
}

/// Commands leaving the target address of a pop in D, by segment.
pub open spec fn pop_target_seq(
    segment: vm::Segment,
    index: u16,
    module: Seq<char>,
) -> Seq<CommandV> {
    match segment {
        vm::Segment::Static => seq![
            a_symbol_v(labels::static_symbol(module, index as nat)),
            c_command_v(Some(DestMnemonic::D), CompMnemonic::A, None),
        ],
        vm::Segment::Pointer => seq![
            a_symbol_v(pointer_symbol(index)),
            c_command_v(Some(DestMnemonic::D), CompMnemonic::A, None),
        ],
        vm::Segment::Temp => seq![
            a_address_v((5 + index) as u16),
            c_command_v(Some(DestMnemonic::D), CompMnemonic::A, None),
        ],
        _ => seq![
            a_symbol_v(base_symbol(segment)),
            c_command_v(Some(DestMnemonic::D), CompMnemonic::M, None),
            a_address_v(index),
            c_command_v(Some(DestMnemonic::D), CompMnemonic::DPlusA, None),
        ],
    }
}

/// The full instruction run of one accepted memory access.
pub open spec fn memory_access_seq(
    access_type: vm::AccessType,
    segment: vm::Segment,
    index: u16,
    module: Seq<char>,
) -> Seq<CommandV> {
    match access_type {
        vm::AccessType::Push => push_source_seq(segment, index, module) + push_d_seq(),
        vm::AccessType::Pop => pop_target_seq(segment, index, module) + pop_via_r13_seq(),
    }
}

/// Commands writing D to `RAM[SP]` and incrementing `SP`.
pub fn push_d_commands() -> (r: Vec<hack::Command>)
    ensures
        hack::view_of_commands(r@) == push_d_seq(),
{
    let cmds = vec![
        hack::a_symbol("SP"),
        hack::c_command(Some(DestMnemonic::A), CompMnemonic::M, None),
        hack::c_command(Some(DestMnemonic::M), CompMnemonic::D, None),
        hack::a_symbol("SP"),
        hack::c_command(Some(DestMnemonic::M), CompMnemonic::MPlusOne, None),
    ];
    proof {
        assert(hack::view_of_commands(cmds@) =~= push_d_seq());
    }
    cmds
}

/// Commands popping one word into the address parked in D, through `R13`.
pub fn pop_via_r13_commands() -> (r: Vec<hack::Command>)
    ensures
        hack::view_of_commands(r@) == pop_via_r13_seq(),
{
    let cmds = vec![
        hack::a_symbol("R13"),
        hack::c_command(Some(DestMnemonic::M), CompMnemonic::D, None),
        hack::a_symbol("SP"),
        hack::c_command(Some(DestMnemonic::AM), CompMnemonic::MMinusOne, None),
        hack::c_command(Some(DestMnemonic::D), CompMnemonic::M, None),
        hack::a_symbol("R13"),
        hack::c_command(Some(DestMnemonic::A), CompMnemonic::M, None),
        hack::c_command(Some(DestMnemonic::M), CompMnemonic::D, None),
    ];
    proof {
        assert(hack::view_of_commands(cmds@) =~= pop_via_r13_seq());
    }
    cmds
}

/// The base-pointer symbol of an indirect segment.
fn base_symbol_str(segment: &vm::Segment) -> (r: &'static str)
    requires
        is_indirect(*segment),
    ensures
        r@ == base_symbol(*segment),
{
    match segment {
        vm::Segment::Argument => "ARG",
        vm::Segment::Local => "LCL",
        vm::Segment::This => "THIS",
        _ => "THAT",
    }
}

/// Commands leaving the source word of an accepted push in D.
fn push_source_commands(segment: &vm::Segment, index: u16, module_name: &str) -> (r: Vec<
    hack::Command,
>)
    requires
        memory_access_err(vm::AccessType::Push, *segment, index) is None,
    ensures
        hack::view_of_commands(r@) == push_source_seq(*segment, index, module_name@),
{
    let cmds = match segment {
        vm::Segment::Constant => vec![
            hack::a_address(index),
            hack::c_command(Some(DestMnemonic::D), CompMnemonic::A, None),
        ],
        vm::Segment::Static => vec![
            hack::a_symbol_string(labels::static_symbol_string(module_name, index)),
            hack::c_command(Some(DestMnemonic::D), CompMnemonic::M, None),
        ],
        vm::Segment::Pointer => vec![
            hack::a_symbol(if index == 0 { "THIS" } else { "THAT" }),
            hack::c_command(Some(DestMnemonic::D), CompMnemonic::M, None),
        ],
        vm::Segment::Temp => vec![
            hack::a_address(5 + index),
            hack::c_command(Some(DestMnemonic::D), CompMnemonic::M, None),
        ],
        _ => vec![
            hack::a_symbol(base_symbol_str(segment)),
            hack::c_command(Some(DestMnemonic::D), CompMnemonic::M, None),
            hack::a_address(index),
            hack::c_command(Some(DestMnemonic::A), CompMnemonic::DPlusA, None),
            hack::c_command(Some(DestMnemonic::D), CompMnemonic::M, None),
        ],
    };
    proof {
        assert(hack::view_of_commands(cmds@) =~= push_source_seq(*segment, index, module_name@));
    }
    cmds
}

/// Commands leaving the target address of an accepted pop in D.
fn pop_target_commands(segment: &vm::Segment, index: u16, module_name: &str) -> (r: Vec<
    hack::Command,
>)
    requires
        memory_access_err(vm::AccessType::Pop, *segment, index) is None,
    ensures
        hack::view_of_commands(r@) == pop_target_seq(*segment, index, module_name@),
{
    let cmds = match segment {
        vm::Segment::Static => vec![
            hack::a_symbol_string(labels::static_symbol_string(module_name, index)),
            hack::c_command(Some(DestMnemonic::D), CompMnemonic::A, None),
        ],
        vm::Segment::Pointer => vec![
            hack::a_symbol(if index == 0 { "THIS" } else { "THAT" }),
            hack::c_command(Some(DestMnemonic::D), CompMnemonic::A, None),
        ],
        vm::Segment::Temp => vec![
            hack::a_address(5 + index),
            hack::c_command(Some(DestMnemonic::D), CompMnemonic::A, None),
        ],
        _ => vec![
            hack::a_symbol(base_symbol_str(segment)),
            hack::c_command(Some(DestMnemonic::D), CompMnemonic::M, None),
            hack::a_address(index),
            hack::c_command(Some(DestMnemonic::D), CompMnemonic::DPlusA, None),
        ],
    };
    proof {
        assert(hack::view_of_commands(cmds@) =~= pop_target_seq(*segment, index, module_name@));
    }
    cmds
}

/// Lower one memory access, or reject it: `pop constant` has no target, a
/// `pointer` index must be 0 or 1, a `temp` index at most 7, and a constant
/// or segment index must fit the 15-bit address space.
pub fn construct(command: &vm::MemoryAccessCommand, module_name: &str) -> (r: Result<
    Vec<AssemblerCodeBlock>,
    TranslateError,
>)
    ensures
        match r {
            Ok(blocks) => memory_access_err(command.access_type, command.segment, command.index@)
                is None && view_of_blocks(blocks@) == memory_access_seq(
                command.access_type,
                command.segment,
                command.index@,
                module_name@,
            ),
            Err(e) => memory_access_err(command.access_type, command.segment, command.index@)
                == Some(e),
        },
{
    let index = command.index.get();
    match (&command.access_type, &command.segment) {
        (vm::AccessType::Pop, vm::Segment::Constant) => Err(TranslateError::PopConstant),
        (_, vm::Segment::Pointer) if index > 1 => Err(TranslateError::PointerIndexOutOfRange),
        (_, vm::Segment::Temp) if index > 7 => Err(TranslateError::TempIndexOutOfRange),
        (vm::AccessType::Push, vm::Segment::Constant) if index >= 32768 => Err(
            TranslateError::ConstantOutOfRange,
        ),
        (_, vm::Segment::Argument) if index >= 32768 => Err(TranslateError::ConstantOutOfRange),
        (_, vm::Segment::Local) if index >= 32768 => Err(TranslateError::ConstantOutOfRange),
        (_, vm::Segment::This) if index >= 32768 => Err(TranslateError::ConstantOutOfRange),
        (_, vm::Segment::That) if index >= 32768 => Err(TranslateError::ConstantOutOfRange),
        (vm::AccessType::Push, _) => {
            let mut cmds = push_source_commands(&command.segment, index, module_name);
            let mut tail = push_d_commands();
            cmds.append(&mut tail);
            proof {
                assert(hack::view_of_commands(cmds@) =~= memory_access_seq(
                    command.access_type,
                    command.segment,
                    command.index@,
                    module_name@,
                ));
            }
            let blocks = vec![AssemblerCodeBlock::new("push to stack", cmds)];
            proof {
                reveal_with_fuel(view_of_blocks, 3);
                assert(view_of_blocks(blocks@) =~= memory_access_seq(
                    command.access_type,
                    command.segment,
                    command.index@,
                    module_name@,
                ));
            }
            Ok(blocks)
        },
        (vm::AccessType::Pop, _) => {
            let mut cmds = pop_target_commands(&command.segment, index, module_name);
            let mut tail = pop_via_r13_commands();
            cmds.append(&mut tail);
            proof {
                assert(hack::view_of_commands(cmds@) =~= memory_access_seq(
                    command.access_type,
                    command.segment,
                    command.index@,
                    module_name@,
                ));
            }
            let blocks = vec![AssemblerCodeBlock::new("pop from stack", cmds)];
            proof {
                reveal_with_fuel(view_of_blocks, 3);
                assert(view_of_blocks(blocks@) =~= memory_access_seq(
                    command.access_type,
                    command.segment,
                    command.index@,
                    module_name@,
                ));
            }
            Ok(blocks)
        },
    }
}

} // verus!
