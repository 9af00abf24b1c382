//! Lowering of `label`, `goto` and `if-goto`. Branch labels are scoped to
//! their enclosing function through the `$` separator; all three commands
//! are rejected outside a function.

use crate::assembler_code::AssemblerCodeBlock;
use crate::assembler_code::view_of_blocks;
use crate::hack;
use crate::hack::CommandV;
use crate::hack::CompMnemonic;
use crate::hack::DestMnemonic;
use crate::hack::JumpMnemonic;
use crate::hack::a_symbol_v;
use crate::hack::c_command_v;
use crate::hack::l_label_v;
use crate::labels;
use crate::vm;
use vstd::prelude::*;

verus! {

/// The label declaration emitted for `label`.
pub open spec fn label_seq(function: Seq<char>, label: Seq<char>) -> Seq<CommandV> {
    seq![l_label_v(labels::scoped_label(function, label))]
}

/// The unconditional jump emitted for `goto`.
pub open spec fn goto_seq(function: Seq<char>, label: Seq<char>) -> Seq<CommandV> {
    seq![
        a_symbol_v(labels::scoped_label(function, label)),
        c_command_v(None, CompMnemonic::Zero, Some(JumpMnemonic::JMP)),
    ]
}

/// The pop-and-branch emitted for `if-goto`: the jump is taken when the
/// popped word is not zero.
pub open spec fn if_goto_seq(function: Seq<char>, label: Seq<char>) -> Seq<CommandV> {
    seq![
        a_symbol_v("SP"@),
        c_command_v(Some(DestMnemonic::AM), CompMnemonic::MMinusOne, None),
        c_command_v(Some(DestMnemonic::D), CompMnemonic::M, None),
        a_symbol_v(labels::scoped_label(function, label)),
        c_command_v(None, CompMnemonic::D, Some(JumpMnemonic::JNE)),
    ]
}

/// Declare a function-scoped branch label.
pub fn construct_label(label: &vm::Label, function_name: &str) -> (r: Vec<AssemblerCodeBlock>)
    ensures
        view_of_blocks(r@) == label_seq(function_name@, label@),
{
    let name = labels::scoped_label_string(function_name, label.get());
    let cmds = vec![hack::l_label(name)];
    proof {
        assert(hack::view_of_commands(cmds@) =~= label_seq(function_name@, label@));
    }
    let blocks = vec![AssemblerCodeBlock::new("label", cmds)];
    proof {
        reveal_with_fuel(view_of_blocks, 3);
        assert(view_of_blocks(blocks@) =~= label_seq(function_name@, label@));
    }
    blocks
}

/// Jump unconditionally to a function-scoped branch label.
pub fn construct_goto(label: &vm::Label, function_name: &str) -> (r: Vec<AssemblerCodeBlock>)
    ensures
        view_of_blocks(r@) == goto_seq(function_name@, label@),
{
    let name = labels::scoped_label_string(function_name, label.get());
    let cmds = vec![
        hack::a_symbol_string(name),
        hack::c_command(None, CompMnemonic::Zero, Some(JumpMnemonic::JMP)),
    ];
    proof {
        assert(hack::view_of_commands(cmds@) =~= goto_seq(function_name@, label@));
    }
    let blocks = vec![AssemblerCodeBlock::new("goto", cmds)];
    proof {
        reveal_with_fuel(view_of_blocks, 3);
        assert(view_of_blocks(blocks@) =~= goto_seq(function_name@, label@));
    }
    blocks
}

/// Pop the top of the stack and jump when it is not zero.
pub fn construct_if_goto(label: &vm::Label, function_name: &str) -> (r: Vec<AssemblerCodeBlock>)
    ensures
        view_of_blocks(r@) == if_goto_seq(function_name@, label@),
{
    let name = labels::scoped_label_string(function_name, label.get());
    let cmds = vec![
        hack::a_symbol("SP"),
        hack::c_command(Some(DestMnemonic::AM), CompMnemonic::MMinusOne, None),
        hack::c_command(Some(DestMnemonic::D), CompMnemonic::M, None),
        hack::a_symbol_string(name),
        hack::c_command(None, CompMnemonic::D, Some(JumpMnemonic::JNE)),
    ];
    proof {
        assert(hack::view_of_commands(cmds@) =~= if_goto_seq(function_name@, label@));
    }
    let blocks = vec![AssemblerCodeBlock::new("if-goto", cmds)];
    proof {
        reveal_with_fuel(view_of_blocks, 3);
        assert(view_of_blocks(blocks@) =~= if_goto_seq(function_name@, label@));
    }
    blocks
}

} // verus!
