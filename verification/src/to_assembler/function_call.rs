//! Lowering of `function`, `call` and `return`: the standard five-word call
//! frame. A call pushes the return address and the four segment pointers,
//! repoints `ARG` and `LCL`, jumps, and declares its return-site label; a
//! return restores the caller through the scratch pointers `R13` (frame)
//! and `R14` (return address).

use crate::assembler_code::AssemblerCodeBlock;
use crate::assembler_code::view_of_blocks;
use crate::hack;
use crate::hack::CommandV;
use crate::hack::CompMnemonic;
use crate::hack::DestMnemonic;
use crate::hack::JumpMnemonic;
use crate::hack::a_address_v;
use crate::hack::a_symbol_v;
use crate::hack::c_command_v;
use crate::hack::l_label_v;
use crate::labels;
use crate::to_assembler::memory_access::push_d_seq;
use crate::to_assembler::memory_access::push_d_commands;
use crate::vm;
use vstd::prelude::*;

verus! {

/// Commands pushing one zero word, as used to clear a local slot.
pub open spec fn push_zero_seq() -> Seq<CommandV> {
    seq![
        a_symbol_v("SP"@),
        c_command_v(Some(DestMnemonic::A), CompMnemonic::M, None),
        c_command_v(Some(DestMnemonic::M), CompMnemonic::Zero, None),
        a_symbol_v("SP"@),
        c_command_v(Some(DestMnemonic::M), CompMnemonic::MPlusOne, None),
    ]
}

/// `count` zero pushes, clearing the local slots of a function entry.
pub open spec fn locals_init_seq(count: nat) -> Seq<CommandV>
    decreases count,
{
    if count == 0 {
        Seq::empty()
    } else {
        locals_init_seq((count - 1) as nat) + push_zero_seq()
    }
}

/// The full instruction run of a function entry: the entry label and one
/// zero push per local variable.
pub open spec fn function_seq(name: Seq<char>, local_count: nat) -> Seq<CommandV> {
    seq![l_label_v(name)] + locals_init_seq(local_count)
}

/// The full instruction run of a call: push the return address and the four
/// saved pointers, repoint `ARG` and `LCL`, jump, declare the return site.
pub open spec fn call_seq(name: Seq<char>, args_count: u16, return_label: Seq<char>) -> Seq<
    CommandV,
> {
    seq![
        a_symbol_v(return_label),
        c_command_v(Some(DestMnemonic::D), CompMnemonic::A, None),
    ] + push_d_seq() + seq![
        a_symbol_v("LCL"@),
        c_command_v(Some(DestMnemonic::D), CompMnemonic::M, None),
    ] + push_d_seq() + seq![
        a_symbol_v("ARG"@),
        c_command_v(Some(DestMnemonic::D), CompMnemonic::M, None),
    ] + push_d_seq() + seq![
        a_symbol_v("THIS"@),
        c_command_v(Some(DestMnemonic::D), CompMnemonic::M, None),
    ] + push_d_seq() + seq![
        a_symbol_v("THAT"@),
        c_command_v(Some(DestMnemonic::D), CompMnemonic::M, None),
    ] + push_d_seq() + seq![
        a_symbol_v("SP"@),
        c_command_v(Some(DestMnemonic::D), CompMnemonic::M, None),
        a_address_v((args_count + 5) as u16),
        c_command_v(Some(DestMnemonic::D), CompMnemonic::DMinusA, None),
        a_symbol_v("ARG"@),
        c_command_v(Some(DestMnemonic::M), CompMnemonic::D, None),
        a_symbol_v("SP"@),
        c_command_v(Some(DestMnemonic::D), CompMnemonic::M, None),
        a_symbol_v("LCL"@),
        c_command_v(Some(DestMnemonic::M), CompMnemonic::D, None),
        a_symbol_v(name),
        c_command_v(None, CompMnemonic::Zero, Some(JumpMnemonic::JMP)),
        l_label_v(return_label),
    ]
}

/// The full instruction run of a return: save the frame in `R13` and the
/// return address in `R14`, place the result, restore the caller's
/// pointers, and jump back.
pub open spec fn return_seq() -> Seq<CommandV> {
    seq![
        a_symbol_v("LCL"@),
        c_command_v(Some(DestMnemonic::D), CompMnemonic::M, None),
        a_symbol_v("R13"@),
        c_command_v(Some(DestMnemonic::M), CompMnemonic::D, None),
        a_address_v(5),
        c_command_v(Some(DestMnemonic::A), CompMnemonic::DMinusA, None),
        c_command_v(Some(DestMnemonic::D), CompMnemonic::M, None),
        a_symbol_v("R14"@),
        c_command_v(Some(DestMnemonic::M), CompMnemonic::D, None),
        a_symbol_v("SP"@),
        c_command_v(Some(DestMnemonic::AM), CompMnemonic::MMinusOne, None),
        c_command_v(Some(DestMnemonic::D), CompMnemonic::M, None),
        a_symbol_v("ARG"@),
        c_command_v(Some(DestMnemonic::A), CompMnemonic::M, None),
        c_command_v(Some(DestMnemonic::M), CompMnemonic::D, None),
        a_symbol_v("ARG"@),
        c_command_v(Some(DestMnemonic::D), CompMnemonic::MPlusOne, None),
        a_symbol_v("SP"@),
        c_command_v(Some(DestMnemonic::M), CompMnemonic::D, None),
        a_symbol_v("R13"@),
        c_command_v(Some(DestMnemonic::AM), CompMnemonic::MMinusOne, None),
        c_command_v(Some(DestMnemonic::D), CompMnemonic::M, None),
        a_symbol_v("THAT"@),
        c_command_v(Some(DestMnemonic::M), CompMnemonic::D, None),
        a_symbol_v("R13"@),
        c_command_v(Some(DestMnemonic::AM), CompMnemonic::MMinusOne, None),
        c_command_v(Some(DestMnemonic::D), CompMnemonic::M, None),
        a_symbol_v("THIS"@),
        c_command_v(Some(DestMnemonic::M), CompMnemonic::D, None),
        a_symbol_v("R13"@),
        c_command_v(Some(DestMnemonic::AM), CompMnemonic::MMinusOne, None),
        c_command_v(Some(DestMnemonic::D), CompMnemonic::M, None),
        a_symbol_v("ARG"@),
        c_command_v(Some(DestMnemonic::M), CompMnemonic::D, None),
        a_symbol_v("R13"@),
        c_command_v(Some(DestMnemonic::AM), CompMnemonic::MMinusOne, None),
        c_command_v(Some(DestMnemonic::D), CompMnemonic::M, None),
        a_symbol_v("LCL"@),
        c_command_v(Some(DestMnemonic::M), CompMnemonic::D, None),
        a_symbol_v("R14"@),
        c_command_v(Some(DestMnemonic::A), CompMnemonic::M, None),
        c_command_v(None, CompMnemonic::Zero, Some(JumpMnemonic::JMP)),
    ]
}

/// Declare a function entry and clear its local slots.
pub fn construct_function(name: &vm::Label, local_variable_count: u16) -> (r: Vec<
    AssemblerCodeBlock,
>)
    ensures
        view_of_blocks(r@) == function_seq(name@, local_variable_count as nat),
{
    let mut cmds = vec![hack::l_label(name.get_string())];
    proof {
        assert(hack::view_of_commands(cmds@) =~= seq![l_label_v(name@)] + locals_init_seq(0));
    }
    let mut i: u16 = 0;
    while i < local_variable_count
        invariant
            i <= local_variable_count,
            hack::view_of_commands(cmds@) == seq![l_label_v(name@)] + locals_init_seq(i as nat),
        decreases local_variable_count - i,
    {
        let ghost before = hack::view_of_commands(cmds@);
        cmds.push(hack::a_symbol("SP"));
        cmds.push(hack::c_command(Some(DestMnemonic::A), CompMnemonic::M, None));
        cmds.push(hack::c_command(Some(DestMnemonic::M), CompMnemonic::Zero, None));
        cmds.push(hack::a_symbol("SP"));
        cmds.push(hack::c_command(Some(DestMnemonic::M), CompMnemonic::MPlusOne, None));
        i = i + 1;
        proof {
            assert(hack::view_of_commands(cmds@) =~= before + push_zero_seq());
            assert(hack::view_of_commands(cmds@) =~= seq![l_label_v(name@)] + locals_init_seq(
                i as nat,
            ));
        }
    }
    let blocks = vec![AssemblerCodeBlock::new("function entry", cmds)];
    proof {
        reveal_with_fuel(view_of_blocks, 3);
        assert(view_of_blocks(blocks@) =~= function_seq(name@, local_variable_count as nat));
    }
    blocks
}

/// Lower one call site; the return-site counter is post-incremented so
/// every call in the translation unit declares a distinct return label.
pub fn construct_call(
    name: &vm::Label,
    args_count: u16,
    caller_name: &str,
    return_site_counter: &mut u32,
) -> (r: Vec<AssemblerCodeBlock>)
    requires
        args_count + 5 < 32768,
        *old(return_site_counter) < u32::MAX,
    ensures
        view_of_blocks(r@) == call_seq(
            name@,
            args_count,
            labels::return_site_label(caller_name@, *old(return_site_counter) as nat),
        ),
        *final(return_site_counter) == *old(return_site_counter) + 1,
{
    let return_label = labels::return_site_label_string(caller_name, *return_site_counter);
    *return_site_counter = *return_site_counter + 1;
    let mut cmds = vec![
        hack::a_symbol(return_label.as_str()),
        hack::c_command(Some(DestMnemonic::D), CompMnemonic::A, None),
    ];
    cmds.append(&mut push_d_commands());
    cmds.push(hack::a_symbol("LCL"));
    cmds.push(hack::c_command(Some(DestMnemonic::D), CompMnemonic::M, None));
    cmds.append(&mut push_d_commands());
    cmds.push(hack::a_symbol("ARG"));
    cmds.push(hack::c_command(Some(DestMnemonic::D), CompMnemonic::M, None));
    cmds.append(&mut push_d_commands());
    cmds.push(hack::a_symbol("THIS"));
    cmds.push(hack::c_command(Some(DestMnemonic::D), CompMnemonic::M, None));
    cmds.append(&mut push_d_commands());
    cmds.push(hack::a_symbol("THAT"));
    cmds.push(hack::c_command(Some(DestMnemonic::D), CompMnemonic::M, None));
    cmds.append(&mut push_d_commands());
    cmds.push(hack::a_symbol("SP"));
    cmds.push(hack::c_command(Some(DestMnemonic::D), CompMnemonic::M, None));
    cmds.push(hack::a_address(args_count + 5));
    cmds.push(hack::c_command(Some(DestMnemonic::D), CompMnemonic::DMinusA, None));
    cmds.push(hack::a_symbol("ARG"));
    cmds.push(hack::c_command(Some(DestMnemonic::M), CompMnemonic::D, None));
    cmds.push(hack::a_symbol("SP"));
    cmds.push(hack::c_command(Some(DestMnemonic::D), CompMnemonic::M, None));
    cmds.push(hack::a_symbol("LCL"));
    cmds.push(hack::c_command(Some(DestMnemonic::M), CompMnemonic::D, None));
    cmds.push(hack::a_symbol_string(name.get_string()));
    cmds.push(hack::c_command(None, CompMnemonic::Zero, Some(JumpMnemonic::JMP)));
    cmds.push(hack::l_label(return_label));
    proof {
        assert(hack::view_of_commands(cmds@) =~= call_seq(
            name@,
            args_count,
            labels::return_site_label(caller_name@, *old(return_site_counter) as nat),
        ));
    }
    let blocks = vec![AssemblerCodeBlock::new("call function", cmds)];
    proof {
        reveal_with_fuel(view_of_blocks, 3);
        assert(view_of_blocks(blocks@) =~= call_seq(
            name@,
            args_count,
            labels::return_site_label(caller_name@, *old(return_site_counter) as nat),
        ));
    }
    blocks
}

/// Lower one return: restore the caller's frame and jump to the saved
/// return address.
pub fn construct_return() -> (r: Vec<AssemblerCodeBlock>)
    ensures
        view_of_blocks(r@) == return_seq(),
{
    let cmds = vec![
        hack::a_symbol("LCL"),
        hack::c_command(Some(DestMnemonic::D), CompMnemonic::M, None),
        hack::a_symbol("R13"),
        hack::c_command(Some(DestMnemonic::M), CompMnemonic::D, None),
        hack::a_address(5),
        hack::c_command(Some(DestMnemonic::A), CompMnemonic::DMinusA, None),
        hack::c_command(Some(DestMnemonic::D), CompMnemonic::M, None),
        hack::a_symbol("R14"),
        hack::c_command(Some(DestMnemonic::M), CompMnemonic::D, None),
        hack::a_symbol("SP"),
        hack::c_command(Some(DestMnemonic::AM), CompMnemonic::MMinusOne, None),
        hack::c_command(Some(DestMnemonic::D), CompMnemonic::M, None),
        hack::a_symbol("ARG"),
        hack::c_command(Some(DestMnemonic::A), CompMnemonic::M, None),
        hack::c_command(Some(DestMnemonic::M), CompMnemonic::D, None),
        hack::a_symbol("ARG"),
        hack::c_command(Some(DestMnemonic::D), CompMnemonic::MPlusOne, None),
        hack::a_symbol("SP"),
        hack::c_command(Some(DestMnemonic::M), CompMnemonic::D, None),
        hack::a_symbol("R13"),
        hack::c_command(Some(DestMnemonic::AM), CompMnemonic::MMinusOne, None),
        hack::c_command(Some(DestMnemonic::D), CompMnemonic::M, None),
        hack::a_symbol("THAT"),
        hack::c_command(Some(DestMnemonic::M), CompMnemonic::D, None),
        hack::a_symbol("R13"),
        hack::c_command(Some(DestMnemonic::AM), CompMnemonic::MMinusOne, None),
        hack::c_command(Some(DestMnemonic::D), CompMnemonic::M, None),
        hack::a_symbol("THIS"),
        hack::c_command(Some(DestMnemonic::M), CompMnemonic::D, None),
        hack::a_symbol("R13"),
        hack::c_command(Some(DestMnemonic::AM), CompMnemonic::MMinusOne, None),
        hack::c_command(Some(DestMnemonic::D), CompMnemonic::M, None),
        hack::a_symbol("ARG"),
        hack::c_command(Some(DestMnemonic::M), CompMnemonic::D, None),
        hack::a_symbol("R13"),
        hack::c_command(Some(DestMnemonic::AM), CompMnemonic::MMinusOne, None),
        hack::c_command(Some(DestMnemonic::D), CompMnemonic::M, None),
        hack::a_symbol("LCL"),
        hack::c_command(Some(DestMnemonic::M), CompMnemonic::D, None),
        hack::a_symbol("R14"),
        hack::c_command(Some(DestMnemonic::A), CompMnemonic::M, None),
        hack::c_command(None, CompMnemonic::Zero, Some(JumpMnemonic::JMP)),
    ];
    proof {
        assert(hack::view_of_commands(cmds@) =~= return_seq());
    }
    let blocks = vec![AssemblerCodeBlock::new("return from function", cmds)];
    proof {
        reveal_with_fuel(view_of_blocks, 3);
        assert(view_of_blocks(blocks@) =~= return_seq());
    }
    blocks
}

/// The bootstrap preamble of a linked program: set `SP` to 256 and call
/// `Sys.init` with no arguments.
pub open spec fn bootstrap_seq() -> Seq<CommandV> {
    seq![
        a_address_v(256),
        c_command_v(Some(DestMnemonic::D), CompMnemonic::A, None),
        a_symbol_v("SP"@),
        c_command_v(Some(DestMnemonic::M), CompMnemonic::D, None),
    ] + call_seq("Sys.init"@, 0, labels::return_site_label("Bootstrap"@, 0))
}

/// Emit the bootstrap preamble: `SP = 256; call Sys.init 0`. It is
/// prepended once when several translation units are linked into a full
/// program, and omitted for single-file translation.
pub fn construct_bootstrap() -> (r: Vec<AssemblerCodeBlock>)
    ensures
        view_of_blocks(r@) == bootstrap_seq(),
{
    let mut cmds = vec![
        hack::a_address(256),
        hack::c_command(Some(DestMnemonic::D), CompMnemonic::A, None),
        hack::a_symbol("SP"),
        hack::c_command(Some(DestMnemonic::M), CompMnemonic::D, None),
    ];
    let sys_init = vm::Label::new("Sys.init");
    let mut counter: u32 = 0;
    let call_blocks = construct_call(&sys_init, 0, "Bootstrap", &mut counter);
    crate::assembler_code::flatten_blocks(call_blocks, &mut cmds);
    proof {
        assert(hack::view_of_commands(cmds@) =~= bootstrap_seq());
    }
    let blocks = vec![AssemblerCodeBlock::new("bootstrap", cmds)];
    proof {
        reveal_with_fuel(view_of_blocks, 3);
        assert(view_of_blocks(blocks@) =~= bootstrap_seq());
    }
    blocks
}

} // verus!
