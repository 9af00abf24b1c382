//! Lowering of arithmetic commands. A unary operator rewrites the top of
//! the stack in place; a binary operator consumes the two topmost words and
//! writes one result, decrementing `SP` by one. Comparisons branch through a
//! pair of generated labels and leave `-1` for true and `0` for false.

use crate::assembler_code::AssemblerCodeBlock;
use crate::assembler_code::view_of_blocks;
use crate::hack;
use crate::hack::ACommandV;
use crate::hack::CommandV;
use crate::hack::CompMnemonic;
use crate::hack::DestMnemonic;
use crate::hack::JumpMnemonic;
use crate::hack::a_symbol_v;
use crate::hack::c_command_v;
use crate::hack::l_label_v;
use crate::labels;
use crate::semantics;
use vstd::prelude::*;

verus! {

/// Commands reading the single operand `x = RAM[SP-1]` into D.
pub open spec fn load_argx_to_d_seq() -> Seq<CommandV> {
    seq![
        a_symbol_v("SP"@),
        c_command_v(Some(DestMnemonic::A), CompMnemonic::MMinusOne, None),
        c_command_v(Some(DestMnemonic::D), CompMnemonic::M, None),
    ]
}

/// Commands reading `x = RAM[SP-2]` into D and `y = RAM[SP-1]` into A.
pub open spec fn load_argxy_to_d_and_a_seq() -> Seq<CommandV> {
    seq![
        a_symbol_v("SP"@),
        c_command_v(Some(DestMnemonic::A), CompMnemonic::MMinusOne, None),
        c_command_v(Some(DestMnemonic::A), CompMnemonic::AMinusOne, None),
        c_command_v(Some(DestMnemonic::D), CompMnemonic::M, None),
        a_symbol_v("SP"@),
        c_command_v(Some(DestMnemonic::A), CompMnemonic::MMinusOne, None),
        c_command_v(Some(DestMnemonic::A), CompMnemonic::M, None),
    ]
}

/// The single instruction applying a unary operator to D.
pub open spec fn exec_unary_operator_seq(operator: semantics::UnaryOperator) -> Seq<CommandV> {
    seq![
        c_command_v(
            Some(DestMnemonic::D),
            match operator {
                semantics::UnaryOperator::Negative => CompMnemonic::MinusD,
                semantics::UnaryOperator::Not => CompMnemonic::NegateD,
            },
            None,
        ),
    ]
}

/// Commands writing D back over the operand; `SP` is unchanged.
pub open spec fn write_unary_result_to_stack_seq() -> Seq<CommandV> {
    seq![
        a_symbol_v("SP"@),
        c_command_v(Some(DestMnemonic::A), CompMnemonic::MMinusOne, None),
        c_command_v(Some(DestMnemonic::M), CompMnemonic::D, None),
    ]
}

/// The single instruction applying a binary mathematical operator.
pub open spec fn exec_binary_mathmatical_operator_seq(
    operator: semantics::BinaryMathmaticalOperator,
) -> Seq<CommandV> {
    seq![
        c_command_v(
            Some(DestMnemonic::D),
            match operator {
                semantics::BinaryMathmaticalOperator::Addition => CompMnemonic::DPlusA,
                semantics::BinaryMathmaticalOperator::Sububraction => CompMnemonic::DMinusA,
            },
            None,
        ),
    ]
}

/// The jump mnemonic that takes the true branch when `D = x - y` satisfies
/// the comparison.
pub open spec fn comparison_jump(operator: semantics::BinaryComparisonOperator) -> JumpMnemonic {
    match operator {
        semantics::BinaryComparisonOperator::Equal => JumpMnemonic::JEQ,
        semantics::BinaryComparisonOperator::GreaterThan => JumpMnemonic::JGT,
        semantics::BinaryComparisonOperator::LessThan => JumpMnemonic::JLT,
    }
}

/// Commands computing `D = x - y`, branching on the comparison, and leaving
/// `-1` in D for true and `0` for false through two generated labels.
pub open spec fn exec_binary_comparison_operator_seq(
    operator: semantics::BinaryComparisonOperator,
    module: Seq<char>,
    function: Seq<char>,
    counter: nat,
) -> Seq<CommandV> {
    seq![
        c_command_v(Some(DestMnemonic::D), CompMnemonic::DMinusA, None),
        a_symbol_v(labels::true_label(module, function, counter)),
        c_command_v(None, CompMnemonic::D, Some(comparison_jump(operator))),
        c_command_v(Some(DestMnemonic::D), CompMnemonic::Zero, None),
        a_symbol_v(labels::false_label(module, function, counter)),
        c_command_v(None, CompMnemonic::Zero, Some(JumpMnemonic::JMP)),
        l_label_v(labels::true_label(module, function, counter)),
        c_command_v(Some(DestMnemonic::D), CompMnemonic::MinusOne, None),
        l_label_v(labels::false_label(module, function, counter)),
    ]
}

/// The single instruction applying a binary logical operator.
pub open spec fn exec_binary_logical_operator_seq(
    operator: semantics::BinaryLogicalOperator,
) -> Seq<CommandV> {
    seq![
        c_command_v(
            Some(DestMnemonic::D),
            match operator {
                semantics::BinaryLogicalOperator::And => CompMnemonic::DAndA,
                semantics::BinaryLogicalOperator::Or => CompMnemonic::DOrA,
            },
            None,
        ),
    ]
}

/// The instruction run of a binary operator, by operator family.
pub open spec fn exec_binary_operator_seq(
    operator: semantics::BinaryOperator,
    module: Seq<char>,
    function: Seq<char>,
    counter: nat,
) -> Seq<CommandV> {
    match operator {
        semantics::BinaryOperator::Mathmatical(op) => exec_binary_mathmatical_operator_seq(op),
        semantics::BinaryOperator::Comparison(op) => exec_binary_comparison_operator_seq(
            op,
            module,
            function,
            counter,
        ),
        semantics::BinaryOperator::Logical(op) => exec_binary_logical_operator_seq(op),
    }
}

/// Commands writing D over `RAM[SP-2]` and decrementing `SP`.
pub open spec fn write_binary_result_to_stack_seq() -> Seq<CommandV> {
    seq![
        a_symbol_v("SP"@),
        c_command_v(Some(DestMnemonic::A), CompMnemonic::MMinusOne, None),
        c_command_v(Some(DestMnemonic::A), CompMnemonic::AMinusOne, None),
        c_command_v(Some(DestMnemonic::M), CompMnemonic::D, None),
        a_symbol_v("SP"@),
        c_command_v(Some(DestMnemonic::M), CompMnemonic::MMinusOne, None),
    ]
}

/// How many generated-label counters one arithmetic command consumes.
pub open spec fn comparison_count(cmd: semantics::ArithmeticCommand) -> nat {
    match cmd {
        semantics::ArithmeticCommand::BinaryOperator(
            semantics::BinaryOperator::Comparison(_),
        ) => 1,
        _ => 0,
    }
}

/// The full instruction run of one arithmetic command.
pub open spec fn construct_seq(
    cmd: semantics::ArithmeticCommand,
    module: Seq<char>,
    function: Seq<char>,
    counter: nat,
) -> Seq<CommandV> {
    match cmd {
        semantics::ArithmeticCommand::UnaryOperator(op) => load_argx_to_d_seq()
            + exec_unary_operator_seq(op) + write_unary_result_to_stack_seq(),
        semantics::ArithmeticCommand::BinaryOperator(op) => load_argxy_to_d_and_a_seq()
            + exec_binary_operator_seq(op, module, function, counter)
            + write_binary_result_to_stack_seq(),
    }
}

/// Referential closure of a comparison lowering: the two generated labels
/// are the only symbols its A-instructions reference, and both are
/// declared by label commands inside the same nine-command run. Every
/// other symbol the generator references is a predefined register name, a
/// static-variable symbol, or a user-named branch or call target.
pub proof fn lemma_comparison_block_closed(
    operator: semantics::BinaryComparisonOperator,
    module: Seq<char>,
    function: Seq<char>,
    counter: nat,
)
    ensures
        forall|k: int|
            0 <= k < exec_binary_comparison_operator_seq(operator, module, function, counter).len()
                ==> match #[trigger] exec_binary_comparison_operator_seq(
                operator,
                module,
                function,
                counter,
            )[k] {
                CommandV::A(ACommandV::Symbol(sym)) => exists|k2: int|
                    0 <= k2 < exec_binary_comparison_operator_seq(
                        operator,
                        module,
                        function,
                        counter,
                    ).len() && exec_binary_comparison_operator_seq(
                        operator,
                        module,
                        function,
                        counter,
                    )[k2] == l_label_v(sym),
                _ => true,
            },
{
    let s = exec_binary_comparison_operator_seq(operator, module, function, counter);
    assert(s[1] == a_symbol_v(labels::true_label(module, function, counter)));
    assert(s[6] == l_label_v(labels::true_label(module, function, counter)));
    assert(s[4] == a_symbol_v(labels::false_label(module, function, counter)));
    assert(s[8] == l_label_v(labels::false_label(module, function, counter)));
}

/// Load the operand of a unary operator from the stack into D.
pub fn load_argx_to_d() -> (r: AssemblerCodeBlock)
    ensures
        r@ == load_argx_to_d_seq(),
{
    let cmds = vec![
        hack::a_symbol("SP"),
        hack::c_command(Some(DestMnemonic::A), CompMnemonic::MMinusOne, None),
        hack::c_command(Some(DestMnemonic::D), CompMnemonic::M, None),
    ];
    proof {
        assert(hack::view_of_commands(cmds@) =~= load_argx_to_d_seq());
    }
    AssemblerCodeBlock::new("load x on D register", cmds)
}

/// Load the operands of a binary operator into D and A.
pub fn load_argxy_to_d_and_a() -> (r: AssemblerCodeBlock)
    ensures
        r@ == load_argxy_to_d_and_a_seq(),
{
    let cmds = vec![
        hack::a_symbol("SP"),
        hack::c_command(Some(DestMnemonic::A), CompMnemonic::MMinusOne, None),
        hack::c_command(Some(DestMnemonic::A), CompMnemonic::AMinusOne, None),
        hack::c_command(Some(DestMnemonic::D), CompMnemonic::M, None),
        hack::a_symbol("SP"),
        hack::c_command(Some(DestMnemonic::A), CompMnemonic::MMinusOne, None),
        hack::c_command(Some(DestMnemonic::A), CompMnemonic::M, None),
    ];
    proof {
        assert(hack::view_of_commands(cmds@) =~= load_argxy_to_d_and_a_seq());
    }
    AssemblerCodeBlock::new("load x on D register, and load y on A register", cmds)
}

/// Apply a unary operator to D.
pub fn exec_unary_operator(operator: semantics::UnaryOperator) -> (r: AssemblerCodeBlock)
    ensures
        r@ == exec_unary_operator_seq(operator),
{
    let cmds = vec![
        hack::c_command(
            Some(DestMnemonic::D),
            match operator {
                semantics::UnaryOperator::Negative => CompMnemonic::MinusD,
                semantics::UnaryOperator::Not => CompMnemonic::NegateD,
            },
            None,
        ),
    ];
    proof {
        assert(hack::view_of_commands(cmds@) =~= exec_unary_operator_seq(operator));
    }
    AssemblerCodeBlock::new("execute unary operator", cmds)
}

/// Write the result of a unary operator back to the top of the stack.
pub fn write_unary_result_to_stack() -> (r: AssemblerCodeBlock)
    ensures
        r@ == write_unary_result_to_stack_seq(),
{
    let cmds = vec![
        hack::a_symbol("SP"),
        hack::c_command(Some(DestMnemonic::A), CompMnemonic::MMinusOne, None),
        hack::c_command(Some(DestMnemonic::M), CompMnemonic::D, None),
    ];
    proof {
        assert(hack::view_of_commands(cmds@) =~= write_unary_result_to_stack_seq());
    }
    AssemblerCodeBlock::new("write result of unary operation to stack", cmds)
}

/// Apply a binary mathematical operator to D and A.
pub fn exec_binary_mathmatical_operator(
    operator: semantics::BinaryMathmaticalOperator,
) -> (r: AssemblerCodeBlock)
    ensures
        r@ == exec_binary_mathmatical_operator_seq(operator),
{
    let cmds = vec![
        hack::c_command(
            Some(DestMnemonic::D),
            match operator {
                semantics::BinaryMathmaticalOperator::Addition => CompMnemonic::DPlusA,
                semantics::BinaryMathmaticalOperator::Sububraction => CompMnemonic::DMinusA,
            },
            None,
        ),
    ];
    proof {
        assert(hack::view_of_commands(cmds@) =~= exec_binary_mathmatical_operator_seq(operator));
    }
    AssemblerCodeBlock::new("execute binary mathmatical operator", cmds)
}

/// Apply a binary comparison operator, leaving `-1` for true and `0` for
/// false through two labels unique to this lowering.
pub fn exec_binary_comparison_operator(
    operator: semantics::BinaryComparisonOperator,
    module_name: &str,
    function_name: &str,
    comp_operator_counter: &u32,
) -> (r: AssemblerCodeBlock)
    ensures
        r@ == exec_binary_comparison_operator_seq(
            operator,
            module_name@,
            function_name@,
            *comp_operator_counter as nat,
        ),
{
    let true_label = labels::true_label_string(module_name, function_name, *comp_operator_counter);
    let false_label = labels::false_label_string(
        module_name,
        function_name,
        *comp_operator_counter,
    );
    let cmds = vec![
        hack::c_command(Some(DestMnemonic::D), CompMnemonic::DMinusA, None),
        hack::a_symbol(true_label.as_str()),
        hack::c_command(
            None,
            CompMnemonic::D,
            Some(
                match operator {
                    semantics::BinaryComparisonOperator::Equal => JumpMnemonic::JEQ,
                    semantics::BinaryComparisonOperator::GreaterThan => JumpMnemonic::JGT,
                    semantics::BinaryComparisonOperator::LessThan => JumpMnemonic::JLT,
                },
            ),
        ),
        hack::c_command(Some(DestMnemonic::D), CompMnemonic::Zero, None),
        hack::a_symbol(false_label.as_str()),
        hack::c_command(None, CompMnemonic::Zero, Some(JumpMnemonic::JMP)),
        hack::l_label(true_label),
        hack::c_command(Some(DestMnemonic::D), CompMnemonic::MinusOne, None),
        hack::l_label(false_label),
    ];
    proof {
        assert(hack::view_of_commands(cmds@) =~= exec_binary_comparison_operator_seq(
            operator,
            module_name@,
            function_name@,
            *comp_operator_counter as nat,
        ));
    }
    AssemblerCodeBlock::new("execute binary comparison operator", cmds)
}

/// Apply a binary logical operator to D and A.
pub fn exec_binary_logical_operator(
    operator: semantics::BinaryLogicalOperator,
) -> (r: AssemblerCodeBlock)
    ensures
        r@ == exec_binary_logical_operator_seq(operator),
{
    let cmds = vec![
        hack::c_command(
            Some(DestMnemonic::D),
            match operator {
                semantics::BinaryLogicalOperator::And => CompMnemonic::DAndA,
                semantics::BinaryLogicalOperator::Or => CompMnemonic::DOrA,
            },
            None,
        ),
    ];
    proof {
        assert(hack::view_of_commands(cmds@) =~= exec_binary_logical_operator_seq(operator));
    }
    AssemblerCodeBlock::new("execute binary logical operator", cmds)
}

/// Apply a binary operator, dispatching on its family.
pub fn exec_binary_operator(
    operator: semantics::BinaryOperator,
    module_name: &str,
    function_name: &str,
    comp_operator_counter: &u32,
) -> (r: AssemblerCodeBlock)
    ensures
        r@ == exec_binary_operator_seq(
            operator,
            module_name@,
            function_name@,
            *comp_operator_counter as nat,
        ),
{
    match operator {
        semantics::BinaryOperator::Mathmatical(math_op) => exec_binary_mathmatical_operator(
            math_op,
        ),
        semantics::BinaryOperator::Comparison(comp_op) => exec_binary_comparison_operator(
            comp_op,
            module_name,
            function_name,
            comp_operator_counter,
        ),
        semantics::BinaryOperator::Logical(logical_op) => exec_binary_logical_operator(logical_op),
    }
}

/// Lower one arithmetic command to its blocks; a comparison consumes one
/// generated-label counter, which is post-incremented.
pub fn construct(
    arithmetic_command: semantics::ArithmeticCommand,
    module_name: &str,
    function_name: &str,
    comp_operator_counter: &mut u32,
) -> (r: Vec<AssemblerCodeBlock>)
    requires
        *old(comp_operator_counter) + comparison_count(arithmetic_command) <= u32::MAX,
    ensures
        view_of_blocks(r@) == construct_seq(
            arithmetic_command,
            module_name@,
            function_name@,
            *old(comp_operator_counter) as nat,
        ),
        *final(comp_operator_counter) == *old(comp_operator_counter) + comparison_count(
            arithmetic_command,
        ),
{
    match arithmetic_command {
        semantics::ArithmeticCommand::UnaryOperator(unary_operator) => {
            let r = vec![
                AssemblerCodeBlock::new_header_comment("Arithmetic command (Unary Operator)"),
                load_argx_to_d(),
                exec_unary_operator(unary_operator),
                write_unary_result_to_stack(),
            ];
            proof {
                reveal_with_fuel(view_of_blocks, 6);
                assert(view_of_blocks(r@) =~= construct_seq(
                    arithmetic_command,
                    module_name@,
                    function_name@,
                    *comp_operator_counter as nat,
                ));
            }
            r
        },
        semantics::ArithmeticCommand::BinaryOperator(binary_operator) => {
            let r = vec![
                AssemblerCodeBlock::new_header_comment("Arithmetic command (Binary Operator)"),
                load_argxy_to_d_and_a(),
                exec_binary_operator(
                    binary_operator,
                    module_name,
                    function_name,
                    comp_operator_counter,
                ),
                write_binary_result_to_stack(),
            ];
            if let semantics::BinaryOperator::Comparison(_) = binary_operator {
                *comp_operator_counter = *comp_operator_counter + 1;
            }
            proof {
                reveal_with_fuel(view_of_blocks, 6);
                assert(view_of_blocks(r@) =~= construct_seq(
                    arithmetic_command,
                    module_name@,
                    function_name@,
                    *old(comp_operator_counter) as nat,
                ));
            }
            r
        },
    }
}

/// Write the result of a binary operator and decrement `SP`.
pub fn write_binary_result_to_stack() -> (r: AssemblerCodeBlock)
    ensures
        r@ == write_binary_result_to_stack_seq(),
{
    let cmds = vec![
        hack::a_symbol("SP"),
        hack::c_command(Some(DestMnemonic::A), CompMnemonic::MMinusOne, None),
        hack::c_command(Some(DestMnemonic::A), CompMnemonic::AMinusOne, None),
        hack::c_command(Some(DestMnemonic::M), CompMnemonic::D, None),
        hack::a_symbol("SP"),
        hack::c_command(Some(DestMnemonic::M), CompMnemonic::MMinusOne, None),
    ];
    proof {
        assert(hack::view_of_commands(cmds@) =~= write_binary_result_to_stack_seq());
    }
    AssemblerCodeBlock::new("write result of binary operation to stack", cmds)
}

} // verus!
