//! The semantic intermediate representation: it refines the nine VM
//! arithmetic opcodes into unary and binary operators (mathematical,
//! comparison, logical), because the three groups have different stack
//! effects and comparisons need generated labels. All other commands pass
//! through structurally. The lifter from the VM model is total and pure.

use crate::vm;
use vstd::prelude::*;

verus! {

/// A unary stack operator: consumes one word, produces one word.
#[derive(Debug, Clone, Copy, PartialEq, Eq, PartialOrd, Ord)]
pub enum UnaryOperator {
    Negative,
    Not,
}

/// A binary mathematical operator.
#[derive(Debug, Clone, Copy, PartialEq, Eq, PartialOrd, Ord)]
pub enum BinaryMathmaticalOperator {
    Addition,
    Sububraction,
}

/// A binary comparison operator; its lowering needs two generated labels.
#[derive(Debug, Clone, Copy, PartialEq, Eq, PartialOrd, Ord)]
pub enum BinaryComparisonOperator {
    Equal,
    GreaterThan,
    LessThan,
}

/// A binary bitwise logical operator.
#[derive(Debug, Clone, Copy, PartialEq, Eq, PartialOrd, Ord)]
pub enum BinaryLogicalOperator {
    And,
    Or,
}

/// A binary stack operator: consumes two words, produces one word.
#[derive(Debug, Clone, Copy, PartialEq, Eq, PartialOrd, Ord)]
pub enum BinaryOperator {
    Mathmatical(BinaryMathmaticalOperator),
    Comparison(BinaryComparisonOperator),
    Logical(BinaryLogicalOperator),
}

/// An arithmetic command split by arity.
#[derive(Debug, Clone, Copy, PartialEq, Eq, PartialOrd, Ord)]
pub enum ArithmeticCommand {
    UnaryOperator(UnaryOperator),
    BinaryOperator(BinaryOperator),
}

/// One semantic command: a VM command with its arithmetic opcode refined.
#[derive(Debug, Clone, PartialEq, Eq, PartialOrd, Ord)]
pub enum Command {
    Arithmetic(ArithmeticCommand),
    MemoryAccess(vm::MemoryAccessCommand),
    Function { name: vm::Label, local_variable_count: u16 },
    Call { name: vm::Label, args_count: u16 },
    Return,
    Label(vm::Label),
    Goto(vm::Label),
    IfGoto(vm::Label),
}

/// Ghost view of one semantic command.
pub enum CommandV {
    Arithmetic(ArithmeticCommand),
    MemoryAccess(vm::AccessType, vm::Segment, u16),
    Function(Seq<char>, u16),
    Call(Seq<char>, u16),
    Return,
    Label(Seq<char>),
    Goto(Seq<char>),
    IfGoto(Seq<char>),
}

/// The view of a sequence of semantic commands, element by element.
pub open spec fn view_of_commands(s: Seq<Command>) -> Seq<CommandV> {
    s.map_values(|c: Command| c@)
}

/// The semantic view of a sequence of VM commands: each element lifted.
pub open spec fn lift_seq(s: Seq<vm::CommandV>) -> Seq<CommandV> {
    s.map_values(|c: vm::CommandV| lift_spec(c))
}

impl View for Command {
    type V = CommandV;

    open spec fn view(&self) -> CommandV {
        match self {
            Command::Arithmetic(a) => CommandV::Arithmetic(*a),
            Command::MemoryAccess(m) => CommandV::MemoryAccess(m.access_type, m.segment, m.index@),
            Command::Function { name, local_variable_count } => CommandV::Function(
                name@,
                *local_variable_count,
            ),
            Command::Call { name, args_count } => CommandV::Call(name@, *args_count),
            Command::Return => CommandV::Return,
            Command::Label(l) => CommandV::Label(l@),
            Command::Goto(l) => CommandV::Goto(l@),
            Command::IfGoto(l) => CommandV::IfGoto(l@),
        }
    }
}

/// The three-way refinement of one VM arithmetic opcode.
pub open spec fn lift_arithmetic_spec(op: vm::ArithmeticCommand) -> ArithmeticCommand {
    match op {
        vm::ArithmeticCommand::Add => ArithmeticCommand::BinaryOperator(
            BinaryOperator::Mathmatical(BinaryMathmaticalOperator::Addition),
        ),
        vm::ArithmeticCommand::Sub => ArithmeticCommand::BinaryOperator(
            BinaryOperator::Mathmatical(BinaryMathmaticalOperator::Sububraction),
        ),
        vm::ArithmeticCommand::Neg => ArithmeticCommand::UnaryOperator(UnaryOperator::Negative),
        vm::ArithmeticCommand::Eq => ArithmeticCommand::BinaryOperator(
            BinaryOperator::Comparison(BinaryComparisonOperator::Equal),
        ),
        vm::ArithmeticCommand::Gt => ArithmeticCommand::BinaryOperator(
            BinaryOperator::Comparison(BinaryComparisonOperator::GreaterThan),
        ),
        vm::ArithmeticCommand::Lt => ArithmeticCommand::BinaryOperator(
            BinaryOperator::Comparison(BinaryComparisonOperator::LessThan),
        ),
        vm::ArithmeticCommand::And => ArithmeticCommand::BinaryOperator(
            BinaryOperator::Logical(BinaryLogicalOperator::And),
        ),
        vm::ArithmeticCommand::Or => ArithmeticCommand::BinaryOperator(
            BinaryOperator::Logical(BinaryLogicalOperator::Or),
        ),
        vm::ArithmeticCommand::Not => ArithmeticCommand::UnaryOperator(UnaryOperator::Not),
    }
}

/// The lifter on views: total and structure-preserving.
pub open spec fn lift_spec(cmd: vm::CommandV) -> CommandV {
    match cmd {
        vm::CommandV::Arithmetic(a) => CommandV::Arithmetic(lift_arithmetic_spec(a)),
        vm::CommandV::MemoryAccess(t, s, i) => CommandV::MemoryAccess(t, s, i),
        vm::CommandV::Function(name, k) => CommandV::Function(name, k),
        vm::CommandV::Call(name, n) => CommandV::Call(name, n),
        vm::CommandV::Return => CommandV::Return,
        vm::CommandV::Label(l) => CommandV::Label(l),
        vm::CommandV::Goto(l) => CommandV::Goto(l),
        vm::CommandV::IfGoto(l) => CommandV::IfGoto(l),
    }
}

/// Refine one VM arithmetic opcode by arity and operator family.
pub fn lift_arithmetic(op: vm::ArithmeticCommand) -> (r: ArithmeticCommand)
    ensures
        r == lift_arithmetic_spec(op),
{
    match op {
        vm::ArithmeticCommand::Add => ArithmeticCommand::BinaryOperator(
            BinaryOperator::Mathmatical(BinaryMathmaticalOperator::Addition),
        ),
        vm::ArithmeticCommand::Sub => ArithmeticCommand::BinaryOperator(
            BinaryOperator::Mathmatical(BinaryMathmaticalOperator::Sububraction),
        ),
        vm::ArithmeticCommand::Neg => ArithmeticCommand::UnaryOperator(UnaryOperator::Negative),
        vm::ArithmeticCommand::Eq => ArithmeticCommand::BinaryOperator(
            BinaryOperator::Comparison(BinaryComparisonOperator::Equal),
        ),
        vm::ArithmeticCommand::Gt => ArithmeticCommand::BinaryOperator(
            BinaryOperator::Comparison(BinaryComparisonOperator::GreaterThan),
        ),
        vm::ArithmeticCommand::Lt => ArithmeticCommand::BinaryOperator(
            BinaryOperator::Comparison(BinaryComparisonOperator::LessThan),
        ),
        vm::ArithmeticCommand::And => ArithmeticCommand::BinaryOperator(
            BinaryOperator::Logical(BinaryLogicalOperator::And),
        ),
        vm::ArithmeticCommand::Or => ArithmeticCommand::BinaryOperator(
            BinaryOperator::Logical(BinaryLogicalOperator::Or),
        ),
        vm::ArithmeticCommand::Not => ArithmeticCommand::UnaryOperator(UnaryOperator::Not),
    }
}

/// Lift one VM command into the semantic representation.
pub fn lift(cmd: vm::Command) -> (r: Command)
    ensures
        r@ == lift_spec(cmd@),
{
    match cmd {
        vm::Command::Arithmetic(a) => Command::Arithmetic(lift_arithmetic(a)),
        vm::Command::MemoryAccess(m) => Command::MemoryAccess(m),
        vm::Command::Function { name, local_variable_count } => Command::Function {
            name,
            local_variable_count,
        },
        vm::Command::Call { name, args_count } => Command::Call { name, args_count },
        vm::Command::Return => Command::Return,
        vm::Command::Label(l) => Command::Label(l),
        vm::Command::Goto(l) => Command::Goto(l),
        vm::Command::IfGoto(l) => Command::IfGoto(l),
    }
}

} // verus!
