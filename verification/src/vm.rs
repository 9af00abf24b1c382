//! The virtual-machine command model: the typed form of one VM source
//! statement, as produced by a front-end parser.

use vstd::prelude::*;

verus! {

/// A name appearing in the VM source: a function name or a branch target.
#[derive(Debug, Clone, PartialEq, Eq, PartialOrd, Ord)]
pub struct Label(String);

impl View for Label {
    type V = Seq<char>;

    closed spec fn view(&self) -> Seq<char> {
        self.0@
    }
}

impl Label {
    pub fn new(str: &str) -> (r: Self)
        ensures
            r@ == str@,
    {
        Self(str.to_owned())
    }

    pub fn get(&self) -> (r: &str)
        ensures
            r@ == self@,
    {
        &self.0
    }

    pub fn get_string(&self) -> (r: String)
        ensures
            r@ == self@,
    {
        self.0.as_str().to_owned()
    }
}

/// The nine arithmetic and logical VM opcodes.
#[derive(Debug, Clone, Copy, PartialEq, Eq, PartialOrd, Ord)]
pub enum ArithmeticCommand {
    Add,
    Sub,
    Neg,
    Eq,
    Gt,
    Lt,
    And,
    Or,
    Not,
}

/// Whether a memory access pushes onto or pops from the stack.
#[derive(Debug, Clone, Copy, PartialEq, Eq, PartialOrd, Ord)]
pub enum AccessType {
    Push,
    Pop,
}

/// The eight VM memory segments.
#[derive(Debug, Clone, Copy, PartialEq, Eq, PartialOrd, Ord)]
pub enum Segment {
    Argument,
    Local,
    Static,
    Constant,
    This,
    That,
    Pointer,
    Temp,
}

/// An unsigned 16-bit segment index.
#[derive(Debug, Clone, Copy, PartialEq, Eq, PartialOrd, Ord)]
pub struct Index(u16);

impl View for Index {
    type V = u16;

    closed spec fn view(&self) -> u16 {
        self.0
    }
}

impl Index {
    pub fn new(v: u16) -> (r: Self)
        ensures
            r@ == v,
    {
        Self(v)
    }

    pub fn get(&self) -> (r: u16)
        ensures
            r == self@,
    {
        self.0
    }
}

/// A `push` or `pop` statement: access type, segment and index.
#[derive(Debug, Clone, PartialEq, Eq, PartialOrd, Ord)]
pub struct MemoryAccessCommand {
    pub access_type: AccessType,
    pub segment: Segment,
    pub index: Index,
}

/// One typed VM command.
#[derive(Debug, Clone, PartialEq, Eq, PartialOrd, Ord)]
pub enum Command {
    Arithmetic(ArithmeticCommand),
    MemoryAccess(MemoryAccessCommand),
    Function { name: Label, local_variable_count: u16 },
    Call { name: Label, args_count: u16 },
    Return,
    Label(Label),
    Goto(Label),
    IfGoto(Label),
}

/// Ghost view of one VM command; names are viewed as character sequences.
pub enum CommandV {
    Arithmetic(ArithmeticCommand),
    MemoryAccess(AccessType, Segment, u16),
    Function(Seq<char>, u16),
    Call(Seq<char>, u16),
    Return,
    Label(Seq<char>),
    Goto(Seq<char>),
    IfGoto(Seq<char>),
}

/// The view of a sequence of VM commands, element by element.
pub open spec fn view_of_commands(s: Seq<Command>) -> Seq<CommandV> {
    s.map_values(|c: Command| c@)
}

impl View for Command {
    type V = CommandV;

    open spec fn view(&self) -> CommandV {
        match self {
            Command::Arithmetic(a) => CommandV::Arithmetic(*a),
            Command::MemoryAccess(m) => CommandV::MemoryAccess(m.access_type, m.segment, m.index@),
            Command::Function { name, local_variable_count } => CommandV::Function(
                name@,
                *local_variable_count,
            ),
            Command::Call { name, args_count } => CommandV::Call(name@, *args_count),
            Command::Return => CommandV::Return,
            Command::Label(l) => CommandV::Label(l@),
            Command::Goto(l) => CommandV::Goto(l@),
            Command::IfGoto(l) => CommandV::IfGoto(l@),
        }
    }
}

} // verus!
