//! The Hack assembly command model: A-instructions, C-instructions and label
//! pseudo-instructions, together with the ghost view `CommandV` that the
//! generator's contracts are stated over.

use vstd::prelude::*;

verus! {

/// A symbolic name used by A-instructions and label declarations.
#[derive(Debug, Clone, PartialEq, Eq, PartialOrd, Ord)]
pub struct Symbol(String);

impl View for Symbol {
    type V = Seq<char>;

    closed spec fn view(&self) -> Seq<char> {
        self.0@
    }
}

impl Symbol {
    pub fn new(str: &str) -> (r: Self)
        ensures
            r@ == str@,
    {
        Self(str.to_owned())
    }

    pub fn from_string(str: String) -> (r: Self)
        ensures
            r@ == str@,
    {
        Self(str)
    }

    pub fn get(&self) -> (r: &str)
        ensures
            r@ == self@,
    {
        self.0.as_str()
    }
}

/// Destination part of a C-instruction: the subset of {A, D, M} written.
#[derive(Debug, Clone, Copy, PartialEq, Eq, PartialOrd, Ord)]
pub enum DestMnemonic {
    M,
    D,
    MD,
    A,
    AM,
    AD,
    AMD,
}

/// Computation part of a C-instruction: one of the ALU expressions the Hack
/// CPU can evaluate in a single cycle.
#[derive(Debug, Clone, Copy, PartialEq, Eq, PartialOrd, Ord)]
pub enum CompMnemonic {
    Zero,
    One,
    MinusOne,
    D,
    A,
    M,
    NegateD,
    NegateA,
    NegateM,
    MinusD,
    MinusA,
    MinusM,
    DPlusOne,
    APlusOne,
    MPlusOne,
    DMinusOne,
    AMinusOne,
    MMinusOne,
    DPlusA,
    DPlusM,
    DMinusA,
    DMinusM,
    AMinusD,
    MMinusD,
    DAndA,
    DAndM,
    DOrA,
    DOrM,
}

/// Jump part of a C-instruction.
#[derive(Debug, Clone, Copy, PartialEq, Eq, PartialOrd, Ord)]
pub enum JumpMnemonic {
    JGT,
    JEQ,
    JGE,
    JLT,
    JNE,
    JLE,
    JMP,
}

/// A C-instruction: `dest = comp ; jump` with `dest` and `jump` optional.
#[derive(Debug, Clone, Copy, PartialEq, Eq, PartialOrd, Ord)]
pub struct CCommand {
    pub dest: Option<DestMnemonic>,
    pub comp: CompMnemonic,
    pub jump: Option<JumpMnemonic>,
}

/// The operand of an A-instruction: a 15-bit numeric literal or a symbol.
#[derive(Debug, Clone, PartialEq, Eq, PartialOrd, Ord)]
pub enum ACommand {
    Address(u16),
    Symbol(Symbol),
}

/// One Hack assembly command.
#[derive(Debug, Clone, PartialEq, Eq, PartialOrd, Ord)]
pub enum Command {
    A(ACommand),
    C(CCommand),
    L(Symbol),
}

/// Ghost view of an A-instruction operand.
pub enum ACommandV {
    Address(u16),
    Symbol(Seq<char>),
}

/// Ghost view of one Hack command; symbols are viewed as character sequences.
pub enum CommandV {
    A(ACommandV),
    C(CCommand),
    L(Seq<char>),
}

impl View for ACommand {
    type V = ACommandV;

    open spec fn view(&self) -> ACommandV {
        match self {
            ACommand::Address(n) => ACommandV::Address(*n),
            ACommand::Symbol(s) => ACommandV::Symbol(s@),
        }
    }
}

impl View for Command {
    type V = CommandV;

    open spec fn view(&self) -> CommandV {
        match self {
            Command::A(a) => CommandV::A(a@),
            Command::C(c) => CommandV::C(*c),
            Command::L(s) => CommandV::L(s@),
        }
    }
}

/// The view of a sequence of Hack commands, element by element.
pub open spec fn view_of_commands(s: Seq<Command>) -> Seq<CommandV> {
    s.map_values(|c: Command| c@)
}

/// Spec constructor for an A-instruction on a symbol.
pub open spec fn a_symbol_v(name: Seq<char>) -> CommandV {
    CommandV::A(ACommandV::Symbol(name))
}

/// Spec constructor for an A-instruction on a numeric address.
pub open spec fn a_address_v(n: u16) -> CommandV {
    CommandV::A(ACommandV::Address(n))
}

/// Spec constructor for a C-instruction.
pub open spec fn c_command_v(
    dest: Option<DestMnemonic>,
    comp: CompMnemonic,
    jump: Option<JumpMnemonic>,
) -> CommandV {
    CommandV::C(CCommand { dest, comp, jump })
}

/// Spec constructor for a label declaration.
pub open spec fn l_label_v(name: Seq<char>) -> CommandV {
    CommandV::L(name)
}

/// An A-instruction loading a symbolic address.
pub fn a_symbol(name: &str) -> (c: Command)
    ensures
        c@ == a_symbol_v(name@),
{
    Command::A(ACommand::Symbol(Symbol::new(name)))
}

/// An A-instruction loading a symbolic address given as an owned string.
pub fn a_symbol_string(name: String) -> (c: Command)
    ensures
        c@ == a_symbol_v(name@),
{
    Command::A(ACommand::Symbol(Symbol::from_string(name)))
}

/// An A-instruction loading a numeric address.
pub fn a_address(n: u16) -> (c: Command)
    requires
        n < 32768,
    ensures
        c@ == a_address_v(n),
{
    Command::A(ACommand::Address(n))
}

/// A C-instruction.
pub fn c_command(
    dest: Option<DestMnemonic>,
    comp: CompMnemonic,
    jump: Option<JumpMnemonic>,
) -> (c: Command)
    ensures
        c@ == c_command_v(dest, comp, jump),
{
    Command::C(CCommand { dest, comp, jump })
}

/// A label declaration.
pub fn l_label(name: String) -> (c: Command)
    ensures
        c@ == l_label_v(name@),
{
    Command::L(Symbol::from_string(name))
}

} // verus!
