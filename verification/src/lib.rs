//! Translator core for a stack-oriented virtual machine targeting the Hack
//! instruction set: typed command models, a semantic lifter, and a verified
//! code generator that lowers VM commands to Hack assembly commands.

pub mod assembler_code;
pub mod hack;
pub mod labels;
pub mod semantics;
pub mod to_assembler;
pub mod vm;
