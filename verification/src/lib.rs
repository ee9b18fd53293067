use vstd::prelude::*;

pub mod bytecode;
pub mod config;
pub mod error;
pub mod interpreter;
pub mod lexer;
pub mod table;

use crate::bytecode::ByteCode;
use crate::bytecode::ProgramV;
use crate::bytecode::spec_parse;
use crate::error::ErrorV;
use crate::interpreter::interpret as run_program;
use crate::interpreter::interpreter::interpret_result_matches;
use crate::interpreter::interpreter::spec_run;
use crate::interpreter::interpreter::StateV;

verus! {

pub use bytecode::instruction::Instruction;
pub use config::InstructionName;
pub use config::MaxInstructionNumber;
pub use config::VariableValue;
pub use error::Error;
pub use error::ParseError;

/// Assemble source lines into a program and execute it on a fresh
/// state: the whole pipeline from text to verdict.
pub fn interpret(lines: &Vec<String>) -> (r: Result<Option<VariableValue>, Error>)
    requires
        lines@.len() <= 0xFFFF,
    ensures
        match spec_parse(lines.deep_view()) {
            Ok(p) => interpret_result_matches(p, r),
            Err(e) => match r {
                Ok(_) => false,
                Err(err) => err@ == e,
            },
        },
{
    let byte_code = match ByteCode::parse_instructions(lines) {
        Ok(b) => b,
        Err(e) => return Err(e),
    };
    run_program(byte_code)
}

/// Assembly is idempotent: one source text has one image under
/// [`spec_parse`], so two programs assembled from the same lines agree
/// and the machine's semantics takes them through identical runs.
pub proof fn lemma_reassembly_same_outcome(lines: Seq<Seq<char>>, p1: ProgramV, p2: ProgramV, fuel: nat)
    requires
        spec_parse(lines) == Ok::<ProgramV, ErrorV>(p1),
        spec_parse(lines) == Ok::<ProgramV, ErrorV>(p2),
    ensures
        p1 == p2,
        spec_run(p1, StateV::init(), fuel) == spec_run(p2, StateV::init(), fuel),
{
}

} // verus!

