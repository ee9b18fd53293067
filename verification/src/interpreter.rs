pub mod interpreter;
pub mod stack;

use vstd::prelude::*;
use crate::bytecode::ByteCode;
use crate::config::VariableValue;
use crate::error::Error;
use crate::interpreter::interpreter::Interpreter;
use crate::interpreter::interpreter::interpret_result_matches;

verus! {

/// Execute an assembled program on a fresh evaluation state.
pub fn interpret(program: ByteCode) -> (r: Result<Option<VariableValue>, Error>)
    requires
        program@.wf(),
    ensures
        interpret_result_matches(program@, r),
{
    let mut interpreter = Interpreter::new(program);
    interpreter.interpret()
}

} // verus!
