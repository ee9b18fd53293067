use vstd::prelude::*;

verus! {

/// The machine's numeric type: stack cells, variable values and label
/// targets are all 16-bit unsigned integers, wrapping on overflow.
pub type VariableValue = u16;

/// The type of instruction indices recorded in the label table.
pub type MaxInstructionNumber = u16;

/// The closed set of opcodes the machine understands.
#[allow(non_camel_case_types)]
#[derive(Debug, PartialEq, Eq, Clone, Copy, Structural)]
pub enum InstructionName {
    LOAD,
    WRITE,
    READ,
    ADD,
    MULTIPLY,
    RETURN,
    EQUAL,
    GREATER,
    LESS,
    DUP,
    POP,
    GOTO,
}

} // verus!
