use vstd::prelude::*;
use vstd::string::StringExecFns;
use crate::config::InstructionName;

verus! {

/// Why a numeric literal failed to parse as a 16-bit value.
#[derive(Debug, PartialEq, Eq, Clone, Copy, Structural)]
pub enum NumberError {
    /// The literal was the empty string.
    Empty,
    /// A character that is not a decimal digit was found.
    InvalidDigit,
    /// The digits form a value above the 16-bit maximum.
    TooLarge,
}

/// What went wrong on a single source line during assembly.
#[derive(Debug)]
pub enum ParseError {
    /// The mnemonic is not one of the known opcodes.
    UnknownInstruction { name: String },
    /// The opcode was given the wrong number of arguments.
    WrongArgCount { opcode: InstructionName, expected: usize, got: usize },
    /// The argument of a load did not parse as a number.
    InvalidNumber { cause: NumberError },
    /// The argument of a write or read is not a valid variable name.
    InvalidVariableName { name: String },
    /// The argument of a goto is not a valid label name.
    InvalidLabelName { name: String },
    /// A label with this name was already declared.
    DuplicateLabel { name: String },
}

/// Why execution of a single instruction failed.
#[derive(Debug, PartialEq, Eq, Clone, Copy, Structural)]
pub enum RuntimeError {
    /// A value was needed from the operand stack, but it was empty.
    StackUnderflow,
    /// A variable was read before any value was written to it.
    UndefinedVariable,
}

/// Every failure the system reports, as a closed set of structured values.
/// [`Error::message`] renders the human-readable text.
#[derive(Debug)]
#[allow(inconsistent_fields)]
pub enum Error {
    /// The source could not be read at all.
    Io { detail: String },
    /// A source line failed to assemble; `line` is 1-based.
    Parse { line: usize, detail: ParseError },
    /// Assembly produced no instructions.
    EmptyProgram,
    /// An instruction failed while executing; `instruction` is 1-based.
    Runtime { instruction: usize, detail: RuntimeError },
    /// A goto named a label that was never declared.
    UnknownLabel { label: String },
    /// Execution was abandoned after the interpreter's step budget ran out.
    StepLimit,
}

/// Mathematical image of a [`ParseError`]: strings become character sequences.
pub ghost enum ParseErrorV {
    UnknownInstruction { name: Seq<char> },
    WrongArgCount { opcode: InstructionName, expected: nat, got: nat },
    InvalidNumber { cause: NumberError },
    InvalidVariableName { name: Seq<char> },
    InvalidLabelName { name: Seq<char> },
    DuplicateLabel { name: Seq<char> },
}

/// Mathematical image of an [`Error`].
#[allow(inconsistent_fields)]
pub ghost enum ErrorV {
    Io { detail: Seq<char> },
    Parse { line: nat, detail: ParseErrorV },
    EmptyProgram,
    Runtime { instruction: nat, detail: RuntimeError },
    UnknownLabel { label: Seq<char> },
    StepLimit,
}

impl View for ParseError {
    type V = ParseErrorV;

    open spec fn view(&self) -> ParseErrorV {
        match self {
            ParseError::UnknownInstruction { name } => (ParseErrorV::UnknownInstruction {
                name: name@,
            }),
            ParseError::WrongArgCount { opcode, expected, got } => (ParseErrorV::WrongArgCount {
                opcode: *opcode,
                expected: *expected as nat,
                got: *got as nat,
            }),
            ParseError::InvalidNumber { cause } => (ParseErrorV::InvalidNumber { cause: *cause }),
            ParseError::InvalidVariableName { name } => (ParseErrorV::InvalidVariableName {
                name: name@,
            }),
            ParseError::InvalidLabelName { name } => (ParseErrorV::InvalidLabelName {
                name: name@,
            }),
            ParseError::DuplicateLabel { name } => (ParseErrorV::DuplicateLabel { name: name@ }),
        }
    }
}

impl View for Error {
    type V = ErrorV;

    open spec fn view(&self) -> ErrorV {
        match self {
            Error::Io { detail } => (ErrorV::Io { detail: detail@ }),
            Error::Parse { line, detail } => (ErrorV::Parse {
                line: *line as nat,
                detail: detail@,
            }),
            Error::EmptyProgram => ErrorV::EmptyProgram,
            Error::Runtime { instruction, detail } => (ErrorV::Runtime {
                instruction: *instruction as nat,
                detail: *detail,
            }),
            Error::UnknownLabel { label } => (ErrorV::UnknownLabel { label: label@ }),
            Error::StepLimit => ErrorV::StepLimit,
        }
    }
}

/// The character for one decimal digit.
pub open spec fn decimal_digit(d: nat) -> char {
    if d == 0 {
        '0'
    } else if d == 1 {
        '1'
    } else if d == 2 {
        '2'
    } else if d == 3 {
        '3'
    } else if d == 4 {
        '4'
    } else if d == 5 {
        '5'
    } else if d == 6 {
        '6'
    } else if d == 7 {
        '7'
    } else if d == 8 {
        '8'
    } else {
        '9'
    }
}

/// The usual decimal notation of a natural number, no leading zeros.
pub open spec fn decimal(n: nat) -> Seq<char>
    decreases n,
{
    if n < 10 {
        seq![decimal_digit(n)]
    } else {
        decimal(n / 10).push(decimal_digit(n % 10))
    }
}

/// The lower-case word naming an opcode inside error messages.
pub open spec fn opcode_word(op: InstructionName) -> Seq<char> {
    match op {
        InstructionName::LOAD => "load"@,
        InstructionName::WRITE => "write"@,
        InstructionName::READ => "read"@,
        InstructionName::ADD => "add"@,
        InstructionName::MULTIPLY => "multiply"@,
        InstructionName::RETURN => "return"@,
        InstructionName::EQUAL => "equal"@,
        InstructionName::GREATER => "greater"@,
        InstructionName::LESS => "less"@,
        InstructionName::DUP => "dup"@,
        InstructionName::POP => "pop"@,
        InstructionName::GOTO => "goto"@,
    }
}

impl NumberError {
    /// The text describing this failure.
    pub open spec fn text(self) -> Seq<char> {
        match self {
            NumberError::Empty => "cannot parse integer from empty string"@,
            NumberError::InvalidDigit => "invalid digit found in string"@,
            NumberError::TooLarge => "number too large to fit in target type"@,
        }
    }
}

impl ParseErrorV {
    /// The text describing this failure.
    pub open spec fn message(self) -> Seq<char> {
        match self {
            ParseErrorV::UnknownInstruction { name } => "Unknown instruction: "@ + name,
            ParseErrorV::WrongArgCount { opcode, expected, got } => "Error creating "@
                + opcode_word(opcode) + " instruction: expected "@ + decimal(expected)
                + " argument, got "@ + decimal(got),
            ParseErrorV::InvalidNumber { cause } => "Error creating load instruction: "@
                + cause.text(),
            ParseErrorV::InvalidVariableName { name } => "Invalid variable name "@ + name,
            ParseErrorV::InvalidLabelName { name } => "Invalid label name: "@ + name,
            ParseErrorV::DuplicateLabel { name } => "duplicated label: "@ + name,
        }
    }
}

impl ErrorV {
    /// The text describing this failure.
    pub open spec fn message(self) -> Seq<char> {
        match self {
            ErrorV::Io { detail } => "Unable to open file: "@ + detail,
            ErrorV::Parse { line, detail } => "Unable to parse line #"@ + decimal(line) + ": "@
                + detail.message(),
            ErrorV::EmptyProgram => "Empty program"@,
            ErrorV::Runtime { instruction, detail } => match detail {
                RuntimeError::StackUnderflow => "Runtime error: unable to process instruction #"@
                    + decimal(instruction) + ": no value on stack"@,
                RuntimeError::UndefinedVariable =>
                    "Runtime error: unable to get variable: doesn't exist, instruction#"@
                    + decimal(instruction),
            },
            ErrorV::UnknownLabel { label } => "Label with name: "@ + label + " doesn't exist"@,
            ErrorV::StepLimit => "Runtime error: step limit exceeded"@,
        }
    }
}

/// The string for one decimal digit.
fn digit_string(d: u64) -> (r: String)
    requires
        d < 10,
    ensures
        r@ == seq![decimal_digit(d as nat)],
{
    let s: &str = if d == 0 {
        "0"
    } else if d == 1 {
        "1"
    } else if d == 2 {
        "2"
    } else if d == 3 {
        "3"
    } else if d == 4 {
        "4"
    } else if d == 5 {
        "5"
    } else if d == 6 {
        "6"
    } else if d == 7 {
        "7"
    } else if d == 8 {
        "8"
    } else {
        "9"
    };
    proof {
        reveal_strlit("0");
        reveal_strlit("1");
        reveal_strlit("2");
        reveal_strlit("3");
        reveal_strlit("4");
        reveal_strlit("5");
        reveal_strlit("6");
        reveal_strlit("7");
        reveal_strlit("8");
        reveal_strlit("9");
        assert(s@ =~= seq![decimal_digit(d as nat)]);
    }
    s.to_owned()
}

/// Decimal notation of `n`, as executable code.
pub fn decimal_string(n: u64) -> (r: String)
    ensures
        r@ == decimal(n as nat),
    decreases n,
{
    if n < 10 {
        digit_string(n)
    } else {
        let mut s = decimal_string(n / 10);
        let d = digit_string(n % 10);
        s.append(d.as_str());
        proof {
            assert(s@ =~= decimal((n / 10) as nat).push(decimal_digit((n % 10) as nat)));
        }
        s
    }
}

impl ParseError {
    /// The human-readable text of this failure, as the display layer.
    pub fn message(&self) -> (r: String)
        ensures
            r@ == self@.message(),
    {
        match self {
            ParseError::UnknownInstruction { name } => {
                let mut m = String::from_str("Unknown instruction: ");
                m.append(name.as_str());
                m
            },
            ParseError::WrongArgCount { opcode, expected, got } => {
                let mut m = String::from_str("Error creating ");
                m.append(opcode_str(*opcode));
                m.append(" instruction: expected ");
                let e = decimal_string(*expected as u64);
                m.append(e.as_str());
                m.append(" argument, got ");
                let g = decimal_string(*got as u64);
                m.append(g.as_str());
                m
            },
            ParseError::InvalidNumber { cause } => {
                let mut m = String::from_str("Error creating load instruction: ");
                m.append(number_error_str(*cause));
                m
            },
            ParseError::InvalidVariableName { name } => {
                let mut m = String::from_str("Invalid variable name ");
                m.append(name.as_str());
                m
            },
            ParseError::InvalidLabelName { name } => {
                let mut m = String::from_str("Invalid label name: ");
                m.append(name.as_str());
                m
            },
            ParseError::DuplicateLabel { name } => {
                let mut m = String::from_str("duplicated label: ");
                m.append(name.as_str());
                m
            },
        }
    }
}

/// The lower-case word naming an opcode, as executable code.
fn opcode_str(op: InstructionName) -> (r: &'static str)
    ensures
        r@ == opcode_word(op),
{
    match op {
        InstructionName::LOAD => "load",
        InstructionName::WRITE => "write",
        InstructionName::READ => "read",
        InstructionName::ADD => "add",
        InstructionName::MULTIPLY => "multiply",
        InstructionName::RETURN => "return",
        InstructionName::EQUAL => "equal",
        InstructionName::GREATER => "greater",
        InstructionName::LESS => "less",
        InstructionName::DUP => "dup",
        InstructionName::POP => "pop",
        InstructionName::GOTO => "goto",
    }
}

/// The text describing a numeric-literal failure, as executable code.
fn number_error_str(cause: NumberError) -> (r: &'static str)
    ensures
        r@ == cause.text(),
{
    match cause {
        NumberError::Empty => "cannot parse integer from empty string",
        NumberError::InvalidDigit => "invalid digit found in string",
        NumberError::TooLarge => "number too large to fit in target type",
    }
}

impl Error {
    /// The human-readable text of this failure, as the display layer.
    pub fn message(&self) -> (r: String)
        ensures
            r@ == self@.message(),
    {
        match self {
            Error::Io { detail } => {
                let mut m = String::from_str("Unable to open file: ");
                m.append(detail.as_str());
                m
            },
            Error::Parse { line, detail } => {
                let mut m = String::from_str("Unable to parse line #");
                let l = decimal_string(*line as u64);
                m.append(l.as_str());
                m.append(": ");
                let d = detail.message();
                m.append(d.as_str());
                m
            },
            Error::EmptyProgram => String::from_str("Empty program"),
            Error::Runtime { instruction, detail } => match detail {
                RuntimeError::StackUnderflow => {
                    let mut m = String::from_str(
                        "Runtime error: unable to process instruction #",
                    );
                    let i = decimal_string(*instruction as u64);
                    m.append(i.as_str());
                    m.append(": no value on stack");
                    m
                },
                RuntimeError::UndefinedVariable => {
                    let mut m = String::from_str(
                        "Runtime error: unable to get variable: doesn't exist, instruction#",
                    );
                    let i = decimal_string(*instruction as u64);
                    m.append(i.as_str());
                    m
                },
            },
            Error::UnknownLabel { label } => {
                let mut m = String::from_str("Label with name: ");
                m.append(label.as_str());
                m.append(" doesn't exist");
                m
            },
            Error::StepLimit => String::from_str("Runtime error: step limit exceeded"),
        }
    }
}

} // verus!
