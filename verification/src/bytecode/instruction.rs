use vstd::prelude::*;
use crate::config::InstructionName;
use crate::config::VariableValue;
use crate::error::ParseError;
use crate::error::ParseErrorV;
use crate::lexer::check_label_name;
use crate::lexer::check_variable_name;
use crate::lexer::is_label_name;
use crate::lexer::is_variable_name;
use crate::lexer::parse_number;
use crate::lexer::parse_u16;

verus! {

/// One machine instruction: an opcode together with its argument.
/// Exactly one of `arg` and `variable` is populated when the opcode's
/// shape asks for one, and neither otherwise.
#[derive(Debug, PartialEq)]
pub struct Instruction {
    pub name: InstructionName,
    pub arg: Option<VariableValue>,
    pub variable: Option<String>,
}

/// Mathematical image of an [`Instruction`].
pub ghost struct InstructionV {
    pub name: InstructionName,
    pub arg: Option<VariableValue>,
    pub variable: Option<Seq<char>>,
}

impl View for Instruction {
    type V = InstructionV;

    open spec fn view(&self) -> InstructionV {
        InstructionV {
            name: self.name,
            arg: self.arg,
            variable: match self.variable {
                Some(ref s) => Some(s@),
                None => None,
            },
        }
    }
}

impl InstructionV {
    /// The instruction's payload matches its opcode's declared shape.
    pub open spec fn wf(self) -> bool {
        match self.name {
            InstructionName::LOAD => self.arg is Some && self.variable is None,
            InstructionName::WRITE | InstructionName::READ => self.arg is None
                && self.variable is Some && is_variable_name(self.variable->0),
            InstructionName::GOTO => self.arg is None && self.variable is Some && is_label_name(
                self.variable->0,
            ),
            _ => self.arg is None && self.variable is None,
        }
    }
}

/// What constructing a load from raw argument tokens yields.
pub open spec fn spec_create_load(args: Seq<Seq<char>>) -> Result<InstructionV, ParseErrorV> {
    if args.len() != 1 {
        Err(ParseErrorV::WrongArgCount { opcode: InstructionName::LOAD, expected: 1, got: args.len() })
    } else {
        match parse_number(args[0]) {
            Ok(v) => Ok(InstructionV { name: InstructionName::LOAD, arg: Some(v), variable: None }),
            Err(cause) => Err(ParseErrorV::InvalidNumber { cause }),
        }
    }
}

/// What constructing a write or read from raw argument tokens yields.
pub open spec fn spec_create_var(op: InstructionName, args: Seq<Seq<char>>) -> Result<
    InstructionV,
    ParseErrorV,
> {
    if args.len() != 1 {
        Err(ParseErrorV::WrongArgCount { opcode: op, expected: 1, got: args.len() })
    } else if !is_variable_name(args[0]) {
        Err(ParseErrorV::InvalidVariableName { name: args[0] })
    } else {
        Ok(InstructionV { name: op, arg: None, variable: Some(args[0]) })
    }
}

/// What constructing a goto from raw argument tokens yields.
pub open spec fn spec_create_goto(args: Seq<Seq<char>>) -> Result<InstructionV, ParseErrorV> {
    if args.len() != 1 {
        Err(ParseErrorV::WrongArgCount { opcode: InstructionName::GOTO, expected: 1, got: args.len() })
    } else if !is_label_name(args[0]) {
        Err(ParseErrorV::InvalidLabelName { name: args[0] })
    } else {
        Ok(InstructionV { name: InstructionName::GOTO, arg: None, variable: Some(args[0]) })
    }
}

/// What constructing an argument-less instruction yields.
pub open spec fn spec_create_simple(op: InstructionName, args: Seq<Seq<char>>) -> Result<
    InstructionV,
    ParseErrorV,
> {
    if args.len() != 0 {
        Err(ParseErrorV::WrongArgCount { opcode: op, expected: 0, got: args.len() })
    } else {
        Ok(InstructionV { name: op, arg: None, variable: None })
    }
}

/// What [`Instruction::new`] yields for a mnemonic and its raw
/// argument tokens: each opcode's fixed arity and argument grammar,
/// or a descriptive error.
pub open spec fn spec_new_instruction(name: Seq<char>, args: Seq<Seq<char>>) -> Result<
    InstructionV,
    ParseErrorV,
> {
    if name == "LOAD_VAL"@ {
        spec_create_load(args)
    } else if name == "WRITE_VAR"@ {
        spec_create_var(InstructionName::WRITE, args)
    } else if name == "READ_VAR"@ {
        spec_create_var(InstructionName::READ, args)
    } else if name == "ADD"@ {
        spec_create_simple(InstructionName::ADD, args)
    } else if name == "MULTIPLY"@ {
        spec_create_simple(InstructionName::MULTIPLY, args)
    } else if name == "RETURN_VALUE"@ {
        spec_create_simple(InstructionName::RETURN, args)
    } else if name == "GREATER"@ {
        spec_create_simple(InstructionName::GREATER, args)
    } else if name == "LESS"@ {
        spec_create_simple(InstructionName::LESS, args)
    } else if name == "EQUAL"@ {
        spec_create_simple(InstructionName::EQUAL, args)
    } else if name == "DUP"@ {
        spec_create_simple(InstructionName::DUP, args)
    } else if name == "POP"@ {
        spec_create_simple(InstructionName::POP, args)
    } else if name == "GOTO"@ {
        spec_create_goto(args)
    } else {
        Err(ParseErrorV::UnknownInstruction { name })
    }
}

/// Equality of two string slices.
fn str_eq(a: &str, b: &str) -> (r: bool)
    ensures
        r == (a@ == b@),
{
    let sa = a.to_owned();
    let sb = b.to_owned();
    sa == sb
}

impl Clone for Instruction {
    /// Cloning keeps the instruction's value.
    fn clone(&self) -> (r: Self)
        ensures
            r == *self,
    {
        Instruction {
            name: self.name,
            arg: self.arg,
            variable: match &self.variable {
                Some(s) => Some(s.clone()),
                None => None,
            },
        }
    }
}

impl Instruction {
    /// Construct the instruction a mnemonic and its raw argument tokens
    /// describe, validating arity and argument shape.
    pub fn new(instruction_name: &str, args: Vec<String>) -> (r: Result<Self, ParseError>)
        ensures
            match r {
                Ok(instr) => spec_new_instruction(instruction_name@, args.deep_view())
                    == Ok::<InstructionV, ParseErrorV>(instr@) && instr@.wf(),
                Err(e) => spec_new_instruction(instruction_name@, args.deep_view())
                    == Err::<InstructionV, ParseErrorV>(e@),
            },
    {
        if str_eq(instruction_name, "LOAD_VAL") {
            Instruction::create_load_instruction(args)
        } else if str_eq(instruction_name, "WRITE_VAR") {
            Instruction::create_write_instruction(args)
        } else if str_eq(instruction_name, "READ_VAR") {
            Instruction::create_read_instruction(args)
        } else if str_eq(instruction_name, "ADD") {
            Instruction::create_add_instruction(args)
        } else if str_eq(instruction_name, "MULTIPLY") {
            Instruction::create_multiply_instruction(args)
        } else if str_eq(instruction_name, "RETURN_VALUE") {
            Instruction::create_return_instruction(args)
        } else if str_eq(instruction_name, "GREATER") {
            Instruction::create_greater_instruction(args)
        } else if str_eq(instruction_name, "LESS") {
            Instruction::create_less_instruction(args)
        } else if str_eq(instruction_name, "EQUAL") {
            Instruction::create_equal_instruction(args)
        } else if str_eq(instruction_name, "DUP") {
            Instruction::create_dup_instruction(args)
        } else if str_eq(instruction_name, "POP") {
            Instruction::create_pop_instruction(args)
        } else if str_eq(instruction_name, "GOTO") {
            Instruction::create_goto_instruction(args)
        } else {
            Err(ParseError::UnknownInstruction { name: instruction_name.to_owned() })
        }
    }

    fn create_load_instruction(args: Vec<String>) -> (r: Result<Self, ParseError>)
        ensures
            match r {
                Ok(instr) => spec_create_load(args.deep_view()) == Ok::<InstructionV, ParseErrorV>(
                    instr@,
                ),
                Err(e) => spec_create_load(args.deep_view()) == Err::<InstructionV, ParseErrorV>(
                    e@,
                ),
            },
    {
        if args.len() != 1 {
            return Err(ParseError::WrongArgCount {
                opcode: InstructionName::LOAD,
                expected: 1,
                got: args.len(),
            });
        }
        match parse_u16(args[0].as_str()) {
            Ok(v) => Ok(Instruction { name: InstructionName::LOAD, arg: Some(v), variable: None }),
            Err(cause) => Err(ParseError::InvalidNumber { cause }),
        }
    }

    fn create_write_instruction(args: Vec<String>) -> (r: Result<Self, ParseError>)
        ensures
            match r {
                Ok(instr) => spec_create_var(InstructionName::WRITE, args.deep_view())
                    == Ok::<InstructionV, ParseErrorV>(instr@),
                Err(e) => spec_create_var(InstructionName::WRITE, args.deep_view())
                    == Err::<InstructionV, ParseErrorV>(e@),
            },
    {
        if args.len() != 1 {
            return Err(ParseError::WrongArgCount {
                opcode: InstructionName::WRITE,
                expected: 1,
                got: args.len(),
            });
        }
        let arg = args[0].clone();
        if !check_variable_name(arg.as_str()) {
            return Err(ParseError::InvalidVariableName { name: arg });
        }
        Ok(Instruction { name: InstructionName::WRITE, arg: None, variable: Some(arg) })
    }

    fn create_read_instruction(args: Vec<String>) -> (r: Result<Self, ParseError>)
        ensures
            match r {
                Ok(instr) => spec_create_var(InstructionName::READ, args.deep_view())
                    == Ok::<InstructionV, ParseErrorV>(instr@),
                Err(e) => spec_create_var(InstructionName::READ, args.deep_view())
                    == Err::<InstructionV, ParseErrorV>(e@),
            },
    {
        if args.len() != 1 {
            return Err(ParseError::WrongArgCount {
                opcode: InstructionName::READ,
                expected: 1,
                got: args.len(),
            });
        }
        let arg = args[0].clone();
        if !check_variable_name(arg.as_str()) {
            return Err(ParseError::InvalidVariableName { name: arg });
        }
        Ok(Instruction { name: InstructionName::READ, arg: None, variable: Some(arg) })
    }

    fn create_add_instruction(args: Vec<String>) -> (r: Result<Self, ParseError>)
        ensures
            match r {
                Ok(instr) => spec_create_simple(InstructionName::ADD, args.deep_view())
                    == Ok::<InstructionV, ParseErrorV>(instr@),
                Err(e) => spec_create_simple(InstructionName::ADD, args.deep_view())
                    == Err::<InstructionV, ParseErrorV>(e@),
            },
    {
        if args.len() != 0 {
            return Err(ParseError::WrongArgCount {
                opcode: InstructionName::ADD,
                expected: 0,
                got: args.len(),
            });
        }
        Ok(Instruction { name: InstructionName::ADD, arg: None, variable: None })
    }

    fn create_multiply_instruction(args: Vec<String>) -> (r: Result<Self, ParseError>)
        ensures
            match r {
                Ok(instr) => spec_create_simple(InstructionName::MULTIPLY, args.deep_view())
                    == Ok::<InstructionV, ParseErrorV>(instr@),
                Err(e) => spec_create_simple(InstructionName::MULTIPLY, args.deep_view())
                    == Err::<InstructionV, ParseErrorV>(e@),
            },
    {
        if args.len() != 0 {
            return Err(ParseError::WrongArgCount {
                opcode: InstructionName::MULTIPLY,
                expected: 0,
                got: args.len(),
            });
        }
        Ok(Instruction { name: InstructionName::MULTIPLY, arg: None, variable: None })
    }

    fn create_return_instruction(args: Vec<String>) -> (r: Result<Self, ParseError>)
        ensures
            match r {
                Ok(instr) => spec_create_simple(InstructionName::RETURN, args.deep_view())
                    == Ok::<InstructionV, ParseErrorV>(instr@),
                Err(e) => spec_create_simple(InstructionName::RETURN, args.deep_view())
                    == Err::<InstructionV, ParseErrorV>(e@),
            },
    {
        if args.len() != 0 {
            return Err(ParseError::WrongArgCount {
                opcode: InstructionName::RETURN,
                expected: 0,
                got: args.len(),
            });
        }
        Ok(Instruction { name: InstructionName::RETURN, arg: None, variable: None })
    }

    fn create_greater_instruction(args: Vec<String>) -> (r: Result<Self, ParseError>)
        ensures
            match r {
                Ok(instr) => spec_create_simple(InstructionName::GREATER, args.deep_view())
                    == Ok::<InstructionV, ParseErrorV>(instr@),
                Err(e) => spec_create_simple(InstructionName::GREATER, args.deep_view())
                    == Err::<InstructionV, ParseErrorV>(e@),
            },
    {
        if args.len() != 0 {
            return Err(ParseError::WrongArgCount {
                opcode: InstructionName::GREATER,
                expected: 0,
                got: args.len(),
            });
        }
        Ok(Instruction { name: InstructionName::GREATER, arg: None, variable: None })
    }

    fn create_less_instruction(args: Vec<String>) -> (r: Result<Self, ParseError>)
        ensures
            match r {
                Ok(instr) => spec_create_simple(InstructionName::LESS, args.deep_view())
                    == Ok::<InstructionV, ParseErrorV>(instr@),
                Err(e) => spec_create_simple(InstructionName::LESS, args.deep_view())
                    == Err::<InstructionV, ParseErrorV>(e@),
            },
    {
        if args.len() != 0 {
            return Err(ParseError::WrongArgCount {
                opcode: InstructionName::LESS,
                expected: 0,
                got: args.len(),
            });
        }
        Ok(Instruction { name: InstructionName::LESS, arg: None, variable: None })
    }

    fn create_equal_instruction(args: Vec<String>) -> (r: Result<Self, ParseError>)
        ensures
            match r {
                Ok(instr) => spec_create_simple(InstructionName::EQUAL, args.deep_view())
                    == Ok::<InstructionV, ParseErrorV>(instr@),
                Err(e) => spec_create_simple(InstructionName::EQUAL, args.deep_view())
                    == Err::<InstructionV, ParseErrorV>(e@),
            },
    {
        if args.len() != 0 {
            return Err(ParseError::WrongArgCount {
                opcode: InstructionName::EQUAL,
                expected: 0,
                got: args.len(),
            });
        }
        Ok(Instruction { name: InstructionName::EQUAL, arg: None, variable: None })
    }

    fn create_dup_instruction(args: Vec<String>) -> (r: Result<Self, ParseError>)
        ensures
            match r {
                Ok(instr) => spec_create_simple(InstructionName::DUP, args.deep_view())
                    == Ok::<InstructionV, ParseErrorV>(instr@),
                Err(e) => spec_create_simple(InstructionName::DUP, args.deep_view())
                    == Err::<InstructionV, ParseErrorV>(e@),
            },
    {
        if args.len() != 0 {
            return Err(ParseError::WrongArgCount {
                opcode: InstructionName::DUP,
                expected: 0,
                got: args.len(),
            });
        }
        Ok(Instruction { name: InstructionName::DUP, arg: None, variable: None })
    }

    fn create_pop_instruction(args: Vec<String>) -> (r: Result<Self, ParseError>)
        ensures
            match r {
                Ok(instr) => spec_create_simple(InstructionName::POP, args.deep_view())
                    == Ok::<InstructionV, ParseErrorV>(instr@),
                Err(e) => spec_create_simple(InstructionName::POP, args.deep_view())
                    == Err::<InstructionV, ParseErrorV>(e@),
            },
    {
        if args.len() != 0 {
            return Err(ParseError::WrongArgCount {
                opcode: InstructionName::POP,
                expected: 0,
                got: args.len(),
            });
        }
        Ok(Instruction { name: InstructionName::POP, arg: None, variable: None })
    }

    fn create_goto_instruction(args: Vec<String>) -> (r: Result<Self, ParseError>)
        ensures
            match r {
                Ok(instr) => spec_create_goto(args.deep_view()) == Ok::<InstructionV, ParseErrorV>(
                    instr@,
                ),
                Err(e) => spec_create_goto(args.deep_view()) == Err::<InstructionV, ParseErrorV>(
                    e@,
                ),
            },
    {
        if args.len() != 1 {
            return Err(ParseError::WrongArgCount {
                opcode: InstructionName::GOTO,
                expected: 1,
                got: args.len(),
            });
        }
        let arg = args[0].clone();
        if !check_label_name(arg.as_str()) {
            return Err(ParseError::InvalidLabelName { name: arg });
        }
        Ok(Instruction { name: InstructionName::GOTO, arg: None, variable: Some(arg) })
    }
}

} // verus!
