pub mod instruction;

use vstd::prelude::*;
use crate::bytecode::instruction::Instruction;
use crate::bytecode::instruction::InstructionV;
use crate::bytecode::instruction::spec_new_instruction;
use crate::config::MaxInstructionNumber;
use crate::error::Error;
use crate::error::ErrorV;
use crate::error::ParseError;
use crate::error::ParseErrorV;
use crate::lexer::check_label_name;
use crate::lexer::is_label_name;
use crate::lexer::split_tokens;
use crate::lexer::tokenize;
use crate::table::Table;

verus! {

/// Mathematical image of a [`ByteCode`]: the instruction sequence and
/// the label table.
pub ghost struct ProgramV {
    pub instructions: Seq<InstructionV>,
    pub labels: Map<Seq<char>, u16>,
}

impl ProgramV {
    /// The program with no instructions and no labels.
    pub open spec fn empty() -> ProgramV {
        ProgramV { instructions: Seq::empty(), labels: Map::empty() }
    }

    /// Every instruction matches its opcode's declared shape.
    pub open spec fn wf(self) -> bool {
        forall|i: int| 0 <= i < self.instructions.len() ==> (#[trigger] self.instructions[i]).wf()
    }
}

impl DeepView for Instruction {
    type V = InstructionV;

    open spec fn deep_view(&self) -> InstructionV {
        self.view()
    }
}

/// The assembled, immutable program: the instruction sequence plus the
/// label table built from the source's label declarations.
#[derive(Debug)]
pub struct ByteCode {
    pub instructions: Vec<Instruction>,
    pub labels: Table,
}

impl View for ByteCode {
    type V = ProgramV;

    open spec fn view(&self) -> ProgramV {
        ProgramV { instructions: self.instructions.deep_view(), labels: self.labels@ }
    }
}

/// What the assembler does with the lines from `i` on, starting from
/// the partial program `acc`: blank lines are skipped, a leading label
/// token declares a label at the next instruction index, and any other
/// first token is an opcode mnemonic with the rest as its arguments.
/// The first failing line aborts with its 1-based number.
pub open spec fn spec_parse_from(lines: Seq<Seq<char>>, i: int, acc: ProgramV) -> Result<
    ProgramV,
    ErrorV,
>
    decreases lines.len() - i,
{
    if i < 0 || i >= lines.len() {
        Ok(acc)
    } else {
        let toks = tokenize(lines[i]);
        if toks.len() == 0 {
            spec_parse_from(lines, i + 1, acc)
        } else if is_label_name(toks[0]) {
            if acc.labels.contains_key(toks[0]) {
                Err(ErrorV::Parse {
                    line: (i + 1) as nat,
                    detail: ParseErrorV::DuplicateLabel { name: toks[0] },
                })
            } else {
                spec_parse_from(
                    lines,
                    i + 1,
                    ProgramV {
                        instructions: acc.instructions,
                        labels: acc.labels.insert(toks[0], acc.instructions.len() as u16),
                    },
                )
            }
        } else {
            match spec_new_instruction(toks[0], toks.drop_first()) {
                Ok(iv) => spec_parse_from(
                    lines,
                    i + 1,
                    ProgramV { instructions: acc.instructions.push(iv), labels: acc.labels },
                ),
                Err(d) => Err(ErrorV::Parse { line: (i + 1) as nat, detail: d }),
            }
        }
    }
}

/// What assembling a complete source yields: the program built line by
/// line, unless no line assembled into an instruction.
pub open spec fn spec_parse(lines: Seq<Seq<char>>) -> Result<ProgramV, ErrorV> {
    match spec_parse_from(lines, 0, ProgramV::empty()) {
        Ok(p) => if p.instructions.len() == 0 {
            Err(ErrorV::EmptyProgram)
        } else {
            Ok(p)
        },
        Err(e) => Err(e),
    }
}

impl ByteCode {
    /// An empty program under construction.
    pub fn new() -> (r: Self)
        ensures
            r@ == ProgramV::empty(),
    {
        let r = ByteCode { instructions: Vec::new(), labels: Table::new() };
        proof {
            assert(r.instructions.deep_view() =~= Seq::<InstructionV>::empty());
        }
        r
    }

    /// The instruction at `index`, if the program is that long.
    pub fn get_instruction(&self, index: usize) -> (r: Option<&Instruction>)
        ensures
            self@.instructions.len() <= usize::MAX,
            match r {
                Some(instr) => index < self@.instructions.len() && instr@
                    == self@.instructions[index as int],
                None => index >= self@.instructions.len(),
            },
    {
        if index < self.instructions.len() {
            Some(&self.instructions[index])
        } else {
            None
        }
    }

    /// The instruction index a label points at, or the linkage error
    /// naming the label.
    pub fn get_label(&self, label_name: &str) -> (r: Result<MaxInstructionNumber, Error>)
        ensures
            match r {
                Ok(v) => self@.labels.contains_key(label_name@) && v == self@.labels[label_name@],
                Err(e) => !self@.labels.contains_key(label_name@) && e@ == (ErrorV::UnknownLabel {
                    label: label_name@,
                }),
            },
    {
        match self.labels.get(label_name) {
            Some(v) => Ok(v),
            None => Err(Error::UnknownLabel { label: label_name.to_owned() }),
        }
    }

    /// Whether a token matches the label-name grammar.
    pub fn is_label(label: &str) -> (r: bool)
        ensures
            r == is_label_name(label@),
    {
        check_label_name(label)
    }

    /// Declare a label at `instruction_number`, refusing a name that is
    /// already declared.
    fn parse_label(&mut self, label_name: &str, instruction_number: MaxInstructionNumber) -> (r:
        Result<(), ParseError>)
        ensures
            match r {
                Ok(()) => !old(self)@.labels.contains_key(label_name@) && final(self)@ == (ProgramV {
                    instructions: old(self)@.instructions,
                    labels: old(self)@.labels.insert(label_name@, instruction_number),
                }),
                Err(e) => old(self)@.labels.contains_key(label_name@) && final(self)@ == old(self)@
                    && e@ == (ParseErrorV::DuplicateLabel { name: label_name@ }),
            },
    {
        if self.labels.contains_key(label_name) {
            return Err(ParseError::DuplicateLabel { name: label_name.to_owned() });
        }
        self.labels.insert(label_name.to_owned(), instruction_number);
        Ok(())
    }

    /// Assemble source lines into a program: the whole two-phase
    /// contract is [`spec_parse`] on the lines' character sequences.
    pub fn parse_instructions(lines: &Vec<String>) -> (r: Result<Self, Error>)
        requires
            lines@.len() <= 0xFFFF,
        ensures
            match r {
                Ok(bc) => spec_parse(lines.deep_view()) == Ok::<ProgramV, ErrorV>(bc@)
                    && bc@.wf(),
                Err(e) => spec_parse(lines.deep_view()) == Err::<ProgramV, ErrorV>(e@),
            },
    {
        let ghost linesv = lines.deep_view();
        let mut program = ByteCode::new();
        let mut index: usize = 0;
        while index < lines.len()
            invariant
                index <= linesv.len(),
                linesv == lines.deep_view(),
                linesv.len() == lines@.len(),
                lines@.len() <= 0xFFFF,
                program@.wf(),
                program@.instructions.len() <= index,
                spec_parse_from(linesv, 0, ProgramV::empty()) == spec_parse_from(
                    linesv,
                    index as int,
                    program@,
                ),
            decreases linesv.len() - index,
        {
            let ghost toks = tokenize(linesv[index as int]);
            let ghost prog0 = program@;
            let line = &lines[index];
            proof {
                assert(line@ == linesv[index as int]);
            }
            let mut s_split = split_tokens(line.as_str());
            proof {
                assert(s_split.deep_view() == toks);
                if s_split.len() > 0 {
                    assert(s_split.deep_view()[0] == s_split@[0]@);
                }
            }
            if s_split.len() == 0 {
            } else if ByteCode::is_label(s_split[0].as_str()) {
                let number = program.instructions.len() as u16;
                let first = &s_split[0];
                match program.parse_label(first.as_str(), number) {
                    Ok(()) => {
                        proof {
                            assert(program@ == (ProgramV {
                                instructions: prog0.instructions,
                                labels: prog0.labels.insert(toks[0], prog0.instructions.len() as u16),
                            }));
                        }
                    },
                    Err(e) => {
                        let err = Error::Parse { line: index + 1, detail: e };
                        proof {
                            assert(spec_parse_from(linesv, index as int, prog0) == Err::<
                                ProgramV,
                                ErrorV,
                            >(err@));
                        }
                        return Err(err);
                    },
                }
            } else {
                let rest = s_split.split_off(1);
                proof {
                    assert(rest.deep_view() =~= toks.drop_first());
                    assert(s_split.deep_view()[0] == s_split@[0]@);
                }
                let first = &s_split[0];
                match Instruction::new(first.as_str(), rest) {
                    Ok(instr) => {
                        program.instructions.push(instr);
                        proof {
                            assert(program@.instructions =~= prog0.instructions.push(instr@));
                            assert(program@ == (ProgramV {
                                instructions: prog0.instructions.push(instr@),
                                labels: prog0.labels,
                            }));
                        }
                    },
                    Err(e) => {
                        let err = Error::Parse { line: index + 1, detail: e };
                        proof {
                            assert(spec_parse_from(linesv, index as int, prog0) == Err::<
                                ProgramV,
                                ErrorV,
                            >(err@));
                        }
                        return Err(err);
                    },
                }
            }
            index += 1;
        }
        if program.instructions.is_empty() {
            return Err(Error::EmptyProgram);
        }
        Ok(program)
    }
}

/// An empty source assembles to nothing and is refused as an empty
/// program.
pub proof fn lemma_empty_source_fails()
    ensures
        spec_parse(Seq::<Seq<char>>::empty()) == Err::<ProgramV, ErrorV>(ErrorV::EmptyProgram),
{
}

/// Whenever the line pass succeeds but assembled zero instructions,
/// assembly as a whole fails as an empty program; consequently a
/// successfully assembled program holds at least one instruction.
pub proof fn lemma_empty_assembly_fails(lines: Seq<Seq<char>>, p: ProgramV)
    requires
        spec_parse_from(lines, 0, ProgramV::empty()) == Ok::<ProgramV, ErrorV>(p),
        p.instructions.len() == 0,
    ensures
        spec_parse(lines) == Err::<ProgramV, ErrorV>(ErrorV::EmptyProgram),
        forall|q: ProgramV| spec_parse(lines) == Ok::<ProgramV, ErrorV>(q) ==> q.instructions.len()
            > 0,
{
}

/// Whether a source line declares the label `name`: its first token is
/// `name` and `name` matches the label grammar.
pub open spec fn declares_label(line: Seq<char>, name: Seq<char>) -> bool {
    let toks = tokenize(line);
    toks.len() > 0 && toks[0] == name && is_label_name(name)
}

/// Once a label is on the table, a later line declaring it again makes
/// the line pass fail.
proof fn lemma_parse_from_redeclaration_fails(
    lines: Seq<Seq<char>>,
    k: int,
    acc: ProgramV,
    j: int,
    name: Seq<char>,
)
    requires
        0 <= k <= j < lines.len(),
        declares_label(lines[j], name),
        acc.labels.contains_key(name),
    ensures
        spec_parse_from(lines, k, acc) is Err,
    decreases lines.len() - k,
{
    let toks = tokenize(lines[k]);
    if k == j {
    } else {
        if toks.len() == 0 {
            lemma_parse_from_redeclaration_fails(lines, k + 1, acc, j, name);
        } else if is_label_name(toks[0]) {
            if !acc.labels.contains_key(toks[0]) {
                let acc2 = ProgramV {
                    instructions: acc.instructions,
                    labels: acc.labels.insert(toks[0], acc.instructions.len() as u16),
                };
                lemma_parse_from_redeclaration_fails(lines, k + 1, acc2, j, name);
            }
        } else {
            match spec_new_instruction(toks[0], toks.drop_first()) {
                Ok(iv) => {
                    let acc2 = ProgramV {
                        instructions: acc.instructions.push(iv),
                        labels: acc.labels,
                    };
                    lemma_parse_from_redeclaration_fails(lines, k + 1, acc2, j, name);
                },
                Err(d) => {},
            }
        }
    }
}

proof fn lemma_parse_from_duplicate_fails(
    lines: Seq<Seq<char>>,
    k: int,
    acc: ProgramV,
    i: int,
    j: int,
    name: Seq<char>,
)
    requires
        0 <= k <= i < j < lines.len(),
        declares_label(lines[i], name),
        declares_label(lines[j], name),
    ensures
        spec_parse_from(lines, k, acc) is Err,
    decreases lines.len() - k,
{
    let toks = tokenize(lines[k]);
    if k == i {
        if !acc.labels.contains_key(name) {
            let acc2 = ProgramV {
                instructions: acc.instructions,
                labels: acc.labels.insert(name, acc.instructions.len() as u16),
            };
            lemma_parse_from_redeclaration_fails(lines, k + 1, acc2, j, name);
        }
    } else {
        if toks.len() == 0 {
            lemma_parse_from_duplicate_fails(lines, k + 1, acc, i, j, name);
        } else if is_label_name(toks[0]) {
            if !acc.labels.contains_key(toks[0]) {
                let acc2 = ProgramV {
                    instructions: acc.instructions,
                    labels: acc.labels.insert(toks[0], acc.instructions.len() as u16),
                };
                lemma_parse_from_duplicate_fails(lines, k + 1, acc2, i, j, name);
            }
        } else {
            match spec_new_instruction(toks[0], toks.drop_first()) {
                Ok(iv) => {
                    let acc2 = ProgramV {
                        instructions: acc.instructions.push(iv),
                        labels: acc.labels,
                    };
                    lemma_parse_from_duplicate_fails(lines, k + 1, acc2, i, j, name);
                },
                Err(d) => {},
            }
        }
    }
}

/// Two identically named label declarations in one source make
/// assembly fail.
pub proof fn lemma_duplicate_label_fails(lines: Seq<Seq<char>>, i: int, j: int, name: Seq<char>)
    requires
        0 <= i < j < lines.len(),
        declares_label(lines[i], name),
        declares_label(lines[j], name),
    ensures
        spec_parse(lines) is Err,
{
    lemma_parse_from_duplicate_fails(lines, 0, ProgramV::empty(), i, j, name);
}

} // verus!
