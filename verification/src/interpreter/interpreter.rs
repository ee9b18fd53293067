use vstd::prelude::*;
use crate::bytecode::ByteCode;
use crate::bytecode::ProgramV;
use crate::bytecode::instruction::Instruction;
use crate::config::InstructionName;
use crate::config::VariableValue;
use crate::error::Error;
use crate::error::ErrorV;
use crate::error::decimal;
use crate::error::RuntimeError;
use crate::interpreter::stack::Stack;
use crate::table::Table;
use vstd::wrapping::u16_specs;

verus! {

/// Mathematical image of an [`InterpreterState`].
pub ghost struct StateV {
    pub stack: Seq<u16>,
    pub vars: Map<Seq<char>, u16>,
    pub ip: nat,
}

impl StateV {
    /// The zero-initialized state every execution starts from.
    pub open spec fn init() -> StateV {
        StateV { stack: Seq::empty(), vars: Map::empty(), ip: 0 }
    }
}

/// The runtime error for a pop from an empty stack at instruction
/// pointer `ip`, reported 1-based.
pub open spec fn underflow(ip: nat) -> ErrorV {
    ErrorV::Runtime { instruction: ip + 1, detail: RuntimeError::StackUnderflow }
}

/// The runtime error for reading an unbound variable at instruction
/// pointer `ip`, reported 1-based.
pub open spec fn undefined_variable(ip: nat) -> ErrorV {
    ErrorV::Runtime { instruction: ip + 1, detail: RuntimeError::UndefinedVariable }
}

/// What a binary opcode pushes, where `a` was popped first (the old
/// top) and `b` second. Arithmetic wraps; comparisons push 1 or 0 and
/// compare `a` against `b` in that order.
pub open spec fn binop_value(op: InstructionName, a: u16, b: u16) -> u16 {
    match op {
        InstructionName::ADD => u16_specs::wrapping_add(a, b),
        InstructionName::MULTIPLY => u16_specs::wrapping_mul(a, b),
        InstructionName::GREATER => if a > b {
            1
        } else {
            0
        },
        InstructionName::LESS => if a < b {
            1
        } else {
            0
        },
        InstructionName::EQUAL => if a == b {
            1
        } else {
            0
        },
        _ => 0,
    }
}

/// How one dispatch step leaves the machine.
pub ghost enum StepV {
    /// Execution continues in this state.
    Next(StateV),
    /// Normal termination: the returned value, or none after falling
    /// off the end of the program.
    Done(Option<u16>),
    /// The step failed with a runtime or linkage error.
    Fail(ErrorV),
}

/// The machine's small-step semantics: what executing the instruction
/// under the instruction pointer does to the state of program `p`.
pub open spec fn spec_step(p: ProgramV, s: StateV) -> StepV {
    if s.ip >= p.instructions.len() {
        StepV::Done(None)
    } else {
        let instr = p.instructions[s.ip as int];
        match instr.name {
            InstructionName::LOAD => StepV::Next(
                StateV { stack: s.stack.push(instr.arg->0), vars: s.vars, ip: s.ip + 1 },
            ),
            InstructionName::WRITE => if s.stack.len() == 0 {
                StepV::Fail(underflow(s.ip))
            } else {
                StepV::Next(
                    StateV {
                        stack: s.stack.drop_last(),
                        vars: s.vars.insert(instr.variable->0, s.stack.last()),
                        ip: s.ip + 1,
                    },
                )
            },
            InstructionName::READ => if !s.vars.contains_key(instr.variable->0) {
                StepV::Fail(undefined_variable(s.ip))
            } else {
                StepV::Next(
                    StateV {
                        stack: s.stack.push(s.vars[instr.variable->0]),
                        vars: s.vars,
                        ip: s.ip + 1,
                    },
                )
            },
            InstructionName::ADD | InstructionName::MULTIPLY | InstructionName::GREATER
                | InstructionName::LESS | InstructionName::EQUAL => if s.stack.len() < 2 {
                StepV::Fail(underflow(s.ip))
            } else {
                StepV::Next(
                    StateV {
                        stack: s.stack.drop_last().drop_last().push(
                            binop_value(instr.name, s.stack.last(), s.stack.drop_last().last()),
                        ),
                        vars: s.vars,
                        ip: s.ip + 1,
                    },
                )
            },
            InstructionName::DUP => if s.stack.len() == 0 {
                StepV::Fail(underflow(s.ip))
            } else {
                StepV::Next(
                    StateV { stack: s.stack.push(s.stack.last()), vars: s.vars, ip: s.ip + 1 },
                )
            },
            InstructionName::POP => if s.stack.len() == 0 {
                StepV::Fail(underflow(s.ip))
            } else {
                StepV::Next(StateV { stack: s.stack.drop_last(), vars: s.vars, ip: s.ip + 1 })
            },
            InstructionName::GOTO => if !p.labels.contains_key(instr.variable->0) {
                StepV::Fail(ErrorV::UnknownLabel { label: instr.variable->0 })
            } else if s.stack.len() == 0 {
                StepV::Fail(underflow(s.ip))
            } else {
                StepV::Next(
                    StateV {
                        stack: s.stack.drop_last(),
                        vars: s.vars,
                        ip: if s.stack.last() == 0 {
                            s.ip + 1
                        } else {
                            p.labels[instr.variable->0] as nat
                        },
                    },
                )
            },
            InstructionName::RETURN => if s.stack.len() == 0 {
                StepV::Fail(underflow(s.ip))
            } else {
                StepV::Done(Some(s.stack.last()))
            },
        }
    }
}

/// Where `fuel` steps of the machine take the state: either a verdict,
/// or the state still running after that many steps.
pub ghost enum RunV {
    Stopped(Result<Option<u16>, ErrorV>),
    Running(StateV),
}

/// Iterate [`spec_step`] up to `fuel` times from state `s`.
pub open spec fn spec_run(p: ProgramV, s: StateV, fuel: nat) -> RunV
    decreases fuel,
{
    if fuel == 0 {
        RunV::Running(s)
    } else {
        match spec_step(p, s) {
            StepV::Next(s2) => spec_run(p, s2, (fuel - 1) as nat),
            StepV::Done(o) => RunV::Stopped(Ok(o)),
            StepV::Fail(e) => RunV::Stopped(Err(e)),
        }
    }
}

/// Running one step longer from a still-running state applies one more
/// [`spec_step`].
pub proof fn lemma_run_succ(p: ProgramV, s: StateV, n: nat, t: StateV)
    requires
        spec_run(p, s, n) == RunV::Running(t),
    ensures
        spec_run(p, s, n + 1) == (match spec_step(p, t) {
            StepV::Next(u) => RunV::Running(u),
            StepV::Done(o) => RunV::Stopped(Ok(o)),
            StepV::Fail(e) => RunV::Stopped(Err(e)),
        }),
    decreases n,
{
    if n == 0 {
        assert(t == s);
        match spec_step(p, s) {
            StepV::Next(u) => {
                assert(spec_run(p, s, 1) == spec_run(p, u, 0));
                assert(spec_run(p, u, 0) == RunV::Running(u));
            },
            StepV::Done(o) => {},
            StepV::Fail(e) => {},
        }
    } else {
        match spec_step(p, s) {
            StepV::Next(s2) => {
                assert(spec_run(p, s, n) == spec_run(p, s2, (n - 1) as nat));
                lemma_run_succ(p, s2, (n - 1) as nat, t);
                assert(spec_run(p, s, n + 1) == spec_run(p, s2, n));
            },
            StepV::Done(o) => {},
            StepV::Fail(e) => {},
        }
    }
}

/// Once the machine has stopped, more fuel changes nothing.
pub proof fn lemma_run_absorb(p: ProgramV, s: StateV, n: nat, m: nat)
    requires
        spec_run(p, s, n) is Stopped,
        n <= m,
    ensures
        spec_run(p, s, m) == spec_run(p, s, n),
    decreases n,
{
    if n > 0 {
        match spec_step(p, s) {
            StepV::Next(s2) => {
                lemma_run_absorb(p, s2, (n - 1) as nat, (m - 1) as nat);
            },
            StepV::Done(o) => {},
            StepV::Fail(e) => {},
        }
    }
}

/// Whether the machine in state `t` sits on a goto whose label is not
/// in the program's table — the one configuration that raises the
/// unknown-label error.
pub open spec fn stuck_goto(p: ProgramV, t: StateV, label: Seq<char>) -> bool {
    &&& t.ip < p.instructions.len()
    &&& p.instructions[t.ip as int].name == InstructionName::GOTO
    &&& p.instructions[t.ip as int].variable->0 == label
    &&& !p.labels.contains_key(label)
}

/// Label resolution is lazy: an unknown-label failure arises only by
/// actually executing a goto whose label is absent from the table.
pub proof fn lemma_goto_failure_is_lazy(p: ProgramV, s: StateV, fuel: nat, label: Seq<char>)
    requires
        spec_run(p, s, fuel) == RunV::Stopped(
            Err::<Option<u16>, ErrorV>(ErrorV::UnknownLabel { label }),
        ),
    ensures
        exists|k: nat|
            k < fuel && (match #[trigger] spec_run(p, s, k) {
                RunV::Running(t) => stuck_goto(p, t, label),
                RunV::Stopped(_) => false,
            }),
    decreases fuel,
{
    match spec_step(p, s) {
        StepV::Next(s2) => {
            lemma_goto_failure_is_lazy(p, s2, (fuel - 1) as nat, label);
            let k0 = choose|k: nat|
                k < (fuel - 1) as nat && (match #[trigger] spec_run(p, s2, k) {
                    RunV::Running(t) => stuck_goto(p, t, label),
                    RunV::Stopped(_) => false,
                });
            assert(spec_run(p, s, k0 + 1) == spec_run(p, s2, k0));
        },
        StepV::Done(o) => {},
        StepV::Fail(e) => {
            assert(spec_run(p, s, 0) == RunV::Running(s));
        },
    }
}

/// The other face of lazy resolution: as long as execution never sits
/// on a goto with an absent label, that error is never reported — an
/// unreachable bad goto never surfaces.
pub proof fn lemma_unreachable_goto_harmless(p: ProgramV, s: StateV, fuel: nat, label: Seq<char>)
    requires
        forall|k: nat|
            k < fuel ==> (match #[trigger] spec_run(p, s, k) {
                RunV::Running(t) => !stuck_goto(p, t, label),
                RunV::Stopped(_) => true,
            }),
    ensures
        spec_run(p, s, fuel) != RunV::Stopped(
            Err::<Option<u16>, ErrorV>(ErrorV::UnknownLabel { label }),
        ),
{
    if spec_run(p, s, fuel) == RunV::Stopped(
        Err::<Option<u16>, ErrorV>(ErrorV::UnknownLabel { label }),
    ) {
        lemma_goto_failure_is_lazy(p, s, fuel, label);
    }
}

/// Whether an opcode begins by popping the operand stack.
pub open spec fn opcode_pops(op: InstructionName) -> bool {
    match op {
        InstructionName::LOAD | InstructionName::READ => false,
        _ => true,
    }
}

/// Stack discipline: whichever popping opcode sits under the pointer,
/// a pop from an empty stack fails with the current 1-based
/// instruction number, and that number is embedded in the rendered
/// message. (A goto resolves its label first, so its underflow is
/// reported only once the label exists.)
pub proof fn lemma_underflow_reports_instruction(p: ProgramV, s: StateV)
    requires
        s.ip < p.instructions.len(),
        s.stack.len() == 0,
        opcode_pops(p.instructions[s.ip as int].name),
        p.instructions[s.ip as int].name == InstructionName::GOTO ==> p.labels.contains_key(
            p.instructions[s.ip as int].variable->0,
        ),
    ensures
        spec_step(p, s) == StepV::Fail(underflow(s.ip)),
        underflow(s.ip) == (ErrorV::Runtime {
            instruction: s.ip + 1,
            detail: RuntimeError::StackUnderflow,
        }),
        underflow(s.ip).message() == "Runtime error: unable to process instruction #"@ + decimal(
            s.ip + 1,
        ) + ": no value on stack"@,
{
}

/// One program, one answer: any two results the interpreter may
/// return for the same program agree, up to the mathematical image of
/// the error.
pub proof fn lemma_interpret_deterministic(
    p: ProgramV,
    r1: Result<Option<VariableValue>, Error>,
    r2: Result<Option<VariableValue>, Error>,
)
    requires
        interpret_result_matches(p, r1),
        interpret_result_matches(p, r2),
    ensures
        match (r1, r2) {
            (Ok(a), Ok(b)) => a == b,
            (Err(a), Err(b)) => a@ == b@,
            _ => false,
        },
{
}

/// The mutable runtime substrate: the operand stack, the variable
/// store and the instruction pointer.
#[derive(Debug)]
pub struct InterpreterState {
    pub stack: Stack<VariableValue>,
    pub vars: Table,
    pub instruction_pointer: usize,
}

impl View for InterpreterState {
    type V = StateV;

    open spec fn view(&self) -> StateV {
        StateV { stack: self.stack@, vars: self.vars@, ip: self.instruction_pointer as nat }
    }
}

impl InterpreterState {
    /// A fresh state: empty stack, empty variable store, instruction
    /// pointer at 0.
    pub fn new() -> (r: Self)
        ensures
            r@ == StateV::init(),
    {
        let r = InterpreterState {
            stack: Stack::new(),
            vars: Table::new(),
            instruction_pointer: 0,
        };
        r
    }

    /// The current instruction pointer.
    pub fn get_instruction_pointer(&self) -> (r: usize)
        ensures
            r == self.instruction_pointer,
    {
        self.instruction_pointer
    }

    /// Point execution at `instruction_pointer`.
    pub fn set_instruction_pointer(&mut self, instruction_pointer: usize)
        ensures
            final(self)@ == (StateV {
                stack: old(self)@.stack,
                vars: old(self)@.vars,
                ip: instruction_pointer as nat,
            }),
    {
        self.instruction_pointer = instruction_pointer;
    }

    /// Advance the instruction pointer by one.
    pub fn next(&mut self)
        requires
            old(self).instruction_pointer < usize::MAX,
        ensures
            final(self)@ == (StateV {
                stack: old(self)@.stack,
                vars: old(self)@.vars,
                ip: old(self)@.ip + 1,
            }),
    {
        self.instruction_pointer += 1;
    }

    /// Pop the top of the operand stack, or report a stack underflow
    /// at the current instruction, 1-based.
    pub fn pop_value(&mut self) -> (r: Result<VariableValue, Error>)
        requires
            old(self).instruction_pointer < usize::MAX,
        ensures
            match r {
                Ok(v) => old(self)@.stack.len() > 0 && v == old(self)@.stack.last() && final(self)@
                    == (StateV {
                    stack: old(self)@.stack.drop_last(),
                    vars: old(self)@.vars,
                    ip: old(self)@.ip,
                }),
                Err(e) => old(self)@.stack.len() == 0 && final(self)@ == old(self)@ && e@
                    == underflow(old(self)@.ip),
            },
    {
        match self.stack.pop() {
            Some(v) => Ok(v),
            None => Err(
                Error::Runtime {
                    instruction: self.instruction_pointer + 1,
                    detail: RuntimeError::StackUnderflow,
                },
            ),
        }
    }

    /// Put `v` on top of the operand stack.
    pub fn push_value(&mut self, v: VariableValue)
        ensures
            final(self)@ == (StateV {
                stack: old(self)@.stack.push(v),
                vars: old(self)@.vars,
                ip: old(self)@.ip,
            }),
    {
        self.stack.push(v);
    }

    /// Bind `variable_name` to `value`, overwriting any earlier value.
    pub fn add_var(&mut self, variable_name: &str, value: VariableValue)
        ensures
            final(self)@ == (StateV {
                stack: old(self)@.stack,
                vars: old(self)@.vars.insert(variable_name@, value),
                ip: old(self)@.ip,
            }),
    {
        self.vars.insert(variable_name.to_owned(), value);
    }

    /// The value bound to `variable_name`, or the runtime error naming
    /// the current instruction, 1-based.
    pub fn read_var(&mut self, variable_name: &str) -> (r: Result<VariableValue, Error>)
        requires
            old(self).instruction_pointer < usize::MAX,
        ensures
            final(self)@ == old(self)@,
            match r {
                Ok(v) => old(self)@.vars.contains_key(variable_name@) && v == old(
                    self,
                )@.vars[variable_name@],
                Err(e) => !old(self)@.vars.contains_key(variable_name@) && e@
                    == undefined_variable(old(self)@.ip),
            },
    {
        match self.vars.get(variable_name) {
            Some(v) => Ok(v),
            None => Err(
                Error::Runtime {
                    instruction: self.instruction_pointer + 1,
                    detail: RuntimeError::UndefinedVariable,
                },
            ),
        }
    }
}

/// The dispatch loop's step budget. An execution that is still running
/// after this many steps is abandoned with [`Error::StepLimit`]; at any
/// realistic speed that takes centuries, so in practice the loop runs
/// until the program itself stops.
pub const MAX_STEPS: u64 = 0xFFFF_FFFF_FFFF_FFFF;

/// What [`Interpreter::interpret`] may return for a program: the
/// verdict of the machine's small-step semantics from a fresh state,
/// or the budget error if even [`MAX_STEPS`] steps did not finish.
pub open spec fn interpret_result_matches(p: ProgramV, r: Result<Option<VariableValue>, Error>) -> bool {
    match spec_run(p, StateV::init(), MAX_STEPS as nat) {
        RunV::Stopped(res) => match r {
            Ok(o) => res == Ok::<Option<u16>, ErrorV>(o),
            Err(e) => res == Err::<Option<u16>, ErrorV>(e@),
        },
        RunV::Running(_) => match r {
            Ok(_) => false,
            Err(e) => e@ == ErrorV::StepLimit,
        },
    }
}

/// The dispatch loop: executes an assembled program on a fresh
/// [`InterpreterState`] until it stops.
pub struct Interpreter {
    bytecode: ByteCode,
}

impl View for Interpreter {
    type V = ProgramV;

    closed spec fn view(&self) -> ProgramV {
        self.bytecode@
    }
}

impl Interpreter {
    /// Wrap an assembled program for execution.
    pub fn new(bytecode: ByteCode) -> (r: Self)
        ensures
            r@ == bytecode@,
    {
        Interpreter { bytecode }
    }

    /// Run the program from a fresh state until it returns a value,
    /// falls off the end, fails, or exhausts the step budget.
    pub fn interpret(&mut self) -> (r: Result<Option<VariableValue>, Error>)
        requires
            old(self)@.wf(),
        ensures
            *final(self) == *old(self),
            interpret_result_matches(old(self)@, r),
    {
        let mut interpreter_state = InterpreterState::new();
        let mut steps: u64 = 0;
        loop
            invariant
                *self == *old(self),
                old(self)@.wf(),
                steps <= MAX_STEPS,
                spec_run(old(self)@, StateV::init(), steps as nat) == RunV::Running(
                    interpreter_state@,
                ),
            decreases MAX_STEPS - steps,
        {
            if steps == MAX_STEPS {
                return Err(Error::StepLimit);
            }
            let ghost pre = interpreter_state@;
            let instruction = match self.bytecode.get_instruction(
                interpreter_state.get_instruction_pointer(),
            ) {
                Some(instruction) => instruction.clone(),
                None => {
                    proof {
                        assert(spec_step(old(self)@, pre) == StepV::Done(None::<u16>));
                        lemma_run_succ(old(self)@, StateV::init(), steps as nat, pre);
                        lemma_run_absorb(
                            old(self)@,
                            StateV::init(),
                            (steps + 1) as nat,
                            MAX_STEPS as nat,
                        );
                    }
                    return Ok(None);
                },
            };
            let ghost iv = instruction@;
            proof {
                assert(iv == old(self)@.instructions[pre.ip as int]);
                assert(iv.wf());
            }
            let step_result: Result<(), Error> = match instruction.name {
                InstructionName::LOAD => self.interpret_load_instruction(
                    &mut interpreter_state,
                    instruction,
                ),
                InstructionName::WRITE => self.interpret_write_instruction(
                    &mut interpreter_state,
                    instruction,
                ),
                InstructionName::READ => self.interpret_read_instruction(
                    &mut interpreter_state,
                    instruction,
                ),
                InstructionName::ADD => self.interpret_add_instruction(&mut interpreter_state),
                InstructionName::MULTIPLY => self.interpret_multiply_instruction(
                    &mut interpreter_state,
                ),
                InstructionName::GREATER => self.interpret_greater_instruction(
                    &mut interpreter_state,
                ),
                InstructionName::LESS => self.interpret_less_instruction(&mut interpreter_state),
                InstructionName::EQUAL => self.interpret_equal_instruction(&mut interpreter_state),
                InstructionName::DUP => self.interpret_dup_instruction(&mut interpreter_state),
                InstructionName::POP => self.interpret_pop_instruction(&mut interpreter_state),
                InstructionName::GOTO => self.interpret_goto_instruction(
                    &mut interpreter_state,
                    instruction,
                ),
                InstructionName::RETURN => {
                    match interpreter_state.pop_value() {
                        Ok(v) => {
                            proof {
                                assert(spec_step(old(self)@, pre) == StepV::Done(Some(v)));
                                lemma_run_succ(old(self)@, StateV::init(), steps as nat, pre);
                                lemma_run_absorb(
                                    old(self)@,
                                    StateV::init(),
                                    (steps + 1) as nat,
                                    MAX_STEPS as nat,
                                );
                            }
                            return Ok(Some(v));
                        },
                        Err(e) => {
                            proof {
                                assert(spec_step(old(self)@, pre) == StepV::Fail(e@));
                                lemma_run_succ(old(self)@, StateV::init(), steps as nat, pre);
                                lemma_run_absorb(
                                    old(self)@,
                                    StateV::init(),
                                    (steps + 1) as nat,
                                    MAX_STEPS as nat,
                                );
                            }
                            return Err(e);
                        },
                    }
                },
            };
            match step_result {
                Ok(()) => {
                    proof {
                        assert(spec_step(old(self)@, pre) == StepV::Next(interpreter_state@));
                        lemma_run_succ(old(self)@, StateV::init(), steps as nat, pre);
                    }
                    steps += 1;
                },
                Err(e) => {
                    proof {
                        assert(spec_step(old(self)@, pre) == StepV::Fail(e@));
                        lemma_run_succ(old(self)@, StateV::init(), steps as nat, pre);
                        lemma_run_absorb(
                            old(self)@,
                            StateV::init(),
                            (steps + 1) as nat,
                            MAX_STEPS as nat,
                        );
                    }
                    return Err(e);
                },
            }
        }
    }

    /// Push a load's immediate value and advance.
    pub fn interpret_load_instruction(
        &mut self,
        interpreter_state: &mut InterpreterState,
        instruction: Instruction,
    ) -> (r: Result<(), Error>)
        requires
            instruction.arg is Some,
            old(interpreter_state).instruction_pointer < usize::MAX,
        ensures
            *final(self) == *old(self),
            r is Ok,
            final(interpreter_state)@ == (StateV {
                stack: old(interpreter_state)@.stack.push(instruction.arg->0),
                vars: old(interpreter_state)@.vars,
                ip: old(interpreter_state)@.ip + 1,
            }),
    {
        interpreter_state.push_value(instruction.arg.unwrap());
        interpreter_state.next();
        Ok(())
    }

    /// Pop a value, bind the write's variable to it, and advance.
    pub fn interpret_write_instruction(
        &mut self,
        interpreter_state: &mut InterpreterState,
        instruction: Instruction,
    ) -> (r: Result<(), Error>)
        requires
            instruction.variable is Some,
            old(interpreter_state).instruction_pointer < usize::MAX,
        ensures
            *final(self) == *old(self),
            match r {
                Ok(()) => old(interpreter_state)@.stack.len() > 0 && final(interpreter_state)@
                    == (StateV {
                    stack: old(interpreter_state)@.stack.drop_last(),
                    vars: old(interpreter_state)@.vars.insert(
                        instruction@.variable->0,
                        old(interpreter_state)@.stack.last(),
                    ),
                    ip: old(interpreter_state)@.ip + 1,
                }),
                Err(e) => old(interpreter_state)@.stack.len() == 0 && final(interpreter_state)@
                    == old(interpreter_state)@ && e@ == underflow(old(interpreter_state)@.ip),
            },
    {
        match interpreter_state.pop_value() {
            Err(e) => Err(e),
            Ok(value) => {
                let name = instruction.variable.unwrap();
                interpreter_state.add_var(name.as_str(), value);
                interpreter_state.next();
                Ok(())
            },
        }
    }

    /// Push the value bound to the read's variable and advance.
    pub fn interpret_read_instruction(
        &mut self,
        interpreter_state: &mut InterpreterState,
        instruction: Instruction,
    ) -> (r: Result<(), Error>)
        requires
            instruction.variable is Some,
            old(interpreter_state).instruction_pointer < usize::MAX,
        ensures
            *final(self) == *old(self),
            match r {
                Ok(()) => old(interpreter_state)@.vars.contains_key(instruction@.variable->0)
                    && final(interpreter_state)@ == (StateV {
                    stack: old(interpreter_state)@.stack.push(
                        old(interpreter_state)@.vars[instruction@.variable->0],
                    ),
                    vars: old(interpreter_state)@.vars,
                    ip: old(interpreter_state)@.ip + 1,
                }),
                Err(e) => !old(interpreter_state)@.vars.contains_key(instruction@.variable->0)
                    && final(interpreter_state)@ == old(interpreter_state)@ && e@
                    == undefined_variable(old(interpreter_state)@.ip),
            },
    {
        let name = instruction.variable.unwrap();
        match interpreter_state.read_var(name.as_str()) {
            Err(e) => Err(e),
            Ok(value) => {
                interpreter_state.push_value(value);
                interpreter_state.next();
                Ok(())
            },
        }
    }

    /// Pop two values, push their wrapping sum, and advance.
    pub fn interpret_add_instruction(&mut self, interpreter_state: &mut InterpreterState) -> (r:
        Result<(), Error>)
        requires
            old(interpreter_state).instruction_pointer < usize::MAX,
        ensures
            *final(self) == *old(self),
            binop_ensures(InstructionName::ADD, *old(interpreter_state), *final(interpreter_state), r),
    {
        let value1 = match interpreter_state.pop_value() {
            Ok(v) => v,
            Err(e) => return Err(e),
        };
        let value2 = match interpreter_state.pop_value() {
            Ok(v) => v,
            Err(e) => return Err(e),
        };
        interpreter_state.push_value(value1.wrapping_add(value2));
        interpreter_state.next();
        Ok(())
    }

    /// Pop two values, push their wrapping product, and advance.
    pub fn interpret_multiply_instruction(
        &mut self,
        interpreter_state: &mut InterpreterState,
    ) -> (r: Result<(), Error>)
        requires
            old(interpreter_state).instruction_pointer < usize::MAX,
        ensures
            *final(self) == *old(self),
            binop_ensures(
                InstructionName::MULTIPLY,
                *old(interpreter_state),
                *final(interpreter_state),
                r,
            ),
    {
        let value1 = match interpreter_state.pop_value() {
            Ok(v) => v,
            Err(e) => return Err(e),
        };
        let value2 = match interpreter_state.pop_value() {
            Ok(v) => v,
            Err(e) => return Err(e),
        };
        interpreter_state.push_value(value1.wrapping_mul(value2));
        interpreter_state.next();
        Ok(())
    }

    /// Pop `a` then `b`, push 1 if `a > b` and 0 otherwise, advance.
    pub fn interpret_greater_instruction(
        &mut self,
        interpreter_state: &mut InterpreterState,
    ) -> (r: Result<(), Error>)
        requires
            old(interpreter_state).instruction_pointer < usize::MAX,
        ensures
            *final(self) == *old(self),
            binop_ensures(
                InstructionName::GREATER,
                *old(interpreter_state),
                *final(interpreter_state),
                r,
            ),
    {
        let value1 = match interpreter_state.pop_value() {
            Ok(v) => v,
            Err(e) => return Err(e),
        };
        let value2 = match interpreter_state.pop_value() {
            Ok(v) => v,
            Err(e) => return Err(e),
        };
        interpreter_state.push_value(
            if value1 > value2 {
                1
            } else {
                0
            },
        );
        interpreter_state.next();
        Ok(())
    }

    /// Pop `a` then `b`, push 1 if `a < b` and 0 otherwise, advance.
    pub fn interpret_less_instruction(&mut self, interpreter_state: &mut InterpreterState) -> (r:
        Result<(), Error>)
        requires
            old(interpreter_state).instruction_pointer < usize::MAX,
        ensures
            *final(self) == *old(self),
            binop_ensures(
                InstructionName::LESS,
                *old(interpreter_state),
                *final(interpreter_state),
                r,
            ),
    {
        let value1 = match interpreter_state.pop_value() {
            Ok(v) => v,
            Err(e) => return Err(e),
        };
        let value2 = match interpreter_state.pop_value() {
            Ok(v) => v,
            Err(e) => return Err(e),
        };
        interpreter_state.push_value(
            if value1 < value2 {
                1
            } else {
                0
            },
        );
        interpreter_state.next();
        Ok(())
    }

    /// Pop `a` then `b`, push 1 if `a == b` and 0 otherwise, advance.
    pub fn interpret_equal_instruction(&mut self, interpreter_state: &mut InterpreterState) -> (r:
        Result<(), Error>)
        requires
            old(interpreter_state).instruction_pointer < usize::MAX,
        ensures
            *final(self) == *old(self),
            binop_ensures(
                InstructionName::EQUAL,
                *old(interpreter_state),
                *final(interpreter_state),
                r,
            ),
    {
        let value1 = match interpreter_state.pop_value() {
            Ok(v) => v,
            Err(e) => return Err(e),
        };
        let value2 = match interpreter_state.pop_value() {
            Ok(v) => v,
            Err(e) => return Err(e),
        };
        interpreter_state.push_value(
            if value1 == value2 {
                1
            } else {
                0
            },
        );
        interpreter_state.next();
        Ok(())
    }

    /// Pop a value, push it back twice, and advance.
    pub fn interpret_dup_instruction(&mut self, interpreter_state: &mut InterpreterState) -> (r:
        Result<(), Error>)
        requires
            old(interpreter_state).instruction_pointer < usize::MAX,
        ensures
            *final(self) == *old(self),
            match r {
                Ok(()) => old(interpreter_state)@.stack.len() > 0 && final(interpreter_state)@
                    == (StateV {
                    stack: old(interpreter_state)@.stack.push(old(interpreter_state)@.stack.last()),
                    vars: old(interpreter_state)@.vars,
                    ip: old(interpreter_state)@.ip + 1,
                }),
                Err(e) => old(interpreter_state)@.stack.len() == 0 && final(interpreter_state)@
                    == old(interpreter_state)@ && e@ == underflow(old(interpreter_state)@.ip),
            },
    {
        let value = match interpreter_state.pop_value() {
            Ok(v) => v,
            Err(e) => return Err(e),
        };
        interpreter_state.push_value(value);
        interpreter_state.push_value(value);
        interpreter_state.next();
        proof {
            assert(interpreter_state@.stack =~= old(interpreter_state)@.stack.push(
                old(interpreter_state)@.stack.last(),
            ));
        }
        Ok(())
    }

    /// Pop a value, discard it, and advance.
    pub fn interpret_pop_instruction(&mut self, interpreter_state: &mut InterpreterState) -> (r:
        Result<(), Error>)
        requires
            old(interpreter_state).instruction_pointer < usize::MAX,
        ensures
            *final(self) == *old(self),
            match r {
                Ok(()) => old(interpreter_state)@.stack.len() > 0 && final(interpreter_state)@
                    == (StateV {
                    stack: old(interpreter_state)@.stack.drop_last(),
                    vars: old(interpreter_state)@.vars,
                    ip: old(interpreter_state)@.ip + 1,
                }),
                Err(e) => old(interpreter_state)@.stack.len() == 0 && final(interpreter_state)@
                    == old(interpreter_state)@ && e@ == underflow(old(interpreter_state)@.ip),
            },
    {
        match interpreter_state.pop_value() {
            Ok(_) => (),
            Err(e) => return Err(e),
        };
        interpreter_state.next();
        Ok(())
    }

    /// Resolve the goto's label, pop a value, and either fall through
    /// on zero or jump to the label's instruction index.
    pub fn interpret_goto_instruction(
        &mut self,
        interpreter_state: &mut InterpreterState,
        instruction: Instruction,
    ) -> (r: Result<(), Error>)
        requires
            instruction.variable is Some,
            old(interpreter_state).instruction_pointer < usize::MAX,
        ensures
            *final(self) == *old(self),
            match r {
                Ok(()) => old(self)@.labels.contains_key(instruction@.variable->0)
                    && old(interpreter_state)@.stack.len() > 0 && final(interpreter_state)@
                    == (StateV {
                    stack: old(interpreter_state)@.stack.drop_last(),
                    vars: old(interpreter_state)@.vars,
                    ip: if old(interpreter_state)@.stack.last() == 0 {
                        old(interpreter_state)@.ip + 1
                    } else {
                        old(self)@.labels[instruction@.variable->0] as nat
                    },
                }),
                Err(e) => final(interpreter_state)@ == old(interpreter_state)@ && ((!old(
                    self,
                )@.labels.contains_key(instruction@.variable->0) && e@ == (ErrorV::UnknownLabel {
                    label: instruction@.variable->0,
                })) || (old(self)@.labels.contains_key(instruction@.variable->0) && old(
                    interpreter_state,
                )@.stack.len() == 0 && e@ == underflow(old(interpreter_state)@.ip))),
            },
    {
        let label = instruction.variable.unwrap();
        let label_instruction_number = match self.bytecode.get_label(label.as_str()) {
            Ok(number) => number,
            Err(e) => return Err(e),
        };
        let value = match interpreter_state.pop_value() {
            Ok(v) => v,
            Err(e) => return Err(e),
        };
        if value == 0 {
            interpreter_state.next();
        } else {
            interpreter_state.set_instruction_pointer(label_instruction_number as usize);
        }
        Ok(())
    }
}

/// The shared contract of the five binary opcodes: two values are
/// popped (`a` first, `b` second) and one result pushed, or the pop
/// underflows.
pub open spec fn binop_ensures(
    op: InstructionName,
    pre: InterpreterState,
    post: InterpreterState,
    r: Result<(), Error>,
) -> bool {
    match r {
        Ok(()) => pre@.stack.len() >= 2 && post@ == (StateV {
            stack: pre@.stack.drop_last().drop_last().push(
                binop_value(op, pre@.stack.last(), pre@.stack.drop_last().last()),
            ),
            vars: pre@.vars,
            ip: pre@.ip + 1,
        }),
        Err(e) => pre@.stack.len() < 2 && e@ == underflow(pre@.ip) && post@ == (StateV {
            stack: if pre@.stack.len() == 0 {
                pre@.stack
            } else {
                pre@.stack.drop_last()
            },
            vars: pre@.vars,
            ip: pre@.ip,
        }),
    }
}

} // verus!
