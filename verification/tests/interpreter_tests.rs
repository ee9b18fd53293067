use interpreter_app::bytecode::ByteCode;
use interpreter_app::interpreter::interpreter::Interpreter;
use interpreter_app::interpreter::interpreter::InterpreterState;
use interpreter_app::Instruction;
use interpreter_app::InstructionName;
use interpreter_app::VariableValue;

#[test]
fn test_interpret_load() {
    let load_value: VariableValue = 10;
    let mut interpreter_state = InterpreterState::new();
    let load_instruction = Instruction {
        name: InstructionName::LOAD,
        arg: Some(load_value),
        variable: None,
    };

    let mut interpreter = Interpreter::new(ByteCode::new());

    let result = Interpreter::interpret_load_instruction(
        &mut interpreter,
        &mut interpreter_state,
        load_instruction,
    );

    assert!(result.is_ok());
    let on_stack = interpreter_state.pop_value();
    assert!(on_stack.is_ok());
    assert_eq!(on_stack.ok().unwrap(), load_value);
    assert_eq!(interpreter_state.instruction_pointer, 0x1);
}

#[test]
fn test_interpret_write() {
    let load_value: VariableValue = 10;
    let var_name = "x";
    let mut interpreter_state = InterpreterState::new();
    interpreter_state.push_value(load_value);
    interpreter_state.next();
    let load_instruction = Instruction {
        name: InstructionName::WRITE,
        arg: None,
        variable: Some(var_name.to_string()),
    };

    let mut interpreter = Interpreter::new(ByteCode::new());

    let result = Interpreter::interpret_write_instruction(
        &mut interpreter,
        &mut interpreter_state,
        load_instruction,
    );

    assert!(result.is_ok());
    assert_eq!(interpreter_state.vars.get(var_name).unwrap(), load_value);
    assert_eq!(interpreter_state.instruction_pointer, 0x2);
}

#[test]
fn test_interpret_write_with_empty_stack() {
    let var_name = "x";
    let mut interpreter_state = InterpreterState::new();
    let load_instruction = Instruction {
        name: InstructionName::WRITE,
        arg: None,
        variable: Some(var_name.to_string()),
    };

    let mut interpreter = Interpreter::new(ByteCode::new());

    let result = Interpreter::interpret_write_instruction(
        &mut interpreter,
        &mut interpreter_state,
        load_instruction,
    );

    assert_eq!(
        result.err().unwrap().message(),
        "Runtime error: unable to process instruction #1: no value on stack".to_string()
    )
}

#[test]
fn test_interpret_read() {
    let load_value: VariableValue = 10;
    let var_name = "x";
    let mut interpreter_state = InterpreterState::new();
    interpreter_state.vars.insert(var_name.to_string(), load_value);
    let load_instruction = Instruction {
        name: InstructionName::READ,
        arg: None,
        variable: Some(var_name.to_string()),
    };

    let mut interpreter = Interpreter::new(ByteCode::new());

    let result = Interpreter::interpret_read_instruction(
        &mut interpreter,
        &mut interpreter_state,
        load_instruction,
    );

    assert!(result.is_ok());
    let on_stack = interpreter_state.pop_value();
    assert!(on_stack.is_ok());
    assert_eq!(on_stack.ok().unwrap(), load_value);
    assert_eq!(interpreter_state.instruction_pointer, 0x1);
}

#[test]
fn test_interpret_read_with_not_existing_variable() {
    let var_name = "x";
    let mut interpreter_state = InterpreterState::new();
    let load_instruction = Instruction {
        name: InstructionName::READ,
        arg: None,
        variable: Some(var_name.to_string()),
    };

    let mut interpreter = Interpreter::new(ByteCode::new());

    let result = Interpreter::interpret_read_instruction(
        &mut interpreter,
        &mut interpreter_state,
        load_instruction,
    );

    assert_eq!(
        result.err().unwrap().message(),
        "Runtime error: unable to get variable: doesn't exist, instruction#1".to_string()
    )
}

#[test]
fn test_interpret_add() {
    let load_value1: VariableValue = 10;
    let load_value2: VariableValue = 10;
    let mut interpreter_state = InterpreterState::new();
    interpreter_state.push_value(load_value1);
    interpreter_state.push_value(load_value2);

    let mut interpreter = Interpreter::new(ByteCode::new());

    let result = Interpreter::interpret_add_instruction(&mut interpreter, &mut interpreter_state);

    assert!(result.is_ok());
    let on_stack = interpreter_state.pop_value();
    assert!(on_stack.is_ok());
    assert_eq!(on_stack.ok().unwrap(), load_value1 + load_value2);
    assert_eq!(interpreter_state.instruction_pointer, 0x1);
}

#[test]
fn test_interpret_add_with_bad_stack_state() {
    let load_value1: VariableValue = 10;
    let mut interpreter_state = InterpreterState::new();
    interpreter_state.push_value(load_value1);

    let mut interpreter = Interpreter::new(ByteCode::new());

    let result = Interpreter::interpret_add_instruction(&mut interpreter, &mut interpreter_state);

    assert_eq!(
        result.err().unwrap().message(),
        "Runtime error: unable to process instruction #1: no value on stack".to_string()
    )
}

#[test]
fn test_interpret_multiply() {
    let load_value1: VariableValue = 10;
    let load_value2: VariableValue = 10;
    let mut interpreter_state = InterpreterState::new();
    interpreter_state.push_value(load_value1);
    interpreter_state.push_value(load_value2);

    let mut interpreter = Interpreter::new(ByteCode::new());

    let result =
        Interpreter::interpret_multiply_instruction(&mut interpreter, &mut interpreter_state);

    assert!(result.is_ok());
    let on_stack = interpreter_state.pop_value();
    assert!(on_stack.is_ok());
    assert_eq!(on_stack.ok().unwrap(), load_value1 * load_value2);
    assert_eq!(interpreter_state.instruction_pointer, 0x1);
}

#[test]
fn test_interpret_multiply_with_bad_stack_state() {
    let load_value1: VariableValue = 10;
    let mut interpreter_state = InterpreterState::new();
    interpreter_state.push_value(load_value1);

    let mut interpreter = Interpreter::new(ByteCode::new());

    let result =
        Interpreter::interpret_multiply_instruction(&mut interpreter, &mut interpreter_state);

    assert_eq!(
        result.err().unwrap().message(),
        "Runtime error: unable to process instruction #1: no value on stack".to_string()
    )
}

#[test]
fn test_interpret_greater() {
    let load_value1: VariableValue = 10;
    let load_value2: VariableValue = 20;
    let mut interpreter_state = InterpreterState::new();
    interpreter_state.push_value(load_value1);
    interpreter_state.push_value(load_value2);

    let mut interpreter = Interpreter::new(ByteCode::new());

    let result =
        Interpreter::interpret_greater_instruction(&mut interpreter, &mut interpreter_state);

    assert!(result.is_ok());
    let on_stack = interpreter_state.pop_value();
    assert!(on_stack.is_ok());
    assert_eq!(on_stack.ok().unwrap(), 1);
    assert_eq!(interpreter_state.instruction_pointer, 0x1);
}

#[test]
fn test_interpret_greater_with_bad_stack_state() {
    let load_value1: VariableValue = 10;
    let mut interpreter_state = InterpreterState::new();
    interpreter_state.push_value(load_value1);

    let mut interpreter = Interpreter::new(ByteCode::new());

    let result =
        Interpreter::interpret_greater_instruction(&mut interpreter, &mut interpreter_state);

    assert_eq!(
        result.err().unwrap().message(),
        "Runtime error: unable to process instruction #1: no value on stack".to_string()
    )
}

#[test]
fn test_interpret_less() {
    let load_value1: VariableValue = 10;
    let load_value2: VariableValue = 20;
    let mut interpreter_state = InterpreterState::new();
    interpreter_state.push_value(load_value1);
    interpreter_state.push_value(load_value2);

    let mut interpreter = Interpreter::new(ByteCode::new());

    let result = Interpreter::interpret_less_instruction(&mut interpreter, &mut interpreter_state);

    assert!(result.is_ok());
    let on_stack = interpreter_state.pop_value();
    assert!(on_stack.is_ok());
    assert_eq!(on_stack.ok().unwrap(), 0);
    assert_eq!(interpreter_state.instruction_pointer, 0x1);
}

#[test]
fn test_interpret_less_with_bad_stack_state() {
    let load_value1: VariableValue = 10;
    let mut interpreter_state = InterpreterState::new();
    interpreter_state.push_value(load_value1);

    let mut interpreter = Interpreter::new(ByteCode::new());

    let result = Interpreter::interpret_less_instruction(&mut interpreter, &mut interpreter_state);

    assert_eq!(
        result.err().unwrap().message(),
        "Runtime error: unable to process instruction #1: no value on stack".to_string()
    )
}

#[test]
fn test_interpret_equal() {
    let load_value1: VariableValue = 10;
    let load_value2: VariableValue = 10;
    let mut interpreter_state = InterpreterState::new();
    interpreter_state.push_value(load_value1);
    interpreter_state.push_value(load_value2);

    let mut interpreter = Interpreter::new(ByteCode::new());

    let result = Interpreter::interpret_equal_instruction(&mut interpreter, &mut interpreter_state);

    assert!(result.is_ok());
    let on_stack = interpreter_state.pop_value();
    assert!(on_stack.is_ok());
    assert_eq!(on_stack.ok().unwrap(), 1);
    assert_eq!(interpreter_state.instruction_pointer, 0x1);
}

#[test]
fn test_interpret_equal_with_bad_stack_state() {
    let load_value1: VariableValue = 10;
    let mut interpreter_state = InterpreterState::new();
    interpreter_state.push_value(load_value1);

    let mut interpreter = Interpreter::new(ByteCode::new());

    let result = Interpreter::interpret_equal_instruction(&mut interpreter, &mut interpreter_state);

    assert_eq!(
        result.err().unwrap().message(),
        "Runtime error: unable to process instruction #1: no value on stack".to_string()
    )
}

#[test]
fn test_interpret_dup() {
    let load_value: VariableValue = 10;
    let mut interpreter_state = InterpreterState::new();
    interpreter_state.push_value(load_value);

    let mut interpreter = Interpreter::new(ByteCode::new());

    let result = Interpreter::interpret_dup_instruction(&mut interpreter, &mut interpreter_state);

    assert!(result.is_ok());
    let on_stack = interpreter_state.pop_value();
    assert!(on_stack.is_ok());
    assert_eq!(on_stack.ok().unwrap(), 10);
    let on_stack = interpreter_state.pop_value();
    assert!(on_stack.is_ok());
    assert_eq!(on_stack.ok().unwrap(), 10);
    assert_eq!(interpreter_state.instruction_pointer, 0x1);
}

#[test]
fn test_interpret_dup_with_bad_stack_state() {
    let mut interpreter_state = InterpreterState::new();

    let mut interpreter = Interpreter::new(ByteCode::new());

    let result = Interpreter::interpret_dup_instruction(&mut interpreter, &mut interpreter_state);

    assert_eq!(
        result.err().unwrap().message(),
        "Runtime error: unable to process instruction #1: no value on stack".to_string()
    )
}

#[test]
fn test_interpret_pop() {
    let load_value: VariableValue = 10;
    let mut interpreter_state = InterpreterState::new();
    interpreter_state.push_value(load_value);

    let mut interpreter = Interpreter::new(ByteCode::new());

    let result = Interpreter::interpret_pop_instruction(&mut interpreter, &mut interpreter_state);

    assert!(result.is_ok());
    let on_stack = interpreter_state.pop_value();
    assert_eq!(
        on_stack.err().unwrap().message(),
        "Runtime error: unable to process instruction #2: no value on stack".to_string()
    )
}

#[test]
fn test_interpret_pop_with_bad_stack_state() {
    let mut interpreter_state = InterpreterState::new();

    let mut interpreter = Interpreter::new(ByteCode::new());

    let result = Interpreter::interpret_pop_instruction(&mut interpreter, &mut interpreter_state);

    assert_eq!(
        result.err().unwrap().message(),
        "Runtime error: unable to process instruction #1: no value on stack".to_string()
    )
}
