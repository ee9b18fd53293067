use interpreter_app::bytecode::ByteCode;
use interpreter_app::interpret;
use interpreter_app::interpreter::stack::Stack;

fn source_lines(code: &str) -> Vec<String> {
    code.split('\n').map(|s| s.to_string()).collect()
}

#[test]
fn greater_pops_top_as_left_operand() {
    let program = "LOAD_VAL 10\nLOAD_VAL 20\nGREATER\nRETURN_VALUE";
    let result = interpret(&source_lines(program));
    assert_eq!(result.ok().unwrap(), Some(1));
}

#[test]
fn less_pops_top_as_left_operand() {
    let program = "LOAD_VAL 10\nLOAD_VAL 20\nLESS\nRETURN_VALUE";
    let result = interpret(&source_lines(program));
    assert_eq!(result.ok().unwrap(), Some(0));
}

#[test]
fn equal_on_unequal_operands() {
    let program = "LOAD_VAL 10\nLOAD_VAL 20\nEQUAL\nRETURN_VALUE";
    let result = interpret(&source_lines(program));
    assert_eq!(result.ok().unwrap(), Some(0));
}

#[test]
fn equal_on_equal_operands() {
    let program = "LOAD_VAL 20\nLOAD_VAL 20\nEQUAL\nRETURN_VALUE";
    let result = interpret(&source_lines(program));
    assert_eq!(result.ok().unwrap(), Some(1));
}

#[test]
fn unreachable_bad_goto_never_fails() {
    let program = "LOAD_VAL 1\nRETURN_VALUE\nGOTO .nowhere";
    let result = interpret(&source_lines(program));
    assert_eq!(result.ok().unwrap(), Some(1));
}

#[test]
fn goto_falls_through_on_zero() {
    let program = "LOAD_VAL 0\nGOTO .end\nLOAD_VAL 5\nRETURN_VALUE\n.end";
    let result = interpret(&source_lines(program));
    assert_eq!(result.ok().unwrap(), Some(5));
}

#[test]
fn goto_jumps_on_nonzero() {
    let program = "LOAD_VAL 1\nGOTO .end\nLOAD_VAL 5\nRETURN_VALUE\n.end";
    let result = interpret(&source_lines(program));
    assert_eq!(result.ok().unwrap(), None);
}

#[test]
fn addition_wraps_at_sixteen_bits() {
    let program = "LOAD_VAL 65535\nLOAD_VAL 1\nADD\nRETURN_VALUE";
    let result = interpret(&source_lines(program));
    assert_eq!(result.ok().unwrap(), Some(0));
}

#[test]
fn multiplication_wraps_at_sixteen_bits() {
    let program = "LOAD_VAL 256\nLOAD_VAL 256\nMULTIPLY\nRETURN_VALUE";
    let result = interpret(&source_lines(program));
    assert_eq!(result.ok().unwrap(), Some(0));
}

#[test]
fn largest_value_loads() {
    let program = "LOAD_VAL 65535\nRETURN_VALUE";
    let result = interpret(&source_lines(program));
    assert_eq!(result.ok().unwrap(), Some(65535));
}

#[test]
fn load_value_above_range_is_refused() {
    let program = "LOAD_VAL 65536\nRETURN_VALUE";
    let result = interpret(&source_lines(program));
    assert_eq!(
        result.err().unwrap().message(),
        "Unable to parse line #1: Error creating load instruction: \
         number too large to fit in target type"
            .to_string()
    );
}

#[test]
fn load_non_numeric_argument_is_refused() {
    let program = "LOAD_VAL abc\nRETURN_VALUE";
    let result = interpret(&source_lines(program));
    assert_eq!(
        result.err().unwrap().message(),
        "Unable to parse line #1: Error creating load instruction: \
         invalid digit found in string"
            .to_string()
    );
}

#[test]
fn load_accepts_leading_plus_sign() {
    let program = "LOAD_VAL +10\nRETURN_VALUE";
    let result = interpret(&source_lines(program));
    assert_eq!(result.ok().unwrap(), Some(10));
}

#[test]
fn whitespace_only_lines_are_skipped() {
    let program = "   \nLOAD_VAL 3\n\t\nRETURN_VALUE";
    let result = interpret(&source_lines(program));
    assert_eq!(result.ok().unwrap(), Some(3));
}

#[test]
fn tabs_separate_tokens() {
    let program = "LOAD_VAL\t7\nRETURN_VALUE";
    let result = interpret(&source_lines(program));
    assert_eq!(result.ok().unwrap(), Some(7));
}

#[test]
fn consecutive_labels_share_an_index() {
    let code = ".first_mark\n.second_mark\nLOAD_VAL 1\nRETURN_VALUE";
    let bytecode = ByteCode::parse_instructions(&source_lines(code)).ok().unwrap();
    assert_eq!(bytecode.get_label(".first_mark").ok().unwrap(), 0);
    assert_eq!(bytecode.get_label(".second_mark").ok().unwrap(), 0);
}

#[test]
fn label_at_end_jumps_off_the_end() {
    let program = "LOAD_VAL 1\nGOTO .end\n.end";
    let result = interpret(&source_lines(program));
    assert_eq!(result.ok().unwrap(), None);
}

#[test]
fn undefined_variable_read_fails_with_instruction_number() {
    let program = "READ_VAR x\nRETURN_VALUE";
    let result = interpret(&source_lines(program));
    assert_eq!(
        result.err().unwrap().message(),
        "Runtime error: unable to get variable: doesn't exist, instruction#1".to_string()
    );
}

#[test]
fn underflow_reports_multi_digit_instruction_number() {
    let program = "LOAD_VAL 1\nPOP\nLOAD_VAL 1\nPOP\nLOAD_VAL 1\nPOP\n\
                   LOAD_VAL 1\nPOP\nLOAD_VAL 1\nPOP\nPOP";
    let result = interpret(&source_lines(program));
    assert_eq!(
        result.err().unwrap().message(),
        "Runtime error: unable to process instruction #11: no value on stack".to_string()
    );
}

#[test]
fn parse_error_reports_multi_digit_line_number() {
    let program = "\n\n\n\n\n\n\n\n\n\n\nBAD_OPCODE";
    let result = interpret(&source_lines(program));
    assert_eq!(
        result.err().unwrap().message(),
        "Unable to parse line #12: Unknown instruction: BAD_OPCODE".to_string()
    );
}

#[test]
fn variable_writes_overwrite() {
    let program = "LOAD_VAL 1\nWRITE_VAR x\nLOAD_VAL 2\nWRITE_VAR x\nREAD_VAR x\nRETURN_VALUE";
    let result = interpret(&source_lines(program));
    assert_eq!(result.ok().unwrap(), Some(2));
}

#[test]
fn reassembling_the_same_source_gives_identical_results() {
    let program = "LOAD_VAL 10\nWRITE_VAR x\nLOAD_VAL 20\nWRITE_VAR y\n\
                   READ_VAR x\nREAD_VAR y\nLOAD_VAL 10\nMULTIPLY\nADD\nRETURN_VALUE";
    let first = interpret(&source_lines(program));
    let second = interpret(&source_lines(program));
    assert_eq!(first.as_ref().ok().unwrap(), second.as_ref().ok().unwrap());
    assert_eq!(first.ok().unwrap(), Some(210));
}

#[test]
fn stack_pops_in_reverse_order_of_pushes() {
    let mut stack: Stack<u16> = Stack::new();
    stack.push(1);
    stack.push(2);
    stack.push(3);
    assert_eq!(stack.pop(), Some(3));
    assert_eq!(stack.pop(), Some(2));
    assert_eq!(stack.pop(), Some(1));
    assert_eq!(stack.pop(), None);
}

#[test]
fn dup_leaves_two_copies() {
    let program = "LOAD_VAL 4\nDUP\nADD\nRETURN_VALUE";
    let result = interpret(&source_lines(program));
    assert_eq!(result.ok().unwrap(), Some(8));
}

#[test]
fn pop_discards_the_top() {
    let program = "LOAD_VAL 9\nLOAD_VAL 5\nPOP\nRETURN_VALUE";
    let result = interpret(&source_lines(program));
    assert_eq!(result.ok().unwrap(), Some(9));
}

#[test]
fn empty_program_error_for_labels_only() {
    let program = ".only_a_label";
    let result = interpret(&source_lines(program));
    assert_eq!(result.err().unwrap().message(), "Empty program".to_string());
}

#[test]
fn goto_loop_counts_to_ten() {
    let program = "LOAD_VAL 5\n.loop\nLOAD_VAL 1\nADD\nDUP\nLOAD_VAL 10\nGREATER\n\
                   GOTO .loop\nRETURN_VALUE";
    let result = interpret(&source_lines(program));
    assert_eq!(result.ok().unwrap(), Some(10));
}

#[test]
fn load_empty_token_is_refused() {
    let mut args = Vec::new();
    args.push("".to_string());
    let result = interpreter_app::Instruction::new("LOAD_VAL", args);
    assert_eq!(
        result.err().unwrap().message(),
        "Error creating load instruction: cannot parse integer from empty string".to_string()
    );
}

#[test]
fn io_error_message_names_the_cause() {
    let error = interpreter_app::Error::Io {
        detail: "no such file".to_string(),
    };
    assert_eq!(error.message(), "Unable to open file: no such file".to_string());
}

#[test]
fn step_limit_error_has_a_message() {
    let error = interpreter_app::Error::StepLimit;
    assert_eq!(error.message(), "Runtime error: step limit exceeded".to_string());
}

#[test]
fn plus_sign_alone_is_not_a_number() {
    let program = "LOAD_VAL +\nRETURN_VALUE";
    let result = interpret(&source_lines(program));
    assert_eq!(
        result.err().unwrap().message(),
        "Unable to parse line #1: Error creating load instruction: \
         invalid digit found in string"
            .to_string()
    );
}
