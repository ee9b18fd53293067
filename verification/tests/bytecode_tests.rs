use interpreter_app::bytecode::ByteCode;
use interpreter_app::VariableValue;

fn source_lines(code: &str) -> Vec<String> {
    code.split('\n').map(|s| s.to_string()).collect()
}

#[test]
fn mod_create_load_instruction() {
    let code = "LOAD_VAL 1";
    let result = ByteCode::parse_instructions(&source_lines(code));
    assert!(result.is_ok());
    let bytecode = result.ok().unwrap();
    assert_eq!(bytecode.instructions.len(), 1);
}

#[test]
fn create_two_write_instructions() {
    let code = "WRITE_VAR x\nWRITE_VAR y";
    let result = ByteCode::parse_instructions(&source_lines(code));
    assert!(result.is_ok());
    let bytecode = result.ok().unwrap();
    assert_eq!(bytecode.instructions.len(), 2);
}

#[test]
fn create_read_invalid_arg_num_instruction() {
    let code = "READ_VAR x y";
    let result = ByteCode::parse_instructions(&source_lines(code));
    assert_eq!(
        result.err().unwrap().message(),
        "Unable to parse line #1: Error creating read instruction: expected 1 argument, got 2"
            .to_string()
    );
}

#[test]
fn create_empty_program() {
    let code = "";
    let result = ByteCode::parse_instructions(&source_lines(code));
    assert_eq!(result.err().unwrap().message(), "Empty program".to_string());
}

#[test]
fn create_label_instruction() {
    let code = "LOAD_VAL 1\nREAD_VAR x\n.label\nGOTO .label";
    let result = ByteCode::parse_instructions(&source_lines(code));
    assert!(result.is_ok());
    let bytecode = result.ok().unwrap();
    assert_eq!(bytecode.get_label(".label").ok().unwrap(), 2 as VariableValue);
    assert_eq!(bytecode.instructions.len(), 3)
}
