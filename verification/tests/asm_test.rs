use smol::ast::{parse_source, ParseErrorKind, Variable};
use smol::compiler::{compile_ast, compile_variables, CompileError};

#[test]
fn parses_variables_and_instructions() {
    let tree = parse_source("---\nfoo 3 \"abc\"\nbar 2\n---\nadd r0 r1\nADDI r5 42\n").unwrap();
    assert_eq!(tree.variables.len(), 2);
    assert_eq!(tree.variables[0].name, b"foo".to_vec());
    assert_eq!(tree.variables[0].size, 3);
    assert_eq!(tree.variables[0].bytes, Some(b"abc".to_vec()));
    assert_eq!(tree.variables[1].name, b"bar".to_vec());
    assert_eq!(tree.variables[1].size, 2);
    assert_eq!(tree.variables[1].bytes, None);
    assert_eq!(tree.instructions.len(), 2);
}

#[test]
fn file_without_marker_is_all_instructions() {
    let tree = parse_source("# a comment\nadd r0 r1\n\nuv\n").unwrap();
    assert_eq!(tree.variables.len(), 0);
    assert_eq!(tree.instructions.len(), 2);
}

#[test]
fn newline_escape_in_value() {
    let tree = parse_source("---\nmsg 3 \"a\\nb\"\n---\nuv\n").unwrap();
    assert_eq!(tree.variables[0].bytes, Some(vec![97, 10, 98]));
}

#[test]
fn compiles_exact_bytes() {
    let tree = parse_source("---\nfoo 3 \"abc\"\n---\nadd r0 r1\naddi r7 11\nsv foo\nsyscall\nuv\n")
        .unwrap();
    let file = compile_ast(tree).unwrap();
    assert_eq!(file.storage.total_size, 7);
    assert_eq!(file.storage.items.len(), 1);
    assert_eq!(file.storage.items[0].size, 3);
    assert_eq!(file.storage.items[0].offset, 0);
    assert_eq!(file.storage.items[0].init_data, Some(b"abc".to_vec()));
    assert_eq!(
        file.instructions,
        vec![
            0b00_000_0_0_0,
            0b0001_0000, // add r0 r1
            0b00_000_1_0_0,
            0x07,
            11, // addi r7 11
            0b10101100,
            0x00,
            0x00, // sv foo
            0b11101111, // syscall
            0b10110000, // uv
        ]
    );
}

#[test]
fn offsets_rise_by_size() {
    let tree = parse_source("---\na 5\nb 3\nc 2\n---\nsv c\n").unwrap();
    let file = compile_ast(tree).unwrap();
    assert_eq!(file.storage.items[0].offset, 0);
    assert_eq!(file.storage.items[1].offset, 5);
    assert_eq!(file.storage.items[2].offset, 8);
    // sv c resolves to offset 8, little-endian.
    assert_eq!(file.instructions, vec![0b10101100, 8, 0]);
}

#[test]
fn unknown_instruction_reports_line() {
    let e = parse_source("add r0 r1\nbogus r0\n").unwrap_err();
    assert_eq!(e.line, 2);
    assert_eq!(e.kind, ParseErrorKind::UnknownInstruction);
}

#[test]
fn missing_arguments() {
    let e = parse_source("add r0\n").unwrap_err();
    assert_eq!(e.line, 1);
    assert_eq!(e.kind, ParseErrorKind::MissingArguments);
}

#[test]
fn bad_register() {
    let e = parse_source("add r8 r1\n").unwrap_err();
    assert_eq!(e.kind, ParseErrorKind::BadRegister);
}

#[test]
fn bad_immediate() {
    let e = parse_source("addi r0 256\n").unwrap_err();
    assert_eq!(e.kind, ParseErrorKind::BadImmediate);
}

#[test]
fn sv_needs_a_name() {
    let e = parse_source("sv\n").unwrap_err();
    assert_eq!(e.kind, ParseErrorKind::MissingVariableName);
}

#[test]
fn variable_needs_a_size() {
    let e = parse_source("---\nfoo\n---\n").unwrap_err();
    assert_eq!(e.line, 2);
    assert_eq!(e.kind, ParseErrorKind::MissingVariableSize);
}

#[test]
fn variable_size_must_be_decimal() {
    let e = parse_source("---\nfoo abc\n---\n").unwrap_err();
    assert_eq!(e.kind, ParseErrorKind::BadVariableSize);
}

#[test]
fn variable_value_must_be_a_string() {
    let e = parse_source("---\nfoo 2 xy\n---\n").unwrap_err();
    assert_eq!(e.kind, ParseErrorKind::NotAString);
}

#[test]
fn unterminated_string() {
    let e = parse_source("---\nfoo 2 \"ab\n---\n").unwrap_err();
    assert_eq!(e.kind, ParseErrorKind::UnterminatedString);
}

#[test]
fn init_length_must_match_size() {
    let e = parse_source("---\nfoo 3 \"ab\"\n---\n").unwrap_err();
    assert_eq!(e.kind, ParseErrorKind::InitSizeMismatch);
}

#[test]
fn unknown_variable_reports_line() {
    let tree = parse_source("uv\nsv nope\n").unwrap();
    let e = compile_ast(tree).unwrap_err();
    assert_eq!(e, CompileError::UnknownVariable { line: 2 });
}

#[test]
fn size_zero_is_rejected() {
    let vars = vec![Variable { name: b"z".to_vec(), size: 0, bytes: None }];
    let e = compile_variables(&vars).unwrap_err();
    assert_eq!(e, CompileError::InvalidSize { index: 0 });
}

#[test]
fn size_over_wire_limit_is_rejected() {
    let vars = vec![Variable { name: b"z".to_vec(), size: 0x8000, bytes: None }];
    let e = compile_variables(&vars).unwrap_err();
    assert_eq!(e, CompileError::InvalidSize { index: 0 });
}

#[test]
fn hand_built_size_mismatch_is_rejected() {
    let vars = vec![Variable { name: b"z".to_vec(), size: 3, bytes: Some(vec![1]) }];
    let e = compile_variables(&vars).unwrap_err();
    assert_eq!(e, CompileError::SizeMismatch { index: 0 });
}

#[test]
fn layout_past_variable_space_is_rejected() {
    let vars = vec![
        Variable { name: b"a".to_vec(), size: 0x7FFF, bytes: None },
        Variable { name: b"b".to_vec(), size: 1, bytes: None },
    ];
    let e = compile_variables(&vars).unwrap_err();
    assert_eq!(e, CompileError::StorageOverflow { index: 1 });
}

#[test]
fn mnemonics_are_case_insensitive() {
    let tree = parse_source("AdD r0 r1\nSYSCALL\nUv\n").unwrap();
    assert_eq!(tree.instructions.len(), 3);
    let file = compile_ast(tree).unwrap();
    assert_eq!(file.instructions, vec![0x00, 0x10, 0xEF, 0xB0]);
}

#[test]
fn comments_and_blanks_are_skipped() {
    let tree = parse_source("---\n# names\n\nv 1 \"x\"\n---\n# code\n\nuv\n").unwrap();
    assert_eq!(tree.variables.len(), 1);
    assert_eq!(tree.instructions.len(), 1);
}
