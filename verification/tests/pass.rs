//! The line pipeline: tokenizing, per-line dispatch, the whole pass.

use asm2ms::errors::AsmError;
use asm2ms::pipeline::{assemble, process_line, split_lines, tokenize, trim_commas};

#[test]
fn tokens_split_on_single_spaces_and_lose_commas() {
    let toks = tokenize(b"mov R1, R2");
    assert_eq!(toks, vec![b"mov".to_vec(), b"R1".to_vec(), b"R2".to_vec()]);
}

#[test]
fn consecutive_spaces_make_empty_tokens() {
    let toks = tokenize(b"mov  R1");
    assert_eq!(toks, vec![b"mov".to_vec(), b"".to_vec(), b"R1".to_vec()]);
}

#[test]
fn empty_line_has_one_empty_token() {
    assert_eq!(tokenize(b""), vec![b"".to_vec()]);
}

#[test]
fn commas_are_trimmed_from_both_ends_only() {
    assert_eq!(trim_commas(b"R1,"), b"R1".to_vec());
    assert_eq!(trim_commas(b",R1"), b"R1".to_vec());
    assert_eq!(trim_commas(b",,R1,,"), b"R1".to_vec());
    assert_eq!(trim_commas(b",,,"), b"".to_vec());
    assert_eq!(trim_commas(b"R,1"), b"R,1".to_vec());
}

#[test]
fn lines_split_at_line_feeds_and_drop_carriage_returns() {
    let lines = split_lines(b"nop\r\nmov R1, R2\nnop");
    assert_eq!(
        lines,
        vec![b"nop".to_vec(), b"mov R1, R2".to_vec(), b"nop".to_vec()]
    );
    assert_eq!(split_lines(b""), Vec::<Vec<u8>>::new());
    assert_eq!(split_lines(b"nop\n"), vec![b"nop".to_vec()]);
    assert_eq!(split_lines(b"\n"), vec![b"".to_vec()]);
}

#[test]
fn a_good_line_encodes() {
    assert_eq!(process_line(b"mov R1, R2"), Ok(b"0x00126100".to_vec()));
    assert_eq!(process_line(b"load R2, R1"), Ok(b"0x00116500".to_vec()));
    assert_eq!(process_line(b"nop"), Ok(b"0x00166600".to_vec()));
}

#[test]
fn register_case_does_not_matter() {
    assert_eq!(process_line(b"mov r1, r2"), Ok(b"0x00126100".to_vec()));
    assert_eq!(process_line(b"mov r1, R2"), Ok(b"0x00126100".to_vec()));
}

#[test]
fn mnemonic_case_does_matter() {
    assert_eq!(process_line(b"MOV R1, R2"), Err(AsmError::UndefinedCommand));
}

#[test]
fn too_many_operands_mismatch() {
    assert_eq!(
        process_line(b"mov R1, R2, R3"),
        Err(AsmError::OperandCountMismatch)
    );
}

#[test]
fn too_few_operands_mismatch() {
    assert_eq!(process_line(b"mov R1"), Err(AsmError::OperandCountMismatch));
    assert_eq!(process_line(b"nop now"), Err(AsmError::OperandCountMismatch));
}

#[test]
fn unknown_mnemonic_is_undefined_command() {
    assert_eq!(process_line(b"xyz"), Err(AsmError::UndefinedCommand));
    assert_eq!(process_line(b"xyz R1, R2"), Err(AsmError::UndefinedCommand));
    assert_eq!(process_line(b""), Err(AsmError::UndefinedCommand));
}

#[test]
fn resolver_failures_reach_the_line_level() {
    assert_eq!(process_line(b"mov R1, R7"), Err(AsmError::UnsupportedRegister));
    assert_eq!(process_line(b"movi R1, 256"), Err(AsmError::MalformedImmediate));
}

#[test]
fn records_carry_word_separator_and_original_line() {
    let out = assemble(b"mov R1, R2");
    assert_eq!(out, b"0x00126100 ; mov R1, R2\r\n".to_vec());
}

#[test]
fn failing_lines_contribute_zero_bytes() {
    let out = assemble(b"mov R1, R2\nxyz\nmov R1, R2, R3\nmovi R1, 999\nnop");
    assert_eq!(
        out,
        b"0x00126100 ; mov R1, R2\r\n0x00166600 ; nop\r\n".to_vec()
    );
}

#[test]
fn all_failing_lines_make_an_empty_output() {
    assert_eq!(assemble(b"xyz\nabc def\nmov R9, R1"), Vec::<u8>::new());
    assert_eq!(assemble(b""), Vec::<u8>::new());
}

#[test]
fn carriage_return_endings_are_tolerated() {
    let out = assemble(b"nop\r\nmovi R3, 255\r\n");
    assert_eq!(
        out,
        b"0x00166600 ; nop\r\n0x001683ff ; movi R3, 255\r\n".to_vec()
    );
}

#[test]
fn a_whole_program_assembles_in_line_order() {
    let src = b"movi R0, 1\nmovi R1, 2\nadd R2, R0, R1\njz R2, 16\njump R0";
    let out = assemble(src);
    // Each record is the word, " ; ", the line, and "\r\n".
    let mut manual: Vec<u8> = Vec::new();
    for (line, word) in [
        ("movi R0, 1", "0x00168001"),
        ("movi R1, 2", "0x00168102"),
        ("add R2, R0, R1", "0x00101200"),
        ("jz R2, 16", "0x0232e610"),
        ("jump R0", "0x01106600"),
    ] {
        manual.extend_from_slice(word.as_bytes());
        manual.extend_from_slice(b" ; ");
        manual.extend_from_slice(line.as_bytes());
        manual.extend_from_slice(b"\r\n");
    }
    assert_eq!(out, manual);
}

#[test]
fn rerunning_the_pass_gives_byte_identical_output() {
    let src = b"mov R1, R2\nxyz\nload R2, R1\nnop\n";
    let first = assemble(src);
    let second = assemble(src);
    assert_eq!(first, second);
}
