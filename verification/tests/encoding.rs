//! The instruction encoder: operand substitution per command.

use asm2ms::commands::Command;
use asm2ms::encoder::{fill_instruction, Instruction};
use asm2ms::errors::AsmError;

fn encode(line: &[&str]) -> Result<Vec<u8>, AsmError> {
    let tokens: Vec<Vec<u8>> = line.iter().map(|w| w.as_bytes().to_vec()).collect();
    let mut instruction = Instruction::from_str(tokens[0].as_slice());
    fill_instruction(&mut instruction, &tokens)?;
    Ok(instruction.data)
}

#[test]
fn nop_always_yields_its_fixed_template() {
    let word = encode(&["nop"]).unwrap();
    assert_eq!(word, b"0x00166600".to_vec());
    assert!(!word.contains(&b'<'));
    assert!(!word.contains(&b'>'));
}

#[test]
fn mov_replaces_both_register_placeholders() {
    let word = encode(&["mov", "R1", "R2"]).unwrap();
    assert_eq!(word, b"0x00126100".to_vec());
    // <RX> position carries "2", <RD> position carries "1".
    assert_eq!(word[5], b'2');
    assert_eq!(word[7], b'1');
}

#[test]
fn movi_takes_a_register_and_an_immediate() {
    assert_eq!(encode(&["movi", "R3", "255"]), Ok(b"0x001683ff".to_vec()));
}

#[test]
fn jump_takes_one_register() {
    assert_eq!(encode(&["jump", "R4"]), Ok(b"0x01146600".to_vec()));
}

#[test]
fn jumpi_takes_one_immediate() {
    assert_eq!(encode(&["jumpi", "16"]), Ok(b"0x0116e610".to_vec()));
}

#[test]
fn jz_takes_a_register_and_an_immediate() {
    assert_eq!(encode(&["jz", "R0", "5"]), Ok(b"0x0230e605".to_vec()));
}

#[test]
fn jnz_takes_a_register_and_an_immediate() {
    assert_eq!(encode(&["jnz", "R5", "0"]), Ok(b"0x0335e600".to_vec()));
}

#[test]
fn add_takes_three_registers() {
    assert_eq!(encode(&["add", "R1", "R2", "R3"]), Ok(b"0x00123100".to_vec()));
}

#[test]
fn addi_takes_two_registers_and_an_immediate() {
    assert_eq!(encode(&["addi", "R1", "R2", "7"]), Ok(b"0x0012e107".to_vec()));
}

#[test]
fn and_takes_three_registers() {
    assert_eq!(encode(&["and", "R0", "R1", "R2"]), Ok(b"0x00012000".to_vec()));
}

#[test]
fn andi_takes_two_registers_and_an_immediate() {
    assert_eq!(encode(&["andi", "R4", "R5", "255"]), Ok(b"0x0005e4ff".to_vec()));
}

#[test]
fn load_doubles_its_destination_field() {
    let word = encode(&["load", "R2", "R1"]).unwrap();
    // The destination field is (2 << 1) + 1 = 5 in hex, not "2".
    assert_eq!(word, b"0x00116500".to_vec());
    assert_eq!(word[7], b'5');
}

#[test]
fn loadi_doubles_its_destination_field() {
    assert_eq!(encode(&["loadi", "R0", "1"]), Ok(b"0x0016e101".to_vec()));
    assert_eq!(encode(&["loadi", "R5", "255"]), Ok(b"0x0016ebff".to_vec()));
}

#[test]
fn no_encoded_word_keeps_a_placeholder() {
    let words = [
        encode(&["mov", "r0", "r5"]).unwrap(),
        encode(&["movi", "r1", "60"]).unwrap(),
        encode(&["nop"]).unwrap(),
        encode(&["jump", "r2"]).unwrap(),
        encode(&["jumpi", "62"]).unwrap(),
        encode(&["jz", "r3", "0"]).unwrap(),
        encode(&["jnz", "r4", "9"]).unwrap(),
        encode(&["add", "r5", "r0", "r1"]).unwrap(),
        encode(&["addi", "r2", "r3", "61"]).unwrap(),
        encode(&["and", "r4", "r5", "r0"]).unwrap(),
        encode(&["andi", "r1", "r2", "60"]).unwrap(),
        encode(&["load", "r3", "r4"]).unwrap(),
        encode(&["loadi", "r5", "62"]).unwrap(),
    ];
    for word in words.iter() {
        assert!(!word.contains(&b'<'));
        assert!(!word.contains(&b'>'));
    }
}

#[test]
fn unsupported_register_stops_the_encoding() {
    assert_eq!(encode(&["mov", "R6", "R1"]), Err(AsmError::UnsupportedRegister));
    assert_eq!(encode(&["mov", "R1", "Rx"]), Err(AsmError::UnsupportedRegister));
    assert_eq!(encode(&["load", "banana", "R1"]), Err(AsmError::UnsupportedRegister));
    assert_eq!(encode(&["jump", "5"]), Err(AsmError::UnsupportedRegister));
}

#[test]
fn malformed_immediate_propagates() {
    assert_eq!(encode(&["movi", "R1", "300"]), Err(AsmError::MalformedImmediate));
    assert_eq!(encode(&["jumpi", "twelve"]), Err(AsmError::MalformedImmediate));
    assert_eq!(encode(&["addi", "R1", "R2", "-3"]), Err(AsmError::MalformedImmediate));
}

#[test]
fn registers_are_checked_before_the_immediate() {
    // Both operands are bad; the register failure is reported.
    assert_eq!(encode(&["movi", "R9", "999"]), Err(AsmError::UnsupportedRegister));
}

#[test]
fn undefined_command_never_encodes() {
    let tokens: Vec<Vec<u8>> = vec![b"xyz".to_vec()];
    let mut instruction = Instruction::from_str(tokens[0].as_slice());
    assert_eq!(instruction.command, Command::Undefined);
    assert_eq!(
        fill_instruction(&mut instruction, &tokens),
        Err(AsmError::UndefinedCommand)
    );
    // The template is untouched on failure.
    assert_eq!(instruction.data, b"unsupported".to_vec());
}

#[test]
fn a_fresh_instruction_carries_template_and_operand_count() {
    let instruction = Instruction::from_str(b"addi");
    assert_eq!(instruction.command, Command::Addi);
    assert_eq!(instruction.data, b"0x001<RX>e<RD><IMM>".to_vec());
    assert_eq!(instruction.no_inputs, 3);
}
