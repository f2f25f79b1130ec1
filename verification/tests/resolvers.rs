//! Register and immediate resolver behaviour.

use asm2ms::encoder::{add_one_in_first, get_imm, get_parsed_register};
use asm2ms::errors::AsmError;
use asm2ms::registers::{to_upper, Register};

fn tokens(words: &[&str]) -> Vec<Vec<u8>> {
    words.iter().map(|w| w.as_bytes().to_vec()).collect()
}

#[test]
fn register_parse_returns_digits() {
    assert_eq!(Register::R0.parse(), Some(b'0'));
    assert_eq!(Register::R1.parse(), Some(b'1'));
    assert_eq!(Register::R2.parse(), Some(b'2'));
    assert_eq!(Register::R3.parse(), Some(b'3'));
    assert_eq!(Register::R4.parse(), Some(b'4'));
    assert_eq!(Register::R5.parse(), Some(b'5'));
}

#[test]
fn register_undefined_is_the_sentinel() {
    assert_eq!(Register::Undefined.parse(), None);
}

#[test]
fn register_lookup_is_exact() {
    assert_eq!(Register::from_str(b"R0"), Register::R0);
    assert_eq!(Register::from_str(b"R5"), Register::R5);
    assert_eq!(Register::from_str(b"R6"), Register::Undefined);
    assert_eq!(Register::from_str(b"R"), Register::Undefined);
    assert_eq!(Register::from_str(b"R11"), Register::Undefined);
    assert_eq!(Register::from_str(b""), Register::Undefined);
    // The lookup itself is case-sensitive; resolution uppercases first.
    assert_eq!(Register::from_str(b"r1"), Register::Undefined);
}

#[test]
fn uppercasing_reaches_the_lookup() {
    assert_eq!(to_upper(b"r3"), b"R3".to_vec());
    assert_eq!(to_upper(b"R3"), b"R3".to_vec());
    assert_eq!(to_upper(b"xY9,"), b"XY9,".to_vec());
}

#[test]
fn any_case_register_token_resolves() {
    let line = tokens(&["mov", "r2", "R4"]);
    assert_eq!(get_parsed_register(&line, 1), Some(b'2'));
    assert_eq!(get_parsed_register(&line, 2), Some(b'4'));
}

#[test]
fn unknown_register_token_resolves_to_the_sentinel() {
    let line = tokens(&["mov", "R9", "banana"]);
    assert_eq!(get_parsed_register(&line, 1), None);
    assert_eq!(get_parsed_register(&line, 2), None);
}

#[test]
fn immediate_is_two_lowercase_hex_digits() {
    assert_eq!(get_imm(&tokens(&["movi", "R0", "0"]), 2), Ok(b"00".to_vec()));
    assert_eq!(get_imm(&tokens(&["movi", "R0", "5"]), 2), Ok(b"05".to_vec()));
    assert_eq!(get_imm(&tokens(&["movi", "R0", "16"]), 2), Ok(b"10".to_vec()));
    assert_eq!(get_imm(&tokens(&["movi", "R0", "255"]), 2), Ok(b"ff".to_vec()));
}

#[test]
fn immediate_accepts_a_leading_plus() {
    assert_eq!(get_imm(&tokens(&["movi", "R0", "+7"]), 2), Ok(b"07".to_vec()));
}

#[test]
fn immediate_out_of_range_is_malformed() {
    assert_eq!(
        get_imm(&tokens(&["movi", "R0", "256"]), 2),
        Err(AsmError::MalformedImmediate)
    );
    assert_eq!(
        get_imm(&tokens(&["movi", "R0", "1000"]), 2),
        Err(AsmError::MalformedImmediate)
    );
    assert_eq!(
        get_imm(&tokens(&["movi", "R0", "-1"]), 2),
        Err(AsmError::MalformedImmediate)
    );
}

#[test]
fn immediate_non_numeric_is_malformed() {
    assert_eq!(
        get_imm(&tokens(&["movi", "R0", "abc"]), 2),
        Err(AsmError::MalformedImmediate)
    );
    assert_eq!(
        get_imm(&tokens(&["movi", "R0", ""]), 2),
        Err(AsmError::MalformedImmediate)
    );
    assert_eq!(
        get_imm(&tokens(&["movi", "R0", "1 2"]), 2),
        Err(AsmError::MalformedImmediate)
    );
    assert_eq!(
        get_imm(&tokens(&["movi", "R0", "+"]), 2),
        Err(AsmError::MalformedImmediate)
    );
}

#[test]
fn doubling_transform_shifts_and_sets_the_low_bit() {
    assert_eq!(add_one_in_first(b'0'), b'1');
    assert_eq!(add_one_in_first(b'1'), b'3');
    assert_eq!(add_one_in_first(b'2'), b'5');
    assert_eq!(add_one_in_first(b'3'), b'7');
    assert_eq!(add_one_in_first(b'4'), b'9');
    assert_eq!(add_one_in_first(b'5'), b'b');
}
