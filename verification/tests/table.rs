//! The instruction table: mnemonic lookup, templates, operand counts.

use asm2ms::commands::Command;

#[test]
fn every_mnemonic_is_found() {
    assert_eq!(Command::from_mnemonic(b"mov"), Command::Mov);
    assert_eq!(Command::from_mnemonic(b"movi"), Command::Movi);
    assert_eq!(Command::from_mnemonic(b"nop"), Command::Nop);
    assert_eq!(Command::from_mnemonic(b"jump"), Command::Jump);
    assert_eq!(Command::from_mnemonic(b"jumpi"), Command::Jumpi);
    assert_eq!(Command::from_mnemonic(b"jz"), Command::Jz);
    assert_eq!(Command::from_mnemonic(b"jnz"), Command::Jnz);
    assert_eq!(Command::from_mnemonic(b"add"), Command::Add);
    assert_eq!(Command::from_mnemonic(b"addi"), Command::Addi);
    assert_eq!(Command::from_mnemonic(b"and"), Command::And);
    assert_eq!(Command::from_mnemonic(b"andi"), Command::Andi);
    assert_eq!(Command::from_mnemonic(b"load"), Command::Load);
    assert_eq!(Command::from_mnemonic(b"loadi"), Command::Loadi);
}

#[test]
fn unknown_mnemonics_are_undefined() {
    assert_eq!(Command::from_mnemonic(b"xyz"), Command::Undefined);
    assert_eq!(Command::from_mnemonic(b""), Command::Undefined);
    assert_eq!(Command::from_mnemonic(b"MOV"), Command::Undefined);
    assert_eq!(Command::from_mnemonic(b"movq"), Command::Undefined);
}

#[test]
fn templates_match_the_instruction_set() {
    assert_eq!(Command::Mov.parse_command(), b"0x001<RX>6<RD>00".to_vec());
    assert_eq!(Command::Movi.parse_command(), b"0x00168<RD><IMM>".to_vec());
    assert_eq!(Command::Nop.parse_command(), b"0x00166600".to_vec());
    assert_eq!(Command::Jump.parse_command(), b"0x011<RX>6600".to_vec());
    assert_eq!(Command::Jumpi.parse_command(), b"0x0116e6<IMM>".to_vec());
    assert_eq!(Command::Jz.parse_command(), b"0x023<RX>e6<IMM>".to_vec());
    assert_eq!(Command::Jnz.parse_command(), b"0x033<RX>e6<IMM>".to_vec());
    assert_eq!(Command::Add.parse_command(), b"0x001<RX><RY><RD>00".to_vec());
    assert_eq!(Command::Addi.parse_command(), b"0x001<RX>e<RD><IMM>".to_vec());
    assert_eq!(Command::And.parse_command(), b"0x000<RX><RY><RD>00".to_vec());
    assert_eq!(Command::Andi.parse_command(), b"0x000<RX>e<RD><IMM>".to_vec());
    assert_eq!(Command::Load.parse_command(), b"0x001<RX>6<RD*>00".to_vec());
    assert_eq!(Command::Loadi.parse_command(), b"0x0016e<RD*><IMM>".to_vec());
    assert_eq!(Command::Undefined.parse_command(), b"unsupported".to_vec());
}

#[test]
fn operand_counts_match_the_instruction_set() {
    assert_eq!(Command::Nop.parse_inputs(), 0);
    assert_eq!(Command::Jump.parse_inputs(), 1);
    assert_eq!(Command::Jumpi.parse_inputs(), 1);
    assert_eq!(Command::Mov.parse_inputs(), 2);
    assert_eq!(Command::Movi.parse_inputs(), 2);
    assert_eq!(Command::Jz.parse_inputs(), 2);
    assert_eq!(Command::Jnz.parse_inputs(), 2);
    assert_eq!(Command::Load.parse_inputs(), 2);
    assert_eq!(Command::Loadi.parse_inputs(), 2);
    assert_eq!(Command::Add.parse_inputs(), 3);
    assert_eq!(Command::Addi.parse_inputs(), 3);
    assert_eq!(Command::And.parse_inputs(), 3);
    assert_eq!(Command::Andi.parse_inputs(), 3);
    assert_eq!(Command::Undefined.parse_inputs(), -128);
}
