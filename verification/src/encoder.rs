//! The instruction encoder: resolve the operands of a tokenized line and
//! substitute them into the command's machine-word template.

use vstd::prelude::*;

use crate::ascii::{spec_views, spec_parse_u8, spec_hex2, spec_hex_digit, hex_digit, hex2};
use crate::commands::{Command, spec_command_of, spec_template, spec_arity};
use crate::errors::AsmError;
use crate::registers::spec_resolve_register;
use crate::registers::{Register, to_upper};

verus! {

/// The destination-register encoding of `load`/`loadi`: the register
/// ordinal shifted left once with the low bit set, as one lowercase
/// hexadecimal digit. The argument is the register's plain digit byte.
pub open spec fn spec_double_digit(d: u8) -> u8
    recommends
        ('0' as u8) <= d <= ('5' as u8),
{
    spec_hex_digit((2 * (d - ('0' as u8)) + 1) as u8)
}

/// The encoded machine word of a command applied to the tokens of its
/// source line (token 0 is the mnemonic), or the failure that stops the
/// encoding: an unresolvable register or a malformed immediate, checked
/// in the command's operand order.
pub open spec fn spec_fill(c: Command, toks: Seq<Seq<u8>>) -> Result<Seq<u8>, AsmError>
    recommends
        c is Undefined || toks.len() == 1 + spec_arity(c),
{
    match c {
        Command::Mov => match (spec_resolve_register(toks[1]), spec_resolve_register(toks[2])) {
            (Some(rd), Some(rx)) => Ok(
                seq![
                    ('0' as u8),
                    ('x' as u8),
                    ('0' as u8),
                    ('0' as u8),
                    ('1' as u8),
                    rx,
                    ('6' as u8),
                    rd,
                    ('0' as u8),
                    ('0' as u8),
                ],
            ),
            _ => Err(AsmError::UnsupportedRegister),
        },
        Command::Movi => match spec_resolve_register(toks[1]) {
            Some(rd) => match spec_parse_u8(toks[2]) {
                Some(n) => Ok(
                    seq![
                        ('0' as u8),
                        ('x' as u8),
                        ('0' as u8),
                        ('0' as u8),
                        ('1' as u8),
                        ('6' as u8),
                        ('8' as u8),
                        rd,
                    ] + spec_hex2(n),
                ),
                None => Err(AsmError::MalformedImmediate),
            },
            None => Err(AsmError::UnsupportedRegister),
        },
        Command::Nop => Ok(spec_template(Command::Nop)),
        Command::Jump => match spec_resolve_register(toks[1]) {
            Some(rx) => Ok(
                seq![
                    ('0' as u8),
                    ('x' as u8),
                    ('0' as u8),
                    ('1' as u8),
                    ('1' as u8),
                    rx,
                    ('6' as u8),
                    ('6' as u8),
                    ('0' as u8),
                    ('0' as u8),
                ],
            ),
            None => Err(AsmError::UnsupportedRegister),
        },
        Command::Jumpi => match spec_parse_u8(toks[1]) {
            Some(n) => Ok(
                seq![
                    ('0' as u8),
                    ('x' as u8),
                    ('0' as u8),
                    ('1' as u8),
                    ('1' as u8),
                    ('6' as u8),
                    ('e' as u8),
                    ('6' as u8),
                ] + spec_hex2(n),
            ),
            None => Err(AsmError::MalformedImmediate),
        },
        Command::Jz => match spec_resolve_register(toks[1]) {
            Some(rx) => match spec_parse_u8(toks[2]) {
                Some(n) => Ok(
                    seq![
                        ('0' as u8),
                        ('x' as u8),
                        ('0' as u8),
                        ('2' as u8),
                        ('3' as u8),
                        rx,
                        ('e' as u8),
                        ('6' as u8),
                    ] + spec_hex2(n),
                ),
                None => Err(AsmError::MalformedImmediate),
            },
            None => Err(AsmError::UnsupportedRegister),
        },
        Command::Jnz => match spec_resolve_register(toks[1]) {
            Some(rx) => match spec_parse_u8(toks[2]) {
                Some(n) => Ok(
                    seq![
                        ('0' as u8),
                        ('x' as u8),
                        ('0' as u8),
                        ('3' as u8),
                        ('3' as u8),
                        rx,
                        ('e' as u8),
                        ('6' as u8),
                    ] + spec_hex2(n),
                ),
                None => Err(AsmError::MalformedImmediate),
            },
            None => Err(AsmError::UnsupportedRegister),
        },
        Command::Add => match (
            spec_resolve_register(toks[1]),
            spec_resolve_register(toks[2]),
            spec_resolve_register(toks[3]),
        ) {
            (Some(rd), Some(rx), Some(ry)) => Ok(
                seq![
                    ('0' as u8),
                    ('x' as u8),
                    ('0' as u8),
                    ('0' as u8),
                    ('1' as u8),
                    rx,
                    ry,
                    rd,
                    ('0' as u8),
                    ('0' as u8),
                ],
            ),
            _ => Err(AsmError::UnsupportedRegister),
        },
        Command::Addi => match (spec_resolve_register(toks[1]), spec_resolve_register(toks[2])) {
            (Some(rd), Some(rx)) => match spec_parse_u8(toks[3]) {
                Some(n) => Ok(
                    seq![
                        ('0' as u8),
                        ('x' as u8),
                        ('0' as u8),
                        ('0' as u8),
                        ('1' as u8),
                        rx,
                        ('e' as u8),
                        rd,
                    ] + spec_hex2(n),
                ),
                None => Err(AsmError::MalformedImmediate),
            },
            _ => Err(AsmError::UnsupportedRegister),
        },
        Command::And => match (
            spec_resolve_register(toks[1]),
            spec_resolve_register(toks[2]),
            spec_resolve_register(toks[3]),
        ) {
            (Some(rd), Some(rx), Some(ry)) => Ok(
                seq![
                    ('0' as u8),
                    ('x' as u8),
                    ('0' as u8),
                    ('0' as u8),
                    ('0' as u8),
                    rx,
                    ry,
                    rd,
                    ('0' as u8),
                    ('0' as u8),
                ],
            ),
            _ => Err(AsmError::UnsupportedRegister),
        },
        Command::Andi => match (spec_resolve_register(toks[1]), spec_resolve_register(toks[2])) {
            (Some(rd), Some(rx)) => match spec_parse_u8(toks[3]) {
                Some(n) => Ok(
                    seq![
                        ('0' as u8),
                        ('x' as u8),
                        ('0' as u8),
                        ('0' as u8),
                        ('0' as u8),
                        rx,
                        ('e' as u8),
                        rd,
                    ] + spec_hex2(n),
                ),
                None => Err(AsmError::MalformedImmediate),
            },
            _ => Err(AsmError::UnsupportedRegister),
        },
        Command::Load => match (spec_resolve_register(toks[1]), spec_resolve_register(toks[2])) {
            (Some(rd), Some(rx)) => Ok(
                seq![
                    ('0' as u8),
                    ('x' as u8),
                    ('0' as u8),
                    ('0' as u8),
                    ('1' as u8),
                    rx,
                    ('6' as u8),
                    spec_double_digit(rd),
                    ('0' as u8),
                    ('0' as u8),
                ],
            ),
            _ => Err(AsmError::UnsupportedRegister),
        },
        Command::Loadi => match spec_resolve_register(toks[1]) {
            Some(rd) => match spec_parse_u8(toks[2]) {
                Some(n) => Ok(
                    seq![
                        ('0' as u8),
                        ('x' as u8),
                        ('0' as u8),
                        ('0' as u8),
                        ('1' as u8),
                        ('6' as u8),
                        ('e' as u8),
                        spec_double_digit(rd),
                    ] + spec_hex2(n),
                ),
                None => Err(AsmError::MalformedImmediate),
            },
            None => Err(AsmError::UnsupportedRegister),
        },
        Command::Undefined => Err(AsmError::UndefinedCommand),
    }
}

/// Encoding `nop` never fails and yields its fixed template unchanged,
/// whatever the line's tokens are.
pub proof fn lemma_nop_encodes(toks: Seq<Seq<u8>>)
    ensures
        spec_fill(Command::Nop, toks) == Ok::<Seq<u8>, AsmError>(spec_template(Command::Nop)),
{
}

/// No successfully encoded machine word has a placeholder left in it:
/// every placeholder marker is substituted away before the word can be
/// emitted. Placeholders are delimited by `<` and `>`, and no resolved
/// operand or literal template byte is either delimiter.
pub proof fn lemma_encoded_no_placeholders(c: Command, toks: Seq<Seq<u8>>)
    ensures
        spec_fill(c, toks) matches Ok(w) ==> forall|j: int|
            0 <= j < w.len() ==> w[j] != ('<' as u8) && w[j] != ('>' as u8),
{
    if spec_fill(c, toks) is Ok {
        let w = spec_fill(c, toks)->Ok_0;
        match c {
            Command::Mov | Command::Add | Command::And | Command::Load => {
                crate::registers::lemma_register_resolution(toks[1]);
                crate::registers::lemma_register_resolution(toks[2]);
                if c is Add || c is And {
                    crate::registers::lemma_register_resolution(toks[3]);
                }
                assert forall|j: int| 0 <= j < w.len() implies w[j] != ('<' as u8) && w[j] != (
                '>' as u8) by {}
            },
            Command::Movi | Command::Loadi | Command::Jz | Command::Jnz => {
                crate::registers::lemma_register_resolution(toks[1]);
                if let Some(n) = spec_parse_u8(toks[2]) {
                    crate::ascii::lemma_hex2_value(n);
                }
                assert forall|j: int| 0 <= j < w.len() implies w[j] != ('<' as u8) && w[j] != (
                '>' as u8) by {}
            },
            Command::Jump => {
                crate::registers::lemma_register_resolution(toks[1]);
                assert forall|j: int| 0 <= j < w.len() implies w[j] != ('<' as u8) && w[j] != (
                '>' as u8) by {}
            },
            Command::Jumpi => {
                if let Some(n) = spec_parse_u8(toks[1]) {
                    crate::ascii::lemma_hex2_value(n);
                }
                assert forall|j: int| 0 <= j < w.len() implies w[j] != ('<' as u8) && w[j] != (
                '>' as u8) by {}
            },
            Command::Addi | Command::Andi => {
                crate::registers::lemma_register_resolution(toks[1]);
                crate::registers::lemma_register_resolution(toks[2]);
                if let Some(n) = spec_parse_u8(toks[3]) {
                    crate::ascii::lemma_hex2_value(n);
                }
                assert forall|j: int| 0 <= j < w.len() implies w[j] != ('<' as u8) && w[j] != (
                '>' as u8) by {}
            },
            Command::Nop => {
                assert forall|j: int| 0 <= j < w.len() implies w[j] != ('<' as u8) && w[j] != (
                '>' as u8) by {}
            },
            Command::Undefined => {
            },
        }
    }
}

/// One parsed source line: its command, the template being filled, and
/// the operand count the command requires.
#[derive(Debug)]
pub struct Instruction {
    pub command: Command,
    pub data: Vec<u8>,
    pub no_inputs: i8,
}

impl Instruction {
    /// A freshly parsed instruction holds its command's own template and
    /// operand count.
    pub open spec fn wf(self) -> bool {
        self.data@ == spec_template(self.command) && self.no_inputs as int == spec_arity(
            self.command,
        )
    }

    /// Parse a mnemonic token into an instruction carrying the matching
    /// command's template and required operand count.
    pub fn from_str(s: &[u8]) -> (r: Instruction)
        ensures
            r.command == spec_command_of(s@),
            r.wf(),
    {
        let command = Command::from_mnemonic(s);
        let data = command.parse_command();
        let no_inputs = command.parse_inputs();
        Instruction { command, data, no_inputs }
    }
}

/// Resolve the register named by the token at `index`: uppercase it,
/// look it up, encode it as a digit. `None` is the failure sentinel.
pub fn get_parsed_register(data: &Vec<Vec<u8>>, index: usize) -> (r: Option<u8>)
    requires
        index < data@.len(),
    ensures
        r == spec_resolve_register(data@[index as int]@),
{
    let up = to_upper(data[index].as_slice());
    Register::from_str(up.as_slice()).parse()
}

/// Resolve the immediate token at `index`: parse it as an unsigned 8-bit
/// decimal integer and render it as two lowercase hexadecimal digits.
pub fn get_imm(data: &Vec<Vec<u8>>, index: usize) -> (r: Result<Vec<u8>, AsmError>)
    requires
        index < data@.len(),
    ensures
        match spec_parse_u8(data@[index as int]@) {
            Some(n) => r matches Ok(v) && v@ == spec_hex2(n),
            None => r matches Err(e) && e == AsmError::MalformedImmediate,
        },
{
    match crate::ascii::parse_u8_dec(data[index].as_slice()) {
        Some(n) => Ok(hex2(n)),
        None => Err(AsmError::MalformedImmediate),
    }
}

/// The `load`/`loadi` destination transform: from a register's digit
/// byte to the hexadecimal digit of twice its ordinal plus one.
pub fn add_one_in_first(reg: u8) -> (r: u8)
    requires
        ('0' as u8) <= reg <= ('5' as u8),
    ensures
        r == spec_double_digit(reg),
{
    hex_digit((reg - ('0' as u8)) * 2 + 1)
}

/// Fill the instruction's template from the line's tokens, in the
/// command's operand order, leaving the encoded machine word in `data`.
/// On failure the instruction is unchanged and the line must be dropped.
pub fn fill_instruction(instruction: &mut Instruction, input_data: &Vec<Vec<u8>>) -> (r: Result<
    (),
    AsmError,
>)
    requires
        old(instruction).wf(),
        !(old(instruction).command is Undefined) ==> input_data@.len() == 1 + spec_arity(
            old(instruction).command,
        ),
    ensures
        final(instruction).command == old(instruction).command,
        final(instruction).no_inputs == old(instruction).no_inputs,
        match spec_fill(old(instruction).command, spec_views(input_data@)) {
            Ok(w) => r is Ok && final(instruction).data@ == w,
            Err(e) => r == Result::<(), AsmError>::Err(e) && final(instruction).data@ == old(
                instruction,
            ).data@,
        },
{
    let ghost toks = spec_views(input_data@);
    let new_data: Vec<u8> = match instruction.command {
        Command::Mov => {
            let rd = get_parsed_register(input_data, 1);
            let rx = get_parsed_register(input_data, 2);
            match (rd, rx) {
                (Some(rd), Some(rx)) => {
                    let w: Vec<u8> = vec![
                        ('0' as u8),
                        ('x' as u8),
                        ('0' as u8),
                        ('0' as u8),
                        ('1' as u8),
                        rx,
                        ('6' as u8),
                        rd,
                        ('0' as u8),
                        ('0' as u8),
                    ];
                    proof {
                        assert(spec_fill(instruction.command, toks) matches Ok(v) && v =~= w@);
                    }
                    w
                },
                _ => {
                    return Err(AsmError::UnsupportedRegister);
                },
            }
        },
        Command::Movi => {
            let rd = match get_parsed_register(input_data, 1) {
                Some(rd) => rd,
                None => {
                    return Err(AsmError::UnsupportedRegister);
                },
            };
            let imm = match get_imm(input_data, 2) {
                Ok(imm) => imm,
                Err(e) => {
                    return Err(e);
                },
            };
            let mut w: Vec<u8> = vec![
                ('0' as u8),
                ('x' as u8),
                ('0' as u8),
                ('0' as u8),
                ('1' as u8),
                ('6' as u8),
                ('8' as u8),
                rd,
            ];
            w.extend_from_slice(imm.as_slice());
            proof {
                assert(spec_fill(instruction.command, toks) matches Ok(v) && v =~= w@);
            }
            w
        },
        Command::Nop => {
            let w = instruction.command.parse_command();
            w
        },
        Command::Jump => {
            let rx = match get_parsed_register(input_data, 1) {
                Some(rx) => rx,
                None => {
                    return Err(AsmError::UnsupportedRegister);
                },
            };
            let w: Vec<u8> = vec![
                ('0' as u8),
                ('x' as u8),
                ('0' as u8),
                ('1' as u8),
                ('1' as u8),
                rx,
                ('6' as u8),
                ('6' as u8),
                ('0' as u8),
                ('0' as u8),
            ];
            proof {
                assert(spec_fill(instruction.command, toks) matches Ok(v) && v =~= w@);
            }
            w
        },
        Command::Jumpi => {
            let imm = match get_imm(input_data, 1) {
                Ok(imm) => imm,
                Err(e) => {
                    return Err(e);
                },
            };
            let mut w: Vec<u8> = vec![
                ('0' as u8),
                ('x' as u8),
                ('0' as u8),
                ('1' as u8),
                ('1' as u8),
                ('6' as u8),
                ('e' as u8),
                ('6' as u8),
            ];
            w.extend_from_slice(imm.as_slice());
            proof {
                assert(spec_fill(instruction.command, toks) matches Ok(v) && v =~= w@);
            }
            w
        },
        Command::Jz => {
            let rx = match get_parsed_register(input_data, 1) {
                Some(rx) => rx,
                None => {
                    return Err(AsmError::UnsupportedRegister);
                },
            };
            let imm = match get_imm(input_data, 2) {
                Ok(imm) => imm,
                Err(e) => {
                    return Err(e);
                },
            };
            let mut w: Vec<u8> = vec![
                ('0' as u8),
                ('x' as u8),
                ('0' as u8),
                ('2' as u8),
                ('3' as u8),
                rx,
                ('e' as u8),
                ('6' as u8),
            ];
            w.extend_from_slice(imm.as_slice());
            proof {
                assert(spec_fill(instruction.command, toks) matches Ok(v) && v =~= w@);
            }
            w
        },
        Command::Jnz => {
            let rx = match get_parsed_register(input_data, 1) {
                Some(rx) => rx,
                None => {
                    return Err(AsmError::UnsupportedRegister);
                },
            };
            let imm = match get_imm(input_data, 2) {
                Ok(imm) => imm,
                Err(e) => {
                    return Err(e);
                },
            };
            let mut w: Vec<u8> = vec![
                ('0' as u8),
                ('x' as u8),
                ('0' as u8),
                ('3' as u8),
                ('3' as u8),
                rx,
                ('e' as u8),
                ('6' as u8),
            ];
            w.extend_from_slice(imm.as_slice());
            proof {
                assert(spec_fill(instruction.command, toks) matches Ok(v) && v =~= w@);
            }
            w
        },
        Command::Add => {
            let rd = get_parsed_register(input_data, 1);
            let rx = get_parsed_register(input_data, 2);
            let ry = get_parsed_register(input_data, 3);
            match (rd, rx, ry) {
                (Some(rd), Some(rx), Some(ry)) => {
                    let w: Vec<u8> = vec![
                        ('0' as u8),
                        ('x' as u8),
                        ('0' as u8),
                        ('0' as u8),
                        ('1' as u8),
                        rx,
                        ry,
                        rd,
                        ('0' as u8),
                        ('0' as u8),
                    ];
                    proof {
                        assert(spec_fill(instruction.command, toks) matches Ok(v) && v =~= w@);
                    }
                    w
                },
                _ => {
                    return Err(AsmError::UnsupportedRegister);
                },
            }
        },
        Command::Addi => {
            let rd = get_parsed_register(input_data, 1);
            let rx = get_parsed_register(input_data, 2);
            match (rd, rx) {
                (Some(rd), Some(rx)) => {
                    let imm = match get_imm(input_data, 3) {
                        Ok(imm) => imm,
                        Err(e) => {
                            return Err(e);
                        },
                    };
                    let mut w: Vec<u8> = vec![
                        ('0' as u8),
                        ('x' as u8),
                        ('0' as u8),
                        ('0' as u8),
                        ('1' as u8),
                        rx,
                        ('e' as u8),
                        rd,
                    ];
                    w.extend_from_slice(imm.as_slice());
                    proof {
                        assert(spec_fill(instruction.command, toks) matches Ok(v) && v =~= w@);
                    }
                    w
                },
                _ => {
                    return Err(AsmError::UnsupportedRegister);
                },
            }
        },
        Command::And => {
            let rd = get_parsed_register(input_data, 1);
            let rx = get_parsed_register(input_data, 2);
            let ry = get_parsed_register(input_data, 3);
            match (rd, rx, ry) {
                (Some(rd), Some(rx), Some(ry)) => {
                    let w: Vec<u8> = vec![
                        ('0' as u8),
                        ('x' as u8),
                        ('0' as u8),
                        ('0' as u8),
                        ('0' as u8),
                        rx,
                        ry,
                        rd,
                        ('0' as u8),
                        ('0' as u8),
                    ];
                    proof {
                        assert(spec_fill(instruction.command, toks) matches Ok(v) && v =~= w@);
                    }
                    w
                },
                _ => {
                    return Err(AsmError::UnsupportedRegister);
                },
            }
        },
        Command::Andi => {
            let rd = get_parsed_register(input_data, 1);
            let rx = get_parsed_register(input_data, 2);
            match (rd, rx) {
                (Some(rd), Some(rx)) => {
                    let imm = match get_imm(input_data, 3) {
                        Ok(imm) => imm,
                        Err(e) => {
                            return Err(e);
                        },
                    };
                    let mut w: Vec<u8> = vec![
                        ('0' as u8),
                        ('x' as u8),
                        ('0' as u8),
                        ('0' as u8),
                        ('0' as u8),
                        rx,
                        ('e' as u8),
                        rd,
                    ];
                    w.extend_from_slice(imm.as_slice());
                    proof {
                        assert(spec_fill(instruction.command, toks) matches Ok(v) && v =~= w@);
                    }
                    w
                },
                _ => {
                    return Err(AsmError::UnsupportedRegister);
                },
            }
        },
        Command::Load => {
            let rd = get_parsed_register(input_data, 1);
            let rx = get_parsed_register(input_data, 2);
            match (rd, rx) {
                (Some(rd), Some(rx)) => {
                    proof {
                        crate::registers::lemma_register_resolution(toks[1]);
                    }
                    let rds = add_one_in_first(rd);
                    let w: Vec<u8> = vec![
                        ('0' as u8),
                        ('x' as u8),
                        ('0' as u8),
                        ('0' as u8),
                        ('1' as u8),
                        rx,
                        ('6' as u8),
                        rds,
                        ('0' as u8),
                        ('0' as u8),
                    ];
                    proof {
                        assert(spec_fill(instruction.command, toks) matches Ok(v) && v =~= w@);
                    }
                    w
                },
                _ => {
                    return Err(AsmError::UnsupportedRegister);
                },
            }
        },
        Command::Loadi => {
            let rd = match get_parsed_register(input_data, 1) {
                Some(rd) => rd,
                None => {
                    return Err(AsmError::UnsupportedRegister);
                },
            };
            proof {
                crate::registers::lemma_register_resolution(toks[1]);
            }
            let rds = add_one_in_first(rd);
            let imm = match get_imm(input_data, 2) {
                Ok(imm) => imm,
                Err(e) => {
                    return Err(e);
                },
            };
            let mut w: Vec<u8> = vec![
                ('0' as u8),
                ('x' as u8),
                ('0' as u8),
                ('0' as u8),
                ('1' as u8),
                ('6' as u8),
                ('e' as u8),
                rds,
            ];
            w.extend_from_slice(imm.as_slice());
            proof {
                assert(spec_fill(instruction.command, toks) matches Ok(v) && v =~= w@);
            }
            w
        },
        Command::Undefined => {
            return Err(AsmError::UndefinedCommand);
        },
    };
    instruction.data = new_data;
    Ok(())
}

} // verus!
