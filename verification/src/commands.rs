//! The instruction table: the commands of the machine, each with its
//! machine-word template and its required operand count.

use vstd::prelude::*;

use crate::ascii::bytes_eq;

verus! {

/// A command of the machine, or `Undefined` for any unrecognized
/// mnemonic.
#[derive(Clone, Copy, Debug, PartialEq, Eq, Structural)]
pub enum Command {
    Mov,
    Movi,
    Nop,
    Jump,
    Jumpi,
    Jz,
    Jnz,
    Add,
    Addi,
    And,
    Andi,
    Load,
    Loadi,
    Undefined,
}

/// The mnemonic that names a command; empty for `Undefined`.
pub open spec fn spec_mnemonic(c: Command) -> Seq<u8> {
    match c {
        Command::Mov => seq![('m' as u8), ('o' as u8), ('v' as u8)],
        Command::Movi => seq![('m' as u8), ('o' as u8), ('v' as u8), ('i' as u8)],
        Command::Nop => seq![('n' as u8), ('o' as u8), ('p' as u8)],
        Command::Jump => seq![('j' as u8), ('u' as u8), ('m' as u8), ('p' as u8)],
        Command::Jumpi => seq![('j' as u8), ('u' as u8), ('m' as u8), ('p' as u8), ('i' as u8)],
        Command::Jz => seq![('j' as u8), ('z' as u8)],
        Command::Jnz => seq![('j' as u8), ('n' as u8), ('z' as u8)],
        Command::Add => seq![('a' as u8), ('d' as u8), ('d' as u8)],
        Command::Addi => seq![('a' as u8), ('d' as u8), ('d' as u8), ('i' as u8)],
        Command::And => seq![('a' as u8), ('n' as u8), ('d' as u8)],
        Command::Andi => seq![('a' as u8), ('n' as u8), ('d' as u8), ('i' as u8)],
        Command::Load => seq![('l' as u8), ('o' as u8), ('a' as u8), ('d' as u8)],
        Command::Loadi => seq![('l' as u8), ('o' as u8), ('a' as u8), ('d' as u8), ('i' as u8)],
        Command::Undefined => seq![],
    }
}

/// The command named by a mnemonic token, matched literally (lowercase
/// only); `Undefined` for every other token.
pub open spec fn spec_command_of(m: Seq<u8>) -> Command {
    if m == spec_mnemonic(Command::Mov) {
        Command::Mov
    } else if m == spec_mnemonic(Command::Movi) {
        Command::Movi
    } else if m == spec_mnemonic(Command::Nop) {
        Command::Nop
    } else if m == spec_mnemonic(Command::Jump) {
        Command::Jump
    } else if m == spec_mnemonic(Command::Jumpi) {
        Command::Jumpi
    } else if m == spec_mnemonic(Command::Jz) {
        Command::Jz
    } else if m == spec_mnemonic(Command::Jnz) {
        Command::Jnz
    } else if m == spec_mnemonic(Command::Add) {
        Command::Add
    } else if m == spec_mnemonic(Command::Addi) {
        Command::Addi
    } else if m == spec_mnemonic(Command::And) {
        Command::And
    } else if m == spec_mnemonic(Command::Andi) {
        Command::Andi
    } else if m == spec_mnemonic(Command::Load) {
        Command::Load
    } else if m == spec_mnemonic(Command::Loadi) {
        Command::Loadi
    } else {
        Command::Undefined
    }
}

/// The machine-word template of a command, with the named placeholders
/// `<RD>`, `<RX>`, `<RY>`, `<RD*>` and `<IMM>` still to be filled;
/// `unsupported` for `Undefined`.
pub open spec fn spec_template(c: Command) -> Seq<u8> {
    match c {
        // 0x001<RX>6<RD>00
        Command::Mov => seq![
            ('0' as u8),
            ('x' as u8),
            ('0' as u8),
            ('0' as u8),
            ('1' as u8),
            ('<' as u8),
            ('R' as u8),
            ('X' as u8),
            ('>' as u8),
            ('6' as u8),
            ('<' as u8),
            ('R' as u8),
            ('D' as u8),
            ('>' as u8),
            ('0' as u8),
            ('0' as u8),
        ],
        // 0x00168<RD><IMM>
        Command::Movi => seq![
            ('0' as u8),
            ('x' as u8),
            ('0' as u8),
            ('0' as u8),
            ('1' as u8),
            ('6' as u8),
            ('8' as u8),
            ('<' as u8),
            ('R' as u8),
            ('D' as u8),
            ('>' as u8),
            ('<' as u8),
            ('I' as u8),
            ('M' as u8),
            ('M' as u8),
            ('>' as u8),
        ],
        // 0x00166600
        Command::Nop => seq![
            ('0' as u8),
            ('x' as u8),
            ('0' as u8),
            ('0' as u8),
            ('1' as u8),
            ('6' as u8),
            ('6' as u8),
            ('6' as u8),
            ('0' as u8),
            ('0' as u8),
        ],
        // 0x011<RX>6600
        Command::Jump => seq![
            ('0' as u8),
            ('x' as u8),
            ('0' as u8),
            ('1' as u8),
            ('1' as u8),
            ('<' as u8),
            ('R' as u8),
            ('X' as u8),
            ('>' as u8),
            ('6' as u8),
            ('6' as u8),
            ('0' as u8),
            ('0' as u8),
        ],
        // 0x0116e6<IMM>
        Command::Jumpi => seq![
            ('0' as u8),
            ('x' as u8),
            ('0' as u8),
            ('1' as u8),
            ('1' as u8),
            ('6' as u8),
            ('e' as u8),
            ('6' as u8),
            ('<' as u8),
            ('I' as u8),
            ('M' as u8),
            ('M' as u8),
            ('>' as u8),
        ],
        // 0x023<RX>e6<IMM>
        Command::Jz => seq![
            ('0' as u8),
            ('x' as u8),
            ('0' as u8),
            ('2' as u8),
            ('3' as u8),
            ('<' as u8),
            ('R' as u8),
            ('X' as u8),
            ('>' as u8),
            ('e' as u8),
            ('6' as u8),
            ('<' as u8),
            ('I' as u8),
            ('M' as u8),
            ('M' as u8),
            ('>' as u8),
        ],
        // 0x033<RX>e6<IMM>
        Command::Jnz => seq![
            ('0' as u8),
            ('x' as u8),
            ('0' as u8),
            ('3' as u8),
            ('3' as u8),
            ('<' as u8),
            ('R' as u8),
            ('X' as u8),
            ('>' as u8),
            ('e' as u8),
            ('6' as u8),
            ('<' as u8),
            ('I' as u8),
            ('M' as u8),
            ('M' as u8),
            ('>' as u8),
        ],
        // 0x001<RX><RY><RD>00
        Command::Add => seq![
            ('0' as u8),
            ('x' as u8),
            ('0' as u8),
            ('0' as u8),
            ('1' as u8),
            ('<' as u8),
            ('R' as u8),
            ('X' as u8),
            ('>' as u8),
            ('<' as u8),
            ('R' as u8),
            ('Y' as u8),
            ('>' as u8),
            ('<' as u8),
            ('R' as u8),
            ('D' as u8),
            ('>' as u8),
            ('0' as u8),
            ('0' as u8),
        ],
        // 0x001<RX>e<RD><IMM>
        Command::Addi => seq![
            ('0' as u8),
            ('x' as u8),
            ('0' as u8),
            ('0' as u8),
            ('1' as u8),
            ('<' as u8),
            ('R' as u8),
            ('X' as u8),
            ('>' as u8),
            ('e' as u8),
            ('<' as u8),
            ('R' as u8),
            ('D' as u8),
            ('>' as u8),
            ('<' as u8),
            ('I' as u8),
            ('M' as u8),
            ('M' as u8),
            ('>' as u8),
        ],
        // 0x000<RX><RY><RD>00
        Command::And => seq![
            ('0' as u8),
            ('x' as u8),
            ('0' as u8),
            ('0' as u8),
            ('0' as u8),
            ('<' as u8),
            ('R' as u8),
            ('X' as u8),
            ('>' as u8),
            ('<' as u8),
            ('R' as u8),
            ('Y' as u8),
            ('>' as u8),
            ('<' as u8),
            ('R' as u8),
            ('D' as u8),
            ('>' as u8),
            ('0' as u8),
            ('0' as u8),
        ],
        // 0x000<RX>e<RD><IMM>
        Command::Andi => seq![
            ('0' as u8),
            ('x' as u8),
            ('0' as u8),
            ('0' as u8),
            ('0' as u8),
            ('<' as u8),
            ('R' as u8),
            ('X' as u8),
            ('>' as u8),
            ('e' as u8),
            ('<' as u8),
            ('R' as u8),
            ('D' as u8),
            ('>' as u8),
            ('<' as u8),
            ('I' as u8),
            ('M' as u8),
            ('M' as u8),
            ('>' as u8),
        ],
        // 0x001<RX>6<RD*>00
        Command::Load => seq![
            ('0' as u8),
            ('x' as u8),
            ('0' as u8),
            ('0' as u8),
            ('1' as u8),
            ('<' as u8),
            ('R' as u8),
            ('X' as u8),
            ('>' as u8),
            ('6' as u8),
            ('<' as u8),
            ('R' as u8),
            ('D' as u8),
            ('*' as u8),
            ('>' as u8),
            ('0' as u8),
            ('0' as u8),
        ],
        // 0x0016e<RD*><IMM>
        Command::Loadi => seq![
            ('0' as u8),
            ('x' as u8),
            ('0' as u8),
            ('0' as u8),
            ('1' as u8),
            ('6' as u8),
            ('e' as u8),
            ('<' as u8),
            ('R' as u8),
            ('D' as u8),
            ('*' as u8),
            ('>' as u8),
            ('<' as u8),
            ('I' as u8),
            ('M' as u8),
            ('M' as u8),
            ('>' as u8),
        ],
        // unsupported
        Command::Undefined => seq![
            ('u' as u8),
            ('n' as u8),
            ('s' as u8),
            ('u' as u8),
            ('p' as u8),
            ('p' as u8),
            ('o' as u8),
            ('r' as u8),
            ('t' as u8),
            ('e' as u8),
            ('d' as u8),
        ],
    }
}

/// The number of operands a command requires; the sentinel -128 for
/// `Undefined`, which no actual operand count can satisfy.
pub open spec fn spec_arity(c: Command) -> int {
    match c {
        Command::Nop => 0,
        Command::Jump => 1,
        Command::Jumpi => 1,
        Command::Mov => 2,
        Command::Movi => 2,
        Command::Jz => 2,
        Command::Jnz => 2,
        Command::Load => 2,
        Command::Loadi => 2,
        Command::Add => 3,
        Command::Addi => 3,
        Command::And => 3,
        Command::Andi => 3,
        Command::Undefined => -128,
    }
}

impl Command {
    /// Look a mnemonic token up in the instruction table. The table is
    /// total: every token maps to exactly one command or to `Undefined`.
    pub fn from_mnemonic(s: &[u8]) -> (c: Command)
        ensures
            c == spec_command_of(s@),
    {
        let m: Vec<u8> = vec![('m' as u8), ('o' as u8), ('v' as u8)];
        proof {
            assert(m@ =~= spec_mnemonic(Command::Mov));
        }
        if bytes_eq(s, m.as_slice()) {
            return Command::Mov;
        }
        let m: Vec<u8> = vec![('m' as u8), ('o' as u8), ('v' as u8), ('i' as u8)];
        proof {
            assert(m@ =~= spec_mnemonic(Command::Movi));
        }
        if bytes_eq(s, m.as_slice()) {
            return Command::Movi;
        }
        let m: Vec<u8> = vec![('n' as u8), ('o' as u8), ('p' as u8)];
        proof {
            assert(m@ =~= spec_mnemonic(Command::Nop));
        }
        if bytes_eq(s, m.as_slice()) {
            return Command::Nop;
        }
        let m: Vec<u8> = vec![('j' as u8), ('u' as u8), ('m' as u8), ('p' as u8)];
        proof {
            assert(m@ =~= spec_mnemonic(Command::Jump));
        }
        if bytes_eq(s, m.as_slice()) {
            return Command::Jump;
        }
        let m: Vec<u8> = vec![('j' as u8), ('u' as u8), ('m' as u8), ('p' as u8), ('i' as u8)];
        proof {
            assert(m@ =~= spec_mnemonic(Command::Jumpi));
        }
        if bytes_eq(s, m.as_slice()) {
            return Command::Jumpi;
        }
        let m: Vec<u8> = vec![('j' as u8), ('z' as u8)];
        proof {
            assert(m@ =~= spec_mnemonic(Command::Jz));
        }
        if bytes_eq(s, m.as_slice()) {
            return Command::Jz;
        }
        let m: Vec<u8> = vec![('j' as u8), ('n' as u8), ('z' as u8)];
        proof {
            assert(m@ =~= spec_mnemonic(Command::Jnz));
        }
        if bytes_eq(s, m.as_slice()) {
            return Command::Jnz;
        }
        let m: Vec<u8> = vec![('a' as u8), ('d' as u8), ('d' as u8)];
        proof {
            assert(m@ =~= spec_mnemonic(Command::Add));
        }
        if bytes_eq(s, m.as_slice()) {
            return Command::Add;
        }
        let m: Vec<u8> = vec![('a' as u8), ('d' as u8), ('d' as u8), ('i' as u8)];
        proof {
            assert(m@ =~= spec_mnemonic(Command::Addi));
        }
        if bytes_eq(s, m.as_slice()) {
            return Command::Addi;
        }
        let m: Vec<u8> = vec![('a' as u8), ('n' as u8), ('d' as u8)];
        proof {
            assert(m@ =~= spec_mnemonic(Command::And));
        }
        if bytes_eq(s, m.as_slice()) {
            return Command::And;
        }
        let m: Vec<u8> = vec![('a' as u8), ('n' as u8), ('d' as u8), ('i' as u8)];
        proof {
            assert(m@ =~= spec_mnemonic(Command::Andi));
        }
        if bytes_eq(s, m.as_slice()) {
            return Command::Andi;
        }
        let m: Vec<u8> = vec![('l' as u8), ('o' as u8), ('a' as u8), ('d' as u8)];
        proof {
            assert(m@ =~= spec_mnemonic(Command::Load));
        }
        if bytes_eq(s, m.as_slice()) {
            return Command::Load;
        }
        let m: Vec<u8> = vec![('l' as u8), ('o' as u8), ('a' as u8), ('d' as u8), ('i' as u8)];
        proof {
            assert(m@ =~= spec_mnemonic(Command::Loadi));
        }
        if bytes_eq(s, m.as_slice()) {
            return Command::Loadi;
        }
        Command::Undefined
    }

    /// The command's machine-word template, placeholders unfilled.
    pub fn parse_command(&self) -> (r: Vec<u8>)
        ensures
            r@ == spec_template(*self),
    {
        let r: Vec<u8> = match self {
            Command::Mov => vec![
                ('0' as u8),
                ('x' as u8),
                ('0' as u8),
                ('0' as u8),
                ('1' as u8),
                ('<' as u8),
                ('R' as u8),
                ('X' as u8),
                ('>' as u8),
                ('6' as u8),
                ('<' as u8),
                ('R' as u8),
                ('D' as u8),
                ('>' as u8),
                ('0' as u8),
                ('0' as u8),
            ],
            Command::Movi => vec![
                ('0' as u8),
                ('x' as u8),
                ('0' as u8),
                ('0' as u8),
                ('1' as u8),
                ('6' as u8),
                ('8' as u8),
                ('<' as u8),
                ('R' as u8),
                ('D' as u8),
                ('>' as u8),
                ('<' as u8),
                ('I' as u8),
                ('M' as u8),
                ('M' as u8),
                ('>' as u8),
            ],
            Command::Nop => vec![
                ('0' as u8),
                ('x' as u8),
                ('0' as u8),
                ('0' as u8),
                ('1' as u8),
                ('6' as u8),
                ('6' as u8),
                ('6' as u8),
                ('0' as u8),
                ('0' as u8),
            ],
            Command::Jump => vec![
                ('0' as u8),
                ('x' as u8),
                ('0' as u8),
                ('1' as u8),
                ('1' as u8),
                ('<' as u8),
                ('R' as u8),
                ('X' as u8),
                ('>' as u8),
                ('6' as u8),
                ('6' as u8),
                ('0' as u8),
                ('0' as u8),
            ],
            Command::Jumpi => vec![
                ('0' as u8),
                ('x' as u8),
                ('0' as u8),
                ('1' as u8),
                ('1' as u8),
                ('6' as u8),
                ('e' as u8),
                ('6' as u8),
                ('<' as u8),
                ('I' as u8),
                ('M' as u8),
                ('M' as u8),
                ('>' as u8),
            ],
            Command::Jz => vec![
                ('0' as u8),
                ('x' as u8),
                ('0' as u8),
                ('2' as u8),
                ('3' as u8),
                ('<' as u8),
                ('R' as u8),
                ('X' as u8),
                ('>' as u8),
                ('e' as u8),
                ('6' as u8),
                ('<' as u8),
                ('I' as u8),
                ('M' as u8),
                ('M' as u8),
                ('>' as u8),
            ],
            Command::Jnz => vec![
                ('0' as u8),
                ('x' as u8),
                ('0' as u8),
                ('3' as u8),
                ('3' as u8),
                ('<' as u8),
                ('R' as u8),
                ('X' as u8),
                ('>' as u8),
                ('e' as u8),
                ('6' as u8),
                ('<' as u8),
                ('I' as u8),
                ('M' as u8),
                ('M' as u8),
                ('>' as u8),
            ],
            Command::Add => vec![
                ('0' as u8),
                ('x' as u8),
                ('0' as u8),
                ('0' as u8),
                ('1' as u8),
                ('<' as u8),
                ('R' as u8),
                ('X' as u8),
                ('>' as u8),
                ('<' as u8),
                ('R' as u8),
                ('Y' as u8),
                ('>' as u8),
                ('<' as u8),
                ('R' as u8),
                ('D' as u8),
                ('>' as u8),
                ('0' as u8),
                ('0' as u8),
            ],
            Command::Addi => vec![
                ('0' as u8),
                ('x' as u8),
                ('0' as u8),
                ('0' as u8),
                ('1' as u8),
                ('<' as u8),
                ('R' as u8),
                ('X' as u8),
                ('>' as u8),
                ('e' as u8),
                ('<' as u8),
                ('R' as u8),
                ('D' as u8),
                ('>' as u8),
                ('<' as u8),
                ('I' as u8),
                ('M' as u8),
                ('M' as u8),
                ('>' as u8),
            ],
            Command::And => vec![
                ('0' as u8),
                ('x' as u8),
                ('0' as u8),
                ('0' as u8),
                ('0' as u8),
                ('<' as u8),
                ('R' as u8),
                ('X' as u8),
                ('>' as u8),
                ('<' as u8),
                ('R' as u8),
                ('Y' as u8),
                ('>' as u8),
                ('<' as u8),
                ('R' as u8),
                ('D' as u8),
                ('>' as u8),
                ('0' as u8),
                ('0' as u8),
            ],
            Command::Andi => vec![
                ('0' as u8),
                ('x' as u8),
                ('0' as u8),
                ('0' as u8),
                ('0' as u8),
                ('<' as u8),
                ('R' as u8),
                ('X' as u8),
                ('>' as u8),
                ('e' as u8),
                ('<' as u8),
                ('R' as u8),
                ('D' as u8),
                ('>' as u8),
                ('<' as u8),
                ('I' as u8),
                ('M' as u8),
                ('M' as u8),
                ('>' as u8),
            ],
            Command::Load => vec![
                ('0' as u8),
                ('x' as u8),
                ('0' as u8),
                ('0' as u8),
                ('1' as u8),
                ('<' as u8),
                ('R' as u8),
                ('X' as u8),
                ('>' as u8),
                ('6' as u8),
                ('<' as u8),
                ('R' as u8),
                ('D' as u8),
                ('*' as u8),
                ('>' as u8),
                ('0' as u8),
                ('0' as u8),
            ],
            Command::Loadi => vec![
                ('0' as u8),
                ('x' as u8),
                ('0' as u8),
                ('0' as u8),
                ('1' as u8),
                ('6' as u8),
                ('e' as u8),
                ('<' as u8),
                ('R' as u8),
                ('D' as u8),
                ('*' as u8),
                ('>' as u8),
                ('<' as u8),
                ('I' as u8),
                ('M' as u8),
                ('M' as u8),
                ('>' as u8),
            ],
            Command::Undefined => vec![
                ('u' as u8),
                ('n' as u8),
                ('s' as u8),
                ('u' as u8),
                ('p' as u8),
                ('p' as u8),
                ('o' as u8),
                ('r' as u8),
                ('t' as u8),
                ('e' as u8),
                ('d' as u8),
            ],
        };
        proof {
            assert(r@ =~= spec_template(*self));
        }
        r
    }

    /// The command's required operand count; -128 for `Undefined`.
    pub fn parse_inputs(&self) -> (r: i8)
        ensures
            r as int == spec_arity(*self),
    {
        match self {
            Command::Nop => 0,
            Command::Jump => 1,
            Command::Jumpi => 1,
            Command::Mov => 2,
            Command::Movi => 2,
            Command::Jz => 2,
            Command::Jnz => 2,
            Command::Load => 2,
            Command::Loadi => 2,
            Command::Add => 3,
            Command::Addi => 3,
            Command::And => 3,
            Command::Andi => 3,
            Command::Undefined => -128,
        }
    }
}

} // verus!
