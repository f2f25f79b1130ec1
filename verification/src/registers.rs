//! The register resolver: maps a register name token to its digit encoding.

use vstd::prelude::*;

verus! {

/// A register of the machine, or `Undefined` for any token that names none.
#[derive(Clone, Copy, Debug, PartialEq, Eq, Structural)]
pub enum Register {
    R0,
    R1,
    R2,
    R3,
    R4,
    R5,
    Undefined,
}

/// ASCII uppercasing of one byte: lowercase letters lose the case bit,
/// everything else is unchanged.
pub open spec fn spec_upper_byte(b: u8) -> u8 {
    if ('a' as u8) <= b && b <= ('z' as u8) {
        (b - 0x20) as u8
    } else {
        b
    }
}

/// ASCII uppercasing of a whole token.
pub open spec fn spec_upper(s: Seq<u8>) -> Seq<u8> {
    Seq::new(s.len(), |i: int| spec_upper_byte(s[i]))
}

/// The register that an already-uppercased token names.
pub open spec fn spec_register_of(s: Seq<u8>) -> Register {
    if s =~= seq![('R' as u8), ('0' as u8)] {
        Register::R0
    } else if s =~= seq![('R' as u8), ('1' as u8)] {
        Register::R1
    } else if s =~= seq![('R' as u8), ('2' as u8)] {
        Register::R2
    } else if s =~= seq![('R' as u8), ('3' as u8)] {
        Register::R3
    } else if s =~= seq![('R' as u8), ('4' as u8)] {
        Register::R4
    } else if s =~= seq![('R' as u8), ('5' as u8)] {
        Register::R5
    } else {
        Register::Undefined
    }
}

/// The ordinal of a register, or `None` for `Undefined`.
pub open spec fn spec_register_ordinal(r: Register) -> Option<u8> {
    match r {
        Register::R0 => Some(0u8),
        Register::R1 => Some(1u8),
        Register::R2 => Some(2u8),
        Register::R3 => Some(3u8),
        Register::R4 => Some(4u8),
        Register::R5 => Some(5u8),
        Register::Undefined => None,
    }
}

/// The digit byte that a register encodes to, or `None` for `Undefined`.
pub open spec fn spec_register_digit(r: Register) -> Option<u8> {
    match spec_register_ordinal(r) {
        Some(n) => Some((('0' as u8) + n) as u8),
        None => None,
    }
}

/// The full register resolution of a raw token: uppercase it, look it
/// up, and encode the result as a digit; `None` is the failure sentinel.
pub open spec fn spec_resolve_register(t: Seq<u8>) -> Option<u8> {
    spec_register_digit(spec_register_of(spec_upper(t)))
}

/// The two-byte register name `R` followed by the given digit.
pub open spec fn spec_register_token(d: u8) -> Seq<u8> {
    seq![('R' as u8), d]
}

/// The register resolver, characterized over every token: resolution
/// succeeds exactly on the tokens whose uppercasing is `R` followed by a
/// digit `0` through `5`, and then returns that digit.
pub proof fn lemma_register_resolution(token: Seq<u8>)
    ensures
        match spec_resolve_register(token) {
            Some(d) => ('0' as u8) <= d <= ('5' as u8) && spec_upper(token)
                == spec_register_token(d),
            None => forall|d: u8|
                ('0' as u8) <= d <= ('5' as u8) ==> spec_upper(token) != #[trigger] spec_register_token(d),
        },
{
    let up = spec_upper(token);
    match spec_resolve_register(token) {
        Some(d) => {
        },
        None => {
            assert forall|d: u8|
                ('0' as u8) <= d <= ('5' as u8) implies up != #[trigger] spec_register_token(
                d,
            ) by {
                if up == spec_register_token(d) {
                    assert(spec_register_of(up) != Register::Undefined);
                }
            }
        },
    }
}

impl Register {
    /// Case-sensitive lookup of an (uppercased) token.
    pub fn from_str(s: &[u8]) -> (r: Register)
        ensures
            r == spec_register_of(s@),
    {
        if s.len() == 2 && s[0] == ('R' as u8) && ('0' as u8) <= s[1] && s[1] <= ('5' as u8) {
            let d = s[1];
            let reg = if d == ('0' as u8) {
                Register::R0
            } else if d == ('1' as u8) {
                Register::R1
            } else if d == ('2' as u8) {
                Register::R2
            } else if d == ('3' as u8) {
                Register::R3
            } else if d == ('4' as u8) {
                Register::R4
            } else {
                Register::R5
            };
            proof {
                assert(s@ =~= seq![s@[0], s@[1]]);
            }
            reg
        } else {
            proof {
                if s@.len() == 2 {
                    assert(s@ =~= seq![s@[0], s@[1]]);
                }
            }
            Register::Undefined
        }
    }

    /// The register's digit encoding; `None` is the resolver's failure
    /// sentinel for `Undefined`.
    pub fn parse(self) -> (r: Option<u8>)
        ensures
            r == spec_register_digit(self),
    {
        match self {
            Register::R0 => Some(('0' as u8)),
            Register::R1 => Some(('1' as u8)),
            Register::R2 => Some(('2' as u8)),
            Register::R3 => Some(('3' as u8)),
            Register::R4 => Some(('4' as u8)),
            Register::R5 => Some(('5' as u8)),
            Register::Undefined => None,
        }
    }
}

/// ASCII-uppercase a token.
pub fn to_upper(s: &[u8]) -> (r: Vec<u8>)
    ensures
        r@ =~= spec_upper(s@),
{
    let mut out: Vec<u8> = Vec::new();
    let mut i: usize = 0;
    while i < s.len()
        invariant
            i <= s.len(),
            out@ =~= spec_upper(s@).take(i as int),
        decreases s.len() - i,
    {
        let b = s[i];
        if ('a' as u8) <= b && b <= ('z' as u8) {
            out.push(b - 0x20);
        } else {
            out.push(b);
        }
        proof {
            assert(out@ =~= spec_upper(s@).take(i + 1));
        }
        i = i + 1;
    }
    out
}

} // verus!
