//! Byte-level text helpers: comparison, hexadecimal rendering, decimal
//! parsing and searching, over ASCII bytes.

use vstd::prelude::*;

verus! {

/// Line feed.
pub const NL: u8 = 10;

/// Carriage return.
pub const CR: u8 = 13;

/// Space, the token separator.
pub const SP: u8 = 32;

/// Comma, trimmed from the ends of tokens.
pub const COMMA: u8 = 44;

/// Semicolon, part of the output record separator.
pub const SEMI: u8 = 59;

/// The byte strings held by a sequence of byte vectors.
pub open spec fn spec_views(v: Seq<Vec<u8>>) -> Seq<Seq<u8>> {
    Seq::new(v.len(), |i: int| v[i]@)
}

/// Whether two byte strings hold the same bytes.
pub fn bytes_eq(a: &[u8], b: &[u8]) -> (r: bool)
    ensures
        r <==> a@ == b@,
{
    if a.len() != b.len() {
        return false;
    }
    let mut i: usize = 0;
    while i < a.len()
        invariant
            i <= a.len(),
            a.len() == b.len(),
            forall|j: int| 0 <= j < i ==> a@[j] == b@[j],
        decreases a.len() - i,
    {
        if a[i] != b[i] {
            return false;
        }
        i = i + 1;
    }
    proof {
        assert(a@ =~= b@);
    }
    true
}

/// The lowercase hexadecimal digit of a value below 16.
pub open spec fn spec_hex_digit(n: u8) -> u8
    recommends
        n < 16,
{
    if n < 10 {
        (('0' as u8) + n) as u8
    } else {
        (('a' as u8) + (n - 10)) as u8
    }
}

/// The numeric value of a lowercase hexadecimal digit byte.
pub open spec fn spec_hex_val(d: u8) -> u8 {
    if ('0' as u8) <= d && d <= ('9' as u8) {
        (d - ('0' as u8)) as u8
    } else {
        ((d - ('a' as u8)) + 10) as u8
    }
}

/// Render a value below 16 as its lowercase hexadecimal digit.
pub fn hex_digit(n: u8) -> (r: u8)
    requires
        n < 16,
    ensures
        r == spec_hex_digit(n),
{
    if n < 10 {
        ('0' as u8) + n
    } else {
        ('a' as u8) + (n - 10)
    }
}

/// A hexadecimal digit byte is a lowercase hexadecimal character and
/// `spec_hex_val` recovers the value it renders.
pub proof fn lemma_hex_digit_value(n: u8)
    requires
        n < 16,
    ensures
        spec_hex_val(spec_hex_digit(n)) == n,
        (('0' as u8) <= spec_hex_digit(n) && spec_hex_digit(n) <= ('9' as u8)) || (('a' as u8)
            <= spec_hex_digit(n) && spec_hex_digit(n) <= ('f' as u8)),
{
}

/// The two-digit lowercase hexadecimal rendering of a byte, zero-padded.
pub open spec fn spec_hex2(n: u8) -> Seq<u8> {
    seq![spec_hex_digit(n / 16), spec_hex_digit(n % 16)]
}

/// Render a byte as two lowercase hexadecimal digits, zero-padded.
pub fn hex2(n: u8) -> (r: Vec<u8>)
    ensures
        r@ == spec_hex2(n),
{
    let r: Vec<u8> = vec![hex_digit(n / 16), hex_digit(n % 16)];
    proof {
        assert(r@ =~= spec_hex2(n));
    }
    r
}

/// The two-digit rendering of `n` is made of lowercase hexadecimal
/// characters and reads back as `n`: high digit times sixteen plus low
/// digit.
pub proof fn lemma_hex2_value(n: u8)
    ensures
        spec_hex2(n).len() == 2,
        spec_hex_val(spec_hex2(n)[0]) * 16 + spec_hex_val(spec_hex2(n)[1]) == n,
        forall|j: int|
            0 <= j < 2 ==> ((('0' as u8) <= #[trigger] spec_hex2(n)[j] && spec_hex2(n)[j] <= (
            '9' as u8)) || (('a' as u8) <= spec_hex2(n)[j] && spec_hex2(n)[j] <= ('f' as u8))),
{
    lemma_hex_digit_value(n / 16);
    lemma_hex_digit_value(n % 16);
}

/// Whether a byte is an ASCII decimal digit.
pub open spec fn spec_is_digit(b: u8) -> bool {
    ('0' as u8) <= b && b <= ('9' as u8)
}

/// The numeric value of a nonempty all-digit byte string, as an
/// unbounded integer.
pub open spec fn spec_dec_value(s: Seq<u8>) -> int
    decreases s.len(),
{
    if s.len() == 0 {
        0
    } else {
        spec_dec_value(s.drop_last()) * 10 + (s.last() - ('0' as u8))
    }
}

/// Whether every byte of a string is an ASCII decimal digit.
pub open spec fn spec_all_digits(s: Seq<u8>) -> bool {
    forall|j: int| 0 <= j < s.len() ==> spec_is_digit(#[trigger] s[j])
}

/// The unsigned decimal parse of a token: an optional leading plus sign,
/// then one or more digits, whose value fits in a byte. Anything else is
/// no parse.
pub open spec fn spec_parse_u8(s: Seq<u8>) -> Option<u8> {
    let digits = if s.len() >= 1 && s[0] == ('+' as u8) {
        s.drop_first()
    } else {
        s
    };
    if digits.len() == 0 {
        None
    } else if !spec_all_digits(digits) {
        None
    } else if spec_dec_value(digits) > 255 {
        None
    } else {
        Some(spec_dec_value(digits) as u8)
    }
}

/// Parse a token as an unsigned 8-bit decimal integer.
pub fn parse_u8_dec(s: &[u8]) -> (r: Option<u8>)
    ensures
        r == spec_parse_u8(s@),
{
    let start: usize = if s.len() >= 1 && s[0] == ('+' as u8) {
        1
    } else {
        0
    };
    let ghost digits: Seq<u8> = s@.skip(start as int);
    proof {
        if s@.len() >= 1 && s@[0] == ('+' as u8) {
            assert(digits =~= s@.drop_first());
        } else {
            assert(digits =~= s@);
        }
    }
    if s.len() == start {
        return None;
    }
    let mut acc: u16 = 0;
    let mut i: usize = start;
    while i < s.len()
        invariant
            start <= i <= s.len(),
            digits == s@.skip(start as int),
            digits == (if s@.len() >= 1 && s@[0] == ('+' as u8) {
                s@.drop_first()
            } else {
                s@
            }),
            digits.len() >= 1,
            forall|j: int| start <= j < i ==> spec_is_digit(#[trigger] s@[j]),
            spec_dec_value(s@.subrange(start as int, i as int)) <= 255 ==> acc == spec_dec_value(
                s@.subrange(start as int, i as int),
            ),
            spec_dec_value(s@.subrange(start as int, i as int)) > 255 ==> 255 < acc <= 2559,
            acc <= 2559,
        decreases s.len() - i,
    {
        let b = s[i];
        if b < ('0' as u8) || b > ('9' as u8) {
            proof {
                let j = i - start;
                assert(digits[j] == s@[i as int]);
                assert(!spec_all_digits(digits));
            }
            return None;
        }
        let d: u16 = (b - ('0' as u8)) as u16;
        if acc > 255 {
            acc = 256;
        } else {
            acc = acc * 10 + d;
        }
        proof {
            assert(s@.subrange(start as int, i + 1).drop_last() =~= s@.subrange(
                start as int,
                i as int,
            ));
            assert(s@.subrange(start as int, i + 1).last() == s@[i as int]);
        }
        i = i + 1;
    }
    proof {
        assert(s@.subrange(start as int, s@.len() as int) =~= digits);
        assert forall|j: int| 0 <= j < digits.len() implies spec_is_digit(#[trigger] digits[j]) by {
            assert(digits[j] == s@[j + start]);
        }
    }
    if acc > 255 {
        None
    } else {
        Some(acc as u8)
    }
}

/// The index of the first occurrence of a byte, or the length when the
/// byte does not occur.
pub open spec fn spec_find(s: Seq<u8>, b: u8) -> int
    decreases s.len(),
{
    if s.len() == 0 {
        0
    } else if s[0] == b {
        0
    } else {
        1 + spec_find(s.drop_first(), b)
    }
}

/// Any index on the byte sought with no earlier occurrence is
/// `spec_find`; so is the length when the byte does not occur at all.
pub proof fn lemma_find_unique(s: Seq<u8>, b: u8, i: int)
    requires
        0 <= i <= s.len(),
        i < s.len() ==> s[i] == b,
        forall|j: int| 0 <= j < i ==> s[j] != b,
        i == s.len() ==> forall|j: int| 0 <= j < s.len() ==> s[j] != b,
    ensures
        i == spec_find(s, b),
    decreases s.len(),
{
    if s.len() > 0 && s[0] != b {
        lemma_find_unique(s.drop_first(), b, i - 1);
    }
}

/// Find the first occurrence of a byte at or after `from`, as an offset
/// into the whole string.
pub fn find_byte_from(s: &[u8], from: usize, b: u8) -> (r: usize)
    requires
        from <= s@.len(),
    ensures
        from <= r <= s@.len(),
        r - from == spec_find(s@.skip(from as int), b),
        r < s@.len() ==> s@[r as int] == b,
        forall|j: int| from <= j < r ==> s@[j] != b,
{
    let mut i: usize = from;
    while i < s.len()
        invariant
            from <= i <= s@.len(),
            forall|j: int| from <= j < i ==> s@[j] != b,
        decreases s.len() - i,
    {
        if s[i] == b {
            proof {
                assert forall|j: int| 0 <= j < i - from implies s@.skip(from as int)[j] != b by {
                    assert(s@.skip(from as int)[j] == s@[j + from]);
                }
                lemma_find_unique(s@.skip(from as int), b, i - from);
            }
            return i;
        }
        i = i + 1;
    }
    proof {
        assert forall|j: int| 0 <= j < s@.skip(from as int).len() implies s@.skip(from as int)[j]
            != b by {
            assert(s@.skip(from as int)[j] == s@[j + from]);
        }
        lemma_find_unique(s@.skip(from as int), b, s@.len() - from);
    }
    s.len()
}

} // verus!
