//! The line pipeline: split the source into lines, tokenize each line,
//! encode it, and collect the output records. Lines are independent;
//! a failing line contributes nothing and the pass goes on.

use vstd::prelude::*;

use crate::ascii::{CR, COMMA, NL, SEMI, SP, find_byte_from, spec_find, spec_views};
use crate::commands::{Command, spec_arity, spec_command_of};
use crate::encoder::{Instruction, fill_instruction, spec_fill};
use crate::errors::AsmError;

verus! {

/// A line with a final carriage return dropped, so that both bare and
/// carriage-return line endings are tolerated.
pub open spec fn spec_strip_cr(line: Seq<u8>) -> Seq<u8> {
    if line.len() > 0 && line.last() == CR {
        line.drop_last()
    } else {
        line
    }
}

/// The lines of the source text: split at every line feed, no line for
/// a final terminator, and a final carriage return dropped from each.
pub open spec fn spec_lines(s: Seq<u8>) -> Seq<Seq<u8>>
    decreases s.len(),
{
    if s.len() == 0 {
        seq![]
    } else {
        let i = spec_find(s, NL);
        if 0 <= i < s.len() {
            seq![spec_strip_cr(s.take(i))] + spec_lines(s.skip(i + 1))
        } else {
            seq![spec_strip_cr(s)]
        }
    }
}

/// Split the source text into its lines.
pub fn split_lines(src: &[u8]) -> (r: Vec<Vec<u8>>)
    ensures
        spec_views(r@) == spec_lines(src@),
{
    let mut acc: Vec<Vec<u8>> = Vec::new();
    let mut pos: usize = 0;
    proof {
        assert(src@.skip(0) =~= src@);
        assert(spec_views(acc@) + spec_lines(src@) =~= spec_lines(src@));
    }
    while pos < src.len()
        invariant
            pos <= src@.len(),
            spec_lines(src@) == spec_views(acc@) + spec_lines(src@.skip(pos as int)),
        decreases src@.len() - pos,
    {
        let i = find_byte_from(src, pos, NL);
        let end: usize = if i > pos && src[i - 1] == CR {
            i - 1
        } else {
            i
        };
        let line: Vec<u8> = vstd::slice::slice_to_vec(&src[pos..end]);
        let ghost acc0 = acc@;
        let ghost rest = src@.skip(pos as int);
        proof {
            let k = spec_find(rest, NL);
            assert(k == i - pos);
            if i < src@.len() {
                assert(rest.take(k) =~= src@.subrange(pos as int, i as int));
                assert(spec_strip_cr(rest.take(k)) =~= src@.subrange(pos as int, end as int));
                assert(rest.skip(k + 1) =~= src@.skip(i + 1));
            } else {
                assert(rest =~= src@.subrange(pos as int, i as int));
                assert(spec_strip_cr(rest) =~= src@.subrange(pos as int, end as int));
            }
        }
        acc.push(line);
        proof {
            assert(spec_views(acc@) =~= spec_views(acc0).push(src@.subrange(
                pos as int,
                end as int,
            )));
            if i < src@.len() {
                assert(spec_lines(rest) == seq![src@.subrange(pos as int, end as int)]
                    + spec_lines(src@.skip(i + 1)));
                assert(spec_views(acc@) + spec_lines(src@.skip(i + 1)) =~= spec_views(acc0) + (
                seq![src@.subrange(pos as int, end as int)] + spec_lines(src@.skip(i + 1))));
            } else {
                assert(spec_lines(rest) == seq![src@.subrange(pos as int, end as int)]);
                assert(spec_lines(src@.skip(src@.len() as int)) =~= Seq::<Seq<u8>>::empty());
                assert(spec_views(acc@) + spec_lines(src@.skip(src@.len() as int)) =~= spec_views(
                    acc0,
                ) + spec_lines(rest));
            }
        }
        if i < src.len() {
            pos = i + 1;
        } else {
            pos = src.len();
        }
    }
    proof {
        assert(spec_lines(src@.skip(pos as int)) =~= Seq::<Seq<u8>>::empty());
        assert(spec_views(acc@) + spec_lines(src@.skip(pos as int)) =~= spec_views(acc@));
    }
    acc
}

/// The pieces of a line split at every single space; splitting keeps
/// empty pieces, and there is always at least one piece.
pub open spec fn spec_split_spaces(s: Seq<u8>) -> Seq<Seq<u8>>
    decreases s.len(),
{
    let i = spec_find(s, SP);
    if 0 <= i < s.len() {
        seq![s.take(i)] + spec_split_spaces(s.skip(i + 1))
    } else {
        seq![s]
    }
}

/// Split a line at every space.
pub fn split_spaces(s: &[u8]) -> (r: Vec<Vec<u8>>)
    ensures
        spec_views(r@) == spec_split_spaces(s@),
{
    let mut acc: Vec<Vec<u8>> = Vec::new();
    let mut pos: usize = 0;
    let mut done: bool = false;
    proof {
        assert(s@.skip(0) =~= s@);
        assert(spec_views(acc@) + spec_split_spaces(s@) =~= spec_split_spaces(s@));
    }
    while !done
        invariant
            pos <= s@.len(),
            !done ==> spec_split_spaces(s@) == spec_views(acc@) + spec_split_spaces(
                s@.skip(pos as int),
            ),
            done ==> spec_views(acc@) == spec_split_spaces(s@),
        decreases s@.len() - pos + (if done {
            0int
        } else {
            1int
        }),
    {
        let i = find_byte_from(s, pos, SP);
        let piece: Vec<u8> = vstd::slice::slice_to_vec(&s[pos..i]);
        let ghost acc0 = acc@;
        let ghost rest = s@.skip(pos as int);
        proof {
            assert(spec_find(rest, SP) == i - pos);
            assert(rest.take(i - pos) =~= s@.subrange(pos as int, i as int));
            assert(rest =~= s@.subrange(pos as int, s@.len() as int));
            if i < s@.len() {
                assert(rest.skip(i - pos + 1) =~= s@.skip(i + 1));
            }
        }
        acc.push(piece);
        proof {
            assert(spec_views(acc@) =~= spec_views(acc0).push(s@.subrange(pos as int, i as int)));
            if i < s@.len() {
                assert(spec_split_spaces(rest) == seq![s@.subrange(pos as int, i as int)]
                    + spec_split_spaces(s@.skip(i + 1)));
                assert(spec_views(acc@) + spec_split_spaces(s@.skip(i + 1)) =~= spec_views(acc0) + (
                seq![s@.subrange(pos as int, i as int)] + spec_split_spaces(s@.skip(i + 1))));
            } else {
                assert(rest =~= s@.subrange(pos as int, i as int));
                assert(spec_split_spaces(rest) == seq![s@.subrange(pos as int, i as int)]);
                assert(spec_views(acc@) =~= spec_views(acc0) + spec_split_spaces(rest));
            }
        }
        if i < s.len() {
            pos = i + 1;
        } else {
            done = true;
        }
    }
    acc
}

/// A token with every leading and trailing comma removed.
pub open spec fn spec_trim_commas(t: Seq<u8>) -> Seq<u8>
    decreases t.len(),
{
    if t.len() > 0 && t[0] == COMMA {
        spec_trim_commas(t.drop_first())
    } else if t.len() > 0 && t.last() == COMMA {
        spec_trim_commas(t.drop_last())
    } else {
        t
    }
}

/// Strip leading and trailing commas from a token.
pub fn trim_commas(t: &[u8]) -> (r: Vec<u8>)
    ensures
        r@ == spec_trim_commas(t@),
{
    let mut start: usize = 0;
    proof {
        assert(t@.skip(0) =~= t@);
    }
    while start < t.len() && t[start] == COMMA
        invariant
            start <= t@.len(),
            spec_trim_commas(t@) == spec_trim_commas(t@.skip(start as int)),
        decreases t@.len() - start,
    {
        proof {
            assert(t@.skip(start as int).drop_first() =~= t@.skip(start + 1));
        }
        start = start + 1;
    }
    let mut end: usize = t.len();
    while end > start && t[end - 1] == COMMA
        invariant
            start <= end <= t@.len(),
            start == t@.len() || t@[start as int] != COMMA,
            spec_trim_commas(t@) == spec_trim_commas(t@.subrange(start as int, end as int)),
        decreases end,
    {
        proof {
            let sub = t@.subrange(start as int, end as int);
            assert(sub[0] == t@[start as int]);
            assert(sub.last() == t@[end - 1]);
            assert(sub.drop_last() =~= t@.subrange(start as int, end - 1));
        }
        end = end - 1;
    }
    proof {
        let sub = t@.subrange(start as int, end as int);
        if sub.len() > 0 {
            assert(sub[0] == t@[start as int]);
            assert(sub.last() == t@[end - 1]);
        }
        assert(spec_trim_commas(sub) == sub);
    }
    vstd::slice::slice_to_vec(&t[start..end])
}

/// The tokens of a source line: the pieces between single spaces, each
/// with its leading and trailing commas stripped. Token 0 is the
/// mnemonic; there is always at least one token.
pub open spec fn spec_tokens(line: Seq<u8>) -> Seq<Seq<u8>> {
    spec_split_spaces(line).map_values(|t: Seq<u8>| spec_trim_commas(t))
}

/// Tokenize a source line.
pub fn tokenize(line: &[u8]) -> (r: Vec<Vec<u8>>)
    ensures
        spec_views(r@) == spec_tokens(line@),
        r@.len() >= 1,
{
    let raw = split_spaces(line);
    let mut out: Vec<Vec<u8>> = Vec::new();
    let mut i: usize = 0;
    while i < raw.len()
        invariant
            i <= raw@.len(),
            out@.len() == i,
            spec_tokens(line@).len() == raw@.len(),
            spec_views(raw@) == spec_split_spaces(line@),
            spec_views(out@) =~= spec_tokens(line@).take(i as int),
        decreases raw@.len() - i,
    {
        let tok = trim_commas(raw[i].as_slice());
        out.push(tok);
        proof {
            assert(spec_tokens(line@).len() == spec_split_spaces(line@).len());
            assert(spec_tokens(line@)[i as int] == spec_trim_commas(
                spec_split_spaces(line@)[i as int],
            ));
            assert(spec_split_spaces(line@)[i as int] == raw@[i as int]@);
            assert(out@.len() == i + 1);
            assert(out@[i as int]@ == spec_trim_commas(raw@[i as int]@));
            assert forall|j: int| 0 <= j < i + 1 implies spec_views(out@)[j] == spec_tokens(
                line@,
            ).take(i + 1)[j] by {
                if j < i {
                    assert(spec_views(out@)[j] == out@[j]@);
                }
            }
            assert(spec_views(out@) =~= spec_tokens(line@).take(i + 1));
        }
        i = i + 1;
    }
    proof {
        assert(spec_tokens(line@).take(raw@.len() as int) =~= spec_tokens(line@));
        assert(spec_split_spaces(line@).len() >= 1);
    }
    out
}

/// What one source line yields: its encoded machine word, or the
/// failure that made it contribute nothing. The mnemonic is looked up
/// first; a wrong operand count rejects the line before any operand is
/// resolved, as `UndefinedCommand` when the mnemonic itself is unknown
/// and as `OperandCountMismatch` otherwise.
pub open spec fn spec_process_line(line: Seq<u8>) -> Result<Seq<u8>, AsmError> {
    let toks = spec_tokens(line);
    let c = spec_command_of(toks[0]);
    if spec_arity(c) != toks.len() - 1 {
        if c is Undefined {
            Err(AsmError::UndefinedCommand)
        } else {
            Err(AsmError::OperandCountMismatch)
        }
    } else {
        spec_fill(c, toks)
    }
}

/// Encode one source line.
pub fn process_line(line: &[u8]) -> (r: Result<Vec<u8>, AsmError>)
    ensures
        match spec_process_line(line@) {
            Ok(w) => r matches Ok(v) && v@ == w,
            Err(e) => r matches Err(e2) && e2 == e,
        },
{
    let tokens = tokenize(line);
    let mut instruction = Instruction::from_str(tokens[0].as_slice());
    let arity = instruction.no_inputs;
    if arity >= 0 && (arity as usize) == tokens.len() - 1 {
        match fill_instruction(&mut instruction, &tokens) {
            Ok(()) => Ok(instruction.data),
            Err(e) => Err(e),
        }
    } else {
        match instruction.command {
            Command::Undefined => Err(AsmError::UndefinedCommand),
            _ => Err(AsmError::OperandCountMismatch),
        }
    }
}

/// No word a line ever emits has an unresolved placeholder left in it:
/// the emit step is reached only through the success path of
/// resolution, and that path substitutes every placeholder away.
pub proof fn lemma_emitted_word_has_no_placeholders(line: Seq<u8>)
    ensures
        spec_process_line(line) matches Ok(w) ==> forall|j: int|
            0 <= j < w.len() ==> w[j] != ('<' as u8) && w[j] != ('>' as u8),
{
    if spec_process_line(line) is Ok {
        let toks = spec_tokens(line);
        let c = spec_command_of(toks[0]);
        crate::encoder::lemma_encoded_no_placeholders(c, toks);
    }
}

/// The output record of one source line: the encoded word, a
/// space-semicolon-space separator, the original line verbatim, and a
/// carriage-return line-feed terminator. A failing line has no record.
pub open spec fn spec_record(line: Seq<u8>) -> Seq<u8> {
    match spec_process_line(line) {
        Ok(w) => w + seq![SP, SEMI, SP] + line + seq![CR, NL],
        Err(e) => seq![],
    }
}

/// A rejected or failing line contributes no bytes at all to the pass's
/// output.
pub proof fn lemma_failed_line_contributes_nothing(line: Seq<u8>)
    ensures
        spec_process_line(line) is Err ==> spec_record(line) == Seq::<u8>::empty(),
{
    if spec_process_line(line) is Err {
        assert(spec_record(line) =~= Seq::<u8>::empty());
    }
}

/// The concatenated records of a sequence of lines, in order.
pub open spec fn spec_records(lines: Seq<Seq<u8>>) -> Seq<u8>
    decreases lines.len(),
{
    if lines.len() == 0 {
        seq![]
    } else {
        spec_record(lines[0]) + spec_records(lines.drop_first())
    }
}

/// Appending one more line appends exactly its record.
pub proof fn lemma_records_snoc(lines: Seq<Seq<u8>>, l: Seq<u8>)
    ensures
        spec_records(lines.push(l)) == spec_records(lines) + spec_record(l),
    decreases lines.len(),
{
    if lines.len() == 0 {
        assert(lines.push(l)[0] == l);
        assert(lines.push(l).drop_first() =~= lines);
        assert(spec_records(lines.push(l)) =~= spec_records(lines) + spec_record(l));
    } else {
        assert(lines.push(l).drop_first() =~= lines.drop_first().push(l));
        lemma_records_snoc(lines.drop_first(), l);
        assert(lines.push(l)[0] == lines[0]);
        assert(spec_records(lines.push(l)) == spec_record(lines[0]) + spec_records(
            lines.drop_first().push(l),
        ));
        assert(spec_records(lines.push(l)) == spec_record(lines[0]) + (spec_records(
            lines.drop_first(),
        ) + spec_record(l)));
        assert(spec_records(lines) == spec_record(lines[0]) + spec_records(lines.drop_first()));
        assert(spec_records(lines.push(l)) =~= spec_records(lines) + spec_record(l));
    }
}

/// The whole pass over the source text: the records of its lines, in
/// order. The output is a function of the source alone, so re-running
/// the pass on identical input yields byte-identical output.
pub open spec fn spec_assemble(src: Seq<u8>) -> Seq<u8> {
    spec_records(spec_lines(src))
}

/// Run the pass: encode every line of the source text and return the
/// output buffer.
pub fn assemble(source: &[u8]) -> (r: Vec<u8>)
    ensures
        r@ == spec_assemble(source@),
{
    let lines = split_lines(source);
    let mut buffer: Vec<u8> = Vec::new();
    let mut i: usize = 0;
    while i < lines.len()
        invariant
            i <= lines@.len(),
            spec_views(lines@) == spec_lines(source@),
            buffer@ == spec_records(spec_views(lines@).take(i as int)),
        decreases lines@.len() - i,
    {
        let ghost done = spec_views(lines@).take(i as int);
        match process_line(lines[i].as_slice()) {
            Ok(word) => {
                buffer.extend_from_slice(word.as_slice());
                buffer.push(SP);
                buffer.push(SEMI);
                buffer.push(SP);
                buffer.extend_from_slice(lines[i].as_slice());
                buffer.push(CR);
                buffer.push(NL);
                proof {
                    lemma_records_snoc(done, lines@[i as int]@);
                    assert(spec_views(lines@).take(i + 1) =~= done.push(lines@[i as int]@));
                    assert(buffer@ =~= spec_records(done) + spec_record(lines@[i as int]@));
                }
            },
            Err(e) => {
                proof {
                    lemma_records_snoc(done, lines@[i as int]@);
                    assert(spec_views(lines@).take(i + 1) =~= done.push(lines@[i as int]@));
                    lemma_failed_line_contributes_nothing(lines@[i as int]@);
                    assert(buffer@ =~= spec_records(done) + spec_record(lines@[i as int]@));
                }
            },
        }
        i = i + 1;
    }
    proof {
        assert(spec_views(lines@).take(lines@.len() as int) =~= spec_views(lines@));
    }
    buffer
}

} // verus!
