//! The loader: turn the lines of a textual program into decoded
//! instructions. Each non-empty line that does not open with `--` must hold
//! at least four whitespace-separated binary numerals: opcode, dst, lhs and
//! rhs; anything beyond the fourth numeral is ignored.

use vstd::prelude::*;

use crate::yolorisc::{decoded_opcode, Instruction, OpCodes};

verus! {

/// Field separators inside a line: space and horizontal tab.
pub open spec fn is_space(c: u8) -> bool {
    c == 32 || c == 9
}

/// A binary digit: the characters `0` and `1`.
pub open spec fn is_bin_digit(c: u8) -> bool {
    c == 48 || c == 49
}

/// The first position at or after `pos` that holds no separator.
pub open spec fn spec_skip_spaces(line: Seq<u8>, pos: int) -> int
    decreases line.len() - pos,
{
    if pos < line.len() && is_space(line[pos]) {
        spec_skip_spaces(line, pos + 1)
    } else {
        pos
    }
}

/// The first position at or after `pos` that holds a separator, or the end
/// of the line.
pub open spec fn spec_token_end(line: Seq<u8>, pos: int) -> int
    decreases line.len() - pos,
{
    if pos < line.len() && !is_space(line[pos]) {
        spec_token_end(line, pos + 1)
    } else {
        pos
    }
}

/// Every position in `start..end` holds a binary digit.
pub open spec fn all_bin_digits(line: Seq<u8>, start: int, end: int) -> bool {
    forall|i: int| start <= i < end ==> is_bin_digit(#[trigger] line[i])
}

/// The value of the binary numeral written in `start..end`, most
/// significant digit first; positions holding `1` (byte 49) count as one.
pub open spec fn bin_val(line: Seq<u8>, start: int, end: int) -> nat
    decreases end - start,
{
    if start >= end {
        0
    } else {
        bin_val(line, start, end - 1) * 2 + (if line[end - 1] == 49 {
            1nat
        } else {
            0nat
        })
    }
}

/// The next field of a line, read from `pos`: skip separators, take the
/// token up to the next separator, and read it as a binary numeral. There
/// is no field when the line is exhausted, when the token holds a
/// character that is no binary digit, or when the value does not fit in a
/// machine word; otherwise the field is the value and the position just
/// after the token.
pub open spec fn spec_field(line: Seq<u8>, pos: int) -> Option<(nat, int)> {
    let start = spec_skip_spaces(line, pos);
    let end = spec_token_end(line, start);
    if start == end {
        None
    } else if !all_bin_digits(line, start, end) {
        None
    } else if bin_val(line, start, end) > usize::MAX {
        None
    } else {
        Some((bin_val(line, start, end), end))
    }
}

/// The instruction a line encodes: four fields in order — opcode, dst,
/// lhs, rhs — with the opcode decoded numerically. `None` is a decode
/// fault.
pub open spec fn spec_instruction(line: Seq<u8>) -> Option<Instruction> {
    match spec_field(line, 0) {
        None => None,
        Some((op, p1)) => match spec_field(line, p1) {
            None => None,
            Some((dst, p2)) => match spec_field(line, p2) {
                None => None,
                Some((lhs, p3)) => match spec_field(line, p3) {
                    None => None,
                    Some((rhs, _)) => match decoded_opcode(op as int) {
                        None => None,
                        Some(opcode) => Some(
                            Instruction {
                                opcode,
                                dst: dst as usize,
                                lhs: lhs as usize,
                                rhs: rhs as usize,
                            },
                        ),
                    },
                },
            },
        },
    }
}

/// A line the loader passes over: empty, or a comment opening with `--`.
pub open spec fn line_skipped(line: Seq<u8>) -> bool {
    line.len() == 0 || (line.len() >= 2 && line[0] == 45 && line[1] == 45)
}

/// The views of a sequence of byte lines.
pub open spec fn lines_view(lines: Seq<Vec<u8>>) -> Seq<Seq<u8>> {
    lines.map_values(|l: Vec<u8>| l@)
}

/// Loading from line `i` on: skipped lines contribute nothing, every other
/// line must encode an instruction, and the first line that encodes none
/// is the fault, reported by its index.
pub open spec fn spec_load(lines: Seq<Seq<u8>>, i: int) -> Result<Seq<Instruction>, int>
    decreases lines.len() - i,
{
    if i < 0 || i >= lines.len() {
        Ok(Seq::empty())
    } else if line_skipped(lines[i]) {
        spec_load(lines, i + 1)
    } else {
        match spec_instruction(lines[i]) {
            None => Err(i),
            Some(instr) => match spec_load(lines, i + 1) {
                Ok(rest) => Ok(seq![instr] + rest),
                Err(j) => Err(j),
            },
        }
    }
}

/// A numeral only grows as digits are appended to it.
proof fn lemma_bin_val_monotone(line: Seq<u8>, start: int, i: int, j: int)
    requires
        start <= i <= j,
    ensures
        bin_val(line, start, j) >= bin_val(line, start, i),
    decreases j - i,
{
    if i < j {
        lemma_bin_val_monotone(line, start, i, j - 1);
    }
}

fn skip_spaces(line: &Vec<u8>, pos: usize) -> (r: usize)
    requires
        pos <= line@.len(),
    ensures
        r == spec_skip_spaces(line@, pos as int),
        pos <= r <= line@.len(),
{
    let mut j = pos;
    while j < line.len() && (line[j] == 32 || line[j] == 9)
        invariant
            pos <= j <= line@.len(),
            spec_skip_spaces(line@, pos as int) == spec_skip_spaces(line@, j as int),
        decreases line@.len() - j,
    {
        j += 1;
    }
    j
}

fn token_end(line: &Vec<u8>, pos: usize) -> (r: usize)
    requires
        pos <= line@.len(),
    ensures
        r == spec_token_end(line@, pos as int),
        pos <= r <= line@.len(),
{
    let mut j = pos;
    while j < line.len() && !(line[j] == 32 || line[j] == 9)
        invariant
            pos <= j <= line@.len(),
            spec_token_end(line@, pos as int) == spec_token_end(line@, j as int),
        decreases line@.len() - j,
    {
        j += 1;
    }
    j
}

fn parse_bin(line: &Vec<u8>, start: usize, end: usize) -> (r: Option<usize>)
    requires
        start <= end <= line@.len(),
    ensures
        match r {
            Some(v) => all_bin_digits(line@, start as int, end as int) && v as nat == bin_val(
                line@,
                start as int,
                end as int,
            ),
            None => !all_bin_digits(line@, start as int, end as int) || bin_val(
                line@,
                start as int,
                end as int,
            ) > usize::MAX,
        },
{
    let mut acc: usize = 0;
    let mut j = start;
    while j < end
        invariant
            start <= j <= end <= line@.len(),
            all_bin_digits(line@, start as int, j as int),
            acc as nat == bin_val(line@, start as int, j as int),
        decreases end - j,
    {
        let c = line[j];
        if c != 48 && c != 49 {
            proof {
                assert(!is_bin_digit(line@[j as int]));
            }
            return None;
        }
        let d: usize = if c == 49 {
            1
        } else {
            0
        };
        if acc > (usize::MAX - 1) / 2 {
            proof {
                assert(bin_val(line@, start as int, j as int + 1) == acc * 2 + d);
                lemma_bin_val_monotone(line@, start as int, j as int + 1, end as int);
            }
            return None;
        }
        acc = acc * 2 + d;
        j += 1;
    }
    Some(acc)
}

fn parse_field(line: &Vec<u8>, pos: usize) -> (r: Option<(usize, usize)>)
    requires
        pos <= line@.len(),
    ensures
        match r {
            Some(p) => spec_field(line@, pos as int) == Some((p.0 as nat, p.1 as int)) && pos
                <= p.1 <= line@.len(),
            None => spec_field(line@, pos as int) is None,
        },
{
    let start = skip_spaces(line, pos);
    let end = token_end(line, start);
    if start == end {
        return None;
    }
    match parse_bin(line, start, end) {
        None => None,
        Some(v) => Some((v, end)),
    }
}

/// Decode one line; `None` is a decode fault. A skipped line (empty or a
/// comment) is not this function's business: it too decodes to `None`
/// unless it happens to hold four numerals.
pub fn instruction_from_line(line: &Vec<u8>) -> (r: Option<Instruction>)
    ensures
        r == spec_instruction(line@),
{
    let f0 = parse_field(line, 0);
    match f0 {
        None => None,
        Some((op, p1)) => match parse_field(line, p1) {
            None => None,
            Some((dst, p2)) => match parse_field(line, p2) {
                None => None,
                Some((lhs, p3)) => match parse_field(line, p3) {
                    None => None,
                    Some((rhs, _)) => {
                        if op > 13 {
                            return None;
                        }
                        match OpCodes::try_from(op as i32) {
                            Err(_) => None,
                            Ok(opcode) => Some(Instruction { opcode, dst, lhs, rhs }),
                        }
                    },
                },
            },
        },
    }
}

fn line_is_skipped(line: &Vec<u8>) -> (b: bool)
    ensures
        b == line_skipped(line@),
{
    line.len() == 0 || (line.len() >= 2 && line[0] == 45 && line[1] == 45)
}

/// Decode a whole program from its lines, already split and stripped of
/// line endings. The fault, if any, is the index of the first line that is
/// neither skipped nor a well-formed instruction.
pub fn instructions_from_lines(lines: &Vec<Vec<u8>>) -> (r: Result<Vec<Instruction>, usize>)
    ensures
        match r {
            Ok(v) => spec_load(lines_view(lines@), 0) == Ok::<Seq<Instruction>, int>(v@),
            Err(i) => i < lines@.len() && spec_load(lines_view(lines@), 0) == Err::<
                Seq<Instruction>,
                int,
            >(i as int),
        },
{
    let ghost ls = lines_view(lines@);
    let mut out: Vec<Instruction> = Vec::new();
    let mut i: usize = 0;
    while i < lines.len()
        invariant
            i <= lines@.len(),
            ls == lines_view(lines@),
            spec_load(ls, 0) == (match spec_load(ls, i as int) {
                Ok(rest) => Ok::<Seq<Instruction>, int>(out@ + rest),
                Err(j) => Err::<Seq<Instruction>, int>(j),
            }),
        decreases lines@.len() - i,
    {
        let line = &lines[i];
        proof {
            assert(ls[i as int] == line@);
        }
        if !line_is_skipped(line) {
            match instruction_from_line(line) {
                None => {
                    proof {
                        assert(spec_load(ls, i as int) == Err::<Seq<Instruction>, int>(i as int));
                    }
                    return Err(i);
                },
                Some(instr) => {
                    let ghost out0 = out@;
                    out.push(instr);
                    proof {
                        match spec_load(ls, i as int + 1) {
                            Ok(rest) => {
                                assert(spec_load(ls, i as int) == Ok::<Seq<Instruction>, int>(
                                    seq![instr] + rest,
                                ));
                                assert(out0 + (seq![instr] + rest) =~= out@ + rest);
                            },
                            Err(_) => {},
                        }
                    }
                },
            }
        }
        i += 1;
    }
    proof {
        assert(spec_load(ls, i as int) == Ok::<Seq<Instruction>, int>(Seq::empty()));
        assert(out@ + Seq::<Instruction>::empty() =~= out@);
    }
    Ok(out)
}

} // verus!
