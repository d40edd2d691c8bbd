//! The instruction parser: one instruction per line, fields separated by
//! spaces, `rotation <direction>` or `walk <count>`, blank lines skipped.

use vstd::prelude::*;
use crate::motion::Direction;
use crate::text::{spec_words, split_at_char, views_of};

verus! {

/// Everything that can go wrong while loading or interpreting an
/// instruction file. All of them are fatal for the run.
#[derive(Clone, Copy, PartialEq, Eq, Structural, Debug)]
pub enum TurtleError {
    /// The instruction file could not be opened or read.
    ResourceNotFound,
    /// A line starts with a word that names no known command.
    UnknownCommand,
    /// A `rotation` argument is none of the four cardinal names.
    UnknownDirection,
    /// A `walk` argument is not a decimal step count.
    InvalidStepCount,
}

/// One parsed instruction, immutable once parsed.
#[derive(Clone, Copy, PartialEq, Eq, Structural, Debug)]
pub enum Instruction {
    /// Point the turtle at a cardinal direction.
    Rotate(Direction),
    /// Advance the turtle, one render frame per unit step.
    Walk(u64),
}

/// The non-empty words of a word sequence, in order.
pub open spec fn nonblank(ws: Seq<Seq<char>>) -> Seq<Seq<char>>
    decreases ws.len(),
{
    if ws.len() == 0 {
        Seq::empty()
    } else if ws.last().len() == 0 {
        nonblank(ws.drop_last())
    } else {
        nonblank(ws.drop_last()).push(ws.last())
    }
}

/// The tokens of a line: its space-separated words with the empty ones
/// dropped, so that leading, trailing and repeated spaces are tolerated.
pub open spec fn spec_tokens(line: Seq<char>) -> Seq<Seq<char>> {
    nonblank(spec_words(line))
}

/// The cardinal direction a `rotation` argument names, if any.
pub open spec fn dir_of(w: Seq<char>) -> Option<Direction> {
    if w == "north"@ {
        Some(Direction::North)
    } else if w == "south"@ {
        Some(Direction::South)
    } else if w == "east"@ {
        Some(Direction::East)
    } else if w == "west"@ {
        Some(Direction::West)
    } else {
        None
    }
}

/// Whether `c` is a decimal digit.
pub open spec fn is_digit(c: char) -> bool {
    48 <= c as u32 <= 57
}

/// The value of a decimal digit.
pub open spec fn digit_val(c: char) -> int {
    c as u32 - 48
}

/// Whether `w` consists of one or more decimal digits.
pub open spec fn all_digits(w: Seq<char>) -> bool {
    w.len() > 0 && forall|j: int| 0 <= j < w.len() ==> is_digit(w[j])
}

/// The numeric value of a digit string, most significant digit first.
pub open spec fn dec_val(w: Seq<char>) -> int
    decreases w.len(),
{
    if w.len() == 0 {
        0
    } else {
        dec_val(w.drop_last()) * 10 + digit_val(w.last())
    }
}

/// The step count a `walk` argument denotes: an unsigned decimal number
/// that fits the count's machine type, or nothing.
pub open spec fn spec_step_count(w: Seq<char>) -> Option<u64> {
    if all_digits(w) && dec_val(w) <= u64::MAX {
        Some(dec_val(w) as u64)
    } else {
        None
    }
}

/// What parsing one line yields. A line with no tokens is skipped. The
/// first token picks the command and the second is its argument; any
/// further tokens are ignored. `rotation` demands one of the four cardinal
/// names, on pain of `UnknownDirection`; `walk` demands a decimal step
/// count, on pain of `InvalidStepCount`; any other first token is an
/// `UnknownCommand`.
pub open spec fn spec_parse(line: Seq<char>) -> Result<Option<Instruction>, TurtleError> {
    let toks = spec_tokens(line);
    if toks.len() == 0 {
        Ok(None)
    } else if toks[0] == "rotation"@ {
        if toks.len() < 2 {
            Err(TurtleError::UnknownDirection)
        } else {
            match dir_of(toks[1]) {
                Some(d) => Ok(Some(Instruction::Rotate(d))),
                None => Err(TurtleError::UnknownDirection),
            }
        }
    } else if toks[0] == "walk"@ {
        if toks.len() < 2 {
            Err(TurtleError::InvalidStepCount)
        } else {
            match spec_step_count(toks[1]) {
                Some(n) => Ok(Some(Instruction::Walk(n))),
                None => Err(TurtleError::InvalidStepCount),
            }
        }
    } else {
        Err(TurtleError::UnknownCommand)
    }
}

/// The tokens of a line, as `spec_tokens` describes.
pub fn tokens_of(line: &str) -> (toks: Vec<String>)
    ensures
        views_of(toks@) == spec_tokens(line@),
{
    let words = split_at_char(line, ' ');
    let ghost ws = views_of(words@);
    let mut toks: Vec<String> = Vec::new();
    let mut i: usize = 0;
    proof {
        assert(ws.take(0) =~= Seq::<Seq<char>>::empty());
        assert(views_of(toks@) =~= nonblank(ws.take(0)));
    }
    while i < words.len()
        invariant
            ws == views_of(words@),
            i <= words.len(),
            views_of(toks@) == nonblank(ws.take(i as int)),
        decreases words.len() - i,
    {
        proof {
            assert(ws.take(i + 1).drop_last() =~= ws.take(i as int));
            assert(ws.take(i + 1).last() == ws[i as int]);
            assert(ws[i as int] == words@[i as int]@);
        }
        if words[i].as_str().unicode_len() > 0 {
            toks.push(words[i].clone());
            proof {
                assert(views_of(toks@) =~= nonblank(ws.take(i + 1)));
            }
        } else {
            proof {
                assert(views_of(toks@) =~= nonblank(ws.take(i + 1)));
            }
        }
        i = i + 1;
    }
    proof {
        assert(ws.take(words@.len() as int) =~= ws);
        assert(views_of(toks@) == spec_tokens(line@));
    }
    toks
}

/// The cardinal direction a `rotation` argument names, as `dir_of`
/// describes.
pub fn parse_direction(w: &String) -> (d: Option<Direction>)
    ensures
        d == dir_of(w@),
{
    if *w == String::from_str("north") {
        Some(Direction::North)
    } else if *w == String::from_str("south") {
        Some(Direction::South)
    } else if *w == String::from_str("east") {
        Some(Direction::East)
    } else if *w == String::from_str("west") {
        Some(Direction::West)
    } else {
        None
    }
}

/// The step count a `walk` argument denotes, as `spec_step_count`
/// describes.
pub fn parse_step_count(w: &String) -> (r: Option<u64>)
    ensures
        r == spec_step_count(w@),
{
    let len = w.as_str().unicode_len();
    if len == 0 {
        return None;
    }
    let mut acc: u64 = 0;
    let mut ok: bool = true;
    let mut i: usize = 0;
    proof {
        assert(w@.take(0) =~= Seq::<char>::empty());
    }
    while i < len
        invariant
            len == w@.len(),
            i <= len,
            forall|j: int| 0 <= j < i ==> is_digit(w@[j]),
            ok ==> acc == dec_val(w@.take(i as int)) && dec_val(w@.take(i as int)) <= u64::MAX,
            !ok ==> dec_val(w@.take(i as int)) > u64::MAX,
        decreases len - i,
    {
        let c = w.as_str().get_char(i);
        let v = c as u32;
        if v < 48 || v > 57 {
            return None;
        }
        let d: u64 = (v - 48) as u64;
        proof {
            assert(w@.take(i + 1).drop_last() =~= w@.take(i as int));
            assert(w@.take(i + 1).last() == w@[i as int]);
            assert(dec_val(w@.take(i + 1)) == dec_val(w@.take(i as int)) * 10 + digit_val(
                w@[i as int],
            ));
            assert(digit_val(w@[i as int]) == d);
        }
        if ok {
            match acc.checked_mul(10) {
                Some(m) => match m.checked_add(d) {
                    Some(a) => {
                        acc = a;
                    },
                    None => {
                        ok = false;
                    },
                },
                None => {
                    ok = false;
                },
            }
        } else {
            proof {
                let prev = dec_val(w@.take(i as int));
                assert(prev * 10 == prev + prev * 9);
                assert(prev * 9 >= 9) by (nonlinear_arith)
                    requires
                        prev > u64::MAX,
                ;
                assert(dec_val(w@.take(i + 1)) > u64::MAX);
            }
        }
        i = i + 1;
    }
    proof {
        assert(w@.take(len as int) =~= w@);
        assert(all_digits(w@));
    }
    if ok {
        Some(acc)
    } else {
        None
    }
}

/// Parses one instruction line, as `spec_parse` describes.
pub fn parse(line: &String) -> (r: Result<Option<Instruction>, TurtleError>)
    ensures
        r == spec_parse(line@),
{
    let toks = tokens_of(line.as_str());
    proof {
        assert(toks@.len() == spec_tokens(line@).len());
        if toks@.len() > 0 {
            assert(views_of(toks@)[0] == toks@[0]@);
        }
        if toks@.len() > 1 {
            assert(views_of(toks@)[1] == toks@[1]@);
        }
    }
    if toks.len() == 0 {
        return Ok(None);
    }
    if toks[0] == String::from_str("rotation") {
        if toks.len() < 2 {
            return Err(TurtleError::UnknownDirection);
        }
        match parse_direction(&toks[1]) {
            Some(d) => Ok(Some(Instruction::Rotate(d))),
            None => Err(TurtleError::UnknownDirection),
        }
    } else if toks[0] == String::from_str("walk") {
        if toks.len() < 2 {
            return Err(TurtleError::InvalidStepCount);
        }
        match parse_step_count(&toks[1]) {
            Some(n) => Ok(Some(Instruction::Walk(n))),
            None => Err(TurtleError::InvalidStepCount),
        }
    } else {
        Err(TurtleError::UnknownCommand)
    }
}

} // verus!
