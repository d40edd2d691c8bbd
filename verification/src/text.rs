//! Verified text helpers: splitting a string into lines and into
//! space-separated words, with 1-indexed access to both.

use vstd::prelude::*;

verus! {

/// The views of a sequence of strings.
pub open spec fn views_of(parts: Seq<String>) -> Seq<Seq<char>> {
    parts.map_values(|t: String| t@)
}

/// Splits `s` at every occurrence of `sep`. Every separator ends a segment,
/// so consecutive separators yield empty segments and the empty string is
/// one empty segment.
pub open spec fn split_char(s: Seq<char>, sep: char) -> Seq<Seq<char>>
    decreases s.len(),
{
    if s.len() == 0 {
        seq![Seq::<char>::empty()]
    } else if s.last() == sep {
        split_char(s.drop_last(), sep).push(Seq::empty())
    } else {
        let r = split_char(s.drop_last(), sep);
        r.update(r.len() - 1, r.last().push(s.last()))
    }
}

/// The segments of a text between newline characters, where a final
/// newline terminates the last segment rather than opening an empty one,
/// and the empty text has no segments.
pub open spec fn raw_lines(s: Seq<char>) -> Seq<Seq<char>> {
    if s.len() == 0 {
        Seq::empty()
    } else if s.last() == '\n' {
        split_char(s.drop_last(), '\n')
    } else {
        split_char(s, '\n')
    }
}

/// A line with a trailing carriage return stripped, so that texts with
/// either line-terminator convention read the same.
pub open spec fn strip_cr(line: Seq<char>) -> Seq<char> {
    if line.len() > 0 && line.last() == '\r' {
        line.drop_last()
    } else {
        line
    }
}

/// Every line of a sequence with its trailing carriage return stripped.
pub open spec fn strip_all(ls: Seq<Seq<char>>) -> Seq<Seq<char>> {
    ls.map_values(|l: Seq<char>| strip_cr(l))
}

/// The lines of a text, in the manner of line-by-line file reading: the
/// segments between newlines, each with its line terminator stripped.
pub open spec fn spec_lines(s: Seq<char>) -> Seq<Seq<char>> {
    strip_all(raw_lines(s))
}

/// The space-separated words of a line, empty words included.
pub open spec fn spec_words(s: Seq<char>) -> Seq<Seq<char>> {
    split_char(s, ' ')
}

/// Splits `s` at every occurrence of `sep`, as `split_char` describes.
pub fn split_at_char(s: &str, sep: char) -> (parts: Vec<String>)
    ensures
        views_of(parts@) == split_char(s@, sep),
{
    let len = s.unicode_len();
    let mut parts: Vec<String> = Vec::new();
    let mut start: usize = 0;
    let mut i: usize = 0;
    proof {
        assert(s@.take(0) =~= Seq::<char>::empty());
        assert(views_of(parts@).push(s@.subrange(0, 0)) =~= split_char(s@.take(0), sep));
    }
    while i < len
        invariant
            len == s@.len(),
            start <= i <= len,
            views_of(parts@).push(s@.subrange(start as int, i as int)) == split_char(
                s@.take(i as int),
                sep,
            ),
        decreases len - i,
    {
        let ghost prefix = s@.take(i as int);
        let c = s.get_char(i);
        proof {
            assert(s@.take(i + 1).drop_last() =~= prefix);
            assert(s@.take(i + 1).last() == s@[i as int]);
        }
        if c == sep {
            let piece = s.substring_char(start, i);
            parts.push(String::from_str(piece));
            proof {
                assert(views_of(parts@) =~= split_char(prefix, sep));
                assert(split_char(s@.take(i + 1), sep) == split_char(prefix, sep).push(
                    Seq::empty(),
                ));
                assert(s@.subrange(i + 1, i + 1) =~= Seq::<char>::empty());
                assert(views_of(parts@).push(s@.subrange(i + 1, i + 1)) =~= split_char(
                    s@.take(i + 1),
                    sep,
                ));
            }
            start = i + 1;
        } else {
            proof {
                let r = split_char(prefix, sep);
                assert(r == views_of(parts@).push(s@.subrange(start as int, i as int)));
                assert(r.last() == s@.subrange(start as int, i as int));
                assert(r.last().push(s@[i as int]) =~= s@.subrange(start as int, i + 1));
                assert(split_char(s@.take(i + 1), sep) == r.update(
                    r.len() - 1,
                    s@.subrange(start as int, i + 1),
                ));
                assert(views_of(parts@).push(s@.subrange(start as int, i + 1)) =~= split_char(
                    s@.take(i + 1),
                    sep,
                ));
            }
        }
        i = i + 1;
    }
    let piece = s.substring_char(start, len);
    parts.push(String::from_str(piece));
    proof {
        assert(s@.take(len as int) =~= s@);
        assert(views_of(parts@) =~= split_char(s@, sep));
    }
    parts
}

/// Splits a text into its newline-delimited segments, as `raw_lines`
/// describes, terminators still attached.
fn split_raw_lines(s: &String) -> (ls: Vec<String>)
    ensures
        views_of(ls@) == raw_lines(s@),
{
    let len = s.as_str().unicode_len();
    if len == 0 {
        let ls: Vec<String> = Vec::new();
        proof {
            assert(views_of(ls@) =~= raw_lines(s@));
        }
        ls
    } else {
        let last = s.as_str().get_char(len - 1);
        if last == '\n' {
            let body = s.as_str().substring_char(0, len - 1);
            proof {
                assert(body@ =~= s@.drop_last());
            }
            split_at_char(body, '\n')
        } else {
            split_at_char(s.as_str(), '\n')
        }
    }
}

/// Splits a text into its lines, as `spec_lines` describes.
pub fn split_lines(s: &String) -> (ls: Vec<String>)
    ensures
        views_of(ls@) == spec_lines(s@),
{
    let raw = split_raw_lines(s);
    let ghost rl = raw_lines(s@);
    let mut ls: Vec<String> = Vec::new();
    let mut i: usize = 0;
    proof {
        assert(views_of(ls@) =~= strip_all(rl.take(0)));
    }
    while i < raw.len()
        invariant
            i <= raw.len(),
            views_of(raw@) == rl,
            views_of(ls@) == strip_all(rl.take(i as int)),
        decreases raw.len() - i,
    {
        proof {
            assert(rl[i as int] == raw@[i as int]@);
        }
        let ghost ls0 = ls@;
        let line = &raw[i];
        let n = line.as_str().unicode_len();
        if n > 0 && line.as_str().get_char(n - 1) == '\r' {
            let body = line.as_str().substring_char(0, n - 1);
            proof {
                assert(body@ =~= rl[i as int].drop_last());
                assert(body@ == strip_cr(rl[i as int]));
            }
            ls.push(String::from_str(body));
        } else {
            proof {
                assert(line@ == strip_cr(rl[i as int]));
            }
            ls.push(line.clone());
        }
        proof {
            assert(views_of(ls@) =~= views_of(ls0).push(strip_cr(rl[i as int])));
            assert(strip_all(rl.take(i + 1)) =~= views_of(ls0).push(strip_cr(rl[i as int])));
            assert(views_of(ls@) == strip_all(rl.take(i + 1)));
        }
        i = i + 1;
    }
    proof {
        assert(rl.take(raw@.len() as int) =~= rl);
        assert(views_of(ls@) == spec_lines(s@));
    }
    ls
}

/// The number of lines in `s`, lines being delimited as in `spec_lines`.
pub fn num_of_lines(s: &String) -> (n: usize)
    ensures
        n == spec_lines(s@).len(),
{
    let ls = split_lines(s);
    ls.len()
}

/// The `n`-th line of `s`, 1-indexed.
pub fn get_nth_line(s: &String, n: usize) -> (line: String)
    requires
        1 <= n <= spec_lines(s@).len(),
    ensures
        line@ == spec_lines(s@)[n - 1],
{
    let ls = split_lines(s);
    ls[n - 1].clone()
}

/// The `n`-th space-separated word of `s`, 1-indexed, counting empty words.
pub fn get_nth_word(s: &String, n: usize) -> (word: String)
    requires
        1 <= n <= spec_words(s@).len(),
    ensures
        word@ == spec_words(s@)[n - 1],
{
    let words = split_at_char(s.as_str(), ' ');
    words[n - 1].clone()
}

} // verus!
