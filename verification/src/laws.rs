//! The laws of the interpreter, stated and proved over the same spec
//! functions that the executable functions' contracts use.

use vstd::prelude::*;
use crate::engine::{apply_rotate, apply_walk, run_lines, RunOutcome};
use crate::motion::{
    dir_vec, pos_after, sat_i64, step_pos, walk_steps, Direction, Heading, MotionState, Position,
};
use crate::parse::{nonblank, spec_parse, spec_tokens, Instruction, TurtleError};
use crate::text::split_char;

verus! {

/// A line is blank when it holds nothing but spaces.
pub open spec fn is_blank(line: Seq<char>) -> bool {
    forall|j: int| 0 <= j < line.len() ==> line[j] == ' '
}

/// A blank line has no tokens.
proof fn lemma_blank_tokens(line: Seq<char>)
    requires
        is_blank(line),
    ensures
        spec_tokens(line) =~= Seq::<Seq<char>>::empty(),
    decreases line.len(),
{
    let ws = split_char(line, ' ');
    if line.len() == 0 {
        assert(ws == seq![Seq::<char>::empty()]);
        assert(ws.len() == 1 && ws.last().len() == 0);
        assert(nonblank(ws) == nonblank(ws.drop_last()));
        assert(ws.drop_last() =~= Seq::<Seq<char>>::empty());
        assert(nonblank(Seq::<Seq<char>>::empty()) == Seq::<Seq<char>>::empty());
    } else {
        let body = line.drop_last();
        let ws0 = split_char(body, ' ');
        assert(line.last() == ' ');
        assert(ws == ws0.push(Seq::<char>::empty()));
        assert(ws.drop_last() =~= ws0);
        lemma_blank_tokens(body);
        assert(nonblank(ws) == nonblank(ws0));
    }
}

/// Parsing a blank line always yields a skip, never an error.
pub proof fn lemma_blank_line_skips(line: Seq<char>)
    requires
        is_blank(line),
    ensures
        spec_parse(line) == Ok::<Option<Instruction>, TurtleError>(None),
{
    lemma_blank_tokens(line);
}

/// Any number of consecutive blank lines leaves the run untouched: no state
/// change, no frame, no error.
pub proof fn lemma_blank_lines_no_op(s: MotionState, lines: Seq<Seq<char>>)
    requires
        forall|i: int| 0 <= i < lines.len() ==> is_blank(#[trigger] lines[i]),
    ensures
        run_lines(s, lines) == (RunOutcome {
            state: s,
            frames: Seq::<Position>::empty(),
            error: None::<TurtleError>,
        }),
    decreases lines.len(),
{
    if lines.len() > 0 {
        assert(is_blank(lines[0]));
        lemma_blank_line_skips(lines[0]);
        let rest = lines.drop_first();
        assert forall|i: int| 0 <= i < rest.len() implies is_blank(#[trigger] rest[i]) by {
            assert(rest[i] == lines[i + 1]);
        }
        lemma_blank_lines_no_op(s, rest);
    }
}

/// A rotation fully overwrites the heading: after two rotations in a row
/// the heading is exactly the second direction's unit vector, with no
/// accumulation from the first.
pub proof fn lemma_rotation_overwrites(s: MotionState, d1: Direction, d2: Direction)
    ensures
        apply_rotate(apply_rotate(s, d1), d2).heading == dir_vec(d2),
{
}

/// After `k` unit steps at speed one, when the ideal endpoint fits in the
/// coordinate type, no step saturates and the position is exactly the start
/// plus the heading scaled by `k`.
pub proof fn lemma_pos_after_exact(p: Position, h: Heading, k: nat)
    requires
        h.wf(),
        i64::MIN <= p.x + h.dx * k <= i64::MAX,
        i64::MIN <= p.y + h.dy * k <= i64::MAX,
    ensures
        pos_after(p, h, 1, k).x == p.x + h.dx * k,
        pos_after(p, h, 1, k).y == p.y + h.dy * k,
    decreases k,
{
    if k > 0 {
        let k1 = (k - 1) as nat;
        assert(h.dx * k == h.dx * k1 + h.dx) by (nonlinear_arith)
            requires
                k >= 1,
                k1 == k - 1,
        ;
        assert(h.dy * k == h.dy * k1 + h.dy) by (nonlinear_arith)
            requires
                k >= 1,
                k1 == k - 1,
        ;
        if h.dx >= 0 {
            assert(0 <= h.dx * k1 <= h.dx * k) by (nonlinear_arith)
                requires
                    h.dx >= 0,
                    0 <= k1 <= k,
            ;
        } else {
            assert(h.dx * k <= h.dx * k1 <= 0) by (nonlinear_arith)
                requires
                    h.dx < 0,
                    0 <= k1 <= k,
            ;
        }
        if h.dy >= 0 {
            assert(0 <= h.dy * k1 <= h.dy * k) by (nonlinear_arith)
                requires
                    h.dy >= 0,
                    0 <= k1 <= k,
            ;
        } else {
            assert(h.dy * k <= h.dy * k1 <= 0) by (nonlinear_arith)
                requires
                    h.dy < 0,
                    0 <= k1 <= k,
            ;
        }
        lemma_pos_after_exact(p, h, k1);
        let q = pos_after(p, h, 1, k1);
        assert(q.x == p.x + h.dx * k1 && q.y == p.y + h.dy * k1);
        assert(pos_after(p, h, 1, k) == step_pos(q, h, 1));
        assert(q.x + h.dx * 1 == p.x + h.dx * k);
        assert(q.y + h.dy * 1 == p.y + h.dy * k);
        assert(sat_i64(q.x + h.dx * 1) == p.x + h.dx * k);
        assert(sat_i64(q.y + h.dy * 1) == p.y + h.dy * k);
        assert(step_pos(q, h, 1).x == p.x + h.dx * k);
        assert(step_pos(q, h, 1).y == p.y + h.dy * k);
    } else {
        assert(h.dx * k == 0) by (nonlinear_arith)
            requires
                k == 0,
        ;
        assert(h.dy * k == 0) by (nonlinear_arith)
            requires
                k == 0,
        ;
    }
}

/// The vector-sum reading of a run: each `walk n` adds the heading in
/// effect at that walk, scaled by `n - 1` steps at the fixed speed, to an
/// ideal unclamped position; each `rotation` replaces the heading. The
/// result is `None` when some line fails to parse or some walk's endpoint
/// leaves the representable plane.
pub open spec fn vector_run(s: MotionState, lines: Seq<Seq<char>>) -> Option<MotionState>
    decreases lines.len(),
{
    if lines.len() == 0 {
        Some(s)
    } else {
        match spec_parse(lines[0]) {
            Err(_) => None,
            Ok(None) => vector_run(s, lines.drop_first()),
            Ok(Some(Instruction::Rotate(d))) => vector_run(apply_rotate(s, d), lines.drop_first()),
            Ok(Some(Instruction::Walk(n))) => {
                let x = s.pos.x + s.heading.dx * s.speed * (walk_steps(n) as int);
                let y = s.pos.y + s.heading.dy * s.speed * (walk_steps(n) as int);
                if i64::MIN <= x <= i64::MAX && i64::MIN <= y <= i64::MAX {
                    vector_run(
                        MotionState {
                            pos: Position { x: x as i64, y: y as i64 },
                            heading: Heading::zero(),
                            ..s
                        },
                        lines.drop_first(),
                    )
                } else {
                    None
                }
            },
        }
    }
}

/// For every well-formed instruction text whose walks stay on the
/// representable plane, the run succeeds and its final position is the
/// vector sum of each walk's `(n - 1) * speed` displacement, scaled by the
/// heading in effect at that walk, applied in file order from the starting
/// position.
pub proof fn lemma_run_is_vector_sum(s: MotionState, lines: Seq<Seq<char>>)
    requires
        s.wf(),
        vector_run(s, lines) is Some,
    ensures
        run_lines(s, lines).error is None,
        vector_run(s, lines) == Some(run_lines(s, lines).state),
    decreases lines.len(),
{
    if lines.len() > 0 {
        match spec_parse(lines[0]) {
            Err(_) => {
                assert(false);
            },
            Ok(None) => {
                lemma_run_is_vector_sum(s, lines.drop_first());
            },
            Ok(Some(Instruction::Rotate(d))) => {
                lemma_run_is_vector_sum(apply_rotate(s, d), lines.drop_first());
            },
            Ok(Some(Instruction::Walk(n))) => {
                let k = walk_steps(n);
                let x = s.pos.x + s.heading.dx * s.speed * (k as int);
                let y = s.pos.y + s.heading.dy * s.speed * (k as int);
                assert(s.heading.dx * s.speed * (k as int) == s.heading.dx * (k as int))
                    by (nonlinear_arith)
                    requires
                        s.speed == 1,
                ;
                assert(s.heading.dy * s.speed * (k as int) == s.heading.dy * (k as int))
                    by (nonlinear_arith)
                    requires
                        s.speed == 1,
                ;
                lemma_pos_after_exact(s.pos, s.heading, k);
                let next = apply_walk(s, n);
                assert(next.pos.x == x && next.pos.y == y);
                assert(vector_run(s, lines) == vector_run(next, lines.drop_first()));
                lemma_run_is_vector_sum(next, lines.drop_first());
            },
        }
    }
}

} // verus!
