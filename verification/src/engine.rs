//! The execution engine: it consumes the instruction lines in file order,
//! applies each parsed instruction to the motion state, and collects one
//! render snapshot per unit step of movement.

use vstd::prelude::*;
use crate::motion::{
    dir_vec, pos_after, walk_frames, walk_steps, Direction, Heading, MotionState, Position,
};
use crate::parse::{parse, spec_parse, Instruction, TurtleError};
use crate::text::{spec_lines, split_lines, views_of};

verus! {

/// What a run over a sequence of instruction lines produces: the state it
/// ends in, the render snapshots it emitted, and the error that stopped it,
/// if one did.
pub ghost struct RunOutcome {
    pub state: MotionState,
    pub frames: Seq<Position>,
    pub error: Option<TurtleError>,
}

/// The state after a `rotation` instruction: the heading is overwritten
/// with the direction's unit vector and nothing else changes.
pub open spec fn apply_rotate(s: MotionState, d: Direction) -> MotionState {
    MotionState { heading: dir_vec(d), ..s }
}

/// The state after a `walk n` instruction: the position has advanced by
/// `n - 1` unit steps in the current heading and the heading is reset to
/// zero.
pub open spec fn apply_walk(s: MotionState, n: u64) -> MotionState {
    MotionState {
        pos: pos_after(s.pos, s.heading, s.speed as int, walk_steps(n)),
        heading: Heading::zero(),
        ..s
    }
}

/// Runs the instruction lines in order from state `s`. A line that fails to
/// parse stops the run at once: the state keeps every instruction applied
/// before the failing line and none after it. A skipped blank line changes
/// nothing. Each walk contributes one frame per unit step.
pub open spec fn run_lines(s: MotionState, lines: Seq<Seq<char>>) -> RunOutcome
    decreases lines.len(),
{
    if lines.len() == 0 {
        RunOutcome { state: s, frames: Seq::empty(), error: None }
    } else {
        match spec_parse(lines[0]) {
            Err(e) => RunOutcome { state: s, frames: Seq::empty(), error: Some(e) },
            Ok(None) => run_lines(s, lines.drop_first()),
            Ok(Some(Instruction::Rotate(d))) => run_lines(apply_rotate(s, d), lines.drop_first()),
            Ok(Some(Instruction::Walk(n))) => {
                let rest = run_lines(apply_walk(s, n), lines.drop_first());
                RunOutcome {
                    state: rest.state,
                    frames: walk_frames(s.pos, s.heading, s.speed as int, walk_steps(n))
                        + rest.frames,
                    error: rest.error,
                }
            },
        }
    }
}

/// Executes the whole instruction text against `state`, appending one
/// render snapshot per unit step to `frames`.
///
/// On the first call (instructions pending) it drains the entire line
/// sequence exactly once, as `run_lines` describes, and then marks the
/// instructions as no longer pending; an instruction that fails to parse
/// aborts the run with its error, leaving the state exactly as the lines
/// before the failure left it. Once the instructions have been fully
/// executed, any further call is a no-op: nothing is re-applied, no frame
/// is emitted, and the call reports success.
pub fn update(state: &mut MotionState, text: &String, frames: &mut Vec<Position>) -> (r: Result<
    (),
    TurtleError,
>)
    requires
        old(state).wf(),
    ensures
        final(state).wf(),
        !old(state).pending ==> r is Ok && *final(state) == *old(state) && final(frames)@ == old(
            frames,
        )@,
        old(state).pending ==> final(frames)@ == old(frames)@ + run_lines(
            *old(state),
            spec_lines(text@),
        ).frames,
        old(state).pending && r is Ok ==> run_lines(*old(state), spec_lines(text@)).error is None
            && *final(state) == (MotionState {
            pending: false,
            ..run_lines(*old(state), spec_lines(text@)).state
        }),
        old(state).pending && r is Err ==> run_lines(*old(state), spec_lines(text@)).error == Some(
            r->Err_0,
        ) && *final(state) == run_lines(*old(state), spec_lines(text@)).state,
{
    if !state.pending {
        return Ok(());
    }
    let ghost s0 = *state;
    let ghost lines = spec_lines(text@);
    let ls = split_lines(text);
    let ghost mut donef = Seq::<Position>::empty();
    let mut i: usize = 0;
    proof {
        assert(lines.skip(0) =~= lines);
        assert(frames@ =~= old(frames)@ + donef);
    }
    while i < ls.len()
        invariant
            state.wf(),
            state.pending,
            i <= ls.len(),
            views_of(ls@) == lines,
            lines == spec_lines(text@),
            s0 == *old(state),
            s0.pending,
            frames@ == old(frames)@ + donef,
            run_lines(s0, lines).error == run_lines(*state, lines.skip(i as int)).error,
            run_lines(s0, lines).state == run_lines(*state, lines.skip(i as int)).state,
            run_lines(s0, lines).frames == donef + run_lines(*state, lines.skip(i as int)).frames,
        decreases ls.len() - i,
    {
        let ghost rest = lines.skip(i as int);
        proof {
            assert(lines.len() == ls@.len());
            assert(rest.len() > 0);
            assert(rest[0] == lines[i as int]);
            assert(rest.drop_first() =~= lines.skip(i as int + 1));
            assert(views_of(ls@)[i as int] == ls@[i as int]@);
        }
        match parse(&ls[i]) {
            Err(e) => {
                proof {
                    assert(run_lines(*state, rest) == (RunOutcome {
                        state: *state,
                        frames: Seq::<Position>::empty(),
                        error: Some(e),
                    }));
                    assert(donef + Seq::<Position>::empty() =~= donef);
                }
                return Err(e);
            },
            Ok(None) => {
                proof {
                    assert(run_lines(*state, rest) == run_lines(*state, rest.drop_first()));
                }
            },
            Ok(Some(Instruction::Rotate(d))) => {
                let ghost pre = *state;
                state.rotate(d);
                proof {
                    assert(*state == apply_rotate(pre, d));
                    assert(run_lines(pre, rest) == run_lines(*state, rest.drop_first()));
                }
            },
            Ok(Some(Instruction::Walk(n))) => {
                let ghost pre = *state;
                let ghost fw = walk_frames(pre.pos, pre.heading, pre.speed as int, walk_steps(n));
                let ghost fprev = frames@;
                state.walk(n, frames);
                proof {
                    assert(*state == apply_walk(pre, n));
                    let rest_o = run_lines(*state, rest.drop_first());
                    assert(run_lines(pre, rest) == (RunOutcome {
                        state: rest_o.state,
                        frames: fw + rest_o.frames,
                        error: rest_o.error,
                    }));
                    assert(donef + (fw + rest_o.frames) =~= (donef + fw) + rest_o.frames);
                    assert(frames@ =~= old(frames)@ + (donef + fw));
                    donef = donef + fw;
                }
            },
        }
        i = i + 1;
    }
    proof {
        assert(lines.skip(ls@.len() as int) =~= Seq::<Seq<char>>::empty());
        assert(run_lines(*state, Seq::<Seq<char>>::empty()) == (RunOutcome {
            state: *state,
            frames: Seq::<Position>::empty(),
            error: None::<TurtleError>,
        }));
        assert(donef + Seq::<Position>::empty() =~= donef);
    }
    state.pending = false;
    Ok(())
}

} // verus!
