//! Key presses as the views see them, and the clamped cursor movement that
//! the scrollable views share.
use vstd::prelude::*;

verus! {

/// A key press, reduced to what the views tell apart.
#[derive(Clone, Copy, PartialEq, Eq, Structural, Debug)]
pub enum Key {
    Esc,
    /// `c` with the control modifier.
    CtrlC,
    Char(char),
    Backspace,
    Enter,
    Tab,
    Up,
    Down,
    /// Any key that no view reacts to.
    Other,
}

/// Whether a view keeps running after a key.
#[derive(Clone, Copy, PartialEq, Eq, Structural, Debug)]
pub enum Flow {
    Continue,
    Exit,
}

/// One move of a cursor: down by one up to `max`, or up by one down to 0.
pub open spec fn clamped_step(pos: int, down: bool, max: int) -> int {
    if down {
        if pos < max {
            pos + 1
        } else {
            pos
        }
    } else {
        if pos > 0 {
            pos - 1
        } else {
            pos
        }
    }
}

/// Where a cursor ends after a run of moves (`true` for down, `false` for up).
pub open spec fn clamped_steps(pos: int, moves: Seq<bool>, max: int) -> int
    decreases moves.len(),
{
    if moves.len() == 0 {
        pos
    } else {
        clamped_steps(clamped_step(pos, moves[0], max), moves.drop_first(), max)
    }
}

/// A cursor that starts in `[0, max]` stays there, whatever the moves.
pub proof fn lemma_steps_in_range(pos: int, moves: Seq<bool>, max: int)
    requires
        0 <= pos <= max,
    ensures
        0 <= clamped_steps(pos, moves, max) <= max,
    decreases moves.len(),
{
    if moves.len() > 0 {
        lemma_steps_in_range(clamped_step(pos, moves[0], max), moves.drop_first(), max);
    }
}

/// At either end, repeating the move towards that end leaves the cursor there.
pub proof fn lemma_steps_hold_at_ends(n: nat, max: int)
    requires
        0 <= max,
    ensures
        clamped_steps(max, Seq::new(n, |i: int| true), max) == max,
        clamped_steps(0, Seq::new(n, |i: int| false), max) == 0,
    decreases n,
{
    if n > 0 {
        lemma_steps_hold_at_ends((n - 1) as nat, max);
        assert(Seq::new(n, |i: int| true).drop_first() =~= Seq::new((n - 1) as nat, |i: int| true));
        assert(Seq::new(n, |i: int| false).drop_first() =~= Seq::new((n - 1) as nat, |i: int| false));
    }
}

/// `k` presses down from `pos` end at `min(pos + k, max)`.
pub proof fn lemma_downs(pos: int, k: nat, max: int)
    requires
        0 <= pos <= max,
    ensures
        clamped_steps(pos, Seq::new(k, |i: int| true), max) == if pos + k < max {
            pos + k
        } else {
            max
        },
    decreases k,
{
    if k > 0 {
        assert(Seq::new(k, |i: int| true).drop_first() =~= Seq::new((k - 1) as nat, |i: int| true));
        lemma_downs(clamped_step(pos, true, max), (k - 1) as nat, max);
    }
}

/// `k` presses up from `pos` end at `pos - min(pos, k)`.
pub proof fn lemma_ups(pos: int, k: nat, max: int)
    requires
        0 <= pos,
    ensures
        clamped_steps(pos, Seq::new(k, |i: int| false), max) == if k < pos {
            pos - k
        } else {
            0
        },
    decreases k,
{
    if k > 0 {
        assert(Seq::new(k, |i: int| false).drop_first() =~= Seq::new((k - 1) as nat, |i: int| false));
        lemma_ups(clamped_step(pos, false, max), (k - 1) as nat, max);
    }
}

} // verus!
