//! Deterministic per-frame simulation step. Given the current world state
//! and exactly one input token per player handle, it produces the next
//! world state as a pure function of those two values alone: no clock, no
//! randomness, no hidden state. That purity is what lets a rollback engine
//! re-execute past frames with corrected inputs and land on the same state
//! it would have reached with the correct inputs from the start.
//!
//! Positions are fixed-point integers (hundredths of a scene unit), so the
//! result is bit-identical on every machine.

use vstd::prelude::*;
use crate::codec::{decode, decode_spec, token_valid, CodecError, Intent};

verus! {

/// Distance a player moves along one axis in one frame, in position units
/// (hundredths of a scene unit).
pub const MOVE_SPEED: i64 = 13;

/// A player entity's position, in fixed-point hundredths of a scene unit.
#[derive(Clone, Copy, PartialEq, Eq, Structural, Debug)]
pub struct Position {
    pub x: i64,
    pub y: i64,
}

/// The whole simulation state: one position per player handle, indexed by
/// handle. Owned exclusively by the step function; nothing else mutates it.
#[derive(Clone, Debug)]
pub struct WorldState {
    pub positions: Vec<Position>,
}

/// Step failure: the input array did not hold exactly one token per handle.
#[derive(Clone, Copy, PartialEq, Eq, Structural, Debug)]
pub enum StepError {
    InputCountMismatch,
}

impl View for WorldState {
    type V = Seq<Position>;

    open spec fn view(&self) -> Seq<Position> {
        self.positions@
    }
}

/// Net x-direction of an intent: right and left contribute additively, so
/// pressing both cancels out.
pub open spec fn dir_x(i: Intent) -> int {
    (if i.right {
        1int
    } else {
        0int
    }) - (if i.left {
        1int
    } else {
        0int
    })
}

/// Net y-direction of an intent: up is positive, down negative.
pub open spec fn dir_y(i: Intent) -> int {
    (if i.up {
        1int
    } else {
        0int
    }) - (if i.down {
        1int
    } else {
        0int
    })
}

/// Saturates a mathematical integer into the representable coordinate
/// range.
pub open spec fn clamp_coord(v: int) -> int {
    if v > i64::MAX as int {
        i64::MAX as int
    } else if v < i64::MIN as int {
        i64::MIN as int
    } else {
        v
    }
}

/// Next position of a single handle given its input token: a valid token
/// moves the entity by the fixed per-tick speed along each intended axis;
/// an invalid (corrupted or foreign) token degrades to no intent and the
/// handle stays put. Other handles are unaffected either way.
pub open spec fn step_position(p: Position, t: u8) -> Position {
    if token_valid(t) {
        let i = decode_spec(t);
        Position {
            x: clamp_coord(p.x + MOVE_SPEED * dir_x(i)) as i64,
            y: clamp_coord(p.y + MOVE_SPEED * dir_y(i)) as i64,
        }
    } else {
        p
    }
}

/// Next world state: each handle's position advances by its own token,
/// independently of every other handle.
pub open spec fn step_spec(s: Seq<Position>, inputs: Seq<u8>) -> Seq<Position> {
    Seq::new(s.len(), |h: int| step_position(s[h], inputs[h]))
}

/// A whole run: folds the step over a sequence of frames, each frame being
/// one full input array.
pub open spec fn run_spec(s: Seq<Position>, frames: Seq<Seq<u8>>) -> Seq<Position>
    decreases frames.len(),
{
    if frames.len() == 0 {
        s
    } else {
        run_spec(step_spec(s, frames[0]), frames.drop_first())
    }
}

/// Moves one coordinate by a delta, saturating at the ends of the
/// representable range instead of wrapping or trapping.
fn translate_coord(v: i64, delta: i64) -> (r: i64)
    ensures
        r as int == clamp_coord(v + delta),
{
    if delta >= 0 {
        if v > i64::MAX - delta {
            i64::MAX
        } else {
            v + delta
        }
    } else {
        if v < i64::MIN - delta {
            i64::MIN
        } else {
            v + delta
        }
    }
}

/// Advances one handle's position by its decoded input token.
fn advance_position(p: &Position, t: u8) -> (r: Position)
    ensures
        r == step_position(*p, t),
{
    let intent: Intent = match decode(t) {
        Ok(i) => i,
        Err(CodecError::InvalidInputEncoding) => {
            // A corrupted input is local and non-fatal: treat it as no
            // intent for this handle only, never abort the frame.
            return *p;
        },
    };
    let mut dx: i64 = 0;
    let mut dy: i64 = 0;
    if intent.right {
        dx = dx + MOVE_SPEED;
    }
    if intent.left {
        dx = dx - MOVE_SPEED;
    }
    if intent.up {
        dy = dy + MOVE_SPEED;
    }
    if intent.down {
        dy = dy - MOVE_SPEED;
    }
    Position { x: translate_coord(p.x, dx), y: translate_coord(p.y, dy) }
}

/// Advances the whole world by one frame. The input array must hold exactly
/// one token per handle, in handle order; any other shape is rejected whole
/// before any position is touched. On success the result is exactly the
/// step function of (state, inputs) and of nothing else.
pub fn step(s: &WorldState, inputs: &Vec<u8>) -> (r: Result<WorldState, StepError>)
    ensures
        inputs@.len() == s@.len() ==> (r matches Ok(ns) && ns@ == step_spec(s@, inputs@)),
        inputs@.len() != s@.len() ==> r == Err::<WorldState, StepError>(
            StepError::InputCountMismatch,
        ),
{
    if inputs.len() != s.positions.len() {
        return Err(StepError::InputCountMismatch);
    }
    let n = s.positions.len();
    let mut next: Vec<Position> = Vec::new();
    let mut h: usize = 0;
    while h < n
        invariant
            n == s@.len(),
            inputs@.len() == n,
            h <= n,
            next@.len() == h,
            forall|j: int| 0 <= j < h ==> next@[j] == step_position(s@[j], inputs@[j]),
        decreases n - h,
    {
        let p = advance_position(&s.positions[h], inputs[h]);
        next.push(p);
        h = h + 1;
    }
    proof {
        assert(next@ =~= step_spec(s@, inputs@));
    }
    Ok(WorldState { positions: next })
}

/// Determinism: the step is a function of the world state and the input
/// array alone, so two invocations on equal state and equal inputs yield
/// identical output, however many times and in whatever process order they
/// run.
pub proof fn lemma_step_deterministic(s1: Seq<Position>, i1: Seq<u8>, s2: Seq<Position>, i2: Seq<u8>)
    requires
        s1 == s2,
        i1 == i2,
    ensures
        step_spec(s1, i1) == step_spec(s2, i2),
{
}

/// Handle independence: each handle's next position depends only on its own
/// current position and its own token.
pub proof fn lemma_handles_independent(s: Seq<Position>, inputs: Seq<u8>, h: int)
    requires
        0 <= h < s.len(),
    ensures
        step_spec(s, inputs)[h] == step_position(s[h], inputs[h]),
{
}

/// A frame of all-zero tokens (no intent from any handle) leaves the world
/// state exactly as it was.
pub proof fn lemma_zero_input_is_identity(s: Seq<Position>, inputs: Seq<u8>)
    requires
        inputs.len() == s.len(),
        forall|h: int| 0 <= h < inputs.len() ==> inputs[h] == 0u8,
    ensures
        step_spec(s, inputs) == s,
{
    assert forall|h: int| 0 <= h < s.len() implies step_spec(s, inputs)[h] == s[h] by {
        assert(step_position(s[h], 0u8) == s[h]);
    }
    assert(step_spec(s, inputs) =~= s);
}

/// Splitting a run at a snapshot changes nothing: playing the first frames,
/// snapshotting, and playing the rest from the snapshot lands on the same
/// state as the unbroken run. This is what makes restoring a saved state
/// and replaying sound.
pub proof fn lemma_run_append(s: Seq<Position>, a: Seq<Seq<u8>>, b: Seq<Seq<u8>>)
    ensures
        run_spec(s, a + b) == run_spec(run_spec(s, a), b),
    decreases a.len(),
{
    if a.len() == 0 {
        assert(a + b =~= b);
    } else {
        assert((a + b)[0] == a[0]);
        assert((a + b).drop_first() =~= a.drop_first() + b);
        lemma_run_append(step_spec(s, a[0]), a.drop_first(), b);
    }
}

/// Rollback correction overwrites prediction entirely: re-running a frame
/// from its pre-frame snapshot with the corrected input, then playing the
/// remaining frames, equals the run that used the corrected input from the
/// start. The speculative state computed from a predicted input appears
/// nowhere in the result, whatever that prediction was.
pub proof fn lemma_correction_overwrites_prediction(
    s: Seq<Position>,
    predicted: Seq<u8>,
    corrected: Seq<u8>,
    rest: Seq<Seq<u8>>,
)
    ensures
        run_spec(step_spec(s, corrected), rest) == run_spec(s, rest.insert(0, corrected)),
        step_spec(s, corrected) == run_spec(s, seq![corrected]),
{
    let frames = rest.insert(0, corrected);
    assert(frames[0] == corrected);
    assert(frames.drop_first() =~= rest);
    let one = seq![corrected];
    assert(one[0] == corrected);
    assert(one.drop_first() =~= Seq::<Seq<u8>>::empty());
    assert(run_spec(step_spec(s, corrected), Seq::<Seq<u8>>::empty()) == step_spec(s, corrected));
    assert(run_spec(s, one) == run_spec(step_spec(s, corrected), one.drop_first()));
}

} // verus!
