use vstd::prelude::*;
use vstd::arithmetic::div_mod::{lemma_mod_sub_multiples_vanish, lemma_small_mod};
use crate::interp::{
    CONVERGENCE_SQ, lemma_scaled_bounds, lemma_sub_unit_magnitude_is_zero, scaled, step,
};
use crate::rotation::{COMPONENT_BOUND, RotationVector, sq_mag};

verus! {

/// Per-frame spin increment in the `Rotation` phase: 0.20 radian.
pub const SPIN_INCREMENT: i64 = 20;

/// One full turn, as the choreography reduces it: 6.28 radians.
pub const FULL_TURN: i64 = 628;

/// The z angle the spin keeps pinned: -1.5 radians.
pub const SPIN_PINNED_Z: i64 = -150;

/// Highest step-counter value that keeps the machine spinning; the frame that
/// pushes the counter past it starts the whip sequence.
pub const SPIN_FRAME_LIMIT: u8 = 62;

/// Highest step- or cycle-counter value that keeps a whip phase repeating.
pub const WHIP_REPEAT_LIMIT: u8 = 2;

/// Numerator of the whip interpolation gain.
pub const WHIP_GAIN_NUM: u64 = 1;

/// Denominator of the whip interpolation gain: the gain is 1/5, i.e. 0.2.
pub const WHIP_GAIN_DEN: u64 = 5;

/// The choreography segment currently playing; exactly one is active.
#[derive(Clone, Copy, Debug, PartialEq, Eq, Structural)]
pub enum AnimationPhase {
    /// Continuous spin around the x axis.
    Rotation,
    /// Tail whip, left side, moving down.
    LeftWhipDown,
    /// Tail whip, left side, moving up.
    LeftWhipUp,
    /// Tail whip, right side, moving up.
    RightWhipUp,
    /// Tail whip, right side, moving down.
    RightWhipDown,
}

/// The four whip phases interpolate toward a fixed target pose; the spin
/// phase computes its next value analytically instead, so its entry in the
/// table is never consulted.
pub open spec fn target_of(phase: AnimationPhase) -> RotationVector {
    match phase {
        AnimationPhase::LeftWhipDown => RotationVector { x: 220i64, y: 150i64, z: -170i64 },
        AnimationPhase::LeftWhipUp => RotationVector { x: 200i64, y: 150i64, z: -140i64 },
        AnimationPhase::RightWhipUp => RotationVector { x: 250i64, y: 150i64, z: -140i64 },
        AnimationPhase::RightWhipDown => RotationVector { x: 220i64, y: 150i64, z: -170i64 },
        AnimationPhase::Rotation => RotationVector { x: 0i64, y: 150i64, z: SPIN_PINNED_Z },
    }
}

/// The target pose of a whip phase.
pub fn target_pose(phase: AnimationPhase) -> (r: RotationVector)
    ensures
        r == target_of(phase),
{
    match phase {
        AnimationPhase::LeftWhipDown => RotationVector { x: 220i64, y: 150i64, z: -170i64 },
        AnimationPhase::LeftWhipUp => RotationVector { x: 200i64, y: 150i64, z: -140i64 },
        AnimationPhase::RightWhipUp => RotationVector { x: 250i64, y: 150i64, z: -140i64 },
        AnimationPhase::RightWhipDown => RotationVector { x: 220i64, y: 150i64, z: -170i64 },
        AnimationPhase::Rotation => RotationVector { x: 0i64, y: 150i64, z: SPIN_PINNED_Z },
    }
}

pub open spec fn is_whip(phase: AnimationPhase) -> bool {
    phase != AnimationPhase::Rotation
}

/// The whole visible state of one animation frame: the phase, the two private
/// counters and the three rotation components, as mathematical integers.
pub ghost struct Model {
    pub phase: AnimationPhase,
    pub steps: int,
    pub cycles: int,
    pub x: int,
    pub y: int,
    pub z: int,
}

/// One interpolation delta component of a whip frame.
pub open spec fn whip_delta_x(m: Model) -> int {
    scaled(target_of(m.phase).x - m.x, WHIP_GAIN_NUM as int, WHIP_GAIN_DEN as int)
}

pub open spec fn whip_delta_y(m: Model) -> int {
    scaled(target_of(m.phase).y - m.y, WHIP_GAIN_NUM as int, WHIP_GAIN_DEN as int)
}

pub open spec fn whip_delta_z(m: Model) -> int {
    scaled(target_of(m.phase).z - m.z, WHIP_GAIN_NUM as int, WHIP_GAIN_DEN as int)
}

/// A whip frame converges when the squared magnitude of its interpolation
/// delta falls below the threshold.
pub open spec fn whip_converged(m: Model) -> bool {
    sq_mag(whip_delta_x(m), whip_delta_y(m), whip_delta_z(m)) < CONVERGENCE_SQ
}

/// The phase and counter update applied at a convergence event in a whip
/// phase. The right side is deliberately asymmetric to the left: on reaching
/// its repeat limit, `RightWhipUp` jumps back to `LeftWhipUp`, and the cycle
/// limit is checked inside the `LeftWhipUp` handler only. This mirrors the
/// observed choreography and is kept as such.
pub open spec fn whip_event(phase: AnimationPhase, steps: int, cycles: int) -> (
    AnimationPhase,
    int,
    int,
) {
    match phase {
        AnimationPhase::LeftWhipDown => (AnimationPhase::LeftWhipUp, steps, cycles),
        AnimationPhase::RightWhipDown => (AnimationPhase::RightWhipUp, steps, cycles),
        AnimationPhase::LeftWhipUp => {
            if steps + 1 > WHIP_REPEAT_LIMIT {
                if cycles + 1 > WHIP_REPEAT_LIMIT {
                    (AnimationPhase::Rotation, 0, 0)
                } else {
                    (AnimationPhase::RightWhipUp, 0, cycles + 1)
                }
            } else {
                (AnimationPhase::LeftWhipDown, steps + 1, cycles)
            }
        },
        AnimationPhase::RightWhipUp => {
            if steps + 1 > WHIP_REPEAT_LIMIT {
                (AnimationPhase::LeftWhipUp, 0, cycles)
            } else {
                (AnimationPhase::RightWhipDown, steps + 1, cycles)
            }
        },
        AnimationPhase::Rotation => (phase, steps, cycles),
    }
}

/// The x component after one spin frame: incremented, then reduced modulo a
/// full turn.
pub open spec fn spin_next_x(x: int) -> int {
    (x + SPIN_INCREMENT) % (FULL_TURN as int)
}

/// One frame of the choreography, on the whole-state model.
pub open spec fn advance_model(m: Model) -> Model {
    if m.phase == AnimationPhase::Rotation {
        let nx = spin_next_x(m.x);
        if m.steps + 1 > SPIN_FRAME_LIMIT {
            Model {
                phase: AnimationPhase::LeftWhipDown,
                steps: 0,
                cycles: m.cycles,
                x: nx,
                y: m.y,
                z: SPIN_PINNED_Z as int,
            }
        } else {
            Model {
                phase: m.phase,
                steps: m.steps + 1,
                cycles: m.cycles,
                x: nx,
                y: m.y,
                z: SPIN_PINNED_Z as int,
            }
        }
    } else if whip_converged(m) {
        let t = target_of(m.phase);
        let e = whip_event(m.phase, m.steps, m.cycles);
        Model { phase: e.0, steps: e.1, cycles: e.2, x: t.x as int, y: t.y as int, z: t.z as int }
    } else {
        Model {
            phase: m.phase,
            steps: m.steps,
            cycles: m.cycles,
            x: m.x + whip_delta_x(m),
            y: m.y + whip_delta_y(m),
            z: m.z + whip_delta_z(m),
        }
    }
}

/// Well-formedness of a frame state: components within the arithmetic bound,
/// counters within their small thresholds, and the x angle reduced to one
/// turn while spinning.
pub open spec fn wf(m: Model) -> bool {
    &&& -COMPONENT_BOUND <= m.x <= COMPONENT_BOUND
    &&& -COMPONENT_BOUND <= m.y <= COMPONENT_BOUND
    &&& -COMPONENT_BOUND <= m.z <= COMPONENT_BOUND
    &&& 0 <= m.steps
    &&& 0 <= m.cycles <= WHIP_REPEAT_LIMIT
    &&& m.phase == AnimationPhase::Rotation ==> {
        &&& m.steps <= SPIN_FRAME_LIMIT
        &&& m.cycles == 0
        &&& 0 <= m.x < FULL_TURN
    }
    &&& is_whip(m.phase) ==> m.steps <= WHIP_REPEAT_LIMIT
}

/// The frame model iterated `n` times.
pub open spec fn advance_iter(m: Model, n: nat) -> Model
    decreases n,
{
    if n == 0 {
        m
    } else {
        advance_model(advance_iter(m, (n - 1) as nat))
    }
}

/// One frame keeps a state well-formed.
pub proof fn lemma_advance_preserves_wf(m: Model)
    requires
        wf(m),
    ensures
        wf(advance_model(m)),
{
    if m.phase == AnimationPhase::Rotation {
        let nx = m.x + SPIN_INCREMENT;
        if nx < FULL_TURN {
            lemma_small_mod(nx as nat, FULL_TURN as nat);
        } else {
            lemma_mod_sub_multiples_vanish(nx, FULL_TURN as int);
            lemma_small_mod((nx - FULL_TURN) as nat, FULL_TURN as nat);
        }
    } else if !whip_converged(m) {
        let t = target_of(m.phase);
        lemma_scaled_bounds(t.x - m.x, WHIP_GAIN_NUM as int, WHIP_GAIN_DEN as int);
        lemma_scaled_bounds(t.y - m.y, WHIP_GAIN_NUM as int, WHIP_GAIN_DEN as int);
        lemma_scaled_bounds(t.z - m.z, WHIP_GAIN_NUM as int, WHIP_GAIN_DEN as int);
    }
}

/// Any number of frames keeps a state well-formed. In particular, whenever
/// the machine is found in the `Rotation` phase, the x component lies in
/// `[0, FULL_TURN)`: the modulo reduction is an invariant of the whole run.
pub proof fn lemma_iter_preserves_wf(m: Model, n: nat)
    requires
        wf(m),
    ensures
        wf(advance_iter(m, n)),
        advance_iter(m, n).phase == AnimationPhase::Rotation ==> 0 <= advance_iter(m, n).x
            < FULL_TURN,
    decreases n,
{
    if n > 0 {
        lemma_iter_preserves_wf(m, (n - 1) as nat);
        lemma_advance_preserves_wf(advance_iter(m, (n - 1) as nat));
    }
}

/// While the step counter has not yet passed the spin limit, the machine
/// keeps spinning and counts one frame at a time.
proof fn lemma_spin_prefix(m: Model, k: nat)
    requires
        wf(m),
        m.phase == AnimationPhase::Rotation,
        m.steps == 0,
        k <= SPIN_FRAME_LIMIT,
    ensures
        advance_iter(m, k).phase == AnimationPhase::Rotation,
        advance_iter(m, k).steps == k,
        wf(advance_iter(m, k)),
    decreases k,
{
    if k > 0 {
        lemma_spin_prefix(m, (k - 1) as nat);
        lemma_advance_preserves_wf(advance_iter(m, (k - 1) as nat));
    }
}

/// Determinism of the spin: from the start of the `Rotation` phase with the
/// step counter at zero, the machine spins for exactly 63 frames, whatever
/// the rotation holds; the 63rd frame is the first that leaves the phase, and
/// it enters `LeftWhipDown` with the step counter reset to zero.
pub proof fn lemma_spin_lasts_sixty_three_frames(m: Model)
    requires
        wf(m),
        m.phase == AnimationPhase::Rotation,
        m.steps == 0,
    ensures
        advance_iter(m, 63).phase == AnimationPhase::LeftWhipDown,
        advance_iter(m, 63).steps == 0,
        forall|k: nat| k < 63 ==> #[trigger] advance_iter(m, k).phase == AnimationPhase::Rotation,
{
    lemma_spin_prefix(m, 62);
    assert(advance_iter(m, 63) == advance_model(advance_iter(m, 62)));
    assert forall|k: nat| k < 63 implies #[trigger] advance_iter(m, k).phase
        == AnimationPhase::Rotation by {
        lemma_spin_prefix(m, k);
    }
}

/// Snap-to-target: a frame on which a whip phase converges leaves the
/// rotation exactly at that phase's target pose, with no residual error
/// carried into the next phase.
pub proof fn lemma_snap_to_target(m: Model)
    requires
        is_whip(m.phase),
        whip_converged(m),
    ensures
        advance_model(m).x == target_of(m.phase).x as int,
        advance_model(m).y == target_of(m.phase).y as int,
        advance_model(m).z == target_of(m.phase).z as int,
{
}

/// A converging whip frame moves the phase and the counters exactly as the
/// convergence-event automaton does; a non-converging one leaves them alone.
/// Together with `lemma_whip_makes_progress` this reduces the choreography's
/// whip schedule to `whip_event`.
pub proof fn lemma_convergence_drives_events(m: Model)
    requires
        is_whip(m.phase),
    ensures
        whip_converged(m) ==> (
        advance_model(m).phase,
        advance_model(m).steps,
        advance_model(m).cycles,
        ) == whip_event(m.phase, m.steps, m.cycles),
        !whip_converged(m) ==> (
        advance_model(m).phase,
        advance_model(m).steps,
        advance_model(m).cycles,
        ) == (m.phase, m.steps, m.cycles),
{
}

/// Distance left to the current whip target, as a sum of component gaps.
pub open spec fn whip_gap_measure(m: Model) -> nat {
    vstd::math::abs(target_of(m.phase).x - m.x) + vstd::math::abs(target_of(m.phase).y - m.y)
        + vstd::math::abs(target_of(m.phase).z - m.z)
}

/// Every whip phase converges after finitely many frames: a frame that does
/// not converge strictly shrinks the remaining distance to the target, so a
/// convergence event cannot be put off forever.
pub proof fn lemma_whip_makes_progress(m: Model)
    requires
        wf(m),
        is_whip(m.phase),
        !whip_converged(m),
    ensures
        advance_model(m).phase == m.phase,
        0 <= whip_gap_measure(advance_model(m)) < whip_gap_measure(m),
{
    let t = target_of(m.phase);
    lemma_scaled_bounds(t.x - m.x, WHIP_GAIN_NUM as int, WHIP_GAIN_DEN as int);
    lemma_scaled_bounds(t.y - m.y, WHIP_GAIN_NUM as int, WHIP_GAIN_DEN as int);
    lemma_scaled_bounds(t.z - m.z, WHIP_GAIN_NUM as int, WHIP_GAIN_DEN as int);
    lemma_sub_unit_magnitude_is_zero(whip_delta_x(m), whip_delta_y(m), whip_delta_z(m));
}

/// The convergence-event automaton iterated `n` events.
pub open spec fn whip_event_iter(
    phase: AnimationPhase,
    steps: int,
    cycles: int,
    n: nat,
) -> (AnimationPhase, int, int)
    decreases n,
{
    if n == 0 {
        (phase, steps, cycles)
    } else {
        let p = whip_event_iter(phase, steps, cycles, (n - 1) as nat);
        whip_event(p.0, p.1, p.2)
    }
}

/// The convergence event that completes one full left/right whip cycle: a
/// `LeftWhipUp` convergence that pushes the step counter past its limit and
/// so steps the cycle counter.
pub open spec fn completes_cycle(phase: AnimationPhase, steps: int) -> bool {
    phase == AnimationPhase::LeftWhipUp && steps + 1 > WHIP_REPEAT_LIMIT
}

/// How many of the first `n` convergence events complete a full cycle.
pub open spec fn cycle_completions(
    phase: AnimationPhase,
    steps: int,
    cycles: int,
    n: nat,
) -> int
    decreases n,
{
    if n == 0 {
        0
    } else {
        let p = whip_event_iter(phase, steps, cycles, (n - 1) as nat);
        cycle_completions(phase, steps, cycles, (n - 1) as nat) + if completes_cycle(p.0, p.1) {
            1int
        } else {
            0int
        }
    }
}

/// Whip-cycle bound: started at `LeftWhipDown` with both counters at zero —
/// the state the spin hands over — the convergence-event automaton returns to
/// the `Rotation` phase on exactly the 26th event, no earlier, with both
/// counters back at zero, and exactly 3 full left/right whip cycles are
/// completed on the way.
pub proof fn lemma_whip_cycle_bound()
    ensures
        whip_event_iter(AnimationPhase::LeftWhipDown, 0, 0, 26) == (
            AnimationPhase::Rotation,
            0int,
            0int,
        ),
        forall|k: nat|
            k < 26 ==> #[trigger] whip_event_iter(AnimationPhase::LeftWhipDown, 0, 0, k).0
                != AnimationPhase::Rotation,
        cycle_completions(AnimationPhase::LeftWhipDown, 0, 0, 26) == 3,
{
    let d = AnimationPhase::LeftWhipDown;
    assert(whip_event_iter(d, 0, 0, 0) == (AnimationPhase::LeftWhipDown, 0int, 0int));
    assert(whip_event_iter(d, 0, 0, 1) == (AnimationPhase::LeftWhipUp, 0int, 0int));
    assert(whip_event_iter(d, 0, 0, 2) == (AnimationPhase::LeftWhipDown, 1int, 0int));
    assert(whip_event_iter(d, 0, 0, 3) == (AnimationPhase::LeftWhipUp, 1int, 0int));
    assert(whip_event_iter(d, 0, 0, 4) == (AnimationPhase::LeftWhipDown, 2int, 0int));
    assert(whip_event_iter(d, 0, 0, 5) == (AnimationPhase::LeftWhipUp, 2int, 0int));
    assert(whip_event_iter(d, 0, 0, 6) == (AnimationPhase::RightWhipUp, 0int, 1int));
    assert(whip_event_iter(d, 0, 0, 7) == (AnimationPhase::RightWhipDown, 1int, 1int));
    assert(whip_event_iter(d, 0, 0, 8) == (AnimationPhase::RightWhipUp, 1int, 1int));
    assert(whip_event_iter(d, 0, 0, 9) == (AnimationPhase::RightWhipDown, 2int, 1int));
    assert(whip_event_iter(d, 0, 0, 10) == (AnimationPhase::RightWhipUp, 2int, 1int));
    assert(whip_event_iter(d, 0, 0, 11) == (AnimationPhase::LeftWhipUp, 0int, 1int));
    assert(whip_event_iter(d, 0, 0, 12) == (AnimationPhase::LeftWhipDown, 1int, 1int));
    assert(whip_event_iter(d, 0, 0, 13) == (AnimationPhase::LeftWhipUp, 1int, 1int));
    assert(whip_event_iter(d, 0, 0, 14) == (AnimationPhase::LeftWhipDown, 2int, 1int));
    assert(whip_event_iter(d, 0, 0, 15) == (AnimationPhase::LeftWhipUp, 2int, 1int));
    assert(whip_event_iter(d, 0, 0, 16) == (AnimationPhase::RightWhipUp, 0int, 2int));
    assert(whip_event_iter(d, 0, 0, 17) == (AnimationPhase::RightWhipDown, 1int, 2int));
    assert(whip_event_iter(d, 0, 0, 18) == (AnimationPhase::RightWhipUp, 1int, 2int));
    assert(whip_event_iter(d, 0, 0, 19) == (AnimationPhase::RightWhipDown, 2int, 2int));
    assert(whip_event_iter(d, 0, 0, 20) == (AnimationPhase::RightWhipUp, 2int, 2int));
    assert(whip_event_iter(d, 0, 0, 21) == (AnimationPhase::LeftWhipUp, 0int, 2int));
    assert(whip_event_iter(d, 0, 0, 22) == (AnimationPhase::LeftWhipDown, 1int, 2int));
    assert(whip_event_iter(d, 0, 0, 23) == (AnimationPhase::LeftWhipUp, 1int, 2int));
    assert(whip_event_iter(d, 0, 0, 24) == (AnimationPhase::LeftWhipDown, 2int, 2int));
    assert(whip_event_iter(d, 0, 0, 25) == (AnimationPhase::LeftWhipUp, 2int, 2int));
    assert(whip_event_iter(d, 0, 0, 26) == (AnimationPhase::Rotation, 0int, 0int));
    assert(cycle_completions(d, 0, 0, 0) == 0);
    assert(cycle_completions(d, 0, 0, 1) == 0);
    assert(cycle_completions(d, 0, 0, 2) == 0);
    assert(cycle_completions(d, 0, 0, 3) == 0);
    assert(cycle_completions(d, 0, 0, 4) == 0);
    assert(cycle_completions(d, 0, 0, 5) == 0);
    assert(cycle_completions(d, 0, 0, 6) == 1);
    assert(cycle_completions(d, 0, 0, 7) == 1);
    assert(cycle_completions(d, 0, 0, 8) == 1);
    assert(cycle_completions(d, 0, 0, 9) == 1);
    assert(cycle_completions(d, 0, 0, 10) == 1);
    assert(cycle_completions(d, 0, 0, 11) == 1);
    assert(cycle_completions(d, 0, 0, 12) == 1);
    assert(cycle_completions(d, 0, 0, 13) == 1);
    assert(cycle_completions(d, 0, 0, 14) == 1);
    assert(cycle_completions(d, 0, 0, 15) == 1);
    assert(cycle_completions(d, 0, 0, 16) == 2);
    assert(cycle_completions(d, 0, 0, 17) == 2);
    assert(cycle_completions(d, 0, 0, 18) == 2);
    assert(cycle_completions(d, 0, 0, 19) == 2);
    assert(cycle_completions(d, 0, 0, 20) == 2);
    assert(cycle_completions(d, 0, 0, 21) == 2);
    assert(cycle_completions(d, 0, 0, 22) == 2);
    assert(cycle_completions(d, 0, 0, 23) == 2);
    assert(cycle_completions(d, 0, 0, 24) == 2);
    assert(cycle_completions(d, 0, 0, 25) == 2);
    assert(cycle_completions(d, 0, 0, 26) == 3);
    assert forall|k: nat| k < 26 implies #[trigger] whip_event_iter(d, 0, 0, k).0
        != AnimationPhase::Rotation by {
        if k == 0 {
        } else if k == 1 {
        } else if k == 2 {
        } else if k == 3 {
        } else if k == 4 {
        } else if k == 5 {
        } else if k == 6 {
        } else if k == 7 {
        } else if k == 8 {
        } else if k == 9 {
        } else if k == 10 {
        } else if k == 11 {
        } else if k == 12 {
        } else if k == 13 {
        } else if k == 14 {
        } else if k == 15 {
        } else if k == 16 {
        } else if k == 17 {
        } else if k == 18 {
        } else if k == 19 {
        } else if k == 20 {
        } else if k == 21 {
        } else if k == 22 {
        } else if k == 23 {
        } else if k == 24 {
        } else {
            assert(k == 25);
        }
    }
}

/// The choreography state machine: the current phase and its two private
/// repeat counters. It owns no rotation; the host hands its transform's
/// rotation to `advance` each frame.
pub struct Choreography {
    phase: AnimationPhase,
    steps: u8,
    cycles: u8,
}

impl Choreography {
    pub closed spec fn phase_spec(self) -> AnimationPhase {
        self.phase
    }

    pub closed spec fn steps_spec(self) -> int {
        self.steps as int
    }

    pub closed spec fn cycles_spec(self) -> int {
        self.cycles as int
    }

    /// The machine together with a rotation, as one frame state.
    pub open spec fn model(self, rotation: RotationVector) -> Model {
        Model {
            phase: self.phase_spec(),
            steps: self.steps_spec(),
            cycles: self.cycles_spec(),
            x: rotation.x as int,
            y: rotation.y as int,
            z: rotation.z as int,
        }
    }

    /// A fresh machine: spinning, both counters at zero.
    pub fn new() -> (c: Self)
        ensures
            c.phase_spec() == AnimationPhase::Rotation,
            c.steps_spec() == 0,
            c.cycles_spec() == 0,
    {
        Choreography { phase: AnimationPhase::Rotation, steps: 0, cycles: 0 }
    }

    /// The phase currently playing.
    pub fn phase(&self) -> (p: AnimationPhase)
        ensures
            p == self.phase_spec(),
    {
        self.phase
    }

    /// One frame: mutates the rotation in place and takes any phase
    /// transition internally. The new machine and rotation are exactly one
    /// step of the frame model, and stay well-formed.
    pub fn advance(&mut self, rotation: &mut RotationVector)
        requires
            wf(old(self).model(*old(rotation))),
        ensures
            final(self).model(*final(rotation)) == advance_model(old(self).model(*old(rotation))),
            wf(final(self).model(*final(rotation))),
    {
        match self.phase {
            AnimationPhase::Rotation => {
                rotation.z = SPIN_PINNED_Z;
                let nx: i64 = rotation.x + SPIN_INCREMENT;
                proof {
                    if nx < FULL_TURN {
                        lemma_small_mod(nx as nat, FULL_TURN as nat);
                    } else {
                        lemma_mod_sub_multiples_vanish(nx as int, FULL_TURN as int);
                        lemma_small_mod((nx - FULL_TURN) as nat, FULL_TURN as nat);
                    }
                }
                if nx >= FULL_TURN {
                    rotation.x = nx - FULL_TURN;
                } else {
                    rotation.x = nx;
                }
                self.steps = self.steps + 1;
                if self.steps > SPIN_FRAME_LIMIT {
                    self.steps = 0;
                    self.phase = AnimationPhase::LeftWhipDown;
                }
            },
            _ => {
                let target: RotationVector = target_pose(self.phase);
                let (delta, converged) = step(*rotation, target, WHIP_GAIN_NUM, WHIP_GAIN_DEN);
                rotation.x = rotation.x + delta.x;
                rotation.y = rotation.y + delta.y;
                rotation.z = rotation.z + delta.z;
                if converged {
                    *rotation = target;
                    match self.phase {
                        AnimationPhase::LeftWhipDown => {
                            self.phase = AnimationPhase::LeftWhipUp;
                        },
                        AnimationPhase::RightWhipDown => {
                            self.phase = AnimationPhase::RightWhipUp;
                        },
                        AnimationPhase::LeftWhipUp => {
                            self.steps = self.steps + 1;
                            if self.steps > WHIP_REPEAT_LIMIT {
                                self.steps = 0;
                                self.cycles = self.cycles + 1;
                                self.phase = AnimationPhase::RightWhipUp;
                                if self.cycles > WHIP_REPEAT_LIMIT {
                                    self.cycles = 0;
                                    self.phase = AnimationPhase::Rotation;
                                }
                            } else {
                                self.phase = AnimationPhase::LeftWhipDown;
                            }
                        },
                        AnimationPhase::RightWhipUp => {
                            self.steps = self.steps + 1;
                            if self.steps > WHIP_REPEAT_LIMIT {
                                self.steps = 0;
                                self.phase = AnimationPhase::LeftWhipUp;
                            } else {
                                self.phase = AnimationPhase::RightWhipDown;
                            }
                        },
                        AnimationPhase::Rotation => {},
                    }
                }
            },
        }
    }
}

} // verus!
