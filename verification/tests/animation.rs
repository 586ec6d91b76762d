use cow_dance::choreo::{target_pose, AnimationPhase, Choreography};
use cow_dance::interp::step;
use cow_dance::rotation::RotationVector;

// The spin starts from 0, 1.5, -1.5 radians: 0, 150, -150 fixed-point units.
fn initial_rotation() -> RotationVector {
    RotationVector::new(0, 150, -150)
}

#[test]
fn step_delta_is_scaled_gap() {
    // Gaps (120, -50, 130) at gain 1/5 give the exact deltas (24, -10, 26).
    let current = RotationVector::new(100, 200, -300);
    let target = RotationVector::new(220, 150, -170);
    let (delta, converged) = step(current, target, 1, 5);
    assert_eq!(delta, RotationVector::new(24, -10, 26));
    assert!(!converged);
}

#[test]
fn step_delta_rounds_toward_zero() {
    // A gap of 7 scales to 1, and a gap of -7 to -1.
    let current = RotationVector::new(213, 157, -170);
    let target = RotationVector::new(220, 150, -170);
    let (delta, converged) = step(current, target, 1, 5);
    assert_eq!(delta, RotationVector::new(1, -1, 0));
    assert!(!converged);
}

#[test]
fn step_general_gain() {
    // Gain 3/4 of a 100-unit gap moves 75 units; gain 1 covers the whole gap.
    let current = RotationVector::new(0, 0, 0);
    let target = RotationVector::new(100, -100, 0);
    let (delta, _) = step(current, target, 3, 4);
    assert_eq!(delta, RotationVector::new(75, -75, 0));
    let (delta, converged) = step(current, target, 1, 1);
    assert_eq!(delta, target);
    assert!(!converged);
}

#[test]
fn step_convergence_boundary() {
    // A delta of magnitude exactly one unit (0.01 radian) has not converged.
    let target = RotationVector::new(220, 150, -170);
    let (delta, converged) = step(RotationVector::new(215, 150, -170), target, 1, 5);
    assert_eq!(delta, RotationVector::new(1, 0, 0));
    assert!(!converged);
    // One unit closer, the delta truncates to zero and the step converges.
    let (delta, converged) = step(RotationVector::new(216, 150, -170), target, 1, 5);
    assert_eq!(delta, RotationVector::new(0, 0, 0));
    assert!(converged);
    // At the target itself the step converges with a zero delta.
    let (delta, converged) = step(target, target, 1, 5);
    assert_eq!(delta, RotationVector::new(0, 0, 0));
    assert!(converged);
}

#[test]
fn new_machine_starts_spinning() {
    let machine = Choreography::new();
    assert_eq!(machine.phase(), AnimationPhase::Rotation);
}

#[test]
fn spin_lasts_exactly_sixty_three_frames() {
    let mut machine = Choreography::new();
    let mut rotation = initial_rotation();
    for _ in 0..62 {
        machine.advance(&mut rotation);
        assert_eq!(machine.phase(), AnimationPhase::Rotation);
    }
    machine.advance(&mut rotation);
    assert_eq!(machine.phase(), AnimationPhase::LeftWhipDown);
}

#[test]
fn spin_keeps_x_reduced_modulo_full_turn() {
    let mut machine = Choreography::new();
    let mut rotation = initial_rotation();
    for frame in 1..=63i64 {
        machine.advance(&mut rotation);
        assert!(0 <= rotation.x && rotation.x < 628);
        assert_eq!(rotation.x, (20 * frame) % 628);
        assert_eq!(rotation.y, 150);
        assert_eq!(rotation.z, -150);
    }
}

#[test]
fn ten_spin_frames_reach_two_radians() {
    // After 10 frames of the spin, x is 0.2 * 10 = 2.0 radians exactly, z is
    // pinned at -1.5 and y is untouched at 1.5.
    let mut machine = Choreography::new();
    let mut rotation = initial_rotation();
    for _ in 0..10 {
        machine.advance(&mut rotation);
    }
    assert_eq!(rotation, RotationVector::new(200, 150, -150));
    assert_eq!(machine.phase(), AnimationPhase::Rotation);
}

#[test]
fn whip_sequence_runs_three_cycles_and_snaps() {
    let mut machine = Choreography::new();
    let mut rotation = initial_rotation();
    // Play the spin out.
    for _ in 0..63 {
        machine.advance(&mut rotation);
    }
    assert_eq!(machine.phase(), AnimationPhase::LeftWhipDown);

    // Run the whip sequence to its end, recording each phase entered. Every
    // phase change is a convergence event, and on each one the rotation must
    // sit exactly on the target pose of the phase it leaves.
    let mut entered: Vec<AnimationPhase> = Vec::new();
    let mut frames: i64 = 0;
    while machine.phase() != AnimationPhase::Rotation {
        let before = machine.phase();
        machine.advance(&mut rotation);
        let after = machine.phase();
        if after != before {
            assert_eq!(rotation, target_pose(before));
            entered.push(after);
        }
        frames += 1;
        assert!(frames < 10_000, "whip sequence failed to return to the spin");
    }

    let l_down = AnimationPhase::LeftWhipDown;
    let l_up = AnimationPhase::LeftWhipUp;
    let r_up = AnimationPhase::RightWhipUp;
    let r_down = AnimationPhase::RightWhipDown;
    let spin = AnimationPhase::Rotation;
    let expected = vec![
        l_up, l_down, l_up, l_down, l_up, // first left set, third convergence completes a cycle
        r_up, r_down, r_up, r_down, r_up, // first right set
        l_up, l_down, l_up, l_down, l_up, // second cycle completed
        r_up, r_down, r_up, r_down, r_up, // second right set
        l_up, l_down, l_up, l_down, l_up, // third cycle completed
        spin, // back to the spin after exactly 3 cycles
    ];
    assert_eq!(entered, expected);

    // Exactly 26 convergence events, the last of which re-enters the spin
    // with the rotation snapped to the left-whip-up target.
    assert_eq!(entered.len(), 26);
    assert_eq!(rotation, target_pose(l_up));
}

#[test]
fn whip_targets_match_the_pose_table() {
    assert_eq!(
        target_pose(AnimationPhase::LeftWhipDown),
        RotationVector::new(220, 150, -170)
    );
    assert_eq!(
        target_pose(AnimationPhase::LeftWhipUp),
        RotationVector::new(200, 150, -140)
    );
    assert_eq!(
        target_pose(AnimationPhase::RightWhipUp),
        RotationVector::new(250, 150, -140)
    );
    assert_eq!(
        target_pose(AnimationPhase::RightWhipDown),
        RotationVector::new(220, 150, -170)
    );
}

#[test]
fn machine_loops_forever_through_both_segments() {
    // Two full spin + whip rounds: the machine always comes back to the spin,
    // and the spin re-enters from the left-whip-up pose with z re-pinned.
    let mut machine = Choreography::new();
    let mut rotation = initial_rotation();
    let mut returns: i64 = 0;
    let mut frames: i64 = 0;
    let mut was_spinning = true;
    while returns < 2 {
        machine.advance(&mut rotation);
        let spinning = machine.phase() == AnimationPhase::Rotation;
        if spinning && !was_spinning {
            returns += 1;
        }
        if spinning {
            assert!(0 <= rotation.x && rotation.x < 628);
        }
        was_spinning = spinning;
        frames += 1;
        assert!(frames < 100_000, "choreography stopped cycling");
    }
}
