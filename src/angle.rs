use vstd::prelude::*;
use vstd::arithmetic::div_mod::lemma_add_mod_noop_right;

verus! {

/// One full turn, in nanodegrees (billionths of a degree).
pub const FULL_TURN: u64 = 360_000_000_000;

/// Angular speed of the cube in degrees per second, which is also
/// nanodegrees per nanosecond.
pub const ANGULAR_SPEED: u64 = 150;

/// The angle reached from `angle` after `dt` nanoseconds, wrapped into one turn.
pub open spec fn advanced(angle: int, dt: int) -> int {
    (angle + ANGULAR_SPEED * dt) % (FULL_TURN as int)
}

/// The angle after `n` frames of `dt` nanoseconds each, starting from zero.
pub open spec fn angle_after_frames(dt: int, n: nat) -> int
    decreases n,
{
    if n == 0 {
        0
    } else {
        advanced(angle_after_frames(dt, (n - 1) as nat), dt)
    }
}

/// Advances `angle` (nanodegrees) by `dt` nanoseconds of rotation and wraps
/// the result into [0, one turn).
pub fn advance_angle(angle: u64, dt: u64) -> (r: u64)
    ensures
        r as int == advanced(angle as int, dt as int),
        r < FULL_TURN,
{
    assert(ANGULAR_SPEED as int * dt as int <= 150 * u64::MAX as int) by (nonlinear_arith)
        requires
            dt <= u64::MAX,
    ;
    let total: u128 = angle as u128 + ANGULAR_SPEED as u128 * dt as u128;
    (total % FULL_TURN as u128) as u64
}

/// Reduces an angle (nanodegrees) into [0, one turn); the rotation of a
/// frame is computed from this value.
pub fn wrap_angle(angle: u64) -> (r: u64)
    ensures
        r as int == angle as int % FULL_TURN as int,
        r < FULL_TURN,
{
    angle % FULL_TURN
}

/// Wrapping does not distinguish angles a full turn apart, so the rotation
/// built from the wrapped angle is the same for both.
pub proof fn lemma_wrap_periodic(angle: int)
    ensures
        angle % (FULL_TURN as int) == (angle + FULL_TURN) % (FULL_TURN as int),
{
    vstd::arithmetic::div_mod::lemma_mod_add_multiples_vanish(angle, FULL_TURN as int);
}

/// After `n` frames of constant duration `dt`, the angle is
/// `ANGULAR_SPEED * dt * n` wrapped into one turn.
pub proof fn lemma_constant_rate(dt: int, n: nat)
    requires
        dt >= 0,
    ensures
        angle_after_frames(dt, n) == (ANGULAR_SPEED * dt * n) % (FULL_TURN as int),
        0 <= angle_after_frames(dt, n) < FULL_TURN,
    decreases n,
{
    if n == 0 {
        assert(ANGULAR_SPEED * dt * n == 0) by (nonlinear_arith)
            requires
                n == 0,
        ;
    } else {
        let m = (n - 1) as nat;
        lemma_constant_rate(dt, m);
        let x = ANGULAR_SPEED * dt * m;
        let step = ANGULAR_SPEED * dt;
        lemma_add_mod_noop_right(step, x, FULL_TURN as int);
        assert(ANGULAR_SPEED * dt * n == x + step) by (nonlinear_arith)
            requires
                n == m + 1,
                x == ANGULAR_SPEED * dt * m,
                step == ANGULAR_SPEED * dt,
        ;
        assert(angle_after_frames(dt, n) == (x % (FULL_TURN as int) + step) % (FULL_TURN as int));
    }
}

} // verus!
