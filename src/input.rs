use vstd::prelude::*;
use crate::geometry::Point3;

verus! {

/// Velocity added per tick while a steering key is held, in thousandths of a
/// unit per second (0.1).
pub const VELOCITY_STEP: i64 = 100;

/// The keys read this tick: `A` steers left, `S` steers right, and `F11`
/// (on the tick it goes down) toggles fullscreen.
#[derive(Clone, Copy, Debug, PartialEq, Eq, Structural)]
pub struct KeyState {
    pub left_held: bool,
    pub right_held: bool,
    pub fullscreen_pressed: bool,
}

/// How the window is shown.
#[derive(Clone, Copy, Debug, PartialEq, Eq, Structural)]
pub enum WindowMode {
    Windowed,
    BorderlessFullscreen,
    SizedFullscreen,
    Fullscreen,
}

/// Change of the lateral velocity that the held keys ask for in one tick.
pub open spec fn steer_delta(keys: KeyState) -> int {
    (if keys.right_held { VELOCITY_STEP as int } else { 0 }) - (if keys.left_held {
        VELOCITY_STEP as int
    } else {
        0
    })
}

/// The mode that the fullscreen key switches to: borderless fullscreen goes
/// back to a window, every other mode to borderless fullscreen.
pub open spec fn toggled(mode: WindowMode) -> WindowMode {
    match mode {
        WindowMode::BorderlessFullscreen => WindowMode::Windowed,
        _ => WindowMode::BorderlessFullscreen,
    }
}

/// Whether one more tick of `keys` keeps the lateral velocity `vx` in range.
pub open spec fn can_steer(vx: int, keys: KeyState) -> bool {
    i64::MIN <= vx + steer_delta(keys) <= i64::MAX
}

/// The fullscreen toggle.
pub fn toggle_window_mode(mode: WindowMode) -> (r: WindowMode)
    ensures
        r == toggled(mode),
{
    match mode {
        WindowMode::BorderlessFullscreen => WindowMode::Windowed,
        _ => WindowMode::BorderlessFullscreen,
    }
}

/// Applies one tick of keyboard input: each held steering key adds its step
/// to the lateral (`x`) velocity, with no decay and no clamp, and the
/// fullscreen key toggles the window mode.
pub fn handle_input(velocity: &mut Point3, mode: &mut WindowMode, keys: KeyState)
    requires
        can_steer(old(velocity).x as int, keys),
    ensures
        final(velocity).x == old(velocity).x + steer_delta(keys),
        final(velocity).y == old(velocity).y,
        final(velocity).z == old(velocity).z,
        *final(mode) == (if keys.fullscreen_pressed {
            toggled(*old(mode))
        } else {
            *old(mode)
        }),
{
    let mut vx: i128 = velocity.x as i128;
    if keys.left_held {
        vx = vx - VELOCITY_STEP as i128;
    }
    if keys.right_held {
        vx = vx + VELOCITY_STEP as i128;
    }
    velocity.x = vx as i64;
    if keys.fullscreen_pressed {
        *mode = toggle_window_mode(*mode);
    }
}

/// The lateral velocity after `n` ticks of `keys`, from `vx`.
pub open spec fn held_velocity(vx: int, keys: KeyState, n: nat) -> int
    decreases n,
{
    if n == 0 {
        vx
    } else {
        held_velocity(vx, keys, (n - 1) as nat) + steer_delta(keys)
    }
}

/// Holding the same keys for `n` ticks moves the lateral velocity by exactly
/// `n` steps, with no bound, and each further tick moves it the same way.
pub proof fn lemma_held_keys_accumulate(vx: int, keys: KeyState, n: nat)
    ensures
        held_velocity(vx, keys, n) == vx + n * steer_delta(keys),
        forall|m: nat| m <= n ==> (steer_delta(keys) >= 0 ==> #[trigger] held_velocity(vx, keys, m)
            <= held_velocity(vx, keys, n)),
        forall|m: nat| m <= n ==> (steer_delta(keys) <= 0 ==> #[trigger] held_velocity(vx, keys, m)
            >= held_velocity(vx, keys, n)),
    decreases n,
{
    let d = steer_delta(keys);
    if n > 0 {
        let p = (n - 1) as nat;
        lemma_held_keys_accumulate(vx, keys, p);
        assert(held_velocity(vx, keys, n) == held_velocity(vx, keys, p) + d);
        assert(p * d + d == n * d) by (nonlinear_arith)
            requires
                p + 1 == n,
        ;
    }
    assert forall|m: nat| m <= n implies #[trigger] held_velocity(vx, keys, m) == vx + m * d by {
        if m < n {
            lemma_held_keys_accumulate(vx, keys, m);
        }
    }
    assert forall|m: nat| m <= n implies (d >= 0 ==> #[trigger] (m * d) <= n * d) && (d <= 0 ==> m
        * d >= n * d) by {
        assert((d >= 0 ==> m * d <= n * d) && (d <= 0 ==> m * d >= n * d)) by (nonlinear_arith)
            requires
                m <= n,
        ;
    }
}

} // verus!
