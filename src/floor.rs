use vstd::prelude::*;
use crate::geometry::{Point3, can_offset, offset_spec};

verus! {

/// A new segment is due each time the ceiling of the player's distance along
/// the track, in whole units, is a multiple of this.
pub const SEGMENT_INTERVAL: u64 = 10;

/// Vertical offset of a new segment below the player, in thousandths.
pub const SEGMENT_DROP: i64 = -2000;

/// Downward tilt of every segment about the lateral axis, in thousandths of a
/// degree (-22.5 degrees).
pub const SEGMENT_TILT_MILLIDEGREES: i64 = -22500;

/// Half of a segment's size along each axis, in thousandths (a 10 x 1 x 50 box).
pub const SEGMENT_HALF_X: i64 = 5000;
pub const SEGMENT_HALF_Y: i64 = 500;
pub const SEGMENT_HALF_Z: i64 = 25000;

/// Whether a floor segment was already requested for the current crossing.
#[derive(Clone, Copy, Debug, PartialEq, Eq, Structural)]
pub enum GenerationState {
    Idle,
    Generated,
}

/// A static box of floor: its centre, its half extents and its tilt.
#[derive(Clone, Copy, Debug, PartialEq, Eq, Structural)]
pub struct FloorSegment {
    pub center: Point3,
    pub half_extents: Point3,
    pub tilt_millidegrees: i64,
}

/// `|z|` of a coordinate.
pub open spec fn abs_spec(z: int) -> int {
    if z < 0 { -z } else { z }
}

/// `ceil(|z|)` in whole units, for `z` in thousandths.
pub open spec fn ceil_abs_units(z: int) -> int {
    let a = abs_spec(z);
    if a % 1000 == 0 { a / 1000 } else { a / 1000 + 1 }
}

/// The trigger: `ceil(|z|) mod 10 == 0`.
pub open spec fn at_threshold(z: int) -> bool {
    ceil_abs_units(z) % (SEGMENT_INTERVAL as int) == 0
}

/// One tick of the extender: the next state, and whether a segment is requested.
pub open spec fn floor_step(state: GenerationState, z: int) -> (GenerationState, bool) {
    if at_threshold(z) {
        (GenerationState::Generated, state == GenerationState::Idle)
    } else {
        (GenerationState::Idle, false)
    }
}

/// Whether a segment can be placed under `player` without leaving the
/// coordinate range.
pub open spec fn can_place(player: Point3) -> bool {
    can_offset(player, 0, SEGMENT_DROP as int, 0)
}

/// The segment placed for a player at `player`.
pub open spec fn segment_at(player: Point3) -> FloorSegment {
    FloorSegment {
        center: offset_spec(player, 0, SEGMENT_DROP as int, 0),
        half_extents: Point3 { x: SEGMENT_HALF_X, y: SEGMENT_HALF_Y, z: SEGMENT_HALF_Z },
        tilt_millidegrees: SEGMENT_TILT_MILLIDEGREES,
    }
}

/// `ceil(|z|)` in whole units, for `z` in thousandths of a unit.
pub fn ceil_abs(z: i64) -> (r: u64)
    ensures
        r == ceil_abs_units(z as int),
        (r - 1) * 1000 < abs_spec(z as int) <= r * 1000,
{
    let a: u64 = if z < 0 { (-(z as i128)) as u64 } else { z as u64 };
    let q: u64 = a / 1000;
    if a % 1000 == 0 { q } else { q + 1 }
}

/// Whether a player at depth `z` stands on a segment threshold.
pub fn is_at_threshold(z: i64) -> (r: bool)
    ensures
        r == at_threshold(z as int),
{
    ceil_abs(z) % SEGMENT_INTERVAL == 0
}

/// Advances the generation state for a player at depth `z`, and says whether
/// a new floor segment is to be spawned this tick.
pub fn check_distance(state: &mut GenerationState, z: i64) -> (request: bool)
    ensures
        (*final(state), request) == floor_step(*old(state), z as int),
{
    if is_at_threshold(z) {
        let request = match *state {
            GenerationState::Idle => true,
            GenerationState::Generated => false,
        };
        *state = GenerationState::Generated;
        request
    } else {
        *state = GenerationState::Idle;
        false
    }
}

/// The floor segment spawned under a player at `player`: at the player's
/// `x` and `z`, two units below, with the fixed tilt and size.
pub fn generate_floor(player: Point3) -> (r: FloorSegment)
    requires
        can_place(player),
    ensures
        r == segment_at(player),
        r.center.x == player.x,
        r.center.y == player.y - 2000,
        r.center.z == player.z,
        r.tilt_millidegrees == -22500,
{
    FloorSegment {
        center: player.offset(0, SEGMENT_DROP, 0),
        half_extents: Point3::new(SEGMENT_HALF_X, SEGMENT_HALF_Y, SEGMENT_HALF_Z),
        tilt_millidegrees: SEGMENT_TILT_MILLIDEGREES,
    }
}

/// One tick of the extender for a player at `player`: advances `state` and
/// returns the segment to spawn, if any.
pub fn extend_floor(state: &mut GenerationState, player: Point3) -> (r: Option<FloorSegment>)
    requires
        can_place(player),
    ensures
        *final(state) == floor_step(*old(state), player.z as int).0,
        r == (if floor_step(*old(state), player.z as int).1 {
            Some(segment_at(player))
        } else {
            None
        }),
{
    if check_distance(state, player.z) {
        Some(generate_floor(player))
    } else {
        None
    }
}

/// The state after running the extender over the depths `zs`, one per tick.
pub open spec fn run_state(state: GenerationState, zs: Seq<int>) -> GenerationState
    decreases zs.len(),
{
    if zs.len() == 0 {
        state
    } else {
        run_state(floor_step(state, zs[0]).0, zs.drop_first())
    }
}

/// How many segments are requested while running the extender over `zs`.
pub open spec fn run_requests(state: GenerationState, zs: Seq<int>) -> nat
    decreases zs.len(),
{
    if zs.len() == 0 {
        0
    } else {
        let (next, request) = floor_step(state, zs[0]);
        (if request { 1nat } else { 0nat }) + run_requests(next, zs.drop_first())
    }
}

/// From `Idle`, a tick on a threshold requests exactly one segment and moves
/// to `Generated`.
pub proof fn lemma_threshold_from_idle_requests(z: int)
    requires
        at_threshold(z),
    ensures
        floor_step(GenerationState::Idle, z) == (GenerationState::Generated, true),
{
}

/// While every tick stays on a threshold, at most one segment is requested:
/// one if the run starts `Idle`, none if it starts `Generated`.
pub proof fn lemma_threshold_run_requests_once(state: GenerationState, zs: Seq<int>)
    requires
        zs.len() > 0,
        forall|i: int| 0 <= i < zs.len() ==> at_threshold(#[trigger] zs[i]),
    ensures
        run_requests(state, zs) == (if state == GenerationState::Idle { 1nat } else { 0nat }),
        run_state(state, zs) == GenerationState::Generated,
    decreases zs.len(),
{
    let rest = zs.drop_first();
    if rest.len() > 0 {
        assert forall|i: int| 0 <= i < rest.len() implies at_threshold(#[trigger] rest[i]) by {
            assert(rest[i] == zs[i + 1]);
        }
        lemma_threshold_run_requests_once(GenerationState::Generated, rest);
    } else {
        assert(run_requests(GenerationState::Generated, rest) == 0);
        assert(run_state(GenerationState::Generated, rest) == GenerationState::Generated);
    }
    assert(at_threshold(zs[0]));
    assert(floor_step(state, zs[0]) == (
        GenerationState::Generated, state == GenerationState::Idle));
}

/// A tick off every threshold returns the extender to `Idle` and requests
/// nothing, whatever the state before.
pub proof fn lemma_off_threshold_rearms(state: GenerationState, z: int)
    requires
        !at_threshold(z),
    ensures
        floor_step(state, z) == (GenerationState::Idle, false),
        forall|w: int| at_threshold(w) ==> #[trigger] floor_step(floor_step(state, z).0, w)
            == (GenerationState::Generated, true),
{
}

/// The trigger samples one depth per tick: a player who moves from `z1` to
/// `z2` in one tick, with neither depth on a threshold, gets no segment, even
/// where a multiple of the interval lies between the two.
pub proof fn lemma_skipped_threshold_leaves_gap(state: GenerationState, z1: int, z2: int)
    requires
        !at_threshold(z1),
        !at_threshold(z2),
    ensures
        run_requests(state, seq![z1, z2]) == 0,
        run_state(state, seq![z1, z2]) == GenerationState::Idle,
{
    let zs = seq![z1, z2];
    assert(zs.drop_first() =~= seq![z2]);
    assert(zs.drop_first().drop_first() =~= Seq::<int>::empty());
    reveal_with_fuel(run_requests, 3);
    reveal_with_fuel(run_state, 3);
}

} // verus!
